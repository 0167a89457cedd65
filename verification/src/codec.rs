//! The fixed binary wire record and its little-endian codec.
//!
//! One record carries a magic, the count of bound slots, and for each of the
//! four slots its kind code, 64-bit button mask, and four signed 32-bit stick
//! halves: 4 + 4 * (2 + 8 + 16) = 108 bytes, all little-endian. Field order,
//! widths, and endianness are fixed by the receiver's firmware and must never
//! change.

use vstd::bytes::{
    spec_u16_to_le_bytes, spec_u16_from_le_bytes, lemma_auto_spec_u16_to_from_le_bytes,
    spec_u32_to_le_bytes, spec_u32_from_le_bytes, lemma_auto_spec_u32_to_from_le_bytes,
    spec_u64_to_le_bytes, spec_u64_from_le_bytes, lemma_auto_spec_u64_to_from_le_bytes,
    u16_to_le_bytes, u16_from_le_bytes, u32_to_le_bytes, u32_from_le_bytes, u64_to_le_bytes,
    u64_from_le_bytes,
};
use vstd::prelude::*;
use vstd::slice::slice_subrange;

use crate::pad::{EmulatedPad, SwitchPad};

verus! {

/// First two bytes of every record.
pub const WIRE_MAGIC: u16 = 0x3276;

/// Total size of one encoded record.
pub const WIRE_LEN: usize = 108;

/// The wire code of a slot kind, with 0 for an unconfigured or unbound slot.
pub open spec fn spec_pad_value(switch_pad: Option<SwitchPad>) -> i8 {
    match switch_pad {
        Some(pad) => pad.spec_value(),
        None => 0,
    }
}

/// Maps a slot kind (or lack thereof) to its wire code.
pub fn switch_pad_to_value(switch_pad: &Option<SwitchPad>) -> (v: i8)
    ensures
        v == spec_pad_value(*switch_pad),
{
    match switch_pad {
        Some(pad) => pad.value(),
        None => 0,
    }
}

/// Count of bound pads in a snapshot.
pub open spec fn count_bound(pads: Seq<EmulatedPad>) -> int
    decreases pads.len(),
{
    if pads.len() == 0 {
        0
    } else {
        count_bound(pads.drop_last()) + if pads.last().is_bound() {
            1int
        } else {
            0int
        }
    }
}

/// The bound count never exceeds the number of slots.
pub proof fn lemma_count_bound_le_len(pads: Seq<EmulatedPad>)
    ensures
        0 <= count_bound(pads) <= pads.len(),
    decreases pads.len(),
{
    if pads.len() > 0 {
        lemma_count_bound_le_len(pads.drop_last());
    }
}

/// Growing a snapshot by one pad grows the count by that pad's state.
pub proof fn lemma_count_bound_take_succ(pads: Seq<EmulatedPad>, i: int)
    requires
        0 <= i < pads.len(),
    ensures
        count_bound(pads.take(i + 1)) == count_bound(pads.take(i)) + if pads[i].is_bound() {
            1int
        } else {
            0int
        },
{
    assert(pads.take(i + 1).drop_last() =~= pads.take(i));
    assert(pads.take(i + 1).last() == pads[i]);
}

/// A full snapshot is its own take.
pub proof fn lemma_count_bound_take_all(pads: Seq<EmulatedPad>)
    ensures
        count_bound(pads.take(pads.len() as int)) == count_bound(pads),
{
    assert(pads.take(pads.len() as int) =~= pads);
}

/// A signed stick half on the wire: the little-endian bytes of its two's
/// complement image.
pub open spec fn spec_i32_to_le_bytes(x: i32) -> Seq<u8> {
    spec_u32_to_le_bytes(x as u32)
}

/// Reads a signed stick half back from its little-endian bytes.
pub open spec fn spec_i32_from_le_bytes(s: Seq<u8>) -> i32 {
    spec_u32_from_le_bytes(s) as i32
}

/// Round trip of the two's complement image.
pub proof fn lemma_i32_le_bytes_round_trip(x: i32)
    ensures
        spec_i32_to_le_bytes(x).len() == 4,
        spec_i32_from_le_bytes(spec_i32_to_le_bytes(x)) == x,
{
    lemma_auto_spec_u32_to_from_le_bytes();
    let u = #[verifier::truncate] (x as u32);
    assert(spec_u32_to_le_bytes(u).len() == 4);
    assert(spec_u32_from_le_bytes(spec_u32_to_le_bytes(u)) == u);
    assert(u as i32 == x) by (bit_vector)
        requires
            u == x as u32,
    ;
}

fn push_u16_le(out: &mut Vec<u8>, x: u16)
    ensures
        final(out)@ == old(out)@ + spec_u16_to_le_bytes(x),
{
    let mut b = u16_to_le_bytes(x);
    out.append(&mut b);
}

fn push_u64_le(out: &mut Vec<u8>, x: u64)
    ensures
        final(out)@ == old(out)@ + spec_u64_to_le_bytes(x),
{
    let mut b = u64_to_le_bytes(x);
    out.append(&mut b);
}

fn push_i32_le(out: &mut Vec<u8>, x: i32)
    ensures
        final(out)@ == old(out)@ + spec_i32_to_le_bytes(x),
{
    let mut b = u32_to_le_bytes(#[verifier::truncate] (x as u32));
    out.append(&mut b);
}

/// One snapshot of all four slots, packed into the wire field layout.
pub struct PackedData {
    pub magic: u16,
    pub connected: u16,
    pub con_type: u16,
    pub keys: u64,
    pub joy_l_x: i32,
    pub joy_l_y: i32,
    pub joy_r_x: i32,
    pub joy_r_y: i32,
    pub con_type2: u16,
    pub keys2: u64,
    pub joy_l_x2: i32,
    pub joy_l_y2: i32,
    pub joy_r_x2: i32,
    pub joy_r_y2: i32,
    pub con_type3: u16,
    pub keys3: u64,
    pub joy_l_x3: i32,
    pub joy_l_y3: i32,
    pub joy_r_x3: i32,
    pub joy_r_y3: i32,
    pub con_type4: u16,
    pub keys4: u64,
    pub joy_l_x4: i32,
    pub joy_l_y4: i32,
    pub joy_r_x4: i32,
    pub joy_r_y4: i32,
}

impl PackedData {
    /// The record a snapshot packs to, with `connected` as supplied.
    pub open spec fn spec_new(pads: Seq<EmulatedPad>, connected: i8) -> PackedData {
        PackedData {
            magic: WIRE_MAGIC,
            connected: connected as u16,
            con_type: spec_pad_value(pads[0].switch_pad) as u16,
            keys: pads[0].keyout as u64,
            joy_l_x: pads[0].left.0,
            joy_l_y: pads[0].left.1,
            joy_r_x: pads[0].right.0,
            joy_r_y: pads[0].right.1,
            con_type2: spec_pad_value(pads[1].switch_pad) as u16,
            keys2: pads[1].keyout as u64,
            joy_l_x2: pads[1].left.0,
            joy_l_y2: pads[1].left.1,
            joy_r_x2: pads[1].right.0,
            joy_r_y2: pads[1].right.1,
            con_type3: spec_pad_value(pads[2].switch_pad) as u16,
            keys3: pads[2].keyout as u64,
            joy_l_x3: pads[2].left.0,
            joy_l_y3: pads[2].left.1,
            joy_r_x3: pads[2].right.0,
            joy_r_y3: pads[2].right.1,
            con_type4: spec_pad_value(pads[3].switch_pad) as u16,
            keys4: pads[3].keyout as u64,
            joy_l_x4: pads[3].left.0,
            joy_l_y4: pads[3].left.1,
            joy_r_x4: pads[3].right.0,
            joy_r_y4: pads[3].right.1,
        }
    }

    /// The kind code this record carries for a slot.
    pub open spec fn spec_con_type(&self, slot: int) -> u16 {
        if slot == 0 {
            self.con_type
        } else if slot == 1 {
            self.con_type2
        } else if slot == 2 {
            self.con_type3
        } else {
            self.con_type4
        }
    }

    /// The button mask this record carries for a slot.
    pub open spec fn spec_keys(&self, slot: int) -> u64 {
        if slot == 0 {
            self.keys
        } else if slot == 1 {
            self.keys2
        } else if slot == 2 {
            self.keys3
        } else {
            self.keys4
        }
    }

    /// The four stick halves this record carries for a slot, in field order.
    pub open spec fn spec_sticks(&self, slot: int) -> (i32, i32, i32, i32) {
        if slot == 0 {
            (self.joy_l_x, self.joy_l_y, self.joy_r_x, self.joy_r_y)
        } else if slot == 1 {
            (self.joy_l_x2, self.joy_l_y2, self.joy_r_x2, self.joy_r_y2)
        } else if slot == 2 {
            (self.joy_l_x3, self.joy_l_y3, self.joy_r_x3, self.joy_r_y3)
        } else {
            (self.joy_l_x4, self.joy_l_y4, self.joy_r_x4, self.joy_r_y4)
        }
    }

    /// Packs a four-slot snapshot. The caller supplies the bound count, which
    /// must be the live one so that the header never misreports it.
    pub fn new(pads: &Vec<EmulatedPad>, connected: i8) -> (r: PackedData)
        requires
            pads@.len() == 4,
            forall|i: int| 0 <= i < 4 ==> (#[trigger] pads@[i]).wf(),
            connected as int == count_bound(pads@),
        ensures
            r == Self::spec_new(pads@, connected),
    {
        PackedData {
            magic: WIRE_MAGIC,
            connected: connected as u16,
            con_type: switch_pad_to_value(pads[0].get_switch_pad()) as u16,
            keys: *pads[0].get_keyout() as u64,
            joy_l_x: pads[0].get_left().0,
            joy_l_y: pads[0].get_left().1,
            joy_r_x: pads[0].get_right().0,
            joy_r_y: pads[0].get_right().1,
            con_type2: switch_pad_to_value(pads[1].get_switch_pad()) as u16,
            keys2: *pads[1].get_keyout() as u64,
            joy_l_x2: pads[1].get_left().0,
            joy_l_y2: pads[1].get_left().1,
            joy_r_x2: pads[1].get_right().0,
            joy_r_y2: pads[1].get_right().1,
            con_type3: switch_pad_to_value(pads[2].get_switch_pad()) as u16,
            keys3: *pads[2].get_keyout() as u64,
            joy_l_x3: pads[2].get_left().0,
            joy_l_y3: pads[2].get_left().1,
            joy_r_x3: pads[2].get_right().0,
            joy_r_y3: pads[2].get_right().1,
            con_type4: switch_pad_to_value(pads[3].get_switch_pad()) as u16,
            keys4: *pads[3].get_keyout() as u64,
            joy_l_x4: pads[3].get_left().0,
            joy_l_y4: pads[3].get_left().1,
            joy_r_x4: pads[3].get_right().0,
            joy_r_y4: pads[3].get_right().1,
        }
    }

    /// The 108 wire bytes of this record: every field little-endian, in
    /// declaration order.
    pub open spec fn spec_bytes(&self) -> Seq<u8> {
        spec_u16_to_le_bytes(self.magic) + spec_u16_to_le_bytes(self.connected)
            + spec_u16_to_le_bytes(self.con_type) + spec_u64_to_le_bytes(self.keys)
            + spec_i32_to_le_bytes(self.joy_l_x) + spec_i32_to_le_bytes(self.joy_l_y)
            + spec_i32_to_le_bytes(self.joy_r_x) + spec_i32_to_le_bytes(self.joy_r_y)
            + spec_u16_to_le_bytes(self.con_type2) + spec_u64_to_le_bytes(self.keys2)
            + spec_i32_to_le_bytes(self.joy_l_x2) + spec_i32_to_le_bytes(self.joy_l_y2)
            + spec_i32_to_le_bytes(self.joy_r_x2) + spec_i32_to_le_bytes(self.joy_r_y2)
            + spec_u16_to_le_bytes(self.con_type3) + spec_u64_to_le_bytes(self.keys3)
            + spec_i32_to_le_bytes(self.joy_l_x3) + spec_i32_to_le_bytes(self.joy_l_y3)
            + spec_i32_to_le_bytes(self.joy_r_x3) + spec_i32_to_le_bytes(self.joy_r_y3)
            + spec_u16_to_le_bytes(self.con_type4) + spec_u64_to_le_bytes(self.keys4)
            + spec_i32_to_le_bytes(self.joy_l_x4) + spec_i32_to_le_bytes(self.joy_l_y4)
            + spec_i32_to_le_bytes(self.joy_r_x4) + spec_i32_to_le_bytes(self.joy_r_y4)
    }

    /// Encoded records are always 108 bytes.
    pub proof fn lemma_spec_bytes_len(&self)
        ensures
            self.spec_bytes().len() == WIRE_LEN,
    {
        lemma_auto_spec_u16_to_from_le_bytes();
        lemma_auto_spec_u32_to_from_le_bytes();
        lemma_auto_spec_u64_to_from_le_bytes();
    }

    /// Converts this record to its wire bytes.
    pub fn to_bytes(&self) -> (r: Vec<u8>)
        ensures
            r@ == self.spec_bytes(),
            r@.len() == WIRE_LEN,
    {
        let mut out: Vec<u8> = Vec::new();
        push_u16_le(&mut out, self.magic);
        push_u16_le(&mut out, self.connected);
        push_u16_le(&mut out, self.con_type);
        push_u64_le(&mut out, self.keys);
        push_i32_le(&mut out, self.joy_l_x);
        push_i32_le(&mut out, self.joy_l_y);
        push_i32_le(&mut out, self.joy_r_x);
        push_i32_le(&mut out, self.joy_r_y);
        push_u16_le(&mut out, self.con_type2);
        push_u64_le(&mut out, self.keys2);
        push_i32_le(&mut out, self.joy_l_x2);
        push_i32_le(&mut out, self.joy_l_y2);
        push_i32_le(&mut out, self.joy_r_x2);
        push_i32_le(&mut out, self.joy_r_y2);
        push_u16_le(&mut out, self.con_type3);
        push_u64_le(&mut out, self.keys3);
        push_i32_le(&mut out, self.joy_l_x3);
        push_i32_le(&mut out, self.joy_l_y3);
        push_i32_le(&mut out, self.joy_r_x3);
        push_i32_le(&mut out, self.joy_r_y3);
        push_u16_le(&mut out, self.con_type4);
        push_u64_le(&mut out, self.keys4);
        push_i32_le(&mut out, self.joy_l_x4);
        push_i32_le(&mut out, self.joy_l_y4);
        push_i32_le(&mut out, self.joy_r_x4);
        push_i32_le(&mut out, self.joy_r_y4);
        proof {
            self.lemma_spec_bytes_len();
            assert(out@ =~= self.spec_bytes());
        }
        out
    }

    /// The record read back from 108 wire bytes with the inverse layout.
    pub open spec fn spec_from_bytes(s: Seq<u8>) -> PackedData {
        PackedData {
            magic: spec_u16_from_le_bytes(s.subrange(0, 2)),
            connected: spec_u16_from_le_bytes(s.subrange(2, 4)),
            con_type: spec_u16_from_le_bytes(s.subrange(4, 6)),
            keys: spec_u64_from_le_bytes(s.subrange(6, 14)),
            joy_l_x: spec_i32_from_le_bytes(s.subrange(14, 18)),
            joy_l_y: spec_i32_from_le_bytes(s.subrange(18, 22)),
            joy_r_x: spec_i32_from_le_bytes(s.subrange(22, 26)),
            joy_r_y: spec_i32_from_le_bytes(s.subrange(26, 30)),
            con_type2: spec_u16_from_le_bytes(s.subrange(30, 32)),
            keys2: spec_u64_from_le_bytes(s.subrange(32, 40)),
            joy_l_x2: spec_i32_from_le_bytes(s.subrange(40, 44)),
            joy_l_y2: spec_i32_from_le_bytes(s.subrange(44, 48)),
            joy_r_x2: spec_i32_from_le_bytes(s.subrange(48, 52)),
            joy_r_y2: spec_i32_from_le_bytes(s.subrange(52, 56)),
            con_type3: spec_u16_from_le_bytes(s.subrange(56, 58)),
            keys3: spec_u64_from_le_bytes(s.subrange(58, 66)),
            joy_l_x3: spec_i32_from_le_bytes(s.subrange(66, 70)),
            joy_l_y3: spec_i32_from_le_bytes(s.subrange(70, 74)),
            joy_r_x3: spec_i32_from_le_bytes(s.subrange(74, 78)),
            joy_r_y3: spec_i32_from_le_bytes(s.subrange(78, 82)),
            con_type4: spec_u16_from_le_bytes(s.subrange(82, 84)),
            keys4: spec_u64_from_le_bytes(s.subrange(84, 92)),
            joy_l_x4: spec_i32_from_le_bytes(s.subrange(92, 96)),
            joy_l_y4: spec_i32_from_le_bytes(s.subrange(96, 100)),
            joy_r_x4: spec_i32_from_le_bytes(s.subrange(100, 104)),
            joy_r_y4: spec_i32_from_le_bytes(s.subrange(104, 108)),
        }
    }

    /// Decodes a 108-byte record; any other length is rejected.
    pub fn from_bytes(bytes: &Vec<u8>) -> (r: Option<PackedData>)
        ensures
            match r {
                Some(p) => bytes@.len() == WIRE_LEN && p == Self::spec_from_bytes(bytes@),
                None => bytes@.len() != WIRE_LEN,
            },
    {
        if bytes.len() != WIRE_LEN {
            return None;
        }
        let s = bytes.as_slice();
        Some(
            PackedData {
                magic: u16_from_le_bytes(slice_subrange(s, 0, 2)),
                connected: u16_from_le_bytes(slice_subrange(s, 2, 4)),
                con_type: u16_from_le_bytes(slice_subrange(s, 4, 6)),
                keys: u64_from_le_bytes(slice_subrange(s, 6, 14)),
                joy_l_x: read_i32_le(s, 14),
                joy_l_y: read_i32_le(s, 18),
                joy_r_x: read_i32_le(s, 22),
                joy_r_y: read_i32_le(s, 26),
                con_type2: u16_from_le_bytes(slice_subrange(s, 30, 32)),
                keys2: u64_from_le_bytes(slice_subrange(s, 32, 40)),
                joy_l_x2: read_i32_le(s, 40),
                joy_l_y2: read_i32_le(s, 44),
                joy_r_x2: read_i32_le(s, 48),
                joy_r_y2: read_i32_le(s, 52),
                con_type3: u16_from_le_bytes(slice_subrange(s, 56, 58)),
                keys3: u64_from_le_bytes(slice_subrange(s, 58, 66)),
                joy_l_x3: read_i32_le(s, 66),
                joy_l_y3: read_i32_le(s, 70),
                joy_r_x3: read_i32_le(s, 74),
                joy_r_y3: read_i32_le(s, 78),
                con_type4: u16_from_le_bytes(slice_subrange(s, 82, 84)),
                keys4: u64_from_le_bytes(slice_subrange(s, 84, 92)),
                joy_l_x4: read_i32_le(s, 92),
                joy_l_y4: read_i32_le(s, 96),
                joy_r_x4: read_i32_le(s, 100),
                joy_r_y4: read_i32_le(s, 104),
            },
        )
    }
}

/// Decoding an encoded record with the inverse layout reproduces the record
/// exactly: the magic, the bound count, and every slot's kind code, mask, and
/// stick values.
#[verifier::rlimit(60)]
pub proof fn lemma_round_trip(p: PackedData)
    ensures
        PackedData::spec_from_bytes(p.spec_bytes()) == p,
{
    lemma_auto_spec_u16_to_from_le_bytes();
    lemma_auto_spec_u32_to_from_le_bytes();
    lemma_auto_spec_u64_to_from_le_bytes();
    lemma_i32_le_bytes_round_trip(p.joy_l_x);
    lemma_i32_le_bytes_round_trip(p.joy_l_y);
    lemma_i32_le_bytes_round_trip(p.joy_r_x);
    lemma_i32_le_bytes_round_trip(p.joy_r_y);
    lemma_i32_le_bytes_round_trip(p.joy_l_x2);
    lemma_i32_le_bytes_round_trip(p.joy_l_y2);
    lemma_i32_le_bytes_round_trip(p.joy_r_x2);
    lemma_i32_le_bytes_round_trip(p.joy_r_y2);
    lemma_i32_le_bytes_round_trip(p.joy_l_x3);
    lemma_i32_le_bytes_round_trip(p.joy_l_y3);
    lemma_i32_le_bytes_round_trip(p.joy_r_x3);
    lemma_i32_le_bytes_round_trip(p.joy_r_y3);
    lemma_i32_le_bytes_round_trip(p.joy_l_x4);
    lemma_i32_le_bytes_round_trip(p.joy_l_y4);
    lemma_i32_le_bytes_round_trip(p.joy_r_x4);
    lemma_i32_le_bytes_round_trip(p.joy_r_y4);
    let s = p.spec_bytes();
    assert(s.subrange(0, 2) =~= spec_u16_to_le_bytes(p.magic));
    assert(s.subrange(2, 4) =~= spec_u16_to_le_bytes(p.connected));
    assert(s.subrange(4, 6) =~= spec_u16_to_le_bytes(p.con_type));
    assert(s.subrange(6, 14) =~= spec_u64_to_le_bytes(p.keys));
    assert(s.subrange(14, 18) =~= spec_i32_to_le_bytes(p.joy_l_x));
    assert(s.subrange(18, 22) =~= spec_i32_to_le_bytes(p.joy_l_y));
    assert(s.subrange(22, 26) =~= spec_i32_to_le_bytes(p.joy_r_x));
    assert(s.subrange(26, 30) =~= spec_i32_to_le_bytes(p.joy_r_y));
    assert(s.subrange(30, 32) =~= spec_u16_to_le_bytes(p.con_type2));
    assert(s.subrange(32, 40) =~= spec_u64_to_le_bytes(p.keys2));
    assert(s.subrange(40, 44) =~= spec_i32_to_le_bytes(p.joy_l_x2));
    assert(s.subrange(44, 48) =~= spec_i32_to_le_bytes(p.joy_l_y2));
    assert(s.subrange(48, 52) =~= spec_i32_to_le_bytes(p.joy_r_x2));
    assert(s.subrange(52, 56) =~= spec_i32_to_le_bytes(p.joy_r_y2));
    assert(s.subrange(56, 58) =~= spec_u16_to_le_bytes(p.con_type3));
    assert(s.subrange(58, 66) =~= spec_u64_to_le_bytes(p.keys3));
    assert(s.subrange(66, 70) =~= spec_i32_to_le_bytes(p.joy_l_x3));
    assert(s.subrange(70, 74) =~= spec_i32_to_le_bytes(p.joy_l_y3));
    assert(s.subrange(74, 78) =~= spec_i32_to_le_bytes(p.joy_r_x3));
    assert(s.subrange(78, 82) =~= spec_i32_to_le_bytes(p.joy_r_y3));
    assert(s.subrange(82, 84) =~= spec_u16_to_le_bytes(p.con_type4));
    assert(s.subrange(84, 92) =~= spec_u64_to_le_bytes(p.keys4));
    assert(s.subrange(92, 96) =~= spec_i32_to_le_bytes(p.joy_l_x4));
    assert(s.subrange(96, 100) =~= spec_i32_to_le_bytes(p.joy_l_y4));
    assert(s.subrange(100, 104) =~= spec_i32_to_le_bytes(p.joy_r_x4));
    assert(s.subrange(104, 108) =~= spec_i32_to_le_bytes(p.joy_r_y4));
}

/// The encoded header's count field reports exactly the live bound count,
/// which itself never exceeds the four slots.
pub proof fn lemma_connected_field_is_count(pads: Seq<EmulatedPad>, connected: i8)
    requires
        pads.len() == 4,
        connected as int == count_bound(pads),
    ensures
        0 <= count_bound(pads) <= 4,
        PackedData::spec_new(pads, connected).connected as int == count_bound(pads),
        spec_u16_from_le_bytes(
            PackedData::spec_new(pads, connected).spec_bytes().subrange(2, 4),
        ) as int == count_bound(pads),
{
    lemma_count_bound_le_len(pads);
    lemma_auto_spec_u16_to_from_le_bytes();
    lemma_auto_spec_u32_to_from_le_bytes();
    lemma_auto_spec_u64_to_from_le_bytes();
    let p = PackedData::spec_new(pads, connected);
    assert(p.spec_bytes().subrange(2, 4) =~= spec_u16_to_le_bytes(p.connected));
}

/// A neutral (just-disconnected) slot encodes as kind 0, mask 0, and all four
/// stick values 0, whatever the other slots hold.
pub proof fn lemma_neutral_slot_encodes_zero(pads: Seq<EmulatedPad>, connected: i8, slot: int)
    requires
        pads.len() == 4,
        0 <= slot < 4,
        pads[slot] == EmulatedPad::spec_neutral(),
    ensures
        PackedData::spec_new(pads, connected).spec_con_type(slot) == 0,
        PackedData::spec_new(pads, connected).spec_keys(slot) == 0,
        PackedData::spec_new(pads, connected).spec_sticks(slot) == (0i32, 0i32, 0i32, 0i32),
{
}

fn read_i32_le(s: &[u8], offset: usize) -> (x: i32)
    requires
        offset + 4 <= s@.len(),
        offset + 4 <= usize::MAX,
    ensures
        x == spec_i32_from_le_bytes(s@.subrange(offset as int, offset as int + 4)),
{
    let u = u32_from_le_bytes(slice_subrange(s, offset, offset + 4));
    #[verifier::truncate] (u as i32)
}

} // verus!
