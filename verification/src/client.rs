//! The slot manager: assigns physical sources to the four fixed slots,
//! routes events to the pad each source is bound to, and resets everything
//! for the best-effort remote cleanup.
//!
//! The manager owns the four pads and a source-to-slot table for constant
//! time dispatch. Everything the backend or the network decides comes in as
//! plain values (an event batch, per-slot liveness flags), so the whole
//! state machine is verified; the caller owns the socket and the clock.

use std::collections::HashMap;

use vstd::prelude::*;

use crate::codec::{count_bound, lemma_count_bound_take_all, lemma_count_bound_take_succ,
    PackedData};
use crate::config::Config;
use crate::input::{InputButton, InputEvent};
use crate::pad::{EmulatedPad, SwitchPad, STICK_LIMIT};

verus! {

broadcast use vstd::std_specs::hash::group_hash_axioms;

/// Why an assignment attempt failed.
#[derive(Clone, Copy, PartialEq, Eq, Structural, Debug)]
pub enum AssignmentError {
    /// Every slot is either bound or configured with no kind.
    NoSlotsAvailable,
}

/// The bind gesture: the right bumper reaching fully pressed. An event from
/// a source that is not yet bound requests assignment exactly when it looks
/// like this.
pub open spec fn spec_is_bind_gesture(e: InputEvent) -> bool {
    e matches InputEvent::GamepadButton(_, button, value) && button == InputButton::RightBumper
        && value == 1
}

/// Recognizes the bind gesture.
pub fn is_bind_gesture(e: &InputEvent) -> (r: bool)
    ensures
        r == spec_is_bind_gesture(*e),
{
    match e {
        InputEvent::GamepadButton(_, button, value) => *button == InputButton::RightBumper
            && *value == 1,
        InputEvent::GamepadAxis(_, _, _) => false,
    }
}

/// The first slot at or after `i` that is unbound and configured with a
/// kind, if any: the slot an assignment will pick.
pub open spec fn spec_first_eligible(
    pads: Seq<EmulatedPad>,
    kinds: Seq<Option<SwitchPad>>,
    i: int,
) -> Option<int>
    decreases pads.len() - i,
{
    if i < 0 || i >= pads.len() {
        None
    } else if !pads[i].is_bound() && kinds[i] is Some {
        Some(i)
    } else {
        spec_first_eligible(pads, kinds, i + 1)
    }
}

/// Well-formedness of the slot state: four pads, each internally well
/// formed, and the slot table in exact correspondence with the bound pads —
/// every bound pad's source is a table key pointing back at its slot, and
/// every table key points at a slot bound to it.
pub open spec fn slots_wf(pads: Seq<EmulatedPad>, map: Map<usize, usize>) -> bool {
    &&& pads.len() == 4
    &&& (forall|i: int| 0 <= i < 4 ==> (#[trigger] pads[i]).wf())
    &&& (forall|i: int|
        0 <= i < 4 ==> ((#[trigger] pads[i]).gamepad_id matches Some(id) ==> map.contains_key(id)
            && map[id] == i))
    &&& (forall|s: usize|
        #[trigger] map.contains_key(s) ==> map[s] < 4 && pads[map[s] as int].gamepad_id == Some(
            s,
        ))
}

/// A pad after the liveness sweep: unbound and neutral when its backend
/// reported the bound source gone, untouched otherwise.
pub open spec fn spec_sweep_pad(pad: EmulatedPad, alive: bool) -> EmulatedPad {
    if pad.is_bound() && !alive {
        EmulatedPad::spec_neutral()
    } else {
        pad
    }
}

/// The whole slot state after the liveness sweep: dead slots go neutral and
/// their table entries disappear; live and unbound slots are untouched.
pub open spec fn spec_sweep(
    pads: Seq<EmulatedPad>,
    map: Map<usize, usize>,
    alive: Seq<bool>,
) -> (Seq<EmulatedPad>, Map<usize, usize>) {
    (
        Seq::new(pads.len(), |i: int| spec_sweep_pad(pads[i], alive[i])),
        Map::new(
            |s: usize| map.contains_key(s) && alive[map[s] as int],
            |s: usize| map[s],
        ),
    )
}

/// The slot state after one event. A source with a table entry updates its
/// own pad; an unbound source binds the first eligible slot if the event is
/// the bind gesture; everything else is ignored.
pub open spec fn spec_dispatch(
    pads: Seq<EmulatedPad>,
    map: Map<usize, usize>,
    kinds: Seq<Option<SwitchPad>>,
    e: InputEvent,
) -> (Seq<EmulatedPad>, Map<usize, usize>) {
    let src = e.spec_gamepad_id();
    if map.contains_key(src) {
        let i = map[src] as int;
        (pads.update(i, pads[i].spec_update(e)), map)
    } else if spec_is_bind_gesture(e) {
        match spec_first_eligible(pads, kinds, 0) {
            Some(j) => (
                pads.update(
                    j,
                    EmulatedPad {
                        gamepad_id: Some(src),
                        switch_pad: kinds[j],
                        keyout: 0,
                        left: (0, 0),
                        right: (0, 0),
                    },
                ),
                map.insert(src, j as usize),
            ),
            None => (pads, map),
        }
    } else {
        (pads, map)
    }
}

/// What the caller is told about one event: nothing for a routed or ignored
/// event, the assignment outcome for a bind gesture.
pub open spec fn spec_dispatch_outcome(
    pads: Seq<EmulatedPad>,
    map: Map<usize, usize>,
    kinds: Seq<Option<SwitchPad>>,
    e: InputEvent,
) -> Option<Result<usize, AssignmentError>> {
    if map.contains_key(e.spec_gamepad_id()) {
        None
    } else if spec_is_bind_gesture(e) {
        match spec_first_eligible(pads, kinds, 0) {
            Some(j) => Some(Ok(j as usize)),
            None => Some(Err(AssignmentError::NoSlotsAvailable)),
        }
    } else {
        None
    }
}

/// The slot state after a whole event batch, in order.
pub open spec fn spec_parse_events(
    pads: Seq<EmulatedPad>,
    map: Map<usize, usize>,
    kinds: Seq<Option<SwitchPad>>,
    events: Seq<InputEvent>,
) -> (Seq<EmulatedPad>, Map<usize, usize>)
    decreases events.len(),
{
    if events.len() == 0 {
        (pads, map)
    } else {
        let prior = spec_parse_events(pads, map, kinds, events.drop_last());
        spec_dispatch(prior.0, prior.1, kinds, events.last())
    }
}

/// An event whose axis value, if any, is already in the wire range.
pub open spec fn spec_event_in_range(e: InputEvent) -> bool {
    e matches InputEvent::GamepadAxis(_, _, v) ==> -STICK_LIMIT <= v <= STICK_LIMIT
}

/// The input client: the four emulated pads, the source-to-slot dispatch
/// table, and the configuration choosing each slot's kind.
pub struct Client {
    pub config: Config,
    pub input_map: HashMap<usize, usize>,
    pub pads: Vec<EmulatedPad>,
}

impl Client {
    /// The invariant the client keeps between calls.
    pub open spec fn wf(&self) -> bool {
        slots_wf(self.pads@, self.input_map@)
    }

    /// Constructs a client with four unbound neutral pads and an empty slot
    /// table.
    pub fn new(config: Config) -> (c: Client)
        ensures
            c.wf(),
            c.config == config,
            c.input_map@ == Map::<usize, usize>::empty(),
            c.pads@.len() == 4,
            forall|i: int| 0 <= i < 4 ==> c.pads@[i] == EmulatedPad::spec_neutral(),
    {
        let mut pads: Vec<EmulatedPad> = Vec::new();
        pads.push(EmulatedPad::new());
        pads.push(EmulatedPad::new());
        pads.push(EmulatedPad::new());
        pads.push(EmulatedPad::new());
        Client { config, input_map: HashMap::new(), pads }
    }

    /// The current pads, in slot order.
    pub fn get_pads(&self) -> (r: &Vec<EmulatedPad>)
        ensures
            *r == self.pads,
    {
        &self.pads
    }

    /// Counts the currently bound pads.
    pub fn get_connected(&self) -> (n: i8)
        requires
            self.pads@.len() == 4,
        ensures
            n as int == count_bound(self.pads@),
            0 <= n <= 4,
    {
        let mut connected: i8 = 0;
        let mut idx: usize = 0;
        while idx < 4
            invariant
                idx <= 4,
                self.pads@.len() == 4,
                connected as int == count_bound(self.pads@.take(idx as int)),
                0 <= connected <= idx,
            decreases 4 - idx,
        {
            proof {
                lemma_count_bound_take_succ(self.pads@, idx as int);
            }
            if self.pads[idx].get_gamepad_id().is_some() {
                connected = connected + 1;
            }
            idx = idx + 1;
        }
        proof {
            lemma_count_bound_take_all(self.pads@);
        }
        connected
    }

    /// The liveness sweep: unbinds every slot whose backend reports the
    /// bound source gone (`alive[i]` says whether slot `i`'s source is still
    /// connected) and drops its table entry.
    pub fn disconnect_inactive(&mut self, alive: &Vec<bool>)
        requires
            old(self).wf(),
            alive@.len() == 4,
        ensures
            final(self).wf(),
            final(self).config == old(self).config,
            (final(self).pads@, final(self).input_map@) == spec_sweep(
                old(self).pads@,
                old(self).input_map@,
                alive@,
            ),
    {
        let ghost old_pads = self.pads@;
        let ghost old_map = self.input_map@;
        let mut i: usize = 0;
        while i < 4
            invariant
                i <= 4,
                alive@.len() == 4,
                self.config == old(self).config,
                self.pads@.len() == 4,
                slots_wf(old_pads, old_map),
                forall|j: int|
                    0 <= j < i ==> self.pads@[j] == spec_sweep_pad(old_pads[j], alive@[j]),
                forall|j: int| i <= j < 4 ==> self.pads@[j] == old_pads[j],
                forall|s: usize|
                    #[trigger] self.input_map@.contains_key(s) <==> (old_map.contains_key(s) && !(
                    old_map[s] < i && !alive@[old_map[s] as int])),
                forall|s: usize|
                    self.input_map@.contains_key(s) ==> self.input_map@[s] == old_map[s],
            decreases 4 - i,
        {
            let id_opt = *self.pads[i].get_gamepad_id();
            match id_opt {
                Some(gamepad_id) => {
                    if !alive[i] {
                        self.input_map.remove(&gamepad_id);
                        self.pads[i].disconnect();
                    }
                },
                None => {},
            }
            i = i + 1;
        }
        proof {
            let swept = spec_sweep(old_pads, old_map, alive@);
            assert(self.pads@ =~= swept.0);
            assert(self.input_map@ =~= swept.1);
        }
    }

    /// Tries to bind a not-yet-bound source: scans the slots in fixed order
    /// and binds the first that is unbound and has a configured kind,
    /// recording the source in the slot table. Returns the chosen slot
    /// index, or the assignment error when no slot is eligible.
    pub fn assign_pad(&mut self, gamepad_id: &usize) -> (r: Result<usize, AssignmentError>)
        requires
            old(self).wf(),
            !old(self).input_map@.contains_key(*gamepad_id),
        ensures
            final(self).wf(),
            final(self).config == old(self).config,
            match spec_first_eligible(old(self).pads@, old(self).config.spec_pads(), 0) {
                Some(j) => {
                    &&& r == Ok::<usize, AssignmentError>(j as usize)
                    &&& final(self).pads@ == old(self).pads@.update(
                        j,
                        EmulatedPad {
                            gamepad_id: Some(*gamepad_id),
                            switch_pad: old(self).config.spec_pads()[j],
                            keyout: 0,
                            left: (0, 0),
                            right: (0, 0),
                        },
                    )
                    &&& final(self).input_map@ == old(self).input_map@.insert(
                        *gamepad_id,
                        j as usize,
                    )
                },
                None => r == Err::<usize, AssignmentError>(AssignmentError::NoSlotsAvailable)
                    && final(self).pads@ == old(self).pads@ && final(self).input_map@ == old(
                    self,
                ).input_map@,
            },
    {
        let slot_kinds = self.config.pads_to_vec();
        let mut i: usize = 0;
        while i < 4
            invariant
                i <= 4,
                self.pads@ == old(self).pads@,
                self.input_map@ == old(self).input_map@,
                self.config == old(self).config,
                old(self).wf(),
                !old(self).input_map@.contains_key(*gamepad_id),
                self.pads@.len() == 4,
                slot_kinds@ == old(self).config.spec_pads(),
                spec_first_eligible(self.pads@, slot_kinds@, 0) == spec_first_eligible(
                    self.pads@,
                    slot_kinds@,
                    i as int,
                ),
            decreases 4 - i,
        {
            if self.pads[i].get_gamepad_id().is_none() {
                match slot_kinds[i] {
                    Some(switch_pad) => {
                        self.input_map.insert(*gamepad_id, i);
                        self.pads[i].connect(gamepad_id, switch_pad);
                        proof {
                            let omap = old(self).input_map@;
                            let opads = old(self).pads@;
                            let kinds = slot_kinds@;
                            assert(!opads[i as int].is_bound());
                            assert(kinds[i as int] is Some);
                            assert(spec_first_eligible(opads, kinds, i as int) == Some(i as int));
                            assert forall|s: usize| #[trigger]
                                self.input_map@.contains_key(s) implies self.input_map@[s] < 4
                                && self.pads@[self.input_map@[s] as int].gamepad_id == Some(
                                s,
                            ) by {
                                if s != *gamepad_id {
                                    assert(omap.contains_key(s));
                                    assert(opads[omap[s] as int].gamepad_id == Some(s));
                                    assert(omap[s] != i);
                                }
                            }
                            assert forall|j: int| 0 <= j < 4 implies ((
                            #[trigger] self.pads@[j]).gamepad_id matches Some(id)
                                ==> self.input_map@.contains_key(id) && self.input_map@[id]
                                == j) by {
                                if j != i {
                                    assert(self.pads@[j] == opads[j]);
                                    assert(opads[j].gamepad_id matches Some(id2)
                                        ==> omap.contains_key(id2) && id2 != *gamepad_id);
                                }
                            }
                        }
                        return Ok(i);
                    },
                    None => {},
                }
            }
            i = i + 1;
        }
        Err(AssignmentError::NoSlotsAvailable)
    }

    /// Routes one event. A source with a slot table entry updates its own
    /// pad in constant time; an unmapped source triggers an assignment
    /// attempt exactly when the event is the bind gesture, whose outcome is
    /// returned for reporting.
    pub fn dispatch(&mut self, event: &InputEvent) -> (r: Option<Result<usize, AssignmentError>>)
        requires
            old(self).wf(),
            spec_event_in_range(*event),
        ensures
            final(self).wf(),
            final(self).config == old(self).config,
            (final(self).pads@, final(self).input_map@) == spec_dispatch(
                old(self).pads@,
                old(self).input_map@,
                old(self).config.spec_pads(),
                *event,
            ),
            r == spec_dispatch_outcome(
                old(self).pads@,
                old(self).input_map@,
                old(self).config.spec_pads(),
                *event,
            ),
    {
        let src = *event.get_gamepad_id();
        let slot = match self.input_map.get(&src) {
            Some(i_ref) => Some(*i_ref),
            None => None,
        };
        match slot {
            Some(i) => {
                self.pads[i].update(event);
                None
            },
            None => {
                if is_bind_gesture(event) {
                    Some(self.assign_pad(&src))
                } else {
                    None
                }
            },
        }
    }

    /// Processes one tick's event batch in order.
    pub fn parse_events(&mut self, events: &Vec<InputEvent>)
        requires
            old(self).wf(),
            forall|k: int| 0 <= k < events@.len() ==> spec_event_in_range(#[trigger] events@[k]),
        ensures
            final(self).wf(),
            final(self).config == old(self).config,
            (final(self).pads@, final(self).input_map@) == spec_parse_events(
                old(self).pads@,
                old(self).input_map@,
                old(self).config.spec_pads(),
                events@,
            ),
    {
        let ghost pads0 = old(self).pads@;
        let ghost map0 = old(self).input_map@;
        let ghost kinds = old(self).config.spec_pads();
        let mut i: usize = 0;
        while i < events.len()
            invariant
                i <= events@.len(),
                self.wf(),
                self.config == old(self).config,
                pads0 == old(self).pads@,
                map0 == old(self).input_map@,
                kinds == old(self).config.spec_pads(),
                forall|k: int|
                    0 <= k < events@.len() ==> spec_event_in_range(#[trigger] events@[k]),
                (self.pads@, self.input_map@) == spec_parse_events(
                    pads0,
                    map0,
                    kinds,
                    events@.take(i as int),
                ),
            decreases events@.len() - i,
        {
            let ghost prior_pads = self.pads@;
            let ghost prior_map = self.input_map@;
            let ghost e = events@[i as int];
            let _ = self.dispatch(&events[i]);
            proof {
                let taken = events@.take(i as int + 1);
                assert(taken.drop_last() =~= events@.take(i as int));
                assert(taken.last() == e);
                assert((prior_pads, prior_map) == spec_parse_events(
                    pads0,
                    map0,
                    kinds,
                    events@.take(i as int),
                ));
                assert((self.pads@, self.input_map@) == spec_dispatch(
                    prior_pads,
                    prior_map,
                    kinds,
                    e,
                ));
                assert(spec_parse_events(pads0, map0, kinds, taken) == spec_dispatch(
                    spec_parse_events(pads0, map0, kinds, taken.drop_last()).0,
                    spec_parse_events(pads0, map0, kinds, taken.drop_last()).1,
                    kinds,
                    taken.last(),
                )) by {
                    assert(taken.len() == i as int + 1);
                }
            }
            i = i + 1;
        }
        proof {
            assert(events@.take(events@.len() as int) =~= events@);
        }
    }

    /// One full tick of pad upkeep: the liveness sweep, then the event
    /// batch.
    pub fn update_pads(&mut self, alive: &Vec<bool>, events: &Vec<InputEvent>)
        requires
            old(self).wf(),
            alive@.len() == 4,
            forall|k: int| 0 <= k < events@.len() ==> spec_event_in_range(#[trigger] events@[k]),
        ensures
            final(self).wf(),
            final(self).config == old(self).config,
            ({
                let swept = spec_sweep(old(self).pads@, old(self).input_map@, alive@);
                (final(self).pads@, final(self).input_map@) == spec_parse_events(
                    swept.0,
                    swept.1,
                    old(self).config.spec_pads(),
                    events@,
                )
            }),
    {
        self.disconnect_inactive(alive);
        self.parse_events(events);
    }

    /// The compute half of a server update: the wire bytes of the current
    /// snapshot, with the header reporting the live bound count. The caller
    /// sends them in one datagram.
    pub fn encode_snapshot(&self) -> (r: Vec<u8>)
        requires
            self.wf(),
        ensures
            r@ == PackedData::spec_new(
                self.pads@,
                count_bound(self.pads@) as i8,
            ).spec_bytes(),
            r@.len() == 108,
    {
        let connected = self.get_connected();
        let packed = PackedData::new(&self.pads, connected);
        packed.to_bytes()
    }

    /// The local half of the reset protocol: every slot back to unbound
    /// neutral and the slot table emptied. The caller then sends the
    /// all-neutral snapshot redundantly for its fixed window.
    pub fn reset_pads(&mut self)
        ensures
            final(self).wf(),
            final(self).config == old(self).config,
            final(self).input_map@ == Map::<usize, usize>::empty(),
            final(self).pads@.len() == 4,
            forall|i: int| 0 <= i < 4 ==> final(self).pads@[i] == EmulatedPad::spec_neutral(),
    {
        let mut pads: Vec<EmulatedPad> = Vec::new();
        pads.push(EmulatedPad::new());
        pads.push(EmulatedPad::new());
        pads.push(EmulatedPad::new());
        pads.push(EmulatedPad::new());
        self.pads = pads;
        self.input_map.clear();
    }
}

/// Binding is stable: once a source holds a slot, dispatching any event from
/// that source leaves the slot table unchanged, rewrites no other slot, and
/// keeps the source and kind of its own slot, until a disconnect (the
/// liveness sweep) releases it.
pub proof fn lemma_bound_source_updates_own_slot(
    pads: Seq<EmulatedPad>,
    map: Map<usize, usize>,
    kinds: Seq<Option<SwitchPad>>,
    e: InputEvent,
    src: usize,
)
    requires
        slots_wf(pads, map),
        map.contains_key(src),
        e.spec_gamepad_id() == src,
    ensures
        ({
            let next = spec_dispatch(pads, map, kinds, e);
            &&& next.1 == map
            &&& next.0.len() == 4
            &&& forall|j: int| 0 <= j < 4 && j != map[src] ==> next.0[j] == pads[j]
            &&& next.0[map[src] as int].gamepad_id == Some(src)
            &&& next.0[map[src] as int].switch_pad == pads[map[src] as int].switch_pad
        }),
{
}

} // verus!
