//! The shortcut event router: decides, from the binding registry and the
//! current recording flag, what a raw `(binding_id, pressed)` edge means.
//! The caller performs what the decision asks for: forwarding to the
//! coordinator, running the cancel flow, or calling a registered action's
//! start/stop.

use crate::strutil::str_eq;
use vstd::prelude::*;

verus! {

/// What a binding id resolves to: the transcription session coordinator, or
/// a plain action with start/stop handlers (the cancel command is such an
/// action, gated further by the router).
#[derive(Clone, Copy, Debug, PartialEq, Eq, Structural)]
pub enum BindingKind {
    Transcribe,
    Action,
}

/// The immutable mapping from binding id to what it resolves to, built once
/// at startup.
pub struct BindingRegistry {
    entries: Vec<(String, BindingKind)>,
}

/// What the router decided for one shortcut edge.
#[derive(Clone, Copy, Debug, PartialEq, Eq, Structural)]
pub enum RouteDecision {
    /// A transcription binding: forward the edge to the coordinator.
    Transcribe,
    /// The cancel binding, pressed while a recording is active: run the
    /// cancel flow.
    CancelFire,
    /// The cancel binding otherwise: nothing to cancel, drop the event.
    CancelIgnored,
    /// A registered action binding, press edge: call its start handler.
    ActionStart,
    /// A registered action binding, release edge: call its stop handler.
    ActionStop,
    /// No binding registered under this id: drop the event, never fatal.
    UnknownBinding,
}

/// The kind registered under `id`: the first entry with that id, if any.
pub open spec fn spec_lookup(entries: Seq<(Seq<char>, BindingKind)>, id: Seq<char>) -> Option<
    BindingKind,
>
    decreases entries.len(),
{
    if entries.len() == 0 {
        None
    } else if entries[0].0 == id {
        Some(entries[0].1)
    } else {
        spec_lookup(entries.drop_first(), id)
    }
}

/// The decision for one edge: transcription bindings go to the coordinator;
/// an unknown id is dropped; the cancel binding fires only on a press while
/// recording; every other registered binding maps press to start and
/// release to stop.
pub open spec fn spec_route(
    entries: Seq<(Seq<char>, BindingKind)>,
    id: Seq<char>,
    pressed: bool,
    recording_active: bool,
) -> RouteDecision {
    match spec_lookup(entries, id) {
        Some(BindingKind::Transcribe) => RouteDecision::Transcribe,
        Some(BindingKind::Action) => if id == "cancel"@ {
            if recording_active && pressed {
                RouteDecision::CancelFire
            } else {
                RouteDecision::CancelIgnored
            }
        } else if pressed {
            RouteDecision::ActionStart
        } else {
            RouteDecision::ActionStop
        },
        None => RouteDecision::UnknownBinding,
    }
}

impl View for BindingRegistry {
    type V = Seq<(Seq<char>, BindingKind)>;

    closed spec fn view(&self) -> Seq<(Seq<char>, BindingKind)> {
        Seq::new(self.entries@.len(), |i: int| (self.entries@[i].0@, self.entries@[i].1))
    }
}

impl BindingRegistry {
    /// An empty registry.
    pub fn new() -> (r: BindingRegistry)
        ensures
            r@ == Seq::<(Seq<char>, BindingKind)>::empty(),
    {
        let r = BindingRegistry { entries: Vec::new() };
        proof {
            assert(r@ =~= Seq::<(Seq<char>, BindingKind)>::empty());
        }
        r
    }

    /// Register one binding. The registry is built once at startup and not
    /// mutated afterwards.
    pub fn register(&mut self, id: String, kind: BindingKind)
        ensures
            final(self)@ == old(self)@.push((id@, kind)),
    {
        let ghost old_view = self@;
        let ghost id_view = id@;
        self.entries.push((id, kind));
        proof {
            assert(self@ =~= old_view.push((id_view, kind)));
        }
    }

    /// Look the binding id up.
    pub fn lookup(&self, id: &str) -> (r: Option<BindingKind>)
        ensures
            r == spec_lookup(self@, id@),
    {
        let n: usize = self.entries.len();
        let mut i: usize = 0;
        proof {
            assert(self@.skip(0) =~= self@);
        }
        while i < n
            invariant
                i <= n,
                n == self.entries.len(),
                self@.len() == n,
                spec_lookup(self@, id@) == spec_lookup(self@.skip(i as int), id@),
            decreases n - i,
        {
            if str_eq(self.entries[i].0.as_str(), id) {
                proof {
                    assert(self@.skip(i as int)[0] == self@[i as int]);
                }
                return Some(self.entries[i].1);
            }
            proof {
                assert(self@.skip(i as int)[0] == self@[i as int]);
                assert(self@.skip(i as int).drop_first() =~= self@.skip(i as int + 1));
            }
            i += 1;
        }
        None
    }

    /// Whether the id names a transcription binding, routed to the
    /// coordinator.
    pub fn is_transcribe_binding(&self, id: &str) -> (r: bool)
        ensures
            r == (spec_lookup(self@, id@) == Some(BindingKind::Transcribe)),
    {
        match self.lookup(id) {
            Some(BindingKind::Transcribe) => true,
            _ => false,
        }
    }
}

/// Decide what one raw shortcut edge means. `recording_active` is the audio
/// manager's answer at the moment the event is handled; it gates only the
/// cancel binding.
pub fn route_shortcut_event(
    registry: &BindingRegistry,
    binding_id: &str,
    pressed: bool,
    recording_active: bool,
) -> (d: RouteDecision)
    ensures
        d == spec_route(registry@, binding_id@, pressed, recording_active),
{
    match registry.lookup(binding_id) {
        Some(BindingKind::Transcribe) => RouteDecision::Transcribe,
        Some(BindingKind::Action) => {
            if str_eq(binding_id, "cancel") {
                if recording_active && pressed {
                    RouteDecision::CancelFire
                } else {
                    RouteDecision::CancelIgnored
                }
            } else if pressed {
                RouteDecision::ActionStart
            } else {
                RouteDecision::ActionStop
            }
        },
        None => RouteDecision::UnknownBinding,
    }
}

} // verus!
