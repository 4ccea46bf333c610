//! The per-event step of a pump, and its order-preservation law.
//!
//! A pump is the long-running loop that drains one observer and forwards
//! events into one client sink. Each iteration performs one blocking receive
//! outside this library and hands its outcome — the next raw event, or the
//! news that the source has closed — to [`pump_step`], which decides the one
//! wire event to forward. The loop itself does nothing but receive, step and
//! send, so the whole output stream of a pump is fixed, position by position,
//! by the sequence of receive outcomes.

use vstd::prelude::*;

use crate::event::RawEvent;
use crate::event::RawEventView;
use crate::event::WireEvent;
use crate::event::WireEventView;
use crate::event::spec_translate;
use crate::event::translate;

verus! {

/// The failure an event source reports when it can deliver no further
/// events: the receiving end found the observer gone.
pub struct SourceClosed {
    pub msg: String,
}

/// The mathematical form of one receive outcome: the next raw event, or the
/// closing message.
pub open spec fn outcome_view(o: Result<RawEvent, SourceClosed>) -> Result<
    RawEventView,
    Seq<char>,
> {
    match o {
        Ok(e) => Ok(e@),
        Err(c) => Err(c.msg@),
    }
}

/// The one wire event a pump forwards for one receive outcome: the
/// translation of a received raw event, or an error event carrying the
/// closing message and no path.
pub open spec fn spec_pump_step(o: Result<RawEventView, Seq<char>>) -> WireEventView {
    match o {
        Ok(r) => spec_translate(r),
        Err(msg) => WireEventView::Error { msg, path: None },
    }
}

/// Decide the wire event to forward for one receive outcome. A closed or
/// failed receive is not terminal here: it yields one in-band error event,
/// and the surrounding loop goes on.
pub fn pump_step(o: Result<RawEvent, SourceClosed>) -> (w: WireEvent)
    ensures
        w@ == spec_pump_step(outcome_view(o)),
{
    match o {
        Ok(e) => translate(e),
        Err(c) => WireEvent::Error { msg: c.msg, path: None },
    }
}

/// The whole output stream a pump produces from a sequence of receive
/// outcomes: one wire event per outcome, at the same position.
pub open spec fn spec_pump_outputs(s: Seq<Result<RawEvent, SourceClosed>>) -> Seq<WireEventView> {
    Seq::new(s.len(), |i: int| spec_pump_step(outcome_view(s[i])))
}

/// Forward a finite run of receive outcomes in order. This is the pump loop
/// on a batch that is already in hand: the emitted events are exactly the
/// per-outcome steps, in the order the outcomes were received.
pub fn pump_batch(outcomes: Vec<Result<RawEvent, SourceClosed>>) -> (out: Vec<WireEvent>)
    ensures
        out@.len() == outcomes@.len(),
        forall|i: int| 0 <= i < out@.len() ==> out@[i]@ == spec_pump_outputs(outcomes@)[i],
{
    let ghost all = outcomes@;
    let mut rest = outcomes;
    let mut out: Vec<WireEvent> = Vec::new();
    while rest.len() > 0
        invariant
            out@.len() + rest@.len() == all.len(),
            rest@ == all.subrange(out@.len() as int, all.len() as int),
            forall|i: int|
                0 <= i < out@.len() ==> out@[i]@ == spec_pump_step(outcome_view(all[i])),
        decreases rest@.len(),
    {
        let o = rest.remove(0);
        let w = pump_step(o);
        out.push(w);
        proof {
            assert(rest@ =~= all.subrange(out@.len() as int, all.len() as int));
        }
    }
    out
}

/// Order preservation within one watch: the event stream a pump produces
/// lines up with the receive outcomes position by position, so of two
/// outcomes received at positions `i` before `j`, the forwarded events stand
/// at the same positions `i` before `j` — nothing is reordered, dropped or
/// inserted between them.
pub proof fn lemma_pump_preserves_order(s: Seq<Result<RawEvent, SourceClosed>>, i: int, j: int)
    requires
        0 <= i < j < s.len(),
    ensures
        spec_pump_outputs(s).len() == s.len(),
        spec_pump_outputs(s)[i] == spec_pump_step(outcome_view(s[i])),
        spec_pump_outputs(s)[j] == spec_pump_step(outcome_view(s[j])),
{
}

} // verus!
