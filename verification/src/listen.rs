//! The per-request listen step, and its isolation and non-blocking laws.
//!
//! A subscription request names a directory; the surrounding process tries
//! to bind an observer to it and hands the outcome of that bind to
//! [`listen_step`]. On a successful bind the step registers the new watch —
//! one registry entry, one raised signal — and returns the watch's handle at
//! once, without waiting for its pump; the pump is started later, by the
//! dispatcher's next wake. On a failed bind the step returns the error and
//! leaves the dispatcher exactly as it was, so no other watch, pending or
//! already pumped, is touched.

use vstd::prelude::*;

use crate::dispatch::Dispatcher;

verus! {

/// Why an observer could not be bound to the requested path: the path is
/// missing, watching it was denied, or the observer primitive itself failed.
pub struct BindError {
    pub msg: String,
}

/// The failure a subscription call reports to its client. The only failure
/// a request can meet before its stream is live is a failed bind.
pub struct ServiceError {
    pub msg: String,
}

/// Handle one subscription request, given the outcome of the observer bind
/// for its path.
///
/// A successful bind registers the watch and returns its handle — the
/// identifier under which the caller's stream fills once the pump starts —
/// with the started pumps untouched, so the call never blocks on pump
/// startup. A failed bind returns a service error carrying the bind
/// failure's message, and the dispatcher is left exactly as it was: a bind
/// failure never reaches the registry.
pub fn listen_step(d: &mut Dispatcher, bind: Result<u64, BindError>) -> (r: Result<
    u64,
    ServiceError,
>)
    requires
        old(d).wf(),
        bind matches Ok(watch) ==> !old(d).has_watch(watch),
    ensures
        bind matches Ok(watch) ==> {
            &&& r matches Ok(handle) && handle == watch
            &&& final(d).registry@ == old(d).registry@.push(watch)
            &&& final(d).started@ == old(d).started@
            &&& final(d).signal.raised
            &&& final(d).wf()
        },
        bind matches Err(e) ==> {
            &&& r matches Err(s) && s.msg == e.msg
            &&& *final(d) == *old(d)
        },
{
    match bind {
        Ok(watch) => {
            d.register(watch);
            Ok(watch)
        },
        Err(e) => Err(ServiceError { msg: e.msg }),
    }
}

/// Non-blocking registration: a successful listen step hands its handle
/// back while the watch's pump has not started — the watch is pending, not
/// started — and it is the dispatcher's next wake that starts it, exactly
/// once. Registration and pump startup are thus decoupled: the caller holds
/// a live handle strictly before any pump exists for it.
pub proof fn lemma_registration_returns_before_pump_starts(
    before: Dispatcher,
    registered: Dispatcher,
    woken: Dispatcher,
    drained: Seq<u64>,
    watch: u64,
)
    requires
        before.wf(),
        !before.has_watch(watch),
        // what a successful listen step leaves behind
        registered.registry@ == before.registry@.push(watch),
        registered.started@ == before.started@,
        // what the next wake of the dispatcher leaves behind
        drained == registered.registry@.reverse(),
        woken.registry@.len() == 0,
        woken.started@ == registered.started@ + drained,
    ensures
        !registered.started@.contains(watch),
        woken.started@.contains(watch),
        woken.started@.to_multiset().count(watch) == 1,
{
    let n = registered.registry@.len();
    assert(registered.registry@[n - 1] == watch);
    assert(registered.registry@.contains(watch));
    assert(registered.wf()) by {
        crate::dispatch::lemma_concat_push_fresh_no_duplicates(
            before.started@,
            before.registry@,
            watch,
        );
    }
    crate::dispatch::lemma_wake_starts_each_pending_once(registered, woken, drained, watch);
}

} // verus!
