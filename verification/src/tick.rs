//! The explicit per-tick simulation pipeline.
//!
//! Instead of scattering run conditions over a scheduler, one function
//! advances the authoritative state for a whole tick: drain the connection
//! events, then the tagged intents — each inbox in receipt order, each
//! intent applied independently with no coalescing — and hand back the
//! outbound snapshot. The process role is checked once: a non-authority
//! process never runs the simulation stages.

use crate::fixed::move_delta;
use crate::intent::{is_unit, is_unit_dir, MoveIntent};
use crate::lifecycle::{after_event, handle_connection, ConnectionEvent};
use crate::player::Player;
use crate::store::{shift_all, ReplicatedStore, Role};
use vstd::prelude::*;

verus! {

/// An intent as the authority receives it: the transport layer has
/// attached the id of the connection that produced it.
#[derive(Clone, Copy, PartialEq, Eq, Structural, Debug)]
pub struct TaggedIntent {
    pub client_id: u64,
    pub intent: MoveIntent,
}

/// A registry after one tagged intent: the sender's player shifted by one
/// movement step. An intent whose direction is not unit-length is
/// rejected and changes nothing.
pub open spec fn after_intent(s: Seq<Player>, ti: TaggedIntent, ms: int) -> Seq<Player> {
    if is_unit_dir(ti.intent.direction) {
        shift_all(
            s,
            ti.client_id,
            move_delta(ti.intent.direction.x as int, ms),
            move_delta(ti.intent.direction.y as int, ms),
        )
    } else {
        s
    }
}

/// The first `n` connection events folded into a registry, in order.
pub open spec fn after_events(s: Seq<Player>, evs: Seq<ConnectionEvent>, n: int) -> Seq<Player>
    decreases n,
{
    if n <= 0 {
        s
    } else {
        after_event(after_events(s, evs, n - 1), evs[n - 1])
    }
}

/// The first `n` tagged intents folded into a registry, in order.
pub open spec fn after_intents(s: Seq<Player>, its: Seq<TaggedIntent>, ms: int, n: int) -> Seq<
    Player,
>
    decreases n,
{
    if n <= 0 {
        s
    } else {
        after_intent(after_intents(s, its, ms, n - 1), its[n - 1], ms)
    }
}

/// The authoritative state after one whole tick: every connection event,
/// then every intent, each inbox in receipt order.
pub open spec fn tick_spec(
    s: Seq<Player>,
    evs: Seq<ConnectionEvent>,
    its: Seq<TaggedIntent>,
    ms: int,
) -> Seq<Player> {
    after_intents(after_events(s, evs, evs.len() as int), its, ms, its.len() as int)
}

/// One simulation tick. Under `Role::Authority` the store advances by the
/// whole inbox, exactly as `tick_spec` folds it; under `Role::Client` the
/// simulation stages are skipped and the store is untouched. Either way
/// the returned snapshot mirrors the store after the tick.
pub fn simulation_tick(
    store: &mut ReplicatedStore,
    role: Role,
    events: &Vec<ConnectionEvent>,
    intents: &Vec<TaggedIntent>,
    elapsed_ms: u32,
) -> (snap: Vec<Player>)
    requires
        old(store).wf(),
    ensures
        final(store).wf(),
        role == Role::Authority ==> final(store)@ == tick_spec(
            old(store)@,
            events@,
            intents@,
            elapsed_ms as int,
        ),
        role == Role::Client ==> final(store)@ == old(store)@,
        snap@ == final(store)@,
{
    if let Role::Authority = role {
        let ghost s0 = store@;
        let mut i: usize = 0;
        while i < events.len()
            invariant
                i <= events@.len(),
                store.wf(),
                store@ == after_events(s0, events@, i as int),
            decreases events@.len() - i,
        {
            let ev = events[i];
            handle_connection(store, &ev);
            i = i + 1;
        }
        let ghost s1 = store@;
        let mut k: usize = 0;
        while k < intents.len()
            invariant
                k <= intents@.len(),
                store.wf(),
                store@ == after_intents(s1, intents@, elapsed_ms as int, k as int),
                s1 == after_events(s0, events@, events@.len() as int),
            decreases intents@.len() - k,
        {
            let ti = intents[k];
            if is_unit(&ti.intent.direction) {
                let _ = store.apply_intent(Role::Authority, ti.client_id, &ti.intent, elapsed_ms);
            }
            k = k + 1;
        }
    }
    store.snapshot()
}

} // verus!
