//! The connection lifecycle handler, run by the authority.
//!
//! On a connect notification the authority spawns the replicated player:
//! at the origin, with the pseudo-color derived once from the client id.
//! On a disconnect it removes the authoritative record. Duplicate events
//! are harmless: a connect for a live id and a disconnect for a dead one
//! both leave the registry as it is.

use crate::color::{color_of, color_spec};
use crate::fixed::Vec2Fx;
use crate::player::Player;
use crate::store::{contains_id, remove_id, ReplicatedStore};
use vstd::prelude::*;

verus! {

/// Why a client disconnected; descriptive only, never inspected by the
/// core.
#[derive(Clone, Copy, PartialEq, Eq, Structural, Debug)]
pub enum DisconnectReason {
    Timeout,
    ExplicitClose,
    TransportFailure,
}

/// A notification from the transport session, emitted on the authority
/// side only.
#[derive(Clone, Copy, PartialEq, Eq, Structural, Debug)]
pub enum ConnectionEvent {
    Connected { client_id: u64 },
    Disconnected { client_id: u64, reason: DisconnectReason },
}

/// The record a connecting client is spawned with: at the origin, colored
/// by its id.
pub open spec fn spawned_player(client_id: u64) -> Player {
    Player { client_id, position: Vec2Fx { x: 0, y: 0 }, color: color_spec(client_id) }
}

/// A registry after one connection event: a connect appends the spawned
/// player unless the id is already live, a disconnect removes the id's
/// player if there is one.
pub open spec fn after_event(s: Seq<Player>, ev: ConnectionEvent) -> Seq<Player> {
    match ev {
        ConnectionEvent::Connected { client_id } => {
            if contains_id(s, client_id) {
                s
            } else {
                s.push(spawned_player(client_id))
            }
        },
        ConnectionEvent::Disconnected { client_id, .. } => remove_id(s, client_id),
    }
}

/// Reacts to one transport notification: spawns the replicated player on
/// connect, removes it on disconnect. A duplicate event in either
/// direction changes nothing and raises no error.
pub fn handle_connection(store: &mut ReplicatedStore, event: &ConnectionEvent)
    requires
        old(store).wf(),
    ensures
        final(store).wf(),
        final(store)@ == after_event(old(store)@, *event),
{
    match event {
        ConnectionEvent::Connected { client_id } => {
            let color = color_of(*client_id);
            let _ = store.create_player(*client_id, Vec2Fx::zero(), color);
        },
        ConnectionEvent::Disconnected { client_id, reason: _ } => {
            let _ = store.remove_player(*client_id);
        },
    }
}

} // verus!
