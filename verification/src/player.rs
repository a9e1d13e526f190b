//! The replicated player record.

use crate::color::Color;
use crate::fixed::Vec2Fx;
use vstd::prelude::*;

verus! {

/// One connected participant, owned by the replicated state store. The
/// whole record is what the authority replicates to clients.
#[derive(Clone, Copy, PartialEq, Eq, Structural, Debug)]
pub struct Player {
    /// Unique per connected client; assigned at connect time.
    pub client_id: u64,
    /// Fixed-point world position, mutated only by the authority.
    pub position: Vec2Fx,
    /// Pseudo-color computed once at spawn from the client id.
    pub color: Color,
}

impl Player {
    /// Builds the record a newly connected client is spawned with.
    pub fn new(client_id: u64, position: Vec2Fx, color: Color) -> (p: Player)
        ensures
            p == (Player { client_id, position, color }),
    {
        Player { client_id, position, color }
    }
}

} // verus!
