//! Deterministic pseudo-colors derived from client ids.
//!
//! Each channel is the client id reduced modulo a small fixed modulus; the
//! channel's visible intensity is that numerator divided by its modulus, a
//! value in `[0, 1)`. The division is presentation work and happens outside
//! the core; here a color is the exact triple of numerators.

use vstd::prelude::*;

verus! {

/// Modulus of the red channel numerator.
pub const RED_MOD: u64 = 23;

/// Modulus of the green channel numerator.
pub const GREEN_MOD: u64 = 27;

/// Modulus of the blue channel numerator.
pub const BLUE_MOD: u64 = 39;

/// An RGB color held as channel numerators: the red intensity is
/// `red / RED_MOD`, and likewise for green and blue.
#[derive(Clone, Copy, PartialEq, Eq, Structural, Debug)]
pub struct Color {
    pub red: u8,
    pub green: u8,
    pub blue: u8,
}

/// Each numerator is below its modulus, so each intensity is in `[0, 1)`.
pub open spec fn color_wf(c: Color) -> bool {
    c.red < RED_MOD && c.green < GREEN_MOD && c.blue < BLUE_MOD
}

/// The pseudo-color assigned to a client id: a pure function of the id.
pub open spec fn color_spec(client_id: u64) -> Color {
    Color {
        red: (client_id % RED_MOD) as u8,
        green: (client_id % GREEN_MOD) as u8,
        blue: (client_id % BLUE_MOD) as u8,
    }
}

/// Computes the pseudo-color of a client id.
pub fn color_of(client_id: u64) -> (c: Color)
    ensures
        c == color_spec(client_id),
        color_wf(c),
{
    Color {
        red: (client_id % RED_MOD) as u8,
        green: (client_id % GREEN_MOD) as u8,
        blue: (client_id % BLUE_MOD) as u8,
    }
}

/// Law: the pseudo-color is deterministic and idempotent — any two colors
/// computed for the same client id are the same triple.
pub proof fn lemma_color_deterministic(a: Color, b: Color, client_id: u64)
    requires
        a == color_spec(client_id),
        b == color_spec(client_id),
    ensures
        a == b,
{
}

} // verus!
