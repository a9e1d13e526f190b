//! The input-to-intent translator.
//!
//! Each tick the client reads its four directional controls, sums them
//! into a net axis pair, and — only if the net direction is non-zero —
//! emits one `MoveIntent` whose direction is normalized to unit length.
//! A zero net direction emits nothing, so no-op intents never reach the
//! network.

use crate::fixed::{unit_component, Vec2Fx, FX_DIAG, FX_ONE};
use vstd::prelude::*;

verus! {

/// A movement request sent toward the authority: a non-zero direction of
/// unit length. It carries no client identity; the transport attaches the
/// sender's id on receipt.
#[derive(Clone, Copy, PartialEq, Eq, Structural, Debug)]
pub struct MoveIntent {
    pub direction: Vec2Fx,
}

/// True of the eight unit-length fixed-point directions: the four axis
/// directions with magnitude `FX_ONE`, and the four diagonals whose
/// components are `FX_DIAG`, the fixed-point `1/sqrt(2)`.
pub open spec fn is_unit_dir(d: Vec2Fx) -> bool {
    ||| ((d.x == FX_ONE || d.x == -(FX_ONE as int)) && d.y == 0)
    ||| (d.x == 0 && (d.y == FX_ONE || d.y == -(FX_ONE as int)))
    ||| ((d.x == FX_DIAG || d.x == -(FX_DIAG as int)) && (d.y == FX_DIAG || d.y == -(
    FX_DIAG as int)))
}

/// Both coordinates of a unit direction are unit components.
pub proof fn lemma_unit_dir_components(d: Vec2Fx)
    requires
        is_unit_dir(d),
    ensures
        unit_component(d.x as int),
        unit_component(d.y as int),
{
}

/// Checks whether a direction received from the network is one of the
/// eight unit directions; anything else is rejected before integration.
pub fn is_unit(d: &Vec2Fx) -> (r: bool)
    ensures
        r == is_unit_dir(*d),
{
    ((d.x == FX_ONE || d.x == -FX_ONE) && d.y == 0) || (d.x == 0 && (d.y == FX_ONE || d.y
        == -FX_ONE)) || ((d.x == FX_DIAG || d.x == -FX_DIAG) && (d.y == FX_DIAG || d.y == -FX_DIAG))
}

/// The net pull of one axis: `1` for the positive key alone, `-1` for the
/// negative key alone, `0` for neither or both.
pub open spec fn net_axis(pos: bool, neg: bool) -> int {
    (if pos {
        1int
    } else {
        0int
    }) - (if neg {
        1int
    } else {
        0int
    })
}

/// The normalized component a net axis pull contributes: full magnitude on
/// a straight move, the diagonal magnitude when both axes pull.
pub open spec fn axis_component(n: int, diagonal: bool) -> i64 {
    let mag: int = if diagonal {
        FX_DIAG as int
    } else {
        FX_ONE as int
    };
    if n > 0 {
        mag as i64
    } else if n < 0 {
        (-mag) as i64
    } else {
        0i64
    }
}

/// What the translator emits for a key state: `None` exactly when the net
/// direction is zero, otherwise one intent with the normalized direction.
pub open spec fn intent_for_keys(up: bool, down: bool, left: bool, right: bool) -> Option<
    MoveIntent,
> {
    let nx = net_axis(right, left);
    let ny = net_axis(up, down);
    if nx == 0 && ny == 0 {
        None
    } else {
        let diagonal = nx != 0 && ny != 0;
        Some(
            MoveIntent {
                direction: Vec2Fx {
                    x: axis_component(nx, diagonal),
                    y: axis_component(ny, diagonal),
                },
            },
        )
    }
}

/// Translates the current state of the four directional controls into at
/// most one movement intent. Every emitted direction is unit-length; an
/// all-released or fully opposed key state emits nothing.
pub fn read_input(up: bool, down: bool, left: bool, right: bool) -> (r: Option<MoveIntent>)
    ensures
        r == intent_for_keys(up, down, left, right),
        !up && !down && !left && !right ==> r is None,
        r matches Some(i) ==> is_unit_dir(i.direction),
{
    let mut nx: i64 = 0;
    let mut ny: i64 = 0;
    if right {
        nx = nx + 1;
    }
    if left {
        nx = nx - 1;
    }
    if up {
        ny = ny + 1;
    }
    if down {
        ny = ny - 1;
    }
    if nx == 0 && ny == 0 {
        None
    } else {
        let diagonal = nx != 0 && ny != 0;
        let mag: i64 = if diagonal {
            FX_DIAG
        } else {
            FX_ONE
        };
        let x: i64 = if nx > 0 {
            mag
        } else if nx < 0 {
            -mag
        } else {
            0
        };
        let y: i64 = if ny > 0 {
            mag
        } else if ny < 0 {
            -mag
        } else {
            0
        };
        Some(MoveIntent { direction: Vec2Fx { x, y } })
    }
}

} // verus!
