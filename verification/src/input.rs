//! Keyboard control of the rotation increments.
//!
//! The loop hands each sampled key press to [`handle_input`]. The quit
//! combination (control-d) always terminates. In auto mode every other
//! key is ignored; in manual mode six keys adjust the per-axis
//! rotation increments by a fixed delta, once per key press event, and
//! unrecognized keys are ignored without error.

use vstd::prelude::*;
use crate::cube::{Cube, Rotation};

verus! {

/// How much one key press changes a rotation increment: `0.01` rad.
pub const ROT_DELTA: i64 = 10_000;

/// A logical key press: its character and whether control was held.
#[derive(Clone, Copy, PartialEq, Eq, Structural, Debug)]
pub struct KeyPress {
    pub code: char,
    pub ctrl: bool,
}

/// Whether a sampled key is the quit combination (control-d).
pub open spec fn is_quit(key: Option<KeyPress>) -> bool {
    match key {
        Option::Some(k) => k.code == 'd' && k.ctrl,
        Option::None => false,
    }
}

/// Saturating addition on fixed-point values.
pub open spec fn sat_add_spec(a: int, b: int) -> int {
    if a + b > i64::MAX {
        i64::MAX as int
    } else if a + b < i64::MIN {
        i64::MIN as int
    } else {
        a + b
    }
}

/// The rotation increments after one sampled key: unchanged on quit,
/// in auto mode, with no key, or for an unrecognized key; otherwise
/// one axis moves by exactly one delta.
pub open spec fn apply_key_spec(rot: Rotation, auto: bool, key: Option<KeyPress>) -> Rotation {
    match key {
        Option::None => rot,
        Option::Some(k) => {
            if is_quit(key) || auto {
                rot
            } else if k.code == 'e' {
                Rotation { x: sat_add_spec(rot.x as int, -(ROT_DELTA as int)) as i64, ..rot }
            } else if k.code == 'r' {
                Rotation { x: sat_add_spec(rot.x as int, ROT_DELTA as int) as i64, ..rot }
            } else if k.code == 'd' {
                Rotation { y: sat_add_spec(rot.y as int, -(ROT_DELTA as int)) as i64, ..rot }
            } else if k.code == 'f' {
                Rotation { y: sat_add_spec(rot.y as int, ROT_DELTA as int) as i64, ..rot }
            } else if k.code == 'c' {
                Rotation { z: sat_add_spec(rot.z as int, -(ROT_DELTA as int)) as i64, ..rot }
            } else if k.code == 'v' {
                Rotation { z: sat_add_spec(rot.z as int, ROT_DELTA as int) as i64, ..rot }
            } else {
                rot
            }
        },
    }
}

/// Saturating addition, executable.
fn sat_add(a: i64, b: i64) -> (r: i64)
    ensures
        r as int == sat_add_spec(a as int, b as int),
{
    match a.checked_add(b) {
        Option::Some(v) => v,
        Option::None => if b >= 0 {
            i64::MAX
        } else {
            i64::MIN
        },
    }
}

/// Apply one sampled key press to the scene. Returns whether the quit
/// combination was observed; the geometry is never touched, only the
/// rotation increments, and only in manual mode.
pub fn handle_input(cube: &mut Cube, auto: bool, key: Option<KeyPress>) -> (quit: bool)
    requires
        old(cube).wf(),
    ensures
        final(cube).wf(),
        quit == is_quit(key),
        final(cube).rotation == apply_key_spec(old(cube).rotation, auto, key),
        final(cube).vertices_3d == old(cube).vertices_3d,
        final(cube).vertices_2d == old(cube).vertices_2d,
        final(cube).edges == old(cube).edges,
        final(cube).projection == old(cube).projection,
        final(cube).x_ratio == old(cube).x_ratio,
        final(cube).y_ratio == old(cube).y_ratio,
        final(cube).render_mode == old(cube).render_mode,
{
    match key {
        Option::None => false,
        Option::Some(k) => {
            if k.code == 'd' && k.ctrl {
                return true;
            }
            if auto {
                return false;
            }
            if k.code == 'e' {
                cube.rotation.x = sat_add(cube.rotation.x, -ROT_DELTA);
            }
            if k.code == 'r' {
                cube.rotation.x = sat_add(cube.rotation.x, ROT_DELTA);
            }
            if k.code == 'd' {
                cube.rotation.y = sat_add(cube.rotation.y, -ROT_DELTA);
            }
            if k.code == 'f' {
                cube.rotation.y = sat_add(cube.rotation.y, ROT_DELTA);
            }
            if k.code == 'c' {
                cube.rotation.z = sat_add(cube.rotation.z, -ROT_DELTA);
            }
            if k.code == 'v' {
                cube.rotation.z = sat_add(cube.rotation.z, ROT_DELTA);
            }
            false
        },
    }
}

/// Auto mode ignores every key: whatever was sampled, the rotation
/// increments are unchanged (the quit combination still terminates,
/// through [`handle_input`]'s return value).
pub proof fn lemma_auto_ignores_keys(rot: Rotation, key: Option<KeyPress>)
    ensures
        apply_key_spec(rot, true, key) == rot,
{
}

/// In manual mode a single press of `r` increases the X increment by
/// exactly one delta — once per key press event, not per frame.
pub proof fn lemma_manual_r_increases_x(rot: Rotation)
    requires
        rot.x + ROT_DELTA <= i64::MAX,
    ensures
        apply_key_spec(rot, false, Option::Some(KeyPress { code: 'r', ctrl: false })) == (Rotation {
            x: (rot.x + ROT_DELTA) as i64,
            ..rot
        }),
{
}

} // verus!
