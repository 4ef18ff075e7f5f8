//! Per-tick control loop of the player demo: translate the held direction
//! keys into a movement intent, and place the camera over the player's
//! resolved pose.
//!
//! Collision-aware resolution of the intent is the character controller's
//! job and stays outside this crate; the functions here compute what is
//! handed to it and what follows it.

use vstd::prelude::*;
use crate::fixed::Vec3Fixed;

verus! {

/// Distance the player intends to move along one axis per tick for each
/// held direction key: one tenth of a unit, in micro-units.
pub const MOVE_STEP: i64 = 100_000;

/// Fixed height the camera keeps above the player, in micro-units:
/// fifty units.
pub const CAMERA_Y_OFFSET: i64 = 50_000_000;

/// Hold state of the four direction keys, polled once per tick
/// (the demo maps them to W, S, A and D).
#[derive(Clone, Copy, Debug, PartialEq, Eq, Structural)]
pub struct DirectionalKeys {
    pub forward: bool,
    pub back: bool,
    pub left: bool,
    pub right: bool,
}

/// Net sign of one axis: +1 for the positive key alone, -1 for the
/// negative key alone, 0 for neither or both. Opposing keys sum instead of
/// overriding each other.
pub open spec fn axis_sign(pos: bool, neg: bool) -> int {
    (if pos { 1int } else { 0int }) - (if neg { 1int } else { 0int })
}

/// The control loop expects exactly one entity to carry a given tag;
/// any other count is a programming error, not a recoverable state.
#[derive(Clone, Copy, Debug, PartialEq, Eq, Structural)]
pub enum ControlError {
    SingularityViolation,
}

/// Movement intent for one tick: each held direction key contributes a
/// fixed step along its axis, and contributions are summed, so opposing
/// keys cancel and diagonals compose. Forward pulls `x` down, back pushes
/// it up, left pushes `z` up, right pulls it down; `y` is never part of
/// the intent.
pub fn movement_intent(keys: &DirectionalKeys) -> (v: Vec3Fixed)
    ensures
        v.x == axis_sign(keys.back, keys.forward) * MOVE_STEP,
        v.y == 0,
        v.z == axis_sign(keys.left, keys.right) * MOVE_STEP,
{
    let mut x: i64 = 0;
    let mut z: i64 = 0;
    if keys.forward {
        x = x - MOVE_STEP;
    }
    if keys.back {
        x = x + MOVE_STEP;
    }
    if keys.left {
        z = z + MOVE_STEP;
    }
    if keys.right {
        z = z - MOVE_STEP;
    }
    Vec3Fixed { x, y: 0, z }
}

/// Holding both keys of an axis yields zero net intent on that axis:
/// the two contributions are summed algebraically, neither key overrides
/// the other.
pub proof fn lemma_opposing_keys_cancel(keys: DirectionalKeys)
    ensures
        keys.back == keys.forward ==> axis_sign(keys.back, keys.forward) * MOVE_STEP == 0,
        keys.left == keys.right ==> axis_sign(keys.left, keys.right) * MOVE_STEP == 0,
{
}

/// Camera-follow step, run after the player's pose has been resolved for
/// the tick: the camera sits exactly at the player's `x` and `z`, a fixed
/// offset above the player's `y`. Orientation is untouched.
pub fn camera_follow(player: &Vec3Fixed) -> (c: Vec3Fixed)
    requires
        player.y + CAMERA_Y_OFFSET <= i64::MAX,
    ensures
        c.x == player.x,
        c.y == player.y + CAMERA_Y_OFFSET,
        c.z == player.z,
{
    Vec3Fixed { x: player.x, y: player.y + CAMERA_Y_OFFSET, z: player.z }
}

/// The pose of the sole tagged entity: `Ok` with the one pose when the
/// query found exactly one, and a singularity violation for any other
/// count — the loop never silently picks an arbitrary entity.
pub fn sole_pose(poses: &Vec<Vec3Fixed>) -> (r: Result<Vec3Fixed, ControlError>)
    ensures
        poses@.len() == 1 ==> r == Ok::<Vec3Fixed, ControlError>(poses@[0]),
        poses@.len() != 1 ==> r == Err::<Vec3Fixed, ControlError>(
            ControlError::SingularityViolation,
        ),
{
    if poses.len() == 1 {
        Ok(poses[0])
    } else {
        Err(ControlError::SingularityViolation)
    }
}

} // verus!
