use scene_control::control::{
    camera_follow, movement_intent, sole_pose, ControlError, DirectionalKeys, CAMERA_Y_OFFSET,
    MOVE_STEP,
};
use scene_control::fixed::Vec3Fixed;

fn keys(forward: bool, back: bool, left: bool, right: bool) -> DirectionalKeys {
    DirectionalKeys { forward, back, left, right }
}

#[test]
fn no_keys_no_intent() {
    let v = movement_intent(&keys(false, false, false, false));
    assert_eq!(v, Vec3Fixed { x: 0, y: 0, z: 0 });
}

#[test]
fn single_key_intents() {
    assert_eq!(movement_intent(&keys(true, false, false, false)).x, -MOVE_STEP);
    assert_eq!(movement_intent(&keys(false, true, false, false)).x, MOVE_STEP);
    assert_eq!(movement_intent(&keys(false, false, true, false)).z, MOVE_STEP);
    assert_eq!(movement_intent(&keys(false, false, false, true)).z, -MOVE_STEP);
}

#[test]
fn intent_never_moves_vertically() {
    assert_eq!(movement_intent(&keys(true, true, true, true)).y, 0);
    assert_eq!(movement_intent(&keys(true, false, false, true)).y, 0);
}

#[test]
fn opposing_keys_cancel() {
    let v = movement_intent(&keys(true, true, false, false));
    assert_eq!(v.x, 0);
    let w = movement_intent(&keys(false, false, true, true));
    assert_eq!(w.z, 0);
    let both = movement_intent(&keys(true, true, true, true));
    assert_eq!(both, Vec3Fixed { x: 0, y: 0, z: 0 });
}

#[test]
fn diagonal_keys_compose() {
    let v = movement_intent(&keys(true, false, true, false));
    assert_eq!(v, Vec3Fixed { x: -MOVE_STEP, y: 0, z: MOVE_STEP });
}

#[test]
fn camera_keeps_fixed_offset() {
    let c = camera_follow(&Vec3Fixed { x: 3_000_000, y: 4_000_000, z: -5_000_000 });
    assert_eq!(c, Vec3Fixed { x: 3_000_000, y: 4_000_000 + CAMERA_Y_OFFSET, z: -5_000_000 });
}

#[test]
fn sole_pose_of_one() {
    let poses = vec![Vec3Fixed { x: 1, y: 2, z: 3 }];
    assert_eq!(sole_pose(&poses), Ok(Vec3Fixed { x: 1, y: 2, z: 3 }));
}

#[test]
fn sole_pose_of_none_is_a_violation() {
    let poses: Vec<Vec3Fixed> = vec![];
    assert_eq!(sole_pose(&poses), Err(ControlError::SingularityViolation));
}

#[test]
fn sole_pose_of_two_is_a_violation() {
    let p = Vec3Fixed { x: 0, y: 0, z: 0 };
    let poses = vec![p, p];
    assert_eq!(sole_pose(&poses), Err(ControlError::SingularityViolation));
}

#[test]
fn one_tick_scenario_from_origin() {
    // Starting state: player at the origin, camera fifty units above it.
    let player = Vec3Fixed { x: 0, y: 0, z: 0 };
    let camera = camera_follow(&player);
    assert_eq!(camera, Vec3Fixed { x: 0, y: 50_000_000, z: 0 });

    // One tick with only the forward key held: the intent is a tenth of a
    // unit down the x axis, and with nothing in the way the resolved pose
    // is the old pose plus the intent.
    let intent = movement_intent(&keys(true, false, false, false));
    assert_eq!(intent, Vec3Fixed { x: -100_000, y: 0, z: 0 });
    let resolved = Vec3Fixed {
        x: player.x + intent.x,
        y: player.y + intent.y,
        z: player.z + intent.z,
    };
    assert_eq!(resolved.x, -100_000);

    // The camera follows the resolved pose, keeping its offset of fifty.
    let camera = camera_follow(&resolved);
    assert_eq!(camera, Vec3Fixed { x: -100_000, y: 50_000_000, z: 0 });
    assert_eq!(camera.y - resolved.y, 50_000_000);
}
