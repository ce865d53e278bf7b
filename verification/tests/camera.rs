use lightbike::camera::{
    move_camera, CameraPose, CameraRig, CAMERA_CEILING, CAMERA_DIFF_X, CAMERA_DIFF_Y,
    CAMERA_DIFF_Z, CAMERA_FLOOR, CAMERA_LIMIT, PLATFORM_LENGTH,
};
use lightbike::vector::{clamped_sum, Vector, UNIT};

fn position_for(bike: Vector) -> Vector {
    move_camera(&CameraRig::arena(), bike).position
}

#[test]
fn arena_rig_constants() {
    let rig = CameraRig::arena();
    assert_eq!(UNIT, 100);
    assert_eq!(rig.offset, Vector::new(111, 4_000, -3_657));
    assert_eq!(rig.min, Vector::new(-10_000, -1_000, -10_000));
    assert_eq!(rig.max, Vector::new(10_000, 100_000, 10_000));
    assert_eq!(
        rig.offset,
        Vector::new(CAMERA_DIFF_X, CAMERA_DIFF_Y, CAMERA_DIFF_Z)
    );
    assert_eq!(rig.min, Vector::new(-CAMERA_LIMIT, CAMERA_FLOOR, -CAMERA_LIMIT));
    assert_eq!(rig.max, Vector::new(CAMERA_LIMIT, CAMERA_CEILING, CAMERA_LIMIT));
    assert!(rig.is_wf());
    assert_eq!(PLATFORM_LENGTH, 20_000);
    assert_eq!(2 * CAMERA_LIMIT, PLATFORM_LENGTH);
}

#[test]
fn camera_keeps_its_offset_inside_the_box() {
    assert_eq!(position_for(Vector::new(0, 100, 0)), Vector::new(111, 4_100, -3_657));
    assert_eq!(
        position_for(Vector::new(-2_500, 0, 6_000)),
        Vector::new(-2_389, 4_000, 2_343)
    );
}

#[test]
fn camera_x_is_clamped_at_the_limit() {
    let pose = move_camera(&CameraRig::arena(), Vector::new(12_000, 0, 0));
    assert_eq!(pose.position.x, 10_000);
    assert_ne!(pose.position.x, 12_111);
    assert_eq!(pose.position, Vector::new(10_000, 4_000, -3_657));
    assert_eq!(pose.target, Vector::new(12_000, 0, 0));
}

#[test]
fn camera_is_clamped_at_each_of_the_six_faces() {
    assert_eq!(position_for(Vector::new(12_000, 0, 0)), Vector::new(10_000, 4_000, -3_657));
    assert_eq!(position_for(Vector::new(-12_000, 0, 0)), Vector::new(-10_000, 4_000, -3_657));
    assert_eq!(position_for(Vector::new(0, 97_000, 0)), Vector::new(111, 100_000, -3_657));
    assert_eq!(position_for(Vector::new(0, -6_000, 0)), Vector::new(111, -1_000, -3_657));
    assert_eq!(position_for(Vector::new(0, 0, 14_000)), Vector::new(111, 4_000, 10_000));
    assert_eq!(position_for(Vector::new(0, 0, -7_000)), Vector::new(111, 4_000, -10_000));
}

#[test]
fn camera_bounds_are_inclusive() {
    assert_eq!(position_for(Vector::new(9_889, 0, 0)).x, 10_000);
    assert_eq!(position_for(Vector::new(9_888, 0, 0)).x, 9_999);
    assert_eq!(position_for(Vector::new(9_890, 0, 0)).x, 10_000);
    assert_eq!(position_for(Vector::new(-10_111, 0, 0)).x, -10_000);
    assert_eq!(position_for(Vector::new(-10_110, 0, 0)).x, -9_999);
    assert_eq!(position_for(Vector::new(-10_112, 0, 0)).x, -10_000);
    assert_eq!(position_for(Vector::new(0, 96_000, 0)).y, 100_000);
    assert_eq!(position_for(Vector::new(0, -5_000, 0)).y, -1_000);
    assert_eq!(position_for(Vector::new(0, 0, 13_657)).z, 10_000);
    assert_eq!(position_for(Vector::new(0, 0, -6_343)).z, -10_000);
}

#[test]
fn camera_position_at_the_ends_of_the_number_range() {
    assert_eq!(
        position_for(Vector::new(i64::MAX, i64::MAX, i64::MAX)),
        Vector::new(10_000, 100_000, 10_000)
    );
    assert_eq!(
        position_for(Vector::new(i64::MIN, i64::MIN, i64::MIN)),
        Vector::new(-10_000, -1_000, -10_000)
    );
    let wide = CameraRig {
        offset: Vector::new(i64::MAX, i64::MIN, 1),
        min: Vector::new(i64::MIN, i64::MIN, i64::MIN),
        max: Vector::new(i64::MAX, i64::MAX, i64::MAX),
    };
    let pose = move_camera(&wide, Vector::new(i64::MAX, i64::MIN, i64::MAX));
    assert_eq!(pose.position, Vector::new(i64::MAX, i64::MIN, i64::MAX));
    let pose = move_camera(&wide, Vector::new(-5, 7, -1));
    assert_eq!(pose.position, Vector::new(i64::MAX - 5, i64::MIN + 7, 0));
}

#[test]
fn camera_pose_is_recomputed_from_the_position_alone() {
    let rig = CameraRig::arena();
    let bike = Vector::new(3_300, 100, -9_100);
    let first = move_camera(&rig, bike);
    let _elsewhere = move_camera(&rig, Vector::new(-8_000, 0, 8_000));
    let again = move_camera(&rig, bike);
    assert_eq!(first, again);
    assert_eq!(first.position, Vector::new(3_411, 4_100, -10_000));
}

#[test]
fn camera_looks_at_the_bike() {
    let rig = CameraRig::arena();
    for bike in [
        Vector::new(0, 100, 0),
        Vector::new(12_000, 0, 0),
        Vector::new(-9_950, 100, 9_950),
        Vector::new(1, 2, 3),
    ] {
        let pose = move_camera(&rig, bike);
        assert_eq!(pose.target, bike);
        assert!(!pose.is_degenerate());
    }
}

#[test]
fn camera_on_its_target_is_degenerate() {
    let rig = CameraRig::arena();
    let corner = Vector::new(10_000, 100_000, -10_000);
    let pose = move_camera(&rig, corner);
    assert_eq!(pose, CameraPose { position: corner, target: corner });
    assert!(pose.is_degenerate());
    assert!(!move_camera(&rig, Vector::new(10_000, 100_000, -9_999)).is_degenerate());
    assert!(!move_camera(&rig, Vector::new(9_999, 100_000, -10_000)).is_degenerate());
    assert!(!move_camera(&rig, Vector::new(10_000, 99_999, -10_000)).is_degenerate());
}

#[test]
fn rig_with_bounds_out_of_order_is_not_well_formed() {
    let mut rig = CameraRig::arena();
    rig.min.y = rig.max.y + 1;
    assert!(!rig.is_wf());
    rig.min.y = rig.max.y;
    assert!(rig.is_wf());
    assert_eq!(move_camera(&rig, Vector::new(0, 0, 0)).position.y, 100_000);
}

#[test]
fn clamped_sum_of_one_axis() {
    assert_eq!(clamped_sum(5, 3, 0, 10), 8);
    assert_eq!(clamped_sum(5, 6, 0, 10), 10);
    assert_eq!(clamped_sum(5, -6, 0, 10), 0);
    assert_eq!(clamped_sum(i64::MAX, i64::MAX, i64::MIN, i64::MAX), i64::MAX);
    assert_eq!(clamped_sum(i64::MIN, i64::MIN, i64::MIN, i64::MAX), i64::MIN);
    assert_eq!(clamped_sum(i64::MAX, i64::MIN, -5, 5), -1);
    assert_eq!(clamped_sum(7, 0, 10, 0), 0);
}

#[test]
fn offset_clamped_vector() {
    let v = Vector::new(1, 2, 3).offset_clamped(
        Vector::new(10, 20, 30),
        Vector::new(0, 0, 0),
        Vector::new(100, 15, 100),
    );
    assert_eq!(v, Vector { x: 11, y: 15, z: 33 });
}
