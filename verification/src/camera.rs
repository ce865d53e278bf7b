//! The chase camera: a fixed offset behind the bike, confined to a box
//! around the arena, always looking at the bike.

use crate::vector::{Coords, Vector};
use vstd::prelude::*;

verus! {

/// Side length of the square platform the bike rides on, centred on the
/// origin.
pub const PLATFORM_LENGTH: i64 = 20_000;

/// Sideways offset of the camera from the bike.
pub const CAMERA_DIFF_X: i64 = 111;

/// Height of the camera above the bike.
pub const CAMERA_DIFF_Y: i64 = 4_000;

/// Offset of the camera from the bike along the arena's length.
pub const CAMERA_DIFF_Z: i64 = -3_657;

/// How far from the centre of the arena the camera may travel sideways and
/// lengthways.
pub const CAMERA_LIMIT: i64 = 10_000;

/// Lowest height the camera may take.
pub const CAMERA_FLOOR: i64 = -1_000;

/// Greatest height the camera may take.
pub const CAMERA_CEILING: i64 = 100_000;

/// Where the camera rides relative to the bike, and the box it must stay in.
#[derive(Clone, Copy, Debug, PartialEq, Eq, Structural)]
pub struct CameraRig {
    pub offset: Vector,
    pub min: Vector,
    pub max: Vector,
}

/// Where the camera stands and the point it looks at, with the vertical
/// axis as its up direction.
#[derive(Clone, Copy, Debug, PartialEq, Eq, Structural)]
pub struct CameraPose {
    pub position: Vector,
    pub target: Vector,
}

/// The rig of the standard arena: the camera rides behind and above the
/// bike and stays within `CAMERA_LIMIT` of the centre, between
/// `CAMERA_FLOOR` and `CAMERA_CEILING`.
pub open spec fn arena_rig() -> CameraRig {
    CameraRig {
        offset: Vector { x: CAMERA_DIFF_X, y: CAMERA_DIFF_Y, z: CAMERA_DIFF_Z },
        min: Vector { x: (-CAMERA_LIMIT) as i64, y: CAMERA_FLOOR, z: (-CAMERA_LIMIT) as i64 },
        max: Vector { x: CAMERA_LIMIT, y: CAMERA_CEILING, z: CAMERA_LIMIT },
    }
}

impl CameraRig {
    /// The bounds are in order on every axis, so the box is not empty.
    pub open spec fn wf(self) -> bool {
        self.min@.le(self.max@)
    }

    /// The camera position for a bike at `bike`: the bike's position plus
    /// the offset, confined to the box.
    pub open spec fn follow(self, bike: Coords) -> Coords {
        bike.plus(self.offset@).clamp(self.min@, self.max@)
    }

    /// The rig of the standard arena.
    pub fn arena() -> (rig: CameraRig)
        ensures
            rig == arena_rig(),
            rig.wf(),
    {
        CameraRig {
            offset: Vector { x: CAMERA_DIFF_X, y: CAMERA_DIFF_Y, z: CAMERA_DIFF_Z },
            min: Vector { x: -CAMERA_LIMIT, y: CAMERA_FLOOR, z: -CAMERA_LIMIT },
            max: Vector { x: CAMERA_LIMIT, y: CAMERA_CEILING, z: CAMERA_LIMIT },
        }
    }

    /// Whether the bounds are in order on every axis.
    pub fn is_wf(&self) -> (ok: bool)
        ensures
            ok == self.wf(),
    {
        self.min.x <= self.max.x && self.min.y <= self.max.y && self.min.z <= self.max.z
    }
}

impl CameraPose {
    /// The direction the camera faces: from where it stands towards its
    /// target.
    pub open spec fn forward(self) -> Coords {
        self.target@.minus(self.position@)
    }

    /// The camera stands on its own target, so it faces no direction.
    pub open spec fn degenerate(self) -> bool {
        self.position == self.target
    }

    /// Whether the camera stands on its own target, which leaves its
    /// orientation undefined.
    pub fn is_degenerate(&self) -> (flat: bool)
        ensures
            flat == self.degenerate(),
            flat <==> self.forward() == (Coords { x: 0, y: 0, z: 0 }),
    {
        self.position.x == self.target.x && self.position.y == self.target.y && self.position.z
            == self.target.z
    }
}

/// One tick of the camera: places it at the bike's position plus the rig's
/// offset, confined to the rig's box, and points it at the bike. The pose
/// depends on nothing but the rig and the bike's position.
pub fn move_camera(rig: &CameraRig, bike_position: Vector) -> (pose: CameraPose)
    ensures
        pose.position@ == rig.follow(bike_position@),
        pose.target == bike_position,
        pose.forward() == bike_position@.minus(rig.follow(bike_position@)),
{
    CameraPose {
        position: bike_position.offset_clamped(rig.offset, rig.min, rig.max),
        target: bike_position,
    }
}

/// The camera never leaves the box of a well-formed rig.
pub proof fn camera_stays_in_box(rig: CameraRig, bike: Coords)
    requires
        rig.wf(),
    ensures
        rig.min@.le(rig.follow(bike)),
        rig.follow(bike).le(rig.max@),
{
}

/// The three cases of one axis: a value inside the span, one short of
/// it, one past it.
pub open spec fn confined(raw: int, low: int, high: int) -> int {
    if raw < low {
        low
    } else if raw > high {
        high
    } else {
        raw
    }
}

/// Each axis is confined on its own. Where the bike's position plus the
/// offset lies inside the span of an axis, the camera takes it unchanged;
/// where it falls short of the lower bound the camera sits on that bound,
/// and where it passes the upper bound, on that one.
pub proof fn camera_clamps_each_axis(rig: CameraRig, bike: Coords)
    requires
        rig.wf(),
    ensures
        rig.follow(bike).x == confined(bike.x + rig.offset.x, rig.min.x as int, rig.max.x as int),
        rig.follow(bike).y == confined(bike.y + rig.offset.y, rig.min.y as int, rig.max.y as int),
        rig.follow(bike).z == confined(bike.z + rig.offset.z, rig.min.z as int, rig.max.z as int),
{
}

/// Where the bike's position plus the offset lies inside the box, the
/// camera is exactly there, and nowhere else does it keep the full offset.
pub proof fn camera_keeps_offset_inside_box(rig: CameraRig, bike: Coords)
    requires
        rig.wf(),
    ensures
        rig.follow(bike) == bike.plus(rig.offset@) <==> (rig.min@.le(bike.plus(rig.offset@))
            && bike.plus(rig.offset@).le(rig.max@)),
{
}

/// In the standard arena the box is as wide and as long as the platform, so
/// the camera always stays above the platform, wherever the bike is.
pub proof fn arena_camera_stays_over_platform(bike: Coords)
    ensures
        -PLATFORM_LENGTH <= 2 * arena_rig().follow(bike).x <= PLATFORM_LENGTH,
        -PLATFORM_LENGTH <= 2 * arena_rig().follow(bike).z <= PLATFORM_LENGTH,
        CAMERA_FLOOR <= arena_rig().follow(bike).y <= CAMERA_CEILING,
{
}

/// In the standard arena the camera stands on its target for exactly one
/// position of the bike: the corner of the box where every axis is clamped
/// back onto the bike.
pub proof fn arena_degenerate_point(bike: Coords)
    ensures
        arena_rig().follow(bike) == bike <==> bike == (Coords {
            x: CAMERA_LIMIT as int,
            y: CAMERA_CEILING as int,
            z: -CAMERA_LIMIT,
        }),
{
}

} // verus!
