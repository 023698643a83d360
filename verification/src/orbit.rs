//! The orbiting camera: where it is after a given time.

use vstd::prelude::*;

use crate::fixed::{div_toward_zero, product, tenths, Fixed};
use crate::scene::{origin, unit_y, Orientation, Vector3};

verus! {

/// The distance of the orbiting camera from the world's Y axis: 10.
pub const ORBIT_RADIUS: i64 = 10_000_000_000;

/// The height of the orbiting camera above the ground: 4.5.
pub const ORBIT_HEIGHT: i64 = 4_500_000_000;

/// The speed of the orbit: 0.5 radians per second.
pub const ORBIT_RATE: i64 = 500_000_000;

/// Where the orbiting camera stands, in cylindrical coordinates about the
/// world's Y axis, and how it is turned. In Cartesian coordinates it stands
/// at `(radius * cos(angle), height, radius * sin(angle))`.
#[derive(Clone, Copy, Debug, PartialEq, Eq, Structural)]
pub struct OrbitPose {
    /// The angle from the X axis toward the Z axis, in radians.
    pub angle: Fixed,
    /// The distance from the Y axis.
    pub radius: Fixed,
    /// The coordinate along the Y axis.
    pub height: Fixed,
    /// How the camera is turned.
    pub rotation: Orientation,
}

/// The pose after `elapsed` billionths of a second: the camera has gone
/// round by half a radian for each second, on a circle of radius 10 at
/// height 4.5, and looks at the origin with Y up.
pub open spec fn orbit_at(elapsed: int) -> OrbitPose {
    OrbitPose {
        angle: Fixed { nanos: product(elapsed, ORBIT_RATE as int) as i64 },
        radius: tenths(100),
        height: tenths(45),
        rotation: Orientation::LookingAt { target: origin(), up: unit_y() },
    }
}

/// At half a radian per second the angle is half the time, and fits.
proof fn lemma_half_rate(elapsed: int)
    requires
        i64::MIN <= elapsed <= i64::MAX,
    ensures
        product(elapsed, ORBIT_RATE as int) == div_toward_zero(elapsed, 2),
{
    let p: int = elapsed * 500_000_000;
    assert(elapsed * (ORBIT_RATE as int) == p);
    if elapsed >= 0 {
        assert(p / 1_000_000_000 == elapsed / 2);
    } else {
        assert((-p) / 1_000_000_000 == (-elapsed) / 2);
    }
}

/// Waiting `span` longer takes the camera further round by half of `span`,
/// to within a billionth of a radian, on the same circle.
pub proof fn orbit_advances_by_half_the_time(elapsed: int, span: int)
    requires
        i64::MIN <= elapsed <= i64::MAX,
        i64::MIN <= span <= i64::MAX,
        i64::MIN <= elapsed + span <= i64::MAX,
    ensures
        -1 <= orbit_at(elapsed + span).angle@ - orbit_at(elapsed).angle@ - div_toward_zero(span, 2)
            <= 1,
        orbit_at(elapsed + span).radius == orbit_at(elapsed).radius,
        orbit_at(elapsed + span).height == orbit_at(elapsed).height,
        orbit_at(elapsed + span).rotation == orbit_at(elapsed).rotation,
{
    lemma_half_rate(elapsed);
    lemma_half_rate(elapsed + span);
}

/// Places the orbiting camera for the frame at `elapsed` seconds since
/// startup. The pose depends on the time alone.
pub fn camera_rotation_system(elapsed: Fixed) -> (pose: OrbitPose)
    ensures
        pose == orbit_at(elapsed@),
        pose.angle@ == div_toward_zero(elapsed@, 2),
        pose.radius@ == ORBIT_RADIUS,
        pose.height@ == ORBIT_HEIGHT,
{
    proof {
        lemma_half_rate(elapsed@);
    }
    OrbitPose {
        angle: elapsed.times(Fixed { nanos: ORBIT_RATE }),
        radius: Fixed { nanos: ORBIT_RADIUS },
        height: Fixed { nanos: ORBIT_HEIGHT },
        rotation: Orientation::LookingAt {
            target: Vector3::from_tenths(0, 0, 0),
            up: Vector3::from_tenths(0, 10, 0),
        },
    }
}

} // verus!
