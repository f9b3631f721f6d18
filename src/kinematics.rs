use vstd::prelude::*;
use crate::fixed::{abs, Quat, Vec3, MAX_COORD};

verus! {

/// The logical vehicle's pose, mirrored from the physics body, with the
/// velocity and altitude derived from it.
#[derive(Clone, Copy, Debug, PartialEq, Eq, Structural)]
pub struct KinematicState {
    pub position: Vec3,
    pub orientation: Quat,
    pub velocity: Vec3,
    pub altitude: i64,
}

/// `d / 1000` rounded to the nearest integer, halves away from zero.
pub open spec fn round_thousandths(d: int) -> int {
    if d >= 0 {
        (d + 500) / 1000
    } else {
        -((-d + 500) / 1000)
    }
}

/// One velocity component from a position change `d` over a tick: the change
/// times 1000, rounded, divided by 10, i.e. quantised to 0.1 units.
pub open spec fn quantized_velocity(d: int) -> int {
    round_thousandths(d) * 100_000
}

pub open spec fn spec_velocity(old_position: Vec3, new_position: Vec3) -> Vec3 {
    Vec3 {
        x: quantized_velocity(new_position.x - old_position.x) as i64,
        y: quantized_velocity(new_position.y - old_position.y) as i64,
        z: quantized_velocity(new_position.z - old_position.z) as i64,
    }
}

fn velocity_component(old: i64, new: i64) -> (r: i64)
    requires
        abs(old as int) <= MAX_COORD,
        abs(new as int) <= MAX_COORD,
    ensures
        r == quantized_velocity(new - old),
{
    let d: i64 = new - old;
    if d >= 0 {
        (d + 500) / 1000 * 100_000
    } else {
        -((-d + 500) / 1000) * 100_000
    }
}

impl KinematicState {
    pub open spec fn wf(self) -> bool {
        &&& self.position.bounded_by(MAX_COORD as int)
        &&& self.orientation.wf()
    }

    /// At rest at `position`.
    pub fn new(position: Vec3, orientation: Quat) -> (r: KinematicState)
        requires
            position.bounded_by(MAX_COORD as int),
            orientation.wf(),
        ensures
            r.wf(),
            r.position == position,
            r.orientation == orientation,
            r.velocity == (Vec3 { x: 0, y: 0, z: 0 }),
            r.altitude == position.y,
    {
        KinematicState { position, orientation, velocity: Vec3 { x: 0, y: 0, z: 0 }, altitude: position.y }
    }

    /// Copies the physics body's pose after a physics step, deriving the
    /// quantised velocity from the change of position and the altitude from
    /// its y coordinate.
    pub fn mirror(&mut self, body_position: Vec3, body_orientation: Quat)
        requires
            old(self).wf(),
            body_position.bounded_by(MAX_COORD as int),
            body_orientation.wf(),
        ensures
            final(self).wf(),
            final(self).position == body_position,
            final(self).orientation == body_orientation,
            final(self).velocity == spec_velocity(old(self).position, body_position),
            final(self).altitude == body_position.y,
    {
        let vx = velocity_component(self.position.x, body_position.x);
        let vy = velocity_component(self.position.y, body_position.y);
        let vz = velocity_component(self.position.z, body_position.z);
        self.velocity = Vec3 { x: vx, y: vy, z: vz };
        self.position = body_position;
        self.orientation = body_orientation;
        self.altitude = body_position.y;
    }
}

} // verus!
