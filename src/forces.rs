use vstd::prelude::*;
use crate::control::EngineCommand;
use crate::fixed::{
    abs, add_vec, lemma_fmul_bound, lemma_fmul_odd, lemma_rotate_bounded, lemma_rotate_odd, rotate, scale_vec, spec_add_vec, spec_fmul, spec_neg_vec, spec_rotate,
    spec_scale_vec, Quat, Vec3, DIR_BOUND, MAX_SCALAR, PART_BOUND, SCALE,
};

verus! {

/// Converts the lateral push of the attitude thrusters into torque (0.1).
pub const TORQUE_GAIN: u64 = 100_000;

/// Wind as a world-space direction and a speed.
#[derive(Clone, Copy, Debug, PartialEq, Eq, Structural)]
pub struct WindState {
    pub direction: Vec3,
    pub speed: u64,
}

/// The force and torque to write into the physics body for one tick.
#[derive(Clone, Copy, Debug, PartialEq, Eq, Structural)]
pub struct ForceTorque {
    pub force: Vec3,
    pub torque: Vec3,
}

impl WindState {
    /// Direction components lie in `[-SCALE, SCALE]`; the speed is bounded.
    pub open spec fn wf(self) -> bool {
        &&& self.direction.bounded_by(SCALE as int)
        &&& self.speed <= MAX_SCALAR
    }

    /// No wind: the state to use when no weather report could be had.
    pub fn calm() -> (r: WindState)
        ensures
            r.wf(),
            r.speed == 0,
            r.direction == (Vec3 { x: 0, y: 0, z: 0 }),
    {
        WindState { direction: Vec3 { x: 0, y: 0, z: 0 }, speed: 0 }
    }

    /// Wind from a weather report: the speed is the reported speed in km/h
    /// divided by ten; the bearing enters as its cosine, projected on the
    /// world x axis.
    pub fn from_report(speed_kph: u64, bearing_cos: i64) -> (r: WindState)
        requires
            speed_kph / 10 <= MAX_SCALAR,
            abs(bearing_cos as int) <= SCALE,
        ensures
            r.wf(),
            r.speed == speed_kph / 10,
            r.direction == (Vec3 { x: bearing_cos, y: 0, z: 0 }),
    {
        WindState { direction: Vec3 { x: bearing_cos, y: 0, z: 0 }, speed: speed_kph / 10 }
    }
}

/// The vehicle's local up axis.
pub open spec fn local_up() -> Vec3 {
    Vec3 { x: 0, y: SCALE, z: 0 }
}

/// The lateral body axis that the left thrusters push along.
pub open spec fn lateral_axis() -> Vec3 {
    Vec3 { x: 0, y: 0, z: SCALE }
}

/// The lateral body axis that the right thrusters push along.
pub open spec fn neg_lateral_axis() -> Vec3 {
    Vec3 { x: 0, y: 0, z: (-SCALE) as i64 }
}

/// Main thrust along the rotated up axis, plus the wind in world space.
pub open spec fn spec_force(cmd: EngineCommand, orientation: Quat, wind: WindState) -> Vec3 {
    spec_add_vec(
        spec_scale_vec(spec_rotate(orientation, local_up()), cmd.main_thrust as int),
        spec_scale_vec(wind.direction, wind.speed as int),
    )
}

/// The rotated lateral axes scaled by right and left authority, summed, times the gain.
pub open spec fn spec_torque(cmd: EngineCommand, orientation: Quat) -> Vec3 {
    spec_scale_vec(
        spec_add_vec(
            spec_scale_vec(spec_rotate(orientation, neg_lateral_axis()), cmd.right_authority as int),
            spec_scale_vec(spec_rotate(orientation, lateral_axis()), cmd.left_authority as int),
        ),
        TORQUE_GAIN as int,
    )
}

pub open spec fn spec_resolve(cmd: EngineCommand, orientation: Quat, wind: WindState) -> ForceTorque {
    ForceTorque { force: spec_force(cmd, orientation, wind), torque: spec_torque(cmd, orientation) }
}

proof fn lemma_part_bounds(v: Vec3, k: u64)
    requires
        v.bounded_by(DIR_BOUND as int),
        k <= MAX_SCALAR,
    ensures
        spec_scale_vec(v, k as int).bounded_by(PART_BOUND as int),
        abs(spec_fmul(v.x as int, k as int)) <= PART_BOUND,
        abs(spec_fmul(v.y as int, k as int)) <= PART_BOUND,
        abs(spec_fmul(v.z as int, k as int)) <= PART_BOUND,
{
    let m = DIR_BOUND as int * MAX_SCALAR as int;
    assert(m == 12_000_000_000_000_000_000);
    lemma_fmul_bound(v.x as int, k as int, DIR_BOUND as int, MAX_SCALAR as int, m);
    lemma_fmul_bound(v.y as int, k as int, DIR_BOUND as int, MAX_SCALAR as int, m);
    lemma_fmul_bound(v.z as int, k as int, DIR_BOUND as int, MAX_SCALAR as int, m);
}

/// The force and torque that the engines and the wind exert for one tick.
/// A function of its three inputs alone.
pub fn resolve_forces(cmd: &EngineCommand, orientation: &Quat, wind: &WindState) -> (r: ForceTorque)
    requires
        cmd.bounded(),
        orientation.wf(),
        wind.wf(),
    ensures
        r == spec_resolve(*cmd, *orientation, *wind),
        cmd.left_authority == cmd.right_authority ==> r.torque == (Vec3 { x: 0, y: 0, z: 0 }),
{
    proof {
        if cmd.left_authority == cmd.right_authority {
            lemma_equal_authority_no_torque(*cmd, *orientation, *wind);
        }
    }
    let up = Vec3 { x: 0, y: SCALE, z: 0 };
    let lateral = Vec3 { x: 0, y: 0, z: SCALE };
    let neg_lateral = Vec3 { x: 0, y: 0, z: -SCALE };

    let thrust_direction = rotate(orientation, &up);
    proof {
        lemma_part_bounds(thrust_direction, cmd.main_thrust);
        lemma_part_bounds(wind.direction, wind.speed);
    }
    let thrust_force = scale_vec(&thrust_direction, cmd.main_thrust);
    let wind_force = scale_vec(&wind.direction, wind.speed);
    let force = add_vec(&thrust_force, &wind_force);

    let right_axis = rotate(orientation, &neg_lateral);
    let left_axis = rotate(orientation, &lateral);
    proof {
        lemma_part_bounds(right_axis, cmd.right_authority);
        lemma_part_bounds(left_axis, cmd.left_authority);
    }
    let right_push = scale_vec(&right_axis, cmd.right_authority);
    let left_push = scale_vec(&left_axis, cmd.left_authority);
    let tilt = add_vec(&right_push, &left_push);
    proof {
        let b = 2 * PART_BOUND as int;
        let m = b * SCALE as int;
        assert(m == 24_000_000_000_000_000_000);
        lemma_fmul_bound(tilt.x as int, TORQUE_GAIN as int, b, SCALE as int, m);
        lemma_fmul_bound(tilt.y as int, TORQUE_GAIN as int, b, SCALE as int, m);
        lemma_fmul_bound(tilt.z as int, TORQUE_GAIN as int, b, SCALE as int, m);
    }
    let torque = scale_vec(&tilt, TORQUE_GAIN);
    ForceTorque { force, torque }
}

/// Identical command, orientation and wind give identical force and torque.
pub proof fn lemma_resolve_deterministic(
    cmd1: EngineCommand,
    orientation1: Quat,
    wind1: WindState,
    cmd2: EngineCommand,
    orientation2: Quat,
    wind2: WindState,
)
    requires
        cmd1 == cmd2,
        orientation1 == orientation2,
        wind1 == wind2,
    ensures
        spec_resolve(cmd1, orientation1, wind1) == spec_resolve(cmd2, orientation2, wind2),
{
}

/// Equal left and right authority cancel: the lateral axis and its negation
/// rotate to exact negatives, so the torque is zero whatever the main thrust,
/// the orientation and the wind.
pub proof fn lemma_equal_authority_no_torque(cmd: EngineCommand, orientation: Quat, wind: WindState)
    requires
        cmd.bounded(),
        orientation.wf(),
        cmd.left_authority == cmd.right_authority,
    ensures
        spec_resolve(cmd, orientation, wind).torque == (Vec3 { x: 0, y: 0, z: 0 }),
{
    let lat = lateral_axis();
    assert(neg_lateral_axis() == spec_neg_vec(lat));
    lemma_rotate_bounded(orientation, lat);
    lemma_rotate_bounded(orientation, spec_neg_vec(lat));
    lemma_rotate_odd(orientation, lat);
    let l = spec_rotate(orientation, lat);
    let r = spec_rotate(orientation, neg_lateral_axis());
    assert(r.x == -l.x && r.y == -l.y && r.z == -l.z);
    let k = cmd.left_authority as int;
    lemma_fmul_odd(l.x as int, k);
    lemma_fmul_odd(l.y as int, k);
    lemma_fmul_odd(l.z as int, k);
    lemma_part_bounds(l, cmd.left_authority);
    let tilt = spec_add_vec(spec_scale_vec(r, k), spec_scale_vec(l, k));
    assert(tilt == (Vec3 { x: 0, y: 0, z: 0 }));
}

/// With zero attitude authority and no wind, the torque is zero whatever the
/// main thrust and the orientation.
pub proof fn lemma_no_authority_no_torque(cmd: EngineCommand, orientation: Quat, wind: WindState)
    requires
        cmd.left_authority == 0,
        cmd.right_authority == 0,
        wind.speed == 0,
    ensures
        spec_resolve(cmd, orientation, wind).torque == (Vec3 { x: 0, y: 0, z: 0 }),
{
    let r = spec_rotate(orientation, neg_lateral_axis());
    let l = spec_rotate(orientation, lateral_axis());
    assert(r.x as int * 0 == 0 && r.y as int * 0 == 0 && r.z as int * 0 == 0);
    assert(l.x as int * 0 == 0 && l.y as int * 0 == 0 && l.z as int * 0 == 0);
    assert(0int * (TORQUE_GAIN as int) == 0);
}

} // verus!
