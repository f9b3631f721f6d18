use vstd::prelude::*;
use crate::control::{map_controls, next_command, ControlConfig, ControlInput, EngineCommand};
use crate::fixed::{Quat, Vec3, MAX_COORD};
use crate::forces::{resolve_forces, spec_resolve, ForceTorque, WindState};
use crate::fuel::{fuel_after_tick, FuelLedger};
use crate::kinematics::{spec_velocity, KinematicState};

verus! {

/// Everything one simulated rocket carries from tick to tick.
pub struct FlightState {
    pub config: ControlConfig,
    pub command: EngineCommand,
    pub fuel: FuelLedger,
    pub kinematics: KinematicState,
    pub wind: WindState,
}

impl FlightState {
    pub open spec fn wf(self) -> bool {
        &&& self.config.wf()
        &&& self.command.within(self.config)
        &&& self.fuel.wf()
        &&& self.kinematics.wf()
        &&& self.wind.wf()
    }

    /// A rocket with its engines off.
    pub fn new(config: ControlConfig, fuel: FuelLedger, kinematics: KinematicState, wind: WindState) -> (r: FlightState)
        requires
            config.wf(),
            fuel.wf(),
            kinematics.wf(),
            wind.wf(),
        ensures
            r.wf(),
            r.config == config,
            r.command == (EngineCommand { main_thrust: 0, left_authority: 0, right_authority: 0 }),
            r.fuel == fuel,
            r.kinematics == kinematics,
            r.wind == wind,
    {
        FlightState { config, command: EngineCommand::off(), fuel, kinematics, wind }
    }

    /// The values a telemetry frame reports, in fixed point and in wire
    /// order: fuel, altitude, velocity, main thrust, left and right
    /// authority, wind speed, wind direction.
    pub fn telemetry_values(&self) -> (r: [i128; 12])
        ensures
            r@ == seq![
                self.fuel.remaining as i128,
                self.kinematics.altitude as i128,
                self.kinematics.velocity.x as i128,
                self.kinematics.velocity.y as i128,
                self.kinematics.velocity.z as i128,
                self.command.main_thrust as i128,
                self.command.left_authority as i128,
                self.command.right_authority as i128,
                self.wind.speed as i128,
                self.wind.direction.x as i128,
                self.wind.direction.y as i128,
                self.wind.direction.z as i128,
            ],
    {
        let r = [
            self.fuel.remaining as i128,
            self.kinematics.altitude as i128,
            self.kinematics.velocity.x as i128,
            self.kinematics.velocity.y as i128,
            self.kinematics.velocity.z as i128,
            self.command.main_thrust as i128,
            self.command.left_authority as i128,
            self.command.right_authority as i128,
            self.wind.speed as i128,
            self.wind.direction.x as i128,
            self.wind.direction.y as i128,
            self.wind.direction.z as i128,
        ];
        assert(r@ =~= seq![
            self.fuel.remaining as i128,
            self.kinematics.altitude as i128,
            self.kinematics.velocity.x as i128,
            self.kinematics.velocity.y as i128,
            self.kinematics.velocity.z as i128,
            self.command.main_thrust as i128,
            self.command.left_authority as i128,
            self.command.right_authority as i128,
            self.wind.speed as i128,
            self.wind.direction.x as i128,
            self.wind.direction.y as i128,
            self.wind.direction.z as i128,
        ]);
        r
    }

    /// The first half of a tick: maps the held keys to the new engine command
    /// and returns the force and torque to write into the physics body.
    pub fn begin_tick(&mut self, input: &ControlInput, dt: u64) -> (r: ForceTorque)
        requires
            old(self).wf(),
        ensures
            final(self).wf(),
            final(self).command == next_command(old(self).config, old(self).command, *input, dt as int),
            r == spec_resolve(final(self).command, old(self).kinematics.orientation, old(self).wind),
            final(self).config == old(self).config,
            final(self).fuel == old(self).fuel,
            final(self).kinematics == old(self).kinematics,
            final(self).wind == old(self).wind,
    {
        self.command = map_controls(&self.config, &self.command, input, dt);
        resolve_forces(&self.command, &self.kinematics.orientation, &self.wind)
    }

    /// The second half of a tick, after the physics step: mirrors the body's
    /// pose and burns the fuel of the current command.
    pub fn end_tick(&mut self, body_position: Vec3, body_orientation: Quat)
        requires
            old(self).wf(),
            body_position.bounded_by(MAX_COORD as int),
            body_orientation.wf(),
        ensures
            final(self).wf(),
            final(self).kinematics.position == body_position,
            final(self).kinematics.orientation == body_orientation,
            final(self).kinematics.velocity == spec_velocity(old(self).kinematics.position, body_position),
            final(self).kinematics.altitude == body_position.y,
            final(self).fuel.remaining == fuel_after_tick(
                old(self).fuel.remaining as int,
                old(self).fuel.burn_rate as int,
                old(self).command,
            ),
            final(self).fuel.remaining <= old(self).fuel.remaining,
            final(self).fuel.burn_rate == old(self).fuel.burn_rate,
            final(self).config == old(self).config,
            final(self).command == old(self).command,
            final(self).wind == old(self).wind,
    {
        self.kinematics.mirror(body_position, body_orientation);
        self.fuel.burn(&self.command);
    }
}

} // verus!
