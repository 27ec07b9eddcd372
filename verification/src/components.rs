//! The data a character carries: its settings, its state between ticks, and
//! the input of one tick.

use vstd::prelude::*;
use crate::curve::DecayCurve;
use crate::vector::Vec3;

verus! {

/// How a character moves. Set once, read every tick.
#[derive(Clone, Debug)]
pub struct ControllerSettings {
    /// How fast the goal velocity follows the input, per second.
    pub acceleration: i64,
    /// The speed that a full input asks for.
    pub max_speed: i64,
    /// The largest change of velocity that one tick may ask for.
    pub max_acceleration_force: i64,
    /// The direction that counts as up.
    pub up_vector: Vec3,
    /// The pull along the negative up axis while no ground is in reach.
    pub gravity: i64,
    /// The steepest slope, as an angle to the up axis, that counts as ground.
    pub max_ground_angle: i64,
    /// The lowest float offset at which the character counts as grounded.
    pub min_float_offset: i64,
    /// The highest float offset at which the character counts as grounded.
    pub max_float_offset: i64,
    /// How long the ascent of a jump lasts.
    pub jump_time: u64,
    /// The impulse along the up axis at the start of a jump.
    pub jump_initial_force: i64,
    /// The factor on the vertical velocity that stops a jump released early.
    pub jump_stop_force: i64,
    /// The thrust along the up axis during the ascent.
    pub jump_force: i64,
    /// How the thrust falls off over the ascent.
    pub jump_decay_function: DecayCurve,
    /// How long after the start of a jump no ground is looked for.
    pub jump_skip_ground_check_duration: u64,
    /// Whether ground is looked for even while the skip timer runs.
    pub force_ground_check: bool,
    /// How long after leaving the ground a jump is still let through.
    pub coyote_time_duration: u64,
    /// How long a jump asked for in the air is remembered.
    pub jump_buffer_duration: u64,
    /// The factor on each component of the movement force.
    pub force_scale: Vec3,
    /// The height above ground at which the character floats.
    pub float_distance: i64,
    /// The stiffness of the spring that holds the float height.
    pub float_strength: i64,
    /// The damping of that spring.
    pub float_dampen: i64,
    /// The stiffness of the spring that keeps the character upright.
    pub upright_spring_strength: i64,
    /// The damping of that spring.
    pub upright_spring_damping: i64,
    /// How many jumps may start in the air before the ground is touched again.
    pub extra_jumps: u32,
}

/// What a character remembers from one tick to the next.
#[derive(Clone, Copy, Debug, PartialEq, Eq, Structural)]
pub struct ControllerState {
    /// The jumps that may still start in the air.
    pub remaining_jumps: u32,
    /// The time left in which a jump counts as started from the ground.
    pub coyote_timer: u64,
    /// The time left in which a jump asked for in the air is remembered.
    pub jump_buffer_timer: u64,
    /// The time left of the ascent.
    pub jump_timer: u64,
    /// The time left in which no ground is looked for.
    pub skip_ground_check_timer: u64,
    /// The goal velocity of the last tick.
    pub last_goal_velocity: Vec3,
    /// Whether the jump input was held in the last tick.
    pub jump_pressed_last_frame: bool,
}

/// What is asked of a character in one tick.
#[derive(Clone, Copy, Debug, PartialEq, Eq, Structural)]
pub struct ControllerInput {
    /// The direction to move in; a length over one counts as one.
    pub movement: Vec3,
    /// Whether the jump input is held.
    pub jumping: bool,
    /// An impulse added to the result of the next tick, then cleared.
    pub custom_impulse: Vec3,
    /// A torque impulse added to the result of the next tick, then cleared.
    pub custom_torque: Vec3,
}

/// The pose and velocity of the character's rigid body at the start of a tick.
#[derive(Clone, Copy, Debug, PartialEq, Eq, Structural)]
pub struct BodyState {
    /// The body's own up axis, in world space.
    pub up: Vec3,
    /// The angle between the body's up axis and the settings' up axis.
    pub tilt: i64,
    /// The linear velocity.
    pub linear_velocity: Vec3,
    /// The angular velocity.
    pub angular_velocity: Vec3,
}

/// The result of a tick, for the engine to apply once.
#[derive(Clone, Copy, Debug, PartialEq, Eq, Structural)]
pub struct ExternalImpulse {
    /// The linear impulse.
    pub impulse: Vec3,
    /// The angular impulse.
    pub torque_impulse: Vec3,
}

impl ControllerState {
    /// The state's invariant under `settings`: the ascent has no more time
    /// left than an ascent lasts, and no more jumps are left than the
    /// settings grant.
    pub open spec fn wf(self, settings: ControllerSettings) -> bool {
        &&& self.jump_timer <= settings.jump_time
        &&& self.remaining_jumps <= settings.extra_jumps
    }

    /// The state of a character that has just come into being.
    pub open spec fn new_spec() -> ControllerState {
        ControllerState {
            remaining_jumps: 0,
            coyote_timer: 0,
            jump_buffer_timer: 0,
            jump_timer: 0,
            skip_ground_check_timer: 0,
            last_goal_velocity: Vec3::zero_spec(),
            jump_pressed_last_frame: false,
        }
    }

    /// The state as it would be after `conform`.
    pub open spec fn conformed(self, settings: ControllerSettings) -> ControllerState {
        ControllerState {
            jump_timer: if self.jump_timer <= settings.jump_time {
                self.jump_timer
            } else {
                settings.jump_time
            },
            remaining_jumps: if self.remaining_jumps <= settings.extra_jumps {
                self.remaining_jumps
            } else {
                settings.extra_jumps
            },
            ..self
        }
    }

    /// The state of a character that has just come into being: at rest, all
    /// timers run out, no jump left.
    #[verifier::when_used_as_spec(new_spec)]
    pub fn new() -> (r: ControllerState)
        ensures
            r == ControllerState::new_spec(),
            forall|settings: ControllerSettings| r.wf(settings),
    {
        ControllerState {
            remaining_jumps: 0,
            coyote_timer: 0,
            jump_buffer_timer: 0,
            jump_timer: 0,
            skip_ground_check_timer: 0,
            last_goal_velocity: Vec3::zero(),
            jump_pressed_last_frame: false,
        }
    }

    /// Whether the state meets its invariant under `settings`.
    pub fn is_valid(&self, settings: &ControllerSettings) -> (r: bool)
        ensures
            r == self.wf(*settings),
    {
        self.jump_timer <= settings.jump_time && self.remaining_jumps <= settings.extra_jumps
    }

    /// Brings the state back under its invariant after the settings have
    /// changed: the ascent timer and the jumps left are cut down to what the
    /// settings allow, and nothing else changes.
    pub fn conform(&mut self, settings: &ControllerSettings)
        ensures
            *final(self) == old(self).conformed(*settings),
            final(self).wf(*settings),
            old(self).wf(*settings) ==> *final(self) == *old(self),
    {
        if self.jump_timer > settings.jump_time {
            self.jump_timer = settings.jump_time;
        }
        if self.remaining_jumps > settings.extra_jumps {
            self.remaining_jumps = settings.extra_jumps;
        }
    }
}

impl Default for ControllerState {
    fn default() -> (r: ControllerState)
        ensures
            r == ControllerState::new_spec(),
    {
        ControllerState::new()
    }
}

impl Default for ControllerInput {
    fn default() -> (r: ControllerInput)
        ensures
            r == ControllerInput::new_spec(),
    {
        ControllerInput::new()
    }
}

impl ControllerInput {
    /// An input that asks for nothing.
    pub open spec fn new_spec() -> ControllerInput {
        ControllerInput {
            movement: Vec3::zero_spec(),
            jumping: false,
            custom_impulse: Vec3::zero_spec(),
            custom_torque: Vec3::zero_spec(),
        }
    }

    /// An input that asks for nothing.
    #[verifier::when_used_as_spec(new_spec)]
    pub fn new() -> (r: ControllerInput)
        ensures
            r == ControllerInput::new_spec(),
    {
        ControllerInput {
            movement: Vec3::zero(),
            jumping: false,
            custom_impulse: Vec3::zero(),
            custom_torque: Vec3::zero(),
        }
    }
}

} // verus!
