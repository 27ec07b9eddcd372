//! The forces that do not depend on the jump: gravity, the float spring,
//! the movement force and the upright torque.

use vstd::prelude::*;
use crate::components::{BodyState, ControllerSettings};
use crate::fixed::{
    fx_from_time, fx_from_time_spec, fx_min, fx_min_spec, fx_mul, fx_mul_spec, fx_neg,
    fx_neg_spec, fx_sub, fx_sub_spec, lemma_mul_zero, SCALE,
};
use crate::ground::GroundCandidate;
use crate::vector::Vec3;

verus! {

/// The pull of gravity over one tick: along the negative up axis while
/// there is no ground contact, nothing while there is one.
pub open spec fn gravity_impulse_spec(
    settings: ControllerSettings,
    contact: Option<GroundCandidate>,
    dt: u64,
) -> Vec3 {
    match contact {
        None => settings.up_vector.scaled_spec(fx_neg_spec(settings.gravity)).scaled_spec(
            fx_from_time_spec(dt),
        ),
        Some(_) => Vec3::zero_spec(),
    }
}

/// The speed at which a body with this velocity closes in on the ground: the
/// part of the velocity along the negative up axis.
pub open spec fn closing_speed_spec(settings: ControllerSettings, velocity: Vec3) -> i64 {
    settings.up_vector.negated_spec().dot_spec(velocity)
}

/// The strength of the float spring along the negative up axis: the float
/// offset times the stiffness, less the closing speed relative to the
/// ground times the damping.
pub open spec fn float_spring_strength_spec(
    settings: ControllerSettings,
    contact: GroundCandidate,
    velocity: Vec3,
) -> i64 {
    let relative_align = fx_sub_spec(
        closing_speed_spec(settings, velocity),
        closing_speed_spec(settings, contact.ground_velocity_spec()),
    );
    let snap = contact.float_offset_spec(settings);
    fx_sub_spec(
        fx_mul_spec(snap, settings.float_strength),
        fx_mul_spec(relative_align, settings.float_dampen),
    )
}

/// The force of the spring that holds the character at its float height
/// over the ground contact; nothing without a contact.
pub open spec fn float_spring_spec(
    settings: ControllerSettings,
    contact: Option<GroundCandidate>,
    velocity: Vec3,
) -> Vec3 {
    match contact {
        Some(c) => settings.up_vector.negated_spec().scaled_spec(
            float_spring_strength_spec(settings, c, velocity),
        ),
        None => Vec3::zero_spec(),
    }
}

/// The velocity of the ground under the character: that of the contact's
/// body, zero without a contact or where the body has no velocity.
pub open spec fn ground_velocity_spec(contact: Option<GroundCandidate>) -> Vec3 {
    match contact {
        Some(c) => c.ground_velocity_spec(),
        None => Vec3::zero_spec(),
    }
}

/// How far the goal velocity moves toward the input in one tick: the
/// acceleration times the elapsed time, at most one.
pub open spec fn blend_factor_spec(settings: ControllerSettings, dt: u64) -> i64 {
    fx_min_spec(fx_mul_spec(settings.acceleration, fx_from_time_spec(dt)), SCALE)
}

/// The goal velocity of a tick: the last goal moved toward the velocity
/// that the input asks for on top of the ground's velocity.
pub open spec fn goal_velocity_spec(
    settings: ControllerSettings,
    last_goal: Vec3,
    movement: Vec3,
    ground_velocity: Vec3,
    dt: u64,
) -> Vec3 {
    let input_goal = movement.clamped_spec(SCALE).scaled_spec(settings.max_speed);
    last_goal.lerp_spec(input_goal.plus_spec(ground_velocity), blend_factor_spec(settings, dt))
}

/// The force that steers the velocity toward the goal: their difference, cut
/// to the largest acceleration, each component times the force scale.
pub open spec fn movement_force_spec(
    settings: ControllerSettings,
    goal: Vec3,
    velocity: Vec3,
) -> Vec3 {
    goal.minus_spec(velocity).clamped_spec(settings.max_acceleration_force).times_spec(
        settings.force_scale,
    )
}

/// The torque that turns the body's up axis back to the settings' up axis,
/// damped by the angular velocity.
pub open spec fn upright_torque_spec(settings: ControllerSettings, body: BodyState, dt: u64) -> Vec3 {
    let axis = body.up.cross_spec(settings.up_vector).normalized_or_zero_spec();
    let spring = axis.scaled_spec(fx_mul_spec(body.tilt, settings.upright_spring_strength));
    let damping = body.angular_velocity.scaled_spec(settings.upright_spring_damping);
    spring.minus_spec(damping).scaled_spec(fx_from_time_spec(dt))
}

/// The pull of gravity over a tick of `dt` microseconds.
pub fn gravity_impulse(
    settings: &ControllerSettings,
    contact: &Option<GroundCandidate>,
    dt: u64,
) -> (r: Vec3)
    ensures
        r == gravity_impulse_spec(*settings, *contact, dt),
{
    match contact {
        None => settings.up_vector.scaled(fx_neg(settings.gravity)).scaled(fx_from_time(dt)),
        Some(_) => Vec3::zero(),
    }
}

/// The force of the float spring for a body with this linear velocity.
pub fn float_spring(
    settings: &ControllerSettings,
    contact: &Option<GroundCandidate>,
    velocity: Vec3,
) -> (r: Vec3)
    ensures
        r == float_spring_spec(*settings, *contact, velocity),
{
    match contact {
        Some(c) => {
            let down: Vec3 = settings.up_vector.negated();
            let vel_align: i64 = down.dot(velocity);
            let ground_vel_align: i64 = down.dot(c.ground_velocity());
            let relative_align: i64 = fx_sub(vel_align, ground_vel_align);
            let snap: i64 = c.float_offset(settings);
            down.scaled(
                fx_sub(
                    fx_mul(snap, settings.float_strength),
                    fx_mul(relative_align, settings.float_dampen),
                ),
            )
        },
        None => Vec3::zero(),
    }
}

/// The velocity of the ground under the character.
pub fn ground_velocity(contact: &Option<GroundCandidate>) -> (r: Vec3)
    ensures
        r == ground_velocity_spec(*contact),
{
    match contact {
        Some(c) => c.ground_velocity(),
        None => Vec3::zero(),
    }
}

/// The goal velocity of a tick of `dt` microseconds.
pub fn goal_velocity(
    settings: &ControllerSettings,
    last_goal: Vec3,
    movement: Vec3,
    ground_velocity: Vec3,
    dt: u64,
) -> (r: Vec3)
    ensures
        r == goal_velocity_spec(*settings, last_goal, movement, ground_velocity, dt),
{
    let dir: Vec3 = movement.clamped(SCALE);
    let input_goal: Vec3 = dir.scaled(settings.max_speed);
    let blend: i64 = fx_min(fx_mul(settings.acceleration, fx_from_time(dt)), SCALE);
    last_goal.lerp(input_goal.plus(ground_velocity), blend)
}

/// The force that steers a body with this linear velocity toward the goal
/// velocity.
pub fn movement_force(settings: &ControllerSettings, goal: Vec3, velocity: Vec3) -> (r: Vec3)
    ensures
        r == movement_force_spec(*settings, goal, velocity),
{
    goal.minus(velocity).clamped(settings.max_acceleration_force).times(settings.force_scale)
}

/// The torque that keeps the body upright over a tick of `dt`
/// microseconds. Where the two up axes are parallel their cross product
/// has no direction, and only the damping is left.
pub fn upright_torque(settings: &ControllerSettings, body: &BodyState, dt: u64) -> (r: Vec3)
    ensures
        r == upright_torque_spec(*settings, *body, dt),
{
    let axis: Vec3 = body.up.cross(settings.up_vector).normalized_or_zero();
    let spring: Vec3 = axis.scaled(fx_mul(body.tilt, settings.upright_spring_strength));
    let damping: Vec3 = body.angular_velocity.scaled(settings.upright_spring_damping);
    spring.minus(damping).scaled(fx_from_time(dt))
}

/// Over a ground contact exactly at float height, and with no closing speed
/// relative to the ground, the float spring is at rest.
pub proof fn lemma_float_spring_rests(
    settings: ControllerSettings,
    contact: GroundCandidate,
    velocity: Vec3,
)
    requires
        contact.float_offset_spec(settings) == 0,
        closing_speed_spec(settings, velocity) == closing_speed_spec(
            settings,
            contact.ground_velocity_spec(),
        ),
    ensures
        float_spring_spec(settings, Some(contact), velocity) == Vec3::zero_spec(),
{
    let down = settings.up_vector.negated_spec();
    lemma_mul_zero(settings.float_strength);
    lemma_mul_zero(settings.float_dampen);
    assert(float_spring_strength_spec(settings, contact, velocity) == 0);
    lemma_mul_zero(down.x);
    lemma_mul_zero(down.y);
    lemma_mul_zero(down.z);
}

} // verus!
