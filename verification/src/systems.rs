//! One tick of a character, from its state, its input and what the physics
//! engine knows of it to the impulse that the engine applies.

use vstd::prelude::*;
use crate::components::{
    BodyState, ControllerInput, ControllerSettings, ControllerState, ExternalImpulse,
};
use crate::forces::{
    float_spring, float_spring_spec, goal_velocity, goal_velocity_spec, gravity_impulse,
    gravity_impulse_spec, ground_velocity, ground_velocity_spec, movement_force,
    movement_force_spec, upright_torque, upright_torque_spec,
};
use crate::ground::{grounded_spec, is_grounded, select_ground, selected_ground, GroundCandidate};
use crate::jump::{jump, jump_outcome_spec, jump_state_spec, JumpOutcome};
use crate::timer::{decayed, decayed_spec};
use crate::vector::Vec3;
use bevy::ecs::entity::Entity;
use bevy_rapier3d::plugin::RapierContext;

verus! {

/// The physics world of the Rapier plugin, `RapierContext`, as a type
/// that is carried through and never looked into.
#[verifier::external_type_specification]
#[verifier::external_body]
pub struct ExRapierContext(bevy_rapier3d::plugin::RapierContext);

/// The engine-wide settings that make a floating character behave well.
#[derive(Clone, Copy, Debug, PartialEq, Eq, Structural)]
pub struct PhysicsTweaks {
    /// The error reduction parameter of the solver, as a fixed-point scalar.
    pub erp: i64,
    /// How many velocity iterations the solver runs at most.
    pub max_velocity_iterations: usize,
}

/// The tweaks to make, given the toggle that an application may have set:
/// they are made unless the toggle is there and says no.
pub open spec fn physics_tweaks_spec(should_change: Option<bool>) -> Option<PhysicsTweaks> {
    if should_change == Some(false) {
        None
    } else {
        Some(PhysicsTweaks { erp: 990_000, max_velocity_iterations: 16 })
    }
}

/// Whether the ground is looked for in this tick: the skip timer has run
/// out, or the settings ask for the ground in every tick.
pub open spec fn ground_check_due_spec(state: ControllerState, settings: ControllerSettings) -> bool {
    state.skip_ground_check_timer == 0 || settings.force_ground_check
}

/// The ground contact of a tick: chosen from the candidates where the
/// ground is looked for, none where it is not.
pub open spec fn contact_spec(
    state: ControllerState,
    settings: ControllerSettings,
    candidates: Seq<GroundCandidate>,
) -> Option<GroundCandidate> {
    if ground_check_due_spec(state, settings) {
        selected_ground(candidates, settings)
    } else {
        None
    }
}

/// The state after the skip timer's part of a tick: a tick that does not
/// look for the ground runs the timer down, and any physical contact
/// ends it.
pub open spec fn sensed_spec(
    state: ControllerState,
    settings: ControllerSettings,
    touching: bool,
    dt: u64,
) -> ControllerState {
    ControllerState {
        skip_ground_check_timer: if touching {
            0
        } else if ground_check_due_spec(state, settings) {
            state.skip_ground_check_timer
        } else {
            decayed_spec(state.skip_ground_check_timer, dt)
        },
        ..state
    }
}

/// The state after the ground has been classified: standing refills the
/// jumps for the air and the coyote timer, anything else runs the coyote
/// timer down.
pub open spec fn landed_spec(
    state: ControllerState,
    settings: ControllerSettings,
    grounded: bool,
    dt: u64,
) -> ControllerState {
    if grounded {
        ControllerState {
            remaining_jumps: settings.extra_jumps,
            coyote_timer: settings.coyote_time_duration,
            ..state
        }
    } else {
        ControllerState { coyote_timer: decayed_spec(state.coyote_timer, dt), ..state }
    }
}

/// The state as the jump finds it in a tick: the skip timer and the ground
/// dealt with, the goal velocity of this tick stored.
pub open spec fn steered_spec(
    state: ControllerState,
    settings: ControllerSettings,
    input: ControllerInput,
    candidates: Seq<GroundCandidate>,
    touching: bool,
    dt: u64,
) -> ControllerState {
    let contact = contact_spec(state, settings, candidates);
    let landed = landed_spec(
        sensed_spec(state, settings, touching, dt),
        settings,
        grounded_spec(contact, settings),
        dt,
    );
    ControllerState {
        last_goal_velocity: goal_velocity_spec(
            settings,
            state.last_goal_velocity,
            input.movement,
            ground_velocity_spec(contact),
            dt,
        ),
        ..landed
    }
}

/// What the jump adds to a tick.
pub open spec fn step_jump_spec(
    state: ControllerState,
    settings: ControllerSettings,
    input: ControllerInput,
    body: BodyState,
    candidates: Seq<GroundCandidate>,
    touching: bool,
    dt: u64,
) -> JumpOutcome {
    jump_outcome_spec(
        steered_spec(state, settings, input, candidates, touching, dt),
        settings,
        input.jumping,
        grounded_spec(contact_spec(state, settings, candidates), settings),
        body.linear_velocity,
        dt,
    )
}

/// The state after a tick with `dt > 0`.
pub open spec fn step_state_spec(
    state: ControllerState,
    settings: ControllerSettings,
    input: ControllerInput,
    candidates: Seq<GroundCandidate>,
    touching: bool,
    dt: u64,
) -> ControllerState {
    jump_state_spec(
        steered_spec(state, settings, input, candidates, touching, dt),
        settings,
        input.jumping,
        grounded_spec(contact_spec(state, settings, candidates), settings),
        dt,
    )
}

/// The float spring's part of a tick: nothing where the jump takes its
/// place.
pub open spec fn step_float_spec(
    state: ControllerState,
    settings: ControllerSettings,
    input: ControllerInput,
    body: BodyState,
    candidates: Seq<GroundCandidate>,
    touching: bool,
    dt: u64,
) -> Vec3 {
    if step_jump_spec(state, settings, input, body, candidates, touching, dt).cancels_float {
        Vec3::zero_spec()
    } else {
        float_spring_spec(
            settings,
            contact_spec(state, settings, candidates),
            body.linear_velocity,
        )
    }
}

/// The result of a tick with `dt > 0`: movement, jump, float spring,
/// gravity and the custom impulse, added in this order; the upright torque
/// and the custom torque.
pub open spec fn step_impulse_spec(
    state: ControllerState,
    settings: ControllerSettings,
    input: ControllerInput,
    body: BodyState,
    candidates: Seq<GroundCandidate>,
    touching: bool,
    dt: u64,
) -> ExternalImpulse {
    let contact = contact_spec(state, settings, candidates);
    let goal = steered_spec(state, settings, input, candidates, touching, dt).last_goal_velocity;
    ExternalImpulse {
        impulse: movement_force_spec(settings, goal, body.linear_velocity).plus_spec(
            step_jump_spec(state, settings, input, body, candidates, touching, dt).force,
        ).plus_spec(
            step_float_spec(state, settings, input, body, candidates, touching, dt),
        ).plus_spec(gravity_impulse_spec(settings, contact, dt)).plus_spec(input.custom_impulse),
        torque_impulse: upright_torque_spec(settings, body, dt).plus_spec(input.custom_torque),
    }
}

/// The input after a tick with `dt > 0`: its custom impulse and torque are
/// used up.
pub open spec fn consumed_spec(input: ControllerInput) -> ControllerInput {
    ControllerInput {
        custom_impulse: Vec3::zero_spec(),
        custom_torque: Vec3::zero_spec(),
        ..input
    }
}

/// What a tick does, as a relation between what goes in and what comes
/// out. A tick without elapsed time changes nothing and gives no impulse.
pub open spec fn step_spec(
    state: ControllerState,
    settings: ControllerSettings,
    input: ControllerInput,
    body: BodyState,
    candidates: Seq<GroundCandidate>,
    touching: bool,
    dt: u64,
    state_after: ControllerState,
    input_after: ControllerInput,
    result: Option<ExternalImpulse>,
) -> bool {
    if dt == 0 {
        &&& result is None
        &&& state_after == state
        &&& input_after == input
    } else {
        &&& result == Some(
            step_impulse_spec(state, settings, input, body, candidates, touching, dt),
        )
        &&& state_after == step_state_spec(state, settings, input, candidates, touching, dt)
        &&& input_after == consumed_spec(input)
    }
}

/// Whether the ground is looked for in the next tick. Where it is not, the
/// tick pays no heed to the candidates it is given, so no scan is needed.
pub fn ground_check_due(state: &ControllerState, settings: &ControllerSettings) -> (r: bool)
    ensures
        r == ground_check_due_spec(*state, *settings),
{
    state.skip_ground_check_timer == 0 || settings.force_ground_check
}

/// Asks the engine whether anything touches the character's collider.
///
/// Calls `RapierContext::contacts_with` for the entity with these bits and
/// says whether it yields a contact pair. The answer depends on the state
/// of the physics world, and nothing is claimed of it.
#[verifier::external_body]
fn has_contacts(ctx: &RapierContext, entity: u64) -> (r: bool) {
    ctx.contacts_with(Entity::from_bits(entity)).next().is_some()
}

/// Runs one tick of `dt` microseconds for one character.
///
/// `candidates` are the colliders under the character, in the order in
/// which the ground scan found them; `touching` says whether the engine
/// reports any contact of the character's collider in this tick. The custom
/// impulse and torque of the input go into the result and are then cleared.
pub fn step(
    state: &mut ControllerState,
    settings: &ControllerSettings,
    input: &mut ControllerInput,
    body: &BodyState,
    candidates: &Vec<GroundCandidate>,
    touching: bool,
    dt: u64,
) -> (r: Option<ExternalImpulse>)
    requires
        old(state).wf(*settings),
    ensures
        step_spec(
            *old(state),
            *settings,
            *old(input),
            *body,
            candidates@,
            touching,
            dt,
            *final(state),
            *final(input),
            r,
        ),
        final(state).wf(*settings),
        final(state).remaining_jumps <= settings.extra_jumps,
        r is Some <==> dt > 0,
        dt > 0 ==> final(input).custom_impulse == Vec3::zero_spec() && final(input).custom_torque
            == Vec3::zero_spec(),
{
    if dt == 0 {
        return None;
    }
    let due: bool = ground_check_due(state, settings);
    let contact: Option<GroundCandidate> = if due {
        select_ground(candidates, settings)
    } else {
        None
    };
    if touching {
        state.skip_ground_check_timer = 0;
    } else if !due {
        state.skip_ground_check_timer = decayed(state.skip_ground_check_timer, dt);
    }
    let grounded: bool = is_grounded(&contact, settings);
    if grounded {
        state.remaining_jumps = settings.extra_jumps;
        state.coyote_timer = settings.coyote_time_duration;
    } else {
        state.coyote_timer = decayed(state.coyote_timer, dt);
    }
    let velocity: Vec3 = body.linear_velocity;
    let gravity: Vec3 = gravity_impulse(settings, &contact, dt);
    let spring: Vec3 = float_spring(settings, &contact, velocity);
    let goal: Vec3 = goal_velocity(
        settings,
        state.last_goal_velocity,
        input.movement,
        ground_velocity(&contact),
        dt,
    );
    let movement: Vec3 = movement_force(settings, goal, velocity);
    state.last_goal_velocity = goal;
    let outcome: JumpOutcome = jump(state, settings, input.jumping, grounded, velocity, dt);
    let float: Vec3 = if outcome.cancels_float {
        Vec3::zero()
    } else {
        spring
    };
    let upright: Vec3 = upright_torque(settings, body, dt);
    let result = ExternalImpulse {
        impulse: movement.plus(outcome.force).plus(float).plus(gravity).plus(input.custom_impulse),
        torque_impulse: upright.plus(input.custom_torque),
    };
    input.custom_impulse = Vec3::zero();
    input.custom_torque = Vec3::zero();
    Some(result)
}

/// Runs one tick of `dt` microseconds for the character `entity` in the
/// physics world `ctx`.
///
/// Whether anything touches the character is asked of the engine; the rest
/// is `step`, so the tick is that of `step` for whichever answer came back.
pub fn movement(
    ctx: &RapierContext,
    entity: u64,
    state: &mut ControllerState,
    settings: &ControllerSettings,
    input: &mut ControllerInput,
    body: &BodyState,
    candidates: &Vec<GroundCandidate>,
    dt: u64,
) -> (r: Option<ExternalImpulse>)
    requires
        old(state).wf(*settings),
    ensures
        exists|touching: bool|
            step_spec(
                *old(state),
                *settings,
                *old(input),
                *body,
                candidates@,
                touching,
                dt,
                *final(state),
                *final(input),
                r,
            ),
        final(state).wf(*settings),
        final(state).remaining_jumps <= settings.extra_jumps,
        r is Some <==> dt > 0,
        dt > 0 ==> final(input).custom_impulse == Vec3::zero_spec() && final(input).custom_torque
            == Vec3::zero_spec(),
{
    let touching: bool = has_contacts(ctx, entity);
    step(state, settings, input, body, candidates, touching, dt)
}

/// Decides the engine-wide tweaks at startup: an error reduction of 0.99
/// and at most 16 velocity iterations, unless the application's toggle is
/// there and says no.
pub fn setup_physics_context(should_change: Option<bool>) -> (r: Option<PhysicsTweaks>)
    ensures
        r == physics_tweaks_spec(should_change),
{
    let wanted: bool = match should_change {
        Some(flag) => flag,
        None => true,
    };
    if wanted {
        Some(PhysicsTweaks { erp: 990_000, max_velocity_iterations: 16 })
    } else {
        None
    }
}

/// A timer after a tick is what it was, what it was run down by the elapsed
/// time, zero, or the duration that the settings give it.
pub open spec fn timer_follows_clock(before: u64, after: u64, dt: u64, duration: u64) -> bool {
    ||| after == before
    ||| after as int == if before as int - dt as int > 0 {
        before as int - dt as int
    } else {
        0
    }
    ||| after == 0
    ||| after == duration
}

/// In a tick with elapsed time the jumps left for the air never exceed what
/// the settings grant and never fall below zero: a tick leaves them as the
/// ground left them, or takes exactly one of at least one away.
pub proof fn lemma_jumps_stay_in_range(
    state: ControllerState,
    settings: ControllerSettings,
    input: ControllerInput,
    candidates: Seq<GroundCandidate>,
    touching: bool,
    dt: u64,
)
    requires
        state.wf(settings),
        dt > 0,
    ensures
        ({
            let landed = steered_spec(state, settings, input, candidates, touching, dt);
            let after = step_state_spec(state, settings, input, candidates, touching, dt);
            &&& 0 <= after.remaining_jumps <= settings.extra_jumps
            &&& after.remaining_jumps == landed.remaining_jumps || after.remaining_jumps
                == landed.remaining_jumps - 1
        }),
{
}

/// After any tick every timer is at least zero, and each has only stood
/// still, run down by the elapsed time, stopped at zero, or been set to its
/// duration from the settings.
pub proof fn lemma_timers_follow_clock(
    state: ControllerState,
    settings: ControllerSettings,
    input: ControllerInput,
    candidates: Seq<GroundCandidate>,
    touching: bool,
    dt: u64,
)
    ensures
        ({
            let after = step_state_spec(state, settings, input, candidates, touching, dt);
            &&& after.coyote_timer >= 0
            &&& after.jump_buffer_timer >= 0
            &&& after.jump_timer >= 0
            &&& after.skip_ground_check_timer >= 0
            &&& timer_follows_clock(
                state.coyote_timer,
                after.coyote_timer,
                dt,
                settings.coyote_time_duration,
            )
            &&& timer_follows_clock(
                state.jump_buffer_timer,
                after.jump_buffer_timer,
                dt,
                settings.jump_buffer_duration,
            )
            &&& timer_follows_clock(state.jump_timer, after.jump_timer, dt, settings.jump_time)
            &&& timer_follows_clock(
                state.skip_ground_check_timer,
                after.skip_ground_check_timer,
                dt,
                settings.jump_skip_ground_check_duration,
            )
        }),
{
}

/// The state's invariant holds after every tick that it held before.
pub proof fn lemma_step_keeps_invariant(
    state: ControllerState,
    settings: ControllerSettings,
    input: ControllerInput,
    candidates: Seq<GroundCandidate>,
    touching: bool,
    dt: u64,
)
    requires
        state.wf(settings),
    ensures
        step_state_spec(state, settings, input, candidates, touching, dt).wf(settings),
{
}

/// The custom impulse and torque are used up once: after a tick with
/// elapsed time both are zero, and using up an input twice is using it up
/// once.
pub proof fn lemma_custom_inputs_consumed(input: ControllerInput)
    ensures
        consumed_spec(input).custom_impulse == Vec3::zero_spec(),
        consumed_spec(input).custom_torque == Vec3::zero_spec(),
        consumed_spec(input).movement == input.movement,
        consumed_spec(input).jumping == input.jumping,
        consumed_spec(consumed_spec(input)) == consumed_spec(input),
{
}

/// The character stands in a tick exactly if the tick has a ground contact
/// whose float offset lies between the two limits of the settings.
pub proof fn lemma_grounded_iff_contact_in_range(
    contact: Option<GroundCandidate>,
    settings: ControllerSettings,
)
    ensures
        grounded_spec(contact, settings) <==> contact is Some && settings.min_float_offset
            <= contact->0.float_offset_spec(settings) <= settings.max_float_offset,
{
}

} // verus!
