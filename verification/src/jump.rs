//! The jump: buffering, coyote time, jumps in the air, the thrust of the
//! ascent and its end when the input is released.

use vstd::prelude::*;
use crate::components::{ControllerSettings, ControllerState};
use crate::fixed::{fx_from_time, fx_from_time_spec, fx_neg, fx_neg_spec};
use crate::timer::{decayed, decayed_spec, progress, progress_spec};
use crate::vector::Vec3;

verus! {

/// What the ascent of a jump does in one tick.
#[derive(Clone, Copy, Debug, PartialEq, Eq, Structural)]
pub enum JumpPhase {
    /// No ascent is under way, or the character stands.
    Idle,
    /// The input is still held in the air: the ascent goes on.
    Ascending,
    /// The input was released in the air: the ascent is cut short.
    Cancelling,
}

/// What the jump adds to a tick.
#[derive(Clone, Copy, Debug, PartialEq, Eq, Structural)]
pub struct JumpOutcome {
    /// The impulse of the jump.
    pub force: Vec3,
    /// Whether a new jump started in this tick.
    pub triggered: bool,
    /// What the ascent did in this tick, before any new jump started.
    pub phase: JumpPhase,
    /// Whether the float spring has to give way to the jump in this tick.
    pub cancels_float: bool,
}

/// The jump input went from released to held.
pub open spec fn just_jumped_spec(state: ControllerState, jumping: bool) -> bool {
    jumping && !state.jump_pressed_last_frame
}

/// The buffer timer after its update: in the air a fresh press fills it and
/// anything else lets it run down; on the ground it rests.
pub open spec fn buffered_spec(
    state: ControllerState,
    settings: ControllerSettings,
    jumping: bool,
    grounded: bool,
    dt: u64,
) -> u64 {
    if grounded {
        state.jump_buffer_timer
    } else if just_jumped_spec(state, jumping) {
        settings.jump_buffer_duration
    } else {
        decayed_spec(state.jump_buffer_timer, dt)
    }
}

/// What the ascent does in a tick: it runs only in the air and while its
/// timer has time left, and goes on or is cut short as the input is held or
/// released.
pub open spec fn ascent_phase_spec(state: ControllerState, jumping: bool, grounded: bool) -> JumpPhase {
    if state.jump_timer > 0 && !grounded {
        if jumping {
            JumpPhase::Ascending
        } else {
            JumpPhase::Cancelling
        }
    } else {
        JumpPhase::Idle
    }
}

/// The ascent timer after the ascent's part of the tick.
pub open spec fn ascent_timer_spec(
    state: ControllerState,
    jumping: bool,
    grounded: bool,
    dt: u64,
) -> u64 {
    match ascent_phase_spec(state, jumping, grounded) {
        JumpPhase::Idle => state.jump_timer,
        JumpPhase::Ascending => decayed_spec(state.jump_timer, dt),
        JumpPhase::Cancelling => 0,
    }
}

/// The thrust of an ascent of which `timer` is left after this tick: the
/// jump force along the up axis over the elapsed time, times the decay
/// curve at the part of the ascent that is over.
pub open spec fn thrust_spec(settings: ControllerSettings, timer: u64, dt: u64) -> Vec3 {
    settings.up_vector.scaled_spec(settings.jump_force).scaled_spec(
        fx_from_time_spec(dt),
    ).scaled_spec(
        settings.jump_decay_function.value_at(
            progress_spec((settings.jump_time - timer) as u64, settings.jump_time),
        ),
    )
}

/// The force that ends an ascent: against the part of the velocity along
/// the up axis, times the stop force.
pub open spec fn stop_force_spec(settings: ControllerSettings, velocity: Vec3) -> Vec3 {
    velocity.projected_onto_spec(settings.up_vector).scaled_spec(
        fx_neg_spec(settings.jump_stop_force),
    )
}

/// The impulse that starts a jump: it takes away the velocity along the up
/// axis, then adds the initial force along it.
pub open spec fn launch_force_spec(settings: ControllerSettings, velocity: Vec3) -> Vec3 {
    settings.up_vector.scaled_spec(velocity.dot_spec(settings.up_vector)).negated_spec().plus_spec(
        settings.up_vector.scaled_spec(settings.jump_initial_force),
    )
}

/// The force of the ascent in a tick: thrust while it goes on, the stop
/// force where it is cut short.
pub open spec fn ascent_force_spec(
    state: ControllerState,
    settings: ControllerSettings,
    jumping: bool,
    grounded: bool,
    velocity: Vec3,
    dt: u64,
) -> Vec3 {
    match ascent_phase_spec(state, jumping, grounded) {
        JumpPhase::Idle => Vec3::zero_spec(),
        JumpPhase::Ascending => thrust_spec(settings, decayed_spec(state.jump_timer, dt), dt),
        JumpPhase::Cancelling => stop_force_spec(settings, velocity),
    }
}

/// Whether a jump starts in this tick: one is asked for, by a fresh press
/// or from the buffer, and one is allowed, from the ground, within coyote
/// time, or by a jump left for the air.
pub open spec fn triggers_spec(
    state: ControllerState,
    settings: ControllerSettings,
    jumping: bool,
    grounded: bool,
    dt: u64,
) -> bool {
    &&& just_jumped_spec(state, jumping) || buffered_spec(state, settings, jumping, grounded, dt)
        > 0
    &&& grounded || state.coyote_timer > 0 || state.remaining_jumps > 0
}

/// The state after the jump's part of a tick.
pub open spec fn jump_state_spec(
    state: ControllerState,
    settings: ControllerSettings,
    jumping: bool,
    grounded: bool,
    dt: u64,
) -> ControllerState {
    if triggers_spec(state, settings, jumping, grounded, dt) {
        ControllerState {
            remaining_jumps: if !grounded && state.coyote_timer == 0 {
                (state.remaining_jumps - 1) as u32
            } else {
                state.remaining_jumps
            },
            jump_buffer_timer: 0,
            jump_timer: settings.jump_time,
            skip_ground_check_timer: settings.jump_skip_ground_check_duration,
            jump_pressed_last_frame: jumping,
            ..state
        }
    } else {
        ControllerState {
            jump_buffer_timer: buffered_spec(state, settings, jumping, grounded, dt),
            jump_timer: ascent_timer_spec(state, jumping, grounded, dt),
            jump_pressed_last_frame: jumping,
            ..state
        }
    }
}

/// What the jump adds to a tick.
pub open spec fn jump_outcome_spec(
    state: ControllerState,
    settings: ControllerSettings,
    jumping: bool,
    grounded: bool,
    velocity: Vec3,
    dt: u64,
) -> JumpOutcome {
    let triggered = triggers_spec(state, settings, jumping, grounded, dt);
    let phase = ascent_phase_spec(state, jumping, grounded);
    JumpOutcome {
        force: if triggered {
            launch_force_spec(settings, velocity)
        } else {
            ascent_force_spec(state, settings, jumping, grounded, velocity, dt)
        },
        triggered,
        phase,
        cancels_float: triggered || phase != JumpPhase::Idle,
    }
}

/// Runs the jump for one tick of `dt` microseconds.
///
/// `state` is the state after the ground has been classified, so its
/// coyote timer and its jumps left are those of this tick; `grounded` says
/// whether the character stands, `jumping` whether the jump input is held,
/// `velocity` is the body's linear velocity.
pub fn jump(
    state: &mut ControllerState,
    settings: &ControllerSettings,
    jumping: bool,
    grounded: bool,
    velocity: Vec3,
    dt: u64,
) -> (r: JumpOutcome)
    requires
        old(state).wf(*settings),
    ensures
        *final(state) == jump_state_spec(*old(state), *settings, jumping, grounded, dt),
        r == jump_outcome_spec(*old(state), *settings, jumping, grounded, velocity, dt),
        final(state).wf(*settings),
{
    let just_jumped: bool = jumping && !state.jump_pressed_last_frame;
    if !grounded {
        if just_jumped {
            state.jump_buffer_timer = settings.jump_buffer_duration;
        } else {
            state.jump_buffer_timer = decayed(state.jump_buffer_timer, dt);
        }
    }
    let mut phase: JumpPhase = JumpPhase::Idle;
    let mut force: Vec3 = Vec3::zero();
    if state.jump_timer > 0 && !grounded {
        if !jumping {
            phase = JumpPhase::Cancelling;
            state.jump_timer = 0;
            force = velocity.projected_onto(settings.up_vector).scaled(
                fx_neg(settings.jump_stop_force),
            );
        } else {
            phase = JumpPhase::Ascending;
            state.jump_timer = decayed(state.jump_timer, dt);
            let done: i64 = progress(settings.jump_time - state.jump_timer, settings.jump_time);
            force = settings.up_vector.scaled(settings.jump_force).scaled(fx_from_time(dt)).scaled(
                settings.jump_decay_function.eval(done),
            );
        }
    }
    let triggered: bool = (just_jumped || state.jump_buffer_timer > 0) && (grounded
        || state.coyote_timer > 0 || state.remaining_jumps > 0);
    if triggered {
        if !grounded && state.coyote_timer == 0 {
            state.remaining_jumps = state.remaining_jumps - 1;
        }
        state.jump_buffer_timer = 0;
        state.jump_timer = settings.jump_time;
        state.skip_ground_check_timer = settings.jump_skip_ground_check_duration;
        force = settings.up_vector.scaled(velocity.dot(settings.up_vector)).negated().plus(
            settings.up_vector.scaled(settings.jump_initial_force),
        );
    }
    state.jump_pressed_last_frame = jumping;
    JumpOutcome {
        force,
        triggered,
        phase,
        cancels_float: triggered || phase != JumpPhase::Idle,
    }
}

/// A jump that starts from the ground or within coyote time costs none of
/// the jumps left for the air.
pub proof fn lemma_ground_and_coyote_jumps_are_free(
    state: ControllerState,
    settings: ControllerSettings,
    jumping: bool,
    grounded: bool,
    dt: u64,
)
    requires
        triggers_spec(state, settings, jumping, grounded, dt),
        grounded || state.coyote_timer > 0,
    ensures
        jump_state_spec(state, settings, jumping, grounded, dt).remaining_jumps
            == state.remaining_jumps,
        jump_state_spec(state, settings, jumping, grounded, dt).jump_timer == settings.jump_time,
{
}

/// A jump that starts in the air after coyote time has run out costs
/// exactly one of the jumps left for the air, of which there is at least
/// one.
pub proof fn lemma_air_jump_costs_one(
    state: ControllerState,
    settings: ControllerSettings,
    jumping: bool,
    dt: u64,
)
    requires
        triggers_spec(state, settings, jumping, false, dt),
        state.coyote_timer == 0,
    ensures
        state.remaining_jumps > 0,
        jump_state_spec(state, settings, jumping, false, dt).remaining_jumps
            == state.remaining_jumps - 1,
{
}

/// In the air, with coyote time run out and no jump left, no jump starts,
/// whatever is asked: the ascent timer and the skip timer are not set, and
/// the request is only buffered.
pub proof fn lemma_no_jump_without_allowance(
    state: ControllerState,
    settings: ControllerSettings,
    jumping: bool,
    velocity: Vec3,
    dt: u64,
)
    requires
        state.coyote_timer == 0,
        state.remaining_jumps == 0,
    ensures
        !triggers_spec(state, settings, jumping, false, dt),
        !jump_outcome_spec(state, settings, jumping, false, velocity, dt).triggered,
        jump_state_spec(state, settings, jumping, false, dt).jump_timer <= state.jump_timer,
        jump_state_spec(state, settings, jumping, false, dt).skip_ground_check_timer
            == state.skip_ground_check_timer,
        state.jump_timer == 0 ==> jump_outcome_spec(
            state,
            settings,
            jumping,
            false,
            velocity,
            dt,
        ).force == Vec3::zero_spec(),
{
}

/// A request that is still in the buffer when the character stands starts
/// a jump in that tick, whether or not the input is still held.
pub proof fn lemma_buffered_jump_fires_on_landing(
    state: ControllerState,
    settings: ControllerSettings,
    jumping: bool,
    dt: u64,
)
    requires
        state.jump_buffer_timer > 0,
    ensures
        triggers_spec(state, settings, jumping, true, dt),
        jump_state_spec(state, settings, jumping, true, dt).jump_timer == settings.jump_time,
        jump_state_spec(state, settings, jumping, true, dt).jump_buffer_timer == 0,
{
}

} // verus!
