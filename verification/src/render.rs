//! The output renderer's decision logic: what one render tick does to the
//! alarm state and which waveform the tick asks the outputs to show. The
//! physical waveforms (pulse and sweep timing, flash period) belong to the
//! platform; this module fixes the protocol that drives them.

use crate::dispatch::ResetQueue;
use crate::state::{AppResetMessage, AppState, PRE_ALARM_COUNTER_INITIAL_VALUE};
use vstd::prelude::*;

verus! {

/// The waveform one render tick asks of the outputs.
#[derive(Clone, Copy, PartialEq, Eq, Structural, Debug)]
pub enum RenderAction {
    /// `Active` with counts left: one short pulse on the fixed output.
    Pulse,
    /// `PreAlarm`: one full sweep of the ring, then a short hold.
    Sweep,
    /// `Alarm`: all outputs on, hold, all off, hold.
    Flash,
    /// `Active` with the countdown spent: the tick only transitions.
    Silent,
}

/// The waveform owed to a state at the start of a tick.
pub open spec fn spec_action(s: AppState) -> RenderAction {
    match s {
        AppState::Active(n) => if n != 0 { RenderAction::Pulse } else { RenderAction::Silent },
        AppState::PreAlarm(_) => RenderAction::Sweep,
        AppState::Alarm => RenderAction::Flash,
    }
}

/// The state after one render tick.
///
/// `Active` spends one count per pulse and transitions on the tick that
/// finds the countdown spent. `PreAlarm` spends two counts per sweep,
/// clamping at zero, and transitions on the tick whose starting countdown
/// was already zero. `Alarm` never leaves by ticking: only a reset signal
/// exits it.
pub open spec fn spec_tick(s: AppState) -> AppState {
    match s {
        AppState::Active(n) => {
            if n != 0 { s.spec_decrement(1) } else { s.spec_transition() }
        },
        AppState::PreAlarm(n) => {
            if n == 0 { s.spec_decrement(2).spec_transition() } else { s.spec_decrement(2) }
        },
        AppState::Alarm => s,
    }
}

/// Applies one render tick to the state and reports which waveform the tick
/// owes the outputs, per [`spec_tick`] and [`spec_action`].
pub fn render_tick(state: &mut AppState) -> (action: RenderAction)
    ensures
        *final(state) == spec_tick(*old(state)),
        action == spec_action(*old(state)),
        old(state).wf() ==> final(state).wf(),
{
    match *state {
        AppState::Active(counter) => {
            if counter != 0 {
                state.decrement_counter(1);
                RenderAction::Pulse
            } else {
                state.transition();
                RenderAction::Silent
            }
        },
        AppState::PreAlarm(counter) => {
            state.decrement_counter(2);
            if counter == 0 {
                state.transition();
            }
            RenderAction::Sweep
        },
        AppState::Alarm => RenderAction::Flash,
    }
}

/// One iteration of the queued renderer: drains at most one pending reset
/// signal, applies it under the conditional rule, then ticks.
pub fn drain_and_tick(state: &mut AppState, queue: &mut ResetQueue) -> (action: RenderAction)
    ensures
        old(queue)@.len() == 0 ==> {
            &&& final(queue)@ == old(queue)@
            &&& *final(state) == spec_tick(*old(state))
            &&& action == spec_action(*old(state))
        },
        old(queue)@.len() > 0 ==> {
            &&& final(queue)@ == old(queue)@.remove(0)
            &&& *final(state) == spec_tick(old(state).spec_apply_reset(old(queue)@[0]))
            &&& action == spec_action(old(state).spec_apply_reset(old(queue)@[0]))
        },
        old(state).wf() ==> final(state).wf(),
{
    match queue.try_receive() {
        Some(message) => state.apply_reset_message(message),
        None => {},
    }
    render_tick(state)
}

/// The state after `n` render ticks with no reset signal in between.
pub open spec fn spec_run_ticks(s: AppState, n: nat) -> AppState
    decreases n,
{
    if n == 0 { s } else { spec_tick(spec_run_ticks(s, (n - 1) as nat)) }
}

/// Law: an `Active` countdown drains one count per tick, and the tick after
/// the last pulse enters `PreAlarm` with its full countdown. From
/// `Active(n)`, `n` ticks render `n` pulses and land on `Active(0)`; the
/// `n + 1`st tick transitions.
pub proof fn lemma_active_countdown_drains(n: u32)
    ensures
        spec_run_ticks(AppState::Active(n), n as nat) == AppState::Active(0),
        spec_run_ticks(AppState::Active(n), (n + 1) as nat)
            == AppState::PreAlarm(PRE_ALARM_COUNTER_INITIAL_VALUE),
    decreases n,
{
    if n == 0 {
    } else {
        lemma_active_countdown_drains((n - 1) as u32);
        lemma_run_ticks_shift(AppState::Active(n), n as nat);
        assert(spec_tick(AppState::Active(n)) == AppState::Active((n - 1) as u32));
        lemma_run_ticks_shift(AppState::Active(n), (n + 1) as nat);
    }
}

/// Law: running `n` ticks is one tick followed by `n - 1` ticks: the tick at
/// the front of a run can be peeled off as well as the one at the back.
pub proof fn lemma_run_ticks_shift(s: AppState, n: nat)
    requires
        n > 0,
    ensures
        spec_run_ticks(s, n) == spec_run_ticks(spec_tick(s), (n - 1) as nat),
    decreases n,
{
    if n == 1 {
        assert(spec_run_ticks(s, 1) == spec_tick(spec_run_ticks(s, 0)));
        assert(spec_run_ticks(spec_tick(s), 0) == spec_tick(s));
    } else {
        lemma_run_ticks_shift(s, (n - 1) as nat);
        assert(spec_run_ticks(s, n) == spec_tick(spec_run_ticks(s, (n - 1) as nat)));
        assert(spec_run_ticks(spec_tick(s), (n - 1) as nat)
            == spec_tick(spec_run_ticks(spec_tick(s), (n - 2) as nat)));
    }
}

/// One mutation of the shared alarm state, as serialized by the lock or by
/// the single-consumer queue: either a reset signal lands, or the renderer
/// ticks.
pub enum SystemEvent {
    Signal(AppResetMessage),
    RenderTick,
}

/// The effect of one serialized event on the state.
pub open spec fn spec_apply_event(s: AppState, e: SystemEvent) -> AppState {
    match e {
        SystemEvent::Signal(m) => s.spec_apply_reset(m),
        SystemEvent::RenderTick => spec_tick(s),
    }
}

/// The state after a serialized history of events.
pub open spec fn spec_run_events(s: AppState, events: Seq<SystemEvent>) -> AppState
    decreases events.len(),
{
    if events.len() == 0 {
        s
    } else {
        spec_apply_event(spec_run_events(s, events.drop_last()), events.last())
    }
}

/// Law: every single event preserves well-formedness of the state.
pub proof fn lemma_event_preserves_wf(s: AppState, e: SystemEvent)
    requires
        s.wf(),
    ensures
        spec_apply_event(s, e).wf(),
{
}

/// Law: however many reset signals and render ticks interleave, in whatever
/// arrival order the synchronization serializes them to, the state stays a
/// well-formed value of the three defined phases. Starting from any
/// well-formed state — the startup state in particular — no history of
/// events reaches anything else.
pub proof fn lemma_interleavings_stay_wf(s: AppState, events: Seq<SystemEvent>)
    requires
        s.wf(),
    ensures
        spec_run_events(s, events).wf(),
    decreases events.len(),
{
    if events.len() > 0 {
        lemma_interleavings_stay_wf(s, events.drop_last());
        lemma_event_preserves_wf(spec_run_events(s, events.drop_last()), events.last());
    }
}

} // verus!
