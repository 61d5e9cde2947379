//! The alarm phase state machine: three phases with a countdown, a fixed
//! cyclic transition order, an unconditional reset to the baseline, and the
//! origin-dependent conditional reset rule.

use vstd::prelude::*;

verus! {

/// Countdown seeded on entering `Active`, and by `new` and `reset`.
pub const ACTIVE_COUNTER_INITIAL_VALUE: u32 = 5;

/// Countdown seeded on entering `PreAlarm`.
pub const PRE_ALARM_COUNTER_INITIAL_VALUE: u32 = 16;

/// The alarm phase. `Active` and `PreAlarm` carry the remaining tick or
/// sweep budget before the phase auto-transitions; `Alarm` has no countdown.
#[derive(Clone, Copy, PartialEq, Eq, Structural, Debug)]
pub enum AppState {
    Active(u32),
    PreAlarm(u32),
    Alarm,
}

/// A reset signal in transit from a producer to the state, tagged with its
/// origin; the origin decides which phase the signal may interrupt.
#[derive(Clone, Copy, PartialEq, Eq, Structural, Debug)]
pub enum AppResetMessage {
    FromButton,
    FromAccelerometer,
}

impl AppState {
    /// The baseline state: `Active` with a full countdown.
    pub open spec fn spec_new() -> AppState {
        AppState::Active(ACTIVE_COUNTER_INITIAL_VALUE)
    }

    /// The next phase in the fixed cycle, with its countdown re-seeded.
    pub open spec fn spec_transition(self) -> AppState {
        match self {
            AppState::Active(_) => AppState::PreAlarm(PRE_ALARM_COUNTER_INITIAL_VALUE),
            AppState::PreAlarm(_) => AppState::Alarm,
            AppState::Alarm => AppState::Active(ACTIVE_COUNTER_INITIAL_VALUE),
        }
    }

    /// The countdown after subtracting `amount`, clamped to zero; `Alarm`
    /// has no countdown and is left as it is.
    pub open spec fn spec_decrement(self, amount: u32) -> AppState {
        match self {
            AppState::Active(n) => AppState::Active(if n >= amount { (n - amount) as u32 } else { 0 }),
            AppState::PreAlarm(n) => AppState::PreAlarm(if n >= amount { (n - amount) as u32 } else { 0 }),
            AppState::Alarm => AppState::Alarm,
        }
    }

    /// The effect on the state of one reset signal, by the signal's origin:
    /// a button press interrupts only a latched `Alarm`; sensed motion
    /// interrupts only the `PreAlarm` warning window. Any other combination
    /// leaves the state unchanged.
    pub open spec fn spec_apply_reset(self, message: AppResetMessage) -> AppState {
        match message {
            AppResetMessage::FromButton => {
                if self is Alarm { AppState::spec_new() } else { self }
            },
            AppResetMessage::FromAccelerometer => {
                if self is PreAlarm { AppState::spec_new() } else { self }
            },
        }
    }

    /// A reachable state: the countdown never exceeds the value seeded on
    /// entry to its phase.
    pub open spec fn wf(self) -> bool {
        match self {
            AppState::Active(n) => n <= ACTIVE_COUNTER_INITIAL_VALUE,
            AppState::PreAlarm(n) => n <= PRE_ALARM_COUNTER_INITIAL_VALUE,
            AppState::Alarm => true,
        }
    }

    /// The startup state.
    pub fn new() -> (s: AppState)
        ensures
            s == AppState::spec_new(),
            s.wf(),
    {
        AppState::Active(ACTIVE_COUNTER_INITIAL_VALUE)
    }

    /// Forces the state back to the baseline, from any phase.
    pub fn reset(&mut self)
        ensures
            *final(self) == AppState::spec_new(),
            final(self).wf(),
    {
        *self = AppState::new();
    }

    /// Advances to the next phase in the fixed cycle
    /// `Active -> PreAlarm -> Alarm -> Active`, re-seeding the countdown to
    /// the entered phase's initial value. Total: no error path.
    pub fn transition(&mut self)
        ensures
            *final(self) == old(self).spec_transition(),
            final(self).wf(),
    {
        *self = match *self {
            AppState::Active(_) => AppState::PreAlarm(PRE_ALARM_COUNTER_INITIAL_VALUE),
            AppState::PreAlarm(_) => AppState::Alarm,
            AppState::Alarm => AppState::Active(ACTIVE_COUNTER_INITIAL_VALUE),
        };
    }

    /// Subtracts `amount` from the countdown; a no-op on `Alarm`. A countdown
    /// smaller than `amount` clamps to zero rather than underflowing: that is
    /// the adopted policy for the sweep that consumes two counts when only
    /// one is left.
    pub fn decrement_counter(&mut self, amount: u32)
        ensures
            *final(self) == old(self).spec_decrement(amount),
            old(self).wf() ==> final(self).wf(),
    {
        *self = match *self {
            AppState::Active(counter) => {
                AppState::Active(if counter >= amount { counter - amount } else { 0 })
            },
            AppState::PreAlarm(counter) => {
                AppState::PreAlarm(if counter >= amount { counter - amount } else { 0 })
            },
            AppState::Alarm => AppState::Alarm,
        };
    }

    /// Applies one reset signal under the origin-dependent rule of
    /// [`AppState::spec_apply_reset`].
    pub fn apply_reset_message(&mut self, message: AppResetMessage)
        ensures
            *final(self) == old(self).spec_apply_reset(message),
            old(self).wf() ==> final(self).wf(),
    {
        match message {
            AppResetMessage::FromButton => {
                match *self {
                    AppState::Alarm => self.reset(),
                    _ => {},
                }
            },
            AppResetMessage::FromAccelerometer => {
                match *self {
                    AppState::PreAlarm(_) => self.reset(),
                    _ => {},
                }
            },
        }
    }
}

/// Law: the transition cycle has period three. Three transitions from any
/// state land back on the same phase, with the countdown re-seeded to that
/// phase's initial value regardless of what the countdown was.
pub proof fn lemma_transition_period_three(s: AppState)
    ensures
        s is Active ==> s.spec_transition().spec_transition().spec_transition()
            == AppState::Active(ACTIVE_COUNTER_INITIAL_VALUE),
        s is PreAlarm ==> s.spec_transition().spec_transition().spec_transition()
            == AppState::PreAlarm(PRE_ALARM_COUNTER_INITIAL_VALUE),
        s is Alarm ==> s.spec_transition().spec_transition().spec_transition()
            == AppState::Alarm,
{
}

/// Law: a decrement never underflows the countdown and is a no-op on
/// `Alarm`: the result clamps to zero when the countdown is smaller than the
/// amount, and the phase never changes.
pub proof fn lemma_decrement_never_underflows(s: AppState, amount: u32)
    ensures
        s matches AppState::Active(n) ==> s.spec_decrement(amount)
            == AppState::Active(if n >= amount { (n - amount) as u32 } else { 0 }),
        s matches AppState::PreAlarm(n) ==> s.spec_decrement(amount)
            == AppState::PreAlarm(if n >= amount { (n - amount) as u32 } else { 0 }),
        s is Alarm ==> s.spec_decrement(amount) == s,
{
}

/// Law: a button reset interrupts exactly a latched `Alarm`, forcing the
/// baseline, and leaves `Active` and `PreAlarm` untouched.
pub proof fn lemma_button_reset_rule(s: AppState)
    ensures
        s is Alarm ==> s.spec_apply_reset(AppResetMessage::FromButton)
            == AppState::Active(ACTIVE_COUNTER_INITIAL_VALUE),
        !(s is Alarm) ==> s.spec_apply_reset(AppResetMessage::FromButton) == s,
{
}

/// Law: a motion reset interrupts exactly the `PreAlarm` warning window,
/// forcing the baseline, and leaves `Active` and `Alarm` untouched.
pub proof fn lemma_accelerometer_reset_rule(s: AppState)
    ensures
        s is PreAlarm ==> s.spec_apply_reset(AppResetMessage::FromAccelerometer)
            == AppState::Active(ACTIVE_COUNTER_INITIAL_VALUE),
        !(s is PreAlarm) ==> s.spec_apply_reset(AppResetMessage::FromAccelerometer) == s,
{
}

} // verus!
