use vstd::prelude::*;

verus! {

/// Resolution of the monotonic system counter: one tick is 1 / 16_000_000 s.
pub const TICKS_PER_SECOND: u64 = 16_000_000;

/// Counter ticks in one microsecond.
pub const TICKS_PER_MICRO: u64 = 16;

/// Length, in counter ticks, of one scheduling period at `hz` ticks per second:
/// the period in whole microseconds, times the counter's ticks per microsecond.
pub open spec fn period_ticks(hz: u32) -> u64 {
    ((1_000_000int / (hz as int)) * TICKS_PER_MICRO) as u64
}

/// Relies on fugit's `Rate::into_duration`: a `HertzU32` of `hz` becomes a
/// `MicrosDurationU32` of `1_000_000 / hz` ticks (integer division); it panics
/// when `hz` is zero.
#[verifier::external_body]
fn micros_per_cycle(hz: u32) -> (r: u32)
    requires
        hz > 0,
    ensures
        r == 1_000_000int / (hz as int),
{
    let d: fugit::MicrosDurationU32 = fugit::HertzU32::from_raw(hz).into_duration();
    d.ticks()
}

/// The alarm period, in counter ticks, for a tick rate of `hz`.
pub fn period_for_rate(hz: u32) -> (r: u64)
    requires
        hz > 0,
    ensures
        r == period_ticks(hz),
        r <= TICKS_PER_SECOND,
{
    let us = micros_per_cycle(hz);
    assert(us <= 1_000_000) by (nonlinear_arith)
        requires us == 1_000_000int / (hz as int), hz > 0;
    us as u64 * TICKS_PER_MICRO
}

/// Alarm channel 0 of the system timer.
///
/// `deadline` is the counter value at which it next fires; in periodic mode it
/// re-arms itself `period` ticks later each time it fires.
#[derive(Clone, Copy, Debug, PartialEq, Eq, Structural)]
pub struct Alarm {
    pub periodic: bool,
    pub period: u64,
    pub deadline: u64,
    pub pending: bool,
    pub interrupt_enabled: bool,
}

impl Alarm {
    /// The channel as the timer hands it out: target mode, unarmed, quiet.
    pub fn new() -> (r: Alarm)
        ensures
            r == (Alarm { periodic: false, period: 0, deadline: 0, pending: false, interrupt_enabled: false }),
    {
        Alarm { periodic: false, period: 0, deadline: 0, pending: false, interrupt_enabled: false }
    }

    /// Switches the channel to periodic mode.
    pub fn into_periodic(self) -> (r: Alarm)
        ensures
            r == (Alarm { periodic: true, ..self }),
    {
        Alarm { periodic: true, ..self }
    }

    /// Sets the period and restarts counting from `now`.
    pub fn set_period(&mut self, period: u64, now: u64)
        requires
            now + period <= u64::MAX,
        ensures
            *final(self) == (Alarm { period, deadline: (now + period) as u64, ..*old(self) }),
    {
        self.period = period;
        self.deadline = now + period;
    }

    /// Clears the pending-interrupt condition.
    pub fn clear_interrupt(&mut self)
        ensures
            *final(self) == (Alarm { pending: false, ..*old(self) }),
    {
        self.pending = false;
    }

    /// Turns the channel's own interrupt on or off.
    pub fn interrupt_enable(&mut self, on: bool)
        ensures
            *final(self) == (Alarm { interrupt_enabled: on, ..*old(self) }),
    {
        self.interrupt_enabled = on;
    }

    /// The channel fires at its deadline: the interrupt becomes pending and a
    /// periodic channel re-arms one period later.
    pub fn fire(&mut self)
        requires
            old(self).periodic,
            old(self).deadline + old(self).period <= u64::MAX,
        ensures
            *final(self) == (Alarm {
                pending: true,
                deadline: (old(self).deadline + old(self).period) as u64,
                ..*old(self)
            }),
    {
        self.pending = true;
        self.deadline = self.deadline + self.period;
    }
}

} // verus!
