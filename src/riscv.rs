use vstd::prelude::*;

use crate::interrupt::{InterruptController, InterruptLine, LineState, MAX_PRIORITY, unbound};
use crate::systimer::{Alarm, period_for_rate, period_ticks};

verus! {

/// CPU interrupt slot that serves the scheduling tick.
pub const TICK_CPU_SLOT: u8 = 28;

/// CPU interrupt slot that serves voluntary yields.
pub const YIELD_CPU_SLOT: u8 = 27;

/// The binding of the tick line once the timer is set up.
pub open spec fn tick_binding() -> LineState {
    LineState { cpu_slot: Some(TICK_CPU_SLOT), priority: Some(MAX_PRIORITY) }
}

/// The binding of the yield line once multitasking is set up.
pub open spec fn yield_binding() -> LineState {
    LineState { cpu_slot: Some(YIELD_CPU_SLOT), priority: Some(MAX_PRIORITY) }
}

/// One operation on the shared alarm slot.
#[derive(Clone, Copy, Debug, PartialEq, Eq, Structural)]
pub enum AlarmOp {
    /// Store a configured alarm, replacing what the slot held.
    Install(Alarm),
    /// Clear the pending condition of the stored alarm.
    Clear,
    /// Restart the stored alarm's period from `now`, then clear it.
    Restart { period: u64, now: u64 },
}

pub open spec fn op_allowed(slot: Option<Alarm>, op: AlarmOp) -> bool {
    match op {
        AlarmOp::Install(_) => true,
        AlarmOp::Clear => slot is Some,
        AlarmOp::Restart { period, now } => slot is Some && now + period <= u64::MAX,
    }
}

pub open spec fn apply_op(slot: Option<Alarm>, op: AlarmOp) -> Option<Alarm> {
    match op {
        AlarmOp::Install(a) => Some(a),
        AlarmOp::Clear => Some(Alarm { pending: false, ..slot.unwrap() }),
        AlarmOp::Restart { period, now } => Some(
            Alarm { period, deadline: (now + period) as u64, pending: false, ..slot.unwrap() },
        ),
    }
}

/// Applies `op` to the slot; the slot must hold an alarm for every operation
/// but `Install`.
fn update_alarm_slot(slot: &mut Option<Alarm>, op: AlarmOp)
    requires
        op_allowed(*old(slot), op),
    ensures
        *final(slot) == apply_op(*old(slot), op),
{
    match op {
        AlarmOp::Install(a) => {
            *slot = Some(a);
        },
        AlarmOp::Clear => {
            let mut a = slot.unwrap();
            a.clear_interrupt();
            *slot = Some(a);
        },
        AlarmOp::Restart { period, now } => {
            let mut a = slot.unwrap();
            a.set_period(period, now);
            a.clear_interrupt();
            *slot = Some(a);
        },
    }
}

/// Relies on `critical_section::with`: the closure runs exactly once, with
/// interrupts masked, and `with` hands back what it returned.
#[verifier::external_body]
fn with_alarm_slot(slot: &mut Option<Alarm>, op: AlarmOp)
    requires
        op_allowed(*old(slot), op),
    ensures
        *final(slot) == apply_op(*old(slot), op),
{
    critical_section::with(|_| update_alarm_slot(slot, op))
}

/// Where the process stands in bringing up preemption.
#[derive(Clone, Copy, Debug, PartialEq, Eq, Structural)]
pub enum Phase {
    Uninitialized,
    TimerArmed,
    MultitaskingActive,
}

/// The state of the scheduling core, as the contracts see it.
pub struct CoreView {
    pub tick_rate_hz: u32,
    pub counter: u64,
    pub alarm: Option<Alarm>,
    pub lines: Seq<LineState>,
    pub yield_requested: bool,
    pub interrupts_unmasked: bool,
    pub first_switch: bool,
    pub tick_clears: u64,
    pub switches: u64,
}

impl CoreView {
    pub open spec fn line(self, l: InterruptLine) -> LineState {
        self.lines[l.idx() as int]
    }

    pub open spec fn wf(self) -> bool {
        let a = self.alarm.unwrap();
        &&& self.tick_rate_hz > 0
        &&& self.first_switch <==> self.switches == 0
        &&& self.switches > 0 ==> self.interrupts_unmasked && self.alarm is Some
        &&& self.tick_clears <= self.switches
        &&& self.alarm is Some <==> self.line(InterruptLine::SystimerTarget0).priority is Some
        &&& self.alarm is Some ==> {
            &&& a.periodic
            &&& a.interrupt_enabled
            &&& a.period == period_ticks(self.tick_rate_hz)
            &&& self.counter <= a.deadline
            &&& a.deadline <= self.counter + a.period
        }
        &&& self.alarm is Some ==> self.line(InterruptLine::SystimerTarget0) == tick_binding()
        &&& self.line(InterruptLine::FromCpuIntr3).priority is Some ==> self.line(InterruptLine::FromCpuIntr3) == yield_binding()
        &&& self.interrupts_unmasked ==> self.line(InterruptLine::FromCpuIntr3).priority is Some
    }

    pub open spec fn phase(self) -> Phase {
        if self.alarm is None {
            Phase::Uninitialized
        } else if self.first_switch {
            Phase::TimerArmed
        } else {
            Phase::MultitaskingActive
        }
    }
}

/// The counter reaches the alarm's deadline: the alarm fires and re-arms.
pub open spec fn alarm_fired(v: CoreView) -> CoreView {
    let a = v.alarm.unwrap();
    CoreView {
        counter: a.deadline,
        alarm: Some(Alarm { pending: true, deadline: (a.deadline + a.period) as u64, ..a }),
        ..v
    }
}

/// The tick handler: clear the alarm, then one scheduler invocation.
pub open spec fn tick_handled(v: CoreView) -> CoreView {
    CoreView {
        alarm: Some(Alarm { pending: false, ..v.alarm.unwrap() }),
        tick_clears: (v.tick_clears + 1) as u64,
        switches: (v.switches + 1) as u64,
        first_switch: false,
        ..v
    }
}

/// The yield handler: drop the request, restart the alarm's period from now
/// and clear it, then one scheduler invocation.
pub open spec fn yield_handled(v: CoreView) -> CoreView {
    let a = v.alarm.unwrap();
    CoreView {
        yield_requested: false,
        alarm: Some(Alarm { deadline: (v.counter + a.period) as u64, pending: false, ..a }),
        switches: (v.switches + 1) as u64,
        first_switch: false,
        ..v
    }
}

/// `n` periods of the alarm, each delivered to the tick handler.
pub open spec fn after_ticks(v: CoreView, n: nat) -> CoreView
    decreases n,
{
    if n == 0 {
        v
    } else {
        tick_handled(alarm_fired(after_ticks(v, (n - 1) as nat)))
    }
}

/// The scheduling core: the alarm slot, the interrupt matrix, the yield
/// request bit, the global interrupt mask, the first-switch flag and the
/// counts of tick clears and scheduler invocations, over the system counter.
pub struct TimerCore {
    pub tick_rate_hz: u32,
    pub counter: u64,
    pub alarm: Option<Alarm>,
    pub interrupts: InterruptController,
    pub yield_requested: bool,
    pub interrupts_unmasked: bool,
    pub first_switch: bool,
    pub tick_clears: u64,
    pub switches: u64,
}

impl View for TimerCore {
    type V = CoreView;

    open spec fn view(&self) -> CoreView {
        CoreView {
            tick_rate_hz: self.tick_rate_hz,
            counter: self.counter,
            alarm: self.alarm,
            lines: self.interrupts.lines@,
            yield_requested: self.yield_requested,
            interrupts_unmasked: self.interrupts_unmasked,
            first_switch: self.first_switch,
            tick_clears: self.tick_clears,
            switches: self.switches,
        }
    }
}

impl TimerCore {
    pub open spec fn wf(&self) -> bool {
        self.interrupts.wf() && self@.wf()
    }

    /// A core out of reset, for a tick rate of `tick_rate_hz`.
    pub fn new(tick_rate_hz: u32) -> (r: TimerCore)
        requires
            tick_rate_hz > 0,
        ensures
            r.wf(),
            r@.tick_rate_hz == tick_rate_hz,
            r@.counter == 0,
            r@.alarm is None,
            forall|l: InterruptLine| #[trigger] r@.line(l) == unbound(),
            !r@.yield_requested,
            !r@.interrupts_unmasked,
            r@.first_switch,
            r@.tick_clears == 0,
            r@.switches == 0,
    {
        let interrupts = InterruptController::new();
        let r = TimerCore {
            tick_rate_hz,
            counter: 0,
            alarm: None,
            interrupts,
            yield_requested: false,
            interrupts_unmasked: false,
            first_switch: true,
            tick_clears: 0,
            switches: 0,
        };
        assert forall|l: InterruptLine| #[trigger] r@.line(l) == unbound() by {
            assert(r.interrupts.line(l) == unbound());
        }
        assert(r@.line(InterruptLine::SystimerTarget0) == unbound());
        r
    }

    /// Where bring-up stands.
    pub fn phase(&self) -> (r: Phase)
        ensures
            r == self@.phase(),
    {
        if self.alarm.is_none() {
            Phase::Uninitialized
        } else if self.first_switch {
            Phase::TimerArmed
        } else {
            Phase::MultitaskingActive
        }
    }

    /// Whether a scheduler-driven switch has happened, so that the start-up
    /// handshake may return.
    pub fn multitasking_live(&self) -> (r: bool)
        requires
            self.wf(),
        ensures
            r == !self@.first_switch,
            r ==> self@.switches >= 1 && self@.interrupts_unmasked,
    {
        !self.first_switch
    }

    /// `ticks` counter ticks pass without reaching the alarm's deadline.
    pub fn advance(&mut self, ticks: u64)
        requires
            old(self).wf(),
            old(self).counter + ticks <= u64::MAX,
            old(self).alarm is Some ==> old(self).counter + ticks < old(self).alarm.unwrap().deadline,
        ensures
            final(self).wf(),
            final(self)@ == (CoreView { counter: (old(self).counter + ticks) as u64, ..old(self)@ }),
    {
        self.counter = self.counter + ticks;
    }

    /// The counter reaches the alarm's deadline: the alarm fires and re-arms
    /// one period later.
    pub fn fire_alarm(&mut self)
        requires
            old(self).wf(),
            old(self).alarm is Some,
            old(self).alarm.unwrap().deadline + old(self).alarm.unwrap().period <= u64::MAX,
        ensures
            final(self).wf(),
            final(self)@ == alarm_fired(old(self)@),
    {
        let mut a = self.alarm.unwrap();
        self.counter = a.deadline;
        a.fire();
        self.alarm = Some(a);
    }

    /// The counter value at which the alarm next fires, if it is armed.
    pub fn next_deadline(&self) -> (r: Option<u64>)
        ensures
            r == (match self@.alarm {
                Some(a) => Some(a.deadline),
                None => None::<u64>,
            }),
    {
        match self.alarm {
            Some(a) => Some(a.deadline),
            None => None,
        }
    }
}

/// Configures `systimer` as the periodic scheduling alarm: periodic mode,
/// one tick period counted from now, pending condition cleared, its own
/// interrupt on. Stores it in the shared slot, replacing what was there,
/// then binds the tick line at the highest priority on its CPU slot.
///
/// The tick line must not be bound yet: binding it twice is a fatal
/// configuration fault.
pub fn setup_timer(core: &mut TimerCore, systimer: Alarm)
    requires
        old(core).wf(),
        !old(core).interrupts.enabled(InterruptLine::SystimerTarget0),
        old(core).counter + period_ticks(old(core).tick_rate_hz) <= u64::MAX,
    ensures
        final(core).wf(),
        final(core)@ == (CoreView {
            alarm: Some(Alarm {
                periodic: true,
                period: period_ticks(old(core).tick_rate_hz),
                deadline: (old(core).counter + period_ticks(old(core).tick_rate_hz)) as u64,
                pending: false,
                interrupt_enabled: true,
            }),
            lines: old(core)@.lines.update(InterruptLine::SystimerTarget0.idx() as int, tick_binding()),
            ..old(core)@
        }),
{
    let period = period_for_rate(core.tick_rate_hz);
    let mut alarm0 = systimer.into_periodic();
    alarm0.set_period(period, core.counter);
    alarm0.clear_interrupt();
    alarm0.interrupt_enable(true);
    with_alarm_slot(&mut core.alarm, AlarmOp::Install(alarm0));
    let r = core.interrupts.enable_at(InterruptLine::SystimerTarget0, MAX_PRIORITY, TICK_CPU_SLOT);
    assert(r is Ok);
    assert(core@.line(InterruptLine::FromCpuIntr3) == old(core)@.line(InterruptLine::FromCpuIntr3));
}

/// Binds the yield line at the highest priority on its own CPU slot and
/// unmasks interrupts for the running thread. From here on the tick and
/// yield handlers may run; the first switch has not happened yet.
///
/// The alarm must be set up, and the yield line must not be bound yet:
/// binding it twice is a fatal configuration fault.
pub fn enable_multitasking(core: &mut TimerCore)
    requires
        old(core).wf(),
        old(core).alarm is Some,
        !old(core).interrupts.enabled(InterruptLine::FromCpuIntr3),
    ensures
        final(core).wf(),
        final(core)@ == (CoreView {
            lines: old(core)@.lines.update(InterruptLine::FromCpuIntr3.idx() as int, yield_binding()),
            interrupts_unmasked: true,
            ..old(core)@
        }),
        final(core).interrupts.enabled(InterruptLine::FromCpuIntr3),
{
    let r = core.interrupts.enable_at(InterruptLine::FromCpuIntr3, MAX_PRIORITY, YIELD_CPU_SLOT);
    assert(r is Ok);
    core.interrupts_unmasked = true;
    assert(core@.line(InterruptLine::SystimerTarget0) == old(core)@.line(InterruptLine::SystimerTarget0));
}

/// The next scheduling interrupt taken while interrupts are unmasked: a
/// pending yield request is served at once; otherwise the counter runs on to
/// the alarm's deadline, the alarm fires and the tick handler runs.
pub open spec fn next_interrupt(v: CoreView) -> CoreView {
    if v.yield_requested {
        yield_handled(v)
    } else {
        tick_handled(alarm_fired(v))
    }
}

/// Takes the next scheduling interrupt, as the hardware delivers it to a
/// thread that waits with interrupts unmasked.
pub fn take_next_interrupt(core: &mut TimerCore)
    requires
        old(core).wf(),
        old(core).alarm is Some,
        old(core).interrupts_unmasked,
        old(core).switches < u64::MAX,
        old(core).alarm.unwrap().deadline + old(core).alarm.unwrap().period <= u64::MAX,
    ensures
        final(core).wf(),
        final(core)@ == next_interrupt(old(core)@),
{
    if core.yield_requested {
        from_cpu_intr3(core);
    } else {
        core.fire_alarm();
        systimer_target0(core);
    }
}

/// The start-up handshake: binds the yield line, unmasks interrupts, then
/// waits, taking interrupts, until the scheduler has switched at least once.
/// It returns in the multitasking phase, at most one tick period after it
/// was called.
///
/// The alarm must be set up, and the yield line must not be bound yet:
/// binding it twice is a fatal configuration fault.
pub fn setup_multitasking(core: &mut TimerCore)
    requires
        old(core).wf(),
        old(core).alarm is Some,
        !old(core).interrupts.enabled(InterruptLine::FromCpuIntr3),
        old(core).switches < u64::MAX,
        old(core).alarm.unwrap().deadline + old(core).alarm.unwrap().period <= u64::MAX,
    ensures
        final(core).wf(),
        !final(core)@.first_switch,
        final(core)@.switches >= 1,
        final(core)@.interrupts_unmasked,
        final(core)@.phase() == Phase::MultitaskingActive,
        final(core).interrupts.enabled(InterruptLine::FromCpuIntr3),
        final(core)@.line(InterruptLine::FromCpuIntr3) == yield_binding(),
        final(core)@.line(InterruptLine::SystimerTarget0) == old(core)@.line(InterruptLine::SystimerTarget0),
        final(core)@.counter <= old(core)@.counter + old(core)@.alarm.unwrap().period,
        old(core)@.first_switch ==> final(core)@ == next_interrupt(CoreView {
            lines: old(core)@.lines.update(InterruptLine::FromCpuIntr3.idx() as int, yield_binding()),
            interrupts_unmasked: true,
            ..old(core)@
        }),
        !old(core)@.first_switch ==> final(core)@ == (CoreView {
            lines: old(core)@.lines.update(InterruptLine::FromCpuIntr3.idx() as int, yield_binding()),
            interrupts_unmasked: true,
            ..old(core)@
        }),
{
    enable_multitasking(core);
    let ghost enabled = core@;
    if !core.multitasking_live() {
        take_next_interrupt(core);
    }
    assert(core@.line(InterruptLine::FromCpuIntr3) == enabled.line(InterruptLine::FromCpuIntr3));
}

/// The tick handler: with the alarm slot borrowed under a critical
/// section, clear the alarm's pending condition; then the scheduler runs
/// once on the interrupted context.
///
/// The slot must hold the alarm: a tick before `setup_timer` is a fatal
/// fault.
pub fn systimer_target0(core: &mut TimerCore)
    requires
        old(core).wf(),
        old(core).alarm is Some,
        old(core).interrupts_unmasked,
        old(core).switches < u64::MAX,
    ensures
        final(core).wf(),
        final(core)@ == tick_handled(old(core)@),
{
    with_alarm_slot(&mut core.alarm, AlarmOp::Clear);
    core.tick_clears = core.tick_clears + 1;
    core.switches = core.switches + 1;
    core.first_switch = false;
}

/// The yield handler: drop the yield request, then, with the alarm slot
/// borrowed under a critical section, restart the alarm's period from now
/// and clear it, so that no tick follows the yield before a full period;
/// then the scheduler runs once on the interrupted context.
///
/// The slot must hold the alarm: a yield before `setup_timer` is a fatal
/// fault.
pub fn from_cpu_intr3(core: &mut TimerCore)
    requires
        old(core).wf(),
        old(core).alarm is Some,
        old(core).interrupts_unmasked,
        old(core).yield_requested,
        old(core).switches < u64::MAX,
        old(core).counter + old(core).alarm.unwrap().period <= u64::MAX,
    ensures
        final(core).wf(),
        final(core)@ == yield_handled(old(core)@),
{
    core.yield_requested = false;
    let period = period_for_rate(core.tick_rate_hz);
    with_alarm_slot(&mut core.alarm, AlarmOp::Restart { period, now: core.counter });
    core.switches = core.switches + 1;
    core.first_switch = false;
}

/// Requests a voluntary switch: sets the yield request bit and returns.
pub fn yield_task(core: &mut TimerCore)
    requires
        old(core).wf(),
    ensures
        final(core).wf(),
        final(core)@ == (CoreView { yield_requested: true, ..old(core)@ }),
{
    core.yield_requested = true;
}

/// The system counter; one tick is 1 / 16_000_000 s.
pub fn get_systimer_count(core: &TimerCore) -> (r: u64)
    ensures
        r == core@.counter,
{
    core.counter
}

/// However many alarm periods elapse, each one reaches the tick handler: after
/// `n` periods the alarm was cleared `n` times and the scheduler ran `n`
/// times, none dropped and none merged, and the `k`-th tick entered at the
/// first deadline plus `k - 1` periods.
pub proof fn lemma_every_tick_handled(v: CoreView, n: nat)
    requires
        v.wf(),
        v.alarm is Some,
        v.interrupts_unmasked,
        v.alarm.unwrap().deadline + n * v.alarm.unwrap().period <= u64::MAX,
        v.switches + n <= u64::MAX,
    ensures
        after_ticks(v, n).wf(),
        after_ticks(v, n).alarm is Some,
        after_ticks(v, n).interrupts_unmasked,
        after_ticks(v, n).alarm.unwrap().period == v.alarm.unwrap().period,
        after_ticks(v, n).tick_clears == v.tick_clears + n,
        after_ticks(v, n).switches == v.switches + n,
        after_ticks(v, n).alarm.unwrap().deadline == v.alarm.unwrap().deadline + n * v.alarm.unwrap().period,
        n > 0 ==> after_ticks(v, n).counter == v.alarm.unwrap().deadline + (n - 1) * v.alarm.unwrap().period,
        n > 0 ==> !after_ticks(v, n).alarm.unwrap().pending,
    decreases n,
{
    if n > 0 {
        let p = v.alarm.unwrap().period;
        let m = (n - 1) as nat;
        assert(m * p + p == n * p) by (nonlinear_arith)
            requires m == n - 1;
        assert(m * p <= n * p) by (nonlinear_arith)
            requires m == n - 1;
        lemma_every_tick_handled(v, m);
        let w = after_ticks(v, m);
        assert(w.alarm.unwrap().deadline + p == v.alarm.unwrap().deadline + n * p);
        assert(tick_handled(alarm_fired(w)).alarm.unwrap().deadline == v.alarm.unwrap().deadline + n * p);
    } else {
        assert(n * v.alarm.unwrap().period == 0) by (nonlinear_arith)
            requires n == 0;
    }
}

/// A yield adds exactly one scheduler invocation beyond those of the ticks,
/// and restarts the alarm: the next tick comes one full period after the
/// yield, not at the deadline that was set before it.
pub proof fn lemma_yield_restarts_period(v: CoreView)
    requires
        v.wf(),
        v.alarm is Some,
        v.interrupts_unmasked,
        v.yield_requested,
        v.switches + 2 <= u64::MAX,
        v.counter + 2 * v.alarm.unwrap().period <= u64::MAX,
    ensures
        yield_handled(v).wf(),
        yield_handled(v).switches - yield_handled(v).tick_clears == v.switches - v.tick_clears + 1,
        alarm_fired(yield_handled(v)).counter == v.counter + v.alarm.unwrap().period,
        tick_handled(alarm_fired(yield_handled(v))).switches == v.switches + 2,
        tick_handled(alarm_fired(yield_handled(v))).tick_clears == v.tick_clears + 1,
{
}

/// Once the alarm is set up its line is bound, so `setup_timer` cannot be
/// called again and binding the line once more is refused; once interrupts
/// are unmasked the yield line is bound, and the same holds of
/// `setup_multitasking`.
pub proof fn lemma_setup_is_once_only(c: &TimerCore)
    requires
        c.wf(),
        c@.alarm is Some,
    ensures
        c.interrupts.enabled(InterruptLine::SystimerTarget0),
        c@.interrupts_unmasked ==> c.interrupts.enabled(InterruptLine::FromCpuIntr3),
{
}

/// The start-up handshake is released only once the scheduler has run, which
/// happens only with interrupts unmasked.
pub proof fn lemma_handshake_waits_for_switch(v: CoreView)
    requires
        v.wf(),
        !v.first_switch,
    ensures
        v.switches >= 1,
        v.interrupts_unmasked,
{
}

/// The tick and yield lines are bound at one priority, the highest, on two
/// different CPU slots, and no line is bound above it: neither scheduling
/// handler can preempt the other, so they never run at once.
pub proof fn lemma_scheduling_handlers_serialized(c: &TimerCore)
    requires
        c.wf(),
        c.interrupts.enabled(InterruptLine::SystimerTarget0),
        c.interrupts.enabled(InterruptLine::FromCpuIntr3),
    ensures
        c@.line(InterruptLine::SystimerTarget0).priority == Some(MAX_PRIORITY),
        c@.line(InterruptLine::FromCpuIntr3).priority == Some(MAX_PRIORITY),
        c@.line(InterruptLine::SystimerTarget0).cpu_slot != c@.line(InterruptLine::FromCpuIntr3).cpu_slot,
        forall|l: InterruptLine| #[trigger] c@.line(l).priority matches Some(p) ==> p <= MAX_PRIORITY,
{
    assert forall|l: InterruptLine| #[trigger] c@.line(l).priority matches Some(p) ==> p <= MAX_PRIORITY by {
        assert(crate::interrupt::valid_priority(c.interrupts.lines@[l.idx() as int].priority));
    }
}

} // verus!
