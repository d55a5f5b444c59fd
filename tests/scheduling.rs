use esp_wifi_timer::interrupt::{InterruptError, InterruptLine, LineState};
use esp_wifi_timer::riscv::{
    enable_multitasking, from_cpu_intr3, get_systimer_count, setup_multitasking, setup_timer,
    systimer_target0, take_next_interrupt, yield_task, Phase, TimerCore,
};
use esp_wifi_timer::systimer::{period_for_rate, Alarm, TICKS_PER_SECOND};

fn armed(hz: u32) -> TimerCore {
    let mut core = TimerCore::new(hz);
    setup_timer(&mut core, Alarm::new());
    enable_multitasking(&mut core);
    core
}

fn deliver_tick(core: &mut TimerCore) -> u64 {
    core.fire_alarm();
    let entry = get_systimer_count(core);
    systimer_target0(core);
    entry
}

#[test]
fn period_follows_tick_rate() {
    assert_eq!(period_for_rate(1000), 16_000);
    assert_eq!(period_for_rate(100), 160_000);
    assert_eq!(period_for_rate(3), 333_333 * 16);
    assert_eq!(period_for_rate(1), TICKS_PER_SECOND);
}

#[test]
fn setup_timer_arms_periodic_alarm() {
    let mut core = TimerCore::new(1000);
    assert_eq!(core.phase(), Phase::Uninitialized);
    core.advance(5);
    setup_timer(&mut core, Alarm::new());
    let a = core.alarm.unwrap();
    assert!(a.periodic);
    assert!(a.interrupt_enabled);
    assert!(!a.pending);
    assert_eq!(a.period, 16_000);
    assert_eq!(a.deadline, 16_005);
    assert_eq!(core.next_deadline(), Some(16_005));
    assert_eq!(
        core.interrupts.lines[0],
        LineState { cpu_slot: Some(28), priority: Some(15) }
    );
    assert_eq!(core.phase(), Phase::TimerArmed);
    assert!(!core.interrupts_unmasked);
}

#[test]
fn two_seconds_at_one_kilohertz() {
    let mut core = armed(1000);
    let end = 2 * TICKS_PER_SECOND;
    let mut samples: Vec<u64> = Vec::new();
    while core.next_deadline().unwrap() <= end {
        samples.push(deliver_tick(&mut core));
    }
    assert_eq!(core.tick_clears, 2000);
    assert_eq!(core.switches, 2000);
    assert_eq!(samples.len(), 2000);
    for w in samples.windows(2) {
        assert_eq!(w[1] - w[0], 16_000);
    }
    assert_eq!(*samples.last().unwrap(), end);
}

#[test]
fn every_tick_is_handled() {
    for n in [0u64, 1, 7, 50] {
        let mut core = armed(250);
        for _ in 0..n {
            deliver_tick(&mut core);
            assert!(!core.alarm.unwrap().pending);
        }
        assert_eq!(core.tick_clears, n);
        assert_eq!(core.switches, n);
    }
}

#[test]
fn yield_adds_one_switch_and_restarts_period() {
    let mut core = armed(1000);
    deliver_tick(&mut core);
    assert_eq!(get_systimer_count(&core), 16_000);
    core.advance(4_000);
    yield_task(&mut core);
    assert!(core.yield_requested);
    from_cpu_intr3(&mut core);
    assert!(!core.yield_requested);
    assert_eq!(core.switches, 2);
    assert_eq!(core.tick_clears, 1);
    assert_eq!(core.next_deadline(), Some(20_000 + 16_000));
    let entry = deliver_tick(&mut core);
    assert_eq!(entry, 36_000);
    assert_eq!(core.switches, 3);
    assert_eq!(core.tick_clears, 2);
}

#[test]
fn handshake_waits_for_first_switch() {
    let mut core = armed(1000);
    assert!(core.interrupts_unmasked);
    assert!(!core.multitasking_live());
    assert_eq!(core.phase(), Phase::TimerArmed);
    core.advance(100);
    assert!(!core.multitasking_live());
    deliver_tick(&mut core);
    assert!(core.multitasking_live());
    assert_eq!(core.phase(), Phase::MultitaskingActive);
}

#[test]
fn handshake_released_by_yield() {
    let mut core = armed(1000);
    yield_task(&mut core);
    from_cpu_intr3(&mut core);
    assert!(core.multitasking_live());
    assert_eq!(core.tick_clears, 0);
    assert_eq!(core.switches, 1);
}

#[test]
fn scheduling_lines_share_top_priority() {
    let core = armed(1000);
    let tick = core.interrupts.lines[InterruptLine::SystimerTarget0.index()];
    let yld = core.interrupts.lines[InterruptLine::FromCpuIntr3.index()];
    assert_eq!(tick.priority, Some(15));
    assert_eq!(yld.priority, Some(15));
    assert_eq!(tick.cpu_slot, Some(28));
    assert_eq!(yld.cpu_slot, Some(27));
}

#[test]
fn binding_a_line_twice_fails() {
    let mut core = armed(1000);
    let before = core.interrupts.lines.clone();
    assert_eq!(
        core.interrupts.enable_at(InterruptLine::SystimerTarget0, 15, 28),
        Err(InterruptError::AlreadyEnabled)
    );
    assert_eq!(
        core.interrupts.enable(InterruptLine::FromCpuIntr3, 1),
        Err(InterruptError::AlreadyEnabled)
    );
    assert_eq!(core.interrupts.lines, before);
    assert_eq!(core.interrupts.enable(InterruptLine::WifiMac, 1), Ok(()));
    assert_eq!(
        core.interrupts.enable(InterruptLine::WifiMac, 1),
        Err(InterruptError::AlreadyEnabled)
    );
}

#[test]
fn setup_multitasking_returns_after_first_tick() {
    let mut core = TimerCore::new(1000);
    setup_timer(&mut core, Alarm::new());
    core.advance(3_000);
    setup_multitasking(&mut core);
    assert!(core.multitasking_live());
    assert_eq!(core.phase(), Phase::MultitaskingActive);
    assert_eq!(core.switches, 1);
    assert_eq!(core.tick_clears, 1);
    assert_eq!(get_systimer_count(&core), 16_000);
    assert!(core.interrupts_unmasked);
    assert_eq!(
        core.interrupts.lines[InterruptLine::FromCpuIntr3.index()],
        LineState { cpu_slot: Some(27), priority: Some(15) }
    );
}

#[test]
fn setup_multitasking_served_by_pending_yield() {
    let mut core = TimerCore::new(1000);
    setup_timer(&mut core, Alarm::new());
    core.advance(500);
    yield_task(&mut core);
    setup_multitasking(&mut core);
    assert_eq!(core.phase(), Phase::MultitaskingActive);
    assert_eq!(core.switches, 1);
    assert_eq!(core.tick_clears, 0);
    assert!(!core.yield_requested);
    assert_eq!(get_systimer_count(&core), 500);
    assert_eq!(core.next_deadline(), Some(16_500));
}

#[test]
fn next_interrupt_prefers_pending_yield() {
    let mut core = armed(1000);
    take_next_interrupt(&mut core);
    assert_eq!(core.tick_clears, 1);
    assert_eq!(get_systimer_count(&core), 16_000);
    yield_task(&mut core);
    take_next_interrupt(&mut core);
    assert_eq!(core.tick_clears, 1);
    assert_eq!(core.switches, 2);
    assert_eq!(get_systimer_count(&core), 16_000);
}
