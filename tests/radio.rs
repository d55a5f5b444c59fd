use esp_wifi_timer::interrupt::{InterruptController, InterruptLine, LineState};
use esp_wifi_timer::radio::{dispatch, HandlerSlot, HandlerSlots, RadioCall, RadioFeatures};
use esp_wifi_timer::{timer_esp32c6, timer_esp32s3};

const EMPTY: HandlerSlot = HandlerSlot { callback: 0, arg: 0 };

fn slots() -> HandlerSlots {
    HandlerSlots {
        isr1: HandlerSlot { callback: 0x4000_1000, arg: 11 },
        isr4: HandlerSlot { callback: 0x4000_4000, arg: 44 },
        isr5: HandlerSlot { callback: 0x4000_5000, arg: 55 },
        isr7: HandlerSlot { callback: 0x4000_7000, arg: 77 },
        isr8: HandlerSlot { callback: 0x4000_8000, arg: 88 },
    }
}

fn line(ctl: &InterruptController, l: InterruptLine) -> LineState {
    ctl.lines[l.index()]
}

const RADIO: LineState = LineState { cpu_slot: Some(1), priority: Some(1) };
const UNBOUND: LineState = LineState { cpu_slot: None, priority: None };

#[test]
fn empty_slot_makes_no_call() {
    assert_eq!(dispatch(EMPTY), None);
    assert_eq!(dispatch(HandlerSlot { callback: 0, arg: 9 }), None);
    let empty = HandlerSlots { isr1: EMPTY, isr4: EMPTY, isr5: EMPTY, isr7: EMPTY, isr8: EMPTY };
    assert_eq!(timer_esp32c6::wifi_mac(&empty).call, None);
    assert_eq!(timer_esp32c6::lp_timer(&empty).call, None);
    assert_eq!(timer_esp32s3::rwble(&empty).call, None);
    assert_eq!(timer_esp32s3::bt_bb(&empty).call, None);
}

#[test]
fn registered_slot_is_called_with_its_argument() {
    assert_eq!(
        dispatch(HandlerSlot { callback: 0x10, arg: 3 }),
        Some(RadioCall { callback: 0x10, arg: 3 })
    );
}

#[test]
fn c6_handlers_read_their_slots_unmasked() {
    let s = slots();
    let d = timer_esp32c6::wifi_mac(&s);
    assert_eq!(d.call, Some(RadioCall { callback: 0x4000_1000, arg: 11 }));
    assert!(!d.masked);
    assert_eq!(timer_esp32c6::wifi_pwr(&s).call, Some(RadioCall { callback: 0x4000_1000, arg: 11 }));
    assert_eq!(timer_esp32c6::lp_timer(&s).call, Some(RadioCall { callback: 0x4000_7000, arg: 77 }));
    let b = timer_esp32c6::bt_mac(&s);
    assert_eq!(b.call, Some(RadioCall { callback: 0x4000_4000, arg: 44 }));
    assert!(!b.masked);
}

#[test]
fn s3_bluetooth_handlers_run_masked() {
    let s = slots();
    let w = timer_esp32s3::wifi_mac(&s);
    assert!(!w.masked);
    assert_eq!(timer_esp32s3::wifi_pwr(&s).call, Some(RadioCall { callback: 0x4000_1000, arg: 11 }));
    let r = timer_esp32s3::rwble(&s);
    assert!(r.masked);
    assert_eq!(r.call, Some(RadioCall { callback: 0x4000_5000, arg: 55 }));
    let b = timer_esp32s3::bt_bb(&s);
    assert!(b.masked);
    assert_eq!(b.call, Some(RadioCall { callback: 0x4000_8000, arg: 88 }));
}

#[test]
fn c6_setup_enables_radio_lines_and_parks_two() {
    let mut ctl = InterruptController::new();
    timer_esp32c6::setup_radio_isr(&mut ctl, RadioFeatures { wifi: true, ble: true });
    assert_eq!(line(&ctl, InterruptLine::WifiMac), RADIO);
    assert_eq!(line(&ctl, InterruptLine::WifiPwr), RADIO);
    assert_eq!(line(&ctl, InterruptLine::LpTimer), RADIO);
    assert_eq!(line(&ctl, InterruptLine::BtMac), RADIO);
    let parked = LineState { cpu_slot: Some(31), priority: None };
    assert_eq!(line(&ctl, InterruptLine::WifiBb), parked);
    assert_eq!(line(&ctl, InterruptLine::ModemPeriTimeout), parked);
    assert_eq!(line(&ctl, InterruptLine::SystimerTarget0), UNBOUND);
    assert_eq!(line(&ctl, InterruptLine::Rwble), UNBOUND);
}

#[test]
fn c6_setup_wifi_only() {
    let mut ctl = InterruptController::new();
    timer_esp32c6::setup_radio_isr(&mut ctl, RadioFeatures { wifi: true, ble: false });
    assert_eq!(line(&ctl, InterruptLine::WifiMac), RADIO);
    assert_eq!(line(&ctl, InterruptLine::LpTimer), UNBOUND);
    assert_eq!(line(&ctl, InterruptLine::BtMac), UNBOUND);
    assert_eq!(line(&ctl, InterruptLine::WifiBb).cpu_slot, Some(31));
}

#[test]
fn s3_setup_enables_radio_lines() {
    let mut ctl = InterruptController::new();
    timer_esp32s3::setup_radio_isr(&mut ctl, RadioFeatures { wifi: false, ble: true });
    assert_eq!(line(&ctl, InterruptLine::BtBb), RADIO);
    assert_eq!(line(&ctl, InterruptLine::Rwble), RADIO);
    assert_eq!(line(&ctl, InterruptLine::WifiMac), UNBOUND);
    assert_eq!(line(&ctl, InterruptLine::WifiBb), UNBOUND);
    timer_esp32s3::setup_radio_isr(&mut ctl, RadioFeatures { wifi: true, ble: false });
    assert_eq!(line(&ctl, InterruptLine::WifiMac), RADIO);
    assert_eq!(line(&ctl, InterruptLine::WifiPwr), RADIO);
}
