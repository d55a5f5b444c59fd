use vstd::prelude::*;

use crate::interrupt::{InterruptController, InterruptLine, LineState, MAX_CPU_SLOT};
use crate::radio::{
    HandlerSlots, RadioDispatch, RadioFeatures, call_for, dispatch, enable_radio_line,
    radio_binding,
};

verus! {

/// Whether `l` is a radio line that this chip enables for `f`.
pub open spec fn radio_line(l: InterruptLine, f: RadioFeatures) -> bool {
    ||| f.wifi && (l == InterruptLine::WifiMac || l == InterruptLine::WifiPwr)
    ||| f.ble && (l == InterruptLine::LpTimer || l == InterruptLine::BtMac)
}

/// Whether `l` is one of the two lines that are parked on the masked CPU slot,
/// since they are asserted out of reset and mapping them to slot 0 does not
/// silence them.
pub open spec fn parked_line(l: InterruptLine) -> bool {
    l == InterruptLine::WifiBb || l == InterruptLine::ModemPeriTimeout
}

/// Enables the radio lines of the stacks in `f` at the radio priority, and
/// parks the baseband and modem-timeout lines on the masked CPU slot.
///
/// The radio lines must not be bound yet: binding one twice is a fatal
/// configuration fault.
pub fn setup_radio_isr(ctl: &mut InterruptController, f: RadioFeatures)
    requires
        old(ctl).wf(),
        forall|l: InterruptLine| radio_line(l, f) ==> !#[trigger] old(ctl).enabled(l),
    ensures
        final(ctl).wf(),
        forall|l: InterruptLine| #[trigger] final(ctl).line(l) == if radio_line(l, f) {
            radio_binding()
        } else if parked_line(l) {
            LineState { cpu_slot: Some(MAX_CPU_SLOT), priority: old(ctl).line(l).priority }
        } else {
            old(ctl).line(l)
        },
{
    let ghost g0 = ctl.lines@;
    if f.wifi {
        assert(radio_line(InterruptLine::WifiMac, f) && radio_line(InterruptLine::WifiPwr, f));
        assert(!old(ctl).enabled(InterruptLine::WifiMac) && !old(ctl).enabled(InterruptLine::WifiPwr));
        enable_radio_line(ctl, InterruptLine::WifiMac);
        enable_radio_line(ctl, InterruptLine::WifiPwr);
    }
    ctl.map_to_slot(InterruptLine::WifiBb, MAX_CPU_SLOT);
    ctl.map_to_slot(InterruptLine::ModemPeriTimeout, MAX_CPU_SLOT);
    if f.ble {
        assert(radio_line(InterruptLine::LpTimer, f) && radio_line(InterruptLine::BtMac, f));
        assert(!old(ctl).enabled(InterruptLine::LpTimer) && !old(ctl).enabled(InterruptLine::BtMac));
        assert(ctl.line(InterruptLine::LpTimer) == g0[InterruptLine::LpTimer.idx() as int]);
        assert(ctl.line(InterruptLine::BtMac) == g0[InterruptLine::BtMac.idx() as int]);
        enable_radio_line(ctl, InterruptLine::LpTimer);
        enable_radio_line(ctl, InterruptLine::BtMac);
    }
    assert forall|l: InterruptLine| #[trigger] ctl.line(l) == if radio_line(l, f) {
        radio_binding()
    } else if parked_line(l) {
        LineState { cpu_slot: Some(MAX_CPU_SLOT), priority: old(ctl).line(l).priority }
    } else {
        old(ctl).line(l)
    } by {
        assert(old(ctl).line(l) == g0[l.idx() as int]);
    }
}

/// The WiFi MAC handler: calls the handler registered in the first slot.
pub fn wifi_mac(slots: &HandlerSlots) -> (r: RadioDispatch)
    ensures
        r == (RadioDispatch { call: call_for(slots.isr1), masked: false }),
{
    RadioDispatch { call: dispatch(slots.isr1), masked: false }
}

/// The WiFi power handler: shares the first slot with the MAC handler.
pub fn wifi_pwr(slots: &HandlerSlots) -> (r: RadioDispatch)
    ensures
        r == (RadioDispatch { call: call_for(slots.isr1), masked: false }),
{
    RadioDispatch { call: dispatch(slots.isr1), masked: false }
}

/// The low-power timer handler of the Bluetooth stack: its seventh slot.
pub fn lp_timer(slots: &HandlerSlots) -> (r: RadioDispatch)
    ensures
        r == (RadioDispatch { call: call_for(slots.isr7), masked: false }),
{
    RadioDispatch { call: dispatch(slots.isr7), masked: false }
}

/// The Bluetooth MAC handler: the fourth slot.
pub fn bt_mac(slots: &HandlerSlots) -> (r: RadioDispatch)
    ensures
        r == (RadioDispatch { call: call_for(slots.isr4), masked: false }),
{
    RadioDispatch { call: dispatch(slots.isr4), masked: false }
}

} // verus!
