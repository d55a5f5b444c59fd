use vstd::prelude::*;

use crate::interrupt::{InterruptController, InterruptLine};
use crate::radio::{
    HandlerSlots, RadioDispatch, RadioFeatures, call_for, dispatch, enable_radio_line,
    radio_binding,
};

verus! {

/// Whether `l` is a radio line that this chip enables for `f`.
pub open spec fn radio_line(l: InterruptLine, f: RadioFeatures) -> bool {
    ||| f.wifi && (l == InterruptLine::WifiMac || l == InterruptLine::WifiPwr)
    ||| f.ble && (l == InterruptLine::BtBb || l == InterruptLine::Rwble)
}

/// Enables the radio lines of the stacks in `f` at the radio priority.
///
/// The radio lines must not be bound yet: binding one twice is a fatal
/// configuration fault.
pub fn setup_radio_isr(ctl: &mut InterruptController, f: RadioFeatures)
    requires
        old(ctl).wf(),
        forall|l: InterruptLine| radio_line(l, f) ==> !#[trigger] old(ctl).enabled(l),
    ensures
        final(ctl).wf(),
        forall|l: InterruptLine| #[trigger] final(ctl).line(l) == if radio_line(l, f) {
            radio_binding()
        } else {
            old(ctl).line(l)
        },
{
    let ghost g0 = ctl.lines@;
    if f.wifi {
        assert(radio_line(InterruptLine::WifiMac, f) && radio_line(InterruptLine::WifiPwr, f));
        assert(!old(ctl).enabled(InterruptLine::WifiMac) && !old(ctl).enabled(InterruptLine::WifiPwr));
        enable_radio_line(ctl, InterruptLine::WifiMac);
        enable_radio_line(ctl, InterruptLine::WifiPwr);
    }
    if f.ble {
        assert(radio_line(InterruptLine::BtBb, f) && radio_line(InterruptLine::Rwble, f));
        assert(!old(ctl).enabled(InterruptLine::BtBb) && !old(ctl).enabled(InterruptLine::Rwble));
        assert(ctl.line(InterruptLine::BtBb) == g0[InterruptLine::BtBb.idx() as int]);
        assert(ctl.line(InterruptLine::Rwble) == g0[InterruptLine::Rwble.idx() as int]);
        enable_radio_line(ctl, InterruptLine::BtBb);
        enable_radio_line(ctl, InterruptLine::Rwble);
    }
    assert forall|l: InterruptLine| #[trigger] ctl.line(l) == if radio_line(l, f) {
        radio_binding()
    } else {
        old(ctl).line(l)
    } by {
        assert(old(ctl).line(l) == g0[l.idx() as int]);
    }
}

/// The WiFi MAC handler: calls the handler registered in the first slot.
pub fn wifi_mac(slots: &HandlerSlots) -> (r: RadioDispatch)
    ensures
        r == (RadioDispatch { call: call_for(slots.isr1), masked: false }),
{
    RadioDispatch { call: dispatch(slots.isr1), masked: false }
}

/// The WiFi power handler: shares the first slot with the MAC handler.
pub fn wifi_pwr(slots: &HandlerSlots) -> (r: RadioDispatch)
    ensures
        r == (RadioDispatch { call: call_for(slots.isr1), masked: false }),
{
    RadioDispatch { call: dispatch(slots.isr1), masked: false }
}

/// The Bluetooth LE handler: the fifth slot, read and called inside a
/// critical section on this chip.
pub fn rwble(slots: &HandlerSlots) -> (r: RadioDispatch)
    ensures
        r == (RadioDispatch { call: call_for(slots.isr5), masked: true }),
{
    RadioDispatch { call: dispatch(slots.isr5), masked: true }
}

/// The Bluetooth baseband handler: the eighth slot, read and called inside a
/// critical section on this chip.
pub fn bt_bb(slots: &HandlerSlots) -> (r: RadioDispatch)
    ensures
        r == (RadioDispatch { call: call_for(slots.isr8), masked: true }),
{
    RadioDispatch { call: dispatch(slots.isr8), masked: true }
}

} // verus!
