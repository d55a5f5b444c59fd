use vstd::prelude::*;

use crate::interrupt::{InterruptController, InterruptLine, LineState};

verus! {

/// Priority of the radio lines, below the scheduling lines.
pub const RADIO_PRIORITY: u8 = 1;

/// A registration slot that the radio stack fills: the address of its handler
/// and the opaque argument to call it with. Address 0 means that nothing has
/// been registered yet.
#[derive(Clone, Copy, Debug, PartialEq, Eq, Structural)]
pub struct HandlerSlot {
    pub callback: usize,
    pub arg: usize,
}

/// The radio stack's registration slots, as the handlers read them.
#[derive(Clone, Copy, Debug, PartialEq, Eq, Structural)]
pub struct HandlerSlots {
    pub isr1: HandlerSlot,
    pub isr4: HandlerSlot,
    pub isr5: HandlerSlot,
    pub isr7: HandlerSlot,
    pub isr8: HandlerSlot,
}

/// A call of a registered handler with its argument.
#[derive(Clone, Copy, Debug, PartialEq, Eq, Structural)]
pub struct RadioCall {
    pub callback: usize,
    pub arg: usize,
}

/// What one radio interrupt leads to: the call to make, if a handler is
/// registered, and whether the handler body runs inside a critical section.
#[derive(Clone, Copy, Debug, PartialEq, Eq, Structural)]
pub struct RadioDispatch {
    pub call: Option<RadioCall>,
    pub masked: bool,
}

/// Which radio stacks the firmware carries.
#[derive(Clone, Copy, Debug, PartialEq, Eq, Structural)]
pub struct RadioFeatures {
    pub wifi: bool,
    pub ble: bool,
}

pub open spec fn call_for(slot: HandlerSlot) -> Option<RadioCall> {
    if slot.callback == 0 {
        None
    } else {
        Some(RadioCall { callback: slot.callback, arg: slot.arg })
    }
}

/// Reads a slot: the registered handler with its argument, or nothing at all
/// while the slot is still empty.
pub fn dispatch(slot: HandlerSlot) -> (r: Option<RadioCall>)
    ensures
        r == call_for(slot),
        slot.callback == 0 ==> r is None,
{
    if slot.callback == 0 {
        None
    } else {
        Some(RadioCall { callback: slot.callback, arg: slot.arg })
    }
}

/// The binding of a radio line once enabled: the radio priority, served in
/// vectored mode by the CPU interrupt of that number.
pub open spec fn radio_binding() -> LineState {
    LineState { cpu_slot: Some(RADIO_PRIORITY), priority: Some(RADIO_PRIORITY) }
}

/// Enables `l` at the radio priority. The line must not be bound yet.
pub fn enable_radio_line(ctl: &mut InterruptController, l: InterruptLine)
    requires
        old(ctl).wf(),
        !old(ctl).enabled(l),
    ensures
        final(ctl).wf(),
        final(ctl).lines@ == old(ctl).lines@.update(l.idx() as int, radio_binding()),
{
    let r = ctl.enable(l, RADIO_PRIORITY);
    assert(r is Ok);
}

} // verus!
