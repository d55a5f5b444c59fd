//! Preemption and interrupt routing for a single-core radio firmware: a periodic
//! scheduling alarm, a software-triggered yield line, the two scheduling
//! handlers, the start-up handshake and the radio interrupt router, written
//! over a register-level model of the timer and interrupt hardware.
pub mod interrupt;
pub mod systimer;
pub mod riscv;
pub mod radio;
pub mod timer_esp32c6;
pub mod timer_esp32s3;
