//! Board support for the STM32F4DISCOVERY: the four user LEDs and a polled
//! serial interface on USART2.
//!
//! Every peripheral is reached through a register-access trait (`RccBus`,
//! `GpioBus`, `UsartBus`), so the same verified logic drives the real chip or
//! the in-memory register files of the `regs` module.

pub mod frequency;
pub mod led;
pub mod regs;
pub mod serial;
