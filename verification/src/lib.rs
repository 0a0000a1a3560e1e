//! Hardware abstraction layer for the GD32E230, specified and verified
//! against a register-level model of the chip.
//!
//! Each peripheral's registers are held as plain 32-bit words (see
//! [`periph`]), and every driver operation is stated as what it does to those
//! words. Binding the words to the silicon, and the busy-waits on flags that
//! only the hardware raises, belong to the code that drives the chip.

pub mod bits;
pub mod time;
pub mod periph;
pub mod fmc;
pub mod rcu;
pub mod gpio;
pub mod syscfg;
pub mod exti;
pub mod crc;
pub mod cmp;
pub mod spi;
pub mod usart;
