//! Peripherals of the STM32F4xx.

pub mod flash;
pub mod qspi;
