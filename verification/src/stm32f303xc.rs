//! Peripherals of the STM32F303xC.

pub mod flash;
