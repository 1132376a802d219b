//! The STM32F3 Discovery board.

pub mod flash_test;
