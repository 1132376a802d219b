//! Quad-SPI interface.

use crate::registers::{BusOp, RegisterBlock};
use vstd::prelude::*;

verus! {

/// Control register.
pub const CR: usize = 0;

/// Device configuration register.
pub const DCR: usize = 1;

/// Status register.
pub const SR: usize = 2;

/// Flag clear register.
pub const FCR: usize = 3;

/// Data length register.
pub const DLR: usize = 4;

/// Communication configuration register.
pub const CCR: usize = 5;

/// Address register.
pub const AR: usize = 6;

/// Alternate bytes register.
pub const ABR: usize = 7;

/// Data register.
pub const DR: usize = 8;

/// Polling status mask register.
pub const PSMKR: usize = 9;

/// Polling status match register.
pub const PSMAR: usize = 10;

/// Polling interval register.
pub const PIR: usize = 11;

/// Low-power timeout register.
pub const LPTR: usize = 12;

/// Number of registers of the interface.
pub const REGISTER_COUNT: usize = 13;

pub struct Qspi {
    pub registers: RegisterBlock,
}

impl Qspi {
    /// The interface at rest: the registers read zero and nothing was
    /// issued.
    pub fn new() -> (qspi: Qspi)
        ensures
            qspi.registers@.values == Seq::new(REGISTER_COUNT as nat, |i: int| 0u32),
            qspi.registers@.log == Seq::<BusOp>::empty(),
    {
        Qspi { registers: RegisterBlock::new(REGISTER_COUNT) }
    }
}

} // verus!
