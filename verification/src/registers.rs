//! Memory-mapped registers as a driver sees them.
//!
//! A driver reads registers and writes to them, and what the hardware makes
//! of a write is not the driver's to know. A [`RegisterBlock`] therefore
//! holds two things: the value that each register of a peripheral was last
//! seen or left with, from which reads are answered, and the log of the
//! operations that the driver has issued, in their order. The owner of the
//! hardware carries the log out and enters what the registers then read.

use vstd::prelude::*;

verus! {

/// An operation on the bus of a peripheral.
#[derive(Clone, Copy, Debug, PartialEq, Eq, Structural)]
pub enum BusOp {
    /// Write `value` to the register.
    Write { register: usize, value: u32 },
    /// Read the register, replace the bits under `mask` by those of `bits`,
    /// and write the result back.
    Modify { register: usize, mask: u32, bits: u32 },
    /// Store a byte at an address of the memory that the peripheral controls.
    Store8 { address: usize, byte: u8 },
    /// Store a halfword at an address of the memory that the peripheral
    /// controls.
    Store16 { address: usize, halfword: u16 },
}

/// `value` with the bits under `mask` replaced by those of `bits`.
pub open spec fn merged(value: u32, mask: u32, bits: u32) -> u32 {
    (value & !mask) | (bits & mask)
}

/// Whether a bit under `mask` is set in `value`.
pub open spec fn any_set(value: u32, mask: u32) -> bool {
    value & mask != 0
}

/// The field of `value` that lies under `mask`, which starts at bit `shift`.
pub open spec fn field(value: u32, mask: u32, shift: u32) -> u32 {
    (value & mask) >> shift
}

/// The registers of a peripheral, as values, and the operations issued.
pub struct Bus {
    /// The value of each register, by its number.
    pub values: Seq<u32>,
    /// The operations issued, first to last.
    pub log: Seq<BusOp>,
}

impl Bus {
    /// After `value` was written to `register`.
    pub open spec fn write(self, register: int, value: u32) -> Bus {
        Bus {
            values: self.values.update(register, value),
            log: self.log.push(BusOp::Write { register: register as usize, value }),
        }
    }

    /// After the bits under `mask` of `register` were replaced by those of
    /// `bits`.
    pub open spec fn modify(self, register: int, mask: u32, bits: u32) -> Bus {
        Bus {
            values: self.values.update(register, merged(self.values[register], mask, bits)),
            log: self.log.push(BusOp::Modify { register: register as usize, mask, bits }),
        }
    }

    /// After the bits under `mask` of `register` were set.
    pub open spec fn set(self, register: int, mask: u32) -> Bus {
        self.modify(register, mask, mask)
    }

    /// After the bits under `mask` of `register` were cleared.
    pub open spec fn clear(self, register: int, mask: u32) -> Bus {
        self.modify(register, mask, 0)
    }

    /// After the bits under `mask` of `register` were cleared, if one of them
    /// was set.
    pub open spec fn clear_if_set(self, register: int, mask: u32) -> Bus {
        if any_set(self.values[register], mask) {
            self.clear(register, mask)
        } else {
            self
        }
    }

    /// After a byte was stored in the memory behind the peripheral.
    pub open spec fn store8(self, address: usize, byte: u8) -> Bus {
        Bus { values: self.values, log: self.log.push(BusOp::Store8 { address, byte }) }
    }

    /// After a halfword was stored in the memory behind the peripheral.
    pub open spec fn store16(self, address: usize, halfword: u16) -> Bus {
        Bus { values: self.values, log: self.log.push(BusOp::Store16 { address, halfword }) }
    }
}

/// The registers of one peripheral. The view is the [`Bus`].
pub struct RegisterBlock {
    values: Vec<u32>,
    log: Vec<BusOp>,
}

impl View for RegisterBlock {
    type V = Bus;

    closed spec fn view(&self) -> Bus {
        Bus { values: self.values@, log: self.log@ }
    }
}

impl RegisterBlock {
    /// A block of `count` registers that all read zero, with nothing issued.
    pub fn new(count: usize) -> (block: RegisterBlock)
        ensures
            block@.values == Seq::new(count as nat, |i: int| 0u32),
            block@.log == Seq::<BusOp>::empty(),
    {
        let mut values: Vec<u32> = Vec::new();
        let mut i: usize = 0;
        while i < count
            invariant
                i <= count,
                values@ == Seq::new(i as nat, |i: int| 0u32),
            decreases count - i,
        {
            values.push(0);
            i = i + 1;
        }
        RegisterBlock { values, log: Vec::new() }
    }

    /// Number of registers in the block.
    pub fn count(&self) -> (count: usize)
        ensures
            count == self@.values.len(),
    {
        self.values.len()
    }

    /// The value of a register.
    pub fn read(&self, register: usize) -> (value: u32)
        requires
            register < self@.values.len(),
        ensures
            value == self@.values[register as int],
    {
        self.values[register]
    }

    /// Whether a bit under `mask` is set in a register.
    pub fn is_set(&self, register: usize, mask: u32) -> (set: bool)
        requires
            register < self@.values.len(),
        ensures
            set == any_set(self@.values[register as int], mask),
    {
        self.values[register] & mask != 0
    }

    /// The field of a register that lies under `mask`, which starts at bit
    /// `shift`.
    pub fn read_field(&self, register: usize, mask: u32, shift: u32) -> (value: u32)
        requires
            register < self@.values.len(),
            shift < 32,
        ensures
            value == field(self@.values[register as int], mask, shift),
    {
        (self.values[register] & mask) >> shift
    }

    /// Enters what a register reads on the hardware. Nothing is issued.
    pub fn refresh(&mut self, register: usize, value: u32)
        requires
            register < old(self)@.values.len(),
        ensures
            final(self)@.values == old(self)@.values.update(register as int, value),
            final(self)@.log == old(self)@.log,
    {
        self.values.set(register, value);
    }

    pub fn write(&mut self, register: usize, value: u32)
        requires
            register < old(self)@.values.len(),
        ensures
            final(self)@ == old(self)@.write(register as int, value),
    {
        self.values.set(register, value);
        self.log.push(BusOp::Write { register, value });
    }

    pub fn modify(&mut self, register: usize, mask: u32, bits: u32)
        requires
            register < old(self)@.values.len(),
        ensures
            final(self)@ == old(self)@.modify(register as int, mask, bits),
    {
        let value: u32 = (self.values[register] & !mask) | (bits & mask);
        self.values.set(register, value);
        self.log.push(BusOp::Modify { register, mask, bits });
    }

    pub fn set(&mut self, register: usize, mask: u32)
        requires
            register < old(self)@.values.len(),
        ensures
            final(self)@ == old(self)@.set(register as int, mask),
    {
        self.modify(register, mask, mask);
    }

    pub fn clear(&mut self, register: usize, mask: u32)
        requires
            register < old(self)@.values.len(),
        ensures
            final(self)@ == old(self)@.clear(register as int, mask),
    {
        self.modify(register, mask, 0);
    }

    pub fn clear_if_set(&mut self, register: usize, mask: u32)
        requires
            register < old(self)@.values.len(),
        ensures
            final(self)@ == old(self)@.clear_if_set(register as int, mask),
    {
        if self.is_set(register, mask) {
            self.clear(register, mask);
        }
    }

    pub fn store8(&mut self, address: usize, byte: u8)
        ensures
            final(self)@ == old(self)@.store8(address, byte),
    {
        self.log.push(BusOp::Store8 { address, byte });
    }

    pub fn store16(&mut self, address: usize, halfword: u16)
        ensures
            final(self)@ == old(self)@.store16(address, halfword),
    {
        self.log.push(BusOp::Store16 { address, halfword });
    }

    /// Hands out the operations issued so far, first to last, and starts the
    /// log anew.
    pub fn take_log(&mut self) -> (log: Vec<BusOp>)
        ensures
            log@ == old(self)@.log,
            final(self)@.values == old(self)@.values,
            final(self)@.log == Seq::<BusOp>::empty(),
    {
        let mut log: Vec<BusOp> = Vec::new();
        log.append(&mut self.log);
        log
    }
}

} // verus!
