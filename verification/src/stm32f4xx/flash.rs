//! Embedded flash memory controller.

use crate::hil::{Error, FlashFault, ReturnCode};
use crate::registers::{any_set, field, Bus, RegisterBlock};
use vstd::prelude::*;

verus! {

/// Flash access control register.
pub const ACR: usize = 0;

/// Flash key register.
pub const KR: usize = 1;

/// Flash option key register.
pub const OKR: usize = 2;

/// Flash status register.
pub const SR: usize = 3;

/// Flash control register.
pub const CR: usize = 4;

/// Flash option control register.
pub const OCR: usize = 5;

/// Number of registers of the controller.
pub const REGISTER_COUNT: usize = 6;

/// Status: busy. A flash operation is in progress.
pub const BSY: u32 = 0x0001_0000;

/// Status: read protection error.
pub const RDERR: u32 = 0x0100;

/// Status: programming sequence error.
pub const PGSERR: u32 = 0x80;

/// Status: programming parallelism error.
pub const PGPERR: u32 = 0x40;

/// Status: programming alignment error.
pub const PGAERR: u32 = 0x20;

/// Status: write protection error.
pub const WRPERR: u32 = 0x10;

/// Status: operation error.
pub const OPERR: u32 = 0x02;

/// Status: end of operation. Cleared by writing a 1.
pub const EOP: u32 = 0x01;

/// Control: the control register is locked.
pub const LOCK: u32 = 0x8000_0000;

/// Control: error interrupt enable.
pub const ERRIE: u32 = 0x0200_0000;

/// Control: end of operation interrupt enable.
pub const EOPIE: u32 = 0x0100_0000;

/// Control: start of an erase operation.
pub const STRT: u32 = 0x0001_0000;

/// Control: program size, the parallelism of programming.
pub const PSIZE: u32 = 0x0300;

/// Control: the bit at which the program size starts.
pub const PSIZE_SHIFT: u32 = 8;

/// Control: number of the sector to erase.
pub const SNB: u32 = 0x78;

/// Control: the bit at which the sector number starts.
pub const SNB_SHIFT: u32 = 3;

/// Control: mass erase.
pub const MER: u32 = 0x04;

/// Control: sector erase.
pub const SER: u32 = 0x02;

/// Control: programming.
pub const PG: u32 = 0x01;

/// Option control: start of an operation on the user options.
pub const OPTSTRT: u32 = 0x02;

/// Option control: the option control register is locked.
pub const OPTLOCK: u32 = 0x02;

pub const KEY1: u32 = 0x45670123;

pub const KEY2: u32 = 0xCDEF89AB;

pub const OPTKEY1: u32 = 0x08192A3B;

pub const OPTKEY2: u32 = 0x4C5D6E7F;

pub const FLASH_START: usize = 0x08000000;

pub const FLASH_END: usize = 0x080FFFFF;

/// The highest parallelism: 64 bits at a time.
pub const DOUBLE_WORD: u32 = 3;

/// FlashState is used to track the current state and command of the flash.
#[derive(Clone, Copy, Debug, PartialEq, Eq, Structural)]
pub enum FlashState {
    Ready,
    Read,
    Write,
    Erase,
    WriteOption,
}

/// What the driver owes to its client after an interrupt. The client gets
/// its buffer back with the length of the operation.
#[derive(Debug, PartialEq, Eq)]
pub enum Event {
    ReadComplete(Vec<u8>, usize, Error),
    WriteComplete(Vec<u8>, usize, Error),
    EraseComplete(Error),
}

/// An [`Event`] as a value.
pub enum EventModel {
    ReadComplete(Seq<u8>, usize, Error),
    WriteComplete(Seq<u8>, usize, Error),
    EraseComplete(Error),
}

impl View for Event {
    type V = EventModel;

    open spec fn view(&self) -> EventModel {
        match *self {
            Event::ReadComplete(buffer, length, error) => EventModel::ReadComplete(
                buffer@,
                length,
                error,
            ),
            Event::WriteComplete(buffer, length, error) => EventModel::WriteComplete(
                buffer@,
                length,
                error,
            ),
            Event::EraseComplete(error) => EventModel::EraseComplete(error),
        }
    }
}

/// The events of a sequence as values.
pub open spec fn event_models(events: Seq<Event>) -> Seq<EventModel> {
    events.map_values(|event: Event| event@)
}

/// Which completion an event reports.
#[derive(Clone, Copy, Debug, PartialEq, Eq, Structural)]
pub enum Completion {
    Read,
    Write,
}

/// The driver as a value.
pub struct FlashModel {
    pub bus: Bus,
    pub client: bool,
    pub buffer: Option<Seq<u8>>,
    pub buffer_length: usize,
    pub write_address: usize,
    pub write_counter: usize,
    pub state: FlashState,
    pub deferred_call: bool,
}

/// The driver in the course of an interrupt: what it has come to and what
/// it owes so far.
pub struct Progress {
    pub flash: FlashModel,
    pub events: Seq<EventModel>,
}

impl FlashModel {
    pub open spec fn wf(self) -> bool {
        self.bus.values.len() == REGISTER_COUNT
    }

    pub open spec fn is_locked(self) -> bool {
        any_set(self.bus.values[CR as int], LOCK)
    }

    pub open spec fn is_locked_option(self) -> bool {
        any_set(self.bus.values[OCR as int], OPTLOCK)
    }

    pub open spec fn get_parallelism(self) -> u32 {
        field(self.bus.values[CR as int], PSIZE, PSIZE_SHIFT)
    }

    pub open spec fn with_bus(self, bus: Bus) -> FlashModel {
        FlashModel { bus, ..self }
    }

    pub open spec fn with_state(self, state: FlashState) -> FlashModel {
        FlashModel { state, ..self }
    }

    /// With both interrupts of the controller enabled.
    pub open spec fn enable(self) -> FlashModel {
        self.with_bus(self.bus.set(CR as int, EOPIE).set(CR as int, ERRIE))
    }

    pub open spec fn unlock(self) -> FlashModel {
        self.with_bus(self.bus.write(KR as int, KEY1).write(KR as int, KEY2))
    }

    pub open spec fn lock(self) -> FlashModel {
        self.with_bus(self.bus.set(CR as int, LOCK))
    }

    pub open spec fn unlock_option(self) -> FlashModel {
        self.with_bus(self.bus.write(OKR as int, OPTKEY1).write(OKR as int, OPTKEY2))
    }

    pub open spec fn lock_option(self) -> FlashModel {
        self.with_bus(self.bus.set(OCR as int, OPTLOCK))
    }

    pub open spec fn set_parallelism(self, parallelism: u32) -> FlashModel {
        self.with_bus(self.bus.modify(CR as int, PSIZE, parallelism << PSIZE_SHIFT))
    }

    /// Ready for an operation: unlocked if it was locked, interrupts enabled.
    pub open spec fn prepare(self) -> FlashModel {
        if self.is_locked() {
            self.unlock().enable()
        } else {
            self.enable()
        }
    }

    /// Whether the byte at the write counter can be programmed: it is
    /// within the buffer, and its address is one.
    pub open spec fn can_program(self) -> bool {
        self.buffer matches Some(buffer) ==> self.write_counter < buffer.len()
            && self.write_address + self.write_counter <= usize::MAX
    }

    /// With the byte at the write counter stored in the flash, if the
    /// driver holds a buffer.
    pub open spec fn program_byte(self) -> FlashModel {
        match self.buffer {
            Some(buffer) => self.with_bus(
                self.bus.store8(
                    (self.write_address + self.write_counter) as usize,
                    buffer[self.write_counter as int],
                ),
            ),
            None => self,
        }
    }

    /// Whether a write of `length` bytes at `address` is turned down.
    pub open spec fn out_of_flash(address: usize, length: usize) -> bool {
        address < FLASH_START && address + length > FLASH_END
    }

    /// With a write set up, before the first byte is programmed.
    pub open spec fn write_setup(self, buffer: Seq<u8>, address: usize, length: usize)
        -> FlashModel {
        let ready = self.prepare().with_state(FlashState::Write);
        FlashModel {
            bus: ready.bus.set(CR as int, PG),
            buffer: Some(buffer),
            buffer_length: length,
            write_address: address,
            ..ready
        }
    }

    /// With a write started. The first byte is programmed if the
    /// parallelism is one byte at a time.
    pub open spec fn write(self, buffer: Seq<u8>, address: usize, length: usize) -> FlashModel {
        let setup = self.write_setup(buffer, address, length);
        if setup.get_parallelism() == 0 {
            setup.program_byte()
        } else {
            setup
        }
    }

    /// `buffer` with its first `length` bytes taken from `memory`.
    pub open spec fn filled(buffer: Seq<u8>, memory: Seq<u8>, length: usize) -> Seq<u8> {
        memory.subrange(0, length as int) + buffer.subrange(length as int, buffer.len() as int)
    }

    pub open spec fn read(self, buffer: Seq<u8>, memory: Seq<u8>, length: usize) -> FlashModel {
        FlashModel {
            buffer: Some(Self::filled(buffer, memory, length)),
            state: FlashState::Read,
            deferred_call: true,
            ..self
        }
    }

    pub open spec fn erase_sector(self, sector_number: usize) -> FlashModel {
        let ready = self.prepare().with_state(FlashState::Erase);
        ready.with_bus(
            ready.bus.set(CR as int, SER).modify(
                CR as int,
                SNB,
                ((sector_number & 0xF) as u32) << SNB_SHIFT,
            ).set(CR as int, STRT),
        )
    }

    pub open spec fn erase_all(self) -> FlashModel {
        let ready = self.prepare().with_state(FlashState::Erase);
        ready.with_bus(ready.bus.set(CR as int, MER).set(CR as int, STRT))
    }

    pub open spec fn write_option(self, value: u32) -> FlashModel {
        let unlocked = if self.is_locked_option() {
            self.unlock_option()
        } else {
            self
        };
        let ready = unlocked.enable().with_state(FlashState::WriteOption);
        ready.with_bus(ready.bus.write(OCR as int, value).set(OCR as int, OPTSTRT))
    }

    /// The driver gives its buffer up to the client, if it has both.
    pub open spec fn hands_buffer_back(self) -> bool {
        self.client && self.buffer is Some
    }

    /// With the buffer handed back to the client, if there is a client and a
    /// buffer: the client is told of the `completion` with `error`.
    pub open spec fn complete(self, completion: Completion, error: Error) -> Progress {
        if self.hands_buffer_back() {
            Progress {
                flash: FlashModel { buffer: None, ..self },
                events: seq![
                    match completion {
                        Completion::Read => EventModel::ReadComplete(
                            self.buffer.unwrap(),
                            self.buffer_length,
                            error,
                        ),
                        Completion::Write => EventModel::WriteComplete(
                            self.buffer.unwrap(),
                            self.buffer_length,
                            error,
                        ),
                    },
                ],
            }
        } else {
            Progress { flash: self, events: Seq::empty() }
        }
    }

    /// With the client told that an erase ended with `error`, if there is a
    /// client.
    pub open spec fn erase_complete(self, error: Error) -> Progress {
        Progress {
            flash: self,
            events: if self.client {
                seq![EventModel::EraseComplete(error)]
            } else {
                Seq::empty()
            },
        }
    }

    /// After an end of operation was seen and acknowledged.
    pub open spec fn end_of_operation(self) -> Progress {
        let seen = self.with_bus(self.bus.set(SR as int, EOP));
        match self.state {
            FlashState::Write => if self.write_counter + 1 == self.buffer_length {
                FlashModel {
                    bus: seen.bus.clear(CR as int, PG),
                    state: FlashState::Ready,
                    write_counter: 0,
                    ..seen
                }.complete(Completion::Write, Error::CommandComplete)
            } else {
                Progress {
                    flash: FlashModel {
                        write_counter: (self.write_counter + 1) as usize,
                        ..seen
                    },
                    events: Seq::empty(),
                }
            },
            FlashState::Erase => FlashModel {
                bus: seen.bus.clear_if_set(CR as int, SER).clear_if_set(CR as int, MER),
                state: FlashState::Ready,
                ..seen
            }.erase_complete(Error::CommandComplete),
            _ => Progress { flash: seen, events: Seq::empty() },
        }
    }

    /// After the error that `flag` of the status register reports during a
    /// read or a write was seen and acknowledged.
    pub open spec fn error(self, flag: u32, completion: Completion, fault: FlashFault)
        -> Progress {
        self.with_bus(self.bus.set(SR as int, flag)).complete(
            completion,
            Error::FlashErrorSpecific(fault),
        )
    }

    /// After a write protection error was seen and acknowledged.
    pub open spec fn write_protection_error(self) -> Progress {
        let seen = self.with_bus(self.bus.set(SR as int, WRPERR));
        let error = Error::FlashErrorSpecific(FlashFault::WriteProtection);
        match self.state {
            FlashState::Write => seen.complete(Completion::Write, error),
            FlashState::Erase => seen.erase_complete(error),
            _ => Progress { flash: seen, events: Seq::empty() },
        }
    }

    /// The stages of an interrupt in their order. Each stage applies if its
    /// condition holds of the driver as the stages before have left it.
    pub open spec fn stage(self, stage: int) -> Progress {
        let status = self.bus.values[SR as int];
        if stage == 0 && any_set(status, EOP) {
            self.end_of_operation()
        } else if stage == 1 && any_set(status, RDERR) {
            self.error(RDERR, Completion::Read, FlashFault::ReadProtection)
        } else if stage == 2 && any_set(status, PGSERR) {
            self.error(PGSERR, Completion::Write, FlashFault::ProgrammingSequence)
        } else if stage == 3 && any_set(status, PGPERR) {
            self.error(PGPERR, Completion::Write, FlashFault::ProgrammingParallelism)
        } else if stage == 4 && any_set(status, PGAERR) {
            self.error(PGAERR, Completion::Write, FlashFault::ProgrammingAlignment)
        } else if stage == 5 && any_set(status, WRPERR) {
            self.write_protection_error()
        } else if stage == 6 && self.state == FlashState::Read {
            self.with_state(FlashState::Ready).complete(Completion::Read, Error::CommandComplete)
        } else {
            Progress { flash: self, events: Seq::empty() }
        }
    }

    /// After an interrupt: the driver and what it owes to its client.
    pub open spec fn interrupt(self) -> Progress {
        stages(Progress { flash: self, events: Seq::empty() }, STAGES as int)
    }
}

/// Number of stages of an interrupt.
pub const STAGES: u8 = 7;

/// The driver after the first `count` stages of an interrupt.
pub open spec fn stages(start: Progress, count: int) -> Progress
    decreases count,
{
    if count <= 0 {
        start
    } else {
        stages(start, count - 1).follow(count - 1)
    }
}

impl Progress {
    /// With one more stage gone through.
    pub open spec fn follow(self, stage: int) -> Progress {
        let next = self.flash.stage(stage);
        Progress { flash: next.flash, events: self.events + next.events }
    }
}

/// The driver of the flash controller. The view is the [`FlashModel`].
pub struct Flash {
    pub registers: RegisterBlock,
    /// Whether a client is registered for the completion of operations.
    pub client: bool,
    /// The buffer of the operation in progress.
    pub buffer: Option<Vec<u8>>,
    /// The length of the write in progress.
    pub buffer_length: usize,
    /// The address at which the write in progress began.
    pub write_address: usize,
    /// Number of bytes that the controller has reported as programmed.
    pub write_counter: usize,
    pub state: FlashState,
    /// Whether the driver has asked to be called back outside the interrupt.
    pub deferred_call: bool,
}

impl View for Flash {
    type V = FlashModel;

    open spec fn view(&self) -> FlashModel {
        FlashModel {
            bus: self.registers@,
            client: self.client,
            buffer: match self.buffer {
                Some(buffer) => Some(buffer@),
                None => None,
            },
            buffer_length: self.buffer_length,
            write_address: self.write_address,
            write_counter: self.write_counter,
            state: self.state,
            deferred_call: self.deferred_call,
        }
    }
}

impl Flash {
    /// A driver at rest: the registers read zero, nothing was issued, no
    /// client is registered.
    pub fn new() -> (flash: Flash)
        ensures
            flash@.wf(),
            flash@.bus.values == Seq::new(REGISTER_COUNT as nat, |i: int| 0u32),
            flash@.bus.log.len() == 0,
            !flash@.client,
            flash@.buffer is None,
            flash@.buffer_length == 0,
            flash@.write_address == 0,
            flash@.write_counter == 0,
            flash@.state == FlashState::Ready,
            !flash@.deferred_call,
    {
        Flash {
            registers: RegisterBlock::new(REGISTER_COUNT),
            client: false,
            buffer: None,
            buffer_length: 0,
            state: FlashState::Ready,
            write_address: 0,
            write_counter: 0,
            deferred_call: false,
        }
    }

    /// Registers a client: from now on completions are reported.
    pub fn set_client(&mut self)
        ensures
            final(self)@ == (FlashModel { client: true, ..old(self)@ }),
    {
        self.client = true;
    }

    /// Enables the interrupts of the controller.
    pub fn enable(&mut self)
        requires
            old(self)@.wf(),
        ensures
            final(self)@ == old(self)@.enable(),
            final(self)@.wf(),
    {
        self.registers.set(CR, EOPIE);
        self.registers.set(CR, ERRIE);
    }

    pub fn is_locked(&self) -> (locked: bool)
        requires
            self@.wf(),
        ensures
            locked == self@.is_locked(),
    {
        self.registers.is_set(CR, LOCK)
    }

    pub fn unlock(&mut self)
        requires
            old(self)@.wf(),
        ensures
            final(self)@ == old(self)@.unlock(),
            final(self)@.wf(),
    {
        self.registers.write(KR, KEY1);
        self.registers.write(KR, KEY2);
    }

    pub fn lock(&mut self)
        requires
            old(self)@.wf(),
        ensures
            final(self)@ == old(self)@.lock(),
            final(self)@.wf(),
    {
        self.registers.set(CR, LOCK);
    }

    pub fn is_locked_option(&self) -> (locked: bool)
        requires
            self@.wf(),
        ensures
            locked == self@.is_locked_option(),
    {
        self.registers.is_set(OCR, OPTLOCK)
    }

    pub fn unlock_option(&mut self)
        requires
            old(self)@.wf(),
        ensures
            final(self)@ == old(self)@.unlock_option(),
            final(self)@.wf(),
    {
        self.registers.write(OKR, OPTKEY1);
        self.registers.write(OKR, OPTKEY2);
    }

    pub fn lock_option(&mut self)
        requires
            old(self)@.wf(),
        ensures
            final(self)@ == old(self)@.lock_option(),
            final(self)@.wf(),
    {
        self.registers.set(OCR, OPTLOCK);
    }

    /// Configures the number of bytes programmed by each write: 0 for one
    /// byte, 1 for a halfword, 2 for a word, 3 for a double word. The time
    /// that an erase takes depends on it too.
    ///
    /// An operation started with a parallelism that does not agree with the
    /// supply voltage may have any result.
    pub fn set_parallelism(&mut self, parallelism: u32) -> (code: ReturnCode)
        requires
            old(self)@.wf(),
        ensures
            parallelism <= DOUBLE_WORD ==> code == ReturnCode::SUCCESS && final(self)@ == old(
                self,
            )@.set_parallelism(parallelism),
            parallelism > DOUBLE_WORD ==> code == ReturnCode::EINVAL && final(self)@ == old(
                self,
            )@,
            final(self)@.wf(),
    {
        if parallelism <= DOUBLE_WORD {
            self.registers.modify(CR, PSIZE, parallelism << PSIZE_SHIFT);
            ReturnCode::SUCCESS
        } else {
            ReturnCode::EINVAL
        }
    }

    pub fn get_parallelism(&self) -> (parallelism: u32)
        requires
            self@.wf(),
        ensures
            parallelism == self@.get_parallelism(),
    {
        self.registers.read_field(CR, PSIZE, PSIZE_SHIFT)
    }

    /// Unlocks the flash if it is locked, and enables the interrupts.
    fn prepare(&mut self)
        requires
            old(self)@.wf(),
        ensures
            final(self)@ == old(self)@.prepare(),
            final(self)@.wf(),
    {
        if self.is_locked() {
            self.unlock();
        }
        self.enable();
    }

    /// Stores the byte at the write counter in the flash.
    fn program_byte(&mut self)
        requires
            old(self)@.wf(),
            old(self)@.can_program(),
        ensures
            final(self)@ == old(self)@.program_byte(),
            final(self)@.wf(),
    {
        match &self.buffer {
            Some(buffer) => {
                let i: usize = self.write_counter;
                self.registers.store8(self.write_address + i, buffer[i]);
            },
            None => {},
        }
    }

    /// Hands the buffer back to the client, if there is a client and a
    /// buffer, and notes that the client is owed word of the `completion`.
    fn complete(&mut self, completion: Completion, error: Error, events: &mut Vec<Event>)
        ensures
            final(self)@ == old(self)@.complete(completion, error).flash,
            event_models(final(events)@) == event_models(old(events)@) + old(self)@.complete(
                completion,
                error,
            ).events,
    {
        if self.client {
            match self.buffer.take() {
                Some(buffer) => {
                    let event = match completion {
                        Completion::Read => Event::ReadComplete(buffer, self.buffer_length, error),
                        Completion::Write => Event::WriteComplete(
                            buffer,
                            self.buffer_length,
                            error,
                        ),
                    };
                    events.push(event);
                },
                None => {},
            }
        }
    }

    /// Notes that the client, if there is one, is owed word that an erase
    /// ended.
    fn erase_complete(&self, error: Error, events: &mut Vec<Event>)
        ensures
            event_models(final(events)@) == event_models(old(events)@) + self@.erase_complete(
                error,
            ).events,
    {
        if self.client {
            events.push(Event::EraseComplete(error));
        }
    }

    /// Acknowledges the error that `flag` reports and hands the buffer back.
    fn error(
        &mut self,
        flag: u32,
        completion: Completion,
        fault: FlashFault,
        events: &mut Vec<Event>,
    )
        requires
            old(self)@.wf(),
        ensures
            final(self)@ == old(self)@.error(flag, completion, fault).flash,
            event_models(final(events)@) == event_models(old(events)@) + old(self)@.error(
                flag,
                completion,
                fault,
            ).events,
            final(self)@.wf(),
    {
        // Cleared by writing a 1.
        self.registers.set(SR, flag);
        self.complete(completion, Error::FlashErrorSpecific(fault), events);
    }

    /// Acknowledges an end of operation and closes the operation that has
    /// ended.
    fn end_of_operation(&mut self, events: &mut Vec<Event>)
        requires
            old(self)@.wf(),
            old(self)@.state == FlashState::Write ==> old(self)@.write_counter < usize::MAX,
        ensures
            final(self)@ == old(self)@.end_of_operation().flash,
            event_models(final(events)@) == event_models(old(events)@) + old(
                self,
            )@.end_of_operation().events,
            final(self)@.wf(),
    {
        // Cleared by writing a 1.
        self.registers.set(SR, EOP);
        match self.state {
            FlashState::Write => {
                self.write_counter = self.write_counter + 1;
                if self.write_counter == self.buffer_length {
                    self.registers.clear(CR, PG);
                    self.state = FlashState::Ready;
                    self.write_counter = 0;
                    self.complete(Completion::Write, Error::CommandComplete, events);
                }
            },
            FlashState::Erase => {
                self.registers.clear_if_set(CR, SER);
                self.registers.clear_if_set(CR, MER);
                self.state = FlashState::Ready;
                self.erase_complete(Error::CommandComplete, events);
            },
            _ => {},
        }
    }

    /// Acknowledges a write protection error and tells the client of the
    /// operation that it ended.
    fn write_protection_error(&mut self, events: &mut Vec<Event>)
        requires
            old(self)@.wf(),
        ensures
            final(self)@ == old(self)@.write_protection_error().flash,
            event_models(final(events)@) == event_models(old(events)@) + old(
                self,
            )@.write_protection_error().events,
            final(self)@.wf(),
    {
        // Cleared by writing a 1.
        self.registers.set(SR, WRPERR);
        let error = Error::FlashErrorSpecific(FlashFault::WriteProtection);
        match self.state {
            FlashState::Write => {
                self.complete(Completion::Write, error, events);
            },
            FlashState::Erase => {
                self.erase_complete(error, events);
            },
            _ => {},
        }
    }

    /// Goes through one stage of an interrupt.
    fn stage(&mut self, stage: u8, events: &mut Vec<Event>)
        requires
            old(self)@.wf(),
            stage == 0 && old(self)@.state == FlashState::Write ==> old(self)@.write_counter
                < usize::MAX,
        ensures
            final(self)@ == old(self)@.stage(stage as int).flash,
            event_models(final(events)@) == event_models(old(events)@) + old(self)@.stage(
                stage as int,
            ).events,
            final(self)@.wf(),
    {
        if stage == 0 && self.registers.is_set(SR, EOP) {
            self.end_of_operation(events);
        } else if stage == 1 && self.registers.is_set(SR, RDERR) {
            self.error(RDERR, Completion::Read, FlashFault::ReadProtection, events);
        } else if stage == 2 && self.registers.is_set(SR, PGSERR) {
            self.error(PGSERR, Completion::Write, FlashFault::ProgrammingSequence, events);
        } else if stage == 3 && self.registers.is_set(SR, PGPERR) {
            self.error(PGPERR, Completion::Write, FlashFault::ProgrammingParallelism, events);
        } else if stage == 4 && self.registers.is_set(SR, PGAERR) {
            self.error(PGAERR, Completion::Write, FlashFault::ProgrammingAlignment, events);
        } else if stage == 5 && self.registers.is_set(SR, WRPERR) {
            self.write_protection_error(events);
        } else if stage == 6 && self.state == FlashState::Read {
            self.state = FlashState::Ready;
            self.complete(Completion::Read, Error::CommandComplete, events);
        }
    }

    /// Answers an interrupt of the controller, or a deferred call. Returns
    /// what is owed to the client, in order. The count of bytes programmed
    /// must have room for one more.
    pub fn handle_interrupt(&mut self) -> (events: Vec<Event>)
        requires
            old(self)@.wf(),
            old(self)@.state == FlashState::Write ==> old(self)@.write_counter < usize::MAX,
        ensures
            final(self)@ == old(self)@.interrupt().flash,
            event_models(events@) == old(self)@.interrupt().events,
            final(self)@.wf(),
    {
        let mut events: Vec<Event> = Vec::new();
        let ghost start = Progress { flash: self@, events: Seq::empty() };
        let mut stage: u8 = 0;
        while stage < STAGES
            invariant
                stage <= STAGES,
                self@.wf(),
                start.flash == old(self)@,
                self@ == stages(start, stage as int).flash,
                event_models(events@) == stages(start, stage as int).events,
                old(self)@.state == FlashState::Write ==> old(self)@.write_counter < usize::MAX,
            decreases STAGES - stage,
        {
            self.stage(stage, &mut events);
            stage = stage + 1;
        }
        events
    }

    /// Reads `length` bytes into the buffer and asks for a deferred call, in
    /// which the client will be told. `memory` is what the flash holds from
    /// the address of the read on. The buffer must have room for the bytes.
    pub fn read(&mut self, buffer: Vec<u8>, memory: &Vec<u8>, length: usize) -> (result: Result<
        (),
        (ReturnCode, Vec<u8>),
    >)
        requires
            old(self)@.wf(),
            length <= buffer@.len(),
            length <= memory@.len(),
        ensures
            result is Ok,
            final(self)@ == old(self)@.read(buffer@, memory@, length),
            final(self)@.wf(),
    {
        let mut buffer = buffer;
        let ghost given = buffer@;
        let mut i: usize = 0;
        while i < length
            invariant
                i <= length <= given.len(),
                length <= memory@.len(),
                buffer@ == FlashModel::filled(given, memory@, i),
            decreases length - i,
        {
            buffer.set(i, memory[i]);
            i = i + 1;
        }
        self.buffer = Some(buffer);
        self.state = FlashState::Read;
        self.deferred_call = true;
        Ok(())
    }

    /// Starts a write of `length` bytes from the buffer at `address`. A
    /// write that begins before the flash and ends past it gives the buffer
    /// back. Where the first byte is programmed at once, the byte at the
    /// write counter must be one that can be programmed.
    pub fn write(&mut self, buffer: Vec<u8>, address: usize, length: usize) -> (result: Result<
        (),
        (ReturnCode, Vec<u8>),
    >)
        requires
            old(self)@.wf(),
            address < FLASH_START ==> address + length <= usize::MAX,
            !FlashModel::out_of_flash(address, length) && old(self)@.write_setup(
                buffer@,
                address,
                length,
            ).get_parallelism() == 0 ==> old(self)@.write_setup(
                buffer@,
                address,
                length,
            ).can_program(),
        ensures
            FlashModel::out_of_flash(address, length) ==> result == Err::<
                (),
                (ReturnCode, Vec<u8>),
            >((ReturnCode::EINVAL, buffer)) && final(self)@ == old(self)@,
            !FlashModel::out_of_flash(address, length) ==> result is Ok && final(self)@ == old(
                self,
            )@.write(buffer@, address, length),
            final(self)@.wf(),
    {
        if address < FLASH_START && address + length > FLASH_END {
            return Err((ReturnCode::EINVAL, buffer));
        }
        self.prepare();
        self.state = FlashState::Write;
        self.registers.set(CR, PG);
        self.buffer = Some(buffer);
        self.buffer_length = length;
        self.write_address = address;
        if self.get_parallelism() == 0 {
            self.program_byte();
        }
        Ok(())
    }

    /// Starts the erasure of a sector.
    pub fn erase_sector(&mut self, sector_number: usize) -> (code: ReturnCode)
        requires
            old(self)@.wf(),
        ensures
            code == ReturnCode::SUCCESS,
            final(self)@ == old(self)@.erase_sector(sector_number),
            final(self)@.wf(),
    {
        self.prepare();
        self.state = FlashState::Erase;
        self.registers.set(CR, SER);
        assert(sector_number & 0xF <= 0xF) by (bit_vector);
        let sector: u32 = (sector_number & 0xF) as u32;
        self.registers.modify(CR, SNB, sector << SNB_SHIFT);
        self.registers.set(CR, STRT);
        ReturnCode::SUCCESS
    }

    /// Starts the erasure of all sectors.
    pub fn erase_all(&mut self) -> (code: ReturnCode)
        requires
            old(self)@.wf(),
        ensures
            code == ReturnCode::SUCCESS,
            final(self)@ == old(self)@.erase_all(),
            final(self)@.wf(),
    {
        self.prepare();
        self.state = FlashState::Erase;
        self.registers.set(CR, MER);
        self.registers.set(CR, STRT);
        ReturnCode::SUCCESS
    }

    /// Starts to program the option bytes with `value`.
    pub fn write_option(&mut self, value: u32) -> (code: ReturnCode)
        requires
            old(self)@.wf(),
        ensures
            code == ReturnCode::SUCCESS,
            final(self)@ == old(self)@.write_option(value),
            final(self)@.wf(),
    {
        if self.is_locked_option() {
            self.unlock_option();
        }
        self.enable();
        self.state = FlashState::WriteOption;
        self.registers.write(OCR, value);
        self.registers.set(OCR, OPTSTRT);
        ReturnCode::SUCCESS
    }

    /// Starts the erasure of the sector that `erase_identifier` names.
    pub fn erase(&mut self, erase_identifier: usize) -> (code: ReturnCode)
        requires
            old(self)@.wf(),
        ensures
            code == ReturnCode::SUCCESS,
            final(self)@ == old(self)@.erase_sector(erase_identifier),
            final(self)@.wf(),
    {
        self.erase_sector(erase_identifier)
    }
}

} // verus!
