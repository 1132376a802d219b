//! Embedded flash memory controller.
//!
//! Used to read, program and erase the flash. The flash is programmed a
//! halfword at a time: the controller raises an interrupt after each, and
//! the driver answers with the next until the page is written.

use crate::hil::{Error, ReturnCode};
use crate::registers::{any_set, Bus, RegisterBlock};
use vstd::prelude::*;

verus! {

/// Flash access control register.
pub const ACR: usize = 0;

/// Flash key register.
pub const KR: usize = 1;

/// Flash option key register.
pub const OKR: usize = 2;

/// Flash status register.
pub const SR: usize = 3;

/// Flash control register.
pub const CR: usize = 4;

/// Flash address register.
pub const AR: usize = 5;

/// Flash option byte register.
pub const OBR: usize = 7;

/// Flash write protection register.
pub const WRPR: usize = 8;

/// Number of registers of the controller, the reserved one included.
pub const REGISTER_COUNT: usize = 9;

/// Status: end of operation. Set by the hardware when a flash operation is
/// completed, reset by writing a 1.
pub const EOP: u32 = 0x20;

/// Status: write protection error. Set by the hardware when a write
/// protected address is programmed.
pub const WRPRTERR: u32 = 0x10;

/// Status: programming error. Set by the hardware when an address to be
/// programmed does not hold 0xFFFF before programming.
pub const PGERR: u32 = 0x04;

/// Status: busy. A flash operation is in progress.
pub const BSY: u32 = 0x01;

/// Control: force option byte loading.
pub const OBLLAUNCH: u32 = 0x2000;

/// Control: end of operation interrupt enable.
pub const EOPIE: u32 = 0x1000;

/// Control: error interrupt enable.
pub const ERRIE: u32 = 0x0400;

/// Control: option bytes write enable.
pub const OPTWRE: u32 = 0x0200;

/// Control: the flash is locked.
pub const LOCK: u32 = 0x80;

/// Control: start of an erase operation.
pub const STRT: u32 = 0x40;

/// Control: option byte erase chosen.
pub const OPTER: u32 = 0x20;

/// Control: option byte programming chosen.
pub const OPTPG: u32 = 0x10;

/// Control: mass erase of all user pages chosen.
pub const MER: u32 = 0x04;

/// Control: page erase chosen.
pub const PER: u32 = 0x02;

/// Control: flash programming chosen.
pub const PG: u32 = 0x01;

/// The keys that unlock the flash and the option bytes, in their order.
pub const KEY1: u32 = 0x45670123;

pub const KEY2: u32 = 0xCDEF89AB;

pub const PAGE_SIZE: usize = 2048;

pub const PAGE_START: usize = 0x08000000;

pub const OPT_START: usize = 0x1FFFF800;

/// The highest page number that the driver takes.
pub const LAST_PAGE: usize = 128;

/// The highest number of an option byte.
pub const LAST_OPTION_BYTE: usize = 7;

/// A page of the flash.
#[derive(Debug, PartialEq, Eq)]
pub struct StmF303Page(pub [u8; 2048]);

impl Default for StmF303Page {
    fn default() -> (page: StmF303Page)
        ensures
            forall|i: int| 0 <= i < PAGE_SIZE ==> page.0[i] == 0,
    {
        StmF303Page([0u8; 2048])
    }
}

impl StmF303Page {
    pub fn len(&self) -> (len: usize)
        ensures
            len == PAGE_SIZE,
    {
        PAGE_SIZE
    }
}

/// The halfword that bytes `i` and `i + 1` of a page make up, low byte
/// first.
pub open spec fn halfword_at(page: StmF303Page, i: int) -> u16 {
    (page.0[i] as u16) | ((page.0[i + 1] as u16) << 8)
}

/// The address of the first byte of a page.
pub open spec fn page_address(page_number: usize) -> int {
    PAGE_START + page_number * PAGE_SIZE
}

#[derive(Clone, Copy, Debug, PartialEq, Eq, Structural)]
pub enum FlashState {
    /// Entry state.
    Ready,
    /// Read procedure.
    Read,
    /// Programming procedure.
    Write,
    /// Erase procedure.
    Erase,
    /// Option bytes programming procedure.
    WriteOption,
    /// Option bytes erase procedure.
    EraseOption,
}

/// A condition after which the driver cannot go on.
#[derive(Clone, Copy, Debug, PartialEq, Eq, Structural)]
pub enum Fatal {
    /// The option bytes were erased.
    OptionBytesErased,
    /// A write protected address was programmed.
    WriteProtected,
    /// An address was programmed that had not been erased.
    NotErased,
}

/// What the driver owes to the outside after an interrupt.
#[derive(Debug, PartialEq, Eq)]
pub enum Event {
    /// The client is told that the page was read, and gets the buffer back.
    ReadComplete(StmF303Page, Error),
    /// The client is told that the page was written, and gets the buffer
    /// back.
    WriteComplete(StmF303Page, Error),
    /// The client is told that the erase is done.
    EraseComplete(Error),
    /// The system halts.
    Halt(Fatal),
}

/// The driver as a value.
pub struct FlashModel {
    pub bus: Bus,
    pub client: bool,
    pub buffer: Option<StmF303Page>,
    pub state: FlashState,
    pub write_counter: usize,
    pub page_number: usize,
    pub deferred_call: bool,
}

/// The driver in the course of an interrupt: what it has come to, what it
/// owes so far, and whether it has halted.
pub struct Progress {
    pub flash: FlashModel,
    pub events: Seq<Event>,
    pub halted: bool,
}

impl FlashModel {
    /// The half-written page is within the flash and the next halfword
    /// within the page.
    pub open spec fn wf(self) -> bool {
        &&& self.bus.values.len() == REGISTER_COUNT
        &&& self.write_counter < PAGE_SIZE
        &&& self.write_counter % 2 == 0
        &&& self.page_number <= LAST_PAGE
    }

    pub open spec fn is_locked(self) -> bool {
        any_set(self.bus.values[CR as int], LOCK)
    }

    pub open spec fn is_busy(self) -> bool {
        any_set(self.bus.values[SR as int], BSY)
    }

    pub open spec fn with_bus(self, bus: Bus) -> FlashModel {
        FlashModel { bus, ..self }
    }

    pub open spec fn with_state(self, state: FlashState) -> FlashModel {
        FlashModel { state, ..self }
    }

    /// With both interrupts of the controller enabled.
    pub open spec fn enable(self) -> FlashModel {
        self.with_bus(self.bus.set(CR as int, EOPIE).set(CR as int, ERRIE))
    }

    /// With the key sequence written to the key register.
    pub open spec fn unlock(self) -> FlashModel {
        self.with_bus(self.bus.write(KR as int, KEY1).write(KR as int, KEY2))
    }

    pub open spec fn lock(self) -> FlashModel {
        self.with_bus(self.bus.set(CR as int, LOCK))
    }

    /// With the key sequence written to the option key register.
    pub open spec fn unlock_option(self) -> FlashModel {
        self.with_bus(self.bus.write(OKR as int, KEY1).write(OKR as int, KEY2))
    }

    /// Ready for an operation: unlocked if it was locked, interrupts enabled.
    pub open spec fn prepare(self) -> FlashModel {
        if self.is_locked() {
            self.unlock().enable()
        } else {
            self.enable()
        }
    }

    /// Ready for an operation on the option bytes.
    pub open spec fn prepare_option(self) -> FlashModel {
        self.unlock().unlock_option().enable()
    }

    pub open spec fn erase_page(self, page_number: usize) -> FlashModel {
        let ready = self.prepare().with_state(FlashState::Erase);
        ready.with_bus(
            ready.bus.set(CR as int, PER).write(AR as int, page_address(page_number) as u32).set(
                CR as int,
                STRT,
            ),
        )
    }

    pub open spec fn erase_all(self) -> FlashModel {
        let ready = self.prepare().with_state(FlashState::Erase);
        ready.with_bus(ready.bus.set(CR as int, MER).set(CR as int, STRT))
    }

    /// With the halfword at the write counter stored in the flash, if the
    /// driver holds a buffer.
    pub open spec fn program_halfword(self) -> FlashModel {
        match self.buffer {
            Some(buffer) => self.with_bus(
                self.bus.store16(
                    (page_address(self.page_number) + self.write_counter) as usize,
                    halfword_at(buffer, self.write_counter as int),
                ),
            ),
            None => self,
        }
    }

    pub open spec fn write_page(self, page_number: usize, buffer: StmF303Page) -> FlashModel {
        let ready = self.prepare().with_state(FlashState::Write);
        FlashModel {
            bus: ready.bus.set(CR as int, PG),
            buffer: Some(buffer),
            page_number,
            ..ready
        }.program_halfword()
    }

    pub open spec fn read_page(self, memory: StmF303Page) -> FlashModel {
        FlashModel {
            buffer: Some(memory),
            state: FlashState::Read,
            deferred_call: true,
            ..self
        }
    }

    pub open spec fn write_option(self, byte_nr: usize, byte: u8) -> FlashModel {
        let ready = self.prepare_option().with_state(FlashState::WriteOption);
        ready.with_bus(
            ready.bus.set(CR as int, OPTPG).store16(
                (OPT_START + byte_nr * 2) as usize,
                byte as u16,
            ),
        )
    }

    pub open spec fn erase_option(self) -> FlashModel {
        let ready = self.prepare_option().with_state(FlashState::EraseOption);
        ready.with_bus(ready.bus.set(CR as int, OPTER).set(CR as int, STRT))
    }

    /// The driver gives its buffer up to the client, if it has both.
    pub open spec fn hands_buffer_back(self) -> bool {
        self.client && self.buffer is Some
    }

    /// After an end of operation was seen and acknowledged.
    pub open spec fn end_of_operation(self) -> Progress {
        let seen = self.with_bus(self.bus.set(SR as int, EOP));
        match self.state {
            FlashState::Write => if self.write_counter + 2 == PAGE_SIZE {
                let done = FlashModel {
                    bus: seen.bus.clear(CR as int, PG),
                    state: FlashState::Ready,
                    write_counter: 0,
                    ..seen
                };
                if done.hands_buffer_back() {
                    Progress {
                        flash: FlashModel { buffer: None, ..done },
                        events: seq![
                            Event::WriteComplete(done.buffer.unwrap(), Error::CommandComplete),
                        ],
                        halted: false,
                    }
                } else {
                    Progress { flash: done, events: Seq::empty(), halted: false }
                }
            } else {
                Progress {
                    flash: FlashModel {
                        write_counter: (self.write_counter + 2) as usize,
                        ..seen
                    }.program_halfword(),
                    events: Seq::empty(),
                    halted: false,
                }
            },
            FlashState::Erase => Progress {
                flash: FlashModel {
                    bus: seen.bus.clear_if_set(CR as int, PER).clear_if_set(CR as int, MER),
                    state: FlashState::Ready,
                    ..seen
                },
                events: if self.client {
                    seq![Event::EraseComplete(Error::CommandComplete)]
                } else {
                    Seq::empty()
                },
                halted: false,
            },
            FlashState::WriteOption => Progress {
                flash: FlashModel {
                    bus: seen.bus.clear(CR as int, OPTPG),
                    state: FlashState::Ready,
                    ..seen
                },
                events: Seq::empty(),
                halted: false,
            },
            FlashState::EraseOption => Progress {
                flash: FlashModel {
                    bus: seen.bus.clear(CR as int, OPTER),
                    state: FlashState::Ready,
                    ..seen
                },
                events: seq![Event::Halt(Fatal::OptionBytesErased)],
                halted: true,
            },
            _ => Progress { flash: seen, events: Seq::empty(), halted: false },
        }
    }

    /// After a read was found to be done.
    pub open spec fn read_done(self) -> Progress {
        let done = self.with_state(FlashState::Ready);
        if done.hands_buffer_back() {
            Progress {
                flash: FlashModel { buffer: None, ..done },
                events: seq![Event::ReadComplete(done.buffer.unwrap(), Error::CommandComplete)],
                halted: false,
            }
        } else {
            Progress { flash: done, events: Seq::empty(), halted: false }
        }
    }

    /// After the error that `flag` of the status register reports was seen:
    /// programming is switched off, the flag acknowledged, the error
    /// interrupt disabled, and the system halts.
    pub open spec fn error(self, flag: u32, fatal: Fatal) -> Progress {
        Progress {
            flash: self.with_bus(
                self.bus.clear_if_set(CR as int, PG).clear_if_set(CR as int, OPTPG).set(
                    SR as int,
                    flag,
                ).clear(CR as int, ERRIE),
            ),
            events: seq![Event::Halt(fatal)],
            halted: true,
        }
    }

    /// The stages of an interrupt in their order. Each stage applies if its
    /// condition holds of the driver as the stages before have left it, and
    /// nothing follows a halt.
    pub open spec fn stage(self, stage: int) -> Progress {
        if stage == 0 && any_set(self.bus.values[SR as int], EOP) {
            self.end_of_operation()
        } else if stage == 1 && self.state == FlashState::Read {
            self.read_done()
        } else if stage == 2 && any_set(self.bus.values[SR as int], WRPRTERR) {
            self.error(WRPRTERR, Fatal::WriteProtected)
        } else if stage == 3 && any_set(self.bus.values[SR as int], PGERR) {
            self.error(PGERR, Fatal::NotErased)
        } else {
            Progress { flash: self, events: Seq::empty(), halted: false }
        }
    }

    /// After an interrupt: the driver and what it owes to the outside.
    pub open spec fn interrupt(self) -> Progress {
        let start = Progress { flash: self, events: Seq::empty(), halted: false };
        start.follow(0).follow(1).follow(2).follow(3)
    }
}

impl Progress {
    /// With one more stage gone through, unless the driver has halted.
    pub open spec fn follow(self, stage: int) -> Progress {
        if self.halted {
            self
        } else {
            let next = self.flash.stage(stage);
            Progress {
                flash: next.flash,
                events: self.events + next.events,
                halted: next.halted,
            }
        }
    }
}

/// The driver of the flash controller. The view is the [`FlashModel`].
pub struct Flash {
    pub registers: RegisterBlock,
    /// Whether a client is registered for the completion of operations.
    pub client: bool,
    /// The buffer of the operation in progress.
    pub buffer: Option<StmF303Page>,
    pub state: FlashState,
    /// Offset in the page of the halfword programmed last.
    pub write_counter: usize,
    /// The page that is written.
    pub page_number: usize,
    /// Whether the driver has asked to be called back outside the interrupt.
    pub deferred_call: bool,
}

impl View for Flash {
    type V = FlashModel;

    open spec fn view(&self) -> FlashModel {
        FlashModel {
            bus: self.registers@,
            client: self.client,
            buffer: self.buffer,
            state: self.state,
            write_counter: self.write_counter,
            page_number: self.page_number,
            deferred_call: self.deferred_call,
        }
    }
}

impl Flash {
    /// A driver at rest: the registers read zero, nothing was issued, no
    /// client is registered.
    pub fn new() -> (flash: Flash)
        ensures
            flash@.wf(),
            flash@.bus.values == Seq::new(REGISTER_COUNT as nat, |i: int| 0u32),
            flash@.bus.log.len() == 0,
            !flash@.client,
            flash@.buffer is None,
            flash@.state == FlashState::Ready,
            flash@.write_counter == 0,
            flash@.page_number == 0,
            !flash@.deferred_call,
    {
        Flash {
            registers: RegisterBlock::new(REGISTER_COUNT),
            client: false,
            buffer: None,
            state: FlashState::Ready,
            write_counter: 0,
            page_number: 0,
            deferred_call: false,
        }
    }

    /// Registers a client: from now on completions are reported.
    pub fn set_client(&mut self)
        ensures
            final(self)@ == (FlashModel { client: true, ..old(self)@ }),
    {
        self.client = true;
    }

    /// Enables the interrupts of the controller.
    pub fn enable(&mut self)
        requires
            old(self)@.wf(),
        ensures
            final(self)@ == old(self)@.enable(),
            final(self)@.wf(),
    {
        self.registers.set(CR, EOPIE);
        self.registers.set(CR, ERRIE);
    }

    pub fn is_locked(&self) -> (locked: bool)
        requires
            self@.wf(),
        ensures
            locked == self@.is_locked(),
    {
        self.registers.is_set(CR, LOCK)
    }

    pub fn unlock(&mut self)
        requires
            old(self)@.wf(),
        ensures
            final(self)@ == old(self)@.unlock(),
            final(self)@.wf(),
    {
        self.registers.write(KR, KEY1);
        self.registers.write(KR, KEY2);
    }

    pub fn lock(&mut self)
        requires
            old(self)@.wf(),
        ensures
            final(self)@ == old(self)@.lock(),
            final(self)@.wf(),
    {
        self.registers.set(CR, LOCK);
    }

    pub fn unlock_option(&mut self)
        requires
            old(self)@.wf(),
        ensures
            final(self)@ == old(self)@.unlock_option(),
            final(self)@.wf(),
    {
        self.registers.write(OKR, KEY1);
        self.registers.write(OKR, KEY2);
    }

    /// Unlocks the flash if it is locked, and enables the interrupts.
    fn prepare(&mut self)
        requires
            old(self)@.wf(),
        ensures
            final(self)@ == old(self)@.prepare(),
            final(self)@.wf(),
    {
        if self.is_locked() {
            self.unlock();
        }
        self.enable();
    }

    /// Hands the buffer to the client, if there is a client and a buffer.
    fn take_buffer(&mut self) -> (buffer: Option<StmF303Page>)
        ensures
            old(self)@.hands_buffer_back() ==> buffer == old(self)@.buffer && final(self)@ == (
            FlashModel { buffer: None, ..old(self)@ }),
            !old(self)@.hands_buffer_back() ==> buffer is None && final(self)@ == old(self)@,
    {
        if self.client {
            self.buffer.take()
        } else {
            None
        }
    }

    /// Answers an interrupt of the controller, or a deferred call. Returns
    /// what is owed to the outside, in order. After a halt nothing more is
    /// done.
    pub fn handle_interrupt(&mut self) -> (events: Vec<Event>)
        requires
            old(self)@.wf(),
        ensures
            final(self)@ == old(self)@.interrupt().flash,
            events@ == old(self)@.interrupt().events,
            final(self)@.wf(),
    {
        let mut events: Vec<Event> = Vec::new();

        if self.registers.is_set(SR, EOP) {
            // Reset by writing a 1.
            self.registers.set(SR, EOP);
            match self.state {
                FlashState::Write => {
                    self.write_counter = self.write_counter + 2;
                    if self.write_counter == PAGE_SIZE {
                        self.write_counter = 0;
                        self.registers.clear(CR, PG);
                        self.state = FlashState::Ready;
                        match self.take_buffer() {
                            Some(buffer) => {
                                events.push(Event::WriteComplete(buffer, Error::CommandComplete));
                            },
                            None => {},
                        }
                    } else {
                        self.program_halfword();
                    }
                },
                FlashState::Erase => {
                    self.registers.clear_if_set(CR, PER);
                    self.registers.clear_if_set(CR, MER);
                    self.state = FlashState::Ready;
                    if self.client {
                        events.push(Event::EraseComplete(Error::CommandComplete));
                    }
                },
                FlashState::WriteOption => {
                    self.registers.clear(CR, OPTPG);
                    self.state = FlashState::Ready;
                },
                FlashState::EraseOption => {
                    self.registers.clear(CR, OPTER);
                    self.state = FlashState::Ready;
                    events.push(Event::Halt(Fatal::OptionBytesErased));
                    return events;
                },
                _ => {},
            }
        }

        if self.state == FlashState::Read {
            self.state = FlashState::Ready;
            match self.take_buffer() {
                Some(buffer) => {
                    events.push(Event::ReadComplete(buffer, Error::CommandComplete));
                },
                None => {},
            }
        }

        if self.registers.is_set(SR, WRPRTERR) {
            self.halt_on_error(WRPRTERR);
            events.push(Event::Halt(Fatal::WriteProtected));
            return events;
        }

        if self.registers.is_set(SR, PGERR) {
            self.halt_on_error(PGERR);
            events.push(Event::Halt(Fatal::NotErased));
        }
        events
    }

    /// Switches programming off, acknowledges the error that `flag` reports
    /// and disables the error interrupt.
    fn halt_on_error(&mut self, flag: u32)
        requires
            old(self)@.wf(),
        ensures
            final(self)@ == old(self)@.error(flag, Fatal::NotErased).flash,
            final(self)@.wf(),
    {
        self.registers.clear_if_set(CR, PG);
        self.registers.clear_if_set(CR, OPTPG);
        self.registers.set(SR, flag);
        self.registers.clear(CR, ERRIE);
    }

    /// Starts the erasure of a page. The controller must not be busy.
    pub fn erase_page(&mut self, page_number: usize) -> (code: ReturnCode)
        requires
            old(self)@.wf(),
            page_number <= LAST_PAGE ==> !old(self)@.is_busy(),
        ensures
            page_number > LAST_PAGE ==> code == ReturnCode::EINVAL && final(self)@ == old(self)@,
            page_number <= LAST_PAGE ==> code == ReturnCode::SUCCESS && final(self)@ == old(
                self,
            )@.erase_page(page_number),
            final(self)@.wf(),
    {
        if page_number > LAST_PAGE {
            return ReturnCode::EINVAL;
        }
        self.prepare();
        self.state = FlashState::Erase;
        // Choose page erase mode.
        self.registers.set(CR, PER);
        self.registers.write(AR, (PAGE_START + page_number * PAGE_SIZE) as u32);
        self.registers.set(CR, STRT);
        ReturnCode::SUCCESS
    }

    /// Starts the erasure of all pages. The controller must not be busy.
    pub fn erase_all(&mut self) -> (code: ReturnCode)
        requires
            old(self)@.wf(),
            !old(self)@.is_busy(),
        ensures
            code == ReturnCode::SUCCESS,
            final(self)@ == old(self)@.erase_all(),
            final(self)@.wf(),
    {
        self.prepare();
        self.state = FlashState::Erase;
        // Choose mass erase mode.
        self.registers.set(CR, MER);
        self.registers.set(CR, STRT);
        ReturnCode::SUCCESS
    }

    /// Stores the halfword at the write counter in the flash.
    pub fn program_halfword(&mut self)
        requires
            old(self)@.wf(),
        ensures
            final(self)@ == old(self)@.program_halfword(),
            final(self)@.wf(),
    {
        match &self.buffer {
            Some(buffer) => {
                let i: usize = self.write_counter;
                let low: u16 = buffer.0[i] as u16;
                let high: u16 = buffer.0[i + 1] as u16;
                let halfword: u16 = low | (high << 8);
                let address: usize = PAGE_START + self.page_number * PAGE_SIZE + i;
                self.registers.store16(address, halfword);
            },
            None => {},
        }
    }

    /// Starts to write a page from the buffer. The controller must not be
    /// busy. A page number out of range gives the buffer back.
    pub fn write_page(&mut self, page_number: usize, buffer: StmF303Page) -> (result: Result<
        (),
        (ReturnCode, StmF303Page),
    >)
        requires
            old(self)@.wf(),
            page_number <= LAST_PAGE ==> !old(self)@.is_busy(),
        ensures
            page_number > LAST_PAGE ==> result == Err::<(), (ReturnCode, StmF303Page)>(
                (ReturnCode::EINVAL, buffer),
            ) && final(self)@ == old(self)@,
            page_number <= LAST_PAGE ==> result is Ok && final(self)@ == old(self)@.write_page(
                page_number,
                buffer,
            ),
            final(self)@.wf(),
    {
        if page_number > LAST_PAGE {
            return Err((ReturnCode::EINVAL, buffer));
        }
        self.prepare();
        self.state = FlashState::Write;
        // Choose programming mode.
        self.registers.set(CR, PG);
        self.buffer = Some(buffer);
        self.page_number = page_number;
        self.program_halfword();
        Ok(())
    }

    /// Reads a page into the buffer and asks for a deferred call, in which
    /// the client will be told. `memory` is what the page holds in the
    /// flash. The controller must not be busy. A page number out of range
    /// gives the buffer back.
    pub fn read_page(
        &mut self,
        page_number: usize,
        buffer: StmF303Page,
        memory: &StmF303Page,
    ) -> (result: Result<(), (ReturnCode, StmF303Page)>)
        requires
            old(self)@.wf(),
            page_number <= LAST_PAGE ==> !old(self)@.is_busy(),
        ensures
            page_number > LAST_PAGE ==> result == Err::<(), (ReturnCode, StmF303Page)>(
                (ReturnCode::EINVAL, buffer),
            ) && final(self)@ == old(self)@,
            page_number <= LAST_PAGE ==> result is Ok && final(self)@ == old(self)@.read_page(
                *memory,
            ),
            final(self)@.wf(),
    {
        if page_number > LAST_PAGE {
            return Err((ReturnCode::EINVAL, buffer));
        }
        let mut buffer = buffer;
        let mut i: usize = 0;
        while i < PAGE_SIZE
            invariant
                i <= PAGE_SIZE,
                forall|j: int| 0 <= j < i ==> buffer.0[j] == memory.0[j],
            decreases PAGE_SIZE - i,
        {
            buffer.0[i] = memory.0[i];
            i = i + 1;
        }
        assert(buffer.0 == memory.0);
        self.buffer = Some(buffer);
        self.state = FlashState::Read;
        self.deferred_call = true;
        Ok(())
    }

    /// Programs one of the 8 option bytes. The controller must not be busy.
    /// 0: RDP, 1: USER, 2: DATA0, 3: DATA1, 4: WRP0, 5: WRP1, 6: WRP2,
    /// 7: WRP3.
    pub fn write_option(&mut self, byte_nr: usize, byte: u8) -> (code: ReturnCode)
        requires
            old(self)@.wf(),
            byte_nr <= LAST_OPTION_BYTE ==> !old(self)@.is_busy(),
        ensures
            byte_nr > LAST_OPTION_BYTE ==> code == ReturnCode::EINVAL && final(self)@ == old(
                self,
            )@,
            byte_nr <= LAST_OPTION_BYTE ==> code == ReturnCode::SUCCESS && final(self)@ == old(
                self,
            )@.write_option(byte_nr, byte),
            final(self)@.wf(),
    {
        if byte_nr > LAST_OPTION_BYTE {
            return ReturnCode::EINVAL;
        }
        self.unlock();
        self.unlock_option();
        self.enable();
        self.state = FlashState::WriteOption;
        self.registers.set(CR, OPTPG);
        self.registers.store16(OPT_START + byte_nr * 2, byte as u16);
        ReturnCode::SUCCESS
    }

    /// Starts the erasure of the option bytes. The controller must not be
    /// busy.
    pub fn erase_option(&mut self) -> (code: ReturnCode)
        requires
            old(self)@.wf(),
            !old(self)@.is_busy(),
        ensures
            code == ReturnCode::SUCCESS,
            final(self)@ == old(self)@.erase_option(),
            final(self)@.wf(),
    {
        self.unlock();
        self.unlock_option();
        self.enable();
        self.state = FlashState::EraseOption;
        self.registers.set(CR, OPTER);
        self.registers.set(CR, STRT);
        ReturnCode::SUCCESS
    }
}

} // verus!
