//! A trial of the flash driver on one page: the page is erased, written from
//! a buffer and read back, each step started when the one before is done.

use crate::hil::Error;
use crate::stm32f303xc::flash::{Flash, FlashModel, StmF303Page, PAGE_SIZE};
use vstd::prelude::*;

verus! {

/// The page that the trial works on.
pub const TEST_PAGE: usize = 127;

pub struct FlashUser {
    pub buffer: Option<StmF303Page>,
}

/// The driver after the user has passed `buffer` to it to be written, if the
/// user had one.
pub open spec fn written(driver: FlashModel, buffer: Option<StmF303Page>) -> FlashModel {
    match buffer {
        Some(buffer) => driver.write_page(TEST_PAGE, buffer),
        None => driver,
    }
}

impl FlashUser {
    pub fn new(buffer: StmF303Page) -> (user: FlashUser)
        ensures
            user.buffer == Some(buffer),
    {
        FlashUser { buffer: Some(buffer) }
    }

    /// Starts the erasure of the test page.
    pub fn test_erase(&self, driver: &mut Flash)
        requires
            old(driver)@.wf(),
            !old(driver)@.is_busy(),
        ensures
            final(driver)@ == old(driver)@.erase_page(TEST_PAGE),
            final(driver)@.wf(),
    {
        driver.erase_page(TEST_PAGE);
    }

    /// Passes the buffer to the driver to be written to the test page. Does
    /// nothing without a buffer.
    pub fn test_write(&mut self, driver: &mut Flash)
        requires
            old(driver)@.wf(),
            !old(driver)@.is_busy(),
        ensures
            final(self).buffer is None,
            final(driver)@ == written(old(driver)@, old(self).buffer),
            final(driver)@.wf(),
    {
        match self.buffer.take() {
            Some(buffer) => {
                let _ = driver.write_page(TEST_PAGE, buffer);
            },
            None => {},
        }
    }

    /// Passes the buffer to the driver to take in the test page, which holds
    /// `memory`. Does nothing without a buffer.
    pub fn test_read(&mut self, driver: &mut Flash, memory: &StmF303Page)
        requires
            old(driver)@.wf(),
            !old(driver)@.is_busy(),
        ensures
            final(self).buffer is None,
            final(driver)@ == if old(self).buffer is Some {
                old(driver)@.read_page(*memory)
            } else {
                old(driver)@
            },
            final(driver)@.wf(),
    {
        match self.buffer.take() {
            Some(buffer) => {
                let _ = driver.read_page(TEST_PAGE, buffer, memory);
            },
            None => {},
        }
    }

    /// Starts the erasure of the option bytes.
    pub fn start_test_option(&self, driver: &mut Flash)
        requires
            old(driver)@.wf(),
            !old(driver)@.is_busy(),
        ensures
            final(driver)@ == old(driver)@.erase_option(),
            final(driver)@.wf(),
    {
        driver.erase_option();
    }

    /// The page was read: the trial ends. Returns the last three bytes of
    /// the page, which are its result.
    pub fn read_complete(&self, buffer: StmF303Page, error: Error) -> (last: [u8; 3])
        ensures
            last[0] == buffer.0[PAGE_SIZE - 3],
            last[1] == buffer.0[PAGE_SIZE - 2],
            last[2] == buffer.0[PAGE_SIZE - 1],
    {
        [buffer.0[2045], buffer.0[2046], buffer.0[2047]]
    }

    /// The page was written: it is read back into the buffer that the
    /// driver returns. `memory` is what the test page holds.
    pub fn write_complete(
        &self,
        driver: &mut Flash,
        buffer: StmF303Page,
        error: Error,
        memory: &StmF303Page,
    )
        requires
            old(driver)@.wf(),
            !old(driver)@.is_busy(),
        ensures
            final(driver)@ == old(driver)@.read_page(*memory),
            final(driver)@.wf(),
    {
        let _ = driver.read_page(TEST_PAGE, buffer, memory);
    }

    /// The page was erased: it is written from the buffer.
    pub fn erase_complete(&mut self, driver: &mut Flash, error: Error)
        requires
            old(driver)@.wf(),
            !old(driver)@.is_busy(),
        ensures
            final(self).buffer is None,
            final(driver)@ == written(old(driver)@, old(self).buffer),
            final(driver)@.wf(),
    {
        self.test_write(driver);
    }
}

} // verus!
