//! What drivers and their clients say to each other.

use vstd::prelude::*;

verus! {

/// How a request ended.
#[allow(non_camel_case_types)]
#[derive(Clone, Copy, Debug, PartialEq, Eq, Structural)]
pub enum ReturnCode {
    /// The request was taken on.
    SUCCESS,
    /// Generic failure.
    FAIL,
    /// The driver is busy.
    EBUSY,
    /// The request is under way already.
    EALREADY,
    /// The component is powered down.
    EOFF,
    /// A reservation is needed first.
    ERESERVE,
    /// An argument is not valid.
    EINVAL,
    /// A size is not valid.
    ESIZE,
    /// The request was cancelled.
    ECANCEL,
    /// Memory is lacking.
    ENOMEM,
    /// The request is not supported.
    ENOSUPPORT,
    /// The device does not exist.
    ENODEVICE,
    /// The device is not installed.
    EUNINSTALLED,
    /// A packet was not acknowledged.
    ENOACK,
}

/// What a flash controller found wrong with an operation.
#[derive(Clone, Copy, Debug, PartialEq, Eq, Structural)]
pub enum FlashFault {
    /// The address read belongs to a part that is protected against reads.
    ReadProtection,
    /// A write reached the flash while the controller was not set up for it.
    ProgrammingSequence,
    /// The width of a write does not agree with the parallelism configured.
    ProgrammingParallelism,
    /// The data of a write does not fit in one row of the flash.
    ProgrammingAlignment,
    /// The address written or erased belongs to a part that is protected.
    WriteProtection,
}

/// How a flash operation ended, as told to the client.
#[derive(Clone, Copy, Debug, PartialEq, Eq, Structural)]
pub enum Error {
    /// The operation is complete.
    CommandComplete,
    /// The operation failed.
    FlashError,
    /// The operation failed for the reason given.
    FlashErrorSpecific(FlashFault),
}

} // verus!
