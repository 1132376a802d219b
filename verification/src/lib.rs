//! Scheduling core of a single-core embedded kernel, with the flash
//! controllers of two microcontroller families.
//!
//! The core decides which process the CPU executes next and for how long.
//! It is made of
//!
//! * the process table and the kernel loop ([`kernel`]), which puts the
//!   bottom halves of interrupts before deferred calls, deferred calls
//!   before processes, and sleeps when nothing is left to do;
//! * the execution engine ([`engine`]), which runs one process until there
//!   is a reason to stop, and accounts for its time;
//! * the policy interface ([`sched`]) and four policies: cooperative,
//!   round-robin, strict priority and multilevel feedback queue;
//! * the ready ring that the policies keep their processes in ([`list`]);
//! * the components that put a scheduler together at boot
//!   ([`components`]).
//!
//! Nothing here touches the hardware. What happens outside (a context
//! switch, a register access, a callback to a client) is asked of the
//! caller, who reports what came of it. The drivers of the flash
//! controllers ([`stm32f303xc`], [`stm32f4xx`]) work on registers as values
//! ([`registers`]) for the same reason.

pub mod components;
pub mod engine;
pub mod hil;
pub mod kernel;
pub mod list;
pub mod process;
pub mod registers;
pub mod sched;
pub mod search;
pub mod stm32f303xc;
pub mod stm32f3discovery;
pub mod stm32f4xx;
