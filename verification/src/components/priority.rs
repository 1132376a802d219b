//! Component for a priority scheduler.

use crate::kernel::Kernel;
use crate::sched::priority::PrioritySched;
use vstd::prelude::*;

verus! {

pub struct PriorityComponent<'a> {
    board_kernel: &'a Kernel,
}

impl<'a> PriorityComponent<'a> {
    pub fn new(board_kernel: &'a Kernel) -> (component: PriorityComponent<'a>)
        ensures
            component.kernel() == board_kernel,
    {
        PriorityComponent { board_kernel }
    }

    /// The kernel whose processes the scheduler will run.
    pub closed spec fn kernel(self) -> &'a Kernel {
        self.board_kernel
    }

    /// Builds the scheduler. It needs no nodes: the process table is its
    /// queue.
    pub fn finalize(self) -> (scheduler: PrioritySched) {
        PrioritySched::new()
    }
}

} // verus!
