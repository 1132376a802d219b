//! Component for a round-robin scheduler.

use crate::components::{initial_ring, initial_ring_holds_each_process_once};
use crate::kernel::Kernel;
use crate::process::AppId;
use crate::sched::round_robin::{RoundRobinProcessNode, RoundRobinSched};
use vstd::prelude::*;

verus! {

pub struct RoundRobinComponent<'a> {
    board_kernel: &'a Kernel,
}

impl<'a> RoundRobinComponent<'a> {
    pub fn new(board_kernel: &'a Kernel) -> (component: RoundRobinComponent<'a>)
        ensures
            component.kernel() == board_kernel,
    {
        RoundRobinComponent { board_kernel }
    }

    /// The kernel whose processes the scheduler will run.
    pub closed spec fn kernel(self) -> &'a Kernel {
        self.board_kernel
    }

    /// Builds the scheduler, with a node for each process in the first
    /// `num_procs` slots of the process table. Each process is in the ring
    /// once, in the order of the table: the first of them is the head. No
    /// process has been preempted.
    pub fn finalize(self, num_procs: usize) -> (scheduler: RoundRobinSched)
        requires
            num_procs <= self.kernel()@.len(),
        ensures
            scheduler@.ring == initial_ring(self.kernel()@, num_procs as int),
            scheduler@.ring.no_duplicates(),
            scheduler@.time_remaining == 0,
            !scheduler@.preempted,
    {
        let mut scheduler = RoundRobinSched::new();
        let mut i: usize = 0;
        while i < num_procs
            invariant
                i <= num_procs <= self.kernel()@.len(),
                scheduler@.ring == initial_ring(self.kernel()@, i as int),
                scheduler@.time_remaining == 0,
                !scheduler@.preempted,
            decreases num_procs - i,
        {
            let appid = AppId::new(i);
            if self.board_kernel.process(appid).is_some() {
                scheduler.processes.push_tail(RoundRobinProcessNode::new(appid));
            }
            i = i + 1;
        }
        proof {
            initial_ring_holds_each_process_once(self.kernel()@, num_procs as int);
        }
        scheduler
    }
}

} // verus!
