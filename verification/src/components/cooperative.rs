//! Component for a cooperative scheduler.

use crate::components::{initial_ring, initial_ring_holds_each_process_once};
use crate::kernel::Kernel;
use crate::process::AppId;
use crate::sched::cooperative::{CoopProcessNode, CooperativeSched};
use vstd::prelude::*;

verus! {

pub struct CooperativeComponent<'a> {
    board_kernel: &'a Kernel,
}

impl<'a> CooperativeComponent<'a> {
    pub fn new(board_kernel: &'a Kernel) -> (component: CooperativeComponent<'a>)
        ensures
            component.kernel() == board_kernel,
    {
        CooperativeComponent { board_kernel }
    }

    /// The kernel whose processes the scheduler will run.
    pub closed spec fn kernel(self) -> &'a Kernel {
        self.board_kernel
    }

    /// Builds the scheduler, with a node for each process in the first
    /// `num_procs` slots of the process table. Each process is in the ring
    /// once, in the order of the table: the first of them is the head.
    pub fn finalize(self, num_procs: usize) -> (scheduler: CooperativeSched)
        requires
            num_procs <= self.kernel()@.len(),
        ensures
            scheduler@ == initial_ring(self.kernel()@, num_procs as int),
            scheduler@.no_duplicates(),
    {
        let mut scheduler = CooperativeSched::new();
        let mut i: usize = 0;
        while i < num_procs
            invariant
                i <= num_procs <= self.kernel()@.len(),
                scheduler@ == initial_ring(self.kernel()@, i as int),
            decreases num_procs - i,
        {
            let appid = AppId::new(i);
            if self.board_kernel.process(appid).is_some() {
                scheduler.processes.push_tail(CoopProcessNode::new(appid));
            }
            i = i + 1;
        }
        proof {
            initial_ring_holds_each_process_once(self.kernel()@, num_procs as int);
        }
        scheduler
    }
}

} // verus!
