//! Multilevel feedback queue scheduling.
//!
//! The policy follows five rules:
//!
//! 1. Of two ready processes, the one in the higher queue runs.
//! 2. Processes of one queue run in turn, each for the timeslice of the
//!    queue.
//! 3. A process enters the system in the topmost queue.
//! 4. A process that has used up its allotment of time in a queue, however
//!    many times it gave up the CPU meanwhile, moves down one queue.
//! 5. After some period all processes move to the topmost queue.

use crate::engine::MIN_QUANTA_THRESHOLD_US;
use crate::kernel::Kernel;
use crate::list::{rotate_to, rotate_to_keeps_nodes, rotate_to_moves, List};
use crate::process::{runnable, AppId, Process};
use crate::sched::{Scheduler, StoppedExecutingReason};
use crate::search::{first, first_is, first_is_none, first_properties};
use vstd::multiset::Multiset;
use vstd::prelude::*;
use vstd::seq_lib::{lemma_multiset_commutative, to_multiset_build, to_multiset_remove};

verus! {

/// How often all processes are restored to the topmost queue.
pub const PRIORITY_REFRESH_PERIOD_MS: u32 = 5000;

pub const NUM_QUEUES: usize = 3;

/// The timeslice of queue `queue_idx`, in microseconds.
pub open spec fn queue_timeslice(queue_idx: int) -> u32 {
    if queue_idx == 0 {
        10000
    } else if queue_idx == 1 {
        20000
    } else {
        50000
    }
}

/// What a process is granted that has used `used` microseconds in queue
/// `queue_idx`: the rest of the timeslice of the queue, and never less than
/// the minimum that the execution engine asks for.
pub open spec fn timeslice_left(queue_idx: int, used: u32) -> u32 {
    if used + MIN_QUANTA_THRESHOLD_US <= queue_timeslice(queue_idx) {
        (queue_timeslice(queue_idx) - used) as u32
    } else {
        MIN_QUANTA_THRESHOLD_US
    }
}

/// The queue below `queue_idx`, or the lowest queue itself.
pub open spec fn queue_below(queue_idx: int) -> int {
    if queue_idx >= NUM_QUEUES - 1 {
        NUM_QUEUES - 1
    } else {
        queue_idx + 1
    }
}

/// What the policy keeps for each process.
#[derive(Clone, Copy, Debug, PartialEq, Eq, Structural)]
pub struct MfProcState {
    /// CPU time used by the process while in its current queue, in
    /// microseconds.
    pub us_used_this_queue: u32,
}

/// A node of a ready queue.
#[derive(Clone, Copy, Debug, PartialEq, Eq, Structural)]
pub struct MLFQProcessNode {
    /// The process that the node stands for.
    pub appid: AppId,
    pub state: MfProcState,
}

impl MLFQProcessNode {
    pub fn new(appid: AppId) -> (node: MLFQProcessNode)
        ensures
            node == MLFQProcessNode::with_time(appid, 0),
    {
        MLFQProcessNode { appid, state: MfProcState { us_used_this_queue: 0 } }
    }

    /// The node of `appid` with `used` microseconds on its account.
    pub open spec fn with_time(appid: AppId, used: u32) -> MLFQProcessNode {
        MLFQProcessNode { appid, state: MfProcState { us_used_this_queue: used } }
    }

    pub open spec fn used(self) -> u32 {
        self.state.us_used_this_queue
    }
}

/// Whether the node at position `i` of `queue` stands for a ready process of
/// `table`, as a function of `i`.
pub open spec fn ready_node_at(queue: Seq<MLFQProcessNode>, table: Seq<Option<Process>>)
    -> spec_fn(int) -> bool {
    |i: int| runnable(table, queue[i].appid.idx as int)
}

/// The position in `queue` of the first node that stands for a ready process.
pub open spec fn first_ready(queue: Seq<MLFQProcessNode>, table: Seq<Option<Process>>) -> Option<
    int,
> {
    first(ready_node_at(queue, table), queue.len() as int)
}

/// Whether queue `q` of `queues` holds a ready process, as a function of `q`.
pub open spec fn ready_queue_at(queues: Seq<Seq<MLFQProcessNode>>, table: Seq<Option<Process>>)
    -> spec_fn(int) -> bool {
    |q: int| first_ready(queues[q], table) is Some
}

/// The highest queue that holds a ready process.
pub open spec fn first_ready_queue(
    queues: Seq<Seq<MLFQProcessNode>>,
    table: Seq<Option<Process>>,
) -> Option<int> {
    first(ready_queue_at(queues, table), queues.len() as int)
}

/// The nodes of `queue` with nothing on their accounts.
pub open spec fn refreshed(queue: Seq<MLFQProcessNode>) -> Seq<MLFQProcessNode> {
    queue.map_values(|node: MLFQProcessNode| MLFQProcessNode::with_time(node.appid, 0))
}

/// The state of the multilevel feedback queue policy.
pub struct MLFQState {
    /// The queues, highest first, each from head to tail.
    pub queues: Seq<Seq<MLFQProcessNode>>,
    /// The alarm reading from which on the next refresh is due.
    pub next_reset: u32,
    /// The refresh period in ticks of the alarm.
    pub refresh_period: u32,
    /// The queue at whose head the process stands that was selected last and
    /// whose result has not come in.
    pub current: Option<usize>,
}

impl MLFQState {
    /// All processes in the topmost queue: those of the lower queues are
    /// appended to it in order, with nothing on their accounts. The
    /// processes of the topmost queue are not touched.
    pub open spec fn promoted(self) -> MLFQState {
        MLFQState {
            queues: seq![
                self.queues[0] + refreshed(self.queues[1]) + refreshed(self.queues[2]),
                Seq::empty(),
                Seq::empty(),
            ],
            next_reset: self.next_reset,
            refresh_period: self.refresh_period,
            current: self.current,
        }
    }

    /// The state at alarm reading `now` before a process is selected: when
    /// the refresh is due, all processes are promoted and the next refresh is
    /// set one period from `now`.
    pub open spec fn refresh(self, now: u32) -> MLFQState {
        if now >= self.next_reset {
            MLFQState {
                queues: self.promoted().queues,
                next_reset: now.wrapping_add(self.refresh_period),
                refresh_period: self.refresh_period,
                current: self.current,
            }
        } else {
            self
        }
    }

    /// The first ready node of the highest queue that has one comes to the
    /// head of its queue and is selected, with what is left of the timeslice
    /// of its queue.
    pub open spec fn select(self, table: Seq<Option<Process>>) -> (
        MLFQState,
        Option<AppId>,
        Option<u32>,
    ) {
        match first_ready_queue(self.queues, table) {
            Some(q) => {
                let k = first_ready(self.queues[q], table).unwrap();
                let node = self.queues[q][k];
                (
                    MLFQState {
                        queues: self.queues.update(q, rotate_to(self.queues[q], k)),
                        next_reset: self.next_reset,
                        refresh_period: self.refresh_period,
                        current: Some(q as usize),
                    },
                    Some(node.appid),
                    Some(timeslice_left(q, node.used())),
                )
            },
            None => (
                MLFQState {
                    queues: self.queues,
                    next_reset: self.next_reset,
                    refresh_period: self.refresh_period,
                    current: None,
                },
                None,
                None,
            ),
        }
    }

    /// The time used is added to the account of the process selected last,
    /// which goes to the tail of a queue: of the queue below if its timeslice
    /// expired and its account has reached the timeslice of its queue, with
    /// its account cleared; of its own queue if not.
    pub open spec fn account(self, reason: StoppedExecutingReason, time_used: Option<u32>)
        -> MLFQState {
        match self.current {
            Some(q) if self.queues[q as int].len() > 0 => {
                let node = self.queues[q as int][0];
                let used = charged(node.used(), time_used);
                let rest = self.queues.update(q as int, self.queues[q as int].drop_first());
                if demotes(q as int, used, reason) {
                    let below = queue_below(q as int);
                    MLFQState {
                        queues: rest.update(
                            below,
                            rest[below].push(MLFQProcessNode::with_time(node.appid, 0)),
                        ),
                        next_reset: self.next_reset,
                        refresh_period: self.refresh_period,
                        current: None,
                    }
                } else {
                    MLFQState {
                        queues: rest.update(
                            q as int,
                            rest[q as int].push(MLFQProcessNode::with_time(node.appid, used)),
                        ),
                        next_reset: self.next_reset,
                        refresh_period: self.refresh_period,
                        current: None,
                    }
                }
            },
            _ => MLFQState {
                queues: self.queues,
                next_reset: self.next_reset,
                refresh_period: self.refresh_period,
                current: None,
            },
        }
    }
}

/// An account of `used` microseconds after `time_used` more. The account
/// stops at the largest number that it can hold.
pub open spec fn charged(used: u32, time_used: Option<u32>) -> u32 {
    match time_used {
        Some(time) => used.saturating_add(time),
        None => used,
    }
}

/// Whether a process of queue `queue_idx` with `used` microseconds on its
/// account moves down after a stop for `reason`.
pub open spec fn demotes(queue_idx: int, used: u32, reason: StoppedExecutingReason) -> bool {
    reason == StoppedExecutingReason::TimesliceExpired && used >= queue_timeslice(queue_idx)
}

/// Multilevel feedback queue scheduler.
pub struct MLFQSched {
    /// The alarm reading from which on the next refresh is due.
    pub next_reset: u32,
    /// The refresh period in ticks of the alarm.
    pub refresh_period: u32,
    /// The queue of the process selected last, until its result comes in.
    pub current: Option<usize>,
    pub processes: [List<MLFQProcessNode>; 3],
}

impl View for MLFQSched {
    type V = MLFQState;

    open spec fn view(&self) -> MLFQState {
        MLFQState {
            queues: seq![self.processes[0]@, self.processes[1]@, self.processes[2]@],
            next_reset: self.next_reset,
            refresh_period: self.refresh_period,
            current: self.current,
        }
    }
}

impl MLFQSched {
    /// A scheduler without processes for an alarm that ticks
    /// `alarm_frequency` times a second. The refresh period must not be
    /// longer than the alarm can count.
    pub fn new(alarm_frequency: u32) -> (sched: MLFQSched)
        requires
            PRIORITY_REFRESH_PERIOD_MS * alarm_frequency / 1000 <= u32::MAX,
        ensures
            sched@.queues == seq![
                Seq::<MLFQProcessNode>::empty(),
                Seq::<MLFQProcessNode>::empty(),
                Seq::<MLFQProcessNode>::empty(),
            ],
            sched@.next_reset == 0,
            sched@.refresh_period == PRIORITY_REFRESH_PERIOD_MS * alarm_frequency / 1000,
            sched@.current is None,
            MLFQSched::inv(sched@),
    {
        let ticks: u64 = (PRIORITY_REFRESH_PERIOD_MS as u64) * (alarm_frequency as u64) / 1000;
        MLFQSched {
            next_reset: 0,
            refresh_period: ticks as u32,
            current: None,
            processes: [List::new(), List::new(), List::new()],
        }
    }

    pub fn get_timeslice_us(&self, queue_idx: usize) -> (timeslice: u32)
        requires
            queue_idx < NUM_QUEUES,
        ensures
            timeslice == queue_timeslice(queue_idx as int),
    {
        if queue_idx == 0 {
            10000
        } else if queue_idx == 1 {
            20000
        } else {
            50000
        }
    }

    /// Moves all processes to the topmost queue.
    pub fn redeem_all_procs(&mut self)
        ensures
            final(self)@ == old(self)@.promoted(),
    {
        let mut queue_idx: usize = 1;
        while queue_idx < NUM_QUEUES
            invariant
                1 <= queue_idx <= NUM_QUEUES,
                self.next_reset == old(self).next_reset,
                self.refresh_period == old(self).refresh_period,
                self.current == old(self).current,
                self.processes[0]@ == old(self).processes[0]@ + (if queue_idx > 1 {
                    refreshed(old(self).processes[1]@)
                } else {
                    Seq::empty()
                }) + (if queue_idx > 2 {
                    refreshed(old(self).processes[2]@)
                } else {
                    Seq::empty()
                }),
                self.processes[1]@ == if queue_idx > 1 {
                    Seq::empty()
                } else {
                    old(self).processes[1]@
                },
                self.processes[2]@ == if queue_idx > 2 {
                    Seq::empty()
                } else {
                    old(self).processes[2]@
                },
            decreases NUM_QUEUES - queue_idx,
        {
            let ghost top = self.processes[0]@;
            let ghost source = self.processes[queue_idx as int]@;
            let ghost other = self.processes[3 - queue_idx]@;
            let mut moved: usize = 0;
            let count: usize = self.processes[queue_idx].len();
            while moved < count
                invariant
                    1 <= queue_idx < NUM_QUEUES,
                    moved <= count == source.len(),
                    self.next_reset == old(self).next_reset,
                    self.refresh_period == old(self).refresh_period,
                    self.current == old(self).current,
                    self.processes[0]@ == top + refreshed(source.subrange(0, moved as int)),
                    self.processes[queue_idx as int]@ == source.subrange(
                        moved as int,
                        count as int,
                    ),
                    self.processes[3 - queue_idx]@ == other,
                decreases count - moved,
            {
                let head = self.processes[queue_idx].pop_head();
                match head {
                    Some(node) => {
                        self.processes[0].push_tail(MLFQProcessNode::new(node.appid));
                    },
                    None => {},
                }
                moved = moved + 1;
            }
            queue_idx = queue_idx + 1;
        }
    }

    /// The position in `queue` of the first node whose process is ready.
    fn find_ready(queue: &List<MLFQProcessNode>, kernel: &Kernel) -> (found: Option<usize>)
        ensures
            match found {
                Some(k) => first_ready(queue@, kernel@) == Some(k as int) && k < queue@.len(),
                None => first_ready(queue@, kernel@) is None,
            },
    {
        let ghost ready = ready_node_at(queue@, kernel@);
        let n: usize = queue.len();
        let mut i: usize = 0;
        while i < n
            invariant
                i <= n == queue@.len(),
                ready == ready_node_at(queue@, kernel@),
                forall|j: int| 0 <= j < i ==> !#[trigger] ready(j),
            decreases n - i,
        {
            if kernel.process_ready(queue.get(i).appid) {
                proof {
                    first_is(ready, n as int, i as int);
                }
                return Some(i);
            }
            i = i + 1;
        }
        proof {
            first_is_none(ready, n as int);
        }
        None
    }

    /// Finds the first node that stands for a ready process in the highest
    /// queue that holds one, and brings it to the head of its queue. Returns
    /// the node and the number of its queue.
    pub fn get_next_ready_process_node(&mut self, kernel: &Kernel) -> (found: (
        Option<MLFQProcessNode>,
        usize,
    ))
        ensures
            final(self)@.next_reset == old(self)@.next_reset,
            final(self)@.refresh_period == old(self)@.refresh_period,
            final(self)@.current == old(self)@.current,
            match first_ready_queue(old(self)@.queues, kernel@) {
                Some(q) => {
                    let k = first_ready(old(self)@.queues[q], kernel@).unwrap();
                    &&& found == (Some(old(self)@.queues[q][k]), q as usize)
                    &&& final(self)@.queues == old(self)@.queues.update(
                        q,
                        rotate_to(old(self)@.queues[q], k),
                    )
                },
                None => found == (None::<MLFQProcessNode>, 0usize) && final(self)@.queues == old(
                    self,
                )@.queues,
            },
    {
        let ghost queues = self@.queues;
        let ghost ready = ready_queue_at(queues, kernel@);
        let mut queue_idx: usize = 0;
        while queue_idx < NUM_QUEUES
            invariant
                queue_idx <= NUM_QUEUES,
                *self == *old(self),
                queues == self@.queues,
                ready == ready_queue_at(queues, kernel@),
                forall|q: int| 0 <= q < queue_idx ==> !#[trigger] ready(q),
            decreases NUM_QUEUES - queue_idx,
        {
            match Self::find_ready(&self.processes[queue_idx], kernel) {
                Some(k) => {
                    proof {
                        first_is(ready, NUM_QUEUES as int, queue_idx as int);
                    }
                    let node = *self.processes[queue_idx].get(k);
                    self.processes[queue_idx].rotate_to(k);
                    return (Some(node), queue_idx);
                },
                None => {},
            }
            queue_idx = queue_idx + 1;
        }
        proof {
            first_is_none(ready, NUM_QUEUES as int);
        }
        (None, 0)
    }
}

impl Scheduler for MLFQSched {
    /// There are three queues, the process selected last stands in one of
    /// them, and no process stands in the queues twice.
    open spec fn inv(model: MLFQState) -> bool {
        &&& model.queues.len() == NUM_QUEUES
        &&& model.current matches Some(q) ==> q < NUM_QUEUES
        &&& all_ids(model.queues).no_duplicates()
    }

    open spec fn preemptive() -> bool {
        true
    }

    open spec fn strict() -> bool {
        false
    }

    /// The first refresh is due one period after the start.
    open spec fn setup_spec(model: MLFQState, now: u32) -> MLFQState {
        MLFQState {
            queues: model.queues,
            next_reset: now.wrapping_add(model.refresh_period),
            refresh_period: model.refresh_period,
            current: None,
        }
    }

    open spec fn next_spec(model: MLFQState, table: Seq<Option<Process>>, now: u32) -> (
        MLFQState,
        Option<AppId>,
        Option<u32>,
    ) {
        model.refresh(now).select(table)
    }

    open spec fn result_spec(
        model: MLFQState,
        reason: StoppedExecutingReason,
        time_used: Option<u32>,
    ) -> MLFQState {
        model.account(reason, time_used)
    }

    fn setup(&mut self, now: u32, timer_is_dummy: bool) {
        self.next_reset = now.wrapping_add(self.refresh_period);
        self.current = None;
    }

    fn next(&mut self, kernel: &Kernel, now: u32) -> (selection: (Option<AppId>, Option<u32>)) {
        proof {
            selection_keeps_processes(self@, kernel@, now);
            same_processes_stay_distinct(
                self@.queues,
                MLFQSched::next_spec(self@, kernel@, now).0.queues,
            );
        }
        if now >= self.next_reset {
            self.redeem_all_procs();
            self.next_reset = now.wrapping_add(self.refresh_period);
        }
        let (found, queue_idx) = self.get_next_ready_process_node(kernel);
        match found {
            Some(node) => {
                let full: u32 = self.get_timeslice_us(queue_idx);
                let used: u32 = node.state.us_used_this_queue;
                let timeslice: u32 = if used <= full - MIN_QUANTA_THRESHOLD_US {
                    full - used
                } else {
                    MIN_QUANTA_THRESHOLD_US
                };
                self.current = Some(queue_idx);
                (Some(node.appid), Some(timeslice))
            },
            None => {
                self.current = None;
                (None, None)
            },
        }
    }

    fn result(&mut self, reason: StoppedExecutingReason, time_used: Option<u32>) {
        proof {
            result_keeps_processes(self@, reason, time_used);
            same_processes_stay_distinct(
                self@.queues,
                MLFQSched::result_spec(self@, reason, time_used).queues,
            );
        }
        let current = self.current;
        self.current = None;
        match current {
            Some(queue_idx) => {
                match self.processes[queue_idx].pop_head() {
                    Some(node) => {
                        let used: u32 = match time_used {
                            Some(time) => node.state.us_used_this_queue.saturating_add(time),
                            None => node.state.us_used_this_queue,
                        };
                        if reason == StoppedExecutingReason::TimesliceExpired && used
                            >= self.get_timeslice_us(queue_idx) {
                            let next_queue: usize = if queue_idx == NUM_QUEUES - 1 {
                                queue_idx
                            } else {
                                queue_idx + 1
                            };
                            self.processes[next_queue].push_tail(MLFQProcessNode::new(node.appid));
                        } else {
                            self.processes[queue_idx].push_tail(
                                MLFQProcessNode {
                                    appid: node.appid,
                                    state: MfProcState { us_used_this_queue: used },
                                },
                            );
                        }
                        assert(self@.queues =~= old(self)@.account(reason, time_used).queues);
                    },
                    None => {},
                }
            },
            None => {},
        }
    }

    fn bottom_half_strict(&self) -> (strict: bool) {
        false
    }

    fn needs_timer(&self) -> (needed: bool) {
        true
    }
}

/// What is known of a selection: the queue selected is one of the three,
/// none above it holds a ready process, and the process selected is the
/// first ready one of its queue and stands at the head of it afterwards.
pub proof fn selection_properties(model: MLFQState, table: Seq<Option<Process>>)
    requires
        model.queues.len() == NUM_QUEUES,
    ensures
        ({
            let (selected_model, selected, timeslice) = model.select(table);
            match selected {
                Some(appid) => {
                    &&& selected_model.current matches Some(q)
                    &&& q < NUM_QUEUES
                    &&& first_ready(model.queues[q as int], table) matches Some(k)
                    &&& 0 <= k < model.queues[q as int].len()
                    &&& runnable(table, appid.idx as int)
                    &&& model.queues[q as int][k].appid == appid
                    &&& selected_model.queues[q as int].len() == model.queues[q as int].len()
                    &&& selected_model.queues[q as int][0] == model.queues[q as int][k]
                    &&& timeslice == Some(
                        timeslice_left(q as int, model.queues[q as int][k].used()),
                    )
                    &&& forall|above: int|
                        0 <= above < q ==> first_ready(model.queues[above], table) is None
                    &&& forall|other: int|
                        0 <= other < NUM_QUEUES && other != q ==> selected_model.queues[other]
                            == model.queues[other]
                },
                None => {
                    &&& selected_model.queues == model.queues
                    &&& selected_model.current is None
                    &&& timeslice is None
                    &&& forall|q: int|
                        0 <= q < NUM_QUEUES ==> first_ready(model.queues[q], table) is None
                },
            }
        }),
{
    let ready_queue = ready_queue_at(model.queues, table);
    first_properties(ready_queue, NUM_QUEUES as int);
    match first_ready_queue(model.queues, table) {
        Some(q) => {
            let queue = model.queues[q];
            let ready_node = ready_node_at(queue, table);
            first_properties(ready_node, queue.len() as int);
            let k = first_ready(queue, table).unwrap();
            rotate_to_moves(queue, k, k);
            assert forall|above: int| 0 <= above < q implies first_ready(
                model.queues[above],
                table,
            ) is None by {
                assert(!ready_queue(above));
            }
        },
        None => {
            assert forall|q: int| 0 <= q < NUM_QUEUES implies first_ready(
                model.queues[q],
                table,
            ) is None by {
                assert(!ready_queue(q));
            }
        },
    }
}

/// Whether a node of `queue` stands for the process `appid`.
pub open spec fn holds(queue: Seq<MLFQProcessNode>, appid: AppId) -> bool {
    exists|p: int| 0 <= p < queue.len() && (#[trigger] queue[p]).appid == appid
}

/// Once the refresh is due, the next selection leaves every process in the
/// topmost queue: the lower queues are empty, each process that stood in any
/// queue stands in the topmost one, and the next refresh is due one period
/// later.
pub proof fn refresh_promotes_all_processes(
    model: MLFQState,
    table: Seq<Option<Process>>,
    now: u32,
)
    requires
        MLFQSched::inv(model),
        now >= model.next_reset,
    ensures
        ({
            let after = MLFQSched::next_spec(model, table, now).0;
            &&& after.queues.len() == NUM_QUEUES
            &&& after.queues[1].len() == 0
            &&& after.queues[2].len() == 0
            &&& after.next_reset == now.wrapping_add(model.refresh_period)
            &&& forall|q: int, k: int|
                0 <= q < NUM_QUEUES && 0 <= k < model.queues[q].len() ==> holds(
                    after.queues[0],
                    (#[trigger] model.queues[q][k]).appid,
                )
        }),
{
    let promoted = model.refresh(now);
    let top = promoted.queues[0];
    let after = MLFQSched::next_spec(model, table, now).0;
    selection_properties(promoted, table);
    assert forall|q: int, k: int|
        0 <= q < NUM_QUEUES && 0 <= k < model.queues[q].len() implies holds(
        after.queues[0],
        (#[trigger] model.queues[q][k]).appid,
    ) by {
        let at: int = if q == 0 {
            k
        } else if q == 1 {
            model.queues[0].len() + k
        } else {
            model.queues[0].len() + model.queues[1].len() + k
        };
        assert(top[at].appid == model.queues[q][k].appid);
        if promoted.select(table).1 is Some {
            rotate_to_moves(top, first_ready(top, table).unwrap(), at);
        }
    }
}

/// One scheduling round: a process is selected at alarm reading `now` from
/// the process table `table`, and its execution ends for `reason` after
/// `time_used` microseconds.
pub struct Round {
    pub now: u32,
    pub table: Seq<Option<Process>>,
    pub reason: StoppedExecutingReason,
    pub time_used: Option<u32>,
}

/// The state of the policy after `round`.
pub open spec fn after_round(model: MLFQState, round: Round) -> MLFQState {
    MLFQSched::result_spec(
        MLFQSched::next_spec(model, round.table, round.now).0,
        round.reason,
        round.time_used,
    )
}

/// The state of the policy after `rounds`.
pub open spec fn after_rounds(model: MLFQState, rounds: Seq<Round>) -> MLFQState
    decreases rounds.len(),
{
    if rounds.len() == 0 {
        model
    } else {
        after_round(after_rounds(model, rounds.drop_last()), rounds.last())
    }
}

/// Whether the processes are promoted in round `i` of `rounds`: the refresh
/// is due when that round begins.
pub open spec fn promotes_in(model: MLFQState, rounds: Seq<Round>, i: int) -> bool {
    &&& 0 <= i < rounds.len()
    &&& rounds[i].now >= after_rounds(model, rounds.take(i)).next_reset
}

/// As long as no round promotes, the refresh stays due when it was.
proof fn refresh_waits(model: MLFQState, rounds: Seq<Round>)
    requires
        forall|i: int| !promotes_in(model, rounds, i),
    ensures
        after_rounds(model, rounds).next_reset == model.next_reset,
    decreases rounds.len(),
{
    if rounds.len() > 0 {
        let before = rounds.drop_last();
        assert forall|i: int| !promotes_in(model, before, i) by {
            if 0 <= i < before.len() {
                assert(before.take(i) =~= rounds.take(i));
                assert(!promotes_in(model, rounds, i));
            }
        }
        refresh_waits(model, before);
        assert(rounds.take(rounds.len() - 1) =~= before);
        assert(!promotes_in(model, rounds, rounds.len() - 1));
    }
}

/// No process waits for its promotion longer than one refresh period: of
/// scheduling rounds that begin at readings of the alarm that span a period
/// or more, one promotes all processes to the topmost queue. The refresh
/// must not be set further ahead of the first round than one period, as it
/// is after the setup and after every promotion.
pub proof fn refresh_comes_within_a_period(model: MLFQState, rounds: Seq<Round>)
    requires
        rounds.len() > 0,
        model.next_reset <= rounds.first().now + model.refresh_period,
        rounds.last().now >= rounds.first().now + model.refresh_period,
    ensures
        exists|i: int| promotes_in(model, rounds, i),
{
    if forall|i: int| !promotes_in(model, rounds, i) {
        let before = rounds.drop_last();
        assert forall|i: int| !promotes_in(model, before, i) by {
            if 0 <= i < before.len() {
                assert(before.take(i) =~= rounds.take(i));
                assert(!promotes_in(model, rounds, i));
            }
        }
        refresh_waits(model, before);
        assert(rounds.take(rounds.len() - 1) =~= before);
        assert(promotes_in(model, rounds, rounds.len() - 1));
    }
}

/// After a selection at a reading of the alarm that does not wrap it, the
/// refresh is set no further ahead than one period, if it was not before.
pub proof fn refresh_is_set_within_a_period(
    model: MLFQState,
    table: Seq<Option<Process>>,
    now: u32,
)
    requires
        now + model.refresh_period <= u32::MAX,
        model.next_reset <= now + model.refresh_period,
    ensures
        MLFQSched::next_spec(model, table, now).0.next_reset <= now + model.refresh_period,
        MLFQSched::next_spec(model, table, now).0.refresh_period == model.refresh_period,
{
}

/// A process that runs through all of the timeslice it was selected with
/// moves down: after the result of such an execution it stands at the tail
/// of the queue below its own, or of the lowest queue if that was its own,
/// with nothing on its account.
pub proof fn full_timeslice_demotes(model: MLFQState, table: Seq<Option<Process>>, now: u32)
    requires
        MLFQSched::inv(model),
    ensures
        ({
            let (selected_model, selected, timeslice) = MLFQSched::next_spec(model, table, now);
            let after = MLFQSched::result_spec(
                selected_model,
                StoppedExecutingReason::TimesliceExpired,
                timeslice,
            );
            selected matches Some(appid) ==> {
                &&& selected_model.current matches Some(q)
                &&& q < NUM_QUEUES
                &&& q < NUM_QUEUES - 1 ==> queue_below(q as int) == q + 1
                &&& after.queues[queue_below(q as int)].len() > 0
                &&& after.queues[queue_below(q as int)].last() == MLFQProcessNode::with_time(
                    appid,
                    0,
                )
            }
        }),
{
    selection_properties(model.refresh(now), table);
}

/// After a result, the process selected last has the time used added to
/// its account if it stays in its queue, and a cleared account if it moves
/// down; either way it stands at the tail of its queue.
pub proof fn result_settles_account(
    model: MLFQState,
    reason: StoppedExecutingReason,
    time_used: u32,
)
    requires
        MLFQSched::inv(model),
        model.current matches Some(q) && model.queues[q as int].len() > 0,
    ensures
        ({
            let q = model.current.unwrap() as int;
            let node = model.queues[q][0];
            let used = charged(node.used(), Some(time_used));
            let after = MLFQSched::result_spec(model, reason, Some(time_used));
            &&& node.used() + time_used <= u32::MAX ==> used == node.used() + time_used
            &&& demotes(q, used, reason) ==> after.queues[queue_below(q)].last()
                == MLFQProcessNode::with_time(node.appid, 0)
            &&& !demotes(q, used, reason) ==> after.queues[q].last() == MLFQProcessNode::with_time(
                node.appid,
                used,
            )
        }),
{
}

/// The processes that the nodes of a queue stand for, from head to tail.
pub open spec fn queue_ids(queue: Seq<MLFQProcessNode>) -> Seq<AppId> {
    queue.map_values(|node: MLFQProcessNode| node.appid)
}

/// The processes that stand in the three queues, each as often as a node
/// stands for it.
pub open spec fn processes_in(queues: Seq<Seq<MLFQProcessNode>>) -> Multiset<AppId> {
    queue_ids(queues[0]).to_multiset().add(queue_ids(queues[1]).to_multiset()).add(
        queue_ids(queues[2]).to_multiset(),
    )
}

/// The processes that stand in the three queues, from the head of the
/// topmost queue to the tail of the lowest.
pub open spec fn all_ids(queues: Seq<Seq<MLFQProcessNode>>) -> Seq<AppId> {
    queue_ids(queues[0]) + queue_ids(queues[1]) + queue_ids(queues[2])
}

/// Queues that hold the same processes as queues in which no process stands
/// twice hold no process twice either.
pub proof fn same_processes_stay_distinct(
    before: Seq<Seq<MLFQProcessNode>>,
    after: Seq<Seq<MLFQProcessNode>>,
)
    requires
        all_ids(before).no_duplicates(),
        processes_in(after) == processes_in(before),
    ensures
        all_ids(after).no_duplicates(),
{
    broadcast use vstd::multiset::group_multiset_axioms;

    lemma_multiset_commutative(queue_ids(before[0]) + queue_ids(before[1]), queue_ids(before[2]));
    lemma_multiset_commutative(queue_ids(before[0]), queue_ids(before[1]));
    lemma_multiset_commutative(queue_ids(after[0]) + queue_ids(after[1]), queue_ids(after[2]));
    lemma_multiset_commutative(queue_ids(after[0]), queue_ids(after[1]));
    all_ids(before).lemma_multiset_has_no_duplicates();
    all_ids(after).lemma_multiset_has_no_duplicates_conv();
}

/// A selection neither adds a process to the queues nor loses one, whether
/// or not it promotes them first.
pub proof fn selection_keeps_processes(model: MLFQState, table: Seq<Option<Process>>, now: u32)
    requires
        MLFQSched::inv(model),
    ensures
        processes_in(MLFQSched::next_spec(model, table, now).0.queues) == processes_in(
            model.queues,
        ),
{
    broadcast use vstd::multiset::group_multiset_axioms;

    let refreshed_model = model.refresh(now);
    if now >= model.next_reset {
        let q0 = queue_ids(model.queues[0]);
        let q1 = queue_ids(model.queues[1]);
        let q2 = queue_ids(model.queues[2]);
        assert(queue_ids(refreshed_model.queues[0]) =~= q0 + q1 + q2);
        lemma_multiset_commutative(q0 + q1, q2);
        lemma_multiset_commutative(q0, q1);
        assert(queue_ids(refreshed_model.queues[1]) =~= Seq::<AppId>::empty());
        assert(Seq::<AppId>::empty().to_multiset() =~= Multiset::<AppId>::empty()) by {
            vstd::seq_lib::to_multiset_len(Seq::<AppId>::empty());
        }
    }
    selection_properties(refreshed_model, table);
    let selected = refreshed_model.select(table);
    if selected.1 is Some {
        let q = selected.0.current.unwrap() as int;
        let queue = refreshed_model.queues[q];
        let k = first_ready(queue, table).unwrap();
        assert(queue_ids(selected.0.queues[q]) =~= rotate_to(queue_ids(queue), k));
        rotate_to_keeps_nodes(queue_ids(queue), k);
    }
}

/// The result of an execution neither adds a process to the queues nor
/// loses one, whether or not the process moves down.
pub proof fn result_keeps_processes(
    model: MLFQState,
    reason: StoppedExecutingReason,
    time_used: Option<u32>,
)
    requires
        MLFQSched::inv(model),
    ensures
        processes_in(MLFQSched::result_spec(model, reason, time_used).queues) == processes_in(
            model.queues,
        ),
{
    broadcast use vstd::multiset::group_multiset_axioms;

    let after = MLFQSched::result_spec(model, reason, time_used);
    match model.current {
        Some(current) if model.queues[current as int].len() > 0 => {
            let q = current as int;
            let queue = queue_ids(model.queues[q]);
            let id = queue[0];
            let used = charged(model.queues[q][0].used(), time_used);
            let target = if demotes(q, used, reason) {
                queue_below(q)
            } else {
                q
            };
            to_multiset_remove(queue, 0);
            vstd::seq_lib::to_multiset_contains(queue, id);
            if target == q {
                assert(queue_ids(after.queues[q]) =~= queue.drop_first().push(id));
                to_multiset_build(queue.drop_first(), id);
            } else {
                let lower = queue_ids(model.queues[target]);
                assert(queue_ids(after.queues[q]) =~= queue.drop_first());
                assert(queue_ids(after.queues[target]) =~= lower.push(id));
                to_multiset_build(lower, id);
            }
        },
        _ => {},
    }
}

/// Whether the node at position `k` of queue `q` stands for the process
/// `id`.
pub open spec fn stands_at(queues: Seq<Seq<MLFQProcessNode>>, id: AppId, q: int, k: int) -> bool {
    &&& 0 <= q < NUM_QUEUES
    &&& 0 <= k < queues[q].len()
    &&& queues[q][k].appid == id
}

/// Whether a node of the queues stands for the process `id`.
pub open spec fn stands_in(queues: Seq<Seq<MLFQProcessNode>>, id: AppId) -> bool {
    exists|q: int, k: int| stands_at(queues, id, q, k)
}

/// The account of the process `id`: the time that it has used in its queue,
/// as the node that stands for it tells.
pub open spec fn account_of(queues: Seq<Seq<MLFQProcessNode>>, id: AppId) -> u32 {
    let (q, k) = choose|q: int, k: int| stands_at(queues, id, q, k);
    queues[q][k].used()
}

/// Where no process stands in the queues twice, a process stands in one
/// place only.
pub proof fn one_place(queues: Seq<Seq<MLFQProcessNode>>, id: AppId, q: int, k: int, r: int, l: int)
    requires
        queues.len() == NUM_QUEUES,
        all_ids(queues).no_duplicates(),
        stands_at(queues, id, q, k),
        stands_at(queues, id, r, l),
    ensures
        q == r,
        k == l,
{
    let ids = all_ids(queues);
    let first = queues[0].len();
    let second = queues[1].len();
    let at: int = if q == 0 {
        k
    } else if q == 1 {
        first + k
    } else {
        first + second + k
    };
    let other: int = if r == 0 {
        l
    } else if r == 1 {
        first + l
    } else {
        first + second + l
    };
    assert(ids[at] == id);
    assert(ids[other] == id);
}

/// Where no process stands in the queues twice, the account of a process is
/// what stands on the node that stands for it.
pub proof fn account_at(queues: Seq<Seq<MLFQProcessNode>>, id: AppId, q: int, k: int)
    requires
        queues.len() == NUM_QUEUES,
        all_ids(queues).no_duplicates(),
        stands_at(queues, id, q, k),
    ensures
        stands_in(queues, id),
        account_of(queues, id) == queues[q][k].used(),
{
    let (r, l) = choose|r: int, l: int| stands_at(queues, id, r, l);
    one_place(queues, id, q, k, r, l);
}

/// The process that is selected in `round`.
pub open spec fn selected_in(model: MLFQState, round: Round) -> Option<AppId> {
    MLFQSched::next_spec(model, round.table, round.now).1
}

/// Whether the process that is selected in `round` moves down at its end.
pub open spec fn demotes_in(model: MLFQState, round: Round) -> bool {
    let selected = MLFQSched::next_spec(model, round.table, round.now).0;
    &&& selected.current matches Some(q)
    &&& selected.queues[q as int].len() > 0
    &&& demotes(
        q as int,
        charged(selected.queues[q as int][0].used(), round.time_used),
        round.reason,
    )
}

/// What a round without a promotion does to the account of a process: if
/// the process is not the one selected, nothing; if it is selected and
/// stays in its queue, the time used is added to its account; if it is
/// selected and moves down, its account is cleared.
pub proof fn round_settles_account(model: MLFQState, round: Round, id: AppId)
    requires
        MLFQSched::inv(model),
        stands_in(model.queues, id),
        round.now < model.next_reset,
    ensures
        MLFQSched::inv(after_round(model, round)),
        stands_in(after_round(model, round).queues, id),
        after_round(model, round).next_reset == model.next_reset,
        account_of(after_round(model, round).queues, id) == if selected_in(model, round) != Some(
            id,
        ) {
            account_of(model.queues, id)
        } else if demotes_in(model, round) {
            0
        } else {
            charged(account_of(model.queues, id), round.time_used)
        },
{
    let (q, k) = choose|q: int, k: int| stands_at(model.queues, id, q, k);
    account_at(model.queues, id, q, k);
    let selected = MLFQSched::next_spec(model, round.table, round.now).0;
    let after = after_round(model, round);
    selection_properties(model, round.table);
    selection_keeps_processes(model, round.table, round.now);
    same_processes_stay_distinct(model.queues, selected.queues);
    result_keeps_processes(selected, round.reason, round.time_used);
    same_processes_stay_distinct(selected.queues, after.queues);
    match selected_in(model, round) {
        Some(chosen) => {
            let from = selected.current.unwrap() as int;
            let queue = model.queues[from];
            let turned_to = first_ready(queue, round.table).unwrap();
            let place: int = if q != from {
                k
            } else if k >= turned_to {
                k - turned_to
            } else {
                k + queue.len() - turned_to
            };
            if q == from {
                rotate_to_moves(queue, turned_to, k);
            }
            assert(stands_at(selected.queues, id, q, place));
            assert(stands_at(selected.queues, chosen, from, 0));
            let used = charged(selected.queues[from][0].used(), round.time_used);
            let target = if demotes(from, used, round.reason) {
                queue_below(from)
            } else {
                from
            };
            if chosen == id {
                one_place(selected.queues, id, q, place, from, 0);
                account_at(after.queues, id, target, after.queues[target].len() - 1);
            } else {
                let settled: int = if q == from {
                    place - 1
                } else {
                    place
                };
                assert(after.queues[q][settled] == selected.queues[q][place]);
                account_at(after.queues, id, q, settled);
            }
        },
        None => {
            assert(after.queues == model.queues);
            account_at(after.queues, id, q, k);
        },
    }
}

/// The time that the process `id` uses over `rounds`: the sum of the times
/// used in the rounds in which it is selected.
pub open spec fn time_charged(model: MLFQState, rounds: Seq<Round>, id: AppId) -> int
    decreases rounds.len(),
{
    if rounds.len() == 0 {
        0
    } else {
        let before = after_rounds(model, rounds.drop_last());
        let share: int = match rounds.last().time_used {
            Some(time) if selected_in(before, rounds.last()) == Some(id) => time as int,
            _ => 0,
        };
        time_charged(model, rounds.drop_last(), id) + share
    }
}

/// Whether round `i` of `rounds` is one in which the account of the process
/// `id` is reset: the processes are promoted in it, or the process is
/// selected in it and moves down at its end.
pub open spec fn resets_in(model: MLFQState, rounds: Seq<Round>, i: int, id: AppId) -> bool {
    ||| promotes_in(model, rounds, i)
    ||| {
        &&& 0 <= i < rounds.len()
        &&& selected_in(after_rounds(model, rounds.take(i)), rounds[i]) == Some(id)
        &&& demotes_in(after_rounds(model, rounds.take(i)), rounds[i])
    }
}

proof fn time_charged_is_not_negative(model: MLFQState, rounds: Seq<Round>, id: AppId)
    ensures
        time_charged(model, rounds, id) >= 0,
    decreases rounds.len(),
{
    if rounds.len() > 0 {
        time_charged_is_not_negative(model, rounds.drop_last(), id);
    }
}

/// Between two resets the account of a process is the sum of the times it
/// has used: over rounds in none of which its account is reset, what is
/// added to the account of a process is the time used in the rounds in
/// which it was selected, as long as the account can hold the sum. The
/// process stays in the queues, and the refresh stays due when it was.
pub proof fn account_is_time_used_since_reset(model: MLFQState, rounds: Seq<Round>, id: AppId)
    requires
        MLFQSched::inv(model),
        stands_in(model.queues, id),
        forall|i: int| !resets_in(model, rounds, i, id),
        account_of(model.queues, id) + time_charged(model, rounds, id) <= u32::MAX,
    ensures
        MLFQSched::inv(after_rounds(model, rounds)),
        stands_in(after_rounds(model, rounds).queues, id),
        after_rounds(model, rounds).next_reset == model.next_reset,
        account_of(after_rounds(model, rounds).queues, id) == account_of(model.queues, id)
            + time_charged(model, rounds, id),
    decreases rounds.len(),
{
    if rounds.len() > 0 {
        let before = rounds.drop_last();
        let last = rounds.len() - 1;
        assert forall|i: int| !resets_in(model, before, i, id) by {
            if 0 <= i < before.len() {
                assert(before.take(i) =~= rounds.take(i));
                assert(!resets_in(model, rounds, i, id));
            }
        }
        time_charged_is_not_negative(model, before, id);
        account_is_time_used_since_reset(model, before, id);
        assert(rounds.take(last) =~= before);
        assert(!resets_in(model, rounds, last, id));
        round_settles_account(after_rounds(model, before), rounds.last(), id);
    }
}

} // verus!
