//! What holds of the scheduler whatever is asked of it.
//!
//! The laws are stated over [`ManagerView`] and [`TaskView`], the values
//! over which the contracts of the executable scheduler are stated, so each
//! of them holds of every run of the executable scheduler.
use vstd::prelude::*;
use crate::config::MAX_APP_NUM;
use crate::task::model::{lemma_at_turn, lemma_find_next_task, lemma_next_is_found, lemma_turns};
use crate::task::model::ManagerView;
use crate::task::task::{TaskStatus, TaskView};

verus! {

/// An operation of the scheduler that changes its state.
pub enum SchedulerOp {
    RunFirstTask,
    MarkCurrentSuspended,
    MarkCurrentExited,
    RunNextTask,
    SuspendCurrentAndRunNext,
    ExitCurrentAndRunNext,
    CountSyscall(usize),
    InitTaskTime(usize),
}

impl ManagerView {
    /// No task but the current one is running.
    pub open spec fn only_current_runs(self) -> bool {
        forall|id: int| self.is_running(id) ==> id == self.current
    }

    /// No two tasks are running.
    pub open spec fn at_most_one_running(self) -> bool {
        forall|a: int, b: int| self.is_running(a) && self.is_running(b) ==> a == b
    }

    /// The current task is running, and it is the only one.
    pub open spec fn current_runs(self) -> bool {
        self.is_running(self.current) && self.only_current_runs()
    }

    /// Every task but the current one is ready.
    pub open spec fn others_ready(self) -> bool {
        forall|id: int| 0 <= id < self.num_app() && id != self.current ==> self.is_ready(id)
    }

    /// The state after the operation `op`.
    pub open spec fn step(self, op: SchedulerOp) -> ManagerView {
        match op {
            SchedulerOp::RunFirstTask => self.run_first_task(),
            SchedulerOp::MarkCurrentSuspended => self.mark_current_suspended(),
            SchedulerOp::MarkCurrentExited => self.mark_current_exited(),
            SchedulerOp::RunNextTask => self.run_next_task(),
            SchedulerOp::SuspendCurrentAndRunNext => self.suspend_current_and_run_next(),
            SchedulerOp::ExitCurrentAndRunNext => self.exit_current_and_run_next(),
            SchedulerOp::CountSyscall(syscall_id) => self.count_syscall(syscall_id),
            SchedulerOp::InitTaskTime(now_us) => self.init_current_task_start_time(now_us),
        }
    }

    /// The state after the operations `ops`, one after the other.
    pub open spec fn run(self, ops: Seq<SchedulerOp>) -> ManagerView
        decreases ops.len(),
    {
        if ops.len() == 0 {
            self
        } else {
            self.run(ops.drop_last()).step(ops.last())
        }
    }

    /// Whether `op` is used against its purpose in a way that sets a task
    /// running beside the one that runs: the first dispatch when another
    /// task is already the current one, or a move to the next task while
    /// the current one has not given way.
    pub open spec fn doubles_running(self, op: SchedulerOp) -> bool {
        match op {
            SchedulerOp::RunFirstTask => self.current != 0,
            SchedulerOp::RunNextTask => self.is_running(self.current) && self.has_ready(),
            _ => false,
        }
    }

    /// Whether `op` is used against its purpose in a way that takes an
    /// exited task back into play: the first dispatch when task 0 has
    /// exited, or a yield of a current task that has exited.
    pub open spec fn revives_exited(self, op: SchedulerOp) -> bool {
        match op {
            SchedulerOp::RunFirstTask => self.status(0) == TaskStatus::Exited,
            SchedulerOp::MarkCurrentSuspended | SchedulerOp::SuspendCurrentAndRunNext => {
                self.status(self.current) == TaskStatus::Exited
            },
            _ => false,
        }
    }

    /// Whether `op` is one of the operations that the running kernel asks
    /// for on behalf of the current task, and does not end with the kernel
    /// stopping because the last task exited.
    pub open spec fn keeps_going(self, op: SchedulerOp) -> bool {
        match op {
            SchedulerOp::SuspendCurrentAndRunNext => true,
            SchedulerOp::ExitCurrentAndRunNext => self.mark_current_exited().has_ready(),
            SchedulerOp::CountSyscall(_) => true,
            SchedulerOp::InitTaskTime(_) => true,
            _ => false,
        }
    }

    /// No step of `ops` sets a task running beside the one that runs.
    pub open spec fn never_doubles_running(self, ops: Seq<SchedulerOp>) -> bool
        decreases ops.len(),
    {
        ops.len() == 0 || (self.never_doubles_running(ops.drop_last()) && !self.run(
            ops.drop_last(),
        ).doubles_running(ops.last()))
    }

    /// No step of `ops` takes an exited task back into play.
    pub open spec fn never_revives_exited(self, ops: Seq<SchedulerOp>) -> bool
        decreases ops.len(),
    {
        ops.len() == 0 || (self.never_revives_exited(ops.drop_last()) && !self.run(
            ops.drop_last(),
        ).revives_exited(ops.last()))
    }

    /// Every step of `ops` keeps the kernel going.
    pub open spec fn always_keeps_going(self, ops: Seq<SchedulerOp>) -> bool
        decreases ops.len(),
    {
        ops.len() == 0 || (self.always_keeps_going(ops.drop_last()) && self.run(
            ops.drop_last(),
        ).keeps_going(ops.last()))
    }

    /// The state after the current task gave way `rounds` times in a row.
    pub open spec fn yields(self, rounds: nat) -> ManagerView
        decreases rounds,
    {
        if rounds == 0 {
            self
        } else {
            self.yields((rounds - 1) as nat).suspend_current_and_run_next()
        }
    }
}

/// A table fresh from boot is well formed, all of its tasks are ready and
/// none is running; after the first dispatch task 0 is the one running task.
pub proof fn lemma_boot(kstack_ptrs: Seq<usize>, entry: usize)
    requires
        1 <= kstack_ptrs.len() <= MAX_APP_NUM,
    ensures
        ManagerView::boot(kstack_ptrs, entry).wf(),
        ManagerView::boot(kstack_ptrs, entry).only_current_runs(),
        forall|id: int|
            0 <= id < kstack_ptrs.len() ==> ManagerView::boot(kstack_ptrs, entry).is_ready(id),
        forall|id: int| !ManagerView::boot(kstack_ptrs, entry).is_running(id),
        ManagerView::boot(kstack_ptrs, entry).run_first_task().wf(),
        ManagerView::boot(kstack_ptrs, entry).run_first_task().current_runs(),
        ManagerView::boot(kstack_ptrs, entry).run_first_task().others_ready(),
{
}

/// Where no task but the current one is running, no two tasks are running.
pub proof fn lemma_at_most_one_running(v: ManagerView)
    requires
        v.only_current_runs(),
    ensures
        v.at_most_one_running(),
{
}

/// A task that gives way is followed by a ready task: the scheduler always
/// finds one, if only the task that gave way.
pub proof fn lemma_yield_never_halts(v: ManagerView)
    requires
        v.wf(),
    ensures
        v.mark_current_suspended().dispatch() is Switch,
        v.mark_current_suspended().find_next_task() is Some,
{
    let w = v.mark_current_suspended();
    assert(w.is_ready(w.current));
    lemma_find_next_task(w);
}

/// Every operation keeps the table well formed and of the same size.
pub proof fn lemma_step_wf(v: ManagerView, op: SchedulerOp)
    requires
        v.wf(),
    ensures
        v.step(op).wf(),
        v.step(op).num_app() == v.num_app(),
{
    lemma_find_next_task(v);
    lemma_find_next_task(v.mark_current_suspended());
    lemma_find_next_task(v.mark_current_exited());
}

/// One operation, used to its purpose, leaves no task but the current one
/// running.
pub proof fn lemma_step_one_running(v: ManagerView, op: SchedulerOp)
    requires
        v.wf(),
        v.only_current_runs(),
        !v.doubles_running(op),
    ensures
        v.step(op).wf(),
        v.step(op).num_app() == v.num_app(),
        v.step(op).only_current_runs(),
{
    lemma_step_wf(v, op);
    lemma_find_next_task(v);
    lemma_find_next_task(v.mark_current_suspended());
    lemma_find_next_task(v.mark_current_exited());
    let after = v.step(op);
    assert forall|id: int| after.is_running(id) implies id == after.current by {
        if id != after.current {
            assert(v.is_running(id));
        }
    }
}

/// At most one task is running at any time: after any sequence of
/// operations, each used to its purpose, on a table on which no task but
/// the current one was running before.  A table fresh from boot is one.
pub proof fn lemma_run_one_running(v: ManagerView, ops: Seq<SchedulerOp>)
    requires
        v.wf(),
        v.only_current_runs(),
        v.never_doubles_running(ops),
    ensures
        v.run(ops).wf(),
        v.run(ops).num_app() == v.num_app(),
        v.run(ops).only_current_runs(),
        v.run(ops).at_most_one_running(),
    decreases ops.len(),
{
    if ops.len() > 0 {
        lemma_run_one_running(v, ops.drop_last());
        lemma_step_one_running(v.run(ops.drop_last()), ops.last());
    }
}

/// One operation that does not take an exited task back into play leaves
/// every exited task exited.
pub proof fn lemma_step_exited(v: ManagerView, op: SchedulerOp, id: int)
    requires
        v.wf(),
        0 <= id < v.num_app(),
        v.status(id) == TaskStatus::Exited,
        !v.revives_exited(op),
    ensures
        v.step(op).status(id) == TaskStatus::Exited,
{
    lemma_find_next_task(v);
    lemma_find_next_task(v.mark_current_suspended());
    lemma_find_next_task(v.mark_current_exited());
}

/// Exited is final.  Through any sequence of operations of which none
/// takes an exited task back into play, a task that has exited stays
/// exited, and the scheduler does not pick it as the next task.
pub proof fn lemma_exited_is_final(v: ManagerView, ops: Seq<SchedulerOp>, id: int)
    requires
        v.wf(),
        0 <= id < v.num_app(),
        v.status(id) == TaskStatus::Exited,
        v.never_revives_exited(ops),
    ensures
        v.run(ops).wf(),
        v.run(ops).num_app() == v.num_app(),
        v.run(ops).status(id) == TaskStatus::Exited,
        v.run(ops).find_next_task() != Some(id),
    decreases ops.len(),
{
    if ops.len() > 0 {
        lemma_exited_is_final(v, ops.drop_last(), id);
        lemma_step_wf(v.run(ops.drop_last()), ops.last());
        lemma_step_exited(v.run(ops.drop_last()), ops.last(), id);
    }
    lemma_find_next_task(v.run(ops));
}

/// One operation asked for on behalf of the running task leaves exactly
/// one task running, the current one, unless the kernel stops with it.
pub proof fn lemma_step_current_runs(v: ManagerView, op: SchedulerOp)
    requires
        v.wf(),
        v.current_runs(),
        v.keeps_going(op),
    ensures
        v.step(op).wf(),
        v.step(op).num_app() == v.num_app(),
        v.step(op).current_runs(),
        !v.doubles_running(op),
        !v.revives_exited(op),
{
    lemma_step_one_running(v, op);
    lemma_yield_never_halts(v);
    lemma_find_next_task(v.mark_current_suspended());
    lemma_find_next_task(v.mark_current_exited());
}

/// After the first dispatch exactly one task is running, the current one,
/// for as long as the kernel goes: through any sequence of yields, exits
/// that leave a ready task, counted system calls and recorded start times.
pub proof fn lemma_run_current_runs(v: ManagerView, ops: Seq<SchedulerOp>)
    requires
        v.wf(),
        v.current_runs(),
        v.always_keeps_going(ops),
    ensures
        v.run(ops).wf(),
        v.run(ops).num_app() == v.num_app(),
        v.run(ops).current_runs(),
        v.never_doubles_running(ops),
        v.never_revives_exited(ops),
    decreases ops.len(),
{
    if ops.len() > 0 {
        lemma_run_current_runs(v, ops.drop_last());
        lemma_step_current_runs(v.run(ops.drop_last()), ops.last());
    }
}

/// The end of one task leaves the others as they are: nothing of another
/// task changes but the status of the task that runs next.
pub proof fn lemma_exit_spares_others(v: ManagerView, id: int)
    requires
        v.wf(),
        0 <= id < v.num_app(),
        id != v.current,
    ensures
        v.exit_current_and_run_next().tasks[id] == if v.mark_current_exited().find_next_task()
            == Some(id) {
            v.tasks[id].with_status(TaskStatus::Running)
        } else {
            v.tasks[id]
        },
{
    lemma_find_next_task(v.mark_current_exited());
}

/// The scheduler never picks a task that is not ready: not an exited one,
/// not a running one, not an unused slot.
pub proof fn lemma_only_ready_is_picked(v: ManagerView, id: int)
    requires
        v.wf(),
        !v.is_ready(id),
    ensures
        v.find_next_task() != Some(id),
{
    lemma_find_next_task(v);
}

/// Where only one task is ready the scheduler picks it, wherever the scan
/// starts.
pub proof fn lemma_single_ready_is_picked(v: ManagerView, id: int)
    requires
        v.wf(),
        v.is_ready(id),
        forall|other: int| v.is_ready(other) ==> other == id,
    ensures
        v.find_next_task() == Some(id),
{
    lemma_next_is_found(v, id);
}

/// Where the task just after the current one is ready, the scheduler picks
/// it.
pub proof fn lemma_successor_is_picked(v: ManagerView)
    requires
        v.wf(),
        v.is_ready((v.current + 1) % v.num_app()),
    ensures
        v.find_next_task() == Some((v.current + 1) % v.num_app()),
{
    let next = v.at_turn(1);
    lemma_at_turn(v, 1);
    assert forall|other: int| v.is_ready(other) implies v.turns_until(next) <= v.turns_until(
        other,
    ) by {
        lemma_turns(v, other);
    }
    lemma_next_is_found(v, next);
}

/// Round robin, one step: where every other task is ready, a task that
/// gives way is followed by the task just after it, and again every other
/// task is ready.
pub proof fn lemma_yield_to_successor(v: ManagerView)
    requires
        v.wf(),
        v.others_ready(),
    ensures
        v.suspend_current_and_run_next().wf(),
        v.suspend_current_and_run_next().num_app() == v.num_app(),
        v.suspend_current_and_run_next().current == (v.current + 1) % v.num_app(),
        v.suspend_current_and_run_next().current_runs(),
        v.suspend_current_and_run_next().others_ready(),
{
    let w = v.mark_current_suspended();
    let next = w.at_turn(1);
    lemma_at_turn(w, 1);
    assert(w.is_ready(next)) by {
        if next != v.current {
            assert(v.is_ready(next));
        }
    }
    lemma_successor_is_picked(w);
    let after = v.suspend_current_and_run_next();
    assert forall|id: int| 0 <= id < after.num_app() && id != after.current implies after.is_ready(
        id,
    ) by {
        if id != v.current {
            assert(v.is_ready(id));
        }
    }
    assert forall|id: int| after.is_running(id) implies id == after.current by {
        if id != after.current && id != v.current {
            assert(v.is_ready(id));
        }
    }
}

/// Round robin: where every other task is ready, the task that runs after
/// `rounds` yields in a row is the one `rounds` slots after the first,
/// counted cyclically.
pub proof fn lemma_round_robin(v: ManagerView, rounds: nat)
    requires
        v.wf(),
        v.others_ready(),
    ensures
        v.yields(rounds).wf(),
        v.yields(rounds).num_app() == v.num_app(),
        v.yields(rounds).others_ready(),
        v.yields(rounds).current == (v.current + rounds) % v.num_app(),
    decreases rounds,
{
    let n = v.num_app();
    if rounds == 0 {
        assert((v.current + 0) % n == v.current) by (nonlinear_arith)
            requires
                0 <= v.current < n,
        ;
    } else {
        let before = v.yields((rounds - 1) as nat);
        lemma_round_robin(v, (rounds - 1) as nat);
        lemma_yield_to_successor(before);
        let c = v.current;
        assert((((c + (rounds - 1)) % n) + 1) % n == (c + rounds) % n) by (nonlinear_arith)
            requires
                0 < n,
                0 <= c,
                rounds >= 1,
        ;
    }
}

/// Round robin is fair: where every other task is ready, a round of as
/// many yields as there are tasks runs each task exactly once, task `id`
/// after `turns_until(id)` yields, and ends with the task it began with.
pub proof fn lemma_round_visits_each_once(v: ManagerView, id: int)
    requires
        v.wf(),
        v.others_ready(),
        0 <= id < v.num_app(),
    ensures
        1 <= v.turns_until(id) <= v.num_app(),
        v.yields(v.turns_until(id) as nat).current == id,
        forall|rounds: nat|
            1 <= rounds <= v.num_app() && #[trigger] v.yields(rounds).current == id ==> rounds
                == v.turns_until(id),
        v.yields(v.num_app() as nat).current == v.current,
{
    lemma_turns(v, id);
    lemma_turns(v, v.current);
    lemma_round_robin(v, v.turns_until(id) as nat);
    lemma_round_robin(v, v.num_app() as nat);
    assert forall|rounds: nat|
        1 <= rounds <= v.num_app() && #[trigger] v.yields(rounds).current == id implies rounds
        == v.turns_until(id) by {
        lemma_round_robin(v, rounds);
        assert(v.at_turn(rounds as int) == id);
    }
}

/// A start time is recorded once.  After a first reading was offered, a
/// second one changes nothing, provided the first reading was not 0, the
/// value that stands for "none recorded".
pub proof fn lemma_record_start_once(task: TaskView, first_us: usize, second_us: usize)
    requires
        task.start_time_us != 0 || first_us != 0,
    ensures
        task.record_start(first_us).record_start(second_us) == task.record_start(first_us),
{
}

/// The same of the scheduler: a second reading offered for the current
/// task changes nothing.
pub proof fn lemma_init_start_time_once(v: ManagerView, first_us: usize, second_us: usize)
    requires
        v.wf(),
        v.current_task().start_time_us != 0 || first_us != 0,
    ensures
        v.init_current_task_start_time(first_us).init_current_task_start_time(second_us)
            == v.init_current_task_start_time(first_us),
{
    let once = v.init_current_task_start_time(first_us);
    assert(once.init_current_task_start_time(second_us).tasks =~= once.tasks);
}

/// A system call whose identifier has no counter leaves every counter, and
/// all the rest, as it was.
pub proof fn lemma_uncounted_syscall(v: ManagerView, syscall_id: usize)
    requires
        v.wf(),
        !TaskView::counts(syscall_id),
    ensures
        v.current_task().count_syscall(syscall_id) == v.current_task(),
        v.count_syscall(syscall_id) == v,
{
    assert(v.count_syscall(syscall_id).tasks =~= v.tasks);
}

} // verus!
