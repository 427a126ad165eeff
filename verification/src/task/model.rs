//! The scheduler as a mathematical state machine.
//!
//! A [`ManagerView`] is the value of a task table: the tasks in use, in slot
//! order, and the index of the current one.  Each scheduler operation is
//! written here as a function from one such value to the next, and the
//! contracts of the executable scheduler are stated over these functions.
use vstd::prelude::*;
use crate::config::MAX_APP_NUM;
use crate::task::task::{TaskStatus, TaskView};

verus! {

/// What the caller has to do after the scheduler chose the next task.
#[derive(Clone, Copy, Debug, PartialEq, Eq, Structural)]
pub enum Dispatch {
    /// Save the running flow of control into the context of task `from` and
    /// resume the context of task `to`.
    Switch { from: usize, to: usize },
    /// No task is ready and none will ever be: every application is done,
    /// and the kernel stops for good.
    AllCompleted,
}

/// The mathematical value of the scheduler's state.
pub struct ManagerView {
    /// The tasks in use, by slot.
    pub tasks: Seq<TaskView>,
    /// The slot of the current task.
    pub current: int,
}

impl ManagerView {
    /// The number of tasks, fixed when the table is built.
    pub open spec fn num_app(self) -> int {
        self.tasks.len() as int
    }

    /// There is at least one task, no more tasks than the table has room
    /// for, the current index names one of them, and each task has its
    /// twelve saved registers and its full table of counters.
    pub open spec fn wf(self) -> bool {
        &&& 1 <= self.num_app() <= MAX_APP_NUM
        &&& 0 <= self.current < self.num_app()
        &&& forall|id: int| 0 <= id < self.num_app() ==> (#[trigger] self.tasks[id]).wf()
    }

    pub open spec fn status(self, id: int) -> TaskStatus {
        self.tasks[id].task_status
    }

    pub open spec fn current_task(self) -> TaskView {
        self.tasks[self.current]
    }

    /// `id` names a task, and that task is ready.
    pub open spec fn is_ready(self, id: int) -> bool {
        0 <= id < self.num_app() && self.status(id) == TaskStatus::Ready
    }

    /// `id` names a task, and that task is running.
    pub open spec fn is_running(self, id: int) -> bool {
        0 <= id < self.num_app() && self.status(id) == TaskStatus::Running
    }

    /// The same state with task `id` in another status.
    pub open spec fn with_status(self, id: int, status: TaskStatus) -> ManagerView {
        ManagerView { tasks: self.tasks.update(id, self.tasks[id].with_status(status)), ..self }
    }

    /// The same state with `task` in the current slot.
    pub open spec fn with_current_task(self, task: TaskView) -> ManagerView {
        ManagerView { tasks: self.tasks.update(self.current, task), ..self }
    }

    /// The table as it is built at boot: one ready task per prepared kernel
    /// stack, each entering at `entry`, and slot 0 as the current one.
    pub open spec fn boot(kstack_ptrs: Seq<usize>, entry: usize) -> ManagerView {
        ManagerView {
            tasks: Seq::new(kstack_ptrs.len(), |i: int| TaskView::primed(kstack_ptrs[i], entry)),
            current: 0,
        }
    }

    /// The first dispatch: task 0 runs.
    pub open spec fn run_first_task(self) -> ManagerView {
        self.with_status(0, TaskStatus::Running)
    }

    /// The current task gives way and can be picked again.
    pub open spec fn mark_current_suspended(self) -> ManagerView {
        self.with_status(self.current, TaskStatus::Ready)
    }

    /// The current task is over.
    pub open spec fn mark_current_exited(self) -> ManagerView {
        self.with_status(self.current, TaskStatus::Exited)
    }

    /// How many steps the cyclic scan takes to reach task `id`: 1 for the
    /// task just after the current one, and the number of tasks for the
    /// current task itself, which comes last.
    pub open spec fn turns_until(self, id: int) -> int {
        if id > self.current {
            id - self.current
        } else {
            id - self.current + self.num_app()
        }
    }

    /// The task that the cyclic scan reaches in its `turn`-th step.
    pub open spec fn at_turn(self, turn: int) -> int {
        (self.current + turn) % self.num_app()
    }

    /// `id` is the ready task that the cyclic scan reaches first.
    pub open spec fn is_next(self, id: int) -> bool {
        &&& self.is_ready(id)
        &&& forall|other: int|
            self.is_ready(other) ==> self.turns_until(id) <= self.turns_until(other)
    }

    /// Some task is ready.
    pub open spec fn has_ready(self) -> bool {
        exists|id: int| self.is_ready(id)
    }

    /// The task to run next: the first ready one in cyclic order, starting
    /// just after the current task; none where no task is ready.
    pub open spec fn find_next_task(self) -> Option<int> {
        if self.has_ready() {
            Some(choose|id: int| self.is_next(id))
        } else {
            None
        }
    }

    /// Task `next` becomes the current, running one.  Nothing else changes:
    /// not even the status of the task that was current.
    pub open spec fn switch_to(self, next: int) -> ManagerView {
        ManagerView { current: next, ..self.with_status(next, TaskStatus::Running) }
    }

    /// The state after the scheduler moved on to the next task.  Where no
    /// task is ready the state stays as it is.
    pub open spec fn run_next_task(self) -> ManagerView {
        match self.find_next_task() {
            Some(next) => self.switch_to(next),
            None => self,
        }
    }

    /// What the caller is told when the scheduler moves on to the next task.
    pub open spec fn dispatch(self) -> Dispatch {
        match self.find_next_task() {
            Some(next) => Dispatch::Switch { from: self.current as usize, to: next as usize },
            None => Dispatch::AllCompleted,
        }
    }

    /// `plan` and `after` are what comes of moving on to the next task:
    /// either a switch from the current task into the ready task that the
    /// scan reaches first, which then is the current, running one, or the
    /// word that all is done, where no task is ready and nothing changes.
    pub open spec fn moves_on(self, plan: Dispatch, after: ManagerView) -> bool {
        match plan {
            Dispatch::Switch { from, to } => {
                &&& from == self.current
                &&& self.is_next(to as int)
                &&& after == self.switch_to(to as int)
            },
            Dispatch::AllCompleted => {
                &&& forall|id: int| !self.is_ready(id)
                &&& after == self
            },
        }
    }

    /// One more system call `syscall_id` is counted for the current task.
    pub open spec fn count_syscall(self, syscall_id: usize) -> ManagerView {
        self.with_current_task(self.current_task().count_syscall(syscall_id))
    }

    /// The clock reading `now_us` is offered as the current task's start time.
    pub open spec fn init_current_task_start_time(self, now_us: usize) -> ManagerView {
        self.with_current_task(self.current_task().record_start(now_us))
    }

    /// The current task yields: it becomes ready, then the next task runs.
    pub open spec fn suspend_current_and_run_next(self) -> ManagerView {
        self.mark_current_suspended().run_next_task()
    }

    /// The current task ends: it is marked as exited, then the next task runs.
    pub open spec fn exit_current_and_run_next(self) -> ManagerView {
        self.mark_current_exited().run_next_task()
    }
}

/// The scan reaches every task exactly once: task `id` in step
/// `turns_until(id)`, which lies between 1 and the number of tasks, and in
/// no other step of one round.
pub proof fn lemma_turns(v: ManagerView, id: int)
    requires
        v.wf(),
        0 <= id < v.num_app(),
    ensures
        1 <= v.turns_until(id) <= v.num_app(),
        v.at_turn(v.turns_until(id)) == id,
        forall|turn: int|
            1 <= turn <= v.num_app() && v.at_turn(turn) == id ==> turn == v.turns_until(id),
{
    assert forall|turn: int| 1 <= turn <= v.num_app() && v.at_turn(turn) == id implies turn
        == v.turns_until(id) by {
        lemma_at_turn(v, turn);
    }
    lemma_at_turn(v, v.turns_until(id));
}

/// In one round, the step `turn` of the scan lands on the task `turn` slots
/// after the current one, wrapping round at the end of the table.
pub proof fn lemma_at_turn(v: ManagerView, turn: int)
    requires
        v.wf(),
        1 <= turn <= v.num_app(),
    ensures
        0 <= v.at_turn(turn) < v.num_app(),
        v.at_turn(turn) == if v.current + turn >= v.num_app() {
            v.current + turn - v.num_app()
        } else {
            v.current + turn
        },
        v.turns_until(v.at_turn(turn)) == turn,
{
    let n = v.num_app();
    let c = v.current;
    if c + turn >= n {
        assert((c + turn) % n == c + turn - n) by (nonlinear_arith)
            requires
                0 < n,
                n <= c + turn < 2 * n,
        ;
    } else {
        assert((c + turn) % n == c + turn) by (nonlinear_arith)
            requires
                0 < n,
                0 <= c + turn < n,
        ;
    }
}

/// No two tasks are both the next one.
pub proof fn lemma_next_is_unique(v: ManagerView, a: int, b: int)
    requires
        v.wf(),
        v.is_next(a),
        v.is_next(b),
    ensures
        a == b,
{
}

/// `find_next_task` names the next task wherever there is one, and names
/// none only where no task is ready.
pub proof fn lemma_find_next_task(v: ManagerView)
    requires
        v.wf(),
    ensures
        match v.find_next_task() {
            Some(next) => v.is_next(next),
            None => forall|id: int| !v.is_ready(id),
        },
{
    if v.has_ready() {
        lemma_scan_finds(v, 0);
    }
}

/// If the first `turn` steps of the scan met no ready task and some task is
/// ready, the rest of the round meets the next one.
proof fn lemma_scan_finds(v: ManagerView, turn: int)
    requires
        v.wf(),
        v.has_ready(),
        0 <= turn <= v.num_app(),
        forall|id: int| v.is_ready(id) ==> v.turns_until(id) > turn,
    ensures
        exists|id: int| v.is_next(id),
    decreases v.num_app() - turn,
{
    if turn == v.num_app() {
        let id = choose|id: int| v.is_ready(id);
        assert(v.turns_until(id) > turn);
    } else {
        let id = v.at_turn(turn + 1);
        lemma_at_turn(v, turn + 1);
        if v.is_ready(id) {
            assert(v.is_next(id));
        } else {
            lemma_scan_finds(v, turn + 1);
        }
    }
}

/// Moving on to the next task comes to what `moves_on` says, and to
/// nothing else.
pub proof fn lemma_moves_on(v: ManagerView, plan: Dispatch, after: ManagerView)
    requires
        v.wf(),
    ensures
        v.moves_on(v.dispatch(), v.run_next_task()),
        v.moves_on(plan, after) ==> plan == v.dispatch() && after == v.run_next_task(),
{
    lemma_find_next_task(v);
    if v.moves_on(plan, after) {
        match plan {
            Dispatch::Switch { from, to } => {
                lemma_next_is_found(v, to as int);
            },
            Dispatch::AllCompleted => {},
        }
    }
}

/// Whichever ready task the scan reaches first is the one that
/// `find_next_task` names.
pub proof fn lemma_next_is_found(v: ManagerView, id: int)
    requires
        v.wf(),
        v.is_next(id),
    ensures
        v.find_next_task() == Some(id),
{
    assert(v.is_ready(id));
    lemma_find_next_task(v);
    lemma_next_is_unique(v, id, v.find_next_task().unwrap());
}

} // verus!
