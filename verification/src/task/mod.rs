//! Tasks and the scheduler that runs them in turn.
//!
//! A [`TaskManager`] owns the task table.  Its methods only decide and
//! record: whenever control has to pass from one task to another they say so
//! in a [`Dispatch`], and the caller performs the register-level switch.
pub mod context;
pub mod laws;
pub mod model;
pub mod task;

use vstd::prelude::*;
use crate::config::{MAX_APP_NUM, MAX_SYSCALL_NUM};
use crate::task::task::TaskView;

pub use context::TaskContext;
pub use model::Dispatch;
pub use model::ManagerView;
pub use task::TaskControBlock;
pub use task::TaskStatus;

verus! {

/// What a task is told about itself.
#[derive(Clone, Copy)]
pub struct TaskInfo {
    /// Whole milliseconds since the task first ran.
    pub time: usize,
    pub status: TaskStatus,
    /// A snapshot of the task's system-call counters.
    pub syscall_times: [u32; MAX_SYSCALL_NUM],
}

/// The scheduler: a table of task control blocks, of which the first
/// `num_app` are in use, and the index of the current task.
pub struct TaskManager {
    num_app: usize,
    tasks: [TaskControBlock; MAX_APP_NUM],
    current_task: usize,
}

impl View for TaskManager {
    type V = ManagerView;

    closed spec fn view(&self) -> ManagerView {
        ManagerView {
            tasks: Seq::new(self.num_app as nat, |i: int| self.tasks[i]@),
            current: self.current_task as int,
        }
    }
}

impl TaskManager {
    /// The slots beyond the tasks in use are as they were made: nothing
    /// ever touches them.
    pub closed spec fn spare_slots_unused(&self) -> bool {
        forall|i: int| self.num_app <= i < MAX_APP_NUM ==> self.tasks[i]@ == TaskView::uninit()
    }

    /// The invariant of the scheduler.
    pub open spec fn wf(&self) -> bool {
        self@.wf() && self.spare_slots_unused()
    }

    /// Builds the table at boot, for one application per entry of
    /// `kstack_ptrs`: task `i` is ready to enter at `entry` on the prepared
    /// kernel stack `kstack_ptrs[i]`.  There is no table for no application,
    /// nor for more than [`MAX_APP_NUM`].
    pub fn new(kstack_ptrs: &[usize], entry: usize) -> (made: Option<Self>)
        ensures
            made is Some <==> 1 <= kstack_ptrs@.len() <= MAX_APP_NUM,
            made matches Some(manager) ==> manager.wf() && manager@ == ManagerView::boot(
                kstack_ptrs@,
                entry,
            ),
    {
        let num_app: usize = kstack_ptrs.len();
        if num_app == 0 || num_app > MAX_APP_NUM {
            return None;
        }
        let mut tasks = [TaskControBlock::new(); MAX_APP_NUM];
        let mut i: usize = 0;
        while i < num_app
            invariant
                num_app == kstack_ptrs@.len(),
                i <= num_app <= MAX_APP_NUM,
                forall|j: int|
                    0 <= j < i ==> tasks[j]@ == TaskView::primed(kstack_ptrs@[j], entry),
                forall|j: int| i <= j < MAX_APP_NUM ==> tasks[j]@ == TaskView::uninit(),
            decreases num_app - i,
        {
            tasks[i].task_cx = TaskContext::goto_init_time(kstack_ptrs[i], entry);
            tasks[i].task_status = TaskStatus::Ready;
            i += 1;
        }
        let manager = TaskManager { num_app, tasks, current_task: 0 };
        assert(manager@.tasks =~= ManagerView::boot(kstack_ptrs@, entry).tasks);
        Some(manager)
    }

    /// The number of tasks.
    pub fn num_app(&self) -> (n: usize)
        ensures
            n == self@.num_app(),
    {
        self.num_app
    }

    /// The slot of the current task.
    pub fn current(&self) -> (id: usize)
        ensures
            id == self@.current,
    {
        self.current_task
    }

    /// The control block of task `id`.
    pub fn task(&self, id: usize) -> (block: &TaskControBlock)
        requires
            self.wf(),
            id < self@.num_app(),
        ensures
            block@ == self@.tasks[id as int],
    {
        &self.tasks[id]
    }

    /// Makes task 0 the running one.  This is the first dispatch after boot:
    /// the caller then switches into the context of task 0 from a throwaway
    /// context and never comes back.
    pub fn run_first_task(&mut self)
        requires
            old(self).wf(),
        ensures
            final(self).wf(),
            final(self)@ == old(self)@.run_first_task(),
    {
        self.tasks[0].task_status = TaskStatus::Running;
        assert(self@.tasks =~= old(self)@.run_first_task().tasks);
    }

    /// The current task becomes ready again; its counters and its start
    /// time stay as they are.
    pub fn mark_current_suspended(&mut self)
        requires
            old(self).wf(),
        ensures
            final(self).wf(),
            final(self)@ == old(self)@.mark_current_suspended(),
    {
        let current: usize = self.current_task;
        self.tasks[current].task_status = TaskStatus::Ready;
        assert(self@.tasks =~= old(self)@.mark_current_suspended().tasks);
    }

    /// The current task is over, for good.
    pub fn mark_current_exited(&mut self)
        requires
            old(self).wf(),
        ensures
            final(self).wf(),
            final(self)@ == old(self)@.mark_current_exited(),
    {
        let current: usize = self.current_task;
        self.tasks[current].task_status = TaskStatus::Exited;
        assert(self@.tasks =~= old(self)@.mark_current_exited().tasks);
    }

    /// Moves on to the next ready task: it becomes the current, running
    /// one, and the caller is told to switch from the task that was current
    /// into it.  The status of the task that was current is not touched:
    /// whoever calls decides first what becomes of it.  Where no task is
    /// ready nothing changes and the caller is told that all is done.
    pub fn run_next_task(&mut self) -> (plan: Dispatch)
        requires
            old(self).wf(),
        ensures
            final(self).wf(),
            final(self)@ == old(self)@.run_next_task(),
            plan == old(self)@.dispatch(),
            old(self)@.moves_on(plan, final(self)@),
    {
        match self.find_next_task() {
            Some(next) => {
                let current: usize = self.current_task;
                self.current_task = next;
                self.tasks[next].task_status = TaskStatus::Running;
                assert(self@.tasks =~= old(self)@.run_next_task().tasks);
                Dispatch::Switch { from: current, to: next }
            },
            None => Dispatch::AllCompleted,
        }
    }

    /// Looks for the task to run next: the first ready one in cyclic
    /// order, starting just after the current task and ending with the
    /// current task itself.
    pub fn find_next_task(&self) -> (found: Option<usize>)
        requires
            self.wf(),
        ensures
            found matches Some(next) ==> self@.is_next(next as int),
            found is None ==> forall|id: int| !self@.is_ready(id),
            self@.find_next_task() == match found {
                Some(next) => Some(next as int),
                None => None,
            },
    {
        let current: usize = self.current_task;
        let mut id: usize = current + 1;
        while id < current + self.num_app + 1
            invariant
                self.wf(),
                current == self.current_task,
                current + 1 <= id <= current + self.num_app + 1,
                forall|other: int|
                    self@.is_ready(other) ==> self@.turns_until(other) >= id - current,
            decreases current + self.num_app + 1 - id,
        {
            let candidate: usize = id % self.num_app;
            proof {
                model::lemma_at_turn(self@, id - current);
            }
            if self.tasks[candidate].task_status == TaskStatus::Ready {
                proof {
                    model::lemma_next_is_found(self@, candidate as int);
                }
                return Some(candidate);
            }
            id += 1;
        }
        proof {
            assert forall|other: int| !self@.is_ready(other) by {
                if self@.is_ready(other) {
                    model::lemma_turns(self@, other);
                }
            }
        }
        None
    }

    /// Counts one system call `syscall_id` for the current task.  An
    /// identifier at or beyond [`MAX_SYSCALL_NUM`] is ignored.
    pub fn count_syscall(&mut self, syscall_id: usize)
        requires
            old(self).wf(),
            old(self)@.current_task().has_room(syscall_id),
        ensures
            final(self).wf(),
            final(self)@ == old(self)@.count_syscall(syscall_id),
            syscall_id >= MAX_SYSCALL_NUM ==> final(self)@ == old(self)@,
    {
        let current: usize = self.current_task;
        self.tasks[current].count_syscall(syscall_id);
        assert(self@.tasks =~= old(self)@.count_syscall(syscall_id).tasks);
        proof {
            if syscall_id >= MAX_SYSCALL_NUM {
                laws::lemma_uncounted_syscall(old(self)@, syscall_id);
            }
        }
    }

    /// Reports on the current task at the clock reading `now_us`: the whole
    /// milliseconds since it first ran (none before a start was recorded),
    /// its status and its counters.
    pub fn get_current_task_info(&self, now_us: usize) -> (info: TaskInfo)
        requires
            self.wf(),
            self@.current_task().start_time_us <= now_us,
        ensures
            info.time == self@.current_task().elapsed_ms(now_us),
            info.status == self@.current_task().task_status,
            info.syscall_times@ == self@.current_task().syscall_times,
    {
        let task = self.tasks[self.current_task];
        let time: usize = if task.start_time_us == 0 {
            0
        } else {
            (now_us - task.start_time_us) / 1000
        };
        TaskInfo { time, status: task.task_status, syscall_times: task.syscall_times }
    }

    /// Offers the clock reading `now_us` as the start time of the current
    /// task.  It is taken only if the task has none yet.
    pub fn init_current_task_start_time(&mut self, now_us: usize)
        requires
            old(self).wf(),
        ensures
            final(self).wf(),
            final(self)@ == old(self)@.init_current_task_start_time(now_us),
    {
        let current: usize = self.current_task;
        self.tasks[current].init_start_time(now_us);
        assert(self@.tasks =~= old(self)@.init_current_task_start_time(now_us).tasks);
    }
}

/// Starts the scheduler: task 0 becomes the running one.  The caller then
/// switches into the context of task 0 and does not come back.
pub fn run_first_task(manager: &mut TaskManager)
    requires
        old(manager).wf(),
    ensures
        final(manager).wf(),
        final(manager)@ == old(manager)@.run_first_task(),
{
    manager.run_first_task();
}

/// The current task gives way: it becomes ready again, and control passes
/// to the next ready task in cyclic order, which may be the same task.
/// There always is one, so the answer always is a switch.
pub fn suspend_current_and_run_next(manager: &mut TaskManager) -> (plan: Dispatch)
    requires
        old(manager).wf(),
    ensures
        final(manager).wf(),
        final(manager)@ == old(manager)@.suspend_current_and_run_next(),
        plan == old(manager)@.mark_current_suspended().dispatch(),
        old(manager)@.mark_current_suspended().moves_on(plan, final(manager)@),
        plan is Switch,
{
    manager.mark_current_suspended();
    proof {
        let ready = manager@;
        assert(ready.is_ready(ready.current));
        model::lemma_find_next_task(ready);
    }
    manager.run_next_task()
}

/// The current task ends: it is marked as exited, and control passes to
/// the next ready task in cyclic order.  Where none is left the caller is
/// told that all applications are done.
pub fn exit_current_and_run_next(manager: &mut TaskManager) -> (plan: Dispatch)
    requires
        old(manager).wf(),
    ensures
        final(manager).wf(),
        final(manager)@ == old(manager)@.exit_current_and_run_next(),
        plan == old(manager)@.mark_current_exited().dispatch(),
        old(manager)@.mark_current_exited().moves_on(plan, final(manager)@),
{
    manager.mark_current_exited();
    manager.run_next_task()
}

/// Reports on the current task at the clock reading `now_us`.
pub fn get_task_info(manager: &TaskManager, now_us: usize) -> (info: TaskInfo)
    requires
        manager.wf(),
        manager@.current_task().start_time_us <= now_us,
    ensures
        info.time == manager@.current_task().elapsed_ms(now_us),
        info.status == manager@.current_task().task_status,
        info.syscall_times@ == manager@.current_task().syscall_times,
{
    manager.get_current_task_info(now_us)
}

/// Counts one system call `syscall_id` for the current task.
pub fn count_syscall(manager: &mut TaskManager, syscall_id: usize)
    requires
        old(manager).wf(),
        old(manager)@.current_task().has_room(syscall_id),
    ensures
        final(manager).wf(),
        final(manager)@ == old(manager)@.count_syscall(syscall_id),
        syscall_id >= MAX_SYSCALL_NUM ==> final(manager)@ == old(manager)@,
{
    manager.count_syscall(syscall_id);
}

/// Offers the clock reading `now_us` as the start time of the current
/// task.  It is taken only if the task has none yet.
pub fn init_task_time(manager: &mut TaskManager, now_us: usize)
    requires
        old(manager).wf(),
    ensures
        final(manager).wf(),
        final(manager)@ == old(manager)@.init_current_task_start_time(now_us),
{
    manager.init_current_task_start_time(now_us);
}

} // verus!
