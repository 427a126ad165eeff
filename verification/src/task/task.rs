//! The control block of one task and the states a task goes through.
use vstd::prelude::*;
use crate::config::MAX_SYSCALL_NUM;
use crate::task::context::{ContextView, TaskContext};

verus! {

/// Where a task stands in its life.
///
/// A slot starts `UnInit`, becomes `Ready` when the table is built, and then
/// alternates between `Running` and `Ready` until it ends as `Exited`.
#[derive(Clone, Copy, Debug, PartialEq, Eq, Structural)]
pub enum TaskStatus {
    UnInit,
    Ready,
    Running,
    Exited,
}

/// Everything the scheduler keeps about one task.
#[derive(Clone, Copy)]
pub struct TaskControBlock {
    pub task_status: TaskStatus,
    pub task_cx: TaskContext,
    /// The clock reading, in microseconds, at which the task first ran;
    /// 0 as long as none was recorded.
    pub start_time_us: usize,
    /// How often the task made each system call, by identifier.
    pub syscall_times: [u32; MAX_SYSCALL_NUM],
}

/// The mathematical value of a [`TaskControBlock`].
pub struct TaskView {
    pub task_status: TaskStatus,
    pub task_cx: ContextView,
    pub start_time_us: usize,
    pub syscall_times: Seq<u32>,
}

impl TaskView {
    /// The saved context is whole, and every system-call identifier that
    /// is counted has its counter.
    pub open spec fn wf(self) -> bool {
        self.task_cx.wf() && self.syscall_times.len() == MAX_SYSCALL_NUM
    }

    /// An unused slot: no status yet, an inert context, no start time and
    /// all counters at zero.
    pub open spec fn uninit() -> TaskView {
        TaskView {
            task_status: TaskStatus::UnInit,
            task_cx: ContextView::zero(),
            start_time_us: 0,
            syscall_times: Seq::new(MAX_SYSCALL_NUM as nat, |i: int| 0u32),
        }
    }

    /// A task that is ready for its first run: it will enter at `entry` on
    /// the stack `kstack_ptr`.
    pub open spec fn primed(kstack_ptr: usize, entry: usize) -> TaskView {
        TaskView {
            task_status: TaskStatus::Ready,
            task_cx: ContextView::entering(entry, kstack_ptr),
            ..Self::uninit()
        }
    }

    /// The same task in another status.
    pub open spec fn with_status(self, status: TaskStatus) -> TaskView {
        TaskView { task_status: status, ..self }
    }

    /// The task after the clock reading `now_us` was offered as its start
    /// time: it is taken only while no start time is recorded.
    pub open spec fn record_start(self, now_us: usize) -> TaskView {
        if self.start_time_us == 0 {
            TaskView { start_time_us: now_us, ..self }
        } else {
            self
        }
    }

    /// Whether a call with identifier `syscall_id` has a counter.
    pub open spec fn counts(syscall_id: usize) -> bool {
        syscall_id < MAX_SYSCALL_NUM
    }

    /// The task after one more system call `syscall_id`: its counter goes up
    /// by one; an identifier without a counter changes nothing.
    pub open spec fn count_syscall(self, syscall_id: usize) -> TaskView {
        if Self::counts(syscall_id) {
            TaskView {
                syscall_times: self.syscall_times.update(
                    syscall_id as int,
                    (self.syscall_times[syscall_id as int] + 1) as u32,
                ),
                ..self
            }
        } else {
            self
        }
    }

    /// Whether the counter of `syscall_id`, if there is one, can still go up.
    pub open spec fn has_room(self, syscall_id: usize) -> bool {
        Self::counts(syscall_id) ==> self.syscall_times[syscall_id as int] < u32::MAX
    }

    /// The whole milliseconds the task has been running at the clock reading
    /// `now_us`: none before a start time is recorded.
    pub open spec fn elapsed_ms(self, now_us: usize) -> int {
        if self.start_time_us == 0 {
            0
        } else {
            (now_us - self.start_time_us) / 1000
        }
    }
}

impl View for TaskControBlock {
    type V = TaskView;

    open spec fn view(&self) -> TaskView {
        TaskView {
            task_status: self.task_status,
            task_cx: self.task_cx@,
            start_time_us: self.start_time_us,
            syscall_times: self.syscall_times@,
        }
    }
}

impl TaskControBlock {
    /// An unused slot.
    pub fn new() -> (block: Self)
        ensures
            block@ == TaskView::uninit(),
    {
        let block = Self {
            task_status: TaskStatus::UnInit,
            task_cx: TaskContext::zero_init(),
            start_time_us: 0,
            syscall_times: [0; MAX_SYSCALL_NUM],
        };
        assert(block.syscall_times@ =~= Seq::new(MAX_SYSCALL_NUM as nat, |i: int| 0u32));
        block
    }

    /// Records `now_us`, a reading of the monotonic clock in microseconds,
    /// as the start time unless one is already recorded.
    pub fn init_start_time(&mut self, now_us: usize)
        ensures
            final(self)@ == old(self)@.record_start(now_us),
    {
        if self.start_time_us == 0 {
            self.start_time_us = now_us;
        }
    }

    /// Counts one system call with identifier `syscall_id`.  An identifier
    /// at or beyond [`MAX_SYSCALL_NUM`] is ignored.
    pub fn count_syscall(&mut self, syscall_id: usize)
        requires
            old(self)@.has_room(syscall_id),
        ensures
            final(self)@ == old(self)@.count_syscall(syscall_id),
            syscall_id >= MAX_SYSCALL_NUM ==> final(self)@ == old(self)@,
    {
        if syscall_id < MAX_SYSCALL_NUM {
            self.syscall_times[syscall_id] += 1;
        }
    }
}

} // verus!
