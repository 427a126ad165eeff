//! The saved execution context of a suspended task.
use vstd::prelude::*;

verus! {

/// The machine state from which a suspended flow of control is resumed: the
/// return point, the stack pointer and the twelve callee-saved registers.
#[derive(Clone, Copy, Debug, PartialEq, Eq)]
pub struct TaskContext {
    pub ra: usize,
    pub sp: usize,
    pub s: [usize; 12],
}

/// The mathematical value of a [`TaskContext`].
pub struct ContextView {
    pub ra: usize,
    pub sp: usize,
    pub s: Seq<usize>,
}

impl ContextView {
    /// There are twelve callee-saved registers.
    pub open spec fn wf(self) -> bool {
        self.s.len() == 12
    }

    /// The context that resumes at `ra` on the stack `sp`, with every
    /// callee-saved register cleared.
    pub open spec fn entering(ra: usize, sp: usize) -> ContextView {
        ContextView { ra, sp, s: Seq::new(12, |i: int| 0usize) }
    }

    /// The inert context: all of it is zero.
    pub open spec fn zero() -> ContextView {
        Self::entering(0, 0)
    }
}

impl View for TaskContext {
    type V = ContextView;

    open spec fn view(&self) -> ContextView {
        ContextView { ra: self.ra, sp: self.sp, s: self.s@ }
    }
}

impl TaskContext {
    /// An inert context.  It only serves as the place into which the very
    /// first switch saves the boot flow, which is never resumed.
    pub fn zero_init() -> (cx: Self)
        ensures
            cx@ == ContextView::zero(),
    {
        let cx = Self { ra: 0, sp: 0, s: [0; 12] };
        assert(cx.s@ =~= Seq::new(12, |i: int| 0usize));
        cx
    }

    /// The context of a task that has not run yet.  Its first resumption
    /// lands at `entry`, the address of the trampoline that records the
    /// task's start time and then falls into the usual return to user code;
    /// `kstack_ptr` is the top of the task's prepared kernel stack.
    pub fn goto_init_time(kstack_ptr: usize, entry: usize) -> (cx: Self)
        ensures
            cx@ == ContextView::entering(entry, kstack_ptr),
    {
        let cx = Self { ra: entry, sp: kstack_ptr, s: [0; 12] };
        assert(cx.s@ =~= Seq::new(12, |i: int| 0usize));
        cx
    }
}

} // verus!
