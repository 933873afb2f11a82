//! Thread control blocks and the layout of user stacks.
use vstd::prelude::*;

use crate::config::{LOW_ADDRESS_END, MAX_TID, PAGE_SIZE, USER_STACK_SIZE};
use crate::memory::{MemorySet, MAP_R, MAP_U, MAP_W};
use crate::signal::KSignalSet;
use crate::trap_context::TrapContext;

verus! {

/// Scheduling state of a thread.
#[derive(Clone, Copy, Debug, PartialEq, Eq, Structural)]
pub enum ThreadStatus {
    /// Eligible to be resumed by the executor.
    Ready,
    /// Executing on some hart.
    Running,
}

/// The mutable state of a thread.
#[derive(Clone, Copy, Debug)]
pub struct ThreadInner {
    pub exit_code: i32,
    pub thread_status: ThreadStatus,
    pub trap_context: TrapContext,
    /// Signals blocked for this thread.
    pub signal_mask: KSignalSet,
}

/// A thread control block.
///
/// A thread is owned by whoever runs it (a hart, or the scheduler's queue),
/// so its inner state has one mutable path at a time: `lock_inner`.
pub struct Thread {
    tid: usize,
    /// Id of the owning process.
    process: usize,
    inner: ThreadInner,
}

/// Start of the slot of thread `tid`: its stack, then its guard page below.
pub open spec fn user_stack_high_spec(tid: usize) -> int {
    LOW_ADDRESS_END - tid * (USER_STACK_SIZE + PAGE_SIZE)
}

/// Lowest address of the user stack of thread `tid`.
pub open spec fn user_stack_low_spec(tid: usize) -> int {
    user_stack_high_spec(tid) - USER_STACK_SIZE
}

/// The stacks of two distinct threads are disjoint, and between them lies
/// at least one page that belongs to neither: the guard page below the
/// higher stack.
pub proof fn lemma_user_stacks_disjoint(a: usize, b: usize)
    requires
        a != b,
    ensures
        user_stack_high_spec(a) <= user_stack_low_spec(b) - PAGE_SIZE
            || user_stack_high_spec(b) <= user_stack_low_spec(a) - PAGE_SIZE,
{
    if a < b {
        assert(b * (USER_STACK_SIZE + PAGE_SIZE) >= (a + 1) * (USER_STACK_SIZE + PAGE_SIZE))
            by (nonlinear_arith)
            requires
                a < b,
        ;
    } else {
        assert(a * (USER_STACK_SIZE + PAGE_SIZE) >= (b + 1) * (USER_STACK_SIZE + PAGE_SIZE))
            by (nonlinear_arith)
            requires
                b < a,
        ;
    }
}

proof fn lemma_stack_in_range(tid: usize)
    requires
        tid <= MAX_TID,
    ensures
        USER_STACK_SIZE <= user_stack_high_spec(tid) <= LOW_ADDRESS_END,
        0 <= user_stack_low_spec(tid),
{
    assert(tid * (USER_STACK_SIZE + PAGE_SIZE) <= MAX_TID * (USER_STACK_SIZE + PAGE_SIZE))
        by (nonlinear_arith)
        requires
            tid <= MAX_TID,
    ;
}

impl Thread {
    /// The inner state, as `lock_inner` hands it out.
    pub closed spec fn inner_spec(&self) -> ThreadInner {
        self.inner
    }

    /// The thread's id.
    pub closed spec fn tid_spec(&self) -> usize {
        self.tid
    }

    /// Id of the owning process.
    pub closed spec fn process_spec(&self) -> usize {
        self.process
    }

    /// Returns the thread's id.
    pub fn tid(&self) -> (r: usize)
        ensures
            r == self.tid_spec(),
    {
        self.tid
    }

    /// Returns the id of the owning process.
    pub fn process(&self) -> (r: usize)
        ensures
            r == self.process_spec(),
    {
        self.process
    }

    /// A ready thread of `process` with exit code 0 and nothing blocked.
    pub fn new(process: usize, tid: usize, trap_context: TrapContext) -> (r: Thread)
        ensures
            r.tid_spec() == tid,
            r.process_spec() == process,
            r.inner_spec().exit_code == 0,
            r.inner_spec().thread_status == ThreadStatus::Ready,
            r.inner_spec().trap_context == trap_context,
            r.inner_spec().signal_mask.bits == 0,
    {
        Thread {
            tid,
            process,
            inner: ThreadInner {
                exit_code: 0,
                thread_status: ThreadStatus::Ready,
                trap_context,
                signal_mask: KSignalSet::empty(),
            },
        }
    }

    /// Exclusive access to the inner state; the borrow ends the critical
    /// section.
    pub fn lock_inner(&mut self) -> (r: &mut ThreadInner)
        ensures
            *r == old(self).inner_spec(),
            final(self).inner_spec() == *final(r),
            final(self).tid_spec() == old(self).tid_spec(),
            final(self).process_spec() == old(self).process_spec(),
    {
        &mut self.inner
    }

    /// Shared access to the inner state, for reading.
    pub fn read_inner(&self) -> (r: &ThreadInner)
        ensures
            *r == self.inner_spec(),
    {
        &self.inner
    }

    /// Maps the user stack of thread `tid` into `memory_set`, readable,
    /// writable and user-accessible, and returns its high address. The
    /// guard page below it stays unmapped.
    pub fn alloc_user_stack(tid: usize, memory_set: &mut MemorySet) -> (r: u64)
        requires
            tid <= MAX_TID,
        ensures
            r == user_stack_high_spec(tid),
            final(memory_set)@ == old(memory_set)@.push(
                crate::memory::MapArea {
                    start_vpn: (user_stack_low_spec(tid) / PAGE_SIZE as int) as u64,
                    end_vpn: (user_stack_high_spec(tid) / PAGE_SIZE as int) as u64,
                    perm: MAP_R | MAP_W | MAP_U,
                },
            ),
    {
        let ustack_low_addr = Self::user_stack_low_addr(tid);
        let ustack_high_addr = ustack_low_addr + USER_STACK_SIZE;
        memory_set.insert_framed_area(
            ustack_low_addr / PAGE_SIZE,
            ustack_high_addr / PAGE_SIZE,
            MAP_R | MAP_W | MAP_U,
        );
        ustack_high_addr
    }

    /// Lowest address of the user stack of thread `tid`.
    pub fn user_stack_low_addr(tid: usize) -> (r: u64)
        requires
            tid <= MAX_TID,
        ensures
            r == user_stack_low_spec(tid),
    {
        Self::user_stack_high_addr(tid) - USER_STACK_SIZE
    }

    /// High address of the user stack of thread `tid`; below each stack
    /// lies a guard page.
    pub fn user_stack_high_addr(tid: usize) -> (r: u64)
        requires
            tid <= MAX_TID,
        ensures
            r == user_stack_high_spec(tid),
            r >= USER_STACK_SIZE,
    {
        proof {
            lemma_stack_in_range(tid);
        }
        LOW_ADDRESS_END - (tid as u64) * (USER_STACK_SIZE + PAGE_SIZE)
    }

    /// Unmaps this thread's user stack from `memory_set`.
    pub fn dealloc_user_stack(&self, memory_set: &mut MemorySet)
        requires
            self.tid_spec() <= MAX_TID,
        ensures
            (forall|j: int|
                0 <= j < old(memory_set)@.len() ==> old(memory_set)@[j].start_vpn != (
                user_stack_low_spec(self.tid_spec()) / PAGE_SIZE as int)) ==> final(memory_set)@ == old(
                memory_set,
            )@,
            (exists|j: int|
                0 <= j < old(memory_set)@.len() && old(memory_set)@[j].start_vpn == (
                user_stack_low_spec(self.tid_spec()) / PAGE_SIZE as int)) ==> exists|i: int|
                0 <= i < old(memory_set)@.len() && old(memory_set)@[i].start_vpn == (
                user_stack_low_spec(self.tid_spec()) / PAGE_SIZE as int) && (forall|j: int|
                    0 <= j < i ==> old(memory_set)@[j].start_vpn != (user_stack_low_spec(self.tid_spec())
                        / PAGE_SIZE as int)) && final(memory_set)@ == old(memory_set)@.remove(i),
    {
        let low = Self::user_stack_low_addr(self.tid);
        memory_set.remove_area_with_start_vpn(low / PAGE_SIZE);
    }

    /// Marks the thread ready before it gives up its hart; the caller then
    /// suspends at the executor's yield point.
    pub fn yield_now(&mut self)
        ensures
            final(self).inner_spec().thread_status == ThreadStatus::Ready,
            final(self).inner_spec().exit_code == old(self).inner_spec().exit_code,
            final(self).inner_spec().trap_context == old(self).inner_spec().trap_context,
            final(self).inner_spec().signal_mask == old(self).inner_spec().signal_mask,
            final(self).tid_spec() == old(self).tid_spec(),
            final(self).process_spec() == old(self).process_spec(),
    {
        self.inner.thread_status = ThreadStatus::Ready;
    }
}

} // verus!
