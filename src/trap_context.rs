//! The saved user-mode register state of a thread.
use vstd::prelude::*;

verus! {

/// Snapshot of a thread's user registers taken on trap entry.
#[derive(Clone, Copy, Debug)]
pub struct TrapContext {
    /// General registers `x0` to `x31`.
    pub user_regs: [usize; 32],
    /// Saved `sstatus`.
    pub sstatus: usize,
    /// Saved program counter.
    pub sepc: usize,
}

/// Index of the stack pointer among the general registers.
pub const SP_INDEX: usize = 2;

impl TrapContext {
    /// A context that starts at `entry` with stack pointer `sp` and all
    /// other registers zero.
    pub fn app_init(entry: usize, sp: usize, sstatus: usize) -> (r: TrapContext)
        ensures
            r.sepc == entry,
            r.sstatus == sstatus,
            r.user_regs@[SP_INDEX as int] == sp,
            forall|i: int| 0 <= i < 32 && i != SP_INDEX ==> r.user_regs@[i] == 0,
    {
        let mut user_regs: [usize; 32] = [0; 32];
        user_regs[SP_INDEX] = sp;
        TrapContext { user_regs, sstatus, sepc: entry }
    }

    /// The saved stack pointer.
    pub open spec fn sp_spec(&self) -> usize {
        self.user_regs@[SP_INDEX as int]
    }

    /// Returns the saved stack pointer.
    pub fn sp(&self) -> (r: usize)
        ensures
            r == self.sp_spec(),
    {
        self.user_regs[SP_INDEX]
    }
}

} // verus!
