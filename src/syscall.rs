//! The signal syscalls: `rt_sigaction`, `rt_sigprocmask` and `rt_sigreturn`.
//!
//! A user pointer reaches these functions already checked against the
//! calling process's mapped areas: as `UserRead` for one the kernel reads
//! through, as `UserWrite` for one it writes through. What a call writes
//! back to user memory comes out in `SyscallReply::write_back`.
use vstd::prelude::*;

use crate::signal::{
    apply_how, how_of, is_catchable_signal, KSignalAction, KSignalSet,
    SignalContext, SignalHandlers, SigprocmaskHow, SIGKILL, SIGSET_SIZE_BYTES, SIGSTOP,
};
use crate::thread::{Thread, ThreadInner};

verus! {

/// Errors of the signal syscalls.
#[derive(Clone, Copy, Debug, PartialEq, Eq, Structural)]
pub enum Errno {
    /// A bad signal number, `how` value or set size.
    EINVAL,
    /// A user pointer that failed validation.
    EFAULT,
    /// A signal action without a restorer trampoline, which the kernel
    /// does not provide.
    ENOSYS,
    /// The saved signal context could not be read; the process is ended.
    BREAK,
}

/// A user pointer the kernel reads a `T` through.
#[derive(Debug)]
pub enum UserRead<T> {
    /// The pointer was NULL.
    Null,
    /// The pointer does not name readable user memory.
    Fault,
    /// The pointer is valid and holds this value.
    Value(T),
}

/// A user pointer the kernel writes through.
#[derive(Clone, Copy, Debug, PartialEq, Eq, Structural)]
pub enum UserWrite {
    /// The pointer was NULL.
    Null,
    /// The pointer does not name writable user memory.
    Fault,
    /// The pointer names writable user memory.
    Valid,
}

/// What a syscall returns, and what it writes through its output pointer.
pub struct SyscallReply<T> {
    pub result: Result<usize, Errno>,
    pub write_back: Option<T>,
}

/// Result, value written back and new table of `rt_sigaction` on the table
/// `h`.
pub open spec fn sigaction_spec(
    h: Seq<KSignalAction>,
    signum: usize,
    act: UserRead<KSignalAction>,
    old_act: UserWrite,
) -> (Result<usize, Errno>, Option<KSignalAction>, Seq<KSignalAction>) {
    if !is_catchable_signal(signum) {
        (Err(Errno::EINVAL), None, h)
    } else if old_act == UserWrite::Fault {
        (Err(Errno::EFAULT), None, h)
    } else {
        let wb = if old_act == UserWrite::Valid {
            Some(h[signum - 1])
        } else {
            None
        };
        match act {
            UserRead::Null => (Ok(0), wb, h),
            UserRead::Fault => (Err(Errno::EFAULT), wb, h),
            UserRead::Value(a) => if a.has_restorer_spec() {
                (Ok(0), wb, h.update(signum - 1, a))
            } else {
                (Err(Errno::ENOSYS), wb, h)
            },
        }
    }
}

/// Reads and/or replaces the action of `signum` in the calling process's
/// table `handlers`.
pub fn sys_rt_sigaction(
    handlers: &mut SignalHandlers,
    signum: usize,
    act: UserRead<KSignalAction>,
    old_act: UserWrite,
) -> (r: SyscallReply<KSignalAction>)
    requires
        old(handlers).wf(),
    ensures
        final(handlers).wf(),
        (r.result, r.write_back, final(handlers)@) == sigaction_spec(
            old(handlers)@,
            signum,
            act,
            old_act,
        ),
        signum == SIGKILL || signum == SIGSTOP ==> r.result == Err::<usize, Errno>(Errno::EINVAL)
            && final(handlers)@ == old(handlers)@,
        (act matches UserRead::Value(a) && !a.has_restorer_spec()) ==> r.result.is_err()
            && final(handlers)@ == old(handlers)@,
{
    if !(1 <= signum && signum <= crate::signal::SIGNAL_NUM) || signum == SIGKILL || signum
        == SIGSTOP {
        return SyscallReply { result: Err(Errno::EINVAL), write_back: None };
    }
    let mut write_back: Option<KSignalAction> = None;
    match old_act {
        UserWrite::Fault => {
            return SyscallReply { result: Err(Errno::EFAULT), write_back: None };
        },
        UserWrite::Valid => {
            write_back = Some(*handlers.action(signum));
        },
        UserWrite::Null => {},
    }
    match act {
        UserRead::Null => SyscallReply { result: Ok(0), write_back },
        UserRead::Fault => SyscallReply { result: Err(Errno::EFAULT), write_back },
        UserRead::Value(a) => {
            if !a.has_restorer() {
                SyscallReply { result: Err(Errno::ENOSYS), write_back }
            } else {
                handlers.set_action(signum, a);
                SyscallReply { result: Ok(0), write_back }
            }
        },
    }
}

/// An action stored by `rt_sigaction` is what the next `rt_sigaction` on
/// the same signal reads back.
pub proof fn lemma_sigaction_round_trip(
    h: Seq<KSignalAction>,
    signum: usize,
    a: KSignalAction,
    old_act: UserWrite,
)
    requires
        h.len() == crate::signal::SIGNAL_NUM,
        is_catchable_signal(signum),
        a.has_restorer_spec(),
        old_act != UserWrite::Fault,
    ensures
        ({
            let h1 = sigaction_spec(h, signum, UserRead::Value(a), old_act).2;
            sigaction_spec(h1, signum, UserRead::Null, UserWrite::Valid).1 == Some(a)
        }),
{
}

/// Result, value written back and new mask of `rt_sigprocmask` on a thread
/// whose mask is `mask`.
pub open spec fn sigprocmask_spec(
    mask: KSignalSet,
    how: usize,
    set: UserRead<KSignalSet>,
    old_set: UserWrite,
    set_size: usize,
) -> (Result<usize, Errno>, Option<KSignalSet>, KSignalSet) {
    if set_size > SIGSET_SIZE_BYTES {
        (Err(Errno::EINVAL), None, mask)
    } else if old_set == UserWrite::Fault {
        (Err(Errno::EFAULT), None, mask)
    } else {
        let wb = if old_set == UserWrite::Valid {
            Some(mask)
        } else {
            None
        };
        match how_of(how) {
            None => (Err(Errno::EINVAL), wb, mask),
            Some(h) => match set {
                UserRead::Null => (Ok(0), wb, mask),
                UserRead::Fault => (Err(Errno::EFAULT), wb, mask),
                UserRead::Value(s) => (Ok(0), wb, apply_how(h, mask, s)),
            },
        }
    }
}

/// Through `rt_sigprocmask`, blocking a set and then unblocking it leaves
/// the mask as it was but for the signals of the set, which end unblocked
/// (so with none of them blocked before, the mask is back where it
/// started); setting the mask to a set makes it exactly that set.
pub proof fn lemma_sigprocmask_mask_algebra(mask: KSignalSet, set: KSignalSet)
    ensures
        ({
            let blocked = sigprocmask_spec(mask, 0, UserRead::Value(set), UserWrite::Null, SIGSET_SIZE_BYTES).2;
            let back = sigprocmask_spec(blocked, 1, UserRead::Value(set), UserWrite::Null, SIGSET_SIZE_BYTES).2;
            &&& back.bits == mask.bits & !set.bits
            &&& mask.bits & set.bits == 0 ==> back == mask
        }),
        sigprocmask_spec(mask, 2, UserRead::Value(set), UserWrite::Null, SIGSET_SIZE_BYTES).2 == set,
{
    crate::signal::lemma_block_then_unblock(mask, set);
}

/// The parts of a thread's inner state other than its signal mask are
/// equal.
pub open spec fn same_but_mask(a: ThreadInner, b: ThreadInner) -> bool {
    a.exit_code == b.exit_code && a.thread_status == b.thread_status && a.trap_context
        == b.trap_context
}

/// Reads and/or changes the signal mask of the calling thread.
pub fn sys_rt_sigprocmask(
    thread: &mut Thread,
    how: usize,
    set: UserRead<KSignalSet>,
    old_set: UserWrite,
    set_size: usize,
) -> (r: SyscallReply<KSignalSet>)
    ensures
        (r.result, r.write_back, final(thread).inner_spec().signal_mask) == sigprocmask_spec(
            old(thread).inner_spec().signal_mask,
            how,
            set,
            old_set,
            set_size,
        ),
        same_but_mask(final(thread).inner_spec(), old(thread).inner_spec()),
        final(thread).tid_spec() == old(thread).tid_spec(),
        final(thread).process_spec() == old(thread).process_spec(),
        set_size > SIGSET_SIZE_BYTES ==> r.result == Err::<usize, Errno>(Errno::EINVAL)
            && r.write_back.is_none() && final(thread).inner_spec() == old(thread).inner_spec(),
{
    if set_size > SIGSET_SIZE_BYTES {
        return SyscallReply { result: Err(Errno::EINVAL), write_back: None };
    }
    let mut write_back: Option<KSignalSet> = None;
    match old_set {
        UserWrite::Fault => {
            return SyscallReply { result: Err(Errno::EFAULT), write_back: None };
        },
        UserWrite::Valid => {
            write_back = Some(thread.read_inner().signal_mask);
        },
        UserWrite::Null => {},
    }
    let how = match SigprocmaskHow::try_from_code(how) {
        Some(h) => h,
        None => {
            return SyscallReply { result: Err(Errno::EINVAL), write_back };
        },
    };
    match set {
        UserRead::Null => SyscallReply { result: Ok(0), write_back },
        UserRead::Fault => SyscallReply { result: Err(Errno::EFAULT), write_back },
        UserRead::Value(s) => {
            let inner = thread.lock_inner();
            match how {
                SigprocmaskHow::Block => inner.signal_mask.insert(s),
                SigprocmaskHow::Unblock => inner.signal_mask.remove(s),
                SigprocmaskHow::SetMask => inner.signal_mask = s,
            }
            SyscallReply { result: Ok(0), write_back }
        },
    }
}

/// Exit code of a process whose saved signal context cannot be read.
pub const SIGRETURN_FAULT_EXIT_CODE: i32 = -10;

/// What the caller of `rt_sigreturn` does next.
#[derive(Clone, Copy, Debug, PartialEq, Eq, Structural)]
pub enum SigreturnAction {
    /// Resume the thread from its restored trap context.
    Resume,
    /// End the owning process with this exit code.
    ExitProcess(i32),
}

/// Address at which `rt_sigreturn` expects the saved signal context: the
/// thread's current stack pointer.
pub fn signal_context_addr(thread: &Thread) -> (r: usize)
    ensures
        r == thread.inner_spec().trap_context.sp_spec(),
{
    thread.read_inner().trap_context.sp()
}

/// Restores the state saved when a signal handler was entered. `saved` is
/// the signal context read at `signal_context_addr(thread)`, or `None` when
/// that address failed validation.
pub fn sys_rt_sigreturn(thread: &mut Thread, saved: Option<SignalContext>) -> (r: (
    Result<usize, Errno>,
    SigreturnAction,
))
    ensures
        final(thread).tid_spec() == old(thread).tid_spec(),
        final(thread).process_spec() == old(thread).process_spec(),
        saved is None ==> r == (Err::<usize, Errno>(Errno::BREAK), SigreturnAction::ExitProcess(
            SIGRETURN_FAULT_EXIT_CODE,
        )) && final(thread).inner_spec() == old(thread).inner_spec(),
        saved matches Some(ctx) ==> r == (Ok::<usize, Errno>(0), SigreturnAction::Resume)
            && final(thread).inner_spec().signal_mask == ctx.old_mask
            && final(thread).inner_spec().trap_context == ctx.old_trap_context
            && final(thread).inner_spec().exit_code == old(thread).inner_spec().exit_code
            && final(thread).inner_spec().thread_status == old(thread).inner_spec().thread_status,
{
    match saved {
        None => (Err(Errno::BREAK), SigreturnAction::ExitProcess(SIGRETURN_FAULT_EXIT_CODE)),
        Some(ctx) => {
            let inner = thread.lock_inner();
            inner.signal_mask = ctx.old_mask;
            inner.trap_context = ctx.old_trap_context;
            (Ok(0), SigreturnAction::Resume)
        },
    }
}

} // verus!
