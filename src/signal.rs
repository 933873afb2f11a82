//! Signal numbers, signal sets, signal actions and the per-process table
//! of actions.
use vstd::prelude::*;

use crate::trap_context::TrapContext;

verus! {

/// Number of signals the kernel supports; they are numbered from 1.
pub const SIGNAL_NUM: usize = 64;

/// The kill signal, which can be neither caught nor ignored.
pub const SIGKILL: usize = 9;

/// The stop signal, which can be neither caught nor ignored.
pub const SIGSTOP: usize = 19;

/// Size in bytes of the signal set the kernel supports.
pub const SIGSET_SIZE_BYTES: usize = 8;

/// Flag of a signal action: its `restorer` field holds a trampoline that
/// calls `sigreturn` when the handler returns.
pub const SA_RESTORER: u64 = 0x0400_0000;

/// Handler value that asks for the default behaviour of a signal.
pub const SIG_DFL: usize = 0;

/// Whether `signum` names a signal the kernel knows.
pub open spec fn is_supported_signal(signum: usize) -> bool {
    1 <= signum <= SIGNAL_NUM
}

/// Whether user code may read or change the action of `signum`.
pub open spec fn is_catchable_signal(signum: usize) -> bool {
    is_supported_signal(signum) && signum != SIGKILL && signum != SIGSTOP
}

/// A set of signals: signal `n` is bit `n - 1`.
#[derive(Clone, Copy, Debug, PartialEq, Eq, Structural)]
pub struct KSignalSet {
    pub bits: u64,
}

impl KSignalSet {
    /// The empty set.
    pub fn empty() -> (r: KSignalSet)
        ensures
            r.bits == 0,
    {
        KSignalSet { bits: 0 }
    }

    /// Whether signal `signum` is in the set.
    pub open spec fn contains_spec(&self, signum: usize) -> bool {
        self.bits & (1u64 << ((signum - 1) as u64)) != 0
    }

    /// Returns whether signal `signum` is in the set.
    pub fn contains(&self, signum: usize) -> (r: bool)
        requires
            is_supported_signal(signum),
        ensures
            r == self.contains_spec(signum),
    {
        self.bits & (1u64 << ((signum - 1) as u64)) != 0
    }

    /// Adds every signal of `other` to the set.
    pub fn insert(&mut self, other: KSignalSet)
        ensures
            final(self).bits == old(self).bits | other.bits,
    {
        self.bits = self.bits | other.bits;
    }

    /// Takes every signal of `other` out of the set.
    pub fn remove(&mut self, other: KSignalSet)
        ensures
            final(self).bits == old(self).bits & !other.bits,
    {
        self.bits = self.bits & !other.bits;
    }
}

/// What a process does on a signal.
#[derive(Clone, Copy, Debug, PartialEq, Eq, Structural)]
pub struct KSignalAction {
    /// Handler address, or `SIG_DFL` / ignore.
    pub handler: usize,
    /// `SA_*` flags.
    pub flags: u64,
    /// Trampoline run when the handler returns, if `SA_RESTORER` is set.
    pub restorer: usize,
    /// Signals blocked while the handler runs.
    pub mask: KSignalSet,
}

impl KSignalAction {
    /// The default action: `SIG_DFL`, no flags, nothing blocked.
    pub open spec fn default_spec() -> KSignalAction {
        KSignalAction { handler: SIG_DFL, flags: 0, restorer: 0, mask: KSignalSet { bits: 0 } }
    }

    /// Returns the default action.
    pub fn new() -> (r: KSignalAction)
        ensures
            r == KSignalAction::default_spec(),
    {
        KSignalAction { handler: SIG_DFL, flags: 0, restorer: 0, mask: KSignalSet::empty() }
    }

    /// Whether the action carries a restorer trampoline.
    pub open spec fn has_restorer_spec(&self) -> bool {
        self.flags & SA_RESTORER != 0
    }

    /// Returns whether the action carries a restorer trampoline.
    pub fn has_restorer(&self) -> (r: bool)
        ensures
            r == self.has_restorer_spec(),
    {
        self.flags & SA_RESTORER != 0
    }
}

/// A process's table of signal actions, one for each supported signal.
pub struct SignalHandlers {
    actions: Vec<KSignalAction>,
}

impl View for SignalHandlers {
    /// Entry `n - 1` is the action of signal `n`.
    type V = Seq<KSignalAction>;

    closed spec fn view(&self) -> Seq<KSignalAction> {
        self.actions@
    }
}

impl SignalHandlers {
    /// The table has one entry for each supported signal.
    pub open spec fn wf(&self) -> bool {
        self@.len() == SIGNAL_NUM
    }

    /// A table that gives every signal its default action.
    pub fn new() -> (r: SignalHandlers)
        ensures
            r.wf(),
            forall|i: int| 0 <= i < SIGNAL_NUM ==> r@[i] == KSignalAction::default_spec(),
    {
        let mut actions: Vec<KSignalAction> = Vec::new();
        let mut i: usize = 0;
        while i < SIGNAL_NUM
            invariant
                i <= SIGNAL_NUM,
                actions@.len() == i,
                forall|j: int| 0 <= j < i ==> actions@[j] == KSignalAction::default_spec(),
            decreases SIGNAL_NUM - i,
        {
            actions.push(KSignalAction::new());
            i = i + 1;
        }
        SignalHandlers { actions }
    }

    /// The action of signal `signum`.
    pub fn action(&self, signum: usize) -> (r: &KSignalAction)
        requires
            self.wf(),
            is_supported_signal(signum),
        ensures
            *r == self@[signum - 1],
    {
        &self.actions[signum - 1]
    }

    /// Replaces the action of signal `signum`.
    pub fn set_action(&mut self, signum: usize, act: KSignalAction)
        requires
            old(self).wf(),
            is_supported_signal(signum),
        ensures
            final(self).wf(),
            final(self)@ == old(self)@.update(signum - 1, act),
    {
        self.actions.set(signum - 1, act);
    }
}

/// How `sigprocmask` applies the given set to the thread's mask.
#[derive(Clone, Copy, Debug, PartialEq, Eq, Structural)]
pub enum SigprocmaskHow {
    /// Block the given signals too.
    Block,
    /// Unblock the given signals.
    Unblock,
    /// Replace the mask by the given set.
    SetMask,
}

/// The `how` value that `code` encodes, if any.
pub open spec fn how_of(code: usize) -> Option<SigprocmaskHow> {
    if code == 0 {
        Some(SigprocmaskHow::Block)
    } else if code == 1 {
        Some(SigprocmaskHow::Unblock)
    } else if code == 2 {
        Some(SigprocmaskHow::SetMask)
    } else {
        None
    }
}

impl SigprocmaskHow {
    /// Decodes a `how` argument: 0 blocks, 1 unblocks, 2 sets the mask.
    pub fn try_from_code(code: usize) -> (r: Option<SigprocmaskHow>)
        ensures
            r == how_of(code),
    {
        if code == 0 {
            Some(SigprocmaskHow::Block)
        } else if code == 1 {
            Some(SigprocmaskHow::Unblock)
        } else if code == 2 {
            Some(SigprocmaskHow::SetMask)
        } else {
            None
        }
    }
}

/// The mask that results from applying `set` to `mask` as `how` says.
pub open spec fn apply_how(how: SigprocmaskHow, mask: KSignalSet, set: KSignalSet) -> KSignalSet {
    match how {
        SigprocmaskHow::Block => KSignalSet { bits: mask.bits | set.bits },
        SigprocmaskHow::Unblock => KSignalSet { bits: mask.bits & !set.bits },
        SigprocmaskHow::SetMask => set,
    }
}

/// Blocking a set and then unblocking it leaves the mask as it was, but
/// for the signals of the set, which end unblocked; when none of them
/// was blocked before, the mask is back to where it started.
pub proof fn lemma_block_then_unblock(mask: KSignalSet, set: KSignalSet)
    ensures
        apply_how(SigprocmaskHow::Unblock, apply_how(SigprocmaskHow::Block, mask, set), set).bits
            == mask.bits & !set.bits,
        mask.bits & set.bits == 0 ==> apply_how(
            SigprocmaskHow::Unblock,
            apply_how(SigprocmaskHow::Block, mask, set),
            set,
        ) == mask,
{
    let m = mask.bits;
    let s = set.bits;
    assert((m | s) & !s == m & !s) by (bit_vector);
    assert(m & s == 0 ==> m & !s == m) by (bit_vector);
}

/// Setting the mask to a set makes it exactly that set, whatever it was.
pub proof fn lemma_set_mask_exact(mask: KSignalSet, set: KSignalSet)
    ensures
        apply_how(SigprocmaskHow::SetMask, mask, set) == set,
{
}

/// What the signal-delivery path saves on the user stack before running a
/// handler, and `sigreturn` restores.
#[derive(Clone, Copy, Debug)]
pub struct SignalContext {
    pub old_mask: KSignalSet,
    pub old_trap_context: TrapContext,
}

} // verus!
