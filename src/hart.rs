//! Per-hart state, the table of harts, and the decisions of bring-up.
use vstd::prelude::*;

use crate::config::HART_NUM;
use crate::thread::Thread;
use crate::trap_context::TrapContext;

verus! {

/// The state of one processor core. Only the core it is installed on
/// touches it.
pub struct Hart {
    hart_id: usize,
    /// The thread this hart is running, if any.
    thread: Option<Thread>,
}

impl Hart {
    /// The hart's id.
    pub closed spec fn id_spec(&self) -> usize {
        self.hart_id
    }

    /// The thread the hart is running.
    pub closed spec fn thread_spec(&self) -> Option<Thread> {
        self.thread
    }

    /// A hart with id 0 that runs no thread.
    pub fn new() -> (r: Hart)
        ensures
            r.id_spec() == 0,
            r.thread_spec() is None,
    {
        Hart { hart_id: 0, thread: None }
    }

    /// Returns the hart's id.
    pub fn hart_id(&self) -> (r: usize)
        ensures
            r == self.id_spec(),
    {
        self.hart_id
    }

    /// The trap context of the thread the hart runs; only a user thread
    /// has one.
    pub fn trap_context(&self) -> (r: TrapContext)
        requires
            self.thread_spec() is Some,
        ensures
            r == self.thread_spec().unwrap().inner_spec().trap_context,
    {
        match &self.thread {
            Some(t) => t.read_inner().trap_context,
            None => TrapContext::app_init(0, 0, 0),
        }
    }

    /// Makes the hart run `new_thread` and returns the thread it ran.
    pub fn replace_thread(&mut self, new_thread: Option<Thread>) -> (r: Option<Thread>)
        ensures
            r == old(self).thread_spec(),
            final(self).thread_spec() == new_thread,
            final(self).id_spec() == old(self).id_spec(),
    {
        let old_thread = self.thread.take();
        self.thread = new_thread;
        old_thread
    }

    /// The thread the hart runs.
    pub fn curr_thread(&self) -> (r: &Thread)
        requires
            self.thread_spec() is Some,
        ensures
            *r == self.thread_spec().unwrap(),
    {
        self.thread.as_ref().unwrap()
    }

    /// Exclusive access to the thread the hart runs.
    pub fn curr_thread_mut(&mut self) -> (r: &mut Thread)
        requires
            old(self).thread_spec() is Some,
        ensures
            *r == old(self).thread_spec().unwrap(),
            final(self).thread_spec() == Some(*final(r)),
            final(self).id_spec() == old(self).id_spec(),
    {
        self.thread.as_mut().unwrap()
    }

    /// Id of the process whose thread the hart runs.
    pub fn curr_process(&self) -> (r: usize)
        requires
            self.thread_spec() is Some,
        ensures
            r == self.thread_spec().unwrap().process_spec(),
    {
        self.curr_thread().process()
    }
}

/// The table of harts, one slot for each core, indexed by hart id.
pub struct Harts {
    harts: Vec<Hart>,
}

impl View for Harts {
    type V = Seq<Hart>;

    closed spec fn view(&self) -> Seq<Hart> {
        self.harts@
    }
}

impl Harts {
    /// There is one slot for each hart.
    pub open spec fn wf(&self) -> bool {
        self@.len() == HART_NUM
    }

    /// A table of idle harts, none of them installed yet.
    pub fn new() -> (r: Harts)
        ensures
            r.wf(),
            forall|i: int| 0 <= i < HART_NUM ==> (#[trigger] r@[i]).thread_spec() is None,
    {
        let mut harts: Vec<Hart> = Vec::new();
        let mut i: usize = 0;
        while i < HART_NUM
            invariant
                i <= HART_NUM,
                harts@.len() == i,
                forall|j: int| 0 <= j < i ==> (#[trigger] harts@[j]).thread_spec() is None,
            decreases HART_NUM - i,
        {
            harts.push(Hart::new());
            i = i + 1;
        }
        Harts { harts }
    }

    /// Installs the slot of `hart_id` as that core's hart: records its id
    /// there.
    pub fn set_local_hart(&mut self, hart_id: usize)
        requires
            old(self).wf(),
            hart_id < HART_NUM,
        ensures
            final(self).wf(),
            final(self)@[hart_id as int].id_spec() == hart_id,
            final(self)@[hart_id as int].thread_spec() == old(self)@[hart_id as int].thread_spec(),
            forall|i: int| 0 <= i < HART_NUM && i != hart_id ==> final(self)@[i] == old(self)@[i],
    {
        self.harts[hart_id].hart_id = hart_id;
    }

    /// The hart of core `hart_id`.
    pub fn local_hart(&self, hart_id: usize) -> (r: &Hart)
        requires
            self.wf(),
            hart_id < HART_NUM,
        ensures
            *r == self@[hart_id as int],
    {
        &self.harts[hart_id]
    }

    /// Exclusive access to the hart of core `hart_id`.
    pub fn local_hart_mut(&mut self, hart_id: usize) -> (r: &mut Hart)
        requires
            old(self).wf(),
            hart_id < HART_NUM,
        ensures
            *r == old(self)@[hart_id as int],
            final(self)@ == old(self)@.update(hart_id as int, *final(r)),
    {
        &mut self.harts[hart_id]
    }

    /// Id of the process whose thread core `hart_id` runs.
    pub fn curr_process(&self, hart_id: usize) -> (r: usize)
        requires
            self.wf(),
            hart_id < HART_NUM,
            self@[hart_id as int].thread_spec() is Some,
        ensures
            r == self@[hart_id as int].thread_spec().unwrap().process_spec(),
    {
        self.local_hart(hart_id).curr_process()
    }
}

/// Outcome of one core's leader election: whether it leads, and the leader
/// after it.
pub open spec fn elect_spec(leader: Option<usize>, hart_id: usize) -> (bool, Option<usize>) {
    match leader {
        None => (true, Some(hart_id)),
        Some(l) => (false, Some(l)),
    }
}

/// What the cores `ids` learn when they run the election in this order,
/// starting from `leader`.
pub open spec fn elections(leader: Option<usize>, ids: Seq<usize>) -> Seq<bool>
    decreases ids.len(),
{
    if ids.len() == 0 {
        Seq::empty()
    } else {
        let (won, next) = elect_spec(leader, ids[0]);
        seq![won] + elections(next, ids.drop_first())
    }
}

proof fn lemma_elections_after_leader(l: usize, ids: Seq<usize>)
    ensures
        elections(Some(l), ids).len() == ids.len(),
        forall|i: int| 0 <= i < ids.len() ==> !elections(Some(l), ids)[i],
    decreases ids.len(),
{
    if ids.len() > 0 {
        lemma_elections_after_leader(l, ids.drop_first());
        let rest = elections(Some(l), ids.drop_first());
        assert forall|i: int| 0 <= i < ids.len() implies !elections(Some(l), ids)[i] by {
            if i > 0 {
                assert(elections(Some(l), ids)[i] == rest[i - 1]);
            }
        }
    }
}

/// Of all the cores that run the election from the start, exactly one
/// leads: the first.
pub proof fn lemma_single_leader(ids: Seq<usize>)
    requires
        ids.len() > 0,
    ensures
        elections(None, ids).len() == ids.len(),
        forall|i: int| 0 <= i < ids.len() ==> (elections(None, ids)[i] <==> i == 0),
{
    lemma_elections_after_leader(ids[0], ids.drop_first());
    let rest = elections(Some(ids[0]), ids.drop_first());
    assert forall|i: int| 0 <= i < ids.len() implies (elections(None, ids)[i] <==> i == 0) by {
        if i > 0 {
            assert(elections(None, ids)[i] == rest[i - 1]);
        }
    }
}

/// The shared flags of bring-up: who leads, whether the leader has
/// finished initialising, and which cores have installed their hart.
pub struct BootState {
    leader: Option<usize>,
    init_finished: bool,
    installed: Vec<bool>,
}

impl BootState {
    /// The core that won the election, if any.
    pub closed spec fn leader_spec(&self) -> Option<usize> {
        self.leader
    }

    /// Whether the leader has published the end of initialisation.
    pub closed spec fn init_finished_spec(&self) -> bool {
        self.init_finished
    }

    /// Entry `i` tells whether core `i` has installed its hart.
    pub closed spec fn installed_spec(&self) -> Seq<bool> {
        self.installed@
    }

    /// Initialisation is published only once the leader has installed its
    /// hart.
    pub open spec fn wf(&self) -> bool {
        &&& self.installed_spec().len() == HART_NUM
        &&& self.init_finished_spec() ==> (self.leader_spec() matches Some(l) && l < HART_NUM
            && self.installed_spec()[l as int])
    }

    /// Every installed slot of `harts` carries its own index as id.
    pub open spec fn installs_match(&self, harts: &Harts) -> bool {
        forall|i: int|
            0 <= i < HART_NUM && #[trigger] self.installed_spec()[i] ==> harts@[i].id_spec() == i
    }

    /// The flags at power-on: no leader yet, nothing initialised or
    /// installed.
    pub fn new() -> (r: BootState)
        ensures
            r.wf(),
            r.leader_spec() is None,
            !r.init_finished_spec(),
            forall|i: int| 0 <= i < HART_NUM ==> !r.installed_spec()[i],
    {
        let mut installed: Vec<bool> = Vec::new();
        let mut i: usize = 0;
        while i < HART_NUM
            invariant
                i <= HART_NUM,
                installed@.len() == i,
                forall|j: int| 0 <= j < i ==> !installed@[j],
            decreases HART_NUM - i,
        {
            installed.push(false);
            i = i + 1;
        }
        BootState { leader: None, init_finished: false, installed }
    }

    /// Returns the core that won the election, if any.
    pub fn leader(&self) -> (r: Option<usize>)
        ensures
            r == self.leader_spec(),
    {
        self.leader
    }

    /// Returns whether the leader has published the end of initialisation.
    pub fn init_finished(&self) -> (r: bool)
        ensures
            r == self.init_finished_spec(),
    {
        self.init_finished
    }

    /// Returns whether core `hart_id` has installed its hart.
    pub fn is_installed(&self, hart_id: usize) -> (r: bool)
        requires
            self.wf(),
            hart_id < HART_NUM,
        ensures
            r == self.installed_spec()[hart_id as int],
    {
        self.installed[hart_id]
    }

    /// Core `hart_id` tries to become the leader; only the first to try
    /// does.
    pub fn elect(&mut self, hart_id: usize) -> (r: bool)
        requires
            old(self).wf(),
        ensures
            final(self).wf(),
            (r, final(self).leader_spec()) == elect_spec(old(self).leader_spec(), hart_id),
            final(self).init_finished_spec() == old(self).init_finished_spec(),
            final(self).installed_spec() == old(self).installed_spec(),
    {
        match self.leader {
            None => {
                self.leader = Some(hart_id);
                true
            },
            Some(_) => false,
        }
    }

    /// Whether core `hart_id` may install its hart now: the leader at once,
    /// the others once initialisation is published.
    pub open spec fn may_install_spec(&self, hart_id: usize) -> bool {
        self.leader_spec() == Some(hart_id) || self.init_finished_spec()
    }

    /// Returns whether core `hart_id` may install its hart now; a follower
    /// that may not yet spins and asks again.
    pub fn may_install(&self, hart_id: usize) -> (r: bool)
        ensures
            r == self.may_install_spec(hart_id),
    {
        self.init_finished || match self.leader {
            Some(l) => l == hart_id,
            None => false,
        }
    }

    /// Installs the hart of core `hart_id` in `harts`.
    pub fn install(&mut self, harts: &mut Harts, hart_id: usize)
        requires
            old(self).wf(),
            old(harts).wf(),
            old(self).installs_match(old(harts)),
            hart_id < HART_NUM,
            old(self).may_install_spec(hart_id),
        ensures
            final(self).wf(),
            final(harts).wf(),
            final(self).installs_match(final(harts)),
            final(self).installed_spec() == old(self).installed_spec().update(hart_id as int, true),
            final(self).leader_spec() == old(self).leader_spec(),
            final(self).init_finished_spec() == old(self).init_finished_spec(),
            final(harts)@[hart_id as int].id_spec() == hart_id,
            final(harts)@[hart_id as int].thread_spec() == old(harts)@[hart_id as int].thread_spec(),
    {
        harts.set_local_hart(hart_id);
        self.installed.set(hart_id, true);
    }

    /// The leader publishes that shared initialisation is done.
    pub fn finish_init(&mut self)
        requires
            old(self).wf(),
            old(self).leader_spec() matches Some(l) && l < HART_NUM
                && old(self).installed_spec()[l as int],
        ensures
            final(self).wf(),
            final(self).init_finished_spec(),
            final(self).leader_spec() == old(self).leader_spec(),
            final(self).installed_spec() == old(self).installed_spec(),
    {
        self.init_finished = true;
    }
}

/// Installed harts carry distinct ids, each the index of its core.
pub proof fn lemma_installed_ids_unique(boot: BootState, harts: Harts, i: int, j: int)
    requires
        boot.installs_match(&harts),
        0 <= i < HART_NUM,
        0 <= j < HART_NUM,
        boot.installed_spec()[i],
        boot.installed_spec()[j],
        i != j,
    ensures
        harts@[i].id_spec() == i,
        harts@[i].id_spec() != harts@[j].id_spec(),
{
}

} // verus!
