use std::collections::HashMap;
use vstd::prelude::*;
use vstd::std_specs::hash::obeys_key_model;

verus! {

broadcast use vstd::std_specs::hash::group_hash_axioms;

/// Identity of a task. Any value with equality and hashing can name a task.
pub trait Config {
    type TaskId: Eq + std::hash::Hash;
}

impl<T: Eq + std::hash::Hash> Config for T {
    type TaskId = T;
}

/// Why a suspended task is waiting.
#[derive(Clone, Copy, Debug, PartialEq, Eq, Structural)]
pub enum WaitReason {
    /// Waiting for the descriptor registered under this token to become ready.
    Io(usize),
}

/// The readiness a registration asks for; it always names at least one.
#[derive(Clone, Copy, Debug, PartialEq, Eq, Structural)]
pub enum Interest {
    Readable,
    Writable,
    ReadWrite,
}

/// A registration request made by a running task on its own behalf.
#[derive(Clone, Copy, Debug, PartialEq, Eq, Structural)]
pub enum Reg {
    /// Register a descriptor under a token.
    Reg(usize, Interest),
    /// Change the token or interest of a registered descriptor.
    ReReg(usize, Interest),
    /// Forget a registered descriptor.
    DeReg,
}

/// The wait reason a task holds after making the request `reg`.
pub open spec fn wait_after(reg: Reg) -> Option<WaitReason> {
    match reg {
        Reg::Reg(token, _) => Some(WaitReason::Io(token)),
        Reg::ReReg(token, _) => Some(WaitReason::Io(token)),
        Reg::DeReg => None,
    }
}

/// The record of one task: why it is currently suspended, if it is.
#[derive(Clone, Copy, Debug, PartialEq, Eq, Structural)]
pub struct TaskContext {
    pub wait: Option<WaitReason>,
}

/// The table of task contexts, one per live task identity.
pub struct TaskContexts<K> {
    table: HashMap<K, TaskContext>,
}

impl<K> View for TaskContexts<K> {
    type V = Map<K, Option<WaitReason>>;

    closed spec fn view(&self) -> Map<K, Option<WaitReason>> {
        self.table@.map_values(|c: TaskContext| c.wait)
    }
}

impl<K: std::hash::Hash + Eq> TaskContexts<K> {
    /// The key type behaves as a mathematical key under its `Eq` and `Hash`.
    pub open spec fn wf(&self) -> bool {
        obeys_key_model::<K>()
    }

    pub fn new() -> (r: Self)
        requires
            obeys_key_model::<K>(),
        ensures
            r.wf(),
            r@ == Map::<K, Option<WaitReason>>::empty(),
    {
        let r = TaskContexts { table: HashMap::new() };
        assert(r@ =~= Map::<K, Option<WaitReason>>::empty());
        r
    }

    /// A task was spawned under `id`: it starts with no wait reason. A live
    /// context under the same identity is replaced.
    pub fn spawned(&mut self, id: K)
        requires
            old(self).wf(),
        ensures
            final(self).wf(),
            final(self)@ == old(self)@.insert(id, None),
    {
        self.table.insert(id, TaskContext { wait: None });
        assert(self@ =~= old(self)@.insert(id, None));
    }

    /// The task `id` made the request `reg` while it was running.
    pub fn record(&mut self, id: K, reg: &Reg)
        requires
            old(self).wf(),
        ensures
            final(self).wf(),
            final(self)@ == old(self)@.insert(id, wait_after(*reg)),
    {
        let wait = match reg {
            Reg::Reg(token, _) => Some(WaitReason::Io(*token)),
            Reg::ReReg(token, _) => Some(WaitReason::Io(*token)),
            Reg::DeReg => None,
        };
        self.table.insert(id, TaskContext { wait });
        assert(self@ =~= old(self)@.insert(id, wait_after(*reg)));
    }

    /// Why the task `id` is suspended; `None` for a task with no context.
    pub fn wait_reason(&self, id: &K) -> (r: Option<WaitReason>)
        requires
            self.wf(),
        ensures
            r == (if self@.contains_key(*id) {
                self@[*id]
            } else {
                None
            }),
    {
        match self.table.get(id) {
            Some(c) => c.wait,
            None => None,
        }
    }

    /// The task `id` asked for `reg` and the readiness primitive `accepted`
    /// it or not: only an accepted request changes what the task waits for.
    pub fn requested(&mut self, id: K, reg: &Reg, accepted: bool)
        requires
            old(self).wf(),
        ensures
            final(self).wf(),
            final(self)@ == (if accepted {
                old(self)@.insert(id, wait_after(*reg))
            } else {
                old(self)@
            }),
    {
        if accepted {
            self.record(id, reg);
        }
    }

    /// The task `id` is gone: its context is erased.
    pub fn finish(&mut self, id: &K)
        requires
            old(self).wf(),
        ensures
            final(self).wf(),
            final(self)@ == old(self)@.remove(*id),
    {
        self.table.remove(id);
        assert(self@ =~= old(self)@.remove(*id));
    }

    /// The number of live contexts.
    pub fn len(&self) -> (r: usize)
        requires
            self.wf(),
        ensures
            r == self@.len(),
    {
        assert(self@.dom() =~= self.table@.dom());
        self.table.len()
    }
}


/// What a poll of a task reported.
#[derive(Clone, Copy, Debug, PartialEq, Eq, Structural)]
pub enum Outcome {
    Ready,
    Pending,
}

/// What became of a task after one poll.
#[derive(Debug)]
pub enum Settled<T> {
    /// It finished and was dropped.
    Completed,
    /// It waits on the token; a task that waited on that token before it is
    /// handed back.
    Parked(usize, Option<T>),
    /// It is pending with no wait reason: nothing can resume it, so it was
    /// dropped.
    Abandoned,
}

/// What the run loop does next.
#[derive(Clone, Copy, Debug, PartialEq, Eq, Structural)]
pub enum Phase {
    /// Take and poll the next newly spawned task.
    Drain,
    /// Block for readiness events of the parked tasks.
    Wait,
    /// Stop: nothing is queued or parked.
    Done,
}

/// The next phase of the run loop, given whether the injection queue is
/// empty and the parked tasks.
pub open spec fn phase_of<T>(queue_empty: bool, parked: Map<usize, T>) -> Phase {
    if !queue_empty {
        Phase::Drain
    } else if parked.is_empty() {
        Phase::Done
    } else {
        Phase::Wait
    }
}

/// The parked tasks after a poll of `task` reported `outcome` while its
/// context held `wait`.
pub open spec fn parked_after<T>(
    parked: Map<usize, T>,
    task: T,
    outcome: Outcome,
    wait: Option<WaitReason>,
) -> Map<usize, T> {
    match (outcome, wait) {
        (Outcome::Pending, Some(WaitReason::Io(token))) => parked.insert(token, task),
        _ => parked,
    }
}

/// The parked tasks after the polls `polls`, in order, each a task, what its
/// poll reported and its wait reason right after.
pub open spec fn parked_after_all<T>(
    parked: Map<usize, T>,
    polls: Seq<(T, Outcome, Option<WaitReason>)>,
) -> Map<usize, T>
    decreases polls.len(),
{
    if polls.len() == 0 {
        parked
    } else {
        let p = polls.last();
        parked_after(parked_after_all(parked, polls.drop_last()), p.0, p.1, p.2)
    }
}

/// The tasks of the run loop that wait on a readiness token.
pub struct RunLoop<T> {
    parked: HashMap<usize, T>,
}

impl<T> View for RunLoop<T> {
    type V = Map<usize, T>;

    closed spec fn view(&self) -> Map<usize, T> {
        self.parked@
    }
}

impl<T> RunLoop<T> {
    pub fn new() -> (r: Self)
        ensures
            r@ == Map::<usize, T>::empty(),
    {
        let r = RunLoop { parked: HashMap::new() };
        assert(r@ =~= Map::<usize, T>::empty());
        r
    }

    /// The next phase: newly spawned tasks are drained before any wait, and
    /// the loop stops once nothing is queued or parked.
    pub fn next_phase(&self, queue_empty: bool) -> (r: Phase)
        ensures
            r == phase_of(queue_empty, self@),
    {
        if !queue_empty {
            Phase::Drain
        } else if self.parked.is_empty() {
            Phase::Done
        } else {
            Phase::Wait
        }
    }

    /// Settle the task `id` after a poll that reported `outcome`. A pending
    /// task is parked under the token of its context's wait reason; a task
    /// that completed or cannot be resumed has its context erased.
    pub fn settle<K: std::hash::Hash + Eq>(
        &mut self,
        contexts: &mut TaskContexts<K>,
        id: &K,
        task: T,
        outcome: Outcome,
    ) -> (r: Settled<T>)
        requires
            old(contexts).wf(),
        ensures
            final(contexts).wf(),
            ({
                let wait = if old(contexts)@.contains_key(*id) {
                    old(contexts)@[*id]
                } else {
                    None
                };
                &&& final(self)@ == parked_after(old(self)@, task, outcome, wait)
                &&& match (outcome, wait) {
                    (Outcome::Ready, _) => r is Completed && final(contexts)@ == old(
                        contexts,
                    )@.remove(*id),
                    (Outcome::Pending, None) => r is Abandoned && final(contexts)@ == old(
                        contexts,
                    )@.remove(*id),
                    (Outcome::Pending, Some(WaitReason::Io(token))) => {
                        &&& final(contexts)@ == old(contexts)@
                        &&& match r {
                            Settled::Parked(t, displaced) => t == token && displaced == (
                                if old(self)@.contains_key(token) {
                                    Some(old(self)@[token])
                                } else {
                                    None
                                }),
                            _ => false,
                        }
                    },
                }
            }),
    {
        let wait = contexts.wait_reason(id);
        match outcome {
            Outcome::Ready => {
                contexts.finish(id);
                Settled::Completed
            },
            Outcome::Pending => match wait {
                Some(WaitReason::Io(token)) => {
                    let displaced = self.parked.insert(token, task);
                    Settled::Parked(token, displaced)
                },
                None => {
                    contexts.finish(id);
                    Settled::Abandoned
                },
            },
        }
    }

    /// Take the task parked on `token`, which became ready.
    pub fn wake(&mut self, token: usize) -> (r: Option<T>)
        ensures
            final(self)@ == old(self)@.remove(token),
            r == (if old(self)@.contains_key(token) {
                Some(old(self)@[token])
            } else {
                None
            }),
    {
        self.parked.remove(&token)
    }

    /// Whether no task is parked.
    pub fn is_idle(&self) -> (r: bool)
        ensures
            r == self@.is_empty(),
    {
        self.parked.is_empty()
    }

    /// The number of parked tasks.
    pub fn parked(&self) -> (r: usize)
        ensures
            r == self@.len(),
    {
        self.parked.len()
    }
}


/// Whether a poll parks its task: it reported pending with a wait reason.
pub open spec fn parks<T>(p: (T, Outcome, Option<WaitReason>)) -> bool {
    p.1 == Outcome::Pending && p.2 is Some
}

/// Polls none of which parks its task leave the parked tasks as they were.
pub proof fn lemma_unparked_polls_keep_parked<T>(
    parked: Map<usize, T>,
    polls: Seq<(T, Outcome, Option<WaitReason>)>,
)
    requires
        forall|i: int| 0 <= i < polls.len() ==> !parks(#[trigger] polls[i]),
    ensures
        parked_after_all(parked, polls) == parked,
    decreases polls.len(),
{
    if polls.len() > 0 {
        let rest = polls.drop_last();
        assert forall|i: int| 0 <= i < rest.len() implies !parks(#[trigger] rest[i]) by {
            assert(rest[i] == polls[i]);
        }
        lemma_unparked_polls_keep_parked(parked, rest);
        assert(!parks(polls[polls.len() - 1]));
    }
}

/// Tasks that all complete on their first poll park nothing: a run that
/// starts with nothing parked drains them and stops without ever waiting.
pub proof fn lemma_ready_tasks_never_wait<T>(polls: Seq<(T, Outcome, Option<WaitReason>)>)
    requires
        forall|i: int| 0 <= i < polls.len() ==> (#[trigger] polls[i]).1 == Outcome::Ready,
    ensures
        parked_after_all(Map::<usize, T>::empty(), polls) == Map::<usize, T>::empty(),
        phase_of(true, parked_after_all(Map::<usize, T>::empty(), polls)) == Phase::Done,
{
    assert forall|i: int| 0 <= i < polls.len() implies !parks(#[trigger] polls[i]) by {
        assert(polls[i].1 == Outcome::Ready);
    }
    lemma_unparked_polls_keep_parked(Map::<usize, T>::empty(), polls);
}

/// A task whose poll reports ready, however its computation is nested, is
/// completed by that poll and never parked.
pub proof fn lemma_ready_task_not_parked<T>(
    parked: Map<usize, T>,
    task: T,
    wait: Option<WaitReason>,
)
    ensures
        parked_after(parked, task, Outcome::Ready, wait) == parked,
{
}

/// The run loop waits only once the injection queue is empty: a task
/// spawned by a running task is polled before the next wait.
pub proof fn lemma_wait_only_on_empty_queue<T>(queue_empty: bool, parked: Map<usize, T>)
    ensures
        phase_of(queue_empty, parked) == Phase::Wait ==> queue_empty,
        !queue_empty ==> phase_of(queue_empty, parked) == Phase::Drain,
{
}

/// A task parked on a token is the one that a readiness event for that token
/// hands back, and taking it leaves the other parked tasks as they were.
pub proof fn lemma_parked_task_woken_by_its_token<T>(
    parked: Map<usize, T>,
    task: T,
    token: usize,
)
    ensures
        parked_after(parked, task, Outcome::Pending, Some(WaitReason::Io(token))).contains_key(
            token,
        ),
        parked_after(parked, task, Outcome::Pending, Some(WaitReason::Io(token)))[token] == task,
        parked_after(parked, task, Outcome::Pending, Some(WaitReason::Io(token))).remove(token)
            == parked.remove(token),
{
    assert(parked.insert(token, task).remove(token) =~= parked.remove(token));
}

/// Tasks that report pending without registering any interest are not
/// parked, so nothing resumes them: a run that starts with nothing parked
/// stops after polling them once, though none of them completed.
pub proof fn lemma_unregistered_pending_not_resumed<T>(
    polls: Seq<(T, Outcome, Option<WaitReason>)>,
)
    requires
        forall|i: int|
            0 <= i < polls.len() ==> (#[trigger] polls[i]).1 == Outcome::Pending
                && polls[i].2 is None,
    ensures
        parked_after_all(Map::<usize, T>::empty(), polls) == Map::<usize, T>::empty(),
        phase_of(true, parked_after_all(Map::<usize, T>::empty(), polls)) == Phase::Done,
{
    assert forall|i: int| 0 <= i < polls.len() implies !parks(#[trigger] polls[i]) by {
        assert(polls[i].2 is None);
    }
    lemma_unparked_polls_keep_parked(Map::<usize, T>::empty(), polls);
}

} // verus!
