//! A manager of parallel queues that process tasks serially.
//!
//! Each queue is a bounded FIFO: tasks join at the back, a worker pops
//! from the front, and when a bound is set the oldest pending task is
//! evicted to make room for a newcomer. The manager owns the queues
//! and a stopped flag; the workers themselves, one thread per queue,
//! live with the caller, which pops tasks and runs them.

use vstd::prelude::*;
use vstd::string::*;
use std::collections::VecDeque;
use crate::strutil::str_eq;

verus! {

broadcast use vstd::std_specs::vecdeque::group_vec_dequeue_axioms;

/// Types that can be added to a manager queue. The manager itself
/// never calls these; the worker loops driving it do.
pub trait Runnable {
    fn run(&mut self);

    fn cancel(&self) {
    }
}

#[derive(Debug, PartialEq, Eq, Structural)]
pub enum Error {
    QueueMissing,
    Shutdown,
}

/// The sentence each error prints as.
pub open spec fn manager_error_message(e: Error) -> Seq<char> {
    match e {
        Error::QueueMissing => "could not find queue in queue map"@,
        Error::Shutdown => "manager is shut down"@,
    }
}

impl Error {
    pub fn description(&self) -> (r: &'static str)
        ensures
            r@ == manager_error_message(*self),
    {
        match *self {
            Error::QueueMissing => "could not find queue in queue map",
            Error::Shutdown => "manager is shut down",
        }
    }
}

/// The handle `ensure_queue` hands out.
#[derive(Debug, Clone)]
pub struct QueueKey {
    pub k: String,
}

impl PartialEq for QueueKey {
    fn eq(&self, other: &QueueKey) -> (r: bool) {
        self.k == other.k
    }
}

impl vstd::std_specs::cmp::PartialEqSpecImpl for QueueKey {
    open spec fn obeys_eq_spec() -> bool {
        true
    }

    open spec fn eq_spec(&self, other: &QueueKey) -> bool {
        self.k@ == other.k@
    }
}

/// What a push does to a queue's contents under a bound: a zero bound
/// drops the newcomer, a full queue gives up its oldest task, and
/// otherwise the newcomer joins at the back.
pub open spec fn push_outcome<T>(q: Seq<T>, limit: Option<u64>, task: T) -> (Seq<T>, Option<T>) {
    match limit {
        Some(l) => if l < 1 {
            (q, None)
        } else if q.len() + 1 > l {
            (q.skip(1).push(task), Some(q[0]))
        } else {
            (q.push(task), None)
        },
        None => (q.push(task), None),
    }
}

/// One bounded FIFO of pending tasks.
pub struct Queue<T> {
    pub queue: VecDeque<T>,
    pub limit: Option<u64>,
}

impl<T> Queue<T> {
    /// The queue never holds more than its bound.
    pub open spec fn inv(&self) -> bool {
        match self.limit {
            Some(l) => self.queue@.len() <= l,
            None => true,
        }
    }

    pub fn new(limit: Option<u64>) -> (r: Queue<T>)
        ensures
            r.queue@ == Seq::<T>::empty(),
            r.limit == limit,
            r.inv(),
    {
        Queue { queue: VecDeque::new(), limit }
    }

    /// Append a task; under a bound a full queue first evicts its
    /// oldest pending task, which is handed back for its cancel hook.
    pub fn push_task(&mut self, task: T) -> (evicted: Option<T>)
        requires
            old(self).inv(),
        ensures
            final(self).inv(),
            final(self).limit == old(self).limit,
            final(self).queue@ == push_outcome(old(self).queue@, old(self).limit, task).0,
            evicted == push_outcome(old(self).queue@, old(self).limit, task).1,
    {
        match self.limit {
            Some(l) => {
                if l < 1 {
                    return None;
                }
                if self.queue.len() as u64 >= l {
                    let evicted = self.queue.pop_front();
                    self.queue.push_back(task);
                    proof {
                        assert(self.queue@ =~= push_outcome(
                            old(self).queue@,
                            old(self).limit,
                            task,
                        ).0);
                    }
                    evicted
                } else {
                    self.queue.push_back(task);
                    None
                }
            },
            None => {
                self.queue.push_back(task);
                None
            },
        }
    }

    /// Take the oldest pending task, if one waits.
    pub fn pop_task(&mut self) -> (r: Option<T>)
        requires
            old(self).inv(),
        ensures
            final(self).inv(),
            final(self).limit == old(self).limit,
            match r {
                Some(t) => old(self).queue@.len() > 0 && t == old(self).queue@[0]
                    && final(self).queue@ == old(self).queue@.skip(1),
                None => old(self).queue@.len() == 0 && final(self).queue@ == old(self).queue@,
            },
    {
        self.queue.pop_front()
    }
}

/// Law: with no bound, a run of pushes stores the tasks exactly in
/// admission order, so a worker popping from the front serves them
/// first-in first-out.
pub open spec fn pushed_all<T>(q0: Seq<T>, ts: Seq<T>) -> Seq<T>
    decreases ts.len(),
{
    if ts.len() == 0 {
        q0
    } else {
        pushed_all(q0, ts.drop_last()).push(ts.last())
    }
}

pub proof fn lemma_fifo_order<T>(ts: Seq<T>)
    ensures
        pushed_all(Seq::<T>::empty(), ts) == ts,
    decreases ts.len(),
{
    if ts.len() == 0 {
        assert(pushed_all(Seq::<T>::empty(), ts) =~= ts);
    } else {
        lemma_fifo_order::<T>(ts.drop_last());
        assert(pushed_all(Seq::<T>::empty(), ts) =~= ts);
    }
}

/// Law: under a bound of at least one, a push to a full queue evicts
/// exactly the oldest pending task — never the newcomer — and the
/// surviving tasks keep their order.
pub proof fn lemma_bounded_eviction<T>(q: Seq<T>, l: u64, task: T)
    requires
        l >= 1,
        q.len() == l,
    ensures
        push_outcome(q, Some(l), task).1 == Some(q[0]),
        push_outcome(q, Some(l), task).0 =~= q.skip(1).push(task),
        push_outcome(q, Some(l), task).0.len() == l,
{
}

/// The multi-queue manager: the queues under their keys, the stopped
/// flag, and the bound every queue is created with.
pub struct TaskManager<T> {
    pub queues: Vec<(String, Queue<T>)>,
    pub stopped: bool,
    pub limit: Option<u64>,
}

/// Why an add is refused, if it is.
pub open spec fn add_refused<T>(m: TaskManager<T>, k: Seq<char>) -> Option<Error> {
    if m.stopped {
        Some(Error::Shutdown)
    } else if !m.has_queue(k) {
        Some(Error::QueueMissing)
    } else {
        None
    }
}

/// Law: a manager that was shut down refuses every add with Shutdown,
/// whatever the key, until a restart clears the flag.
pub proof fn lemma_shutdown_refuses<T>(m: TaskManager<T>, k: Seq<char>)
    requires
        m.stopped,
    ensures
        add_refused(m, k) == Some(Error::Shutdown),
{
}

impl<T> TaskManager<T> {
    /// Queues are well-formed, share the manager's bound, and no two
    /// carry the same key.
    pub open spec fn inv(&self) -> bool {
        &&& forall|i: int|
            0 <= i < self.queues@.len() ==> (#[trigger] self.queues@[i]).1.inv()
                && self.queues@[i].1.limit == self.limit
        &&& forall|i: int, j: int|
            0 <= i < j < self.queues@.len() ==> self.queues@[i].0@ != self.queues@[j].0@
    }

    pub open spec fn has_queue(&self, k: Seq<char>) -> bool {
        exists|i: int| 0 <= i < self.queues@.len() && (#[trigger] self.queues@[i]).0@ == k
    }

    /// The pending tasks under a key.
    pub open spec fn queue_at(&self, k: Seq<char>) -> Seq<T> {
        let i = choose|i: int| 0 <= i < self.queues@.len() && (#[trigger] self.queues@[i]).0@ == k;
        self.queues@[i].1.queue@
    }

    pub fn new(limit: Option<u64>) -> (r: TaskManager<T>)
        ensures
            r.queues@ == Seq::<(String, Queue<T>)>::empty(),
            !r.stopped,
            r.limit == limit,
            r.inv(),
    {
        TaskManager { queues: Vec::new(), stopped: false, limit }
    }

    /// Create the queue for a key unless one already exists; hand back
    /// the key either way.
    pub fn ensure_queue(&mut self, queue_key: String) -> (r: QueueKey)
        requires
            old(self).inv(),
        ensures
            final(self).inv(),
            r.k@ == queue_key@,
            final(self).stopped == old(self).stopped,
            final(self).limit == old(self).limit,
            final(self).has_queue(queue_key@),
            old(self).has_queue(queue_key@) ==> final(self).queues@ == old(self).queues@,
            !old(self).has_queue(queue_key@) ==> {
                &&& final(self).queues@.len() == old(self).queues@.len() + 1
                &&& final(self).queues@.take(old(self).queues@.len() as int) == old(self).queues@
                &&& final(self).queues@.last().0@ == queue_key@
                &&& final(self).queues@.last().1.queue@ == Seq::<T>::empty()
                &&& final(self).queues@.last().1.limit == old(self).limit
                &&& final(self).queue_at(queue_key@) == Seq::<T>::empty()
            },
    {
        let n = self.queues.len();
        let mut i: usize = 0;
        while i < n
            invariant
                0 <= i <= n,
                n == self.queues@.len(),
                *self == *old(self),
                self.inv(),
                forall|j: int| 0 <= j < i ==> (#[trigger] self.queues@[j]).0@ != queue_key@,
            decreases n - i,
        {
            if str_eq(self.queues[i].0.as_str(), queue_key.as_str()) {
                return QueueKey { k: queue_key };
            }
            i += 1;
        }
        let ghost pre = self.queues@;
        let q: Queue<T> = Queue::new(self.limit);
        let key_copy = queue_key.clone();
        self.queues.push((queue_key, q));
        proof {
            assert(self.queues@[pre.len() as int].0@ == key_copy@);
            assert(self.has_queue(key_copy@));
            let w = choose|i: int|
                0 <= i < self.queues@.len() && (#[trigger] self.queues@[i]).0@ == key_copy@;
            assert(forall|j: int| 0 <= j < pre.len() ==> (#[trigger] pre[j]).0@ != key_copy@);
            assert(w == pre.len() as int);
            assert(self.queue_at(key_copy@) =~= Seq::<T>::empty());
        }
        QueueKey { k: key_copy }
    }

    /// Append a task to its queue. A stopped manager refuses with
    /// Shutdown; an unknown key with QueueMissing; otherwise the task
    /// joins and whatever eviction the bound forced is handed back for
    /// its cancel hook.
    pub fn add_task(&mut self, queue_key: &QueueKey, task: T) -> (r: Result<Option<T>, Error>)
        requires
            old(self).inv(),
        ensures
            final(self).inv(),
            final(self).stopped == old(self).stopped,
            final(self).limit == old(self).limit,
            match add_refused(*old(self), queue_key.k@) {
                Some(e) => r == Err::<Option<T>, Error>(e)
                    && final(self).queues@ == old(self).queues@,
                None => {
                    &&& r matches Ok(ev)
                    &&& ev == push_outcome(
                        old(self).queue_at(queue_key.k@),
                        old(self).limit,
                        task,
                    ).1
                    &&& final(self).queue_at(queue_key.k@) == push_outcome(
                        old(self).queue_at(queue_key.k@),
                        old(self).limit,
                        task,
                    ).0
                    &&& final(self).has_queue(queue_key.k@)
                    &&& forall|k2: Seq<char>|
                        #[trigger] final(self).has_queue(k2) == old(self).has_queue(k2)
                    &&& forall|k2: Seq<char>|
                        k2 != queue_key.k@ && old(self).has_queue(k2)
                            ==> #[trigger] final(self).queue_at(k2) == old(self).queue_at(k2)
                },
            },
    {
        if self.stopped {
            return Err(Error::Shutdown);
        }
        let n = self.queues.len();
        let mut i: usize = 0;
        while i < n
            invariant
                0 <= i <= n,
                n == self.queues@.len(),
                *self == *old(self),
                !self.stopped,
                self.inv(),
                forall|j: int| 0 <= j < i ==> (#[trigger] self.queues@[j]).0@ != queue_key.k@,
            decreases n - i,
        {
            if str_eq(self.queues[i].0.as_str(), queue_key.k.as_str()) {
                let ghost pre = self.queues@;
                let ghost w = choose|t: int|
                    0 <= t < pre.len() && (#[trigger] pre[t]).0@ == queue_key.k@;
                proof {
                    assert(pre[i as int].0@ == queue_key.k@);
                    if w != i as int {
                        assert(pre[w].0@ != pre[i as int].0@);
                    }
                    assert(w == i as int);
                }
                let mut entry = self.queues.remove(i);
                let evicted = entry.1.push_task(task);
                self.queues.insert(i, entry);
                proof {
                    assert(self.queues@ =~= pre.update(
                        i as int,
                        (pre[i as int].0, self.queues@[i as int].1),
                    ));
                    assert forall|a: int, b: int|
                        0 <= a < b < self.queues@.len() implies self.queues@[a].0@
                        != self.queues@[b].0@ by {
                        assert(pre[a].0@ != pre[b].0@);
                    }
                    assert(self.has_queue(queue_key.k@));
                    let w2 = choose|t: int|
                        0 <= t < self.queues@.len() && (#[trigger] self.queues@[t]).0@
                            == queue_key.k@;
                    if w2 != i as int {
                        assert(self.queues@[w2].0@ != self.queues@[i as int].0@);
                    }
                    assert(w2 == i as int);
                    assert(forall|t: int|
                        0 <= t < pre.len() ==> (#[trigger] self.queues@[t]).0 == pre[t].0);
                    assert forall|k2: Seq<char>| #[trigger]
                        self.has_queue(k2) == old(self).has_queue(k2) by {
                        if self.has_queue(k2) {
                            let a = choose|t: int|
                                0 <= t < self.queues@.len() && (#[trigger] self.queues@[t]).0@
                                    == k2;
                            assert(pre[a].0@ == k2);
                            assert(old(self).has_queue(k2));
                        }
                        if old(self).has_queue(k2) {
                            let b = choose|t: int|
                                0 <= t < pre.len() && (#[trigger] pre[t]).0@ == k2;
                            assert(self.queues@[b].0@ == k2);
                            assert(self.has_queue(k2));
                        }
                    }
                    assert forall|k2: Seq<char>|
                        k2 != queue_key.k@ && old(self).has_queue(k2) implies #[trigger] self
                        .queue_at(k2) == old(self).queue_at(k2) by {
                        let b = choose|t: int| 0 <= t < pre.len() && (#[trigger] pre[t]).0@ == k2;
                        assert(pre[b].0@ == k2);
                        assert(self.queues@[b].0@ == k2);
                        assert(self.has_queue(k2));
                        let a = choose|t: int|
                            0 <= t < self.queues@.len() && (#[trigger] self.queues@[t]).0@ == k2;
                        assert(self.queues@[a].0@ == k2);
                        assert(pre[a].0@ == k2);
                        if a < b {
                            assert(0 <= a < b < pre.len());
                            assert(pre[a].0@ != pre[b].0@);
                            assert(false);
                        }
                        if b < a {
                            assert(0 <= b < a < pre.len());
                            assert(pre[b].0@ != pre[a].0@);
                            assert(false);
                        }
                        assert(a == b);
                        assert(pre[i as int].0@ == queue_key.k@);
                        if a == i as int {
                            assert(false);
                        }
                        assert(self.queues@[a].1 == pre[a].1);
                        assert(self.queue_at(k2) == self.queues@[a].1.queue@);
                        assert(old(self).queue_at(k2) == pre[b].1.queue@);
                    }
                }
                return Ok(evicted);
            }
            i += 1;
        }
        Err(Error::QueueMissing)
    }

    /// Stop taking tasks: every later add refuses with Shutdown until
    /// a restart. The caller drains its workers alongside.
    pub fn shutdown(&mut self)
        requires
            old(self).inv(),
        ensures
            final(self).inv(),
            final(self).stopped,
            final(self).queues@ == old(self).queues@,
            final(self).limit == old(self).limit,
    {
        self.stopped = true;
    }

    /// Clear the stopped flag; the caller restarts its workers.
    pub fn restart(&mut self)
        requires
            old(self).inv(),
        ensures
            final(self).inv(),
            !final(self).stopped,
            final(self).queues@ == old(self).queues@,
            final(self).limit == old(self).limit,
    {
        self.stopped = false;
    }
}

} // verus!
