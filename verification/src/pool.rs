//! A bounded pool of connection slots.
//!
//! The pool does the bookkeeping only: which slots are idle, in which order
//! they are handed out, and which are checked out. The live handles to the
//! backing store are kept by the caller, one per slot.

use std::collections::VecDeque;
use vstd::prelude::*;

verus! {

/// What a pool is, mathematically: the idle slots in hand-out order and the
/// set of slots that callers hold.
pub struct PoolState {
    pub capacity: nat,
    pub timeout_ms: nat,
    pub available: Seq<usize>,
    pub checked_out: Set<usize>,
}

/// One call made on a pool.
pub enum PoolOp {
    Acquire { waited_ms: u64 },
    Release { slot: usize },
}

/// What an attempt to acquire a connection comes to.
pub enum Attempt {
    /// The connection in this slot is handed out.
    Ready(usize),
    /// Every connection is out; this much of the timeout is left.
    Pending(nat),
    /// Every connection is out and the timeout has passed.
    TimedOut,
}

impl PoolState {
    /// Every slot below `capacity` is in exactly one of the two collections,
    /// and nothing else is in either.
    pub open spec fn wf(self) -> bool {
        &&& self.capacity > 0
        &&& self.available.no_duplicates()
        &&& self.checked_out.finite()
        &&& forall|i: int|
            0 <= i < self.available.len() ==> (#[trigger] self.available[i]) < self.capacity
        &&& forall|s: usize| #[trigger]
            self.checked_out.contains(s) ==> s < self.capacity && !self.available.contains(s)
        &&& forall|s: usize|
            s < self.capacity ==> self.available.contains(s)
                || #[trigger] self.checked_out.contains(s)
        &&& self.available.len() + self.checked_out.len() == self.capacity
    }

    /// What an attempt to acquire comes to for a caller that has waited
    /// `waited_ms` already: the slot at the front of the idle queue if
    /// there is one; else what is left of the timeout, or, once nothing is
    /// left, the end of the attempt.
    pub open spec fn attempt(self, waited_ms: nat) -> Attempt {
        if self.available.len() > 0 {
            Attempt::Ready(self.available[0])
        } else if waited_ms < self.timeout_ms {
            Attempt::Pending((self.timeout_ms - waited_ms) as nat)
        } else {
            Attempt::TimedOut
        }
    }

    /// The state after the slot at the front of the idle queue is handed out.
    pub open spec fn after_checkout(self) -> PoolState
        recommends
            self.available.len() > 0,
    {
        PoolState {
            available: self.available.drop_first(),
            checked_out: self.checked_out.insert(self.available[0]),
            ..self
        }
    }

    /// The state after an acquire: a slot leaves the idle queue if there is
    /// one, and nothing changes otherwise, however long the caller waited.
    pub open spec fn after_acquire(self) -> PoolState {
        if self.available.len() > 0 {
            self.after_checkout()
        } else {
            self
        }
    }

    /// The state after `slot` is handed back: it joins the back of the idle
    /// queue if it was checked out, and nothing changes otherwise.
    pub open spec fn after_release(self, slot: usize) -> PoolState {
        if self.checked_out.contains(slot) {
            PoolState {
                available: self.available.push(slot),
                checked_out: self.checked_out.remove(slot),
                ..self
            }
        } else {
            self
        }
    }

    /// The state after one call.
    pub open spec fn apply(self, op: PoolOp) -> PoolState {
        match op {
            PoolOp::Acquire { .. } => self.after_acquire(),
            PoolOp::Release { slot } => self.after_release(slot),
        }
    }

    /// The state after a run of calls, made in order.
    pub open spec fn apply_all(self, ops: Seq<PoolOp>) -> PoolState
        decreases ops.len(),
    {
        if ops.len() == 0 {
            self
        } else {
            self.apply_all(ops.drop_last()).apply(ops.last())
        }
    }
}

/// A checkout keeps the pool well formed.
pub proof fn lemma_checkout_preserves_wf(s: PoolState)
    requires
        s.wf(),
        s.available.len() > 0,
    ensures
        s.after_checkout().wf(),
{
    let t = s.after_checkout();
    assert forall|s2: usize| s2 < t.capacity implies t.available.contains(s2)
        || #[trigger] t.checked_out.contains(s2) by {
        if s2 != s.available[0] && !s.checked_out.contains(s2) {
            let j = choose|j: int| 0 <= j < s.available.len() && s.available[j] == s2;
            assert(t.available[j - 1] == s2);
        }
    }
}

/// A release keeps the pool well formed, whatever slot is named.
pub proof fn lemma_release_preserves_wf(s: PoolState, slot: usize)
    requires
        s.wf(),
    ensures
        s.after_release(slot).wf(),
{
    let t = s.after_release(slot);
    if s.checked_out.contains(slot) {
        assert forall|s2: usize| s2 < t.capacity implies t.available.contains(s2)
            || #[trigger] t.checked_out.contains(s2) by {
            if s2 == slot {
                assert(t.available[s.available.len() as int] == slot);
            } else if !s.checked_out.contains(s2) {
                let j = choose|j: int| 0 <= j < s.available.len() && s.available[j] == s2;
                assert(t.available[j] == s2);
            }
        }
    }
}

/// Conservation: from a well-formed pool, after every call of any run of
/// acquires and releases, the idle connections and the checked-out ones
/// together number exactly `capacity`, none twice and none missing.
pub proof fn lemma_conservation(s: PoolState, ops: Seq<PoolOp>)
    requires
        s.wf(),
    ensures
        forall|n: int|
            0 <= n <= ops.len() ==> {
                let t = #[trigger] s.apply_all(ops.take(n));
                &&& t.wf()
                &&& t.capacity == s.capacity
                &&& t.available.len() + t.checked_out.len() == s.capacity
            },
{
    assert forall|n: int| 0 <= n <= ops.len() implies {
        let t = #[trigger] s.apply_all(ops.take(n));
        &&& t.wf()
        &&& t.capacity == s.capacity
        &&& t.available.len() + t.checked_out.len() == s.capacity
    } by {
        lemma_apply_all_wf(s, ops.take(n));
    }
}

/// A run of calls on a well-formed pool ends in a well-formed pool of the
/// same capacity and timeout.
pub proof fn lemma_apply_all_wf(s: PoolState, ops: Seq<PoolOp>)
    requires
        s.wf(),
    ensures
        s.apply_all(ops).wf(),
        s.apply_all(ops).capacity == s.capacity,
        s.apply_all(ops).timeout_ms == s.timeout_ms,
    decreases ops.len(),
{
    if ops.len() > 0 {
        lemma_apply_all_wf(s, ops.drop_last());
        let mid = s.apply_all(ops.drop_last());
        match ops.last() {
            PoolOp::Acquire { .. } => {
                if mid.available.len() > 0 {
                    lemma_checkout_preserves_wf(mid);
                }
            },
            PoolOp::Release { slot } => {
                lemma_release_preserves_wf(mid, slot);
            },
        }
    }
}

/// A connection that was checked out and is released is available to the
/// next acquire: that acquire finds an idle connection whatever else is out,
/// and the released one is in the idle queue. If nothing else was idle, the
/// next acquire hands out the released connection itself.
pub proof fn lemma_released_is_available(s: PoolState, slot: usize)
    requires
        s.wf(),
        s.checked_out.contains(slot),
    ensures
        s.after_release(slot).available.len() > 0,
        s.after_release(slot).available.contains(slot),
        s.after_release(slot).after_acquire() == s.after_release(slot).after_checkout(),
        forall|waited_ms: nat| #[trigger]
            s.after_release(slot).attempt(waited_ms) is Ready,
        s.available.len() == 0 ==> s.after_release(slot).available[0] == slot,
        s.available.len() == 0 ==> s.after_release(slot).after_acquire() == s,
{
    let t = s.after_release(slot);
    assert(t.available[s.available.len() as int] == slot);
    if s.available.len() == 0 {
        let u = t.after_acquire();
        assert(u.available =~= s.available);
    }
}

/// An exhausted pool has every slot checked out, and only a release changes
/// it. An attempt to acquire leaves it exactly as it is and hands nothing
/// out: it is told to wait while the timeout lasts, and ends with a timeout
/// once the caller has waited that long.
pub proof fn lemma_exhausted_waits(s: PoolState, waited_ms: nat)
    requires
        s.wf(),
        s.available.len() == 0,
    ensures
        s.checked_out.len() == s.capacity,
        s.after_acquire() == s,
        waited_ms < s.timeout_ms ==> s.attempt(waited_ms) == Attempt::Pending(
            (s.timeout_ms - waited_ms) as nat,
        ),
        waited_ms >= s.timeout_ms ==> s.attempt(waited_ms) == Attempt::TimedOut,
{
}

/// The handle to one connection of a pool. It names the slot that the
/// connection occupies; whoever holds the handle holds the connection.
#[derive(Debug)]
pub struct Connection {
    slot: usize,
}

impl View for Connection {
    type V = usize;

    closed spec fn view(&self) -> usize {
        self.slot
    }
}

impl Connection {
    /// The slot that this connection occupies in its pool.
    pub fn slot(&self) -> (slot: usize)
        ensures
            slot == self@,
    {
        self.slot
    }
}

/// Why a pool operation gave no connection.
#[derive(Debug, Clone, Copy, PartialEq, Eq, Structural)]
pub enum PoolError {
    /// No connection became idle within the pool's timeout.
    PoolTimeout,
}

/// What one attempt to acquire a connection came to.
#[derive(Debug)]
pub enum Acquire {
    /// A connection was idle and is now the caller's.
    Ready(Connection),
    /// Every connection is out; the caller may wait this much longer.
    Pending { remaining_ms: u64 },
}

/// What an attempt came to, as an `Attempt`.
pub open spec fn attempt_of(res: Result<Acquire, PoolError>) -> Attempt {
    match res {
        Ok(Acquire::Ready(conn)) => Attempt::Ready(conn@),
        Ok(Acquire::Pending { remaining_ms }) => Attempt::Pending(remaining_ms as nat),
        Err(PoolError::PoolTimeout) => Attempt::TimedOut,
    }
}

/// A fixed set of connection slots, handed out first-released first.
pub struct Pool {
    capacity: usize,
    timeout_ms: u64,
    idle: VecDeque<usize>,
    out: Vec<bool>,
}

impl View for Pool {
    type V = PoolState;

    closed spec fn view(&self) -> PoolState {
        PoolState {
            capacity: self.capacity as nat,
            timeout_ms: self.timeout_ms as nat,
            available: self.idle@,
            checked_out: Set::new(|s: usize| s < self.out.len() && self.out[s as int]),
        }
    }
}

impl Pool {
    /// The pool keeps a mark for each of its slots.
    pub closed spec fn marks_every_slot(&self) -> bool {
        self.out.len() == self.capacity
    }

    /// The pool's invariant: its state is well formed, so the idle and the
    /// checked-out connections together are the pool's slots, each once.
    pub open spec fn wf(&self) -> bool {
        &&& self@.wf()
        &&& self.marks_every_slot()
    }

    /// Builds a pool of `capacity` slots from the outcome of opening one
    /// connection per slot: `opened[i]` says whether slot `i` could be opened.
    /// There is a pool only if the capacity is positive and every slot
    /// opened; it starts with all slots idle, lowest first.
    pub fn new(capacity: usize, timeout_ms: u64, opened: &Vec<bool>) -> (pool: Option<Pool>)
        ensures
            pool is Some <==> capacity > 0 && opened.len() == capacity && forall|i: int|
                0 <= i < opened.len() ==> opened[i],
            pool matches Some(p) ==> {
                &&& p.wf()
                &&& p@.capacity == capacity
                &&& p@.timeout_ms == timeout_ms
                &&& p@.available == Seq::new(capacity as nat, |i: int| i as usize)
                &&& p@.checked_out == Set::<usize>::empty()
            },
    {
        if capacity == 0 || opened.len() != capacity {
            return None;
        }
        let mut idle: VecDeque<usize> = VecDeque::new();
        let mut out: Vec<bool> = Vec::new();
        let mut slot: usize = 0;
        while slot < capacity
            invariant
                slot <= capacity,
                opened.len() == capacity,
                forall|i: int| 0 <= i < slot ==> opened[i],
                idle@ == Seq::new(slot as nat, |i: int| i as usize),
                out@ == Seq::new(slot as nat, |i: int| false),
            decreases capacity - slot,
        {
            if !opened[slot] {
                return None;
            }
            idle.push_back(slot);
            out.push(false);
            slot = slot + 1;
        }
        let pool = Pool { capacity, timeout_ms, idle, out };
        proof {
            assert(pool@.checked_out =~= Set::<usize>::empty());
            assert forall|s: usize| s < pool@.capacity implies pool@.available.contains(s) by {
                assert(pool@.available[s as int] == s);
            }
        }
        Some(pool)
    }

    /// The number of slots.
    pub fn capacity(&self) -> (n: usize)
        ensures
            n == self@.capacity,
    {
        self.capacity
    }

    /// The longest that an acquire may wait, in milliseconds.
    pub fn timeout_ms(&self) -> (t: u64)
        ensures
            t == self@.timeout_ms,
    {
        self.timeout_ms
    }

    /// The number of idle connections.
    pub fn available(&self) -> (n: usize)
        ensures
            n == self@.available.len(),
    {
        self.idle.len()
    }

    /// The number of connections that callers hold.
    pub fn checked_out(&self) -> (n: usize)
        requires
            self.wf(),
        ensures
            n == self@.checked_out.len(),
    {
        self.capacity - self.idle.len()
    }

    /// Whether `conn` names a slot that is checked out of this pool.
    pub fn is_checked_out(&self, conn: &Connection) -> (b: bool)
        ensures
            b == self@.checked_out.contains(conn@),
    {
        conn.slot < self.out.len() && self.out[conn.slot]
    }

    /// Hands out the connection at the front of the idle queue, if any.
    pub fn try_acquire(&mut self) -> (res: Option<Connection>)
        requires
            old(self).wf(),
        ensures
            final(self).wf(),
            final(self)@ == old(self)@.after_acquire(),
            res is Some <==> old(self)@.available.len() > 0,
            res matches Some(c) ==> {
                &&& c@ == old(self)@.available[0]
                &&& !old(self)@.checked_out.contains(c@)
                &&& final(self)@.checked_out.contains(c@)
            },
    {
        match self.idle.pop_front() {
            Some(slot) => {
                proof {
                    lemma_checkout_preserves_wf(old(self)@);
                }
                self.out.set(slot, true);
                proof {
                    assert(self@.checked_out =~= old(self)@.checked_out.insert(slot));
                }
                Some(Connection { slot })
            },
            None => None,
        }
    }

    /// One attempt to acquire a connection by a caller that has already
    /// waited `waited_ms` for it. An idle connection is handed out at once.
    /// With none idle the pool is left as it is, and the caller is told to
    /// keep waiting for what is left of the timeout, or, once the timeout has
    /// passed, that the attempt has failed.
    pub fn acquire(&mut self, waited_ms: u64) -> (res: Result<Acquire, PoolError>)
        requires
            old(self).wf(),
        ensures
            final(self).wf(),
            final(self)@ == old(self)@.after_acquire(),
            attempt_of(res) == old(self)@.attempt(waited_ms as nat),
    {
        match self.try_acquire() {
            Some(conn) => Ok(Acquire::Ready(conn)),
            None => {
                if waited_ms < self.timeout_ms {
                    Ok(Acquire::Pending { remaining_ms: self.timeout_ms - waited_ms })
                } else {
                    Err(PoolError::PoolTimeout)
                }
            },
        }
    }

    /// Takes a connection back. One that names a slot that is checked out
    /// of this pool joins the back of the idle queue; any other is handed
    /// back to the caller and the pool is left as it is. A handle is known
    /// by its slot alone: one that another pool gave is taken for this
    /// pool's if its slot is checked out here.
    pub fn release(&mut self, conn: Connection) -> (res: Result<(), Connection>)
        requires
            old(self).wf(),
        ensures
            final(self).wf(),
            final(self)@ == old(self)@.after_release(conn@),
            res is Ok <==> old(self)@.checked_out.contains(conn@),
            res matches Err(c) ==> c == conn,
    {
        if conn.slot < self.out.len() && self.out[conn.slot] {
            proof {
                lemma_release_preserves_wf(old(self)@, conn@);
            }
            self.out.set(conn.slot, false);
            self.idle.push_back(conn.slot);
            proof {
                assert(self@.checked_out =~= old(self)@.checked_out.remove(conn@));
            }
            Ok(())
        } else {
            Err(conn)
        }
    }
}

} // verus!
