//! A bounded pool of connections for one target database.
//!
//! The pool hands a caller an idle connection when one is available, admits a
//! new driver connect when the live count is under the cap, and otherwise
//! tells the caller to wait: a request waits for capacity rather than failing
//! fast. A connection returned after use is kept only when it passed its
//! liveness probe; a probe failure discards it, and a replacement is admitted
//! lazily on a later checkout.
//!
//! The driver calls themselves (connecting, probing, executing) happen
//! outside this type; the pool is the accounting that surrounds them, and its
//! contracts pin every transition of that accounting.
use vstd::prelude::*;

verus! {

/// Handle to one live database session. Ownership transfers to the borrowing
/// unit of work at checkout and back to the pool at release; the pool never
/// hands the same handle to two concurrent checkouts.
pub struct Connection {
    pub id: u64,
}

/// What one checkout attempt yields.
pub enum CheckoutOutcome {
    /// An idle connection, revalidated by the caller before use.
    Ready(Connection),
    /// No idle connection, but the cap admits one more: the caller performs a
    /// driver connect and then attaches or abandons it.
    Connect,
    /// The pool is saturated: the caller waits for a release.
    Wait,
}

/// The accounting state of a pool: idle connection identifiers in stack
/// order, counts of checked-out and in-flight-connect slots, the next fresh
/// identifier, and the cap.
#[verifier::ext_equal]
pub ghost struct PoolModel {
    pub idle: Seq<u64>,
    pub in_use: nat,
    pub connecting: nat,
    pub next_id: u64,
    pub cap: nat,
}

impl PoolModel {
    /// Connections alive for this pool: idle ones, checked-out ones, and
    /// reserved connect slots.
    pub open spec fn live(self) -> int {
        self.idle.len() + self.in_use + self.connecting as int
    }

    /// Capacity not yet taken by a checked-out connection or an in-flight
    /// connect.
    pub open spec fn free_capacity(self) -> int {
        self.cap - self.in_use - self.connecting
    }

    pub open spec fn wf(self) -> bool {
        &&& 1 <= self.cap
        &&& self.live() <= self.cap
    }

    /// Whether one checkout attempt in this state is granted (an idle
    /// connection or a connect slot) rather than told to wait.
    pub open spec fn grants(self) -> bool {
        self.idle.len() > 0 || self.live() < self.cap
    }

    /// State after one checkout attempt.
    pub open spec fn checkout_next(self) -> PoolModel {
        if self.idle.len() > 0 {
            PoolModel { idle: self.idle.drop_last(), in_use: self.in_use + 1, ..self }
        } else if self.live() < self.cap {
            PoolModel { connecting: self.connecting + 1, ..self }
        } else {
            self
        }
    }

    /// State after n successive checkout attempts with no release in between.
    pub open spec fn after_checkouts(self, n: nat) -> PoolModel
        decreases n,
    {
        if n == 0 {
            self
        } else {
            self.after_checkouts((n - 1) as nat).checkout_next()
        }
    }

    /// How many of n successive checkout attempts are granted.
    pub open spec fn granted_checkouts(self, n: nat) -> nat
        decreases n,
    {
        if n == 0 {
            0
        } else {
            self.granted_checkouts((n - 1) as nat) + if self.after_checkouts(
                (n - 1) as nat,
            ).grants() {
                1nat
            } else {
                0nat
            }
        }
    }
}

/// Capacity bound law: however many checkout attempts are issued against one
/// pool with no release in between, the pool never holds more than its cap of
/// live connections, and the number of granted attempts is exactly the free
/// capacity there was — every further attempt waits.
pub proof fn lemma_capacity_bound(m: PoolModel, n: nat)
    requires
        m.wf(),
    ensures
        m.after_checkouts(n).wf(),
        m.after_checkouts(n).live() <= m.cap,
        m.after_checkouts(n).cap == m.cap,
        m.after_checkouts(n).in_use + m.after_checkouts(n).connecting == m.in_use
            + m.connecting + m.granted_checkouts(n),
        m.granted_checkouts(n) == vstd::math::min(n as int, m.free_capacity()),
    decreases n,
{
    if n > 0 {
        lemma_capacity_bound(m, (n - 1) as nat);
    }
}

/// Relation between a pool's state before and after one checkout attempt and
/// the outcome the attempt yielded.
pub open spec fn checkout_post(pre: Pool, post: Pool, r: CheckoutOutcome) -> bool {
    &&& post.model() == pre.model().checkout_next()
    &&& post.target == pre.target
    &&& post.max_size == pre.max_size
    &&& post.next_id == pre.next_id
    &&& match r {
        CheckoutOutcome::Ready(c) => {
            &&& pre.idle@.len() > 0
            &&& c == pre.idle@.last()
            &&& post.idle@ == pre.idle@.drop_last()
            &&& post.in_use == pre.in_use + 1
            &&& post.connecting == pre.connecting
        },
        CheckoutOutcome::Connect => {
            &&& pre.idle@.len() == 0
            &&& pre.model().live() < pre.max_size
            &&& post.idle@ == pre.idle@
            &&& post.in_use == pre.in_use
            &&& post.connecting == pre.connecting + 1
        },
        CheckoutOutcome::Wait => {
            &&& pre.idle@.len() == 0
            &&& pre.model().live() >= pre.max_size
            &&& post == pre
        },
    }
}

/// A bounded connection pool for one target database. The `target` field is
/// the driver connection string every connect for this pool uses.
pub struct Pool {
    pub target: String,
    pub max_size: usize,
    pub idle: Vec<Connection>,
    pub in_use: usize,
    pub connecting: usize,
    pub next_id: u64,
}

impl Pool {
    /// The accounting state this pool is in.
    pub open spec fn model(self) -> PoolModel {
        PoolModel {
            idle: self.idle@.map_values(|c: Connection| c.id),
            in_use: self.in_use as nat,
            connecting: self.connecting as nat,
            next_id: self.next_id,
            cap: self.max_size as nat,
        }
    }

    pub open spec fn wf(self) -> bool {
        self.model().wf()
    }

    /// An empty pool over the given connection target.
    pub fn new(target: String, max_size: usize) -> (p: Pool)
        requires
            max_size >= 1,
        ensures
            p.wf(),
            p.target == target,
            p.max_size == max_size,
            p.idle@ == Seq::<Connection>::empty(),
            p.in_use == 0,
            p.connecting == 0,
            p.next_id == 0,
    {
        Pool { target, max_size, idle: Vec::new(), in_use: 0, connecting: 0, next_id: 0 }
    }

    /// One checkout attempt: an idle connection if any, a connect slot if the
    /// cap admits one, otherwise wait. The caller revalidates a `Ready`
    /// connection before use and returns it through `release`; a `Connect`
    /// slot is resolved through `attach` or `connect_failed`.
    pub fn checkout(&mut self) -> (r: CheckoutOutcome)
        requires
            old(self).wf(),
        ensures
            final(self).wf(),
            checkout_post(*old(self), *final(self), r),
    {
        if self.idle.len() > 0 {
            let popped = self.idle.pop();
            self.in_use = self.in_use + 1;
            match popped {
                Option::Some(c) => {
                    proof {
                        assert(self.idle@ =~= old(self).idle@.drop_last());
                        assert(self.model() =~= old(self).model().checkout_next());
                    }
                    CheckoutOutcome::Ready(c)
                },
                Option::None => {
                    proof {
                        assert(false);
                    }
                    CheckoutOutcome::Wait
                },
            }
        } else if self.in_use + self.connecting < self.max_size {
            self.connecting = self.connecting + 1;
            proof {
                assert(self.model() =~= old(self).model().checkout_next());
            }
            CheckoutOutcome::Connect
        } else {
            proof {
                assert(self.model() =~= old(self).model().checkout_next());
            }
            CheckoutOutcome::Wait
        }
    }

    /// Adopts a successfully built driver connection into a reserved connect
    /// slot and checks it out to the caller, under a fresh identifier. The
    /// identifier space is a machine limit: the counter must not be
    /// exhausted.
    pub fn attach(&mut self) -> (c: Connection)
        requires
            old(self).wf(),
            old(self).connecting >= 1,
            old(self).next_id < u64::MAX,
        ensures
            final(self).wf(),
            c.id == old(self).next_id,
            final(self).idle@ == old(self).idle@,
            final(self).in_use == old(self).in_use + 1,
            final(self).connecting == old(self).connecting - 1,
            final(self).next_id == old(self).next_id + 1,
            final(self).target == old(self).target,
            final(self).max_size == old(self).max_size,
    {
        let c = Connection { id: self.next_id };
        self.next_id = self.next_id + 1;
        self.connecting = self.connecting - 1;
        self.in_use = self.in_use + 1;
        c
    }

    /// Frees a reserved connect slot whose driver connect failed. The failure
    /// is fatal to that checkout alone; the pool stays usable.
    pub fn connect_failed(&mut self)
        requires
            old(self).wf(),
            old(self).connecting >= 1,
        ensures
            final(self).wf(),
            final(self).idle@ == old(self).idle@,
            final(self).in_use == old(self).in_use,
            final(self).connecting == old(self).connecting - 1,
            final(self).next_id == old(self).next_id,
            final(self).target == old(self).target,
            final(self).max_size == old(self).max_size,
    {
        self.connecting = self.connecting - 1;
    }

    /// Returns a checked-out connection. One that passed its liveness probe
    /// rejoins the idle set; one that failed is discarded, and a replacement
    /// is admitted lazily on a later checkout.
    pub fn release(&mut self, conn: Connection, healthy: bool)
        requires
            old(self).wf(),
            old(self).in_use >= 1,
        ensures
            final(self).wf(),
            final(self).in_use == old(self).in_use - 1,
            final(self).connecting == old(self).connecting,
            healthy ==> final(self).idle@ == old(self).idle@.push(conn),
            !healthy ==> final(self).idle@ == old(self).idle@,
            final(self).next_id == old(self).next_id,
            final(self).target == old(self).target,
            final(self).max_size == old(self).max_size,
    {
        self.in_use = self.in_use - 1;
        if healthy {
            self.idle.push(conn);
        }
    }

    /// The pool does not proactively track mid-use breakage: nothing beyond
    /// the liveness probe marks a connection broken.
    pub fn has_broken(&self, _conn: &Connection) -> (r: bool)
        ensures
            !r,
    {
        false
    }
}

} // verus!
