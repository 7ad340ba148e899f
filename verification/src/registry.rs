//! The process-wide registry mapping a database name to its pool.
//!
//! An entry is created on first reference to a name and reused thereafter;
//! entries persist for the process lifetime — there is no unregistration and
//! no eviction of whole pools. At most one pool exists per name: a further
//! request for a known name finds the existing entry and changes nothing, so
//! concurrent creators converge on a single pool.
use crate::pool::{checkout_post, CheckoutOutcome, Connection, Pool};
use vstd::prelude::*;
use vstd::string::StringExecFns;

verus! {

/// The fixed driver connection template applied to a database name: driver
/// name, fixed server host, the requested database, integrated
/// authentication. No credential material flows through it.
pub open spec fn spec_connection_target(name: Seq<char>) -> Seq<char> {
    "Driver={ODBC Driver 17 for SQL Server};Server=mjm-sql01;Database="@ + name
        + ";Trusted_Connection=Yes;"@
}

/// Builds the connection string for one database name from the fixed
/// template.
pub fn connection_target(name: &str) -> (r: String)
    ensures
        r@ == spec_connection_target(name@),
{
    let mut out = String::from_str(
        "Driver={ODBC Driver 17 for SQL Server};Server=mjm-sql01;Database=",
    );
    out.append(name);
    out.append(";Trusted_Connection=Yes;");
    proof {
        assert(out@ =~= spec_connection_target(name@));
    }
    out
}

/// One registry entry: a database name and the pool serving it.
pub struct PoolEntry {
    pub name: String,
    pub pool: Pool,
}

/// A pool just built for the given name: empty, at the fixed cap, targeting
/// the templated connection string.
pub open spec fn fresh_pool(p: Pool, name: Seq<char>) -> bool {
    &&& p.target@ == spec_connection_target(name)
    &&& p.max_size == crate::MAX_POOL_SIZE
    &&& p.idle@ == Seq::<Connection>::empty()
    &&& p.in_use == 0
    &&& p.connecting == 0
    &&& p.next_id == 0
}

/// The registry: database name to pool, one entry per name, in creation
/// order.
pub struct PoolRegistry {
    pub entries: Vec<PoolEntry>,
}

/// Relation between a registry's state before and after `get_or_create` for
/// `name` returned index `i`: a known name finds its entry and changes
/// nothing; an unknown one gets a fresh pool appended.
pub open spec fn get_or_create_post(
    pre: PoolRegistry,
    post: PoolRegistry,
    name: Seq<char>,
    i: int,
) -> bool {
    if pre.has_name(name) {
        &&& post == pre
        &&& i == pre.index_of(name)
    } else {
        &&& i == pre.entries@.len()
        &&& post.entries@.len() == pre.entries@.len() + 1
        &&& post.entries@.subrange(0, pre.entries@.len() as int) == pre.entries@
        &&& post.entries@.last().name@ == name
        &&& fresh_pool(post.entries@.last().pool, name)
    }
}

/// A registry operation on entry `i` that left every other entry untouched.
pub open spec fn isolated_update(pre: PoolRegistry, post: PoolRegistry, i: int) -> bool {
    &&& post.entries@.len() == pre.entries@.len()
    &&& forall|j: int|
        0 <= j < pre.entries@.len() && j != i ==> post.entries@[j] == pre.entries@[j]
    &&& post.entries@[i].name == pre.entries@[i].name
}

impl PoolRegistry {
    /// Names are unique, and every pool is well formed, at the fixed cap, and
    /// targets the connection string templated from its own name.
    pub open spec fn wf(self) -> bool {
        &&& forall|i: int, j: int|
            0 <= i < j < self.entries@.len() ==> (#[trigger] self.entries@[i]).name@ != (
            #[trigger] self.entries@[j]).name@
        &&& forall|i: int|
            0 <= i < self.entries@.len() ==> (#[trigger] self.entries@[i]).pool.wf()
        &&& forall|i: int|
            0 <= i < self.entries@.len() ==> (#[trigger] self.entries@[i]).pool.max_size
                == crate::MAX_POOL_SIZE
        &&& forall|i: int|
            0 <= i < self.entries@.len() ==> (#[trigger] self.entries@[i]).pool.target@
                == spec_connection_target(self.entries@[i].name@)
    }

    /// Whether some entry carries this name.
    pub open spec fn has_name(self, name: Seq<char>) -> bool {
        exists|i: int| 0 <= i < self.entries@.len() && (#[trigger] self.entries@[i]).name@ == name
    }

    /// The index of the entry carrying this name; meaningful when `has_name`
    /// holds, and then unique under `wf`.
    pub open spec fn index_of(self, name: Seq<char>) -> int {
        choose|i: int| 0 <= i < self.entries@.len() && (#[trigger] self.entries@[i]).name@ == name
    }

    /// An empty registry.
    pub fn new() -> (r: PoolRegistry)
        ensures
            r.wf(),
            r.entries@ == Seq::<PoolEntry>::empty(),
    {
        PoolRegistry { entries: Vec::new() }
    }

    /// Looks the name up; when absent, builds the templated connection
    /// string, constructs a pool at the fixed cap, and appends the entry.
    /// Returns the index of the entry serving the name.
    pub fn get_or_create(&mut self, name: &String) -> (i: usize)
        requires
            old(self).wf(),
        ensures
            final(self).wf(),
            i < final(self).entries@.len(),
            final(self).entries@[i as int].name@ == name@,
            final(self).has_name(name@),
            get_or_create_post(*old(self), *final(self), name@, i as int),
    {
        let n = self.entries.len();
        let mut i: usize = 0;
        while i < n
            invariant
                i <= n,
                n == self.entries@.len(),
                *self == *old(self),
                old(self).wf(),
                forall|j: int| 0 <= j < i ==> (#[trigger] self.entries@[j]).name@ != name@,
            decreases n - i,
        {
            if self.entries[i].name == *name {
                proof {
                    assert(self.has_name(name@)) by {
                        assert(self.entries@[i as int].name@ == name@);
                    }
                    let k = self.index_of(name@);
                    assert(0 <= k < self.entries@.len() && self.entries@[k].name@ == name@);
                    if k != i as int {
                        assert(false);
                    }
                }
                return i;
            }
            i += 1;
        }
        proof {
            assert(!self.has_name(name@)) by {
                if self.has_name(name@) {
                    let k = self.index_of(name@);
                    assert(0 <= k < self.entries@.len() && self.entries@[k].name@ == name@);
                    assert(self.entries@[k].name@ != name@);
                }
            }
        }
        let target = connection_target(name.as_str());
        let pool = Pool::new(target, crate::MAX_POOL_SIZE);
        let entry = PoolEntry { name: name.clone(), pool };
        self.entries.push(entry);
        proof {
            assert(self.entries@.subrange(0, n as int) =~= old(self).entries@);
            assert forall|a: int, b: int| 0 <= a < b < self.entries@.len() implies (
            #[trigger] self.entries@[a]).name@ != (#[trigger] self.entries@[b]).name@ by {
                if b == n as int {
                    assert(self.entries@[a] == old(self).entries@[a]);
                    if self.entries@[a].name@ == name@ {
                        assert(old(self).has_name(name@)) by {
                            assert(old(self).entries@[a].name@ == name@);
                        }
                    }
                }
            }
            assert(final(self).has_name(name@)) by {
                assert(self.entries@[n as int].name@ == name@);
            }
        }
        i
    }

    /// One checkout attempt against the pool of entry `i`; every other entry
    /// is untouched.
    pub fn checkout_at(&mut self, i: usize) -> (r: CheckoutOutcome)
        requires
            old(self).wf(),
            i < old(self).entries@.len(),
        ensures
            final(self).wf(),
            isolated_update(*old(self), *final(self), i as int),
            checkout_post(
                old(self).entries@[i as int].pool,
                final(self).entries@[i as int].pool,
                r,
            ),
    {
        self.entries[i].pool.checkout()
    }

    /// Adopts a successfully built driver connection into entry `i`'s pool;
    /// every other entry is untouched.
    pub fn attach_at(&mut self, i: usize) -> (c: Connection)
        requires
            old(self).wf(),
            i < old(self).entries@.len(),
            old(self).entries@[i as int].pool.connecting >= 1,
            old(self).entries@[i as int].pool.next_id < u64::MAX,
        ensures
            final(self).wf(),
            isolated_update(*old(self), *final(self), i as int),
            c.id == old(self).entries@[i as int].pool.next_id,
            final(self).entries@[i as int].pool.idle@ == old(self).entries@[i as int].pool.idle@,
            final(self).entries@[i as int].pool.in_use == old(self).entries@[i as int].pool.in_use
                + 1,
            final(self).entries@[i as int].pool.connecting == old(
                self,
            ).entries@[i as int].pool.connecting - 1,
            final(self).entries@[i as int].pool.next_id == old(
                self,
            ).entries@[i as int].pool.next_id + 1,
    {
        self.entries[i].pool.attach()
    }

    /// Frees a reserved connect slot of entry `i`'s pool after a failed
    /// driver connect; every other entry is untouched.
    pub fn connect_failed_at(&mut self, i: usize)
        requires
            old(self).wf(),
            i < old(self).entries@.len(),
            old(self).entries@[i as int].pool.connecting >= 1,
        ensures
            final(self).wf(),
            isolated_update(*old(self), *final(self), i as int),
            final(self).entries@[i as int].pool.idle@ == old(self).entries@[i as int].pool.idle@,
            final(self).entries@[i as int].pool.in_use == old(
                self,
            ).entries@[i as int].pool.in_use,
            final(self).entries@[i as int].pool.connecting == old(
                self,
            ).entries@[i as int].pool.connecting - 1,
    {
        self.entries[i].pool.connect_failed()
    }

    /// Releases a checked-out connection back to entry `i`'s pool; every
    /// other entry is untouched.
    pub fn release_at(&mut self, i: usize, conn: Connection, healthy: bool)
        requires
            old(self).wf(),
            i < old(self).entries@.len(),
            old(self).entries@[i as int].pool.in_use >= 1,
        ensures
            final(self).wf(),
            isolated_update(*old(self), *final(self), i as int),
            final(self).entries@[i as int].pool.in_use == old(self).entries@[i as int].pool.in_use
                - 1,
            final(self).entries@[i as int].pool.connecting == old(
                self,
            ).entries@[i as int].pool.connecting,
            healthy ==> final(self).entries@[i as int].pool.idle@ == old(
                self,
            ).entries@[i as int].pool.idle@.push(conn),
            !healthy ==> final(self).entries@[i as int].pool.idle@ == old(
                self,
            ).entries@[i as int].pool.idle@,
    {
        self.entries[i].pool.release(conn, healthy)
    }
}

/// Pool identity law: once two `get_or_create` transitions for the same name
/// run in sequence — any interleaving of two concurrent calls — the second
/// finds the entry the first established, returns the same index, and leaves
/// the registry unchanged: no duplicate pool is ever observable.
pub proof fn lemma_pool_identity(
    r0: PoolRegistry,
    r1: PoolRegistry,
    r2: PoolRegistry,
    name: Seq<char>,
    i1: int,
    i2: int,
)
    requires
        r0.wf(),
        get_or_create_post(r0, r1, name, i1),
        get_or_create_post(r1, r2, name, i2),
        0 <= i1 < r1.entries@.len(),
        r1.entries@[i1].name@ == name,
    ensures
        i2 == i1,
        r2 == r1,
{
    assert(r1.has_name(name)) by {
        assert(r1.entries@[i1].name@ == name);
    }
    let k = r1.index_of(name);
    assert(r1.entries@[k].name@ == name);
    if r0.has_name(name) {
        assert(r1 == r0);
        if k != i1 {
            assert(false);
        }
    } else {
        assert(i1 == r0.entries@.len());
        if k != i1 {
            assert(r1.entries@[k] == r0.entries@.subrange(0, r0.entries@.len() as int)[k]);
            assert(r0.has_name(name)) by {
                assert(r0.entries@[k].name@ == name);
            }
            assert(false);
        }
    }
}

/// Pool isolation law: an operation against one entry's pool never changes
/// the idle-connection count — or anything else — of another entry's pool.
pub proof fn lemma_pool_isolation(pre: PoolRegistry, post: PoolRegistry, i: int, j: int)
    requires
        isolated_update(pre, post, i),
        0 <= j < pre.entries@.len(),
        j != i,
    ensures
        post.entries@[j].pool == pre.entries@[j].pool,
        post.entries@[j].pool.idle@.len() == pre.entries@[j].pool.idle@.len(),
{
}

} // verus!
