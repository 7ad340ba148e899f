//! A single-slot TTL cache for the expensive database-listing query.
//!
//! The cache holds at most one snapshot with its capture instant. A read
//! within the freshness window serves a copy of the snapshot without any
//! fetch; past the window the caller fetches and applies the outcome. A
//! failed fetch leaves the old snapshot untouched — staleness never clears
//! the cache — and surfaces the error to the current caller only.
use vstd::prelude::*;

verus! {

/// Seconds a cached database-list snapshot stays fresh.
pub const SNAPSHOT_TTL_SECS: u64 = 60;

/// A captured list of names and the instant, in seconds, it was captured.
pub struct Snapshot {
    pub names: Vec<String>,
    pub captured: u64,
}

/// The cache: one optional snapshot and the freshness window applied to it.
pub struct TtlCache {
    pub entry: Option<Snapshot>,
    pub ttl: u64,
}

/// Relation between a cache's state before and after applying one refresh
/// outcome at instant `now`: a successful fetch replaces the snapshot, a
/// failed one changes nothing.
pub open spec fn refresh_post(
    pre: TtlCache,
    post: TtlCache,
    now: u64,
    fetched: Option<Seq<Seq<char>>>,
) -> bool {
    match fetched {
        Option::Some(names) => {
            &&& post.entry matches Option::Some(s) && s.names.deep_view() == names
                && s.captured == now
            &&& post.ttl == pre.ttl
        },
        Option::None => post == pre,
    }
}

impl TtlCache {
    /// Whether the snapshot exists and its age at `now` is under the window.
    pub open spec fn fresh_at(self, now: u64) -> bool {
        match self.entry {
            Option::Some(s) => s.captured <= now < s.captured + self.ttl,
            Option::None => false,
        }
    }

    /// An empty cache with the fixed window.
    pub fn new() -> (c: TtlCache)
        ensures
            c.entry is None,
            c.ttl == SNAPSHOT_TTL_SECS,
    {
        TtlCache { entry: Option::None, ttl: SNAPSHOT_TTL_SECS }
    }

    /// Serves a copy of the snapshot while it is fresh; `None` tells the
    /// caller to fetch and then apply the outcome through `apply_refresh`.
    pub fn read(&self, now: u64) -> (r: Option<Vec<String>>)
        ensures
            r is Some <==> self.fresh_at(now),
            r matches Option::Some(v) ==> self.entry matches Option::Some(s) && v.deep_view()
                == s.names.deep_view(),
    {
        match &self.entry {
            Option::Some(s) => {
                if s.captured <= now && now - s.captured < self.ttl {
                    let copy = s.names.clone();
                    proof {
                        assert(copy.deep_view() =~= s.names.deep_view());
                    }
                    Option::Some(copy)
                } else {
                    Option::None
                }
            },
            Option::None => Option::None,
        }
    }

    /// Applies one refresh outcome: a successful fetch replaces the snapshot
    /// and is returned fresh; a failed fetch leaves the old snapshot in
    /// place and hands the error back to this caller alone.
    pub fn apply_refresh(&mut self, now: u64, fetched: Result<Vec<String>, String>) -> (r:
        Result<Vec<String>, String>)
        ensures
            r == fetched,
            refresh_post(
                *old(self),
                *final(self),
                now,
                match fetched {
                    Result::Ok(v) => Option::Some(v.deep_view()),
                    Result::Err(_) => Option::None,
                },
            ),
    {
        match fetched {
            Result::Ok(v) => {
                let copy = v.clone();
                proof {
                    assert(copy.deep_view() =~= v.deep_view());
                }
                self.entry = Option::Some(Snapshot { names: copy, captured: now });
                Result::Ok(v)
            },
            Result::Err(e) => Result::Err(e),
        }
    }
}

/// TTL freshness law: after a successful refresh at instant t, a read at any
/// instant still inside the window finds the cache fresh and holding exactly
/// the refreshed names — no further fetch is needed.
pub proof fn lemma_ttl_freshness(
    pre: TtlCache,
    post: TtlCache,
    t: u64,
    now: u64,
    names: Seq<Seq<char>>,
)
    requires
        refresh_post(pre, post, t, Option::Some(names)),
        t <= now < t + post.ttl,
    ensures
        post.fresh_at(now),
        post.entry matches Option::Some(s) && s.names.deep_view() == names,
{
}

/// TTL expiry law: once the snapshot's age reaches the window, a read is no
/// longer fresh — the caller must fetch anew instead of being served a
/// snapshot forever.
pub proof fn lemma_ttl_expiry(c: TtlCache, now: u64)
    requires
        c.entry matches Option::Some(s) ==> now >= s.captured + c.ttl,
    ensures
        !c.fresh_at(now),
{
}

/// Stale-on-failure law: a failed refresh clears nothing. The cache is
/// exactly as before, so a read that falls within a fresh window relative to
/// the old capture time still serves the old snapshot.
pub proof fn lemma_stale_on_failure(pre: TtlCache, post: TtlCache, t: u64, now: u64)
    requires
        refresh_post(pre, post, t, Option::None),
        pre.fresh_at(now),
    ensures
        post.fresh_at(now),
        post.entry == pre.entry,
{
}

} // verus!
