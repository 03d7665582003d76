//! The keep-alive connection pool, keyed by host and port. It is generic
//! over the stream it holds, so the decisions are checked apart from the
//! sockets.

use vstd::prelude::*;
use crate::text::str_eq;

verus! {

/// Idle time after which a pooled connection is dropped, in milliseconds.
pub const IDLE_TIMEOUT_MS: u64 = 60000;

/// Most connections the pool keeps.
pub const MAX_POOL_SIZE: usize = 50;

/// A connection waiting in the pool, with the time it was last used.
pub struct PooledConnection<S> {
    pub host: String,
    pub port: u16,
    pub stream: S,
    pub last_used_ms: u64,
}

/// Whether a connection last used at `last_used` may still be used at `now`:
/// its age is under the idle timeout (a clock that went back counts as no
/// age at all).
pub open spec fn is_fresh(last_used: u64, now: u64) -> bool {
    now < last_used || now - last_used < IDLE_TIMEOUT_MS
}

/// The entries of `s` that are fresh at `now`, in order.
pub open spec fn fresh_entries<S>(s: Seq<PooledConnection<S>>, now: u64) -> Seq<PooledConnection<S>>
    decreases s.len(),
{
    if s.len() == 0 {
        s
    } else {
        let rest = fresh_entries(s.drop_last(), now);
        if is_fresh(s.last().last_used_ms, now) {
            rest.push(s.last())
        } else {
            rest
        }
    }
}

/// The index of the first entry for `host` and `port`, or the length of `s`.
pub open spec fn find_key<S>(s: Seq<PooledConnection<S>>, host: Seq<char>, port: u16) -> int
    decreases s.len(),
{
    if s.len() == 0 {
        0
    } else if s[0].host@ == host && s[0].port == port {
        0
    } else {
        1 + find_key(s.drop_first(), host, port)
    }
}

proof fn lemma_find_key_bound<S>(s: Seq<PooledConnection<S>>, host: Seq<char>, port: u16)
    ensures
        0 <= find_key(s, host, port) <= s.len(),
        find_key(s, host, port) < s.len() ==> s[find_key(s, host, port)].host@ == host
            && s[find_key(s, host, port)].port == port,
        forall|i: int|
            0 <= i < find_key(s, host, port) ==> !(s[i].host@ == host && s[i].port == port),
    decreases s.len(),
{
    if s.len() > 0 && !(s[0].host@ == host && s[0].port == port) {
        lemma_find_key_bound(s.drop_first(), host, port);
        assert forall|i: int| 0 <= i < find_key(s, host, port) implies !(s[i].host@ == host
            && s[i].port == port) by {
            if i > 0 {
                assert(s[i] == s.drop_first()[i - 1]);
            }
        }
    }
}

/// Connections kept alive between sends.
pub struct ConnectionPool<S> {
    entries: Vec<PooledConnection<S>>,
}

impl<S> ConnectionPool<S> {
    /// The pooled connections, oldest first.
    pub closed spec fn entries(&self) -> Seq<PooledConnection<S>> {
        self.entries@
    }

    /// An empty pool.
    pub fn new() -> (r: ConnectionPool<S>)
        ensures
            r.entries().len() == 0,
    {
        ConnectionPool { entries: Vec::new() }
    }

    /// How many connections are pooled.
    pub fn len(&self) -> (r: usize)
        ensures
            r == self.entries().len(),
    {
        self.entries.len()
    }

    /// Drops the connections idle for too long, then takes out the first
    /// one for `host` and `port`, if any.
    pub fn acquire(&mut self, host: &str, port: u16, now_ms: u64) -> (r: Option<S>)
        ensures
            ({
                let kept = fresh_entries(old(self).entries(), now_ms);
                let k = find_key(kept, host@, port);
                if k < kept.len() {
                    r == Some(kept[k].stream) && final(self).entries() == kept.remove(k)
                } else {
                    r is None && final(self).entries() == kept
                }
            }),
    {
        let ghost orig = self.entries@;
        let mut kept: Vec<PooledConnection<S>> = Vec::new();
        let mut j: usize = 0;
        let n = self.entries.len();
        assert(orig.take(0) =~= Seq::<PooledConnection<S>>::empty());
        while self.entries.len() > 0
            invariant
                n == orig.len(),
                j + self.entries@.len() == n,
                self.entries@ == orig.skip(j as int),
                kept@ == fresh_entries(orig.take(j as int), now_ms),
            decreases self.entries@.len(),
        {
            let e = self.entries.remove(0);
            assert(orig.take(j + 1).drop_last() =~= orig.take(j as int));
            assert(orig.take(j + 1).last() == e);
            assert(self.entries@ =~= orig.skip(j + 1));
            let fresh = now_ms < e.last_used_ms || now_ms - e.last_used_ms < IDLE_TIMEOUT_MS;
            if fresh {
                kept.push(e);
            }
            j = j + 1;
        }
        assert(orig.take(j as int) =~= orig);
        let ghost ks = kept@;
        proof {
            lemma_find_key_bound(ks, host@, port);
        }
        let mut k: usize = 0;
        while k < kept.len()
            invariant
                kept@ == ks,
                ks == fresh_entries(old(self).entries(), now_ms),
                k <= kept.len(),
                k <= find_key(ks, host@, port),
            decreases kept.len() - k,
        {
            proof {
                lemma_find_key_bound(ks, host@, port);
            }
            if kept[k].port == port && str_eq(kept[k].host.as_str(), host) {
                assert(k as int == find_key(ks, host@, port)) by {
                    if (k as int) < find_key(ks, host@, port) {
                        assert(!(ks[k as int].host@ == host@ && ks[k as int].port == port));
                    }
                }
                let found = kept.remove(k);
                self.entries = kept;
                return Some(found.stream);
            }
            k = k + 1;
        }
        self.entries = kept;
        None
    }

    /// Puts a connection back, stamped `now_ms`, when the pool has room;
    /// otherwise the connection is dropped. Returns whether it was kept.
    pub fn release(&mut self, host: String, port: u16, stream: S, now_ms: u64) -> (r: bool)
        ensures
            r == (old(self).entries().len() < MAX_POOL_SIZE),
            r ==> final(self).entries() == old(self).entries().push(
                PooledConnection { host, port, stream, last_used_ms: now_ms },
            ),
            !r ==> final(self).entries() == old(self).entries(),
    {
        if self.entries.len() < MAX_POOL_SIZE {
            self.entries.push(PooledConnection { host, port, stream, last_used_ms: now_ms });
            true
        } else {
            false
        }
    }
}

} // verus!
