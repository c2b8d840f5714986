//! Range Registry: which connections are subscribed to which half-open
//! channel intervals.  A datagram addressed to channel `c` matches a
//! range `(min, max)` when `min <= c < max`.  Overlapping ranges, both
//! within one connection and across connections, are legal; delivery is
//! never duplicated because lookups return a set of connections.

use vstd::prelude::*;

verus! {

/// One range subscription held by the registry.
#[derive(Clone, Copy, PartialEq, Eq, Structural)]
pub struct RangeSub {
    pub conn: u64,
    pub min: u64,
    pub max: u64,
}

/// Whether the exact range `(conn, min, max)` occurs in `s`.
pub open spec fn range_in(s: Seq<RangeSub>, conn: u64, min: u64, max: u64) -> bool {
    exists|i: int| 0 <= i < s.len() && s[i].conn == conn && s[i].min == min && s[i].max == max
}

proof fn lemma_range_in_push(s: Seq<RangeSub>, x: RangeSub, conn: u64, min: u64, max: u64)
    ensures
        range_in(s.push(x), conn, min, max) <==> (range_in(s, conn, min, max) || (x.conn == conn
            && x.min == min && x.max == max)),
{
    if range_in(s, conn, min, max) {
        let i = choose|i: int|
            0 <= i < s.len() && s[i].conn == conn && s[i].min == min && s[i].max == max;
        assert(s.push(x)[i] == s[i]);
    }
    if x.conn == conn && x.min == min && x.max == max {
        assert(s.push(x)[s.len() as int] == x);
    }
    if range_in(s.push(x), conn, min, max) {
        let i = choose|i: int|
            0 <= i < s.push(x).len() && s.push(x)[i].conn == conn && s.push(x)[i].min == min
                && s.push(x)[i].max == max;
        if i < s.len() {
            assert(s[i].conn == conn && s[i].min == min && s[i].max == max);
        }
    }
}

/// Registry of range subscriptions.
pub struct RangeRegistry {
    ranges: Vec<RangeSub>,
}

impl RangeRegistry {
    /// Whether `conn` holds the exact range `(min, max)`.
    pub closed spec fn has_range(self, conn: u64, min: u64, max: u64) -> bool {
        range_in(self.ranges@, conn, min, max)
    }

    /// Whether some range of `conn` contains `channel`.
    pub open spec fn covers(self, conn: u64, channel: u64) -> bool {
        exists|min: u64, max: u64| self.has_range(conn, min, max) && min <= channel < max
    }

    /// State change performed by `add_range`: afterwards exactly the old
    /// ranges plus `(conn, min, max)` are present.
    pub open spec fn add_range_effect(pre: Self, post: Self, conn: u64, min: u64, max: u64) -> bool {
        forall|c: u64, m: u64, x: u64|
            #[trigger] post.has_range(c, m, x) <==> (pre.has_range(c, m, x) || (c == conn && m
                == min && x == max))
    }

    /// State change performed by `remove_range`: afterwards exactly the old
    /// ranges except `(conn, min, max)` are present.
    pub open spec fn remove_range_effect(pre: Self, post: Self, conn: u64, min: u64, max: u64) -> bool {
        forall|c: u64, m: u64, x: u64|
            #[trigger] post.has_range(c, m, x) <==> (pre.has_range(c, m, x) && !(c == conn && m
                == min && x == max))
    }

    /// State change performed by `remove_connection`: every range of the
    /// connection is removed, every other range is kept.
    pub open spec fn remove_connection_effect(pre: Self, post: Self, conn: u64) -> bool {
        forall|c: u64, m: u64, x: u64|
            #[trigger] post.has_range(c, m, x) <==> (pre.has_range(c, m, x) && c != conn)
    }

    /// An empty registry: nobody holds any range.
    pub fn new() -> (r: Self)
        ensures
            forall|c: u64, m: u64, x: u64| !#[trigger] r.has_range(c, m, x),
    {
        RangeRegistry { ranges: Vec::new() }
    }

    /// Register the half-open interval `[min, max)` for `conn`; idempotent.
    pub fn add_range(&mut self, conn: u64, min: u64, max: u64)
        ensures
            Self::add_range_effect(*old(self), *final(self), conn, min, max),
    {
        let ghost s0 = self.ranges@;
        let mut i: usize = 0;
        while i < self.ranges.len()
            invariant
                self.ranges@ == s0,
                i <= s0.len(),
                forall|k: int|
                    0 <= k < i ==> !(s0[k].conn == conn && s0[k].min == min && s0[k].max == max),
            decreases s0.len() - i,
        {
            let s = self.ranges[i];
            if s.conn == conn && s.min == min && s.max == max {
                assert(range_in(s0, conn, min, max));
                return ;
            }
            i += 1;
        }
        let ghost snew = s0.push(RangeSub { conn, min, max });
        self.ranges.push(RangeSub { conn, min, max });
        assert forall|c: u64, m: u64, x: u64| #[trigger]
            range_in(snew, c, m, x) <==> (range_in(s0, c, m, x) || (c == conn && m == min && x
                == max)) by {
            lemma_range_in_push(s0, RangeSub { conn, min, max }, c, m, x);
        }
    }

    /// Remove the exact range `(min, max)` of `conn`; a no-op if absent.
    pub fn remove_range(&mut self, conn: u64, min: u64, max: u64)
        ensures
            Self::remove_range_effect(*old(self), *final(self), conn, min, max),
    {
        let ghost s0 = self.ranges@;
        let mut kept: Vec<RangeSub> = Vec::new();
        let mut i: usize = 0;
        while i < self.ranges.len()
            invariant
                self.ranges@ == s0,
                i <= s0.len(),
                forall|c: u64, m: u64, x: u64|
                    #[trigger] range_in(kept@, c, m, x) <==> (range_in(
                        s0.subrange(0, i as int),
                        c,
                        m,
                        x,
                    ) && !(c == conn && m == min && x == max)),
            decreases s0.len() - i,
        {
            let ghost kpre = kept@;
            let ghost pre = s0.subrange(0, i as int);
            let s = self.ranges[i];
            if !(s.conn == conn && s.min == min && s.max == max) {
                kept.push(s);
            }
            i += 1;
            proof {
                assert(s0.subrange(0, i as int) =~= pre.push(s0[i - 1]));
                assert forall|c: u64, m: u64, x: u64| #[trigger]
                    range_in(kept@, c, m, x) <==> (range_in(s0.subrange(0, i as int), c, m, x)
                        && !(c == conn && m == min && x == max)) by {
                    lemma_range_in_push(pre, s0[i - 1], c, m, x);
                    if !(s.conn == conn && s.min == min && s.max == max) {
                        lemma_range_in_push(kpre, s0[i - 1], c, m, x);
                    }
                }
            }
        }
        assert(s0.subrange(0, s0.len() as int) =~= s0);
        self.ranges = kept;
    }

    /// Purge every range of `conn`.
    pub fn remove_connection(&mut self, conn: u64)
        ensures
            Self::remove_connection_effect(*old(self), *final(self), conn),
    {
        let ghost s0 = self.ranges@;
        let mut kept: Vec<RangeSub> = Vec::new();
        let mut i: usize = 0;
        while i < self.ranges.len()
            invariant
                self.ranges@ == s0,
                i <= s0.len(),
                forall|c: u64, m: u64, x: u64|
                    #[trigger] range_in(kept@, c, m, x) <==> (range_in(
                        s0.subrange(0, i as int),
                        c,
                        m,
                        x,
                    ) && c != conn),
            decreases s0.len() - i,
        {
            let ghost kpre = kept@;
            let ghost pre = s0.subrange(0, i as int);
            let s = self.ranges[i];
            if s.conn != conn {
                kept.push(s);
            }
            i += 1;
            proof {
                assert(s0.subrange(0, i as int) =~= pre.push(s0[i - 1]));
                assert forall|c: u64, m: u64, x: u64| #[trigger]
                    range_in(kept@, c, m, x) <==> (range_in(s0.subrange(0, i as int), c, m, x) && c
                        != conn) by {
                    lemma_range_in_push(pre, s0[i - 1], c, m, x);
                    if s.conn != conn {
                        lemma_range_in_push(kpre, s0[i - 1], c, m, x);
                    }
                }
            }
        }
        assert(s0.subrange(0, s0.len() as int) =~= s0);
        self.ranges = kept;
    }

    /// The set of connections with a range containing `channel`, without
    /// duplicates.
    pub fn matching(&self, channel: u64) -> (r: Vec<u64>)
        ensures
            forall|c: u64| #[trigger] r@.contains(c) <==> self.covers(c, channel),
            forall|a: int, b: int| 0 <= a < b < r@.len() ==> r@[a] != r@[b],
    {
        let ghost s0 = self.ranges@;
        let mut r: Vec<u64> = Vec::new();
        let mut i: usize = 0;
        while i < self.ranges.len()
            invariant
                self.ranges@ == s0,
                i <= s0.len(),
                forall|c: u64|
                    #[trigger] r@.contains(c) <==> (exists|k: int|
                        0 <= k < i && s0[k].conn == c && s0[k].min <= channel < s0[k].max),
                forall|a: int, b: int| 0 <= a < b < r@.len() ==> r@[a] != r@[b],
            decreases s0.len() - i,
        {
            let ghost rpre = r@;
            let s = self.ranges[i];
            if s.min <= channel && channel < s.max && !crate::channels::contains_u64(&r, s.conn) {
                r.push(s.conn);
            }
            i += 1;
            proof {
                assert forall|c: u64| #[trigger]
                    r@.contains(c) <==> (exists|k: int|
                        0 <= k < i && s0[k].conn == c && s0[k].min <= channel < s0[k].max) by {
                    if r@ != rpre {
                        assert(r@ == rpre.push(s.conn));
                        if r@.contains(c) && c != s.conn {
                            let k = choose|k: int| 0 <= k < r@.len() && r@[k] == c;
                            assert(rpre[k] == c);
                            assert(rpre.contains(c));
                        }
                        if rpre.contains(c) {
                            let k = choose|k: int| 0 <= k < rpre.len() && rpre[k] == c;
                            assert(r@[k] == c);
                        }
                        assert(r@[rpre.len() as int] == s.conn);
                        assert(r@.contains(s.conn));
                    }
                    if s.min <= channel < s.max && c == s.conn {
                        assert(s0[i - 1].conn == c && s0[i - 1].min <= channel < s0[i - 1].max);
                    }
                }
            }
        }
        proof {
            assert forall|c: u64| #[trigger] r@.contains(c) <==> self.covers(c, channel) by {
                if r@.contains(c) {
                    let k = choose|k: int|
                        0 <= k < s0.len() && s0[k].conn == c && s0[k].min <= channel < s0[k].max;
                    assert(range_in(s0, c, s0[k].min, s0[k].max));
                    assert(self.has_range(c, s0[k].min, s0[k].max) && s0[k].min <= channel
                        < s0[k].max);
                }
                if self.covers(c, channel) {
                    let (m, x): (u64, u64) = choose|m: u64, x: u64|
                        self.has_range(c, m, x) && m <= channel < x;
                    let k = choose|k: int|
                        0 <= k < s0.len() && s0[k].conn == c && s0[k].min == m && s0[k].max == x;
                    assert(0 <= k < s0.len() && s0[k].conn == c && s0[k].min <= channel
                        < s0[k].max);
                }
            }
        }
        r
    }
}

} // verus!
