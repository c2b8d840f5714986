//! Channel Registry: which connections are subscribed to which exact
//! channels.  A subscription is a `(connection, channel)` pair; many
//! connections may subscribe to the same channel (fan-out), and
//! subscribing twice is the same as subscribing once.

use vstd::prelude::*;

verus! {

/// One exact-channel subscription held by the registry.
#[derive(Clone, Copy, PartialEq, Eq, Structural)]
pub struct Sub {
    pub conn: u64,
    pub channel: u64,
}

/// Whether the pair `(conn, channel)` occurs in `s`.
pub open spec fn pair_in(s: Seq<Sub>, conn: u64, channel: u64) -> bool {
    exists|i: int| 0 <= i < s.len() && s[i].conn == conn && s[i].channel == channel
}

proof fn lemma_pair_in_push(s: Seq<Sub>, x: Sub, conn: u64, channel: u64)
    ensures
        pair_in(s.push(x), conn, channel) <==> (pair_in(s, conn, channel) || (x.conn == conn
            && x.channel == channel)),
{
    if pair_in(s, conn, channel) {
        let i = choose|i: int| 0 <= i < s.len() && s[i].conn == conn && s[i].channel == channel;
        assert(s.push(x)[i].conn == conn && s.push(x)[i].channel == channel);
    }
    if x.conn == conn && x.channel == channel {
        assert(s.push(x)[s.len() as int].conn == conn);
    }
    if pair_in(s.push(x), conn, channel) {
        let i = choose|i: int|
            0 <= i < s.push(x).len() && s.push(x)[i].conn == conn && s.push(x)[i].channel
                == channel;
        if i < s.len() {
            assert(s[i].conn == conn && s[i].channel == channel);
        }
    }
}

/// Registry of exact-channel subscriptions.
pub struct ChannelRegistry {
    subs: Vec<Sub>,
}

impl ChannelRegistry {
    /// Whether `conn` is subscribed to `channel`.
    pub closed spec fn is_subscribed(self, conn: u64, channel: u64) -> bool {
        pair_in(self.subs@, conn, channel)
    }

    /// State change performed by `subscribe`: afterwards exactly the old
    /// pairs plus `(conn, channel)` are present.
    pub open spec fn subscribe_effect(pre: Self, post: Self, conn: u64, channel: u64) -> bool {
        forall|c: u64, h: u64|
            #[trigger] post.is_subscribed(c, h) <==> (pre.is_subscribed(c, h) || (c == conn && h
                == channel))
    }

    /// State change performed by `unsubscribe`: afterwards exactly the old
    /// pairs except `(conn, channel)` are present.
    pub open spec fn unsubscribe_effect(pre: Self, post: Self, conn: u64, channel: u64) -> bool {
        forall|c: u64, h: u64|
            #[trigger] post.is_subscribed(c, h) <==> (pre.is_subscribed(c, h) && !(c == conn && h
                == channel))
    }

    /// State change performed by `remove_connection`: every pair of the
    /// connection is removed, every other pair is kept.
    pub open spec fn remove_connection_effect(pre: Self, post: Self, conn: u64) -> bool {
        forall|c: u64, h: u64|
            #[trigger] post.is_subscribed(c, h) <==> (pre.is_subscribed(c, h) && c != conn)
    }

    /// An empty registry: nobody is subscribed to anything.
    pub fn new() -> (r: Self)
        ensures
            forall|c: u64, h: u64| !#[trigger] r.is_subscribed(c, h),
    {
        ChannelRegistry { subs: Vec::new() }
    }

    /// Add `conn` to `channel`'s subscriber set; idempotent.
    pub fn subscribe(&mut self, conn: u64, channel: u64)
        ensures
            Self::subscribe_effect(*old(self), *final(self), conn, channel),
    {
        let ghost s0 = self.subs@;
        let mut i: usize = 0;
        while i < self.subs.len()
            invariant
                self.subs@ == s0,
                i <= s0.len(),
                forall|k: int| 0 <= k < i ==> !(s0[k].conn == conn && s0[k].channel == channel),
            decreases s0.len() - i,
        {
            if self.subs[i].conn == conn && self.subs[i].channel == channel {
                assert(pair_in(s0, conn, channel));
                assert(forall|c: u64, h: u64|
                    #[trigger] pair_in(s0, c, h) <==> (pair_in(s0, c, h) || (c == conn && h
                        == channel)));
                return ;
            }
            i += 1;
        }
        let ghost snew = s0.push(Sub { conn, channel });
        self.subs.push(Sub { conn, channel });
        assert forall|c: u64, h: u64| #[trigger]
            pair_in(snew, c, h) <==> (pair_in(s0, c, h) || (c == conn && h == channel)) by {
            lemma_pair_in_push(s0, Sub { conn, channel }, c, h);
        }
    }

    /// Remove `conn` from `channel`'s subscriber set; a no-op if absent.
    pub fn unsubscribe(&mut self, conn: u64, channel: u64)
        ensures
            Self::unsubscribe_effect(*old(self), *final(self), conn, channel),
    {
        let ghost s0 = self.subs@;
        let mut kept: Vec<Sub> = Vec::new();
        let mut i: usize = 0;
        while i < self.subs.len()
            invariant
                self.subs@ == s0,
                i <= s0.len(),
                forall|c: u64, h: u64|
                    #[trigger] pair_in(kept@, c, h) <==> (pair_in(s0.subrange(0, i as int), c, h)
                        && !(c == conn && h == channel)),
            decreases s0.len() - i,
        {
            let ghost kpre = kept@;
            let ghost pre = s0.subrange(0, i as int);
            let s = self.subs[i];
            if !(s.conn == conn && s.channel == channel) {
                kept.push(s);
            }
            i += 1;
            proof {
                assert(s0.subrange(0, i as int) =~= pre.push(s0[i - 1]));
                assert forall|c: u64, h: u64| #[trigger]
                    pair_in(kept@, c, h) <==> (pair_in(s0.subrange(0, i as int), c, h) && !(c
                        == conn && h == channel)) by {
                    lemma_pair_in_push(pre, s0[i - 1], c, h);
                    if !(s.conn == conn && s.channel == channel) {
                        lemma_pair_in_push(kpre, s0[i - 1], c, h);
                    }
                }
            }
        }
        assert(s0.subrange(0, s0.len() as int) =~= s0);
        self.subs = kept;
    }

    /// Purge `conn` from every channel's subscriber set.
    pub fn remove_connection(&mut self, conn: u64)
        ensures
            Self::remove_connection_effect(*old(self), *final(self), conn),
    {
        let ghost s0 = self.subs@;
        let mut kept: Vec<Sub> = Vec::new();
        let mut i: usize = 0;
        while i < self.subs.len()
            invariant
                self.subs@ == s0,
                i <= s0.len(),
                forall|c: u64, h: u64|
                    #[trigger] pair_in(kept@, c, h) <==> (pair_in(s0.subrange(0, i as int), c, h)
                        && c != conn),
            decreases s0.len() - i,
        {
            let ghost kpre = kept@;
            let ghost pre = s0.subrange(0, i as int);
            let s = self.subs[i];
            if s.conn != conn {
                kept.push(s);
            }
            i += 1;
            proof {
                assert(s0.subrange(0, i as int) =~= pre.push(s0[i - 1]));
                assert forall|c: u64, h: u64| #[trigger]
                    pair_in(kept@, c, h) <==> (pair_in(s0.subrange(0, i as int), c, h) && c
                        != conn) by {
                    lemma_pair_in_push(pre, s0[i - 1], c, h);
                    if s.conn != conn {
                        lemma_pair_in_push(kpre, s0[i - 1], c, h);
                    }
                }
            }
        }
        assert(s0.subrange(0, s0.len() as int) =~= s0);
        self.subs = kept;
    }

    /// The set of connections subscribed to `channel`, without duplicates.
    pub fn subscribers_of(&self, channel: u64) -> (r: Vec<u64>)
        ensures
            forall|c: u64| #[trigger] r@.contains(c) <==> self.is_subscribed(c, channel),
            forall|a: int, b: int| 0 <= a < b < r@.len() ==> r@[a] != r@[b],
    {
        let ghost s0 = self.subs@;
        let mut r: Vec<u64> = Vec::new();
        let mut i: usize = 0;
        while i < self.subs.len()
            invariant
                self.subs@ == s0,
                i <= s0.len(),
                forall|c: u64|
                    #[trigger] r@.contains(c) <==> pair_in(s0.subrange(0, i as int), c, channel),
                forall|a: int, b: int| 0 <= a < b < r@.len() ==> r@[a] != r@[b],
            decreases s0.len() - i,
        {
            let ghost rpre = r@;
            let ghost pre = s0.subrange(0, i as int);
            let s = self.subs[i];
            if s.channel == channel && !contains_u64(&r, s.conn) {
                r.push(s.conn);
            }
            i += 1;
            proof {
                assert(s0.subrange(0, i as int) =~= pre.push(s0[i - 1]));
                assert forall|c: u64| #[trigger]
                    r@.contains(c) <==> pair_in(s0.subrange(0, i as int), c, channel) by {
                    lemma_pair_in_push(pre, s0[i - 1], c, channel);
                    if r@ != rpre {
                        assert(r@ == rpre.push(s.conn));
                        if r@.contains(c) && c != s.conn {
                            let k = choose|k: int| 0 <= k < r@.len() && r@[k] == c;
                            assert(rpre[k] == c);
                            assert(rpre.contains(c));
                        }
                        if rpre.contains(c) {
                            let k = choose|k: int| 0 <= k < rpre.len() && rpre[k] == c;
                            assert(r@[k] == c);
                        }
                        assert(r@.contains(s.conn)) by {
                            assert(r@[rpre.len() as int] == s.conn);
                        }
                    }
                }
            }
        }
        assert(s0.subrange(0, s0.len() as int) =~= s0);
        r
    }

    /// After a subscribe followed by an unsubscribe of the same pair, the
    /// connection is no longer among the channel's subscribers.
    pub proof fn lemma_subscribe_then_unsubscribe(
        r0: Self,
        r1: Self,
        r2: Self,
        conn: u64,
        channel: u64,
    )
        requires
            Self::subscribe_effect(r0, r1, conn, channel),
            Self::unsubscribe_effect(r1, r2, conn, channel),
        ensures
            !r2.is_subscribed(conn, channel),
    {
    }
}

/// Whether `v` holds `x`.
pub fn contains_u64(v: &Vec<u64>, x: u64) -> (r: bool)
    ensures
        r == v@.contains(x),
{
    let mut i: usize = 0;
    while i < v.len()
        invariant
            i <= v@.len(),
            forall|k: int| 0 <= k < i ==> v@[k] != x,
        decreases v@.len() - i,
    {
        if v[i] == x {
            return true;
        }
        i += 1;
    }
    false
}

} // verus!
