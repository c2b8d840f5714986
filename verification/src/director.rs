//! The Message Director: the routing/federation algorithm over the three
//! registries.  Datagrams with recipients are delivered to the union of
//! exact subscribers and range subscribers of each recipient channel;
//! datagrams without recipients address the bus itself and are handed to
//! the control handler, which is the only writer of registry state.  A
//! recipient channel nobody resolves locally makes the datagram eligible
//! for upstream forwarding, unless it came from the upstream link.

use crate::channels::{contains_u64, ChannelRegistry};
use crate::codec;
use crate::datagram::{Datagram, DatagramModel};
use crate::postremoves::PostRemoveRegistry;
use crate::protocol;
use crate::ranges::RangeRegistry;
use vstd::prelude::*;

verus! {

/// Whether `s` holds no connection handle twice.
pub open spec fn nodup(s: Seq<u64>) -> bool {
    forall|a: int, b: int| 0 <= a < b < s.len() ==> s[a] != s[b]
}

/// What the router decided for one datagram: the local connections to
/// deliver to, and whether to forward the datagram to the upstream link.
pub struct RouteResult {
    pub deliveries: Vec<u64>,
    pub forward_upstream: bool,
}

/// A post-remove datagram together with the routing decided for it.
pub struct FiredRoute {
    pub datagram: Datagram,
    pub result: RouteResult,
}

/// The Message Director's routing state: the three registries and the
/// handle of the optional upstream federation link.  The upstream link
/// is an ordinary connection with full subscription capability; it is
/// special only to the forwarding policy.
pub struct MessageDirector {
    pub channels: ChannelRegistry,
    pub ranges: RangeRegistry,
    pub post_removes: PostRemoveRegistry,
    pub upstream: Option<u64>,
}

impl MessageDirector {
    /// Whether `conn` locally matches `channel`, exactly or by range.
    pub open spec fn local_matches(self, conn: u64, channel: u64) -> bool {
        self.channels.is_subscribed(conn, channel) || self.ranges.covers(conn, channel)
    }

    /// Whether routing `dg` delivers to `conn`: some recipient channel of
    /// `dg` matches `conn`.  The sender is not suppressed: it receives
    /// its own datagram exactly when it matches a recipient channel.
    pub open spec fn delivers_to(self, dg: DatagramModel, conn: u64) -> bool {
        exists|k: int|
            0 <= k < dg.recipients.len() && #[trigger] self.local_matches(conn, dg.recipients[k])
    }

    /// Whether no connection locally matches `channel`.
    pub open spec fn unresolved(self, channel: u64) -> bool {
        forall|c: u64| !#[trigger] self.local_matches(c, channel)
    }

    /// The federation policy: forward upstream exactly when an upstream
    /// link exists, the datagram did not come from it (no routing
    /// loops), and some recipient channel is unresolved locally.
    pub open spec fn should_forward(self, sender: u64, dg: DatagramModel) -> bool {
        match self.upstream {
            Some(u) => sender != u && exists|k: int|
                0 <= k < dg.recipients.len() && #[trigger] self.unresolved(dg.recipients[k]),
            None => false,
        }
    }

    /// What `route` promises: `dels` is the delivery set, without
    /// duplicates, and `fwd` follows the federation policy.
    pub open spec fn route_effect(self, sender: u64, dg: DatagramModel, dels: Seq<u64>, fwd: bool) -> bool {
        &&& forall|c: u64| #[trigger] dels.contains(c) <==> self.delivers_to(dg, c)
        &&& nodup(dels)
        &&& fwd == self.should_forward(sender, dg)
    }

    /// What the control handler does with a bus-directed datagram,
    /// attributed to the sending connection.  A malformed payload or an
    /// unrecognized opcode changes nothing: the datagram is dropped.
    pub open spec fn control_effect(pre: Self, post: Self, sender: u64, dg: DatagramModel) -> bool {
        let p = dg.payload;
        if dg.opcode == protocol::MD_ADD_CHANNEL && p.len() == 8 {
            &&& ChannelRegistry::subscribe_effect(
                pre.channels,
                post.channels,
                sender,
                codec::u64_le_at(p, 0) as u64,
            )
            &&& post.ranges == pre.ranges
            &&& post.post_removes == pre.post_removes
            &&& post.upstream == pre.upstream
        } else if dg.opcode == protocol::MD_REMOVE_CHANNEL && p.len() == 8 {
            &&& ChannelRegistry::unsubscribe_effect(
                pre.channels,
                post.channels,
                sender,
                codec::u64_le_at(p, 0) as u64,
            )
            &&& post.ranges == pre.ranges
            &&& post.post_removes == pre.post_removes
            &&& post.upstream == pre.upstream
        } else if dg.opcode == protocol::MD_ADD_RANGE && p.len() == 16 {
            &&& RangeRegistry::add_range_effect(
                pre.ranges,
                post.ranges,
                sender,
                codec::u64_le_at(p, 0) as u64,
                codec::u64_le_at(p, 8) as u64,
            )
            &&& post.channels == pre.channels
            &&& post.post_removes == pre.post_removes
            &&& post.upstream == pre.upstream
        } else if dg.opcode == protocol::MD_REMOVE_RANGE && p.len() == 16 {
            &&& RangeRegistry::remove_range_effect(
                pre.ranges,
                post.ranges,
                sender,
                codec::u64_le_at(p, 0) as u64,
                codec::u64_le_at(p, 8) as u64,
            )
            &&& post.channels == pre.channels
            &&& post.post_removes == pre.post_removes
            &&& post.upstream == pre.upstream
        } else if dg.opcode == protocol::MD_ADD_POST_REMOVE && codec::spec_decode(p) is Some {
            &&& PostRemoveRegistry::add_effect(
                pre.post_removes,
                post.post_removes,
                sender,
                codec::spec_decode(p).unwrap(),
            )
            &&& post.channels == pre.channels
            &&& post.ranges == pre.ranges
            &&& post.upstream == pre.upstream
        } else if dg.opcode == protocol::MD_CLEAR_POST_REMOVES && p.len() == 0 {
            &&& PostRemoveRegistry::clear_effect(pre.post_removes, post.post_removes, sender)
            &&& post.channels == pre.channels
            &&& post.ranges == pre.ranges
            &&& post.upstream == pre.upstream
        } else {
            post == pre
        }
    }

    /// What teardown does to the registries: the connection is purged
    /// from both subscription registries and its post-remove queue is
    /// drained, every other connection's state untouched.
    pub open spec fn teardown_cleanup(pre: Self, post: Self, conn: u64) -> bool {
        &&& ChannelRegistry::remove_connection_effect(pre.channels, post.channels, conn)
        &&& RangeRegistry::remove_connection_effect(pre.ranges, post.ranges, conn)
        &&& PostRemoveRegistry::clear_effect(pre.post_removes, post.post_removes, conn)
        &&& post.upstream == pre.upstream
    }

    /// A director with empty registries; `upstream` holds the connection
    /// handle of the upstream federation link, `None` on a cluster root.
    pub fn new(upstream: Option<u64>) -> (r: Self)
        ensures
            forall|c: u64, h: u64| !#[trigger] r.channels.is_subscribed(c, h),
            forall|c: u64, m: u64, x: u64| !#[trigger] r.ranges.has_range(c, m, x),
            forall|c: u64| #[trigger] r.post_removes.queue_of(c) == Seq::<DatagramModel>::empty(),
            r.upstream == upstream,
    {
        MessageDirector {
            channels: ChannelRegistry::new(),
            ranges: RangeRegistry::new(),
            post_removes: PostRemoveRegistry::new(),
            upstream,
        }
    }

    /// Route a datagram received from `sender` without mutating any
    /// registry: compute the delivery set and the forwarding decision.
    pub fn route(&self, sender: u64, dg: &Datagram) -> (r: RouteResult)
        ensures
            self.route_effect(sender, dg@, r.deliveries@, r.forward_upstream),
    {
        let mut out: Vec<u64> = Vec::new();
        let mut miss = false;
        let n = dg.recipients.len();
        let mut i: usize = 0;
        while i < n
            invariant
                n == dg.recipients@.len(),
                i <= n,
                forall|c: u64|
                    #[trigger] out@.contains(c) <==> exists|k: int|
                        0 <= k < i && #[trigger] self.local_matches(c, dg@.recipients[k]),
                nodup(out@),
                miss <==> exists|k: int|
                    0 <= k < i && #[trigger] self.unresolved(dg@.recipients[k]),
            decreases n - i,
        {
            let ghost out_pre = out@;
            let ch = dg.recipients[i];
            let subs = self.channels.subscribers_of(ch);
            let rng = self.ranges.matching(ch);
            if subs.len() == 0 && rng.len() == 0 {
                proof {
                    assert forall|c: u64| !#[trigger] self.local_matches(c, ch) by {
                        assert(!subs@.contains(c));
                        assert(!rng@.contains(c));
                    }
                    assert(self.unresolved(dg@.recipients[i as int]));
                }
                miss = true;
            } else {
                proof {
                    if subs@.len() > 0 {
                        assert(subs@.contains(subs@[0]));
                        assert(self.local_matches(subs@[0], ch));
                    } else {
                        assert(rng@.contains(rng@[0]));
                        assert(self.local_matches(rng@[0], ch));
                    }
                    assert(!self.unresolved(ch));
                }
            }
            merge_into(&mut out, &subs);
            merge_into(&mut out, &rng);
            i += 1;
            proof {
                assert forall|c: u64| #[trigger]
                    out@.contains(c) <==> exists|k: int|
                        0 <= k < i && #[trigger] self.local_matches(c, dg@.recipients[k]) by {
                    if out@.contains(c) {
                        if out_pre.contains(c) {
                        } else {
                            assert(self.local_matches(c, dg@.recipients[i - 1]));
                        }
                    } else {
                        assert(!out_pre.contains(c));
                        assert(!subs@.contains(c) && !rng@.contains(c));
                        assert(!self.local_matches(c, dg@.recipients[i - 1]));
                        if exists|k: int|
                            0 <= k < i && #[trigger] self.local_matches(c, dg@.recipients[k]) {
                            let k = choose|k: int|
                                0 <= k < i && #[trigger] self.local_matches(c, dg@.recipients[k]);
                            assert(k == i - 1);
                            assert(false);
                        }
                    }
                }
            }
        }
        let forward_upstream = match self.upstream {
            Some(u) => sender != u && miss,
            None => false,
        };
        RouteResult { deliveries: out, forward_upstream }
    }

    /// Handle one inbound datagram from `sender`.  A datagram with
    /// recipients is routed and the registries stay untouched; one
    /// without recipients is a bus-directed control message, mutates the
    /// registries as its opcode says, and is never routed or forwarded.
    pub fn handle_datagram(&mut self, sender: u64, dg: &Datagram) -> (r: RouteResult)
        ensures
            dg@.recipients.len() == 0 ==> {
                &&& Self::control_effect(*old(self), *final(self), sender, dg@)
                &&& r.deliveries@.len() == 0
                &&& !r.forward_upstream
            },
            dg@.recipients.len() > 0 ==> {
                &&& *final(self) == *old(self)
                &&& old(self).route_effect(sender, dg@, r.deliveries@, r.forward_upstream)
            },
    {
        if dg.recipients.len() == 0 {
            let op = dg.opcode;
            if op == protocol::MD_ADD_CHANNEL {
                if dg.payload.len() == 8 {
                    let ch = codec::read_u64_le(dg.payload.as_slice(), 0);
                    self.channels.subscribe(sender, ch);
                }
            } else if op == protocol::MD_REMOVE_CHANNEL {
                if dg.payload.len() == 8 {
                    let ch = codec::read_u64_le(dg.payload.as_slice(), 0);
                    self.channels.unsubscribe(sender, ch);
                }
            } else if op == protocol::MD_ADD_RANGE {
                if dg.payload.len() == 16 {
                    let min = codec::read_u64_le(dg.payload.as_slice(), 0);
                    let max = codec::read_u64_le(dg.payload.as_slice(), 8);
                    self.ranges.add_range(sender, min, max);
                }
            } else if op == protocol::MD_REMOVE_RANGE {
                if dg.payload.len() == 16 {
                    let min = codec::read_u64_le(dg.payload.as_slice(), 0);
                    let max = codec::read_u64_le(dg.payload.as_slice(), 8);
                    self.ranges.remove_range(sender, min, max);
                }
            } else if op == protocol::MD_ADD_POST_REMOVE {
                match codec::decode_datagram(dg.payload.as_slice()) {
                    Some(inner) => {
                        self.post_removes.add_post_remove(sender, inner);
                    },
                    None => {},
                }
            } else if op == protocol::MD_CLEAR_POST_REMOVES {
                if dg.payload.len() == 0 {
                    self.post_removes.clear_post_removes(sender);
                }
            }
            RouteResult { deliveries: Vec::new(), forward_upstream: false }
        } else {
            self.route(sender, dg)
        }
    }

    /// Tear a lost connection down: drain its post-remove queue, purge
    /// it from both subscription registries, and only then route each
    /// drained datagram exactly as if `conn` had sent it — against the
    /// cleaned registries, so a closing connection never appears in a
    /// delivery set.
    pub fn handle_disconnect(&mut self, conn: u64) -> (fired: Vec<FiredRoute>)
        ensures
            Self::teardown_cleanup(*old(self), *final(self), conn),
            fired@.len() == old(self).post_removes.queue_of(conn).len(),
            forall|k: int|
                0 <= k < fired@.len() ==> {
                    &&& (#[trigger] fired@[k]).datagram@ == old(self).post_removes.queue_of(
                        conn,
                    )[k]
                    &&& final(self).route_effect(
                        conn,
                        fired@[k].datagram@,
                        fired@[k].result.deliveries@,
                        fired@[k].result.forward_upstream,
                    )
                },
    {
        let taken = self.post_removes.take_and_remove(conn);
        self.channels.remove_connection(conn);
        self.ranges.remove_connection(conn);
        let ghost cleaned = *self;
        let ghost queue = old(self).post_removes.queue_of(conn);
        let mut fired: Vec<FiredRoute> = Vec::new();
        let mut i: usize = 0;
        while i < taken.len()
            invariant
                *self == cleaned,
                taken@.map_values(|d: Datagram| d@) == queue,
                i <= taken@.len(),
                fired@.len() == i,
                forall|k: int|
                    0 <= k < i ==> {
                        &&& (#[trigger] fired@[k]).datagram@ == queue[k]
                        &&& cleaned.route_effect(
                            conn,
                            fired@[k].datagram@,
                            fired@[k].result.deliveries@,
                            fired@[k].result.forward_upstream,
                        )
                    },
            decreases taken@.len() - i,
        {
            let d = taken[i].clone();
            assert(d@ == queue[i as int]);
            let result = self.route(conn, &d);
            fired.push(FiredRoute { datagram: d, result });
            i += 1;
        }
        fired
    }

    /// After teardown the connection is absent from every channel's
    /// subscriber set and every range's owner set, and its post-remove
    /// queue is empty, so a second teardown fires nothing.
    pub proof fn lemma_teardown_purges(pre: Self, post: Self, conn: u64)
        requires
            Self::teardown_cleanup(pre, post, conn),
        ensures
            forall|h: u64| !#[trigger] post.channels.is_subscribed(conn, h),
            forall|m: u64, x: u64| !#[trigger] post.ranges.has_range(conn, m, x),
            post.post_removes.queue_of(conn) == Seq::<DatagramModel>::empty(),
    {
    }

    /// A channel inside a registered range of a connection delivers to
    /// that connection, even with zero exact-channel subscriptions.
    pub proof fn lemma_range_match_delivers(
        md: Self,
        dg: DatagramModel,
        conn: u64,
        min: u64,
        max: u64,
        ch: u64,
    )
        requires
            md.ranges.has_range(conn, min, max),
            min <= ch < max,
            dg.recipients.contains(ch),
        ensures
            md.delivers_to(dg, conn),
    {
        let k = choose|k: int| 0 <= k < dg.recipients.len() && dg.recipients[k] == ch;
        assert(md.ranges.covers(conn, ch));
        assert(md.local_matches(conn, dg.recipients[k]));
    }

    /// A datagram whose every recipient channel is unresolved locally
    /// yields zero deliveries, and without an upstream link it is
    /// silently dropped: nothing is forwarded either.
    pub proof fn lemma_unresolved_drops(md: Self, sender: u64, dg: DatagramModel)
        requires
            forall|k: int| 0 <= k < dg.recipients.len() ==> #[trigger] md.unresolved(dg.recipients[k]),
            md.upstream is None,
        ensures
            forall|c: u64| !#[trigger] md.delivers_to(dg, c),
            !md.should_forward(sender, dg),
    {
        assert forall|c: u64| !#[trigger] md.delivers_to(dg, c) by {
            if md.delivers_to(dg, c) {
                let k = choose|k: int|
                    0 <= k < dg.recipients.len() && #[trigger] md.local_matches(
                        c,
                        dg.recipients[k],
                    );
                assert(md.unresolved(dg.recipients[k]));
                assert(!md.local_matches(c, dg.recipients[k]));
            }
        }
    }

    /// Federation: a datagram with a locally unresolved recipient
    /// channel, received from a non-upstream connection, is forwarded
    /// upstream; a datagram received from the upstream link is never
    /// forwarded back upstream, whatever its resolution.
    pub proof fn lemma_federation_policy(md: Self, u: u64, sender: u64, dg: DatagramModel, k: int)
        requires
            md.upstream == Some(u),
        ensures
            sender != u && 0 <= k < dg.recipients.len() && md.unresolved(dg.recipients[k])
                ==> md.should_forward(sender, dg),
            !md.should_forward(u, dg),
    {
    }

    /// A registered post-remove datagram stands at the end of its
    /// owner's queue, which teardown fires in full; clearing the queue
    /// first leaves teardown nothing to fire.
    pub proof fn lemma_post_remove_firing(
        pre: PostRemoveRegistry,
        added: PostRemoveRegistry,
        cleared: PostRemoveRegistry,
        conn: u64,
        dg: DatagramModel,
    )
        requires
            PostRemoveRegistry::add_effect(pre, added, conn, dg),
            PostRemoveRegistry::clear_effect(added, cleared, conn),
        ensures
            added.queue_of(conn).len() >= 1,
            added.queue_of(conn).last() == dg,
            cleared.queue_of(conn).len() == 0,
    {
    }
}

/// Add every handle of `add` that `out` does not yet hold.
fn merge_into(out: &mut Vec<u64>, add: &Vec<u64>)
    requires
        nodup(old(out)@),
    ensures
        nodup(final(out)@),
        forall|c: u64|
            #[trigger] final(out)@.contains(c) <==> (old(out)@.contains(c) || add@.contains(c)),
{
    let mut a: usize = 0;
    while a < add.len()
        invariant
            a <= add@.len(),
            nodup(out@),
            forall|c: u64|
                #[trigger] out@.contains(c) <==> (old(out)@.contains(c) || exists|j: int|
                    0 <= j < a && add@[j] == c),
        decreases add@.len() - a,
    {
        let ghost out_pre = out@;
        let c = add[a];
        if !contains_u64(out, c) {
            out.push(c);
        }
        a += 1;
        proof {
            assert forall|c2: u64| #[trigger]
                out@.contains(c2) <==> (old(out)@.contains(c2) || exists|j: int|
                    0 <= j < a && add@[j] == c2) by {
                if out@ != out_pre {
                    assert(out@ == out_pre.push(c));
                    if out@.contains(c2) && c2 != c {
                        let k = choose|k: int| 0 <= k < out@.len() && out@[k] == c2;
                        assert(out_pre[k] == c2);
                        assert(out_pre.contains(c2));
                    }
                    if out_pre.contains(c2) {
                        let k = choose|k: int| 0 <= k < out_pre.len() && out_pre[k] == c2;
                        assert(out@[k] == c2);
                    }
                    assert(out@[out_pre.len() as int] == c);
                    assert(out@.contains(c));
                }
                if c2 == c {
                    assert(add@[a - 1] == c2);
                } else if exists|j: int| 0 <= j < a && add@[j] == c2 {
                    let j = choose|j: int| 0 <= j < a && add@[j] == c2;
                    assert(j < a - 1 || j == a - 1);
                }
            }
        }
    }
    assert forall|c: u64| #[trigger]
        final(out)@.contains(c) <==> (old(out)@.contains(c) || add@.contains(c)) by {
        if add@.contains(c) {
            let j = choose|j: int| 0 <= j < add@.len() && add@[j] == c;
        }
    }
}

} // verus!
