//! Post-Remove Registry: datagrams pre-registered by a connection, to be
//! broadcast automatically when that connection terminates.  Each
//! connection owns an ordered queue (duplicates are legal and all fire);
//! the queue fires in registration order, exactly once, unless the
//! connection clears it first.

use crate::datagram::{Datagram, DatagramModel};
use vstd::prelude::*;

verus! {

/// One registered post-remove datagram, owned by `conn`.
pub struct PrItem {
    pub conn: u64,
    pub dg: Datagram,
}

/// The queue of `conn` within `items`, in registration order.
pub open spec fn queue_in(items: Seq<PrItem>, conn: u64) -> Seq<DatagramModel>
    decreases items.len(),
{
    if items.len() == 0 {
        Seq::empty()
    } else {
        let rest = queue_in(items.drop_last(), conn);
        if items.last().conn == conn {
            rest.push(items.last().dg@)
        } else {
            rest
        }
    }
}

proof fn lemma_queue_in_push(items: Seq<PrItem>, x: PrItem, conn: u64)
    ensures
        queue_in(items.push(x), conn) == if x.conn == conn {
            queue_in(items, conn).push(x.dg@)
        } else {
            queue_in(items, conn)
        },
{
    assert(items.push(x).drop_last() =~= items);
    assert(items.push(x).last() == x);
}

/// Registry of post-remove queues.
pub struct PostRemoveRegistry {
    items: Vec<PrItem>,
}

impl PostRemoveRegistry {
    /// The queue registered by `conn`, in registration order.
    pub closed spec fn queue_of(self, conn: u64) -> Seq<DatagramModel> {
        queue_in(self.items@, conn)
    }

    /// State change performed by `add_post_remove`: the datagram is
    /// appended to the owner's queue and every other queue is kept.
    pub open spec fn add_effect(pre: Self, post: Self, conn: u64, dg: DatagramModel) -> bool {
        &&& post.queue_of(conn) == pre.queue_of(conn).push(dg)
        &&& forall|c: u64| c != conn ==> #[trigger] post.queue_of(c) == pre.queue_of(c)
    }

    /// State change performed by `clear_post_removes` and by
    /// `take_and_remove`: the owner's queue is emptied and every other
    /// queue is kept.
    pub open spec fn clear_effect(pre: Self, post: Self, conn: u64) -> bool {
        &&& post.queue_of(conn) == Seq::<DatagramModel>::empty()
        &&& forall|c: u64| c != conn ==> #[trigger] post.queue_of(c) == pre.queue_of(c)
    }

    /// An empty registry: every queue is empty.
    pub fn new() -> (r: Self)
        ensures
            forall|c: u64| #[trigger] r.queue_of(c) == Seq::<DatagramModel>::empty(),
    {
        PostRemoveRegistry { items: Vec::new() }
    }

    /// Append `dg` to the queue of `conn`.
    pub fn add_post_remove(&mut self, conn: u64, dg: Datagram)
        ensures
            Self::add_effect(*old(self), *final(self), conn, dg@),
    {
        let ghost s0 = self.items@;
        let ghost x = PrItem { conn, dg };
        self.items.push(PrItem { conn, dg });
        proof {
            assert forall|c: u64| c != conn implies #[trigger] queue_in(s0.push(x), c) == queue_in(
                s0,
                c,
            ) by {
                lemma_queue_in_push(s0, x, c);
            }
            lemma_queue_in_push(s0, x, conn);
        }
    }

    /// Empty the queue of `conn` without firing it (graceful shutdown).
    pub fn clear_post_removes(&mut self, conn: u64)
        ensures
            Self::clear_effect(*old(self), *final(self), conn),
    {
        let _ = self.take_and_remove(conn);
    }

    /// Hand out the queue of `conn`, in registration order, and remove it
    /// from the registry: a second take returns the empty sequence.
    pub fn take_and_remove(&mut self, conn: u64) -> (taken: Vec<Datagram>)
        ensures
            Self::clear_effect(*old(self), *final(self), conn),
            taken@.map_values(|d: Datagram| d@) == old(self).queue_of(conn),
    {
        let ghost s0 = self.items@;
        let mut kept: Vec<PrItem> = Vec::new();
        let mut taken: Vec<Datagram> = Vec::new();
        let mut i: usize = 0;
        while i < self.items.len()
            invariant
                self.items@ == s0,
                i <= s0.len(),
                taken@.map_values(|d: Datagram| d@) == queue_in(s0.subrange(0, i as int), conn),
                queue_in(kept@, conn) == Seq::<DatagramModel>::empty(),
                forall|c: u64|
                    c != conn ==> #[trigger] queue_in(kept@, c) == queue_in(
                        s0.subrange(0, i as int),
                        c,
                    ),
            decreases s0.len() - i,
        {
            let ghost kpre = kept@;
            let ghost tpre = taken@;
            let ghost pre = s0.subrange(0, i as int);
            let it = &self.items[i];
            if it.conn == conn {
                taken.push(it.dg.clone());
            } else {
                kept.push(PrItem { conn: it.conn, dg: it.dg.clone() });
            }
            i += 1;
            proof {
                assert(s0.subrange(0, i as int) =~= pre.push(s0[i - 1]));
                if s0[i - 1].conn == conn {
                    lemma_queue_in_push(pre, s0[i - 1], conn);
                    assert(taken@.map_values(|d: Datagram| d@) =~= tpre.map_values(
                        |d: Datagram| d@,
                    ).push(s0[i - 1].dg@));
                    assert forall|c: u64| c != conn implies #[trigger] queue_in(kept@, c)
                        == queue_in(s0.subrange(0, i as int), c) by {
                        lemma_queue_in_push(pre, s0[i - 1], c);
                    }
                } else {
                    assert(kept@ =~= kpre.push(kept@.last()));
                    assert(kept@.last().conn == s0[i - 1].conn);
                    assert(kept@.last().dg@ == s0[i - 1].dg@);
                    lemma_queue_in_push(kpre, kept@.last(), conn);
                    lemma_queue_in_push(pre, s0[i - 1], conn);
                    assert(taken@.map_values(|d: Datagram| d@) =~= tpre.map_values(
                        |d: Datagram| d@,
                    ));
                    assert forall|c: u64| c != conn implies #[trigger] queue_in(kept@, c)
                        == queue_in(s0.subrange(0, i as int), c) by {
                        lemma_queue_in_push(kpre, kept@.last(), c);
                        lemma_queue_in_push(pre, s0[i - 1], c);
                        if c == s0[i - 1].conn {
                            assert(queue_in(kept@, c) == queue_in(kpre, c).push(
                                kept@.last().dg@,
                            ));
                            assert(queue_in(s0.subrange(0, i as int), c) == queue_in(pre, c).push(
                                s0[i - 1].dg@,
                            ));
                        }
                    }
                }
            }
        }
        assert(s0.subrange(0, s0.len() as int) =~= s0);
        self.items = kept;
        taken
    }
}

} // verus!
