//! The unit of transport on the bus: an opcode, a sender channel, an
//! ordered list of recipient channels (an empty list addresses the bus
//! itself), and an opaque payload.

use vstd::prelude::*;

verus! {

/// Mathematical model of a datagram, used by every contract.
pub struct DatagramModel {
    pub opcode: u16,
    pub sender: u64,
    pub recipients: Seq<u64>,
    pub payload: Seq<u8>,
}

/// A framed message travelling over the bus.
pub struct Datagram {
    pub opcode: u16,
    pub sender: u64,
    pub recipients: Vec<u64>,
    pub payload: Vec<u8>,
}

impl View for Datagram {
    type V = DatagramModel;

    open spec fn view(&self) -> DatagramModel {
        DatagramModel {
            opcode: self.opcode,
            sender: self.sender,
            recipients: self.recipients@,
            payload: self.payload@,
        }
    }
}

impl Clone for Datagram {
    /// The copy carries the very same opcode, sender, recipients and
    /// payload.
    fn clone(&self) -> (r: Self)
        ensures
            r@ == self@,
    {
        Datagram {
            opcode: self.opcode,
            sender: self.sender,
            recipients: clone_u64_vec(&self.recipients),
            payload: clone_u8_vec(&self.payload),
        }
    }
}

impl Datagram {
    /// Build a datagram from its four parts.
    pub fn new(opcode: u16, sender: u64, recipients: Vec<u64>, payload: Vec<u8>) -> (r: Self)
        ensures
            r@ == (DatagramModel {
                opcode,
                sender,
                recipients: recipients@,
                payload: payload@,
            }),
    {
        Datagram { opcode, sender, recipients, payload }
    }
}

fn clone_u64_vec(v: &Vec<u64>) -> (r: Vec<u64>)
    ensures
        r@ == v@,
{
    let mut r: Vec<u64> = Vec::new();
    let mut i: usize = 0;
    while i < v.len()
        invariant
            i <= v@.len(),
            r@ == v@.subrange(0, i as int),
        decreases v@.len() - i,
    {
        r.push(v[i]);
        proof {
            assert(v@.subrange(0, i + 1 as int) =~= v@.subrange(0, i as int).push(v@[i as int]));
        }
        i += 1;
    }
    assert(v@.subrange(0, v@.len() as int) =~= v@);
    r
}

pub fn clone_u8_vec(v: &Vec<u8>) -> (r: Vec<u8>)
    ensures
        r@ == v@,
{
    let mut r: Vec<u8> = Vec::new();
    let mut i: usize = 0;
    while i < v.len()
        invariant
            i <= v@.len(),
            r@ == v@.subrange(0, i as int),
        decreases v@.len() - i,
    {
        r.push(v[i]);
        proof {
            assert(v@.subrange(0, i + 1 as int) =~= v@.subrange(0, i as int).push(v@[i as int]));
        }
        i += 1;
    }
    assert(v@.subrange(0, v@.len() as int) =~= v@);
    r
}

} // verus!
