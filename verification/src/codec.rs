//! Wire codec for datagrams.  A frame body is laid out little-endian as
//! `[opcode u16][sender channel u64][recipient count u16][recipient
//! channel u64]*[payload bytes]`; the transport adds a length prefix
//! around this body.  `spec_decode` is the single parsing definition:
//! the decoder computes it and the encoder is proved to invert it.

use crate::datagram::{Datagram, DatagramModel};
use vstd::prelude::*;

verus! {

/// The little-endian 16-bit value stored at `off`.
pub open spec fn u16_le_at(b: Seq<u8>, off: int) -> int {
    b[off] + 0x100 * (b[off + 1] as int)
}

/// The little-endian 64-bit value stored at `off`.
pub open spec fn u64_le_at(b: Seq<u8>, off: int) -> int {
    b[off] + 0x100 * (b[off + 1] + 0x100 * (b[off + 2] + 0x100 * (b[off + 3] + 0x100 * (b[off + 4]
        + 0x100 * (b[off + 5] + 0x100 * (b[off + 6] + 0x100 * (b[off + 7] as int)))))))
}

/// The one meaning of a frame body: `None` when `b` is too short for its
/// own header and recipient list, otherwise the datagram it carries
/// (every trailing byte belongs to the payload).
pub open spec fn spec_decode(b: Seq<u8>) -> Option<DatagramModel> {
    if b.len() < 12 {
        None
    } else {
        let cnt = u16_le_at(b, 10);
        if b.len() < 12 + 8 * cnt {
            None
        } else {
            Some(
                DatagramModel {
                    opcode: u16_le_at(b, 0) as u16,
                    sender: u64_le_at(b, 2) as u64,
                    recipients: Seq::new(cnt as nat, |i: int| u64_le_at(b, 12 + 8 * i) as u64),
                    payload: b.subrange(12 + 8 * cnt, b.len() as int),
                },
            )
        }
    }
}

/// Append the two little-endian bytes of `x`.
pub fn push_u16_le(out: &mut Vec<u8>, x: u16)
    ensures
        final(out)@.len() == old(out)@.len() + 2,
        forall|j: int| 0 <= j < old(out)@.len() ==> final(out)@[j] == old(out)@[j],
        u16_le_at(final(out)@, old(out)@.len() as int) == x as int,
{
    out.push((x % 0x100) as u8);
    out.push((x / 0x100) as u8);
}

/// Append the eight little-endian bytes of `x`.
pub fn push_u64_le(out: &mut Vec<u8>, x: u64)
    ensures
        final(out)@.len() == old(out)@.len() + 8,
        forall|j: int| 0 <= j < old(out)@.len() ==> final(out)@[j] == old(out)@[j],
        u64_le_at(final(out)@, old(out)@.len() as int) == x as int,
{
    let x1 = x / 0x100;
    let x2 = x1 / 0x100;
    let x3 = x2 / 0x100;
    let x4 = x3 / 0x100;
    let x5 = x4 / 0x100;
    let x6 = x5 / 0x100;
    let x7 = x6 / 0x100;
    out.push((x % 0x100) as u8);
    out.push((x1 % 0x100) as u8);
    out.push((x2 % 0x100) as u8);
    out.push((x3 % 0x100) as u8);
    out.push((x4 % 0x100) as u8);
    out.push((x5 % 0x100) as u8);
    out.push((x6 % 0x100) as u8);
    out.push((x7 % 0x100) as u8);
    proof {
        assert(x7 < 0x100);
        assert(x as int == x % 0x100 + 0x100 * (x1 % 0x100 + 0x100 * (x2 % 0x100 + 0x100 * (x3
            % 0x100 + 0x100 * (x4 % 0x100 + 0x100 * (x5 % 0x100 + 0x100 * (x6 % 0x100 + 0x100 * (
        (x7 % 0x100) as int))))))));
    }
}

/// Read the little-endian 16-bit value at `off`.
pub fn read_u16_le(b: &[u8], off: usize) -> (r: u16)
    requires
        off + 2 <= b@.len(),
    ensures
        r as int == u16_le_at(b@, off as int),
{
    b[off] as u16 + 0x100 * (b[off + 1] as u16)
}

/// Read the little-endian 64-bit value at `off`.
pub fn read_u64_le(b: &[u8], off: usize) -> (r: u64)
    requires
        off + 8 <= b@.len(),
    ensures
        r as int == u64_le_at(b@, off as int),
{
    b[off] as u64 + 0x100 * (b[off + 1] as u64 + 0x100 * (b[off + 2] as u64 + 0x100 * (b[off
        + 3] as u64 + 0x100 * (b[off + 4] as u64 + 0x100 * (b[off + 5] as u64 + 0x100 * (b[off
        + 6] as u64 + 0x100 * (b[off + 7] as u64)))))))
}

/// Encode a datagram into a frame body that parses back to it.
pub fn encode_datagram(d: &Datagram) -> (r: Vec<u8>)
    requires
        d.recipients@.len() <= 0xFFFF,
    ensures
        r@.len() == 12 + 8 * d.recipients@.len() + d.payload@.len(),
        spec_decode(r@) == Some(d@),
{
    let mut out: Vec<u8> = Vec::new();
    push_u16_le(&mut out, d.opcode);
    push_u64_le(&mut out, d.sender);
    push_u16_le(&mut out, d.recipients.len() as u16);
    assert(u16_le_at(out@, 0) == d.opcode as int);
    assert(u64_le_at(out@, 2) == d.sender as int);
    assert(u16_le_at(out@, 10) == d.recipients@.len());
    let n = d.recipients.len();
    let mut i: usize = 0;
    while i < n
        invariant
            n == d.recipients@.len() <= 0xFFFF,
            out@.len() == 12 + 8 * i,
            i <= n,
            u16_le_at(out@, 0) == d.opcode as int,
            u64_le_at(out@, 2) == d.sender as int,
            u16_le_at(out@, 10) == n as int,
            forall|k: int| 0 <= k < i ==> u64_le_at(out@, 12 + 8 * k) == d.recipients@[k] as int,
        decreases n - i,
    {
        push_u64_le(&mut out, d.recipients[i]);
        i += 1;
    }
    let m = d.payload.len();
    let ghost hdr = out@.len() as int;
    let mut j: usize = 0;
    while j < m
        invariant
            m == d.payload@.len(),
            hdr == 12 + 8 * d.recipients@.len(),
            n == d.recipients@.len() <= 0xFFFF,
            out@.len() == hdr + j,
            j <= m,
            u16_le_at(out@, 0) == d.opcode as int,
            u64_le_at(out@, 2) == d.sender as int,
            u16_le_at(out@, 10) == n as int,
            forall|k: int| 0 <= k < n ==> u64_le_at(out@, 12 + 8 * k) == d.recipients@[k] as int,
            forall|k: int| 0 <= k < j ==> out@[hdr + k] == d.payload@[k],
        decreases m - j,
    {
        out.push(d.payload[j]);
        j += 1;
    }
    proof {
        let b = out@;
        assert(b.len() == 12 + 8 * d.recipients@.len() + d.payload@.len());
        assert(u16_le_at(b, 10) == d.recipients@.len());
        let model = spec_decode(b).unwrap();
        assert(model.recipients =~= d.recipients@);
        assert(model.payload =~= d.payload@);
        assert(model == d@);
    }
    out
}

/// Decode a frame body; returns exactly what `spec_decode` names, and
/// `None` exactly where it does.
pub fn decode_datagram(b: &[u8]) -> (r: Option<Datagram>)
    ensures
        match r {
            Some(d) => spec_decode(b@) == Some(d@),
            None => spec_decode(b@) is None,
        },
{
    let len = b.len();
    if len < 12 {
        return None;
    }
    let opcode = read_u16_le(b, 0);
    let sender = read_u64_le(b, 2);
    let cnt = read_u16_le(b, 10) as usize;
    if (len - 12) / 8 < cnt {
        assert(b@.len() < 12 + 8 * u16_le_at(b@, 10));
        return None;
    }
    assert(12 + 8 * cnt <= len);
    let mut recipients: Vec<u64> = Vec::new();
    let mut i: usize = 0;
    while i < cnt
        invariant
            cnt <= 0xFFFF,
            12 + 8 * cnt <= b@.len(),
            i <= cnt,
            recipients@.len() == i,
            forall|k: int| 0 <= k < i ==> recipients@[k] as int == u64_le_at(b@, 12 + 8 * k),
        decreases cnt - i,
    {
        let v = read_u64_le(b, 12 + 8 * i);
        recipients.push(v);
        i += 1;
    }
    let hdr = 12 + 8 * cnt;
    let mut payload: Vec<u8> = Vec::new();
    let mut j: usize = hdr;
    while j < len
        invariant
            hdr == 12 + 8 * cnt <= b@.len(),
            len == b@.len(),
            hdr <= j <= len,
            payload@.len() == j - hdr,
            forall|k: int| 0 <= k < j - hdr ==> payload@[k] == b@[hdr + k],
        decreases len - j,
    {
        payload.push(b[j]);
        j += 1;
    }
    let d = Datagram { opcode, sender, recipients, payload };
    proof {
        let model = spec_decode(b@).unwrap();
        assert(model.recipients =~= d@.recipients);
        assert(model.payload =~= d@.payload);
        assert(model == d@);
    }
    Some(d)
}

} // verus!
