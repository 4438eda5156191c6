//! Integers and byte strings on the wire. Every multi-byte integer of the
//! format is big-endian: the most significant byte comes first.

use vstd::prelude::*;
use vstd::slice::slice_subrange;
use byteorder::ByteOrder;
use crate::error::DecodeError;

verus! {

/// The 16-bit number whose big-endian bytes are `hi`, `lo`.
pub open spec fn u16_from_be(hi: u8, lo: u8) -> u16 {
    (hi as int * 256 + lo as int) as u16
}

/// The two big-endian bytes of `v`.
pub open spec fn u16_be_bytes(v: u16) -> Seq<u8> {
    seq![(v / 256) as u8, (v % 256) as u8]
}

/// The number that a byte string stands for when the most significant
/// byte comes first.
pub open spec fn be_value(bytes: Seq<u8>) -> nat
    decreases bytes.len(),
{
    if bytes.len() == 0 {
        0
    } else {
        be_value(bytes.drop_last()) * 256 + bytes.last() as nat
    }
}

/// The eight big-endian bytes of `v`.
pub open spec fn u64_be_bytes(v: u64) -> Seq<u8> {
    seq![
        (v / 0x0100_0000_0000_0000) as u8,
        (v / 0x0001_0000_0000_0000 % 256) as u8,
        (v / 0x0000_0100_0000_0000 % 256) as u8,
        (v / 0x0000_0001_0000_0000 % 256) as u8,
        (v / 0x0000_0000_0100_0000 % 256) as u8,
        (v / 0x0000_0000_0001_0000 % 256) as u8,
        (v / 0x0000_0000_0000_0100 % 256) as u8,
        (v % 256) as u8,
    ]
}

/// A vote vector as bytes: the two big-endian bytes of each vote, in vote
/// order.
pub open spec fn votes_be_bytes(votes: Seq<u16>) -> Seq<u8> {
    Seq::new(
        2 * votes.len(),
        |i: int|
            if i % 2 == 0 {
                (votes[i / 2] / 256) as u8
            } else {
                (votes[i / 2] % 256) as u8
            },
    )
}

/// The vote vector that a byte string of even length stands for: each
/// pair of bytes is one big-endian vote.
pub open spec fn votes_from_be_bytes(bytes: Seq<u8>) -> Seq<u16> {
    Seq::new(bytes.len() / 2, |i: int| u16_from_be(bytes[2 * i], bytes[2 * i + 1]))
}

/// Appending a byte shifts the number by one byte and adds the new one.
pub proof fn lemma_be_value_push(bytes: Seq<u8>, last: u8)
    ensures
        be_value(bytes.push(last)) == be_value(bytes) * 256 + last,
{
    assert(bytes.push(last).drop_last() =~= bytes);
}

/// Eight big-endian bytes stand for the number they were made from.
pub proof fn lemma_u64_be_bytes_value(v: u64)
    ensures
        u64_be_bytes(v).len() == 8,
        be_value(u64_be_bytes(v)) == v,
{
    let b = u64_be_bytes(v);
    let s0 = Seq::<u8>::empty();
    let s1 = s0.push(b[0]);
    let s2 = s1.push(b[1]);
    let s3 = s2.push(b[2]);
    let s4 = s3.push(b[3]);
    let s5 = s4.push(b[4]);
    let s6 = s5.push(b[5]);
    let s7 = s6.push(b[6]);
    let s8 = s7.push(b[7]);
    assert(s8 =~= b);
    lemma_be_value_push(s0, b[0]);
    assert(be_value(s1) == v / 0x0100_0000_0000_0000);
    lemma_be_value_push(s1, b[1]);
    assert(be_value(s2) == v / 0x0001_0000_0000_0000);
    lemma_be_value_push(s2, b[2]);
    assert(be_value(s3) == v / 0x0000_0100_0000_0000);
    lemma_be_value_push(s3, b[3]);
    assert(be_value(s4) == v / 0x0000_0001_0000_0000);
    lemma_be_value_push(s4, b[4]);
    assert(be_value(s5) == v / 0x0000_0000_0100_0000);
    lemma_be_value_push(s5, b[5]);
    assert(be_value(s6) == v / 0x0000_0000_0001_0000);
    lemma_be_value_push(s6, b[6]);
    assert(be_value(s7) == v / 0x0000_0000_0000_0100);
    lemma_be_value_push(s7, b[7]);
}

/// Two big-endian bytes stand for the number they were made from.
pub proof fn lemma_u16_be_bytes_value(v: u16)
    ensures
        u16_be_bytes(v).len() == 2,
        u16_from_be(u16_be_bytes(v)[0], u16_be_bytes(v)[1]) == v,
        be_value(u16_be_bytes(v)) == v,
{
    let b = u16_be_bytes(v);
    assert(be_value(b.drop_last().drop_last()) == 0);
    assert(be_value(b.drop_last()) == v / 256);
}

/// In the bytes of a vote vector, the vote at `i` stands at `2 * i` as its
/// two big-endian bytes.
pub proof fn lemma_vote_bytes_are_big_endian(votes: Seq<u16>, i: int)
    requires
        0 <= i < votes.len(),
    ensures
        votes_be_bytes(votes).subrange(2 * i, 2 * i + 2) == u16_be_bytes(votes[i]),
        be_value(votes_be_bytes(votes).subrange(2 * i, 2 * i + 2)) == votes[i],
{
    assert(votes_be_bytes(votes).subrange(2 * i, 2 * i + 2) =~= u16_be_bytes(votes[i]));
    lemma_u16_be_bytes_value(votes[i]);
}

/// A vote vector read back from its bytes is the vector that was written,
/// whatever the votes are.
pub proof fn lemma_votes_roundtrip(votes: Seq<u16>)
    ensures
        votes_be_bytes(votes).len() == 2 * votes.len(),
        votes_from_be_bytes(votes_be_bytes(votes)) == votes,
{
}

/// The bytes written for the vector that a byte string of even length
/// stands for are that byte string.
pub proof fn lemma_votes_bytes_roundtrip(bytes: Seq<u8>)
    requires
        bytes.len() % 2 == 0,
    ensures
        votes_be_bytes(votes_from_be_bytes(bytes)) == bytes,
{
}

/// `byteorder::BigEndian::read_u16`: the big-endian number in the first
/// two bytes of `buf`. It panics on a shorter buffer, which `requires`
/// leaves out.
#[verifier::external_body]
fn read_u16_be(buf: &[u8]) -> (v: u16)
    requires
        buf@.len() >= 2,
    ensures
        v == u16_from_be(buf@[0], buf@[1]),
{
    byteorder::BigEndian::read_u16(buf)
}

/// The two big-endian bytes of `v`.
pub fn u16_to_be(v: u16) -> (bytes: [u8; 2])
    ensures
        bytes@ == u16_be_bytes(v),
{
    [(v / 256) as u8, (v % 256) as u8]
}

/// The eight big-endian bytes of `v`.
pub fn u64_to_be(v: u64) -> (bytes: [u8; 8])
    ensures
        bytes@ == u64_be_bytes(v),
{
    let bytes = [
        (v / 0x0100_0000_0000_0000) as u8,
        (v / 0x0001_0000_0000_0000 % 256) as u8,
        (v / 0x0000_0100_0000_0000 % 256) as u8,
        (v / 0x0000_0001_0000_0000 % 256) as u8,
        (v / 0x0000_0000_0100_0000 % 256) as u8,
        (v / 0x0000_0000_0001_0000 % 256) as u8,
        (v / 0x0000_0000_0000_0100 % 256) as u8,
        (v % 256) as u8,
    ];
    assert(bytes@ =~= u64_be_bytes(v));
    bytes
}

/// Appends `bytes` to `out`.
pub fn append_bytes(out: &mut Vec<u8>, bytes: &[u8])
    ensures
        final(out)@ == old(out)@ + bytes@,
{
    let mut i: usize = 0;
    while i < bytes.len()
        invariant
            i <= bytes@.len(),
            out@ == old(out)@ + bytes@.take(i as int),
        decreases bytes@.len() - i,
    {
        out.push(bytes[i]);
        i += 1;
        assert(bytes@.take(i as int) =~= bytes@.take(i as int - 1).push(bytes@[i as int - 1]));
    }
    assert(bytes@.take(i as int) =~= bytes@);
}

/// The bytes of a vote vector with two bytes per vote.
pub fn encode_votes(votes: &[u16]) -> (bytes: Vec<u8>)
    ensures
        bytes@ == votes_be_bytes(votes@),
{
    let mut bytes: Vec<u8> = Vec::new();
    let mut i: usize = 0;
    while i < votes.len()
        invariant
            i <= votes@.len(),
            bytes@ == votes_be_bytes(votes@.take(i as int)),
        decreases votes@.len() - i,
    {
        let pair = u16_to_be(votes[i]);
        bytes.push(pair[0]);
        bytes.push(pair[1]);
        i += 1;
    }
    assert(votes@.take(i as int) =~= votes@);
    bytes
}

/// Reads a vote vector with two bytes per vote. A byte string of odd
/// length ends in the middle of a vote and is refused.
pub fn decode_votes(bytes: &[u8]) -> (r: Result<Vec<u16>, DecodeError>)
    ensures
        match r {
            Ok(votes) => bytes@.len() % 2 == 0 && votes@ == votes_from_be_bytes(bytes@),
            Err(e) => bytes@.len() % 2 == 1 && e == DecodeError::OddLengthVoteVector,
        },
{
    if bytes.len() % 2 != 0 {
        return Err(DecodeError::OddLengthVoteVector);
    }
    let mut votes: Vec<u16> = Vec::new();
    let n = bytes.len() / 2;
    let mut i: usize = 0;
    while i < n
        invariant
            n == bytes@.len() / 2,
            bytes@.len() % 2 == 0,
            bytes@.len() <= usize::MAX,
            i <= n,
            votes@.len() == i,
            forall|j: int| 0 <= j < i ==> votes@[j] == u16_from_be(bytes@[2 * j], bytes@[2 * j + 1]),
        decreases n - i,
    {
        let pair = slice_subrange(bytes, 2 * i, 2 * i + 2);
        votes.push(read_u16_be(pair));
        i += 1;
    }
    Ok(votes)
}

} // verus!
