//! The primitives from which the decoders are built. Each one looks at the
//! front of what is left of a script and either hands back a field with
//! the rest, or says why it cannot.

use vstd::prelude::*;
use vstd::slice::slice_subrange;
use crate::error::DecodeError;

verus! {

/// What [`take`] returns on `input`: the first `n` bytes and the rest.
pub open spec fn take_spec(input: Seq<u8>, n: usize) -> Result<(Seq<u8>, Seq<u8>), DecodeError> {
    if input.len() < n {
        Err(DecodeError::Truncated { expected: n, got: input.len() as usize })
    } else {
        Ok((input.take(n as int), input.skip(n as int)))
    }
}

/// What [`expect_tag`] returns on `input`: what follows `tag`.
pub open spec fn expect_tag_spec(input: Seq<u8>, tag: Seq<u8>) -> Result<Seq<u8>, DecodeError> {
    if tag.is_prefix_of(input) {
        Ok(input.skip(tag.len() as int))
    } else {
        Err(DecodeError::UnrecognizedTag)
    }
}

/// What [`expect_end`] returns on `input`.
pub open spec fn expect_end_spec(input: Seq<u8>) -> Result<(), DecodeError> {
    if input.len() == 0 {
        Ok(())
    } else {
        Err(DecodeError::TrailingBytes)
    }
}

/// Two tags stand one behind the other at the front of `input` where their
/// concatenation stands there, and the same bytes follow either way.
pub proof fn lemma_tags_in_a_row(first: Seq<u8>, second: Seq<u8>, input: Seq<u8>)
    ensures
        (first + second).is_prefix_of(input) <==> first.is_prefix_of(input) && second.is_prefix_of(
            input.skip(first.len() as int),
        ),
        first.len() + second.len() <= input.len() ==> input.skip(first.len() as int).skip(
            second.len() as int,
        ) == input.skip((first + second).len() as int),
{
    let both = first + second;
    let rest = input.skip(first.len() as int);
    if both.is_prefix_of(input) {
        assert forall|i: int| 0 <= i < second.len() implies second[i] == rest[i] by {
            assert(both[first.len() + i] == input.subrange(0, both.len() as int)[first.len() + i]);
        }
    }
}

/// Splits a field of `n` bytes off the front of `input`.
pub fn take<'a>(input: &'a [u8], n: usize) -> (r: Result<(&'a [u8], &'a [u8]), DecodeError>)
    ensures
        match r {
            Ok((field, rest)) => take_spec(input@, n) == Ok::<_, DecodeError>((field@, rest@)),
            Err(e) => take_spec(input@, n) == Err::<(Seq<u8>, Seq<u8>), _>(e),
        },
{
    let len = input.len();
    if len < n {
        Err(DecodeError::Truncated { expected: n, got: len })
    } else {
        Ok((slice_subrange(input, 0, n), slice_subrange(input, n, len)))
    }
}

/// Splits one byte off the front of `input`.
pub fn take_byte<'a>(input: &'a [u8]) -> (r: Result<(u8, &'a [u8]), DecodeError>)
    ensures
        match r {
            Ok((byte, rest)) => input@.len() >= 1 && byte == input@[0] && rest@ == input@.skip(1),
            Err(e) => input@.len() == 0 && e == (DecodeError::Truncated { expected: 1, got: 0 }),
        },
{
    let (field, rest) = take(input, 1)?;
    Ok((field[0], rest))
}

/// Splits a 32-byte digest off the front of `input`.
pub fn take_hash<'a>(input: &'a [u8]) -> (r: Result<([u8; 32], &'a [u8]), DecodeError>)
    ensures
        match r {
            Ok((hash, rest)) => take_spec(input@, 32) == Ok::<_, DecodeError>((hash@, rest@)),
            Err(e) => take_spec(input@, 32) == Err::<(Seq<u8>, Seq<u8>), _>(e),
        },
{
    let (field, rest) = take(input, 32)?;
    let mut hash = [0u8; 32];
    let mut i: usize = 0;
    while i < 32
        invariant
            i <= 32,
            field@.len() == 32,
            forall|j: int| 0 <= j < i ==> hash@[j] == field@[j],
        decreases 32 - i,
    {
        hash[i] = field[i];
        i += 1;
    }
    assert(hash@ =~= field@);
    Ok((hash, rest))
}

/// Steps over `tag` where it stands at the front of `input`.
pub fn expect_tag<'a>(input: &'a [u8], tag: &[u8]) -> (r: Result<&'a [u8], DecodeError>)
    ensures
        match r {
            Ok(rest) => expect_tag_spec(input@, tag@) == Ok::<_, DecodeError>(rest@),
            Err(e) => expect_tag_spec(input@, tag@) == Err::<Seq<u8>, _>(e),
        },
{
    let n = tag.len();
    if input.len() < n {
        return Err(DecodeError::UnrecognizedTag);
    }
    let mut i: usize = 0;
    while i < n
        invariant
            n == tag@.len(),
            n <= input@.len(),
            i <= n,
            forall|j: int| 0 <= j < i ==> input@[j] == tag@[j],
        decreases n - i,
    {
        if input[i] != tag[i] {
            return Err(DecodeError::UnrecognizedTag);
        }
        i += 1;
    }
    Ok(slice_subrange(input, n, input.len()))
}

/// Accepts `input` where nothing is left of it.
pub fn expect_end(input: &[u8]) -> (r: Result<(), DecodeError>)
    ensures
        r == expect_end_spec(input@),
{
    if input.len() == 0 {
        Ok(())
    } else {
        Err(DecodeError::TrailingBytes)
    }
}

} // verus!
