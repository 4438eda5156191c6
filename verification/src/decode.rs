//! The decoder: the message that a script carries, or the reason why it
//! carries none. A script comes from an arbitrary transaction output, so
//! every byte string is a legal input and none makes a decoder panic.

use vstd::prelude::*;
use crate::error::DecodeError;
use crate::message::{
    CoinbaseMessage, CoinbaseMessageView, M4AckBundles, M4AckBundlesView, M8BmmRequest,
    M8BmmRequestView,
};
use crate::reader::{expect_end, expect_tag, lemma_tags_in_a_row, take_byte, take_hash};
use crate::registry::{
    op_drivechain_marker, LEADING_BY_50_TAG, M1_PROPOSE_SIDECHAIN_TAG, M2_ACK_SIDECHAIN_TAG,
    M3_PROPOSE_BUNDLE_TAG, M4_ACK_BUNDLES_TAG, M7_BMM_ACCEPT_TAG, M8_BMM_REQUEST_TAG,
    ONE_BYTE_TAG, OP_DRIVECHAIN, OP_PUSHBYTES_1, OP_RETURN, OP_TRUE, REPEAT_PREVIOUS_TAG,
    TWO_BYTES_TAG,
};
use crate::wire::{decode_votes, votes_from_be_bytes};

verus! {

/// What a decoder returned, with the message taken by its view.
pub open spec fn decoded(r: Result<CoinbaseMessage, DecodeError>) -> Result<
    CoinbaseMessageView,
    DecodeError,
> {
    match r {
        Ok(message) => Ok(message@),
        Err(e) => Err(e),
    }
}

/// What a body of fixed shape holds: a sidechain number and one digest, 33
/// bytes in all.
pub open spec fn numbered_hash_spec(body: Seq<u8>) -> Result<(u8, Seq<u8>), DecodeError> {
    if body.len() < 1 {
        Err(DecodeError::Truncated { expected: 1, got: 0 })
    } else if body.len() < 33 {
        Err(DecodeError::Truncated { expected: 32, got: (body.len() - 1) as usize })
    } else if body.len() > 33 {
        Err(DecodeError::TrailingBytes)
    } else {
        Ok((body[0], body.skip(1)))
    }
}

/// The sidechain proposal in `body`: a sidechain number, then the proposal
/// itself, which is all that is left and may be empty.
pub open spec fn parse_m1_propose_sidechain_spec(body: Seq<u8>) -> Result<
    CoinbaseMessageView,
    DecodeError,
> {
    if body.len() < 1 {
        Err(DecodeError::Truncated { expected: 1, got: 0 })
    } else {
        Ok(CoinbaseMessageView::M1ProposeSidechain { sidechain_number: body[0], data: body.skip(1) })
    }
}

/// The sidechain acknowledgement in `body`.
pub open spec fn parse_m2_ack_sidechain_spec(body: Seq<u8>) -> Result<
    CoinbaseMessageView,
    DecodeError,
> {
    match numbered_hash_spec(body) {
        Ok((sidechain_number, data_hash)) => Ok(
            CoinbaseMessageView::M2AckSidechain { sidechain_number, data_hash },
        ),
        Err(e) => Err(e),
    }
}

/// The bundle proposal in `body`.
pub open spec fn parse_m3_propose_bundle_spec(body: Seq<u8>) -> Result<
    CoinbaseMessageView,
    DecodeError,
> {
    match numbered_hash_spec(body) {
        Ok((sidechain_number, bundle_txid)) => Ok(
            CoinbaseMessageView::M3ProposeBundle { sidechain_number, bundle_txid },
        ),
        Err(e) => Err(e),
    }
}

/// The vote in `body`: a sub-tag, then what that sub-tag calls for. The
/// two kinds without a vector take no further byte, one-byte votes take
/// every byte that is left, two-byte votes take them in pairs.
pub open spec fn parse_m4_ack_bundles_spec(body: Seq<u8>) -> Result<
    CoinbaseMessageView,
    DecodeError,
> {
    if body.len() < 1 {
        Err(DecodeError::Truncated { expected: 1, got: 0 })
    } else {
        let payload = body.skip(1);
        if body[0] == REPEAT_PREVIOUS_TAG {
            if payload.len() == 0 {
                Ok(CoinbaseMessageView::M4AckBundles(M4AckBundlesView::RepeatPrevious))
            } else {
                Err(DecodeError::TrailingBytes)
            }
        } else if body[0] == ONE_BYTE_TAG {
            Ok(CoinbaseMessageView::M4AckBundles(M4AckBundlesView::OneByte { upvotes: payload }))
        } else if body[0] == TWO_BYTES_TAG {
            if payload.len() % 2 == 0 {
                Ok(
                    CoinbaseMessageView::M4AckBundles(
                        M4AckBundlesView::TwoBytes { upvotes: votes_from_be_bytes(payload) },
                    ),
                )
            } else {
                Err(DecodeError::OddLengthVoteVector)
            }
        } else if body[0] == LEADING_BY_50_TAG {
            if payload.len() == 0 {
                Ok(CoinbaseMessageView::M4AckBundles(M4AckBundlesView::LeadingBy50))
            } else {
                Err(DecodeError::TrailingBytes)
            }
        } else {
            Err(DecodeError::UnrecognizedTag)
        }
    }
}

/// The blind-merge-mining acceptance in `body`.
pub open spec fn parse_m7_bmm_accept_spec(body: Seq<u8>) -> Result<
    CoinbaseMessageView,
    DecodeError,
> {
    match numbered_hash_spec(body) {
        Ok((sidechain_number, sidechain_block_hash)) => Ok(
            CoinbaseMessageView::M7BmmAccept { sidechain_number, sidechain_block_hash },
        ),
        Err(e) => Err(e),
    }
}

/// The sidechain number of the activation marker that `script` is: the
/// two marker opcodes, the number, and the always-true opcode, four bytes
/// in all.
pub open spec fn parse_op_drivechain_spec(script: Seq<u8>) -> Result<u8, DecodeError> {
    if !op_drivechain_marker().is_prefix_of(script) {
        Err(DecodeError::UnrecognizedTag)
    } else if script.len() < 4 {
        Err(DecodeError::Truncated { expected: 1, got: 0 })
    } else if script[3] != OP_TRUE {
        Err(DecodeError::UnrecognizedTag)
    } else if script.len() > 4 {
        Err(DecodeError::TrailingBytes)
    } else {
        Ok(script[2])
    }
}

/// The blind-merge-mining request that `script` is: `OP_RETURN`, the
/// request tag, a sidechain number and two digests, 69 bytes in all.
pub open spec fn parse_m8_bmm_request_spec(script: Seq<u8>) -> Result<
    M8BmmRequestView,
    DecodeError,
> {
    if !(seq![OP_RETURN] + M8_BMM_REQUEST_TAG@).is_prefix_of(script) {
        Err(DecodeError::UnrecognizedTag)
    } else {
        let body = script.skip(4);
        if body.len() < 1 {
            Err(DecodeError::Truncated { expected: 1, got: 0 })
        } else if body.len() < 33 {
            Err(DecodeError::Truncated { expected: 32, got: (body.len() - 1) as usize })
        } else if body.len() < 65 {
            Err(DecodeError::Truncated { expected: 32, got: (body.len() - 33) as usize })
        } else if body.len() > 65 {
            Err(DecodeError::TrailingBytes)
        } else {
            Ok(
                M8BmmRequestView {
                    sidechain_number: body[0],
                    sidechain_block_hash: body.subrange(1, 33),
                    prev_mainchain_block_hash: body.subrange(33, 65),
                },
            )
        }
    }
}

/// The coinbase message that `script` is. The activation marker is tried
/// first; every other message opens with `OP_RETURN` and one of the five
/// registered tags, and the tag decides how the rest is read.
pub open spec fn parse_coinbase_script_spec(script: Seq<u8>) -> Result<
    CoinbaseMessageView,
    DecodeError,
> {
    if op_drivechain_marker().is_prefix_of(script) {
        match parse_op_drivechain_spec(script) {
            Ok(sidechain_number) => Ok(CoinbaseMessageView::OpDrivechain { sidechain_number }),
            Err(e) => Err(e),
        }
    } else if !seq![OP_RETURN].is_prefix_of(script) {
        Err(DecodeError::UnrecognizedTag)
    } else {
        let tagged = script.skip(1);
        let body = tagged.skip(4);
        if M1_PROPOSE_SIDECHAIN_TAG@.is_prefix_of(tagged) {
            parse_m1_propose_sidechain_spec(body)
        } else if M2_ACK_SIDECHAIN_TAG@.is_prefix_of(tagged) {
            parse_m2_ack_sidechain_spec(body)
        } else if M3_PROPOSE_BUNDLE_TAG@.is_prefix_of(tagged) {
            parse_m3_propose_bundle_spec(body)
        } else if M4_ACK_BUNDLES_TAG@.is_prefix_of(tagged) {
            parse_m4_ack_bundles_spec(body)
        } else if M7_BMM_ACCEPT_TAG@.is_prefix_of(tagged) {
            parse_m7_bmm_accept_spec(body)
        } else {
            Err(DecodeError::UnrecognizedTag)
        }
    }
}

/// Reads a sidechain number and one digest, and nothing after them.
fn parse_numbered_hash(input: &[u8]) -> (r: Result<(u8, [u8; 32]), DecodeError>)
    ensures
        match r {
            Ok((number, hash)) => numbered_hash_spec(input@) == Ok::<_, DecodeError>(
                (number, hash@),
            ),
            Err(e) => numbered_hash_spec(input@) == Err::<(u8, Seq<u8>), _>(e),
        },
{
    let (sidechain_number, rest) = take_byte(input)?;
    let (hash, end) = take_hash(rest)?;
    expect_end(end)?;
    assert(hash@ =~= input@.skip(1));
    Ok((sidechain_number, hash))
}

/// Reads a sidechain proposal from what follows its tag.
pub fn parse_m1_propose_sidechain(input: &[u8]) -> (r: Result<CoinbaseMessage, DecodeError>)
    ensures
        decoded(r) == parse_m1_propose_sidechain_spec(input@),
{
    let (sidechain_number, input) = take_byte(input)?;
    let data = vstd::slice::slice_to_vec(input);
    Ok(CoinbaseMessage::M1ProposeSidechain { sidechain_number, data })
}

/// Reads a sidechain acknowledgement from what follows its tag.
pub fn parse_m2_ack_sidechain(input: &[u8]) -> (r: Result<CoinbaseMessage, DecodeError>)
    ensures
        decoded(r) == parse_m2_ack_sidechain_spec(input@),
{
    let (sidechain_number, data_hash) = parse_numbered_hash(input)?;
    Ok(CoinbaseMessage::M2AckSidechain { sidechain_number, data_hash })
}

/// Reads a bundle proposal from what follows its tag.
pub fn parse_m3_propose_bundle(input: &[u8]) -> (r: Result<CoinbaseMessage, DecodeError>)
    ensures
        decoded(r) == parse_m3_propose_bundle_spec(input@),
{
    let (sidechain_number, bundle_txid) = parse_numbered_hash(input)?;
    Ok(CoinbaseMessage::M3ProposeBundle { sidechain_number, bundle_txid })
}

/// Reads a vote on the pending bundles from what follows its tag.
pub fn parse_m4_ack_bundles(input: &[u8]) -> (r: Result<CoinbaseMessage, DecodeError>)
    ensures
        decoded(r) == parse_m4_ack_bundles_spec(input@),
{
    let (m4_tag, input) = take_byte(input)?;
    if m4_tag == REPEAT_PREVIOUS_TAG {
        expect_end(input)?;
        Ok(CoinbaseMessage::M4AckBundles(M4AckBundles::RepeatPrevious))
    } else if m4_tag == ONE_BYTE_TAG {
        let upvotes = vstd::slice::slice_to_vec(input);
        Ok(CoinbaseMessage::M4AckBundles(M4AckBundles::OneByte { upvotes }))
    } else if m4_tag == TWO_BYTES_TAG {
        let upvotes = decode_votes(input)?;
        Ok(CoinbaseMessage::M4AckBundles(M4AckBundles::TwoBytes { upvotes }))
    } else if m4_tag == LEADING_BY_50_TAG {
        expect_end(input)?;
        Ok(CoinbaseMessage::M4AckBundles(M4AckBundles::LeadingBy50))
    } else {
        Err(DecodeError::UnrecognizedTag)
    }
}

/// Reads a blind-merge-mining acceptance from what follows its tag.
pub fn parse_m7_bmm_accept(input: &[u8]) -> (r: Result<CoinbaseMessage, DecodeError>)
    ensures
        decoded(r) == parse_m7_bmm_accept_spec(input@),
{
    let (sidechain_number, sidechain_block_hash) = parse_numbered_hash(input)?;
    Ok(CoinbaseMessage::M7BmmAccept { sidechain_number, sidechain_block_hash })
}

/// Reads the sidechain number of an activation marker.
pub fn parse_op_drivechain(input: &[u8]) -> (r: Result<u8, DecodeError>)
    ensures
        r == parse_op_drivechain_spec(input@),
{
    let marker = [OP_DRIVECHAIN, OP_PUSHBYTES_1];
    let rest = expect_tag(input, marker.as_slice())?;
    let (sidechain_number, rest) = take_byte(rest)?;
    let (closing, rest) = take_byte(rest)?;
    if closing != OP_TRUE {
        return Err(DecodeError::UnrecognizedTag);
    }
    expect_end(rest)?;
    Ok(sidechain_number)
}

/// Reads a blind-merge-mining request.
pub fn parse_m8_bmm_request(input: &[u8]) -> (r: Result<M8BmmRequest, DecodeError>)
    ensures
        match r {
            Ok(request) => parse_m8_bmm_request_spec(input@) == Ok::<_, DecodeError>(request@),
            Err(e) => parse_m8_bmm_request_spec(input@) == Err::<M8BmmRequestView, _>(e),
        },
{
    let op_return = [OP_RETURN];
    proof {
        lemma_tags_in_a_row(op_return@, M8_BMM_REQUEST_TAG@, input@);
    }
    let tagged = expect_tag(input, op_return.as_slice())?;
    let body = expect_tag(tagged, M8_BMM_REQUEST_TAG.as_slice())?;
    let (sidechain_number, rest) = take_byte(body)?;
    let (sidechain_block_hash, rest) = take_hash(rest)?;
    let (prev_mainchain_block_hash, rest) = take_hash(rest)?;
    expect_end(rest)?;
    assert(sidechain_block_hash@ =~= body@.subrange(1, 33));
    assert(prev_mainchain_block_hash@ =~= body@.subrange(33, 65));
    Ok(M8BmmRequest { sidechain_number, sidechain_block_hash, prev_mainchain_block_hash })
}

/// Reads the message that a coinbase output script carries.
pub fn parse_coinbase_script(script: &[u8]) -> (r: Result<CoinbaseMessage, DecodeError>)
    ensures
        decoded(r) == parse_coinbase_script_spec(script@),
{
    let marker = [OP_DRIVECHAIN, OP_PUSHBYTES_1];
    let op_return = [OP_RETURN];
    if expect_tag(script, marker.as_slice()).is_ok() {
        let sidechain_number = parse_op_drivechain(script)?;
        return Ok(CoinbaseMessage::OpDrivechain { sidechain_number });
    }
    let tagged = expect_tag(script, op_return.as_slice())?;
    if let Ok(body) = expect_tag(tagged, M1_PROPOSE_SIDECHAIN_TAG.as_slice()) {
        parse_m1_propose_sidechain(body)
    } else if let Ok(body) = expect_tag(tagged, M2_ACK_SIDECHAIN_TAG.as_slice()) {
        parse_m2_ack_sidechain(body)
    } else if let Ok(body) = expect_tag(tagged, M3_PROPOSE_BUNDLE_TAG.as_slice()) {
        parse_m3_propose_bundle(body)
    } else if let Ok(body) = expect_tag(tagged, M4_ACK_BUNDLES_TAG.as_slice()) {
        parse_m4_ack_bundles(body)
    } else if let Ok(body) = expect_tag(tagged, M7_BMM_ACCEPT_TAG.as_slice()) {
        parse_m7_bmm_accept(body)
    } else {
        Err(DecodeError::UnrecognizedTag)
    }
}

} // verus!
