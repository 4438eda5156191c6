//! What holds of the encoder and the decoders together.

use vstd::prelude::*;
use crate::decode::{
    parse_coinbase_script_spec, parse_m4_ack_bundles_spec, parse_m8_bmm_request_spec,
};
use crate::error::DecodeError;
use crate::message::{CoinbaseMessageView, M4AckBundlesView, M8BmmRequestView};
use crate::registry::{M8_BMM_REQUEST_TAG, TWO_BYTES_TAG};
use crate::wire::{lemma_votes_bytes_roundtrip, lemma_votes_roundtrip};

verus! {

/// Two registered tags that begin with the same byte are one tag: no tag
/// shares a prefix with another, so the first byte already decides.
pub proof fn lemma_tags_exclusive(a: CoinbaseMessageView, b: CoinbaseMessageView)
    ensures
        a.tag() == b.tag() || a.tag()[0] != b.tag()[0],
        a.tag()[0] != M8_BMM_REQUEST_TAG@[0],
{
}

/// Two votes with the same sub-tag are of the same kind.
pub proof fn lemma_vote_tags_exclusive(a: M4AckBundlesView, b: M4AckBundlesView)
    requires
        a.tag() == b.tag(),
    ensures
        a is RepeatPrevious <==> b is RepeatPrevious,
        a is OneByte <==> b is OneByte,
        a is TwoBytes <==> b is TwoBytes,
        a is LeadingBy50 <==> b is LeadingBy50,
{
}

/// A script opens with the header of one kind of message at most.
pub proof fn lemma_dispatch_unambiguous(
    script: Seq<u8>,
    a: CoinbaseMessageView,
    b: CoinbaseMessageView,
)
    requires
        a.header().is_prefix_of(script),
        b.header().is_prefix_of(script),
    ensures
        a.header() == b.header(),
{
}

/// Decoding the script of a message gives the message back.
pub proof fn lemma_roundtrip(message: CoinbaseMessageView)
    requires
        message.wf(),
    ensures
        parse_coinbase_script_spec(message.encoding()) == Ok::<_, DecodeError>(message),
{
    let body = message.body();
    match message {
        CoinbaseMessageView::OpDrivechain { .. } => {},
        _ => {
            // What is left behind `OP_RETURN` and the tag is the body.
            assert(message.encoding().skip(1).skip(4) =~= body);
        },
    }
    match message {
        CoinbaseMessageView::M1ProposeSidechain { data, .. } => {
            assert(body.skip(1) =~= data);
        },
        CoinbaseMessageView::M2AckSidechain { data_hash, .. } => {
            assert(body.skip(1) =~= data_hash);
        },
        CoinbaseMessageView::M3ProposeBundle { bundle_txid, .. } => {
            assert(body.skip(1) =~= bundle_txid);
        },
        CoinbaseMessageView::M4AckBundles(vote) => {
            assert(body.skip(1) =~= vote.payload());
            if let M4AckBundlesView::TwoBytes { upvotes } = vote {
                lemma_votes_roundtrip(upvotes);
            }
        },
        CoinbaseMessageView::M7BmmAccept { sidechain_block_hash, .. } => {
            assert(body.skip(1) =~= sidechain_block_hash);
        },
        CoinbaseMessageView::OpDrivechain { .. } => {},
    }
}

/// A script that decodes to a message is the script of that message, and
/// no other script decodes to it: the decoder accepts canonical scripts
/// only.
pub proof fn lemma_decoded_is_canonical(script: Seq<u8>)
    ensures
        parse_coinbase_script_spec(script) matches Ok(message) ==> message.wf()
            && message.encoding() == script,
{
    if let Ok(CoinbaseMessageView::M4AckBundles(M4AckBundlesView::TwoBytes { .. })) =
        parse_coinbase_script_spec(script) {
        lemma_votes_bytes_roundtrip(script.skip(1).skip(4).skip(1));
    }
}

/// Cutting bytes off the end of the script of a message of fixed shape,
/// the header left whole, leaves a script that is refused as truncated. It
/// is never read as a shorter message.
pub proof fn lemma_truncation_rejected(message: CoinbaseMessageView, kept: int)
    requires
        message.wf(),
        message.fixed_shape(),
        message.header().len() <= kept < message.encoding().len(),
    ensures
        parse_coinbase_script_spec(message.encoding().take(kept)) matches Err(
            DecodeError::Truncated { .. },
        ),
{
}

/// A vector of two-byte votes of odd length is refused as such.
pub proof fn lemma_odd_vote_vector_rejected(payload: Seq<u8>)
    requires
        payload.len() % 2 == 1,
    ensures
        parse_m4_ack_bundles_spec(seq![TWO_BYTES_TAG] + payload) == Err::<CoinbaseMessageView, _>(
            DecodeError::OddLengthVoteVector,
        ),
{
}

/// Decoding the script of a request gives the request back.
pub proof fn lemma_m8_roundtrip(request: M8BmmRequestView)
    requires
        request.wf(),
    ensures
        parse_m8_bmm_request_spec(request.encoding()) == Ok::<_, DecodeError>(request),
{
    let body = request.encoding().skip(4);
    assert(body.subrange(1, 33) =~= request.sidechain_block_hash);
    assert(body.subrange(33, 65) =~= request.prev_mainchain_block_hash);
}

/// A script that decodes to a request is the script of that request.
pub proof fn lemma_m8_decoded_is_canonical(script: Seq<u8>)
    ensures
        parse_m8_bmm_request_spec(script) matches Ok(request) ==> request.wf()
            && request.encoding() == script,
{
}

/// Cutting bytes off the end of the script of a request, the header left
/// whole, leaves a script that is refused as truncated.
pub proof fn lemma_m8_truncation_rejected(request: M8BmmRequestView, kept: int)
    requires
        request.wf(),
        M8BmmRequestView::header().len() <= kept < request.encoding().len(),
    ensures
        parse_m8_bmm_request_spec(request.encoding().take(kept)) matches Err(
            DecodeError::Truncated { .. },
        ),
{
}

} // verus!
