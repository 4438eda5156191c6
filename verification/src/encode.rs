//! The encoder: the script that carries a message, byte for byte.

use vstd::prelude::*;
use vstd::slice::slice_to_vec;
use crate::message::{
    CoinbaseMessage, CoinbaseMessageView, M4AckBundles, M4AckBundlesView, M8BmmRequest,
    M8BmmRequestView,
};
use crate::registry::{
    op_drivechain_marker, M1_PROPOSE_SIDECHAIN_TAG, M2_ACK_SIDECHAIN_TAG, M3_PROPOSE_BUNDLE_TAG,
    M4_ACK_BUNDLES_TAG, M7_BMM_ACCEPT_TAG, M8_BMM_REQUEST_TAG, OP_DRIVECHAIN, OP_PUSHBYTES_1,
    OP_RETURN, OP_TRUE,
};
use crate::wire::{append_bytes, encode_votes, votes_be_bytes};

verus! {

impl M4AckBundlesView {
    /// The bytes that follow the sub-tag: the vote vector, or nothing.
    pub open spec fn payload(self) -> Seq<u8> {
        match self {
            M4AckBundlesView::RepeatPrevious => Seq::empty(),
            M4AckBundlesView::OneByte { upvotes } => upvotes,
            M4AckBundlesView::TwoBytes { upvotes } => votes_be_bytes(upvotes),
            M4AckBundlesView::LeadingBy50 => Seq::empty(),
        }
    }
}

impl CoinbaseMessageView {
    /// The bytes that follow the tag.
    pub open spec fn body(self) -> Seq<u8> {
        match self {
            CoinbaseMessageView::M1ProposeSidechain { sidechain_number, data } => seq![
                sidechain_number,
            ] + data,
            CoinbaseMessageView::M2AckSidechain { sidechain_number, data_hash } => seq![
                sidechain_number,
            ] + data_hash,
            CoinbaseMessageView::M3ProposeBundle { sidechain_number, bundle_txid } => seq![
                sidechain_number,
            ] + bundle_txid,
            CoinbaseMessageView::M4AckBundles(vote) => seq![vote.tag()] + vote.payload(),
            CoinbaseMessageView::M7BmmAccept { sidechain_number, sidechain_block_hash } => seq![
                sidechain_number,
            ] + sidechain_block_hash,
            CoinbaseMessageView::OpDrivechain { sidechain_number } => seq![
                sidechain_number,
                OP_TRUE,
            ],
        }
    }

    /// The fixed bytes at the front of the script: `OP_RETURN` and the tag,
    /// or the two opcodes of the activation marker alone.
    pub open spec fn header(self) -> Seq<u8> {
        match self {
            CoinbaseMessageView::OpDrivechain { .. } => self.tag(),
            _ => seq![OP_RETURN] + self.tag(),
        }
    }

    /// The script that carries this message: the header, then the body.
    pub open spec fn encoding(self) -> Seq<u8> {
        self.header() + self.body()
    }

    /// The messages whose script has one length only: every kind but the
    /// sidechain proposal and the two vote vectors.
    pub open spec fn fixed_shape(self) -> bool {
        match self {
            CoinbaseMessageView::M1ProposeSidechain { .. } => false,
            CoinbaseMessageView::M4AckBundles(M4AckBundlesView::OneByte { .. }) => false,
            CoinbaseMessageView::M4AckBundles(M4AckBundlesView::TwoBytes { .. }) => false,
            _ => true,
        }
    }
}

impl M8BmmRequestView {
    /// The fixed bytes at the front of the script: `OP_RETURN` and the tag.
    pub open spec fn header() -> Seq<u8> {
        seq![OP_RETURN] + M8_BMM_REQUEST_TAG@
    }

    /// The script that carries this request: the header, the sidechain
    /// number and the two digests.
    pub open spec fn encoding(self) -> Seq<u8> {
        Self::header() + seq![self.sidechain_number] + self.sidechain_block_hash
            + self.prev_mainchain_block_hash
    }
}

/// The front of a tagged script: `OP_RETURN`, `tag`, and the byte `first`.
fn tagged(tag: &[u8], first: u8) -> (script: Vec<u8>)
    ensures
        script@ == seq![OP_RETURN] + tag@ + seq![first],
{
    let mut script: Vec<u8> = Vec::new();
    script.push(OP_RETURN);
    append_bytes(&mut script, tag);
    script.push(first);
    script
}

impl CoinbaseMessage {
    /// The bytes by which this kind of message is recognised.
    pub fn tag(&self) -> (tag: Vec<u8>)
        ensures
            tag@ == self@.tag(),
    {
        match self {
            CoinbaseMessage::M1ProposeSidechain { .. } => slice_to_vec(
                M1_PROPOSE_SIDECHAIN_TAG.as_slice(),
            ),
            CoinbaseMessage::M2AckSidechain { .. } => slice_to_vec(M2_ACK_SIDECHAIN_TAG.as_slice()),
            CoinbaseMessage::M3ProposeBundle { .. } => slice_to_vec(
                M3_PROPOSE_BUNDLE_TAG.as_slice(),
            ),
            CoinbaseMessage::M4AckBundles(_) => slice_to_vec(M4_ACK_BUNDLES_TAG.as_slice()),
            CoinbaseMessage::M7BmmAccept { .. } => slice_to_vec(M7_BMM_ACCEPT_TAG.as_slice()),
            CoinbaseMessage::OpDrivechain { .. } => {
                let marker = [OP_DRIVECHAIN, OP_PUSHBYTES_1];
                slice_to_vec(marker.as_slice())
            },
        }
    }

    /// The script that carries this message, which is consumed.
    pub fn into(self) -> (script: Vec<u8>)
        ensures
            script@ == self@.encoding(),
    {
        self.encode()
    }

    /// The script that carries this message.
    pub fn encode(&self) -> (script: Vec<u8>)
        ensures
            script@ == self@.encoding(),
    {
        match self {
            CoinbaseMessage::M1ProposeSidechain { sidechain_number, data } => {
                let mut script = tagged(M1_PROPOSE_SIDECHAIN_TAG.as_slice(), *sidechain_number);
                append_bytes(&mut script, data.as_slice());
                script
            },
            CoinbaseMessage::M2AckSidechain { sidechain_number, data_hash } => {
                let mut script = tagged(M2_ACK_SIDECHAIN_TAG.as_slice(), *sidechain_number);
                append_bytes(&mut script, data_hash.as_slice());
                script
            },
            CoinbaseMessage::M3ProposeBundle { sidechain_number, bundle_txid } => {
                let mut script = tagged(M3_PROPOSE_BUNDLE_TAG.as_slice(), *sidechain_number);
                append_bytes(&mut script, bundle_txid.as_slice());
                script
            },
            CoinbaseMessage::M4AckBundles(m4_ack_bundles) => {
                let mut script = tagged(M4_ACK_BUNDLES_TAG.as_slice(), m4_ack_bundles.tag());
                match m4_ack_bundles {
                    M4AckBundles::OneByte { upvotes } => {
                        append_bytes(&mut script, upvotes.as_slice());
                    },
                    M4AckBundles::TwoBytes { upvotes } => {
                        let payload = encode_votes(upvotes.as_slice());
                        append_bytes(&mut script, payload.as_slice());
                    },
                    _ => {},
                }
                script
            },
            CoinbaseMessage::M7BmmAccept { sidechain_number, sidechain_block_hash } => {
                let mut script = tagged(M7_BMM_ACCEPT_TAG.as_slice(), *sidechain_number);
                append_bytes(&mut script, sidechain_block_hash.as_slice());
                script
            },
            CoinbaseMessage::OpDrivechain { sidechain_number } => {
                let mut script: Vec<u8> = Vec::new();
                script.push(OP_DRIVECHAIN);
                script.push(OP_PUSHBYTES_1);
                script.push(*sidechain_number);
                script.push(OP_TRUE);
                script
            },
        }
    }
}

impl M8BmmRequest {
    /// The script that carries this request.
    pub fn encode(&self) -> (script: Vec<u8>)
        ensures
            script@ == self@.encoding(),
    {
        let mut script = tagged(M8_BMM_REQUEST_TAG.as_slice(), self.sidechain_number);
        append_bytes(&mut script, self.sidechain_block_hash.as_slice());
        append_bytes(&mut script, self.prev_mainchain_block_hash.as_slice());
        script
    }
}

} // verus!
