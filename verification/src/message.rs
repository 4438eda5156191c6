//! The message model: one value per signalling message, and the
//! mathematical view that the contracts of this library speak of.

use vstd::prelude::*;
use crate::registry::{
    op_drivechain_marker, HASH_LEN, LEADING_BY_50_TAG, M1_PROPOSE_SIDECHAIN_TAG,
    M2_ACK_SIDECHAIN_TAG, M3_PROPOSE_BUNDLE_TAG, M4_ACK_BUNDLES_TAG, M7_BMM_ACCEPT_TAG,
    ONE_BYTE_TAG, REPEAT_PREVIOUS_TAG, TWO_BYTES_TAG,
};

verus! {

/// A vote on the pending withdrawal bundles.
#[derive(Debug, PartialEq, Eq)]
#[allow(inconsistent_fields)]
pub enum M4AckBundles {
    /// Carry the previous block's vote vector forward unchanged.
    RepeatPrevious,
    /// One vote byte per pending bundle, by position.
    OneByte { upvotes: Vec<u8> },
    /// One 16-bit vote per pending bundle, by position.
    TwoBytes { upvotes: Vec<u16> },
    /// The leading bundle already has its majority; no vector is sent.
    LeadingBy50,
}

/// A message carried by one coinbase output.
#[derive(Debug, PartialEq, Eq)]
pub enum CoinbaseMessage {
    M1ProposeSidechain { sidechain_number: u8, data: Vec<u8> },
    M2AckSidechain { sidechain_number: u8, data_hash: [u8; 32] },
    M3ProposeBundle { sidechain_number: u8, bundle_txid: [u8; 32] },
    M4AckBundles(M4AckBundles),
    M7BmmAccept { sidechain_number: u8, sidechain_block_hash: [u8; 32] },
    /// The activation marker: the one message that is no data carrier.
    OpDrivechain { sidechain_number: u8 },
}

/// A blind-merge-mining request. It travels in a transaction of its own,
/// not in the coinbase.
#[derive(Debug, Clone, Copy, PartialEq, Eq)]
pub struct M8BmmRequest {
    pub sidechain_number: u8,
    pub sidechain_block_hash: [u8; 32],
    pub prev_mainchain_block_hash: [u8; 32],
}

/// What an [`M4AckBundles`] holds.
#[allow(inconsistent_fields)]
pub enum M4AckBundlesView {
    RepeatPrevious,
    OneByte { upvotes: Seq<u8> },
    TwoBytes { upvotes: Seq<u16> },
    LeadingBy50,
}

/// What a [`CoinbaseMessage`] holds. A digest is valid when it is 32 bytes
/// long, see [`CoinbaseMessageView::wf`].
pub enum CoinbaseMessageView {
    M1ProposeSidechain { sidechain_number: u8, data: Seq<u8> },
    M2AckSidechain { sidechain_number: u8, data_hash: Seq<u8> },
    M3ProposeBundle { sidechain_number: u8, bundle_txid: Seq<u8> },
    M4AckBundles(M4AckBundlesView),
    M7BmmAccept { sidechain_number: u8, sidechain_block_hash: Seq<u8> },
    OpDrivechain { sidechain_number: u8 },
}

/// What an [`M8BmmRequest`] holds.
pub struct M8BmmRequestView {
    pub sidechain_number: u8,
    pub sidechain_block_hash: Seq<u8>,
    pub prev_mainchain_block_hash: Seq<u8>,
}

impl View for M4AckBundles {
    type V = M4AckBundlesView;

    open spec fn view(&self) -> M4AckBundlesView {
        match self {
            M4AckBundles::RepeatPrevious => M4AckBundlesView::RepeatPrevious,
            M4AckBundles::OneByte { upvotes } => M4AckBundlesView::OneByte { upvotes: upvotes@ },
            M4AckBundles::TwoBytes { upvotes } => M4AckBundlesView::TwoBytes { upvotes: upvotes@ },
            M4AckBundles::LeadingBy50 => M4AckBundlesView::LeadingBy50,
        }
    }
}

impl View for CoinbaseMessage {
    type V = CoinbaseMessageView;

    open spec fn view(&self) -> CoinbaseMessageView {
        match self {
            CoinbaseMessage::M1ProposeSidechain { sidechain_number, data } => {
                CoinbaseMessageView::M1ProposeSidechain {
                    sidechain_number: *sidechain_number,
                    data: data@,
                }
            },
            CoinbaseMessage::M2AckSidechain { sidechain_number, data_hash } => {
                CoinbaseMessageView::M2AckSidechain {
                    sidechain_number: *sidechain_number,
                    data_hash: data_hash@,
                }
            },
            CoinbaseMessage::M3ProposeBundle { sidechain_number, bundle_txid } => {
                CoinbaseMessageView::M3ProposeBundle {
                    sidechain_number: *sidechain_number,
                    bundle_txid: bundle_txid@,
                }
            },
            CoinbaseMessage::M4AckBundles(vote) => CoinbaseMessageView::M4AckBundles(vote@),
            CoinbaseMessage::M7BmmAccept { sidechain_number, sidechain_block_hash } => {
                CoinbaseMessageView::M7BmmAccept {
                    sidechain_number: *sidechain_number,
                    sidechain_block_hash: sidechain_block_hash@,
                }
            },
            CoinbaseMessage::OpDrivechain { sidechain_number } => {
                CoinbaseMessageView::OpDrivechain { sidechain_number: *sidechain_number }
            },
        }
    }
}

impl View for M8BmmRequest {
    type V = M8BmmRequestView;

    open spec fn view(&self) -> M8BmmRequestView {
        M8BmmRequestView {
            sidechain_number: self.sidechain_number,
            sidechain_block_hash: self.sidechain_block_hash@,
            prev_mainchain_block_hash: self.prev_mainchain_block_hash@,
        }
    }
}

impl M4AckBundlesView {
    /// The sub-tag byte of this kind of vote.
    pub open spec fn tag(self) -> u8 {
        match self {
            M4AckBundlesView::RepeatPrevious => REPEAT_PREVIOUS_TAG,
            M4AckBundlesView::OneByte { .. } => ONE_BYTE_TAG,
            M4AckBundlesView::TwoBytes { .. } => TWO_BYTES_TAG,
            M4AckBundlesView::LeadingBy50 => LEADING_BY_50_TAG,
        }
    }
}

impl CoinbaseMessageView {
    /// Every digest is 32 bytes long.
    pub open spec fn wf(self) -> bool {
        match self {
            CoinbaseMessageView::M2AckSidechain { data_hash, .. } => data_hash.len() == HASH_LEN,
            CoinbaseMessageView::M3ProposeBundle { bundle_txid, .. } => bundle_txid.len()
                == HASH_LEN,
            CoinbaseMessageView::M7BmmAccept { sidechain_block_hash, .. } => {
                sidechain_block_hash.len() == HASH_LEN
            },
            _ => true,
        }
    }

    /// The bytes by which this kind of message is recognised: the 4-byte
    /// tag that follows `OP_RETURN`, or the two opcodes of the activation
    /// marker.
    pub open spec fn tag(self) -> Seq<u8> {
        match self {
            CoinbaseMessageView::M1ProposeSidechain { .. } => M1_PROPOSE_SIDECHAIN_TAG@,
            CoinbaseMessageView::M2AckSidechain { .. } => M2_ACK_SIDECHAIN_TAG@,
            CoinbaseMessageView::M3ProposeBundle { .. } => M3_PROPOSE_BUNDLE_TAG@,
            CoinbaseMessageView::M4AckBundles(_) => M4_ACK_BUNDLES_TAG@,
            CoinbaseMessageView::M7BmmAccept { .. } => M7_BMM_ACCEPT_TAG@,
            CoinbaseMessageView::OpDrivechain { .. } => op_drivechain_marker(),
        }
    }
}

impl M8BmmRequestView {
    /// Both digests are 32 bytes long.
    pub open spec fn wf(self) -> bool {
        &&& self.sidechain_block_hash.len() == HASH_LEN
        &&& self.prev_mainchain_block_hash.len() == HASH_LEN
    }
}

/// Every message holds digests of 32 bytes.
pub proof fn lemma_message_wf(message: CoinbaseMessage)
    ensures
        message@.wf(),
{
}

/// Every request holds digests of 32 bytes.
pub proof fn lemma_request_wf(request: M8BmmRequest)
    ensures
        request@.wf(),
{
}

impl M4AckBundles {
    /// The sub-tag byte of this kind of vote.
    pub fn tag(&self) -> (tag: u8)
        ensures
            tag == self@.tag(),
    {
        match self {
            M4AckBundles::RepeatPrevious => REPEAT_PREVIOUS_TAG,
            M4AckBundles::OneByte { .. } => ONE_BYTE_TAG,
            M4AckBundles::TwoBytes { .. } => TWO_BYTES_TAG,
            M4AckBundles::LeadingBy50 => LEADING_BY_50_TAG,
        }
    }
}

} // verus!
