//! The coinbase builder: gathers messages in the order in which they are
//! to be emitted and turns them into the outputs that carry them.

use vstd::prelude::*;
use crate::message::{CoinbaseMessage, CoinbaseMessageView, M4AckBundles};
use crate::transaction::{outputs_view, TxOut, TxOutView};

verus! {

/// The messages of one coinbase, in emission order.
pub struct CoinbaseBuilder {
    messages: Vec<CoinbaseMessage>,
}

impl View for CoinbaseBuilder {
    type V = Seq<CoinbaseMessageView>;

    closed spec fn view(&self) -> Seq<CoinbaseMessageView> {
        self.messages@.map_values(|message: CoinbaseMessage| message@)
    }
}

/// The output that carries `message`: no value, and the script of the
/// message.
pub open spec fn message_output(message: CoinbaseMessageView) -> TxOutView {
    TxOutView { value: 0, script_pubkey: message.encoding() }
}

/// The outputs that carry `messages`, one for each and in their order.
pub open spec fn message_outputs(messages: Seq<CoinbaseMessageView>) -> Seq<TxOutView> {
    messages.map_values(|message: CoinbaseMessageView| message_output(message))
}

impl CoinbaseBuilder {
    /// A builder that holds no message.
    pub fn new() -> (builder: Self)
        ensures
            builder@ == Seq::<CoinbaseMessageView>::empty(),
    {
        CoinbaseBuilder { messages: Vec::new() }
    }

    /// The builder with `message` behind the messages it holds.
    fn with(self, message: CoinbaseMessage) -> (builder: Self)
        ensures
            builder@ == self@.push(message@),
    {
        let mut builder = self;
        builder.messages.push(message);
        builder
    }

    /// The outputs that carry the messages, in the order in which the
    /// messages were added.
    pub fn build(self) -> (outputs: Vec<TxOut>)
        ensures
            outputs_view(outputs@) == message_outputs(self@),
    {
        let mut outputs: Vec<TxOut> = Vec::new();
        let mut i: usize = 0;
        while i < self.messages.len()
            invariant
                i <= self.messages@.len(),
                outputs@.len() == i,
                forall|j: int|
                    0 <= j < i ==> (#[trigger] outputs@[j])@ == message_output(
                        self.messages@[j]@,
                    ),
            decreases self.messages@.len() - i,
        {
            let script_pubkey = self.messages[i].encode();
            outputs.push(TxOut { value: 0, script_pubkey });
            i += 1;
        }
        outputs
    }

    /// Adds the proposal of a sidechain.
    pub fn propose_sidechain(self, sidechain_number: u8, data: &[u8]) -> (builder: Self)
        ensures
            builder@ == self@.push(
                CoinbaseMessageView::M1ProposeSidechain { sidechain_number, data: data@ },
            ),
    {
        let message = CoinbaseMessage::M1ProposeSidechain {
            sidechain_number,
            data: vstd::slice::slice_to_vec(data),
        };
        self.with(message)
    }

    /// Adds the acknowledgement of a proposed sidechain.
    pub fn ack_sidechain(self, sidechain_number: u8, data_hash: &[u8; 32]) -> (builder: Self)
        ensures
            builder@ == self@.push(
                CoinbaseMessageView::M2AckSidechain { sidechain_number, data_hash: data_hash@ },
            ),
    {
        let message = CoinbaseMessage::M2AckSidechain { sidechain_number, data_hash: *data_hash };
        self.with(message)
    }

    /// Adds the proposal of a withdrawal bundle.
    pub fn propose_bundle(self, sidechain_number: u8, bundle_hash: &[u8; 32]) -> (builder: Self)
        ensures
            builder@ == self@.push(
                CoinbaseMessageView::M3ProposeBundle {
                    sidechain_number,
                    bundle_txid: bundle_hash@,
                },
            ),
    {
        let message = CoinbaseMessage::M3ProposeBundle {
            sidechain_number,
            bundle_txid: *bundle_hash,
        };
        self.with(message)
    }

    /// Adds a vote on the pending withdrawal bundles.
    pub fn ack_bundles(self, m4_ack_bundles: M4AckBundles) -> (builder: Self)
        ensures
            builder@ == self@.push(CoinbaseMessageView::M4AckBundles(m4_ack_bundles@)),
    {
        let message = CoinbaseMessage::M4AckBundles(m4_ack_bundles);
        self.with(message)
    }

    /// Adds the acceptance of a blind-merge-mined sidechain block.
    pub fn bmm_accept(self, sidechain_number: u8, bmm_hash: &[u8; 32]) -> (builder: Self)
        ensures
            builder@ == self@.push(
                CoinbaseMessageView::M7BmmAccept {
                    sidechain_number,
                    sidechain_block_hash: bmm_hash@,
                },
            ),
    {
        let message = CoinbaseMessage::M7BmmAccept {
            sidechain_number,
            sidechain_block_hash: *bmm_hash,
        };
        self.with(message)
    }

    /// Adds the activation marker of a sidechain.
    pub fn op_drivechain(self, sidechain_number: u8) -> (builder: Self)
        ensures
            builder@ == self@.push(CoinbaseMessageView::OpDrivechain { sidechain_number }),
    {
        let message = CoinbaseMessage::OpDrivechain { sidechain_number };
        self.with(message)
    }
}

/// Adding a message adds its output behind the outputs of the messages
/// that were there, which stay as they were.
pub proof fn lemma_outputs_follow_messages(
    messages: Seq<CoinbaseMessageView>,
    message: CoinbaseMessageView,
)
    ensures
        message_outputs(messages.push(message)) == message_outputs(messages).push(
            message_output(message),
        ),
{
}

/// A builder that was given the message `a` and then the message `b`
/// yields two outputs: first the one that carries the script of `a`, then
/// the one that carries the script of `b`.
pub proof fn lemma_build_keeps_order(a: CoinbaseMessageView, b: CoinbaseMessageView)
    ensures
        message_outputs(Seq::empty().push(a).push(b)) == seq![
            TxOutView { value: 0, script_pubkey: a.encoding() },
            TxOutView { value: 0, script_pubkey: b.encoding() },
        ],
{
}

} // verus!
