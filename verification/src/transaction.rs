//! Transactions as this library reads them: plain values, with the
//! fields that the host chain's transactions have.

use vstd::prelude::*;

verus! {

/// A transaction output.
#[derive(Debug, PartialEq, Eq)]
pub struct TxOut {
    /// The value of the output, in the smallest unit of the chain.
    pub value: u64,
    /// The script that locks the output, as raw bytes.
    pub script_pubkey: Vec<u8>,
}

/// A reference to an output of an earlier transaction.
#[derive(Debug, Clone, Copy, PartialEq, Eq)]
pub struct OutPoint {
    pub txid: [u8; 32],
    pub vout: u32,
}

/// A transaction input.
#[derive(Debug, PartialEq, Eq)]
pub struct TxIn {
    pub previous_output: OutPoint,
    pub script_sig: Vec<u8>,
    pub sequence: u32,
    pub witness: Vec<Vec<u8>>,
}

/// A transaction. The lock time is the number that goes on the wire.
#[derive(Debug, PartialEq, Eq)]
pub struct Transaction {
    pub version: i32,
    pub lock_time: u32,
    pub input: Vec<TxIn>,
    pub output: Vec<TxOut>,
}

/// What a [`TxOut`] holds.
pub struct TxOutView {
    pub value: u64,
    pub script_pubkey: Seq<u8>,
}

/// What a [`Transaction`] holds. The inputs are kept as they are: nothing
/// in this library reads them.
pub struct TransactionView {
    pub version: i32,
    pub lock_time: u32,
    pub input: Seq<TxIn>,
    pub output: Seq<TxOutView>,
}

impl View for TxOut {
    type V = TxOutView;

    open spec fn view(&self) -> TxOutView {
        TxOutView { value: self.value, script_pubkey: self.script_pubkey@ }
    }
}

/// What a list of outputs holds.
pub open spec fn outputs_view(outputs: Seq<TxOut>) -> Seq<TxOutView> {
    outputs.map_values(|output: TxOut| output@)
}

impl View for Transaction {
    type V = TransactionView;

    open spec fn view(&self) -> TransactionView {
        TransactionView {
            version: self.version,
            lock_time: self.lock_time,
            input: self.input@,
            output: outputs_view(self.output@),
        }
    }
}

/// The sum of the values of `outputs`.
pub open spec fn total_value(outputs: Seq<TxOutView>) -> int
    decreases outputs.len(),
{
    if outputs.len() == 0 {
        0
    } else {
        total_value(outputs.drop_last()) + outputs.last().value
    }
}

/// The values of the first outputs of a list sum to no more than those of
/// the whole list.
pub proof fn lemma_total_value_monotonic(outputs: Seq<TxOutView>, n: int)
    requires
        0 <= n <= outputs.len(),
    ensures
        0 <= total_value(outputs.take(n)) <= total_value(outputs),
    decreases outputs.len(),
{
    if n == outputs.len() {
        assert(outputs.take(n) =~= outputs);
        if n > 0 {
            lemma_total_value_monotonic(outputs.drop_last(), n - 1);
        }
    } else {
        lemma_total_value_monotonic(outputs.drop_last(), n);
        assert(outputs.drop_last().take(n) =~= outputs.take(n));
    }
}

} // verus!
