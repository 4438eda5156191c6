//! The blinded identifier of a withdrawal bundle: a commitment to what the
//! bundle pays out and to the fee it leaves, which does not depend on the
//! treasury output that will fund it.

use vstd::prelude::*;
use crate::error::CommitmentError;
use crate::registry::OP_RETURN;
use crate::transaction::{
    lemma_total_value_monotonic, outputs_view, total_value, Transaction, TransactionView, TxOut,
    TxOutView,
};
use crate::wire::{append_bytes, be_value, lemma_u64_be_bytes_value, u64_be_bytes, u64_to_be};

verus! {

/// The identifier that the host chain gives to a transaction.
pub uninterp spec fn txid_of(tx: TransactionView) -> Seq<u8>;

/// `bitcoin::Transaction::txid`, on the `bitcoin` transaction that has the
/// version, the lock time and the outputs of `tx`. The hash comes back as
/// its 32 raw bytes. That it is the double hash of the transaction's
/// serialisation is not proved here.
#[verifier::external_body]
fn txid(tx: &Transaction) -> (id: [u8; 32])
    requires
        tx.input@.len() == 0,
    ensures
        id@ == txid_of(tx@),
{
    let output = tx.output.iter().map(
        |o| bitcoin::TxOut {
            value: o.value,
            script_pubkey: bitcoin::ScriptBuf::from_bytes(o.script_pubkey.clone()),
        },
    ).collect();
    let lock_time = bitcoin::absolute::LockTime::from_consensus(tx.lock_time);
    let tx = bitcoin::Transaction { version: tx.version, lock_time, input: Vec::new(), output };
    bitcoin::hashes::Hash::to_byte_array(tx.txid())
}

/// The output that commits to a fee: no value, and a script of
/// `OP_RETURN` and the fee as eight big-endian bytes.
pub open spec fn fee_output(fee: u64) -> TxOutView {
    TxOutView { value: 0, script_pubkey: seq![OP_RETURN] + u64_be_bytes(fee) }
}

impl TransactionView {
    /// What the bundle leaves in the treasury: the value of its first
    /// output.
    pub open spec fn treasury_total(self) -> int {
        self.output[0].value as int
    }

    /// What the bundle pays out: the values of all outputs but the first.
    pub open spec fn payout_total(self) -> int {
        total_value(self.output.skip(1))
    }

    /// The fee that the bundle leaves: what was in the treasury before,
    /// less what stays there and what is paid out. It is negative where
    /// the bundle spends more than the treasury held.
    pub open spec fn fee_total(self, previous_treasury_utxo_total: u64) -> int {
        previous_treasury_utxo_total - self.treasury_total() - self.payout_total()
    }

    /// The bundle as it is hashed: without its inputs, and with one more
    /// output that commits to the fee.
    pub open spec fn blinded(self, previous_treasury_utxo_total: u64) -> TransactionView {
        TransactionView {
            version: self.version,
            lock_time: self.lock_time,
            input: Seq::empty(),
            output: self.output.push(
                fee_output(self.fee_total(previous_treasury_utxo_total) as u64),
            ),
        }
    }
}

/// The sum of the values of the outputs after the first, where it fits
/// into a `u64`.
fn payout_total(output: &Vec<TxOut>) -> (total: Option<u64>)
    requires
        output@.len() > 0,
    ensures
        match total {
            Some(p_total) => p_total == total_value(outputs_view(output@).skip(1)),
            None => total_value(outputs_view(output@).skip(1)) > u64::MAX,
        },
{
    let ghost payouts = outputs_view(output@).skip(1);
    let mut p_total: u64 = 0;
    let mut i: usize = 1;
    while i < output.len()
        invariant
            1 <= i <= output@.len(),
            payouts == outputs_view(output@).skip(1),
            p_total == total_value(payouts.take(i - 1)),
        decreases output@.len() - i,
    {
        assert(payouts.take(i as int).drop_last() =~= payouts.take(i - 1));
        match p_total.checked_add(output[i].value) {
            Some(sum) => {
                p_total = sum;
            },
            None => {
                proof {
                    lemma_total_value_monotonic(payouts, i as int);
                }
                return None;
            },
        }
        i += 1;
    }
    assert(payouts.take(i - 1) =~= payouts);
    Some(p_total)
}

/// A copy of `output` with `last` behind it.
fn outputs_with(output: &Vec<TxOut>, last: TxOut) -> (all: Vec<TxOut>)
    ensures
        outputs_view(all@) == outputs_view(output@).push(last@),
{
    let mut all: Vec<TxOut> = Vec::new();
    let mut i: usize = 0;
    while i < output.len()
        invariant
            i <= output@.len(),
            all@.len() == i,
            forall|j: int| 0 <= j < i ==> (#[trigger] all@[j])@ == output@[j]@,
        decreases output@.len() - i,
    {
        let script_pubkey = vstd::slice::slice_to_vec(output[i].script_pubkey.as_slice());
        all.push(TxOut { value: output[i].value, script_pubkey });
        i += 1;
    }
    all.push(last);
    all
}

/// Blinds a withdrawal bundle: drops its inputs and appends the output
/// that commits to its fee. The bundle has its new treasury output first.
/// A bundle that spends more than `previous_treasury_utxo_total` has no
/// fee and is refused.
pub fn m6_blinded(m6: &Transaction, previous_treasury_utxo_total: u64) -> (r: Result<
    Transaction,
    CommitmentError,
>)
    requires
        m6.output@.len() > 0,
    ensures
        match r {
            Ok(blinded) => m6@.fee_total(previous_treasury_utxo_total) >= 0 && blinded@
                == m6@.blinded(previous_treasury_utxo_total),
            Err(e) => m6@.fee_total(previous_treasury_utxo_total) < 0 && e
                == CommitmentError::ArithmeticUnderflow,
        },
{
    let p_total = match payout_total(&m6.output) {
        Some(p_total) => p_total,
        None => { return Err(CommitmentError::ArithmeticUnderflow); },
    };
    let t_n = m6.output[0].value;
    let f_total = match previous_treasury_utxo_total.checked_sub(t_n) {
        Some(rest) => match rest.checked_sub(p_total) {
            Some(f_total) => f_total,
            None => { return Err(CommitmentError::ArithmeticUnderflow); },
        },
        None => { return Err(CommitmentError::ArithmeticUnderflow); },
    };
    let f_total_be_bytes = u64_to_be(f_total);
    let mut script_pubkey: Vec<u8> = Vec::new();
    script_pubkey.push(OP_RETURN);
    append_bytes(&mut script_pubkey, f_total_be_bytes.as_slice());
    let txout = TxOut { value: 0, script_pubkey };
    let output = outputs_with(&m6.output, txout);
    Ok(Transaction { version: m6.version, lock_time: m6.lock_time, input: Vec::new(), output })
}

/// The blinded identifier of a withdrawal bundle: the identifier that the
/// host chain gives to the blinded bundle.
pub fn m6_to_id(m6: &Transaction, previous_treasury_utxo_total: u64) -> (r: Result<
    [u8; 32],
    CommitmentError,
>)
    requires
        m6.output@.len() > 0,
    ensures
        match r {
            Ok(id) => m6@.fee_total(previous_treasury_utxo_total) >= 0 && id@ == txid_of(
                m6@.blinded(previous_treasury_utxo_total),
            ),
            Err(e) => m6@.fee_total(previous_treasury_utxo_total) < 0 && e
                == CommitmentError::ArithmeticUnderflow,
        },
{
    let m6_blinded = m6_blinded(m6, previous_treasury_utxo_total)?;
    Ok(txid(&m6_blinded))
}

/// The blinded bundle, and with it the identifier, is decided by the
/// version, the lock time and the outputs of the bundle and by the
/// previous treasury total: two bundles that agree on these have one
/// identifier, whatever inputs they spend.
pub proof fn lemma_id_ignores_inputs(
    a: TransactionView,
    b: TransactionView,
    previous_treasury_utxo_total: u64,
)
    requires
        a.version == b.version,
        a.lock_time == b.lock_time,
        a.output == b.output,
    ensures
        a.blinded(previous_treasury_utxo_total) == b.blinded(previous_treasury_utxo_total),
        txid_of(a.blinded(previous_treasury_utxo_total)) == txid_of(
            b.blinded(previous_treasury_utxo_total),
        ),
{
}

/// Two bundles that differ in the value of an output are blinded to
/// different transactions: what is hashed differs.
pub proof fn lemma_value_changes_blinded(
    a: TransactionView,
    b: TransactionView,
    previous_treasury_utxo_total: u64,
    i: int,
)
    requires
        0 <= i < a.output.len(),
        i < b.output.len(),
        a.output[i].value != b.output[i].value,
    ensures
        a.blinded(previous_treasury_utxo_total) != b.blinded(previous_treasury_utxo_total),
{
    // Blinding leaves the outputs that were there where they were.
    assert(b.blinded(previous_treasury_utxo_total).output[i] == b.output[i]);
}

/// The last output of a blinded bundle has no value, and its script is
/// `OP_RETURN` and eight bytes that stand, most significant byte first,
/// for the fee. Where the bundle pays nothing out, that is the previous
/// treasury total less the new one.
pub proof fn lemma_fee_commitment(tx: TransactionView, previous_treasury_utxo_total: u64)
    requires
        tx.output.len() > 0,
        0 <= tx.fee_total(previous_treasury_utxo_total),
    ensures
        ({
            let committed = tx.blinded(previous_treasury_utxo_total).output.last();
            &&& tx.blinded(previous_treasury_utxo_total).output.len() == tx.output.len() + 1
            &&& committed.value == 0
            &&& committed.script_pubkey.len() == 9
            &&& committed.script_pubkey[0] == OP_RETURN
            &&& be_value(committed.script_pubkey.skip(1)) == tx.fee_total(
                previous_treasury_utxo_total,
            )
            &&& tx.payout_total() == 0 ==> be_value(committed.script_pubkey.skip(1))
                == previous_treasury_utxo_total - tx.output[0].value
        }),
{
    let fee = tx.fee_total(previous_treasury_utxo_total);
    lemma_total_value_monotonic(tx.output.skip(1), 0);
    lemma_u64_be_bytes_value(fee as u64);
    let committed = tx.blinded(previous_treasury_utxo_total).output.last();
    assert(committed.script_pubkey.skip(1) =~= u64_be_bytes(fee as u64));
}

} // verus!
