//! The parameters of a transaction: its inputs, its outputs and its time.
//!
//! Parameters are correct by construction: the outputs never carry more
//! native coins than the inputs, so the fee is never negative.
use vstd::prelude::*;

use crate::clock::now_nanos;

verus! {

/// An amount of native coins, in the smallest unit.
#[derive(Debug, Clone, Copy, PartialEq, Eq, Structural, Hash)]
pub struct NeptuneCoins(pub u128);

/// A point in time, in milliseconds since the UNIX epoch.
#[derive(Debug, Clone, Copy, PartialEq, Eq, Structural, Hash)]
pub struct Timestamp(pub u64);

impl Timestamp {
    /// The present time, read from the system clock.
    pub fn now() -> (r: Timestamp) {
        let millis = now_nanos() / 1_000_000;
        if millis > u64::MAX as u128 {
            Timestamp(u64::MAX)
        } else {
            Timestamp(millis as u64)
        }
    }
}

/// The sum of `amounts`.
pub open spec fn total(amounts: Seq<NeptuneCoins>) -> nat
    decreases amounts.len(),
{
    if amounts.len() == 0 {
        0
    } else {
        total(amounts.drop_last()) + amounts.last().0 as nat
    }
}

/// Sums `amounts`, which must not exceed the largest amount.
fn sum_amounts(amounts: &Vec<NeptuneCoins>) -> (r: NeptuneCoins)
    requires
        total(amounts@) <= u128::MAX,
    ensures
        r.0 == total(amounts@),
{
    let mut sum: u128 = 0;
    let mut i: usize = 0;
    while i < amounts.len()
        invariant
            i <= amounts.len(),
            total(amounts@) <= u128::MAX,
            sum == total(amounts@.take(i as int)),
        decreases amounts.len() - i,
    {
        proof {
            assert(amounts@.take(i + 1).drop_last() =~= amounts@.take(i as int));
            lemma_total_prefix(amounts@, i + 1);
        }
        sum = sum + amounts[i].0;
        i = i + 1;
    }
    assert(amounts@.take(amounts@.len() as int) =~= amounts@);
    NeptuneCoins(sum)
}

/// A prefix sums to no more than the whole.
proof fn lemma_total_prefix(amounts: Seq<NeptuneCoins>, k: int)
    requires
        0 <= k <= amounts.len(),
    ensures
        total(amounts.take(k)) <= total(amounts),
    decreases amounts.len() - k,
{
    if k < amounts.len() {
        lemma_total_prefix(amounts, k + 1);
        assert(amounts.take(k + 1).drop_last() =~= amounts.take(k));
    } else {
        assert(amounts.take(k) =~= amounts);
    }
}

/// The inputs of a transaction, by the native coins each one carries.
#[derive(Debug)]
pub struct TxInputList(pub Vec<NeptuneCoins>);

/// The outputs of a transaction, by the native coins each one carries.
#[derive(Debug)]
pub struct TxOutputList(pub Vec<NeptuneCoins>);

impl TxInputList {
    /// The native coins of all inputs together.
    pub fn total_native_coins(&self) -> (r: NeptuneCoins)
        requires
            total(self.0@) <= u128::MAX,
        ensures
            r.0 == total(self.0@),
    {
        sum_amounts(&self.0)
    }
}

impl TxOutputList {
    /// The native coins of all outputs together.
    pub fn total_native_coins(&self) -> (r: NeptuneCoins)
        requires
            total(self.0@) <= u128::MAX,
        ensures
            r.0 == total(self.0@),
    {
        sum_amounts(&self.0)
    }
}

/// Why transaction parameters were refused.
#[derive(Debug, Clone, Copy, PartialEq, Eq, Structural)]
pub enum TxParamsError {
    /// The outputs carry more native coins than the inputs.
    OutputsExceedInputs,
}

/// The parameters of a transaction.
#[derive(Debug)]
pub struct TxParams {
    tx_input_list: TxInputList,
    tx_output_list: TxOutputList,
    timestamp: Timestamp,
}

impl TxParams {
    /// The outputs never carry more than the inputs, and both totals are
    /// amounts.
    #[verifier::type_invariant]
    spec fn balanced(self) -> bool {
        &&& total(self.tx_input_list.0@) <= u128::MAX
        &&& total(self.tx_output_list.0@) <= total(self.tx_input_list.0@)
    }

    /// The native coins of the inputs.
    pub closed spec fn inputs_spec(&self) -> Seq<NeptuneCoins> {
        self.tx_input_list.0@
    }

    /// The native coins of the outputs.
    pub closed spec fn outputs_spec(&self) -> Seq<NeptuneCoins> {
        self.tx_output_list.0@
    }

    /// The time of the transaction.
    pub closed spec fn timestamp_spec(&self) -> Timestamp {
        self.timestamp
    }

    /// Parameters with the present time; see [`Self::new_with_timestamp`].
    pub fn new(tx_inputs: TxInputList, tx_outputs: TxOutputList) -> (r: Result<Self, TxParamsError>)
        requires
            total(tx_inputs.0@) <= u128::MAX,
            total(tx_outputs.0@) <= u128::MAX,
        ensures
            r is Err <==> total(tx_inputs.0@) < total(tx_outputs.0@),
            r matches Err(e) ==> e == TxParamsError::OutputsExceedInputs,
            r matches Ok(p) ==> p.inputs_spec() == tx_inputs.0@ && p.outputs_spec() == tx_outputs.0@,
    {
        Self::new_with_timestamp(tx_inputs, tx_outputs, Timestamp::now())
    }

    /// Parameters of the given inputs, outputs and time; refused when the
    /// outputs carry more native coins than the inputs.
    pub fn new_with_timestamp(tx_input_list: TxInputList, tx_output_list: TxOutputList, timestamp: Timestamp) -> (r: Result<Self, TxParamsError>)
        requires
            total(tx_input_list.0@) <= u128::MAX,
            total(tx_output_list.0@) <= u128::MAX,
        ensures
            r is Err <==> total(tx_input_list.0@) < total(tx_output_list.0@),
            r matches Err(e) ==> e == TxParamsError::OutputsExceedInputs,
            r matches Ok(p) ==> {
                &&& p.inputs_spec() == tx_input_list.0@
                &&& p.outputs_spec() == tx_output_list.0@
                &&& p.timestamp_spec() == timestamp
            },
    {
        if tx_input_list.total_native_coins().0 < tx_output_list.total_native_coins().0 {
            return Err(TxParamsError::OutputsExceedInputs);
        }
        Ok(Self { tx_input_list, tx_output_list, timestamp })
    }

    /// The fee: what the inputs carry beyond the outputs, never negative.
    pub fn fee(&self) -> (r: NeptuneCoins)
        ensures
            r.0 + total(self.outputs_spec()) == total(self.inputs_spec()),
    {
        proof {
            use_type_invariant(self);
        }
        let ins = self.tx_input_list.total_native_coins();
        let outs = self.tx_output_list.total_native_coins();
        NeptuneCoins(ins.0 - outs.0)
    }

    /// The inputs, which carry at least as many native coins as the outputs.
    pub fn tx_input_list(&self) -> (r: &TxInputList)
        ensures
            r.0@ == self.inputs_spec(),
            total(self.outputs_spec()) <= total(r.0@) <= u128::MAX,
    {
        proof {
            use_type_invariant(self);
        }
        &self.tx_input_list
    }

    /// The outputs, which carry no more native coins than the inputs.
    pub fn tx_output_list(&self) -> (r: &TxOutputList)
        ensures
            r.0@ == self.outputs_spec(),
            total(r.0@) <= total(self.inputs_spec()) <= u128::MAX,
    {
        proof {
            use_type_invariant(self);
        }
        &self.tx_output_list
    }

    /// The time of the transaction.
    pub fn timestamp(&self) -> (r: &Timestamp)
        ensures
            *r == self.timestamp_spec(),
    {
        &self.timestamp
    }
}

} // verus!
