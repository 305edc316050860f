//! The fee-population steps of one preparation call, on plain chain data: the
//! latest-block check, the fee-data check, and the write of the estimated
//! fees into the transaction. On any failure the fee fields are left as they
//! were, never partially set.

use vstd::prelude::*;

use crate::error::ProviderFault;
use crate::estimator::check_fee_data;
use crate::estimator::eip1559_estimate;
use crate::estimator::estimate_of;
use crate::estimator::fee_data_ok;
use crate::estimator::rows_view;
use crate::types::Block;
use crate::types::FeeHistory;
use crate::types::TypedTransaction;

verus! {

/// The base fee of the latest block: absent chain state or an absent
/// base-fee field is a fault.
pub open spec fn spec_base_fee(latest: Option<Block>) -> Result<u128, ProviderFault> {
    match latest {
        Option::None => Result::Err(ProviderFault::LatestBlockNotFound),
        Option::Some(block) => match block.base_fee_per_gas {
            Option::None => Result::Err(ProviderFault::FeeMarketNotActive),
            Option::Some(base_fee) => Result::Ok(base_fee),
        },
    }
}

/// Reads the base fee out of the latest block, if the chain returned one and
/// runs the fee market.
pub fn base_fee_from_latest(latest: &Option<Block>) -> (r: Result<u128, ProviderFault>)
    ensures
        r == spec_base_fee(*latest),
{
    match latest {
        Option::None => Result::Err(ProviderFault::LatestBlockNotFound),
        Option::Some(block) => match block.base_fee_per_gas {
            Option::None => Result::Err(ProviderFault::FeeMarketNotActive),
            Option::Some(base_fee) => Result::Ok(base_fee),
        },
    }
}

/// Writes the estimated fees into a fee-market transaction, overwriting any
/// caller-supplied values. The estimator is fed the base fee and the reward
/// matrix exactly as given, and its max fee is never below its max priority
/// fee.
pub fn apply_fee_estimate(tx: &mut TypedTransaction, base_fee_per_gas: u128, reward: &Vec<
    Vec<u128>,
>)
    requires
        *old(tx) is Eip1559,
        fee_data_ok(base_fee_per_gas, rows_view(*reward)),
    ensures
        ({
            let fees = estimate_of(base_fee_per_gas, rows_view(*reward));
            *final(tx) == old(tx).with_fees(fees.0, fees.1) && fees.0 >= fees.1
        }),
        final(tx).fees_set(),
{
    let fees = eip1559_estimate(base_fee_per_gas, reward);
    match tx {
        TypedTransaction::Eip1559(inner_tx) => {
            inner_tx.max_fee_per_gas = Some(fees.0);
            inner_tx.max_priority_fee_per_gas = Some(fees.1);
        },
        TypedTransaction::Legacy(_) => {},
    }
}

/// One preparation call against a snapshot of the chain state, before the
/// hand-off to the inner stage: the transaction after the call, and its
/// outcome. A transaction outside the fee market passes through untouched
/// and without a look at the chain; otherwise the fees become exactly what
/// the estimator returns for the latest base fee and the reward matrix, and
/// any fault leaves the transaction as it was.
pub open spec fn spec_populate(
    tx: TypedTransaction,
    latest: Option<Block>,
    reward: Seq<Seq<u128>>,
) -> (TypedTransaction, Result<(), ProviderFault>) {
    if !(tx is Eip1559) {
        (tx, Result::Ok(()))
    } else {
        match spec_base_fee(latest) {
            Result::Err(fault) => (tx, Result::Err(fault)),
            Result::Ok(base_fee) => if !fee_data_ok(base_fee, reward) {
                (tx, Result::Err(ProviderFault::InvalidFeeData))
            } else {
                let fees = estimate_of(base_fee, reward);
                (tx.with_fees(fees.0, fees.1), Result::Ok(()))
            },
        }
    }
}

/// Runs the fee-population steps against a snapshot of the chain state:
/// exactly the outcome that `spec_populate` gives.
pub fn populate_fee_fields(
    tx: &mut TypedTransaction,
    latest: &Option<Block>,
    history: &FeeHistory,
) -> (r: Result<(), ProviderFault>)
    ensures
        (*final(tx), r) == spec_populate(*old(tx), *latest, rows_view(history.reward)),
{
    if !tx.is_fee_market() {
        return Result::Ok(());
    }
    let base_fee_per_gas = match base_fee_from_latest(latest) {
        Result::Ok(base_fee) => base_fee,
        Result::Err(fault) => {
            return Result::Err(fault);
        },
    };
    if !check_fee_data(base_fee_per_gas, &history.reward) {
        return Result::Err(ProviderFault::InvalidFeeData);
    }
    apply_fee_estimate(tx, base_fee_per_gas, &history.reward);
    Result::Ok(())
}

/// For a fee-market transaction against a chain whose latest block carries
/// base fee `base_fee` and whose reward samples are usable, the
/// fee-population steps succeed and write exactly what the estimator returns
/// for that base fee and those samples, nothing resampled or altered.
pub proof fn lemma_prepared_fees_exact(
    tx: TypedTransaction,
    latest: Option<Block>,
    reward: Seq<Seq<u128>>,
    base_fee: u128,
)
    requires
        tx is Eip1559,
        spec_base_fee(latest) == Result::<u128, ProviderFault>::Ok(base_fee),
        fee_data_ok(base_fee, reward),
    ensures
        ({
            let (tx_after, r) = spec_populate(tx, latest, reward);
            let fees = estimate_of(base_fee, reward);
            r == Result::<(), ProviderFault>::Ok(()) && tx_after == tx.with_fees(fees.0, fees.1)
        }),
{
}

/// Preparing a transaction is idempotent for a stable chain state: running
/// the fee-population steps a second time, on the already prepared
/// transaction and the same snapshot, changes nothing and ends the same way.
pub proof fn lemma_populate_idempotent(
    tx: TypedTransaction,
    latest: Option<Block>,
    reward: Seq<Seq<u128>>,
)
    ensures
        ({
            let (tx_once, r_once) = spec_populate(tx, latest, reward);
            let (tx_twice, r_twice) = spec_populate(tx_once, latest, reward);
            tx_twice == tx_once && r_twice == r_once
        }),
{
}

/// Fee fields are never partially set: a fault leaves the transaction
/// exactly as it was, and a successful pass over a fee-market transaction
/// sets both fee fields together.
pub proof fn lemma_fees_never_partial(
    tx: TypedTransaction,
    latest: Option<Block>,
    reward: Seq<Seq<u128>>,
)
    ensures
        ({
            let (tx_after, r) = spec_populate(tx, latest, reward);
            &&& (r is Err ==> tx_after == tx)
            &&& (r is Ok && tx is Eip1559 ==> tx_after.fees_set())
        }),
{
}

} // verus!
