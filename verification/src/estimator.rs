//! The pluggable numeric estimator, consumed as a black box: it turns the
//! current base fee and historical reward samples into a max fee and a max
//! priority fee. Its result is named, not restated, and the stage feeds it
//! unaltered inputs.

use vstd::prelude::*;

verus! {

/// The largest base fee or reward value fed to the estimator. The estimator
/// surges the base fee by at most a factor of two and adds at most one reward
/// value on top, so results for inputs up to this bound fit the fee fields.
pub const MAX_FEE_COMPONENT: u128 = u128::MAX / 4;

/// The reward matrix of a fee-history sample as a sequence of rows, one row
/// of reward values per historical block.
pub open spec fn rows_view(reward: Vec<Vec<u128>>) -> Seq<Seq<u128>> {
    Seq::new(reward@.len(), |i: int| reward@[i]@)
}

/// Whether every historical block contributes at least one reward value, the
/// first of which is small enough for fee arithmetic. The guard is uniform:
/// rows are required usable for every base fee, although the estimator only
/// reads them once the base fee reaches its internal priority-fee trigger.
pub open spec fn reward_rows_ok(reward: Seq<Seq<u128>>) -> bool {
    forall|i: int|
        0 <= i < reward.len() ==> (#[trigger] reward[i]).len() >= 1
            && reward[i][0] <= MAX_FEE_COMPONENT
}

/// Whether a base fee and a reward matrix may be fed to the estimator.
pub open spec fn fee_data_ok(base_fee_per_gas: u128, reward: Seq<Seq<u128>>) -> bool {
    base_fee_per_gas <= MAX_FEE_COMPONENT && reward_rows_ok(reward)
}

/// What the estimator returns for a base fee and a reward matrix: the max fee
/// and the max priority fee, in that order. The result depends on the
/// arguments alone.
pub uninterp spec fn estimate_of(base_fee_per_gas: u128, reward: Seq<Seq<u128>>) -> (u128, u128);

/// Relies on ethers_core::utils::eip1559_default_estimator: a pure function
/// of the base fee and the reward matrix, whose max fee is never below its
/// max priority fee. The bounds required here keep it from panicking: each
/// reward row must be non-empty, and the results, at most a surged base fee
/// (factor two at most) plus one reward value, must fit the fee fields.
#[verifier::external_body]
pub(crate) fn eip1559_estimate(base_fee_per_gas: u128, reward: &Vec<Vec<u128>>) -> (r: (
    u128,
    u128,
))
    requires
        fee_data_ok(base_fee_per_gas, rows_view(*reward)),
    ensures
        r == estimate_of(base_fee_per_gas, rows_view(*reward)),
        r.0 >= r.1,
{
    let rows: Vec<Vec<ethers_core::types::U256>> = reward
        .iter()
        .map(|row| row.iter().map(|v| ethers_core::types::U256::from(*v)).collect())
        .collect();
    let (max_fee, max_priority) = ethers_core::utils::eip1559_default_estimator(
        ethers_core::types::U256::from(base_fee_per_gas),
        rows,
    );
    (max_fee.as_u128(), max_priority.as_u128())
}

/// Relies on ethers_core::utils::EIP1559_FEE_ESTIMATION_PAST_BLOCKS: the
/// fixed window of recent blocks whose fee history is sampled.
#[verifier::external_body]
pub(crate) fn fee_history_past_blocks() -> (r: u64)
    ensures
        r == 10,
{
    ethers_core::utils::EIP1559_FEE_ESTIMATION_PAST_BLOCKS
}

/// Checks that a base fee and a reward matrix may be fed to the estimator.
pub fn check_fee_data(base_fee_per_gas: u128, reward: &Vec<Vec<u128>>) -> (b: bool)
    ensures
        b == fee_data_ok(base_fee_per_gas, rows_view(*reward)),
{
    if base_fee_per_gas > MAX_FEE_COMPONENT {
        return false;
    }
    let mut i: usize = 0;
    while i < reward.len()
        invariant
            0 <= i <= reward.len(),
            forall|j: int|
                0 <= j < i ==> (#[trigger] rows_view(*reward)[j]).len() >= 1 && rows_view(
                    *reward,
                )[j][0] <= MAX_FEE_COMPONENT,
        decreases reward.len() - i,
    {
        let row = &reward[i];
        assert(rows_view(*reward)[i as int] == reward@[i as int]@);
        if row.len() == 0 || row[0] > MAX_FEE_COMPONENT {
            return false;
        }
        i += 1;
    }
    true
}

} // verus!
