//! The fee-estimation stage: a capability-preserving decorator around an
//! inner transaction-processing stage. It is built once from an urgency
//! level, is immutable thereafter, and overrides one operation: preparing a
//! transaction, where it first fills the fee fields of a fee-market
//! transaction from the chain's recent fee history.

use vstd::prelude::*;

use crate::error::GasFeeMiddlewareError;
use crate::error::ProviderFault;
use crate::estimator::fee_history_past_blocks;
use crate::fees::base_fee_from_latest;
use crate::fees::populate_fee_fields;
use crate::fees::spec_populate;
use crate::speed::percentile_of;
use crate::speed::resolve_percentile;
use crate::speed::speed_from_level;
use crate::speed::speed_of_level;
use crate::speed::GasFeeSpeed;
use crate::types::Block;
use crate::types::BlockId;
use crate::types::FeeHistory;
use crate::types::FeeHistoryRequest;
use crate::types::TypedTransaction;

verus! {

/// The transaction-processing capability that each pipeline stage offers and
/// that this stage wraps: chain-state queries and in-place transaction
/// preparation. Implementations fill a transaction's unset fields and keep
/// its variant.
pub trait Middleware: Sized {
    type Error;

    /// Returns the latest block, or none where the chain has none.
    fn get_latest_block(&self) -> Result<Option<Block>, Self::Error>;

    /// Queries the fee history of a window of blocks ending at `last_block`,
    /// with one reward value per requested percentile per historical block.
    fn fee_history(
        &self,
        block_count: u64,
        last_block: BlockId,
        reward_percentiles: &Vec<u64>,
    ) -> Result<FeeHistory, Self::Error>;

    /// Prepares a transaction for submission, mutating it in place: a stage
    /// fills unset fields, so it keeps the transaction's variant and never
    /// unsets fee fields that are already set.
    fn fill_transaction(&self, tx: &mut TypedTransaction, block: Option<BlockId>) -> (r: Result<
        (),
        Self::Error,
    >)
        ensures
            *final(tx) is Eip1559 <==> *old(tx) is Eip1559,
            old(tx).fees_set() ==> final(tx).fees_set(),
    ;
}

/// The fee-estimation stage: an inner stage it exclusively wraps and
/// delegates to, and one resolved fee percentile.
pub struct GasFeeMiddleware<M> {
    inner: M,
    fee_history_percentile: u64,
}

impl<M> GasFeeMiddleware<M> {
    /// The wrapped inner stage.
    pub closed spec fn spec_inner(&self) -> M {
        self.inner
    }

    /// The percentile of the priority-fee distribution that fee-history
    /// queries ask for.
    pub closed spec fn spec_percentile(&self) -> u64 {
        self.fee_history_percentile
    }

    /// A reference to the wrapped inner stage.
    pub fn inner(&self) -> (r: &M)
        ensures
            *r == self.spec_inner(),
    {
        &self.inner
    }
}

impl<M: Middleware> GasFeeMiddleware<M> {
    /// Builds the stage around an inner stage, resolving the urgency level
    /// to its fee percentile.
    pub fn new(inner: M, speed: GasFeeSpeed) -> (r: Result<
        GasFeeMiddleware<M>,
        GasFeeMiddlewareError<M::Error>,
    >)
        ensures
            r matches Ok(stage) && stage.spec_inner() == inner && stage.spec_percentile()
                == percentile_of(speed),
    {
        let fee_history_percentile = resolve_percentile(&speed);
        Result::Ok(GasFeeMiddleware { inner, fee_history_percentile })
    }

    /// Builds the stage from the numeric rank a wire format hands over; a
    /// rank outside the enumeration fails with an invalid-speed error.
    pub fn new_from_level(inner: M, level: u8) -> (r: Result<
        GasFeeMiddleware<M>,
        GasFeeMiddlewareError<M::Error>,
    >)
        ensures
            level <= 3 ==> (r matches Ok(stage) && stage.spec_inner() == inner
                && stage.spec_percentile() == percentile_of(speed_of_level(level))),
            level > 3 ==> r == Result::<
                GasFeeMiddleware<M>,
                GasFeeMiddlewareError<M::Error>,
            >::Err(GasFeeMiddlewareError::InvalidGasFeeSpeed),
    {
        match speed_from_level(level) {
            Option::Some(speed) => Self::new(inner, speed),
            Option::None => Result::Err(GasFeeMiddlewareError::InvalidGasFeeSpeed),
        }
    }

    /// The fee-history query this stage makes: a fixed window of recent
    /// blocks ending at the latest, and exactly one percentile, the one the
    /// stage resolved at construction.
    pub fn fee_history_request(&self) -> (r: FeeHistoryRequest)
        ensures
            r.block_count == 10,
            r.last_block is Latest,
            r.reward_percentiles@ == seq![self.spec_percentile()],
    {
        let mut reward_percentiles: Vec<u64> = Vec::new();
        reward_percentiles.push(self.fee_history_percentile);
        assert(reward_percentiles@ =~= seq![self.spec_percentile()]);
        FeeHistoryRequest {
            block_count: fee_history_past_blocks(),
            last_block: BlockId::Latest,
            reward_percentiles,
        }
    }

    /// Fills the fee fields of a fee-market transaction from the chain state
    /// read through the inner stage: at most two read-only queries, no
    /// retries, and on any failure the transaction is left as it was. A
    /// transaction outside the fee market is left untouched without a query.
    pub fn populate_gas_fees(&self, tx: &mut TypedTransaction) -> (r: Result<
        (),
        GasFeeMiddlewareError<M::Error>,
    >)
        ensures
            *final(tx) is Eip1559 <==> *old(tx) is Eip1559,
            !(*old(tx) is Eip1559) ==> r is Ok && *final(tx) == *old(tx),
            r is Err ==> *final(tx) == *old(tx),
            r matches Err(e) ==> !(e is InvalidGasFeeSpeed),
            (*old(tx) is Eip1559 && r is Ok) ==> final(tx).fees_set() && exists|
                latest: Option<Block>,
                reward: Seq<Seq<u128>>,
            |
                spec_populate(*old(tx), latest, reward) == (*final(tx), Result::<
                    (),
                    ProviderFault,
                >::Ok(())),
            r matches Err(GasFeeMiddlewareError::ProviderError(fault)) ==> (exists|
                latest: Option<Block>,
                reward: Seq<Seq<u128>>,
            |
                spec_populate(*old(tx), latest, reward) == (*old(tx), Result::<
                    (),
                    ProviderFault,
                >::Err(fault))),
    {
        if !tx.is_fee_market() {
            return Result::Ok(());
        }
        let latest = match self.inner.get_latest_block() {
            Result::Ok(block) => block,
            Result::Err(e) => {
                return Result::Err(GasFeeMiddlewareError::MiddlewareError(e));
            },
        };
        match base_fee_from_latest(&latest) {
            Result::Ok(_) => {},
            Result::Err(fault) => {
                proof {
                    let reward = Seq::<Seq<u128>>::empty();
                    assert(spec_populate(*old(tx), latest, reward) == (*old(tx), Result::<
                        (),
                        ProviderFault,
                    >::Err(fault)));
                }
                return Result::Err(GasFeeMiddlewareError::ProviderError(fault));
            },
        }
        let request = self.fee_history_request();
        let history = match self.inner.fee_history(
            request.block_count,
            request.last_block,
            &request.reward_percentiles,
        ) {
            Result::Ok(history) => history,
            Result::Err(e) => {
                return Result::Err(GasFeeMiddlewareError::MiddlewareError(e));
            },
        };
        match populate_fee_fields(tx, &latest, &history) {
            Result::Ok(()) => Result::Ok(()),
            Result::Err(fault) => Result::Err(GasFeeMiddlewareError::ProviderError(fault)),
        }
    }
}

impl<M: Middleware> Middleware for GasFeeMiddleware<M> {
    type Error = GasFeeMiddlewareError<M::Error>;

    fn get_latest_block(&self) -> (r: Result<Option<Block>, Self::Error>)
        ensures
            r matches Err(e) ==> e is MiddlewareError,
    {
        match self.inner.get_latest_block() {
            Result::Ok(block) => Result::Ok(block),
            Result::Err(e) => Result::Err(GasFeeMiddlewareError::MiddlewareError(e)),
        }
    }

    fn fee_history(
        &self,
        block_count: u64,
        last_block: BlockId,
        reward_percentiles: &Vec<u64>,
    ) -> (r: Result<FeeHistory, Self::Error>)
        ensures
            r matches Err(e) ==> e is MiddlewareError,
    {
        match self.inner.fee_history(block_count, last_block, reward_percentiles) {
            Result::Ok(history) => Result::Ok(history),
            Result::Err(e) => Result::Err(GasFeeMiddlewareError::MiddlewareError(e)),
        }
    }

    /// Prepares a transaction as the inner stage would, after first filling
    /// the fee fields of a fee-market transaction from the chain's recent
    /// fee history. An inner-stage failure is wrapped with the inner error
    /// preserved; fees already written are not rolled back.
    fn fill_transaction(&self, tx: &mut TypedTransaction, block: Option<BlockId>) -> (r: Result<
        (),
        Self::Error,
    >)
        ensures
            (*old(tx) is Eip1559 && r is Ok) ==> final(tx).fees_set(),
            r matches Err(e) ==> !(e is InvalidGasFeeSpeed),
            *old(tx) is Eip1559 ==> (final(tx).fees_set() || *final(tx) == *old(tx)),
            r matches Err(GasFeeMiddlewareError::ProviderError(fault)) ==> (*final(tx) == *old(tx)
                && exists|latest: Option<Block>, reward: Seq<Seq<u128>>|
                spec_populate(*old(tx), latest, reward) == (*old(tx), Result::<
                    (),
                    ProviderFault,
                >::Err(fault))),
    {
        match self.populate_gas_fees(tx) {
            Result::Ok(()) => {},
            Result::Err(e) => {
                return Result::Err(e);
            },
        }
        match self.inner.fill_transaction(tx, block) {
            Result::Ok(()) => Result::Ok(()),
            Result::Err(e) => Result::Err(GasFeeMiddlewareError::MiddlewareError(e)),
        }
    }
}

} // verus!
