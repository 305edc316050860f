//! Plain-value models of the chain data that the stage reads and writes: the
//! transaction variants with their fee fields, the latest block's base fee,
//! and a fee-history sample. Fee values are in wei per unit of gas.

use vstd::prelude::*;

verus! {

/// A reference to a block, as handed along to the inner stage.
#[derive(Clone, Copy, Debug, PartialEq, Eq, Structural)]
pub enum BlockId {
    Number(u64),
    Latest,
}

/// A fee-market transaction: its fee fields are what this stage fills in.
#[derive(Clone, Debug, PartialEq, Eq)]
pub struct Eip1559TransactionRequest {
    pub nonce: Option<u64>,
    pub gas: Option<u128>,
    pub value: Option<u128>,
    pub max_fee_per_gas: Option<u128>,
    pub max_priority_fee_per_gas: Option<u128>,
}

/// A legacy fixed-price transaction: it passes through this stage untouched.
#[derive(Clone, Debug, PartialEq, Eq)]
pub struct TransactionRequest {
    pub nonce: Option<u64>,
    pub gas: Option<u128>,
    pub value: Option<u128>,
    pub gas_price: Option<u128>,
}

/// A transaction of either variant.
#[derive(Clone, Debug, PartialEq, Eq)]
pub enum TypedTransaction {
    Legacy(TransactionRequest),
    Eip1559(Eip1559TransactionRequest),
}

impl TypedTransaction {
    /// Whether this transaction takes part in the fee market.
    pub fn is_fee_market(&self) -> (b: bool)
        ensures
            b == (*self is Eip1559),
    {
        match self {
            TypedTransaction::Eip1559(_) => true,
            TypedTransaction::Legacy(_) => false,
        }
    }

    /// The transaction with both fee fields overwritten; a transaction of
    /// another variant is left as it is.
    pub open spec fn with_fees(self, max_fee: u128, max_priority_fee: u128) -> TypedTransaction {
        match self {
            TypedTransaction::Eip1559(t) => TypedTransaction::Eip1559(
                Eip1559TransactionRequest {
                    nonce: t.nonce,
                    gas: t.gas,
                    value: t.value,
                    max_fee_per_gas: Some(max_fee),
                    max_priority_fee_per_gas: Some(max_priority_fee),
                },
            ),
            TypedTransaction::Legacy(_) => self,
        }
    }

    /// Whether both fee fields are set.
    pub open spec fn fees_set(self) -> bool {
        &&& self matches TypedTransaction::Eip1559(t)
        &&& t.max_fee_per_gas is Some
        &&& t.max_priority_fee_per_gas is Some
    }
}

/// What the stage reads of a block: its number and, where the fee market is
/// active, its base fee.
#[derive(Clone, Copy, Debug, PartialEq, Eq)]
pub struct Block {
    pub number: Option<u64>,
    pub base_fee_per_gas: Option<u128>,
}

/// A fee-history sample: per historical block, the base fee and one reward
/// value for each requested percentile.
#[derive(Clone, Debug, PartialEq, Eq)]
pub struct FeeHistory {
    pub oldest_block: u64,
    pub base_fee_per_gas: Vec<u128>,
    pub reward: Vec<Vec<u128>>,
}

/// The parameters of one fee-history query.
#[derive(Clone, Debug, PartialEq, Eq)]
pub struct FeeHistoryRequest {
    pub block_count: u64,
    pub last_block: BlockId,
    pub reward_percentiles: Vec<u64>,
}

} // verus!
