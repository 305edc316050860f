//! A fee-estimation stage for EIP-1559 transaction pipelines.
//!
//! Before a fee-market transaction is submitted, this stage resolves a caller
//! chosen urgency level to a percentile of the network's recent priority-fee
//! distribution, queries the latest base fee and the fee history at that
//! percentile, derives a max fee and a max priority fee, writes both into the
//! transaction, and forwards it to the wrapped inner stage.

use vstd::prelude::*;

pub mod error;
pub mod estimator;
pub mod fees;
pub mod middleware;
pub mod speed;
pub mod types;
