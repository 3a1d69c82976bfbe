//! Types of the `sil` RPC namespace: routing capabilities of resources, and the errors of
//! transaction simulation.

use vstd::prelude::*;

verus! {

/// Deletion strategy kind.
#[derive(Clone, Copy, Debug, PartialEq, Eq, Structural)]
pub enum SilCapabilitiesDeleteStrategyKind {
    /// Sliding window deletion.
    Window,
}

/// Deletion strategy for a resource.
#[derive(Clone, Copy, Debug, PartialEq, Eq, Structural)]
pub struct SilCapabilitiesDeleteStrategy {
    /// Strategy type.
    pub strategy_type: SilCapabilitiesDeleteStrategyKind,
    /// Number of blocks retained by the sliding window.
    pub retention_blocks: u64,
}

/// Effective capability for one resource.
#[derive(Clone, Copy, Debug, PartialEq, Eq, Structural)]
pub struct SilCapabilitiesResource {
    /// Whether this resource is unavailable.
    pub disabled: bool,
    /// Oldest block expected to be served correctly.
    pub oldest_block: Option<u64>,
    /// Deletion strategy, if the resource is pruned by a sliding window.
    pub delete_strategy: Option<SilCapabilitiesDeleteStrategy>,
}

impl SilCapabilitiesResource {
    /// An enabled resource available from the given oldest block.
    pub fn available_from(oldest_block: u64) -> (r: SilCapabilitiesResource)
        ensures
            r == (SilCapabilitiesResource {
                disabled: false,
                oldest_block: Some(oldest_block),
                delete_strategy: None,
            }),
    {
        SilCapabilitiesResource { disabled: false, oldest_block: Some(oldest_block), delete_strategy: None }
    }

    /// An enabled resource pruned by a sliding window of `retention_blocks` blocks.
    pub fn window(oldest_block: u64, retention_blocks: u64) -> (r: SilCapabilitiesResource)
        ensures
            r == (SilCapabilitiesResource {
                disabled: false,
                oldest_block: Some(oldest_block),
                delete_strategy: Some(
                    SilCapabilitiesDeleteStrategy {
                        strategy_type: SilCapabilitiesDeleteStrategyKind::Window,
                        retention_blocks,
                    },
                ),
            }),
    {
        SilCapabilitiesResource {
            disabled: false,
            oldest_block: Some(oldest_block),
            delete_strategy: Some(
                SilCapabilitiesDeleteStrategy {
                    strategy_type: SilCapabilitiesDeleteStrategyKind::Window,
                    retention_blocks,
                },
            ),
        }
    }

    /// A disabled resource.
    pub fn disabled() -> (r: SilCapabilitiesResource)
        ensures
            r == (SilCapabilitiesResource { disabled: true, oldest_block: None, delete_strategy: None }),
    {
        SilCapabilitiesResource { disabled: true, oldest_block: None, delete_strategy: None }
    }
}

/// Current head block.
#[derive(Clone, Copy, Debug, PartialEq, Eq)]
pub struct SilCapabilitiesHead {
    /// Head block number.
    pub number: u64,
    /// Head block hash.
    pub hash: [u8; 32],
}

/// Effective routing capabilities of the `sil` namespace.
#[derive(Clone, Copy, Debug, PartialEq, Eq)]
pub struct SilCapabilities {
    /// Current chain head.
    pub head: SilCapabilitiesHead,
    /// Account and storage state availability.
    pub state: SilCapabilitiesResource,
    /// Transaction lookup availability.
    pub tx: SilCapabilitiesResource,
    /// Log query availability.
    pub logs: SilCapabilitiesResource,
    /// Receipt availability.
    pub receipts: SilCapabilitiesResource,
    /// Block header and body availability.
    pub blocks: SilCapabilitiesResource,
    /// State proof availability.
    pub state_proofs: SilCapabilitiesResource,
}

/// Invalid-transaction errors of the RPC layer that simulation distinguishes.
#[derive(Clone, Copy, Debug, PartialEq, Eq)]
pub enum RpcInvalidTransactionError {
    /// The nonce is below the account's nonce.
    NonceTooLow {
        /// The transaction's nonce.
        tx: u64,
        /// The account's nonce.
        state: u64,
    },
    /// The nonce is above the account's nonce.
    NonceTooHigh,
    /// The nonce would overflow.
    NonceMaxValue,
    /// The fee cap is below the base fee.
    FeeCapTooLow,
    /// The gas limit is below the intrinsic gas.
    GasTooLow,
    /// The gas limit is above what is allowed.
    GasTooHigh,
    /// The sender cannot pay.
    InsufficientFunds {
        /// The cost of the transaction.
        cost: [u8; 32],
        /// The sender's balance.
        balance: [u8; 32],
    },
    /// The sender is not an externally owned account.
    SenderNoEOA,
    /// The init code is too large.
    MaxInitCodeSizeExceeded,
    /// Any other invalid transaction.
    Other,
}

/// Core errors of the `sil` API, as far as simulation looks at them.
#[derive(Clone, Copy, Debug, PartialEq, Eq)]
pub enum SilApiError {
    /// The transaction is invalid.
    InvalidTransaction(RpcInvalidTransactionError),
    /// Any other error.
    Other,
}

/// Simulation-specific errors.
#[derive(Clone, Copy, Debug, PartialEq, Eq)]
pub enum SilSimulateError {
    /// The nonce is too low.
    NonceTooLow {
        /// The transaction's nonce.
        tx: u64,
        /// The account's nonce.
        state: u64,
    },
    /// The nonce is too high.
    NonceTooHigh,
    /// The nonce would overflow.
    NonceMaxValue,
    /// The fee cap is below the base fee.
    BaseFeePerGasTooLow,
    /// The gas limit is below the intrinsic gas.
    IntrinsicGasTooLow,
    /// The sender cannot pay.
    InsufficientFunds {
        /// The cost of the transaction.
        cost: [u8; 32],
        /// The sender's balance.
        balance: [u8; 32],
    },
    /// The sender is not an externally owned account.
    SenderNotEOA,
    /// The init code is too large.
    MaxInitCodeSizeExceeded,
}

/// The simulation error an API error maps to, if any.
pub open spec fn simulate_error_of(err: SilApiError) -> Option<SilSimulateError> {
    match err {
        SilApiError::InvalidTransaction(tx_err) => match tx_err {
            RpcInvalidTransactionError::NonceTooLow { tx, state } => Some(
                SilSimulateError::NonceTooLow { tx, state },
            ),
            RpcInvalidTransactionError::NonceTooHigh => Some(SilSimulateError::NonceTooHigh),
            RpcInvalidTransactionError::NonceMaxValue => Some(SilSimulateError::NonceMaxValue),
            RpcInvalidTransactionError::FeeCapTooLow => Some(SilSimulateError::BaseFeePerGasTooLow),
            RpcInvalidTransactionError::GasTooLow => Some(SilSimulateError::IntrinsicGasTooLow),
            RpcInvalidTransactionError::InsufficientFunds { cost, balance } => Some(
                SilSimulateError::InsufficientFunds { cost, balance },
            ),
            RpcInvalidTransactionError::SenderNoEOA => Some(SilSimulateError::SenderNotEOA),
            RpcInvalidTransactionError::MaxInitCodeSizeExceeded => Some(
                SilSimulateError::MaxInitCodeSizeExceeded,
            ),
            _ => None,
        },
        SilApiError::Other => None,
    }
}

impl SilApiError {
    /// Whether the error is an invalid transaction whose gas limit is too high.
    pub fn is_gas_too_high(&self) -> (r: bool)
        ensures
            r == (*self == SilApiError::InvalidTransaction(RpcInvalidTransactionError::GasTooHigh)),
    {
        matches!(self, SilApiError::InvalidTransaction(RpcInvalidTransactionError::GasTooHigh))
    }

    /// Whether the error is an invalid transaction whose gas limit is too low.
    pub fn is_gas_too_low(&self) -> (r: bool)
        ensures
            r == (*self == SilApiError::InvalidTransaction(RpcInvalidTransactionError::GasTooLow)),
    {
        matches!(self, SilApiError::InvalidTransaction(RpcInvalidTransactionError::GasTooLow))
    }
}

/// A simulation error keeps what the invalid transaction reported: an unaffordable transaction
/// gives its cost as the cost and the sender's balance as the balance, a too-low nonce gives the
/// transaction's nonce and the account's nonce in their own places, every other invalid
/// transaction with a simulation counterpart gives that counterpart, and an error that is not an
/// invalid transaction, or one without a counterpart, gives none.
pub proof fn lemma_simulate_error_keeps_fields(err: SilApiError)
    ensures
        err matches SilApiError::InvalidTransaction(
            RpcInvalidTransactionError::InsufficientFunds { cost, balance },
        ) ==> simulate_error_of(err) matches Some(
            SilSimulateError::InsufficientFunds { cost: c, balance: b },
        ) && c == cost && b == balance,
        err matches SilApiError::InvalidTransaction(
            RpcInvalidTransactionError::NonceTooLow { tx, state },
        ) ==> simulate_error_of(err) matches Some(SilSimulateError::NonceTooLow { tx: t, state: s })
            && t == tx && s == state,
        err == SilApiError::InvalidTransaction(RpcInvalidTransactionError::NonceTooHigh)
            ==> simulate_error_of(err) == Some(SilSimulateError::NonceTooHigh),
        err == SilApiError::InvalidTransaction(RpcInvalidTransactionError::NonceMaxValue)
            ==> simulate_error_of(err) == Some(SilSimulateError::NonceMaxValue),
        err == SilApiError::InvalidTransaction(RpcInvalidTransactionError::FeeCapTooLow)
            ==> simulate_error_of(err) == Some(SilSimulateError::BaseFeePerGasTooLow),
        err == SilApiError::InvalidTransaction(RpcInvalidTransactionError::GasTooLow)
            ==> simulate_error_of(err) == Some(SilSimulateError::IntrinsicGasTooLow),
        err == SilApiError::InvalidTransaction(RpcInvalidTransactionError::SenderNoEOA)
            ==> simulate_error_of(err) == Some(SilSimulateError::SenderNotEOA),
        err == SilApiError::InvalidTransaction(RpcInvalidTransactionError::MaxInitCodeSizeExceeded)
            ==> simulate_error_of(err) == Some(SilSimulateError::MaxInitCodeSizeExceeded),
        err is Other ==> simulate_error_of(err) is None,
        err == SilApiError::InvalidTransaction(RpcInvalidTransactionError::GasTooHigh)
            ==> simulate_error_of(err) is None,
        err == SilApiError::InvalidTransaction(RpcInvalidTransactionError::Other)
            ==> simulate_error_of(err) is None,
{
}

/// Access to the core API error that an error type wraps, for error types that extend it.
pub trait AsEthApiError {
    /// The core error that this error wraps, if any.
    spec fn wrapped_err(&self) -> Option<SilApiError>;

    /// Returns the core error that this error wraps, if any.
    fn as_err(&self) -> (r: Option<&SilApiError>)
        ensures
            match self.wrapped_err() {
                Some(e) => r matches Some(x) && *x == e,
                None => r is None,
            },
    ;

    /// Whether the wrapped core error is an invalid transaction whose gas limit is too high.
    fn is_gas_too_high(&self) -> (r: bool)
        ensures
            r == (self.wrapped_err() == Some(
                SilApiError::InvalidTransaction(RpcInvalidTransactionError::GasTooHigh),
            )),
    {
        if let Some(err) = self.as_err() {
            return err.is_gas_too_high();
        }
        false
    }

    /// Whether the wrapped core error is an invalid transaction whose gas limit is too low.
    fn is_gas_too_low(&self) -> (r: bool)
        ensures
            r == (self.wrapped_err() == Some(
                SilApiError::InvalidTransaction(RpcInvalidTransactionError::GasTooLow),
            )),
    {
        if let Some(err) = self.as_err() {
            return err.is_gas_too_low();
        }
        false
    }

    /// The simulation-specific error that the wrapped core error maps to, if it maps to one.
    fn as_simulate_error(&self) -> (r: Option<SilSimulateError>)
        ensures
            r == (match self.wrapped_err() {
                Some(e) => simulate_error_of(e),
                None => None,
            }),
    {
        let err = self.as_err()?;
        match err {
            SilApiError::InvalidTransaction(tx_err) => match tx_err {
                RpcInvalidTransactionError::NonceTooLow { tx, state } => Some(
                    SilSimulateError::NonceTooLow { tx: *tx, state: *state },
                ),
                RpcInvalidTransactionError::NonceTooHigh => Some(SilSimulateError::NonceTooHigh),
                RpcInvalidTransactionError::NonceMaxValue => Some(SilSimulateError::NonceMaxValue),
                RpcInvalidTransactionError::FeeCapTooLow => Some(
                    SilSimulateError::BaseFeePerGasTooLow,
                ),
                RpcInvalidTransactionError::GasTooLow => Some(SilSimulateError::IntrinsicGasTooLow),
                RpcInvalidTransactionError::InsufficientFunds { cost, balance } => Some(
                    SilSimulateError::InsufficientFunds { cost: *cost, balance: *balance },
                ),
                RpcInvalidTransactionError::SenderNoEOA => Some(SilSimulateError::SenderNotEOA),
                RpcInvalidTransactionError::MaxInitCodeSizeExceeded => Some(
                    SilSimulateError::MaxInitCodeSizeExceeded,
                ),
                _ => None,
            },
            SilApiError::Other => None,
        }
    }
}

impl AsEthApiError for SilApiError {
    open spec fn wrapped_err(&self) -> Option<SilApiError> {
        Some(*self)
    }

    fn as_err(&self) -> (r: Option<&SilApiError>) {
        Some(self)
    }
}

/// The result of executing a call, with the halt reason type of the execution engine.
#[derive(Clone, Debug, PartialEq, Eq)]
pub enum ExecutionOutcome<H> {
    /// The call succeeded with this output.
    Success(Vec<u8>),
    /// The call reverted with this output.
    Revert(Vec<u8>),
    /// The call halted.
    Halt {
        /// Why it halted.
        reason: H,
        /// The gas the transaction used.
        gas_used: u64,
    },
}

/// Why a call that had to succeed did not.
#[derive(Clone, Debug, PartialEq, Eq)]
pub enum ExecutionFailure<H> {
    /// It reverted with this output.
    Revert(Vec<u8>),
    /// It halted.
    Halt {
        /// Why it halted.
        reason: H,
        /// The gas the transaction used.
        gas_used: u64,
    },
}

/// The output of a call that must succeed, or the revert or halt that stopped it.
pub fn ensure_success<H>(result: ExecutionOutcome<H>) -> (r: Result<Vec<u8>, ExecutionFailure<H>>)
    ensures
        match result {
            ExecutionOutcome::Success(out) => r matches Ok(o) && o@ == out@,
            ExecutionOutcome::Revert(out) => r matches Err(ExecutionFailure::Revert(o)) && o@
                == out@,
            ExecutionOutcome::Halt { reason, gas_used } => r matches Err(
                ExecutionFailure::Halt { reason: h, gas_used: g },
            ) && h == reason && g == gas_used,
        },
{
    match result {
        ExecutionOutcome::Success(output) => Ok(output),
        ExecutionOutcome::Revert(output) => Err(ExecutionFailure::Revert(output)),
        ExecutionOutcome::Halt { reason, gas_used } => Err(ExecutionFailure::Halt { reason, gas_used }),
    }
}

} // verus!
