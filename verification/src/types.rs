//! Plain data types of the token mining execution pallet: identifiers, the
//! stored records, the origin of a call, its errors and its events.
use vstd::prelude::*;

verus! {

/// An account of the chain.
pub type AccountId = u64;

/// A block height of the chain.
pub type BlockNumber = u64;

/// An amount of tokens.
pub type Balance = u128;

/// Index of a token mining execution.
pub type ExecutionIndex = u64;

/// Index of a token mining configuration (kept by the configuration pallet).
pub type ConfigurationIndex = u64;

/// A token mining execution: the 128-bit unique id it was created with.
#[derive(Clone, Copy, Debug, PartialEq, Eq)]
pub struct MiningSpeedBoostExecutionTokenMining(pub [u8; 16]);

/// What was recorded when a token mining execution was run: who ran it, and
/// the block at which it started and ended.
#[derive(Clone, Copy, Debug, PartialEq, Eq)]
pub struct MiningSpeedBoostExecutionTokenMiningExecutionResult<U, V, W> {
    pub token_execution_executor_account_id: U,
    pub token_execution_started_block: V,
    pub token_execution_ended_block: W,
}

/// The execution result as the pallet stores it.
pub type ExecutionResult = MiningSpeedBoostExecutionTokenMiningExecutionResult<
    AccountId,
    BlockNumber,
    BlockNumber,
>;

impl Default for MiningSpeedBoostExecutionTokenMiningExecutionResult<
    AccountId,
    BlockNumber,
    BlockNumber,
> {
    fn default() -> (r: Self)
        ensures
            r.token_execution_executor_account_id == 0,
            r.token_execution_started_block == 0,
            r.token_execution_ended_block == 0,
    {
        MiningSpeedBoostExecutionTokenMiningExecutionResult {
            token_execution_executor_account_id: 0,
            token_execution_started_block: 0,
            token_execution_ended_block: 0,
        }
    }
}

/// Who a call comes from.
#[derive(Clone, Copy, Debug, PartialEq, Eq, Structural)]
pub enum Origin {
    /// A call signed by an account.
    Signed(AccountId),
    /// A call made with root privileges.
    Root,
    /// An unsigned call.
    Unsigned,
}

/// Why a call or a check was refused.
#[derive(Clone, Copy, Debug, PartialEq, Eq, Structural)]
pub enum Error {
    /// The call was not signed.
    BadOrigin,
    /// The sender does not own the execution.
    NotExecutionOwner,
    /// No execution is stored under the index.
    ExecutionDoesNotExist,
    /// No execution result is stored under the pair of indices.
    ExecutionResultDoesNotExist,
    /// The configuration has no token config.
    TokenConfigNotFound,
    /// The current block is not past the start block of the lock period.
    BeforeLockStartBlock,
    /// The configuration has no cooldown config.
    CooldownConfigNotFound,
    /// The lock period is not longer than the minimum lock period.
    LockIntervalNotLongerThanMinimum,
    /// The locked amount is not larger than the minimum locked amount.
    LockAmountNotLargerThanMinimum,
    /// No execution result is stored under the pair of indices (as reported
    /// when the pallet checks before writing one).
    NoExecutionResultValue,
    /// The configuration already lists the execution.
    ConfigurationAlreadyContainsExecution,
    /// Every execution index has been handed out.
    ExecutionCountOverflow,
    /// Only the owner of an execution can transfer it.
    OnlyOwnerCanTransfer,
    /// Only the owner of an execution can set its execution result.
    OnlyOwnerCanSetExecutionResult,
    /// Only the owner of the configuration can run its executions.
    OnlyConfigurationOwnerCanExecute,
    /// The configuration's locked amount is not larger than its minimum.
    TokenLockAmountCheckFailed,
    /// No configuration is stored under the index.
    ConfigurationDoesNotExist,
    /// Only the owner of the configuration can assign an execution to it.
    OnlyConfigurationOwnerCanAssign,
    /// No execution is stored under the index being assigned.
    InvalidExecutionId,
}

impl Error {
    /// The text that the pallet reports with the error.
    pub open spec fn text(self) -> Seq<char> {
        match self {
            Error::BadOrigin => "Bad origin"@,
            Error::NotExecutionOwner => "Sender is not owner of MiningSpeedBoostExecutionTokenMining"@,
            Error::ExecutionDoesNotExist => "MiningSpeedBoostExecutionTokenMining does not exist"@,
            Error::ExecutionResultDoesNotExist => "MiningSpeedBoostExecutionTokenMiningExecutionResult does not exist"@,
            Error::TokenConfigNotFound => "Cannot find token_mining_config associated with the execution"@,
            Error::BeforeLockStartBlock => "Execution may not be made until after the start block of the lock period in the configuration"@,
            Error::CooldownConfigNotFound => "Cannot find token_mining_cooldown_config associated with the execution"@,
            Error::LockIntervalNotLongerThanMinimum => "Lock period must be longer than the minimum lock period of the cooldown config. Cannot execute."@,
            Error::LockAmountNotLargerThanMinimum => "Locked amount must be larger than the minimum locked amount of the cooldown config. Cannot execute."@,
            Error::NoExecutionResultValue => "No value for mining_execution_token_mining_execution_result"@,
            Error::ConfigurationAlreadyContainsExecution => "Configuration already contains the given execution id"@,
            Error::ExecutionCountOverflow => "MiningSpeedBoostExecutionTokenMining count overflow"@,
            Error::OnlyOwnerCanTransfer => "Only owner can transfer mining mining_execution_token_mining"@,
            Error::OnlyOwnerCanSetExecutionResult => "Only owner can set mining_execution_token_mining_execution_result"@,
            Error::OnlyConfigurationOwnerCanExecute => "Only the configuration_token_mining owner can execute their associated execution"@,
            Error::TokenLockAmountCheckFailed => "token configuration does not have a token_lock_amount > token_lock_min_amount"@,
            Error::ConfigurationDoesNotExist => "configuration_token_mining does not exist"@,
            Error::OnlyConfigurationOwnerCanAssign => "Only the configuration_token_mining owner can assign itself a execution"@,
            Error::InvalidExecutionId => "Invalid mining_execution_token_mining_id"@,
        }
    }

    /// The text that the pallet reports with the error.
    pub fn message(&self) -> (r: &'static str)
        ensures
            r@ == self.text(),
    {
        match self {
            Error::BadOrigin => "Bad origin",
            Error::NotExecutionOwner => "Sender is not owner of MiningSpeedBoostExecutionTokenMining",
            Error::ExecutionDoesNotExist => "MiningSpeedBoostExecutionTokenMining does not exist",
            Error::ExecutionResultDoesNotExist => "MiningSpeedBoostExecutionTokenMiningExecutionResult does not exist",
            Error::TokenConfigNotFound => "Cannot find token_mining_config associated with the execution",
            Error::BeforeLockStartBlock => "Execution may not be made until after the start block of the lock period in the configuration",
            Error::CooldownConfigNotFound => "Cannot find token_mining_cooldown_config associated with the execution",
            Error::LockIntervalNotLongerThanMinimum => "Lock period must be longer than the minimum lock period of the cooldown config. Cannot execute.",
            Error::LockAmountNotLargerThanMinimum => "Locked amount must be larger than the minimum locked amount of the cooldown config. Cannot execute.",
            Error::NoExecutionResultValue => "No value for mining_execution_token_mining_execution_result",
            Error::ConfigurationAlreadyContainsExecution => "Configuration already contains the given execution id",
            Error::ExecutionCountOverflow => "MiningSpeedBoostExecutionTokenMining count overflow",
            Error::OnlyOwnerCanTransfer => "Only owner can transfer mining mining_execution_token_mining",
            Error::OnlyOwnerCanSetExecutionResult => "Only owner can set mining_execution_token_mining_execution_result",
            Error::OnlyConfigurationOwnerCanExecute => "Only the configuration_token_mining owner can execute their associated execution",
            Error::TokenLockAmountCheckFailed => "token configuration does not have a token_lock_amount > token_lock_min_amount",
            Error::ConfigurationDoesNotExist => "configuration_token_mining does not exist",
            Error::OnlyConfigurationOwnerCanAssign => "Only the configuration_token_mining owner can assign itself a execution",
            Error::InvalidExecutionId => "Invalid mining_execution_token_mining_id",
        }
    }
}

/// An event that a successful call deposits.
#[derive(Clone, Copy, Debug, PartialEq, Eq, Structural)]
pub enum Event {
    /// An execution was created: (owner, execution index).
    Created(AccountId, ExecutionIndex),
    /// An execution was transferred: (from, to, execution index).
    Transferred(AccountId, AccountId, ExecutionIndex),
    /// An execution result was set: (sender, configuration index, execution
    /// index, executor, started block, ended block).
    MiningSpeedBoostExecutionTokenMiningExecutionResultSet(
        AccountId,
        ConfigurationIndex,
        ExecutionIndex,
        AccountId,
        BlockNumber,
        BlockNumber,
    ),
    /// An execution was assigned to a configuration: (owner of the
    /// configuration, execution index, configuration index).
    AssignedTokenMiningExecutionToConfiguration(AccountId, ExecutionIndex, ConfigurationIndex),
}

/// The account that signed a call, or `BadOrigin` where nobody signed it.
pub open spec fn spec_ensure_signed(origin: Origin) -> Result<AccountId, Error> {
    match origin {
        Origin::Signed(who) => Ok(who),
        _ => Err(Error::BadOrigin),
    }
}

/// The account that signed a call; refuses root and unsigned calls.
pub fn ensure_signed(origin: Origin) -> (r: Result<AccountId, Error>)
    ensures
        r == spec_ensure_signed(origin),
{
    match origin {
        Origin::Signed(who) => Ok(who),
        _ => Err(Error::BadOrigin),
    }
}

} // verus!
