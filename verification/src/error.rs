use vstd::prelude::*;
use cosmwasm_std::StdError;

verus! {

/// The error type of `cosmwasm_std`, carried through unopened.
#[verifier::external_type_specification]
#[verifier::external_body]
pub struct ExStdError(cosmwasm_std::StdError);

/// Why a request was turned down.
///
/// Every rule of the ledger has its own variant; `Std` carries a failure of
/// the store itself.
#[derive(Debug)]
pub enum ContractError {
    /// The store could not read or write a value.
    Std(StdError),
    Unauthorized {},
    /// A deposit brought nothing of the allowed denomination.
    InvalidDepositAmount {},
    /// Funds were attached to a request that moves ledgered balance only.
    NoEmptyFunds {},
    /// A transfer of zero.
    InvalidTransferAmount {},
    /// A withdrawal of zero.
    InvalidWithdrawAmount {},
    /// The receiver of a transfer is no valid address.
    InvalidAddress {},
    /// The sender's balance is lower than the amount to transfer.
    TransferFundsExceedsBalance {},
    /// The sender has never deposited.
    AddressHasNotDeposit {},
    /// The sender's balance is lower than the amount to withdraw.
    WithdrawFundsExceedsBalance {},
    /// A query for an account that has no balance entry.
    NotFound {},
}

} // verus!
