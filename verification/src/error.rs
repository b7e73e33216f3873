//! The errors of the ledger.

use vstd::prelude::*;
use vstd::std_specs::convert::FromSpecImpl;
use cosmwasm_std::StdError;
use crate::env::{Coin, CoinView};

verus! {

/// Why the ledger did not do what it was asked.
#[derive(Debug, PartialEq)]
#[allow(inconsistent_fields)]
pub enum ContractError {
    /// A failure of the host's store or of its address validation, passed on.
    Std(StdError),
    /// The caller lacks the ownership, approval or grant that the command needs.
    Unauthorized,
    /// An approval or grant would be made with an expiration already reached.
    Expired,
    /// The operator already holds this very grant.
    OperatorApproved { operator: String },
    /// There is no approval or grant for this operator.
    ApprovalNotFound { operator: String },
    /// The token id names no token.
    InvalidToken { token_id: u64 },
    /// The amount sent is not the price of the token.
    InvalidAmount { val: Coin, funds: Coin },
    /// A request that the ledger cannot take, with the reason.
    CustomError { val: String },
}

/// An error with its texts as sequences of characters.
#[allow(inconsistent_fields)]
pub enum ErrorView {
    Std(StdError),
    Unauthorized,
    Expired,
    OperatorApproved { operator: Seq<char> },
    ApprovalNotFound { operator: Seq<char> },
    InvalidToken { token_id: u64 },
    InvalidAmount { val: CoinView, funds: CoinView },
    CustomError { val: Seq<char> },
}

impl DeepView for ContractError {
    type V = ErrorView;

    open spec fn deep_view(&self) -> ErrorView {
        match self {
            ContractError::Std(err) => ErrorView::Std(*err),
            ContractError::Unauthorized => ErrorView::Unauthorized,
            ContractError::Expired => ErrorView::Expired,
            ContractError::OperatorApproved { operator } => ErrorView::OperatorApproved {
                operator: operator@,
            },
            ContractError::ApprovalNotFound { operator } => ErrorView::ApprovalNotFound {
                operator: operator@,
            },
            ContractError::InvalidToken { token_id } => ErrorView::InvalidToken {
                token_id: *token_id,
            },
            ContractError::InvalidAmount { val, funds } => ErrorView::InvalidAmount {
                val: val.deep_view(),
                funds: funds.deep_view(),
            },
            ContractError::CustomError { val } => ErrorView::CustomError { val: val@ },
        }
    }
}

impl From<StdError> for ContractError {
    fn from(err: StdError) -> (r: ContractError) {
        ContractError::Std(err)
    }
}

impl FromSpecImpl<StdError> for ContractError {
    open spec fn obeys_from_spec() -> bool {
        true
    }

    open spec fn from_spec(err: StdError) -> ContractError {
        ContractError::Std(err)
    }
}

} // verus!
