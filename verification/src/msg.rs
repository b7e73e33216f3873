//! The requests that the ledger takes and the answers that it gives.

use vstd::prelude::*;
use crate::env::{Addr, Coin, Expiration};

verus! {

/// The request to set up the collection.
#[derive(Debug, Clone, PartialEq, Eq)]
pub struct InstantiateMsg {
    /// Name of the collection
    pub name: String,
    /// Symbol of the collection
    pub symbol: String,
}

/// A command.
#[derive(Debug, Clone, PartialEq, Eq)]
pub enum ExecuteMsg {
    /// Moves a token to another account.
    TransferNft { recipient: String, token_id: u64 },
    /// Moves a token to a contract and tells the contract of it.
    SendNft { contract: String, token_id: u64, msg: Vec<u8> },
    /// Allows `operator` to transfer the token, until `expires` is reached.
    Approve { operator: String, token_id: u64, expires: Option<Expiration> },
    /// Takes back an approval of one token.
    Revoke { operator: String, token_id: u64 },
    /// Allows `operator` to transfer every token of the sender, until `expires` is reached.
    ApproveAll { operator: String, expires: Option<Expiration> },
    /// Takes back a grant made with `ApproveAll`.
    RevokeAll { operator: String },
    /// Issues a new token.
    Mint(MintMsg),
}

/// The right of one account to transfer one token.
#[derive(Debug, PartialEq, Eq)]
pub struct Approval {
    /// Account that can transfer the token
    pub operator: Addr,
    /// When the approval ends
    pub expires: Expiration,
}

/// An approval with its operator as a sequence of characters.
pub struct ApprovalView {
    pub operator: Seq<char>,
    pub expires: Expiration,
}

impl DeepView for Approval {
    type V = ApprovalView;

    open spec fn deep_view(&self) -> ApprovalView {
        ApprovalView { operator: self.operator@, expires: self.expires }
    }
}

impl Clone for Approval {
    fn clone(&self) -> (r: Approval)
        ensures
            r.deep_view() == self.deep_view(),
    {
        Approval { operator: self.operator.clone(), expires: self.expires }
    }
}

/// The request to issue a token.
#[derive(Debug, Clone, PartialEq, Eq)]
pub struct MintMsg {
    /// The owner of the new token
    pub owner: String,
    /// Where the token's metadata is to be found
    pub token_uri: Option<String>,
    /// Price of the token
    pub price: Vec<Coin>,
}

/// A query.
#[derive(Debug, Clone, PartialEq, Eq)]
pub enum QueryMsg {
    /// The price of a token
    AskingPrice { token_id: u64 },
    /// The owner of a token, and who may transfer it
    OwnerOf { token_id: u64, include_expired: Option<bool> },
    /// The approval that `operator` has for a token
    Approval { token_id: u64, operator: String, include_expired: Option<bool> },
    /// All approvals of a token
    Approvals { token_id: u64, include_expired: Option<bool> },
    /// The operators that may transfer every token of `owner`
    AllOperators {
        owner: String,
        include_expired: Option<bool>,
        start_after: Option<String>,
        limit: Option<u32>,
    },
    /// Number of tokens issued so far
    NumTokens {  },
    /// Name and symbol of the collection
    ContractInfo {  },
    /// Metadata of a token
    NftInfo { token_id: u64 },
    /// Both `OwnerOf` and `NftInfo`
    AllNftInfo { token_id: u64, include_expired: Option<bool> },
}

/// The answer to `AskingPrice`.
#[derive(Debug, Clone, PartialEq, Eq)]
pub struct AskingPriceResponse {
    pub price: Vec<Coin>,
}

/// The answer to `OwnerOf`.
#[derive(Debug, Clone, PartialEq, Eq)]
pub struct OwnerOfResponse {
    pub owner: String,
    pub approvals: Vec<Approval>,
}

/// An answer to `OwnerOf` with its texts as sequences of characters.
pub struct OwnerOfView {
    pub owner: Seq<char>,
    pub approvals: Seq<ApprovalView>,
}

impl DeepView for OwnerOfResponse {
    type V = OwnerOfView;

    open spec fn deep_view(&self) -> OwnerOfView {
        OwnerOfView { owner: self.owner@, approvals: self.approvals.deep_view() }
    }
}

/// The answer to `Approval`.
#[derive(Debug, Clone, PartialEq, Eq)]
pub struct ApprovedResponse {
    pub approval: Approval,
}

/// The answer to `Approvals`.
#[derive(Debug, Clone, PartialEq, Eq)]
pub struct ApprovedForAllResponse {
    pub approval: Vec<Approval>,
}

/// The grant that lets one account transfer every token of an owner.
#[derive(Debug, Clone, PartialEq, Eq)]
pub struct OperatorApproval {
    /// Account that can transfer the tokens
    pub spender: String,
    /// When the grant ends
    pub expires: Expiration,
}

impl DeepView for OperatorApproval {
    type V = ApprovalView;

    open spec fn deep_view(&self) -> ApprovalView {
        ApprovalView { operator: self.spender@, expires: self.expires }
    }
}

/// The answer to `AllOperators`.
#[derive(Debug, Clone, PartialEq, Eq)]
pub struct OperatorsResponse {
    pub operators: Vec<OperatorApproval>,
}

/// The answer to `NumTokens`.
#[derive(Debug, Clone, PartialEq, Eq)]
pub struct NumTokensResponse {
    pub tokens: u64,
}

/// The answer to `ContractInfo`.
#[derive(Debug, Clone, PartialEq, Eq)]
pub struct ContractInfoResponse {
    pub name: String,
    pub symbol: String,
}

/// The answer to `NftInfo`.
#[derive(Debug, Clone, PartialEq, Eq)]
pub struct NftInfoResponse {
    pub token_uri: String,
}

/// The answer to `AllNftInfo`.
#[derive(Debug, Clone, PartialEq, Eq)]
pub struct AllNftInfoResponse {
    pub owner: OwnerOfResponse,
    pub info: NftInfoResponse,
}

/// The answer to a query, by the kind of query.
#[derive(Debug, Clone, PartialEq, Eq)]
pub enum QueryResponse {
    AskingPrice(AskingPriceResponse),
    OwnerOf(OwnerOfResponse),
    Approval(ApprovedResponse),
    Approvals(ApprovedForAllResponse),
    AllOperators(OperatorsResponse),
    NumTokens(NumTokensResponse),
    ContractInfo(ContractInfoResponse),
    NftInfo(NftInfoResponse),
    AllNftInfo(AllNftInfoResponse),
}

} // verus!
