//! The plain values that go in and out of the contract's endpoints.

use crate::amount::Amount;
use vstd::prelude::*;

verus! {

/// Why an endpoint refused a call.
#[derive(Clone, Copy, Debug, PartialEq, Eq, Structural)]
pub enum ContractError {
    /// The collection has already been issued.
    AlreadyInitialized,
    /// The collection has not been issued yet.
    NotInitialized,
    /// No edition with the given id has been minted.
    UnknownEdition,
    /// Fewer than one token was asked for.
    QuantityTooLow,
    /// More tokens were asked for than one purchase may hold.
    QuantityExceedsCap,
    /// The payment per token is not the edition's price.
    PaymentMismatch,
    /// Royalties above 100%.
    RoyaltyOutOfRange,
    /// A selling price below zero.
    NegativePrice,
    /// The caller may not use this endpoint.
    Unauthorized,
}

/// An account on the ledger, by its raw bytes.
#[derive(Clone, Debug, PartialEq, Eq)]
pub struct Address {
    pub bytes: Vec<u8>,
}

impl View for Address {
    type V = Seq<u8>;

    open spec fn view(&self) -> Seq<u8> {
        self.bytes@
    }
}

/// Who makes the current call, as the ledger reports it.
#[derive(Clone, Debug, PartialEq, Eq)]
pub struct CallContext {
    /// The account that makes the call.
    pub caller: Address,
    /// The contract's owner at the time of the call.
    pub owner: Address,
    /// Whether the caller is a user's account rather than another contract.
    pub caller_is_user_account: bool,
}

impl CallContext {
    /// Whether the call comes from the contract's owner.
    pub open spec fn by_owner(&self) -> bool {
        self.caller@ == self.owner@
    }
}

/// The record kept for each minted edition.
#[derive(Clone, Debug, PartialEq, Eq)]
pub struct TokenPriceTag {
    pub display_name: Vec<u8>,
    pub nonce: u64,
    pub price: Amount,
    pub max_per_address: Amount,
}

/// What the registry may do with the collection after it was issued.
#[derive(Clone, Copy, Debug, PartialEq, Eq, Structural)]
pub struct TokenProperties {
    pub can_freeze: bool,
    pub can_wipe: bool,
    pub can_pause: bool,
    pub can_transfer_create_role: bool,
    pub can_change_owner: bool,
    pub can_upgrade: bool,
    pub can_add_special_roles: bool,
}

/// A capability over the collection that the registry can grant.
#[derive(Clone, Copy, Debug, PartialEq, Eq, Structural)]
pub enum LocalRole {
    NftCreate,
    NftAddQuantity,
    NftBurn,
}

/// The asynchronous call that asks the registry for a new semi-fungible
/// collection. Its outcome comes back through `Setup::issue_callback`.
#[derive(Clone, Debug, PartialEq, Eq)]
pub struct IssueRequest {
    /// The fee, which is the whole payment that came with the call.
    pub issue_cost: Amount,
    pub token_name: Vec<u8>,
    pub token_ticker: Vec<u8>,
    pub properties: TokenProperties,
}

/// What came with a failed issue: whether it is native currency, and how much.
#[derive(Clone, Debug, PartialEq, Eq)]
pub struct ReturnedPayment {
    pub is_egld: bool,
    pub amount: Amount,
}

/// The registry's answer to an `IssueRequest`.
#[derive(Clone, Debug, PartialEq, Eq)]
pub enum IssueResult {
    /// The collection exists under this identifier.
    Issued(Vec<u8>),
    /// The registry refused, and sent this back.
    Failed(ReturnedPayment),
}

/// The asynchronous call that asks the registry to grant `roles` over the
/// collection `token` to `address`. No answer is awaited.
#[derive(Clone, Debug, PartialEq, Eq)]
pub struct RolesRequest {
    pub address: Address,
    pub token: Vec<u8>,
    pub roles: Vec<LocalRole>,
}

/// The mint of a new edition. The ledger takes `attributes` together with its
/// digest, and answers with the edition's nonce; `price` and
/// `max_per_address` wait for `Setup::store_price_tag`.
#[derive(Clone, Debug, PartialEq, Eq)]
pub struct MintRequest {
    pub token: Vec<u8>,
    pub amount: Amount,
    pub name: Vec<u8>,
    pub royalties: Amount,
    pub attributes: Vec<u8>,
    pub uris: Vec<Vec<u8>>,
    pub price: Amount,
    pub max_per_address: Amount,
}

/// A transfer of native currency.
#[derive(Clone, Debug, PartialEq, Eq)]
pub struct EgldTransfer {
    pub to: Address,
    pub amount: Amount,
}

/// A transfer of `amount` tokens of the edition `nonce` of collection `token`.
#[derive(Clone, Debug, PartialEq, Eq)]
pub struct EsdtTransfer {
    pub to: Address,
    pub token: Vec<u8>,
    pub nonce: u64,
    pub amount: u32,
}

/// The two transfers of a purchase, in the order in which they are made.
#[derive(Clone, Debug, PartialEq, Eq)]
pub struct Sale {
    /// The tokens, to the buyer.
    pub delivery: EsdtTransfer,
    /// The whole payment, to the owner.
    pub proceeds: EgldTransfer,
}

} // verus!
