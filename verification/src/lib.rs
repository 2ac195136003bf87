//! Decision logic of a semi-fungible token minter and shop.
//!
//! The contract owns one collection, mints priced editions of it and sells
//! them against an exact payment in the native currency. Every endpoint is a
//! function from the persistent state and the facts of one call (who calls,
//! what was paid) to the next state and the request that the host ledger has
//! to carry out: an asynchronous call to the token registry, a mint, or one
//! or two transfers. Nothing here talks to the ledger itself.
//!
//! Amounts of currency and of tokens are natural numbers of any size, counted
//! in the smallest unit and held as bytes (`Amount`).

pub mod amount;
pub mod amount_eq;
pub mod bytes;
pub mod laws;
pub mod operations;
pub mod setup;
pub mod storage;
pub mod types;

pub use amount::Amount;
pub use operations::Operations;
pub use setup::Setup;
pub use storage::{Contract, PriceTagModel, State, Storage};
pub use types::{
    Address, CallContext, ContractError, EgldTransfer, EsdtTransfer, IssueRequest, IssueResult,
    LocalRole, MintRequest, ReturnedPayment, RolesRequest, Sale, TokenPriceTag, TokenProperties,
};
