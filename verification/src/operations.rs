//! Selling editions, the owner's community share, and the owner's claim on
//! the contract's funds; and what anyone may read of a price tag.

use crate::amount::Amount;
use crate::bytes::{copy_bytes, same_bytes};
use crate::storage::{Contract, State, Storage};
use crate::types::{Address, CallContext, ContractError, EgldTransfer, EsdtTransfer, Sale};
use vstd::prelude::*;

verus! {

/// How many tokens of an edition the owner takes with one `buy_community`.
pub const COMMUNITY_TREASURE: u32 = 250;

/// The payment per token: the whole payment divided by the number of tokens,
/// rounded down.
pub open spec fn single_payment(payment_amount: nat, amount_of_tokens: u32) -> nat
    recommends
        amount_of_tokens > 0,
{
    payment_amount / (amount_of_tokens as nat)
}

/// Why `buy` refuses a call, if it does. The tests are made in this order.
/// The payment is held against the price per token only: what is left over
/// after the division does not count.
pub open spec fn buy_error(
    state: State,
    ctx: CallContext,
    payment_amount: nat,
    amount_of_tokens: u32,
    token_id: u64,
) -> Option<ContractError> {
    if !ctx.caller_is_user_account {
        Some(ContractError::Unauthorized)
    } else if !state.is_issued() {
        Some(ContractError::NotInitialized)
    } else if !state.has_edition(token_id) {
        Some(ContractError::UnknownEdition)
    } else if amount_of_tokens < 1 {
        Some(ContractError::QuantityTooLow)
    } else if state.price_tags[token_id].max_per_address < amount_of_tokens {
        Some(ContractError::QuantityExceedsCap)
    } else if single_payment(payment_amount, amount_of_tokens)
        != state.price_tags[token_id].price {
        Some(ContractError::PaymentMismatch)
    } else {
        None
    }
}

/// Why `buy_community` refuses a call, if it does.
pub open spec fn buy_community_error(state: State, ctx: CallContext, token_id: u64) -> Option<
    ContractError,
> {
    if !ctx.by_owner() {
        Some(ContractError::Unauthorized)
    } else if !state.is_issued() {
        Some(ContractError::NotInitialized)
    } else if !state.has_edition(token_id) {
        Some(ContractError::UnknownEdition)
    } else {
        None
    }
}

/// What `claim_sc_funds` sends to the caller: the whole balance, to the
/// owner alone.
pub open spec fn claimed_funds(ctx: CallContext, balance: nat) -> Result<nat, ContractError> {
    if ctx.by_owner() {
        Ok(balance)
    } else {
        Err(ContractError::Unauthorized)
    }
}

/// The contract's balance after `claim_sc_funds` and the transfer that it
/// asked for.
pub open spec fn balance_after_claim(ctx: CallContext, balance: nat) -> nat {
    match claimed_funds(ctx, balance) {
        Ok(sent) => (balance - sent) as nat,
        Err(_) => balance,
    }
}

/// The endpoints of a contract that is set up. None of them changes the
/// state: what they decide is carried out by the ledger, as transfers.
pub trait Operations: Storage {
    /// Sells `amount_of_tokens` tokens of the edition `token_id` to the
    /// caller, who must be a user's account, for `payment_amount`. The tokens
    /// go to the caller and the whole payment to the owner.
    fn buy(&self, ctx: &CallContext, payment_amount: Amount, amount_of_tokens: u32, token_id: u64) -> (outcome:
        Result<Sale, ContractError>)
        ensures
            match outcome {
                Ok(sale) => {
                    &&& buy_error(
                        self.state(),
                        *ctx,
                        payment_amount@,
                        amount_of_tokens,
                        token_id,
                    ) is None
                    &&& sale.delivery.to@ == ctx.caller@
                    &&& sale.delivery.token@ == self.state().collection_token_id
                    &&& sale.delivery.nonce == token_id
                    &&& sale.delivery.amount == amount_of_tokens
                    &&& sale.proceeds.to@ == ctx.owner@
                    &&& sale.proceeds.amount@ == payment_amount@
                },
                Err(error) => buy_error(
                    self.state(),
                    *ctx,
                    payment_amount@,
                    amount_of_tokens,
                    token_id,
                ) == Some(error),
            },
    ;

    /// Hands the owner the community's share of the edition `token_id`,
    /// without payment.
    fn buy_community(&self, ctx: &CallContext, token_id: u64) -> (outcome: Result<
        EsdtTransfer,
        ContractError,
    >)
        ensures
            match outcome {
                Ok(transfer) => {
                    &&& buy_community_error(self.state(), *ctx, token_id) is None
                    &&& transfer.to@ == ctx.caller@
                    &&& transfer.token@ == self.state().collection_token_id
                    &&& transfer.nonce == token_id
                    &&& transfer.amount == COMMUNITY_TREASURE
                },
                Err(error) => buy_community_error(self.state(), *ctx, token_id) == Some(error),
            },
    ;

    /// Sends the contract's whole balance of native currency to the owner
    /// who asks for it. A balance of nothing gives a transfer of nothing.
    fn claim_sc_funds(&self, ctx: &CallContext, balance: Amount) -> (outcome: Result<
        EgldTransfer,
        ContractError,
    >)
        ensures
            match outcome {
                Ok(transfer) => claimed_funds(*ctx, balance@) == Ok::<nat, ContractError>(
                    transfer.amount@,
                ) && transfer.to@ == ctx.caller@,
                Err(error) => claimed_funds(*ctx, balance@) == Err::<nat, ContractError>(error),
            },
    ;

    /// The price of one token of an edition.
    fn get_price(&self, token_id: u64) -> (price: Result<Amount, ContractError>)
        ensures
            match price {
                Ok(amount) => self.state().price_of(token_id) == Ok::<nat, ContractError>(amount@),
                Err(error) => self.state().price_of(token_id) == Err::<nat, ContractError>(error),
            },
    ;

    /// The name an edition is shown under.
    fn get_token_display_name(&self, token_id: u64) -> (name: Result<Vec<u8>, ContractError>)
        ensures
            match name {
                Ok(bytes) => self.state().display_name_of(token_id) == Ok::<
                    Seq<u8>,
                    ContractError,
                >(bytes@),
                Err(error) => self.state().display_name_of(token_id) == Err::<
                    Seq<u8>,
                    ContractError,
                >(error),
            },
    ;

    /// The most tokens of an edition that one purchase may hold.
    fn get_max_amount_per_address(&self, token_id: u64) -> (max: Result<Amount, ContractError>)
        ensures
            match max {
                Ok(amount) => self.state().max_per_address_of(token_id) == Ok::<
                    nat,
                    ContractError,
                >(amount@),
                Err(error) => self.state().max_per_address_of(token_id) == Err::<
                    nat,
                    ContractError,
                >(error),
            },
    ;
}

impl Operations for Contract {
    fn buy(&self, ctx: &CallContext, payment_amount: Amount, amount_of_tokens: u32, token_id: u64) -> (outcome:
        Result<Sale, ContractError>) {
        if !ctx.caller_is_user_account {
            return Err(ContractError::Unauthorized);
        }
        if self.collection_token_id().len() == 0 {
            return Err(ContractError::NotInitialized);
        }
        let price_tag = match self.token_price_tag(token_id) {
            Some(found) => found,
            None => {
                return Err(ContractError::UnknownEdition);
            },
        };
        if amount_of_tokens < 1 {
            return Err(ContractError::QuantityTooLow);
        }
        if !price_tag.max_per_address.at_least(amount_of_tokens as u128) {
            return Err(ContractError::QuantityExceedsCap);
        }
        let single_payment_amount = payment_amount.divided_by(amount_of_tokens);
        if !single_payment_amount.same_value(&price_tag.price) {
            return Err(ContractError::PaymentMismatch);
        }
        Ok(
            Sale {
                delivery: EsdtTransfer {
                    to: Address { bytes: copy_bytes(&ctx.caller.bytes) },
                    token: copy_bytes(self.collection_token_id()),
                    nonce: token_id,
                    amount: amount_of_tokens,
                },
                proceeds: EgldTransfer {
                    to: Address { bytes: copy_bytes(&ctx.owner.bytes) },
                    amount: payment_amount,
                },
            },
        )
    }

    fn buy_community(&self, ctx: &CallContext, token_id: u64) -> (outcome: Result<
        EsdtTransfer,
        ContractError,
    >) {
        if !same_bytes(&ctx.caller.bytes, &ctx.owner.bytes) {
            return Err(ContractError::Unauthorized);
        }
        if self.collection_token_id().len() == 0 {
            return Err(ContractError::NotInitialized);
        }
        if self.token_price_tag(token_id).is_none() {
            return Err(ContractError::UnknownEdition);
        }
        Ok(
            EsdtTransfer {
                to: Address { bytes: copy_bytes(&ctx.caller.bytes) },
                token: copy_bytes(self.collection_token_id()),
                nonce: token_id,
                amount: COMMUNITY_TREASURE,
            },
        )
    }

    fn claim_sc_funds(&self, ctx: &CallContext, balance: Amount) -> (outcome: Result<
        EgldTransfer,
        ContractError,
    >) {
        if !same_bytes(&ctx.caller.bytes, &ctx.owner.bytes) {
            return Err(ContractError::Unauthorized);
        }
        Ok(EgldTransfer { to: Address { bytes: copy_bytes(&ctx.caller.bytes) }, amount: balance })
    }

    fn get_price(&self, token_id: u64) -> (price: Result<Amount, ContractError>) {
        match self.token_price_tag(token_id) {
            Some(found) => Ok(found.price.copy()),
            None => Err(ContractError::UnknownEdition),
        }
    }

    fn get_token_display_name(&self, token_id: u64) -> (name: Result<Vec<u8>, ContractError>) {
        match self.token_price_tag(token_id) {
            Some(found) => Ok(copy_bytes(&found.display_name)),
            None => Err(ContractError::UnknownEdition),
        }
    }

    fn get_max_amount_per_address(&self, token_id: u64) -> (max: Result<Amount, ContractError>) {
        match self.token_price_tag(token_id) {
            Some(found) => Ok(found.max_per_address.copy()),
            None => Err(ContractError::UnknownEdition),
        }
    }
}

} // verus!
