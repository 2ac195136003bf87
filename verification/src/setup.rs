//! Issuing the collection, granting the contract its roles, and minting
//! editions.

use crate::amount::Amount;
use crate::bytes::{append_bytes, copy_bytes, same_bytes};
use crate::storage::{Contract, State, Storage};
use crate::types::{
    Address, CallContext, ContractError, EgldTransfer, IssueRequest, IssueResult, LocalRole,
    MintRequest, RolesRequest, TokenPriceTag, TokenProperties,
};
use vstd::prelude::*;

verus! {

/// Royalties are counted in hundredths of a percent: this is 100%.
pub const ROYALTIES_MAX: u128 = 10_000;

/// The bytes of `tags:`, which open the attributes.
pub open spec fn tags_key_name() -> Seq<u8> {
    seq![116u8, 97u8, 103u8, 115u8, 58u8]
}

/// The byte `;`, which ends the tags.
pub open spec fn attr_separator() -> Seq<u8> {
    seq![59u8]
}

/// The bytes of `metadata:`, which open the reference to the metadata.
pub open spec fn metadata_key_name() -> Seq<u8> {
    seq![109u8, 101u8, 116u8, 97u8, 100u8, 97u8, 116u8, 97u8, 58u8]
}

/// The byte `/`, between the metadata's content identifier and its file.
pub open spec fn uri_slash() -> Seq<u8> {
    seq![47u8]
}

/// The attributes of an edition: `tags:<tags>;metadata:<cid>/<file>`.
pub open spec fn attributes_of(tags: Seq<u8>, metadata_cid: Seq<u8>, metadata_file: Seq<u8>) -> Seq<
    u8,
> {
    tags_key_name() + tags + attr_separator() + metadata_key_name() + metadata_cid + uri_slash()
        + metadata_file
}

/// The properties that the collection is issued with: nothing but the right
/// to be given special roles later.
pub open spec fn collection_properties() -> TokenProperties {
    TokenProperties {
        can_freeze: false,
        can_wipe: false,
        can_pause: false,
        can_transfer_create_role: false,
        can_change_owner: false,
        can_upgrade: false,
        can_add_special_roles: true,
    }
}

/// The roles that the contract asks for over its own collection.
pub open spec fn minter_roles() -> Seq<LocalRole> {
    seq![LocalRole::NftCreate, LocalRole::NftAddQuantity, LocalRole::NftBurn]
}

/// Why `issue_token` refuses a call, if it does.
pub open spec fn issue_token_error(state: State, ctx: CallContext) -> Option<ContractError> {
    if !ctx.by_owner() {
        Some(ContractError::Unauthorized)
    } else if state.is_issued() {
        Some(ContractError::AlreadyInitialized)
    } else {
        None
    }
}

/// Why `set_local_roles` refuses a call, if it does.
pub open spec fn set_local_roles_error(state: State, ctx: CallContext) -> Option<ContractError> {
    if !ctx.by_owner() {
        Some(ContractError::Unauthorized)
    } else if !state.is_issued() {
        Some(ContractError::NotInitialized)
    } else {
        None
    }
}

/// Why `create_token` refuses a call, if it does. The tests are made in this
/// order; a price is never below zero, so that one never fails.
pub open spec fn create_token_error(
    state: State,
    ctx: CallContext,
    selling_price: nat,
    amount_of_tokens: nat,
    royalties: nat,
) -> Option<ContractError> {
    if !ctx.by_owner() {
        Some(ContractError::Unauthorized)
    } else if royalties > ROYALTIES_MAX {
        Some(ContractError::RoyaltyOutOfRange)
    } else if amount_of_tokens < 1 {
        Some(ContractError::QuantityTooLow)
    } else if selling_price < 0 {
        Some(ContractError::NegativePrice)
    } else if !state.is_issued() {
        Some(ContractError::NotInitialized)
    } else {
        None
    }
}

/// The state after the registry's answer to an issue. The identifier is
/// written once: an answer that arrives when the collection is already
/// issued changes nothing.
pub open spec fn state_after_issue(state: State, result: IssueResult) -> State {
    match result {
        IssueResult::Issued(token) => if state.is_issued() {
            state
        } else {
            state.with_collection(token@)
        },
        IssueResult::Failed(_) => state,
    }
}

/// The amount that goes back to the owner after the registry's answer to an
/// issue, if any does: what came with a refusal, where that is native
/// currency and more than nothing.
pub open spec fn refund_after_issue(result: IssueResult) -> Option<nat> {
    match result {
        IssueResult::Issued(_) => None,
        IssueResult::Failed(returned) => if returned.is_egld && returned.amount@ > 0 {
            Some(returned.amount@)
        } else {
            None
        },
    }
}

/// Builds the attributes of an edition.
pub fn build_attributes(tags: &Vec<u8>, metadata_cid: &Vec<u8>, metadata_file: &Vec<u8>) -> (attributes:
    Vec<u8>)
    ensures
        attributes@ == attributes_of(tags@, metadata_cid@, metadata_file@),
{
    let tags_key: Vec<u8> = vec![116u8, 97u8, 103u8, 115u8, 58u8];
    let separator: Vec<u8> = vec![59u8];
    let metadata_key: Vec<u8> = vec![109u8, 101u8, 116u8, 97u8, 100u8, 97u8, 116u8, 97u8, 58u8];
    let slash: Vec<u8> = vec![47u8];
    assert(tags_key@ =~= tags_key_name());
    assert(separator@ =~= attr_separator());
    assert(metadata_key@ =~= metadata_key_name());
    assert(slash@ =~= uri_slash());

    let mut attributes: Vec<u8> = Vec::new();
    append_bytes(&mut attributes, &tags_key);
    assert(attributes@ =~= tags_key_name());
    append_bytes(&mut attributes, tags);
    append_bytes(&mut attributes, &separator);
    append_bytes(&mut attributes, &metadata_key);
    append_bytes(&mut attributes, metadata_cid);
    append_bytes(&mut attributes, &slash);
    append_bytes(&mut attributes, metadata_file);
    attributes
}

/// The endpoints that set the contract up. Each is open to the owner alone,
/// but for `issue_callback` and `store_price_tag`, which the ledger itself
/// drives with the answers to the requests made here.
pub trait Setup: Storage {
    /// Asks the registry for the collection, with the whole payment of the
    /// call as the fee. Refused once the collection is issued. The name is
    /// kept in the state.
    fn issue_token(
        &mut self,
        ctx: &CallContext,
        issue_cost: Amount,
        collection_token_name: Vec<u8>,
        collection_token_ticker: Vec<u8>,
    ) -> (outcome: Result<IssueRequest, ContractError>)
        ensures
            match outcome {
                Ok(request) => {
                    &&& issue_token_error(old(self).state(), *ctx) is None
                    &&& request.issue_cost@ == issue_cost@
                    &&& request.token_name@ == collection_token_name@
                    &&& request.token_ticker@ == collection_token_ticker@
                    &&& request.properties == collection_properties()
                    &&& final(self).state() == old(self).state().with_name(
                        collection_token_name@,
                    )
                },
                Err(error) => {
                    &&& issue_token_error(old(self).state(), *ctx) == Some(error)
                    &&& final(self).state() == old(self).state()
                },
            },
    ;

    /// Takes the registry's answer to an issue. On success the identifier is
    /// kept as the collection's, unless the contract has one already: that
    /// one stays. On failure, native currency that came back goes to the
    /// owner in full; anything else is left where it is.
    fn issue_callback(&mut self, owner: Address, result: IssueResult) -> (refund: Option<
        EgldTransfer,
    >)
        ensures
            final(self).state() == state_after_issue(old(self).state(), result),
            match refund {
                Some(transfer) => refund_after_issue(result) == Some(transfer.amount@)
                    && transfer.to@ == owner@,
                None => refund_after_issue(result) is None,
            },
    ;

    /// Asks the registry to let the contract create, add to and burn tokens
    /// of its collection. Refused while the collection is not issued.
    fn set_local_roles(&self, ctx: &CallContext, sc_address: Address) -> (outcome: Result<
        RolesRequest,
        ContractError,
    >)
        ensures
            match outcome {
                Ok(request) => {
                    &&& set_local_roles_error(self.state(), *ctx) is None
                    &&& request.address@ == sc_address@
                    &&& request.token@ == self.state().collection_token_id
                    &&& request.roles@ == minter_roles()
                },
                Err(error) => set_local_roles_error(self.state(), *ctx) == Some(error),
            },
    ;

    /// Checks the terms of a new edition and describes its mint. The state
    /// stays as it is until the ledger has answered with the nonce.
    fn create_token(
        &self,
        ctx: &CallContext,
        name: Vec<u8>,
        selling_price: Amount,
        metadata_ipfs_cid: &Vec<u8>,
        metadata_ipfs_file: &Vec<u8>,
        amount_of_tokens: Amount,
        max_per_address: Amount,
        royalties: Amount,
        tags: &Vec<u8>,
        uris: Vec<Vec<u8>>,
    ) -> (outcome: Result<MintRequest, ContractError>)
        ensures
            match outcome {
                Ok(request) => {
                    &&& create_token_error(
                        self.state(),
                        *ctx,
                        selling_price@,
                        amount_of_tokens@,
                        royalties@,
                    ) is None
                    &&& request.token@ == self.state().collection_token_id
                    &&& request.amount@ == amount_of_tokens@
                    &&& request.name@ == name@
                    &&& request.royalties@ == royalties@
                    &&& request.attributes@ == attributes_of(
                        tags@,
                        metadata_ipfs_cid@,
                        metadata_ipfs_file@,
                    )
                    &&& request.uris == uris
                    &&& request.price@ == selling_price@
                    &&& request.max_per_address@ == max_per_address@
                },
                Err(error) => create_token_error(
                    self.state(),
                    *ctx,
                    selling_price@,
                    amount_of_tokens@,
                    royalties@,
                ) == Some(error),
            },
    ;

    /// Keeps the price tag of the edition that the ledger minted for
    /// `request` under `nonce`.
    fn store_price_tag(&mut self, nonce: u64, request: MintRequest)
        ensures
            final(self).state() == old(self).state().with_price_tag(
                nonce,
                request.name@,
                request.price@,
                request.max_per_address@,
            ),
    ;
}

impl Setup for Contract {
    fn issue_token(
        &mut self,
        ctx: &CallContext,
        issue_cost: Amount,
        collection_token_name: Vec<u8>,
        collection_token_ticker: Vec<u8>,
    ) -> (outcome: Result<IssueRequest, ContractError>) {
        if !same_bytes(&ctx.caller.bytes, &ctx.owner.bytes) {
            return Err(ContractError::Unauthorized);
        }
        if self.collection_token_id().len() > 0 {
            return Err(ContractError::AlreadyInitialized);
        }
        self.set_collection_token_name(copy_bytes(&collection_token_name));
        Ok(
            IssueRequest {
                issue_cost,
                token_name: collection_token_name,
                token_ticker: collection_token_ticker,
                properties: TokenProperties {
                    can_freeze: false,
                    can_wipe: false,
                    can_pause: false,
                    can_transfer_create_role: false,
                    can_change_owner: false,
                    can_upgrade: false,
                    can_add_special_roles: true,
                },
            },
        )
    }

    fn issue_callback(&mut self, owner: Address, result: IssueResult) -> (refund: Option<
        EgldTransfer,
    >) {
        match result {
            IssueResult::Issued(token) => {
                if self.collection_token_id().len() == 0 {
                    self.set_collection_token_id(token);
                }
                None
            },
            IssueResult::Failed(returned) => {
                if returned.is_egld && !returned.amount.is_zero() {
                    Some(EgldTransfer { to: owner, amount: returned.amount })
                } else {
                    None
                }
            },
        }
    }

    fn set_local_roles(&self, ctx: &CallContext, sc_address: Address) -> (outcome: Result<
        RolesRequest,
        ContractError,
    >) {
        if !same_bytes(&ctx.caller.bytes, &ctx.owner.bytes) {
            return Err(ContractError::Unauthorized);
        }
        if self.collection_token_id().len() == 0 {
            return Err(ContractError::NotInitialized);
        }
        let roles: Vec<LocalRole> = vec![
            LocalRole::NftCreate,
            LocalRole::NftAddQuantity,
            LocalRole::NftBurn,
        ];
        assert(roles@ =~= minter_roles());
        Ok(
            RolesRequest {
                address: sc_address,
                token: copy_bytes(self.collection_token_id()),
                roles,
            },
        )
    }

    fn create_token(
        &self,
        ctx: &CallContext,
        name: Vec<u8>,
        selling_price: Amount,
        metadata_ipfs_cid: &Vec<u8>,
        metadata_ipfs_file: &Vec<u8>,
        amount_of_tokens: Amount,
        max_per_address: Amount,
        royalties: Amount,
        tags: &Vec<u8>,
        uris: Vec<Vec<u8>>,
    ) -> (outcome: Result<MintRequest, ContractError>) {
        if !same_bytes(&ctx.caller.bytes, &ctx.owner.bytes) {
            return Err(ContractError::Unauthorized);
        }
        if !royalties.at_most(ROYALTIES_MAX) {
            return Err(ContractError::RoyaltyOutOfRange);
        }
        if !amount_of_tokens.at_least(1) {
            return Err(ContractError::QuantityTooLow);
        }
        if !selling_price.at_least(0) {
            return Err(ContractError::NegativePrice);
        }
        if self.collection_token_id().len() == 0 {
            return Err(ContractError::NotInitialized);
        }
        let attributes = build_attributes(tags, metadata_ipfs_cid, metadata_ipfs_file);
        Ok(
            MintRequest {
                token: copy_bytes(self.collection_token_id()),
                amount: amount_of_tokens,
                name,
                royalties,
                attributes,
                uris,
                price: selling_price,
                max_per_address,
            },
        )
    }

    fn store_price_tag(&mut self, nonce: u64, request: MintRequest) {
        self.set_token_price_tag(
            TokenPriceTag {
                display_name: request.name,
                nonce,
                price: request.price,
                max_per_address: request.max_per_address,
            },
        );
    }
}

} // verus!
