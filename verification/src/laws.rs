//! What holds of the endpoints taken together.

use crate::operations::{balance_after_claim, buy_error, claimed_funds, single_payment};
use crate::setup::{issue_token_error, state_after_issue};
use crate::storage::{restored_tags, State};
use crate::types::{CallContext, ContractError, IssueResult, TokenPriceTag};
use vstd::prelude::*;

verus! {

/// One call that may change the state. The endpoints that only read it, or
/// that only describe transfers, are not among them.
pub enum Step {
    /// `issue_token`, by `ctx`, under `name`.
    IssueToken { ctx: CallContext, name: Seq<u8> },
    /// `issue_callback`, with the registry's answer.
    IssueCallback { result: IssueResult },
    /// `store_price_tag`, for the edition `nonce`.
    StorePriceTag { nonce: u64, display_name: Seq<u8>, price: nat, max_per_address: nat },
}

impl Step {
    /// Whether the step is the registry's answer that the collection exists.
    pub open spec fn is_issued_answer(self) -> bool {
        match self {
            Step::IssueCallback { result } => result is Issued,
            _ => false,
        }
    }
}

/// The state after one step.
pub open spec fn state_after(state: State, step: Step) -> State {
    match step {
        Step::IssueToken { ctx, name } => if issue_token_error(state, ctx) is None {
            state.with_name(name)
        } else {
            state
        },
        Step::IssueCallback { result } => state_after_issue(state, result),
        Step::StorePriceTag { nonce, display_name, price, max_per_address } => state.with_price_tag(
            nonce,
            display_name,
            price,
            max_per_address,
        ),
    }
}

/// The state after a run of steps, the first of them first.
pub open spec fn state_after_all(state: State, steps: Seq<Step>) -> State
    decreases steps.len(),
{
    if steps.len() == 0 {
        state
    } else {
        state_after(state_after_all(state, steps.drop_last()), steps.last())
    }
}

/// A purchase goes through exactly when the buyer is a user's account, the
/// collection is issued, the edition exists, between one token and the
/// edition's cap are asked for, and the payment divided by their number is
/// the edition's price.
pub proof fn lemma_buy_succeeds_iff(
    state: State,
    ctx: CallContext,
    payment_amount: nat,
    amount_of_tokens: u32,
    token_id: u64,
)
    ensures
        buy_error(state, ctx, payment_amount, amount_of_tokens, token_id) is None <==> {
            &&& ctx.caller_is_user_account
            &&& state.is_issued()
            &&& state.has_edition(token_id)
            &&& 1 <= amount_of_tokens <= state.price_tags[token_id].max_per_address
            &&& single_payment(payment_amount, amount_of_tokens)
                == state.price_tags[token_id].price
        },
{
}

/// A payment of the price times the number of tokens, plus less than one
/// token's worth of change, is taken as exact.
pub proof fn lemma_buy_takes_change(
    state: State,
    ctx: CallContext,
    amount_of_tokens: u32,
    token_id: u64,
    change: nat,
)
    requires
        ctx.caller_is_user_account,
        state.is_issued(),
        state.has_edition(token_id),
        1 <= amount_of_tokens <= state.price_tags[token_id].max_per_address,
        change < amount_of_tokens,
    ensures
        buy_error(
            state,
            ctx,
            (state.price_tags[token_id].price * amount_of_tokens + change) as nat,
            amount_of_tokens,
            token_id,
        ) is None,
{
    let price = state.price_tags[token_id].price as int;
    let count = amount_of_tokens as int;
    let extra = change as int;
    assert((price * count + extra) / count == price) by (nonlinear_arith)
        requires
            0 <= extra < count,
            0 <= price,
    ;
}

/// Claiming the funds twice with nothing paid in between sends the whole
/// balance the first time and nothing the second time.
pub proof fn lemma_claim_twice(ctx: CallContext, balance: nat)
    requires
        ctx.by_owner(),
    ensures
        claimed_funds(ctx, balance) == Ok::<nat, ContractError>(balance),
        balance_after_claim(ctx, balance) == 0,
        claimed_funds(ctx, balance_after_claim(ctx, balance)) == Ok::<nat, ContractError>(0nat),
{
}

/// After the price tag of a minted edition is stored, the three views give
/// back the name, the price and the cap that it was minted with.
pub proof fn lemma_views_after_mint(
    state: State,
    nonce: u64,
    display_name: Seq<u8>,
    price: nat,
    max_per_address: nat,
)
    ensures
        ({
            let minted = state.with_price_tag(nonce, display_name, price, max_per_address);
            &&& minted.price_of(nonce) == Ok::<nat, ContractError>(price)
            &&& minted.display_name_of(nonce) == Ok::<Seq<u8>, ContractError>(display_name)
            &&& minted.max_per_address_of(nonce) == Ok::<nat, ContractError>(max_per_address)
        }),
{
}

/// Storing a price tag leaves the tags of all other editions as they were.
pub proof fn lemma_mint_keeps_other_editions(
    state: State,
    nonce: u64,
    display_name: Seq<u8>,
    price: nat,
    max_per_address: nat,
    other: u64,
)
    requires
        other != nonce,
    ensures
        ({
            let minted = state.with_price_tag(nonce, display_name, price, max_per_address);
            &&& minted.has_edition(other) == state.has_edition(other)
            &&& minted.price_of(other) == state.price_of(other)
            &&& minted.display_name_of(other) == state.display_name_of(other)
            &&& minted.max_per_address_of(other) == state.max_per_address_of(other)
        }),
{
}

/// The collection's identifier changes with one step only: the registry's
/// answer that the collection exists, arriving at a contract without a
/// collection. That answer makes its identifier the collection's.
pub proof fn lemma_collection_changes_with_answer_only(state: State, step: Step)
    ensures
        !step.is_issued_answer() ==> state_after(state, step).collection_token_id
            == state.collection_token_id,
        step matches Step::IssueCallback { result: IssueResult::Issued(token) }
            ==> state_after(state, step).collection_token_id == (if state.is_issued() {
            state.collection_token_id
        } else {
            token@
        }),
{
}

/// No step changes or clears the identifier of an issued collection.
pub proof fn lemma_collection_is_written_once(state: State, step: Step)
    requires
        state.is_issued(),
    ensures
        state_after(state, step).is_issued(),
        state_after(state, step).collection_token_id == state.collection_token_id,
{
}

/// Once the collection is issued, `issue_token` is refused, so that no new
/// answer of the registry is under way.
pub proof fn lemma_issue_refused_once_issued(state: State, ctx: CallContext)
    requires
        state.is_issued(),
    ensures
        issue_token_error(state, ctx) is Some,
{
}

/// Over any run of steps, the identifier of an issued collection stays what
/// it was.
pub proof fn lemma_collection_is_kept(state: State, steps: Seq<Step>)
    requires
        state.is_issued(),
    ensures
        state_after_all(state, steps).is_issued(),
        state_after_all(state, steps).collection_token_id == state.collection_token_id,
    decreases steps.len(),
{
    if steps.len() > 0 {
        lemma_collection_is_kept(state, steps.drop_last());
        lemma_collection_is_written_once(state_after_all(state, steps.drop_last()), steps.last());
    }
}

/// While the collection is not issued, a run of steps without an answer that
/// the collection exists leaves it so.
pub proof fn lemma_collection_waits_for_answer(state: State, steps: Seq<Step>)
    requires
        !state.is_issued(),
        forall|i: int| 0 <= i < steps.len() ==> !(#[trigger] steps[i]).is_issued_answer(),
    ensures
        state_after_all(state, steps).collection_token_id == state.collection_token_id,
    decreases steps.len(),
{
    if steps.len() > 0 {
        lemma_collection_waits_for_answer(state, steps.drop_last());
        lemma_collection_changes_with_answer_only(
            state_after_all(state, steps.drop_last()),
            steps.last(),
        );
    }
}

/// Over the contract's whole life the identifier is written once: where the
/// collection is issued after the first `count` steps of a run, it has the
/// same identifier after all of them.
pub proof fn lemma_collection_is_fixed_once_set(state: State, steps: Seq<Step>, count: int)
    requires
        0 <= count <= steps.len(),
        state_after_all(state, steps.subrange(0, count)).is_issued(),
    ensures
        state_after_all(state, steps).collection_token_id == state_after_all(
            state,
            steps.subrange(0, count),
        ).collection_token_id,
    decreases steps.len(),
{
    if count == steps.len() {
        assert(steps.subrange(0, count) =~= steps);
    } else {
        assert(steps.drop_last().subrange(0, count) =~= steps.subrange(0, count));
        lemma_collection_is_fixed_once_set(state, steps.drop_last(), count);
        lemma_collection_is_written_once(state_after_all(state, steps.drop_last()), steps.last());
    }
}

/// Every price tag carries the id under which it is kept: this holds of a
/// new contract, and each step keeps it.
pub proof fn lemma_steps_keep_well_formed(state: State, step: Step)
    requires
        state.well_formed(),
    ensures
        State::initial().well_formed(),
        state_after(state, step).well_formed(),
{
}

/// A restored contract keeps every price tag under the tag's own id.
pub proof fn lemma_restored_is_well_formed(
    collection_token_id: Seq<u8>,
    collection_token_name: Seq<u8>,
    tags: Seq<TokenPriceTag>,
)
    ensures
        (State {
            collection_token_id,
            collection_token_name,
            price_tags: restored_tags(tags),
        }).well_formed(),
    decreases tags.len(),
{
    if tags.len() > 0 {
        lemma_restored_is_well_formed(collection_token_id, collection_token_name, tags.drop_last());
        let earlier = State {
            collection_token_id,
            collection_token_name,
            price_tags: restored_tags(tags.drop_last()),
        };
        let whole = restored_tags(tags);
        assert forall|token_id: u64| #[trigger] whole.contains_key(token_id) implies whole[token_id].nonce
            == token_id by {
            if token_id != tags.last().nonce {
                assert(earlier.price_tags.contains_key(token_id));
            }
        }
    }
}

} // verus!
