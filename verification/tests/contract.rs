use sft_minter::{
    Address, Amount, CallContext, Contract, ContractError, EgldTransfer, EsdtTransfer, IssueResult,
    LocalRole, Operations, ReturnedPayment, Setup, Storage, TokenPriceTag, TokenProperties,
};

fn address(tag: u8) -> Address {
    Address { bytes: vec![tag; 32] }
}

fn owner() -> Address {
    address(1)
}

fn buyer() -> Address {
    address(2)
}

fn contract_address() -> Address {
    address(9)
}

fn as_owner() -> CallContext {
    CallContext { caller: owner(), owner: owner(), caller_is_user_account: true }
}

fn as_buyer() -> CallContext {
    CallContext { caller: buyer(), owner: owner(), caller_is_user_account: true }
}

fn amt(value: u128) -> Amount {
    Amount::from_u128(value)
}

fn token() -> Vec<u8> {
    b"COLL-a1b2c3".to_vec()
}

fn issued() -> Contract {
    let mut contract = Contract::new();
    let request = contract.issue_token(&as_owner(), amt(50), b"Coll".to_vec(), b"TICK".to_vec());
    assert!(request.is_ok());
    assert_eq!(contract.issue_callback(owner(), IssueResult::Issued(token())), None);
    contract
}

fn mint(contract: &mut Contract, nonce: u64, name: &[u8], price: u128, max_per_address: u128) {
    let request = contract
        .create_token(
            &as_owner(),
            name.to_vec(),
            amt(price),
            &b"cid".to_vec(),
            &b"file.json".to_vec(),
            amt(1000),
            amt(max_per_address),
            amt(500),
            &b"a,b".to_vec(),
            vec![b"uri".to_vec()],
        )
        .unwrap();
    contract.store_price_tag(nonce, request);
}

fn shop() -> Contract {
    let mut contract = issued();
    mint(&mut contract, 7, b"Seven", 100, 5);
    contract
}

#[test]
fn new_contract_is_empty() {
    let contract = Contract::new();
    assert!(contract.collection_token_id().is_empty());
    assert!(contract.collection_token_name().is_empty());
    assert_eq!(contract.token_price_tag(0), None);
    assert_eq!(contract.token_price_tag(7), None);
}

#[test]
fn issue_token_describes_the_registry_call() {
    let mut contract = Contract::new();
    let request = contract
        .issue_token(&as_owner(), amt(50_000_000_000_000_000), b"Coll".to_vec(), b"TICK".to_vec())
        .unwrap();
    assert_eq!(request.issue_cost, amt(50_000_000_000_000_000));
    assert_eq!(request.token_name, b"Coll".to_vec());
    assert_eq!(request.token_ticker, b"TICK".to_vec());
    assert_eq!(
        request.properties,
        TokenProperties {
            can_freeze: false,
            can_wipe: false,
            can_pause: false,
            can_transfer_create_role: false,
            can_change_owner: false,
            can_upgrade: false,
            can_add_special_roles: true,
        }
    );
    assert_eq!(contract.collection_token_name(), &b"Coll".to_vec());
    assert!(contract.collection_token_id().is_empty());
}

#[test]
fn issue_token_is_for_the_owner() {
    let mut contract = Contract::new();
    let outcome = contract.issue_token(&as_buyer(), amt(50), b"Coll".to_vec(), b"TICK".to_vec());
    assert_eq!(outcome, Err(ContractError::Unauthorized));
    assert!(contract.collection_token_name().is_empty());
}

#[test]
fn issue_token_twice_is_refused() {
    let mut contract = issued();
    let outcome = contract.issue_token(&as_owner(), amt(50), b"Other".to_vec(), b"OTH".to_vec());
    assert_eq!(outcome, Err(ContractError::AlreadyInitialized));
    assert_eq!(contract.collection_token_name(), &b"Coll".to_vec());
    assert_eq!(contract.collection_token_id(), &token());
}

#[test]
fn issue_callback_keeps_the_identifier() {
    let contract = issued();
    assert_eq!(contract.collection_token_id(), &token());
}

#[test]
fn failed_issue_refunds_the_fee() {
    let fee: u128 = 50_000_000_000_000_000;
    let mut contract = Contract::new();
    let request =
        contract.issue_token(&as_owner(), amt(fee), b"Coll".to_vec(), b"TICK".to_vec()).unwrap();
    let sent = request.issue_cost.to_u128().unwrap();
    let refund = contract
        .issue_callback(owner(), IssueResult::Failed(ReturnedPayment { is_egld: true, amount: amt(fee) }));
    assert_eq!(refund, Some(EgldTransfer { to: owner(), amount: amt(fee) }));
    assert_eq!(sent - refund.unwrap().amount.to_u128().unwrap(), 0);
    assert!(contract.collection_token_id().is_empty());
}

#[test]
fn failed_issue_without_currency_refunds_nothing() {
    let mut contract = Contract::new();
    let nothing = contract
        .issue_callback(owner(), IssueResult::Failed(ReturnedPayment { is_egld: true, amount: amt(0) }));
    assert_eq!(nothing, None);
    let other = contract
        .issue_callback(owner(), IssueResult::Failed(ReturnedPayment { is_egld: false, amount: amt(5) }));
    assert_eq!(other, None);
    assert!(contract.collection_token_id().is_empty());
}

#[test]
fn failed_issue_leaves_an_issued_collection() {
    let mut contract = issued();
    let refund = contract
        .issue_callback(owner(), IssueResult::Failed(ReturnedPayment { is_egld: true, amount: amt(3) }));
    assert_eq!(refund, Some(EgldTransfer { to: owner(), amount: amt(3) }));
    assert_eq!(contract.collection_token_id(), &token());
}

#[test]
fn collection_survives_every_other_call() {
    let mut contract = shop();
    let _ = contract.issue_token(&as_owner(), amt(1), b"X".to_vec(), b"X".to_vec());
    let _ = contract.set_local_roles(&as_owner(), contract_address());
    mint(&mut contract, 8, b"Eight", 1, 1);
    let _ = contract.buy(&as_buyer(), amt(100), 1, 7);
    let _ = contract.buy_community(&as_owner(), 7);
    let _ = contract.claim_sc_funds(&as_owner(), amt(10));
    let _ = contract.issue_callback(owner(), IssueResult::Issued(b"OTHER-654321".to_vec()));
    let _ = contract.issue_callback(
        owner(),
        IssueResult::Failed(ReturnedPayment { is_egld: true, amount: amt(1) }),
    );
    assert_eq!(contract.collection_token_id(), &token());
}

#[test]
fn set_local_roles_asks_for_the_three_roles() {
    let contract = issued();
    let request = contract.set_local_roles(&as_owner(), contract_address()).unwrap();
    assert_eq!(request.address, contract_address());
    assert_eq!(request.token, token());
    assert_eq!(
        request.roles,
        vec![LocalRole::NftCreate, LocalRole::NftAddQuantity, LocalRole::NftBurn]
    );
}

#[test]
fn set_local_roles_needs_owner_and_collection() {
    let contract = Contract::new();
    assert_eq!(
        contract.set_local_roles(&as_owner(), contract_address()),
        Err(ContractError::NotInitialized)
    );
    assert_eq!(
        contract.set_local_roles(&as_buyer(), contract_address()),
        Err(ContractError::Unauthorized)
    );
    assert_eq!(
        issued().set_local_roles(&as_buyer(), contract_address()),
        Err(ContractError::Unauthorized)
    );
}

#[test]
fn create_token_describes_the_mint() {
    let contract = issued();
    let request = contract
        .create_token(
            &as_owner(),
            b"Seven".to_vec(),
            amt(100),
            &b"bafy123".to_vec(),
            &b"7.json".to_vec(),
            amt(1000),
            amt(5),
            amt(10_000),
            &b"art,rare".to_vec(),
            vec![b"ipfs://one".to_vec(), b"ipfs://two".to_vec()],
        )
        .unwrap();
    assert_eq!(request.token, token());
    assert_eq!(request.amount, amt(1000));
    assert_eq!(request.name, b"Seven".to_vec());
    assert_eq!(request.royalties, amt(10_000));
    assert_eq!(request.attributes, b"tags:art,rare;metadata:bafy123/7.json".to_vec());
    assert_eq!(request.uris, vec![b"ipfs://one".to_vec(), b"ipfs://two".to_vec()]);
    assert_eq!(request.price, amt(100));
    assert_eq!(request.max_per_address, amt(5));
    assert_eq!(contract.token_price_tag(7), None);
}

#[test]
fn create_token_with_empty_fields() {
    let contract = issued();
    let request = contract
        .create_token(
            &as_owner(),
            vec![],
            amt(0),
            &vec![],
            &vec![],
            amt(1),
            amt(0),
            amt(0),
            &vec![],
            vec![],
        )
        .unwrap();
    assert_eq!(request.attributes, b"tags:;metadata:/".to_vec());
    assert_eq!(request.price, amt(0));
    assert_eq!(request.amount, amt(1));
}

#[test]
fn create_token_checks_in_order() {
    let empty = Contract::new();
    let attempt = |contract: &Contract, ctx: &CallContext, amount: u128, royalties: u128| {
        contract
            .create_token(
                ctx,
                b"n".to_vec(),
                amt(1),
                &b"c".to_vec(),
                &b"f".to_vec(),
                amt(amount),
                amt(1),
                amt(royalties),
                &b"t".to_vec(),
                vec![],
            )
            .map(|_| ())
    };
    assert_eq!(attempt(&empty, &as_buyer(), 0, 10_001), Err(ContractError::Unauthorized));
    assert_eq!(attempt(&empty, &as_owner(), 0, 10_001), Err(ContractError::RoyaltyOutOfRange));
    assert_eq!(attempt(&empty, &as_owner(), 0, 10_000), Err(ContractError::QuantityTooLow));
    assert_eq!(attempt(&empty, &as_owner(), 1, 10_000), Err(ContractError::NotInitialized));
    assert_eq!(attempt(&issued(), &as_owner(), 1, 10_000), Ok(()));
}

#[test]
fn views_give_back_what_was_minted() {
    let mut contract = issued();
    mint(&mut contract, 7, b"Seven", 100, 5);
    assert_eq!(contract.get_price(7), Ok(amt(100)));
    assert_eq!(contract.get_token_display_name(7), Ok(b"Seven".to_vec()));
    assert_eq!(contract.get_max_amount_per_address(7), Ok(amt(5)));
    let tag = contract.token_price_tag(7).unwrap();
    assert_eq!(tag.nonce, 7);
    mint(&mut contract, 8, b"Eight", 3, 1);
    assert_eq!(contract.get_price(7), Ok(amt(100)));
    assert_eq!(contract.get_price(8), Ok(amt(3)));
    assert_eq!(contract.get_token_display_name(8), Ok(b"Eight".to_vec()));
}

#[test]
fn views_of_an_unknown_edition() {
    let contract = shop();
    assert_eq!(contract.get_price(8), Err(ContractError::UnknownEdition));
    assert_eq!(contract.get_token_display_name(8), Err(ContractError::UnknownEdition));
    assert_eq!(contract.get_max_amount_per_address(8), Err(ContractError::UnknownEdition));
}

#[test]
fn buy_five_for_five_hundred() {
    let contract = shop();
    let sale = contract.buy(&as_buyer(), amt(500), 5, 7).unwrap();
    assert_eq!(
        sale.delivery,
        EsdtTransfer { to: buyer(), token: token(), nonce: 7, amount: 5 }
    );
    assert_eq!(sale.proceeds, EgldTransfer { to: owner(), amount: amt(500) });
}

#[test]
fn buy_pays_the_owner_of_the_moment() {
    let contract = shop();
    let later = CallContext { caller: buyer(), owner: address(3), caller_is_user_account: true };
    let sale = contract.buy(&later, amt(100), 1, 7).unwrap();
    assert_eq!(sale.proceeds, EgldTransfer { to: address(3), amount: amt(100) });
    assert_eq!(sale.delivery.to, buyer());
}

#[test]
fn buy_with_change_forwards_the_whole_payment() {
    let contract = shop();
    let sale = contract.buy(&as_buyer(), amt(301), 3, 7).unwrap();
    assert_eq!(
        sale.delivery,
        EsdtTransfer { to: buyer(), token: token(), nonce: 7, amount: 3 }
    );
    assert_eq!(sale.proceeds, EgldTransfer { to: owner(), amount: amt(301) });
    assert!(contract.buy(&as_buyer(), amt(302), 3, 7).is_ok());
    assert_eq!(contract.buy(&as_buyer(), amt(303), 3, 7), Err(ContractError::PaymentMismatch));
    assert_eq!(contract.buy(&as_buyer(), amt(299), 3, 7), Err(ContractError::PaymentMismatch));
}

#[test]
fn buy_checks_in_order() {
    let contract = shop();
    let from_contract =
        CallContext { caller: buyer(), owner: owner(), caller_is_user_account: false };
    assert_eq!(Contract::new().buy(&from_contract, amt(0), 0, 8), Err(ContractError::Unauthorized));
    assert_eq!(Contract::new().buy(&as_buyer(), amt(0), 0, 8), Err(ContractError::NotInitialized));
    assert_eq!(contract.buy(&as_buyer(), amt(0), 0, 8), Err(ContractError::UnknownEdition));
    assert_eq!(contract.buy(&as_buyer(), amt(0), 0, 7), Err(ContractError::QuantityTooLow));
    assert_eq!(contract.buy(&as_buyer(), amt(0), 6, 7), Err(ContractError::QuantityExceedsCap));
    assert_eq!(contract.buy(&as_buyer(), amt(600), 6, 7), Err(ContractError::QuantityExceedsCap));
    assert_eq!(contract.buy(&as_buyer(), amt(0), 5, 7), Err(ContractError::PaymentMismatch));
    assert_eq!(contract.buy(&as_buyer(), amt(505), 5, 7), Err(ContractError::PaymentMismatch));
    assert!(contract.buy(&as_buyer(), amt(100), 1, 7).is_ok());
    assert!(contract.buy(&as_owner(), amt(200), 2, 7).is_ok());
}

#[test]
fn buy_of_a_free_edition() {
    let mut contract = issued();
    mint(&mut contract, 1, b"Free", 0, u128::MAX);
    let sale = contract.buy(&as_buyer(), amt(0), u32::MAX, 1).unwrap();
    assert_eq!(sale.delivery.amount, 4_294_967_295);
    assert_eq!(sale.proceeds.amount, amt(0));
    assert!(contract.buy(&as_buyer(), amt(4_294_967_294), u32::MAX, 1).is_ok());
    assert_eq!(
        contract.buy(&as_buyer(), amt(4_294_967_295), u32::MAX, 1),
        Err(ContractError::PaymentMismatch)
    );
}

#[test]
fn buy_community_hands_out_250() {
    let contract = shop();
    let transfer = contract.buy_community(&as_owner(), 7).unwrap();
    assert_eq!(transfer, EsdtTransfer { to: owner(), token: token(), nonce: 7, amount: 250 });
}

#[test]
fn buy_community_checks_in_order() {
    assert_eq!(Contract::new().buy_community(&as_buyer(), 7), Err(ContractError::Unauthorized));
    assert_eq!(Contract::new().buy_community(&as_owner(), 7), Err(ContractError::NotInitialized));
    assert_eq!(shop().buy_community(&as_owner(), 8), Err(ContractError::UnknownEdition));
    assert_eq!(shop().buy_community(&as_buyer(), 7), Err(ContractError::Unauthorized));
}

#[test]
fn claim_twice_sends_the_balance_once() {
    let contract = shop();
    let mut balance: u128 = 1234;
    let first = contract.claim_sc_funds(&as_owner(), amt(balance)).unwrap();
    assert_eq!(first, EgldTransfer { to: owner(), amount: amt(1234) });
    balance -= first.amount.to_u128().unwrap();
    let second = contract.claim_sc_funds(&as_owner(), amt(balance)).unwrap();
    assert_eq!(second, EgldTransfer { to: owner(), amount: amt(0) });
}

#[test]
fn claim_is_for_the_owner() {
    assert_eq!(shop().claim_sc_funds(&as_buyer(), amt(10)), Err(ContractError::Unauthorized));
    assert_eq!(
        Contract::new().claim_sc_funds(&as_owner(), amt(10)),
        Ok(EgldTransfer { to: owner(), amount: amt(10) })
    );
}

#[test]
fn store_price_tag_replaces_a_tag() {
    let mut contract = shop();
    mint(&mut contract, 7, b"Again", 9, 2);
    assert_eq!(contract.get_price(7), Ok(amt(9)));
    assert_eq!(contract.get_token_display_name(7), Ok(b"Again".to_vec()));
    assert_eq!(contract.get_max_amount_per_address(7), Ok(amt(2)));
}

#[test]
fn restore_brings_back_the_state() {
    let tags = vec![
        TokenPriceTag {
            display_name: b"Seven".to_vec(),
            nonce: 7,
            price: amt(100),
            max_per_address: amt(5),
        },
        TokenPriceTag {
            display_name: b"Nine".to_vec(),
            nonce: 9,
            price: amt(1),
            max_per_address: amt(2),
        },
        TokenPriceTag {
            display_name: b"Late".to_vec(),
            nonce: 7,
            price: amt(3),
            max_per_address: amt(4),
        },
    ];
    let contract = Contract::restore(token(), b"Coll".to_vec(), &tags);
    assert_eq!(contract.collection_token_id(), &token());
    assert_eq!(contract.collection_token_name(), &b"Coll".to_vec());
    assert_eq!(contract.get_price(9), Ok(amt(1)));
    assert_eq!(contract.get_price(7), Ok(amt(3)));
    assert_eq!(contract.get_token_display_name(7), Ok(b"Late".to_vec()));
    assert_eq!(contract.get_price(8), Err(ContractError::UnknownEdition));
    let empty = Contract::restore(vec![], vec![], &vec![]);
    assert!(empty.collection_token_id().is_empty());
    assert_eq!(empty.buy(&as_buyer(), amt(1), 1, 1), Err(ContractError::NotInitialized));
}

#[test]
fn buy_with_amounts_beyond_machine_integers() {
    let mut contract = issued();
    let price = Amount::from_bytes_be(vec![1, 0, 0, 0, 0, 0, 0, 0, 0, 0, 0, 0, 0, 0, 0, 0, 0, 0, 0, 0]);
    let request = contract
        .create_token(
            &as_owner(),
            b"Dear".to_vec(),
            price.copy(),
            &b"cid".to_vec(),
            &b"file".to_vec(),
            Amount::from_bytes_be(vec![255; 40]),
            Amount::from_bytes_be(vec![255; 40]),
            amt(0),
            &b"t".to_vec(),
            vec![],
        )
        .unwrap();
    contract.store_price_tag(3, request);
    assert_eq!(contract.get_price(3), Ok(price.copy()));
    assert_eq!(contract.get_price(3).unwrap().to_u128(), None);
    let double = Amount::from_bytes_be(vec![2, 0, 0, 0, 0, 0, 0, 0, 0, 0, 0, 0, 0, 0, 0, 0, 0, 0, 0, 0]);
    let sale = contract.buy(&as_buyer(), double.copy(), 2, 3).unwrap();
    assert_eq!(sale.delivery.amount, 2);
    assert_eq!(sale.proceeds.amount, double);
    let with_change =
        Amount::from_bytes_be(vec![2, 0, 0, 0, 0, 0, 0, 0, 0, 0, 0, 0, 0, 0, 0, 0, 0, 0, 0, 1]);
    assert!(contract.buy(&as_buyer(), with_change, 2, 3).is_ok());
    let short =
        Amount::from_bytes_be(vec![1, 255, 255, 255, 255, 255, 255, 255, 255, 255, 255, 255, 255, 255, 255, 255, 255, 255, 255, 255]);
    assert_eq!(contract.buy(&as_buyer(), short, 2, 3), Err(ContractError::PaymentMismatch));
    assert!(contract.buy(&as_buyer(), price, 1, 3).is_ok());
}

#[test]
fn a_later_answer_leaves_the_collection() {
    let mut contract = issued();
    assert_eq!(contract.issue_callback(owner(), IssueResult::Issued(b"LATE-123456".to_vec())), None);
    assert_eq!(contract.collection_token_id(), &token());
    assert_eq!(contract.issue_callback(owner(), IssueResult::Issued(vec![])), None);
    assert_eq!(contract.collection_token_id(), &token());
    assert!(contract.set_local_roles(&as_owner(), contract_address()).is_ok());
}

#[test]
fn the_first_of_two_answers_counts() {
    let mut contract = Contract::new();
    assert!(contract.issue_token(&as_owner(), amt(5), b"One".to_vec(), b"ONE".to_vec()).is_ok());
    assert!(contract.issue_token(&as_owner(), amt(5), b"Two".to_vec(), b"TWO".to_vec()).is_ok());
    assert_eq!(contract.issue_callback(owner(), IssueResult::Issued(b"ONE-111111".to_vec())), None);
    assert_eq!(contract.issue_callback(owner(), IssueResult::Issued(b"TWO-222222".to_vec())), None);
    assert_eq!(contract.collection_token_id(), &b"ONE-111111".to_vec());
}

#[test]
fn issue_token_after_a_refusal() {
    let mut contract = Contract::new();
    assert!(contract.issue_token(&as_owner(), amt(5), b"One".to_vec(), b"ONE".to_vec()).is_ok());
    let refund = contract.issue_callback(
        owner(),
        IssueResult::Failed(ReturnedPayment { is_egld: true, amount: amt(5) }),
    );
    assert_eq!(refund, Some(EgldTransfer { to: owner(), amount: amt(5) }));
    assert!(contract.issue_token(&as_owner(), amt(5), b"Two".to_vec(), b"TWO".to_vec()).is_ok());
    assert_eq!(contract.collection_token_name(), &b"Two".to_vec());
}
