//! The contract's persistent state and its mathematical model.

use crate::bytes::copy_bytes;
use crate::types::{ContractError, TokenPriceTag};
use std::collections::HashMap;
use vstd::prelude::*;

verus! {

/// A price tag as a mathematical value.
pub struct PriceTagModel {
    pub display_name: Seq<u8>,
    pub nonce: u64,
    pub price: nat,
    pub max_per_address: nat,
}

impl View for TokenPriceTag {
    type V = PriceTagModel;

    open spec fn view(&self) -> PriceTagModel {
        PriceTagModel {
            display_name: self.display_name@,
            nonce: self.nonce,
            price: self.price@,
            max_per_address: self.max_per_address@,
        }
    }
}

/// The persistent state as a mathematical value: the collection's identifier
/// (empty until the registry has issued it), the name it was asked for under,
/// and the price tag of each minted edition.
pub struct State {
    pub collection_token_id: Seq<u8>,
    pub collection_token_name: Seq<u8>,
    pub price_tags: Map<u64, PriceTagModel>,
}

impl State {
    /// The state of a contract that has done nothing yet.
    pub open spec fn initial() -> State {
        State {
            collection_token_id: Seq::empty(),
            collection_token_name: Seq::empty(),
            price_tags: Map::empty(),
        }
    }

    /// Whether the collection's identifier is known.
    pub open spec fn is_issued(self) -> bool {
        self.collection_token_id.len() > 0
    }

    /// Whether an edition with this id has been minted.
    pub open spec fn has_edition(self, token_id: u64) -> bool {
        self.price_tags.contains_key(token_id)
    }

    /// Every price tag carries the id under which it is kept.
    pub open spec fn well_formed(self) -> bool {
        forall|token_id: u64| #[trigger]
            self.price_tags.contains_key(token_id) ==> self.price_tags[token_id].nonce == token_id
    }

    /// The state with `name` as the collection's name.
    pub open spec fn with_name(self, name: Seq<u8>) -> State {
        State { collection_token_name: name, ..self }
    }

    /// The state with `token` as the collection's identifier.
    pub open spec fn with_collection(self, token: Seq<u8>) -> State {
        State { collection_token_id: token, ..self }
    }

    /// The state with a price tag for the edition `nonce`, in place of any
    /// that was there.
    pub open spec fn with_price_tag(
        self,
        nonce: u64,
        display_name: Seq<u8>,
        price: nat,
        max_per_address: nat,
    ) -> State {
        State {
            price_tags: self.price_tags.insert(
                nonce,
                PriceTagModel { display_name, nonce, price, max_per_address },
            ),
            ..self
        }
    }

    /// The price of one token of an edition.
    pub open spec fn price_of(self, token_id: u64) -> Result<nat, ContractError> {
        if self.has_edition(token_id) {
            Ok(self.price_tags[token_id].price)
        } else {
            Err(ContractError::UnknownEdition)
        }
    }

    /// The name an edition is shown under.
    pub open spec fn display_name_of(self, token_id: u64) -> Result<Seq<u8>, ContractError> {
        if self.has_edition(token_id) {
            Ok(self.price_tags[token_id].display_name)
        } else {
            Err(ContractError::UnknownEdition)
        }
    }

    /// The most tokens of an edition that one purchase may hold.
    pub open spec fn max_per_address_of(self, token_id: u64) -> Result<nat, ContractError> {
        if self.has_edition(token_id) {
            Ok(self.price_tags[token_id].max_per_address)
        } else {
            Err(ContractError::UnknownEdition)
        }
    }
}

/// The price tags that a list of stored tags stands for, each under its own
/// nonce. Where two carry one nonce, the later one counts.
pub open spec fn restored_tags(tags: Seq<TokenPriceTag>) -> Map<u64, PriceTagModel>
    decreases tags.len(),
{
    if tags.len() == 0 {
        Map::empty()
    } else {
        restored_tags(tags.drop_last()).insert(tags.last().nonce, tags.last()@)
    }
}

/// Read access to the persistent state.
pub trait Storage {
    /// The state as a mathematical value.
    spec fn state(&self) -> State;

    /// The collection's identifier; empty while it has not been issued.
    fn collection_token_id(&self) -> (token: &Vec<u8>)
        ensures
            token@ == self.state().collection_token_id,
    ;

    /// The name that the collection was last asked for under.
    fn collection_token_name(&self) -> (name: &Vec<u8>)
        ensures
            name@ == self.state().collection_token_name,
    ;

    /// The price tag of an edition, if it has been minted.
    fn token_price_tag(&self, token_id: u64) -> (tag: Option<&TokenPriceTag>)
        ensures
            match tag {
                Some(found) => self.state().has_edition(token_id) && found@
                    == self.state().price_tags[token_id],
                None => !self.state().has_edition(token_id),
            },
    ;
}

/// The persistent state of one contract.
pub struct Contract {
    collection_token_id: Vec<u8>,
    collection_token_name: Vec<u8>,
    price_tags: HashMap<u64, TokenPriceTag>,
}

impl Contract {
    /// A contract without a collection and without editions.
    pub fn new() -> (contract: Contract)
        ensures
            contract.state() == State::initial(),
    {
        let contract = Contract {
            collection_token_id: Vec::new(),
            collection_token_name: Vec::new(),
            price_tags: HashMap::new(),
        };
        assert(contract.price_tags@.map_values(|tag: TokenPriceTag| tag@) =~= Map::empty());
        contract
    }

    /// The contract as it was stored: with the collection's identifier and
    /// name, and with each of `price_tags` under its own nonce.
    pub fn restore(
        collection_token_id: Vec<u8>,
        collection_token_name: Vec<u8>,
        price_tags: &Vec<TokenPriceTag>,
    ) -> (contract: Contract)
        ensures
            contract.state() == (State {
                collection_token_id: collection_token_id@,
                collection_token_name: collection_token_name@,
                price_tags: restored_tags(price_tags@),
            }),
    {
        let mut contract = Contract {
            collection_token_id,
            collection_token_name,
            price_tags: HashMap::new(),
        };
        assert(contract.price_tags@.map_values(|tag: TokenPriceTag| tag@) =~= Map::empty());
        let mut i: usize = 0;
        while i < price_tags.len()
            invariant
                i <= price_tags.len(),
                contract.state() == (State {
                    collection_token_id: collection_token_id@,
                    collection_token_name: collection_token_name@,
                    price_tags: restored_tags(price_tags@.subrange(0, i as int)),
                }),
            decreases price_tags.len() - i,
        {
            let tag = &price_tags[i];
            contract.set_token_price_tag(
                TokenPriceTag {
                    display_name: copy_bytes(&tag.display_name),
                    nonce: tag.nonce,
                    price: tag.price.copy(),
                    max_per_address: tag.max_per_address.copy(),
                },
            );
            i += 1;
            assert(price_tags@.subrange(0, i as int).drop_last() =~= price_tags@.subrange(
                0,
                i - 1,
            ));
        }
        assert(price_tags@.subrange(0, price_tags.len() as int) =~= price_tags@);
        contract
    }

    /// Keeps `token` as the collection's identifier.
    pub(crate) fn set_collection_token_id(&mut self, token: Vec<u8>)
        ensures
            final(self).state() == old(self).state().with_collection(token@),
    {
        self.collection_token_id = token;
    }

    /// Keeps `name` as the collection's name.
    pub(crate) fn set_collection_token_name(&mut self, name: Vec<u8>)
        ensures
            final(self).state() == old(self).state().with_name(name@),
    {
        self.collection_token_name = name;
    }

    /// Keeps `tag` as the price tag of the edition `tag.nonce`.
    pub(crate) fn set_token_price_tag(&mut self, tag: TokenPriceTag)
        ensures
            final(self).state() == old(self).state().with_price_tag(
                tag.nonce,
                tag.display_name@,
                tag.price@,
                tag.max_per_address@,
            ),
    {
        let ghost before = self.price_tags@;
        let ghost model = tag@;
        self.price_tags.insert(tag.nonce, tag);
        assert(self.price_tags@.map_values(|tag: TokenPriceTag| tag@) =~= before.map_values(
            |tag: TokenPriceTag| tag@,
        ).insert(model.nonce, model));
    }
}

impl Storage for Contract {
    closed spec fn state(&self) -> State {
        State {
            collection_token_id: self.collection_token_id@,
            collection_token_name: self.collection_token_name@,
            price_tags: self.price_tags@.map_values(|tag: TokenPriceTag| tag@),
        }
    }

    fn collection_token_id(&self) -> (token: &Vec<u8>) {
        &self.collection_token_id
    }

    fn collection_token_name(&self) -> (name: &Vec<u8>) {
        &self.collection_token_name
    }

    fn token_price_tag(&self, token_id: u64) -> (tag: Option<&TokenPriceTag>) {
        self.price_tags.get(&token_id)
    }
}

} // verus!
