//! The records a market holds: its participants, its supplies, and the
//! advertisements and transactions that refer to them by identifier.

use vstd::prelude::*;

use crate::ids::{BuyerId, MarketerId, ProviderId, SupplyId};

verus! {

/// What a participant record holds: its identifier and display name.
pub struct EntityView {
    pub id: Seq<char>,
    pub name: Seq<char>,
}

/// Where a supply stands in its lifecycle. It only ever moves forward:
/// `Created`, then `Marketed`, then `Consumed`.
#[derive(Clone, Copy, Debug, PartialEq, Eq, Structural)]
pub enum SupplyState {
    Created,
    Marketed,
    Consumed,
}

/// What a supply record holds.
pub struct SupplyView {
    pub id: Seq<char>,
    pub provider: Seq<char>,
    pub name: Seq<char>,
    pub available_items: u32,
    pub state: SupplyState,
}

/// What an advertisement names: the marketer who published it and the supply.
pub struct AdView {
    pub marketer: Seq<char>,
    pub supply: Seq<char>,
}

/// What a transaction records: the advertisement it resolves and the buyer.
pub struct TransactionView {
    pub ad: AdView,
    pub taker: Seq<char>,
}

/// A participant that manufactures supplies; fixed once created.
#[derive(Clone, Debug)]
pub struct Provider {
    id: ProviderId,
    name: String,
}

impl View for Provider {
    type V = EntityView;

    closed spec fn view(&self) -> EntityView {
        EntityView { id: self.id@, name: self.name@ }
    }
}

impl Provider {
    pub fn new(id: ProviderId, name: String) -> (r: Self)
        ensures
            r@ == (EntityView { id: id@, name: name@ }),
    {
        Provider { id, name }
    }

    pub fn id(&self) -> (r: &ProviderId)
        ensures
            r@ == self@.id,
    {
        &self.id
    }

    pub fn name(&self) -> (r: &str)
        ensures
            r@ == self@.name,
    {
        self.name.as_str()
    }
}

/// A participant that advertises supplies; fixed once created.
#[derive(Clone, Debug)]
pub struct Marketer {
    id: MarketerId,
    name: String,
}

impl View for Marketer {
    type V = EntityView;

    closed spec fn view(&self) -> EntityView {
        EntityView { id: self.id@, name: self.name@ }
    }
}

impl Marketer {
    pub fn new(id: MarketerId, name: String) -> (r: Self)
        ensures
            r@ == (EntityView { id: id@, name: name@ }),
    {
        Marketer { id, name }
    }

    pub fn id(&self) -> (r: &MarketerId)
        ensures
            r@ == self@.id,
    {
        &self.id
    }

    pub fn name(&self) -> (r: &str)
        ensures
            r@ == self@.name,
    {
        self.name.as_str()
    }
}

/// A participant that accepts advertisements; fixed once created.
#[derive(Clone, Debug)]
pub struct Buyer {
    id: BuyerId,
    name: String,
}

impl View for Buyer {
    type V = EntityView;

    closed spec fn view(&self) -> EntityView {
        EntityView { id: self.id@, name: self.name@ }
    }
}

impl Buyer {
    pub fn new(id: BuyerId, name: String) -> (r: Self)
        ensures
            r@ == (EntityView { id: id@, name: name@ }),
    {
        Buyer { id, name }
    }

    pub fn id(&self) -> (r: &BuyerId)
        ensures
            r@ == self@.id,
    {
        &self.id
    }

    pub fn name(&self) -> (r: &str)
        ensures
            r@ == self@.name,
    {
        self.name.as_str()
    }
}

/// A unit of tradeable inventory, owned by a provider. Only its state ever
/// changes, and only through the crate's market operations: a purchase
/// consumes the supply as a whole and leaves `available_items` as it was.
#[derive(Clone, Debug)]
pub struct Supply {
    id: SupplyId,
    provided_by: ProviderId,
    name: String,
    available_items: u32,
    state: SupplyState,
}

impl View for Supply {
    type V = SupplyView;

    closed spec fn view(&self) -> SupplyView {
        SupplyView {
            id: self.id@,
            provider: self.provided_by@,
            name: self.name@,
            available_items: self.available_items,
            state: self.state,
        }
    }
}

impl Supply {
    /// A new supply in state `Created`.
    pub fn new(id: SupplyId, provider_id: ProviderId, name: String, available_items: u32) -> (r: Self)
        ensures
            r@ == (SupplyView {
                id: id@,
                provider: provider_id@,
                name: name@,
                available_items,
                state: SupplyState::Created,
            }),
    {
        Supply { id, provided_by: provider_id, name, available_items, state: SupplyState::Created }
    }

    /// Whether there is at least one item to sell.
    pub fn has_supply_available(&self) -> (r: bool)
        ensures
            r == (self@.available_items > 0),
    {
        self.available_items > 0
    }

    pub(crate) fn set_state(&mut self, state: SupplyState)
        ensures
            final(self)@ == (SupplyView { state, ..old(self)@ }),
    {
        self.state = state;
    }

    pub fn id(&self) -> (r: &SupplyId)
        ensures
            r@ == self@.id,
    {
        &self.id
    }

    pub fn provided_by(&self) -> (r: &ProviderId)
        ensures
            r@ == self@.provider,
    {
        &self.provided_by
    }

    pub fn name(&self) -> (r: &str)
        ensures
            r@ == self@.name,
    {
        self.name.as_str()
    }

    pub fn available_items(&self) -> (r: u32)
        ensures
            r == self@.available_items,
    {
        self.available_items
    }

    pub fn state(&self) -> (r: SupplyState)
        ensures
            r == self@.state,
    {
        self.state
    }
}

impl Provider {
    /// A supply of this provider, in state `Created`.
    pub fn creates_supply(&self, id: SupplyId, name: String, available_items: u32) -> (r: Supply)
        ensures
            r@ == (SupplyView {
                id: id@,
                provider: self@.id,
                name: name@,
                available_items,
                state: SupplyState::Created,
            }),
    {
        Supply::new(id, self.id.duplicate(), name, available_items)
    }
}

/// A marketer's published reference to one supply, by identifier.
#[derive(Clone, Debug, PartialEq, Eq)]
pub struct Ad {
    marketer: MarketerId,
    supply: SupplyId,
}

impl View for Ad {
    type V = AdView;

    closed spec fn view(&self) -> AdView {
        AdView { marketer: self.marketer@, supply: self.supply@ }
    }
}

impl Ad {
    pub fn new(marketer_id: MarketerId, supply_id: SupplyId) -> (r: Self)
        ensures
            r@ == (AdView { marketer: marketer_id@, supply: supply_id@ }),
    {
        Ad { marketer: marketer_id, supply: supply_id }
    }

    pub fn marketer(&self) -> (r: &MarketerId)
        ensures
            r@ == self@.marketer,
    {
        &self.marketer
    }

    pub fn supply(&self) -> (r: &SupplyId)
        ensures
            r@ == self@.supply,
    {
        &self.supply
    }

    /// A second advertisement naming the same marketer and supply.
    pub fn duplicate(&self) -> (r: Self)
        ensures
            r@ == self@,
    {
        Ad { marketer: self.marketer.duplicate(), supply: self.supply.duplicate() }
    }

    /// Whether both name the same marketer and the same supply.
    pub fn same_as(&self, other: &Ad) -> (r: bool)
        ensures
            r == (self@ == other@),
    {
        self.marketer.same_as(&other.marketer) && self.supply.same_as(&other.supply)
    }
}

/// The record of a buyer accepting an advertisement.
#[derive(Clone, Debug, PartialEq, Eq)]
pub struct Transaction {
    ad: Ad,
    taker: BuyerId,
}

impl View for Transaction {
    type V = TransactionView;

    closed spec fn view(&self) -> TransactionView {
        TransactionView { ad: self.ad@, taker: self.taker@ }
    }
}

impl Transaction {
    pub fn new(buyer_id: BuyerId, ad: Ad) -> (r: Self)
        ensures
            r@ == (TransactionView { ad: ad@, taker: buyer_id@ }),
    {
        Transaction { ad, taker: buyer_id }
    }

    pub fn ad(&self) -> (r: &Ad)
        ensures
            r@ == self@.ad,
    {
        &self.ad
    }

    pub fn taker(&self) -> (r: &BuyerId)
        ensures
            r@ == self@.taker,
    {
        &self.taker
    }
}

} // verus!
