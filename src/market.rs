//! The market store: the single owner of all participants and supplies, and
//! the only place where a supply's lifecycle state changes.

use vstd::prelude::*;

use crate::entities::{
    Ad, AdView, Buyer, EntityView, Marketer, Provider, Supply, SupplyState, SupplyView, Transaction,
    TransactionView,
};
use crate::draw::draw_below;
use crate::ids::{
    lemma_supply_key_injective, supply_key, supply_key_text, BuyerId, MarketerId, ProviderId,
    SupplyId,
};

verus! {

/// Why a market operation was refused.
#[derive(Clone, Copy, Debug, PartialEq, Eq, Structural)]
pub enum MarketError {
    /// A participant with this identifier is already registered.
    DuplicateId,
    UnknownProvider,
    UnknownMarketer,
    UnknownBuyer,
    UnknownSupply,
    UnknownAdvertisement,
    /// The supply has no items to advertise.
    SupplyNotAvailable,
    /// The supply is not in the state the requested step starts from.
    InvalidTransition,
}

/// Whether some record of `s` has identifier `id`.
pub open spec fn has_entity(s: Seq<EntityView>, id: Seq<char>) -> bool {
    exists|i: int| 0 <= i < s.len() && #[trigger] s[i].id == id
}

/// Whether no two records of `s` share an identifier.
pub open spec fn ids_unique(s: Seq<EntityView>) -> bool {
    forall|i: int, j: int|
        0 <= i < s.len() && 0 <= j < s.len() && i != j ==> #[trigger] s[i].id != #[trigger] s[j].id
}

/// The contents of a market store.
pub struct MarketView {
    pub providers: Seq<EntityView>,
    pub marketers: Seq<EntityView>,
    pub buyers: Seq<EntityView>,
    /// Supplies in order of creation.
    pub supplies: Seq<SupplyView>,
    /// Advertisements in order of publication.
    pub ads: Seq<AdView>,
}

impl MarketView {
    pub open spec fn has_provider(self, id: Seq<char>) -> bool {
        has_entity(self.providers, id)
    }

    pub open spec fn has_marketer(self, id: Seq<char>) -> bool {
        has_entity(self.marketers, id)
    }

    pub open spec fn has_buyer(self, id: Seq<char>) -> bool {
        has_entity(self.buyers, id)
    }

    pub open spec fn has_supply(self, id: Seq<char>) -> bool {
        exists|i: int| 0 <= i < self.supplies.len() && #[trigger] self.supplies[i].id == id
    }

    /// Where the supply with identifier `id` stands, if there is one.
    pub open spec fn supply_index(self, id: Seq<char>) -> int {
        choose|i: int| 0 <= i < self.supplies.len() && #[trigger] self.supplies[i].id == id
    }

    /// The supply with identifier `id`, if there is one.
    pub open spec fn supply(self, id: Seq<char>) -> SupplyView {
        self.supplies[self.supply_index(id)]
    }

    pub open spec fn has_ad(self, ad: AdView) -> bool {
        self.ads.contains(ad)
    }

    /// The `i`-th supply carries the `i`-th allocated identifier.
    pub open spec fn keys_allocated(self) -> bool {
        forall|i: int| 0 <= i < self.supplies.len() ==> #[trigger] self.supplies[i].id == supply_key(i as nat)
    }

    /// Every supply belongs to a registered provider.
    pub open spec fn supplies_owned(self) -> bool {
        forall|i: int| 0 <= i < self.supplies.len() ==> self.has_provider(#[trigger] self.supplies[i].provider)
    }

    /// Every advertisement names a registered marketer and an existing supply
    /// that has left `Created`.
    pub open spec fn ads_refer(self) -> bool {
        forall|k: int| #![trigger self.ads[k]] 0 <= k < self.ads.len() ==> {
            &&& self.has_marketer(self.ads[k].marketer)
            &&& self.has_supply(self.ads[k].supply)
            &&& self.supply(self.ads[k].supply).state != SupplyState::Created
        }
    }

    /// A supply that has left `Created` has items.
    pub open spec fn supplies_stocked(self) -> bool {
        forall|i: int| 0 <= i < self.supplies.len() && #[trigger] self.supplies[i].state != SupplyState::Created
            ==> self.supplies[i].available_items > 0
    }

    /// No two advertisements name the same supply.
    pub open spec fn ads_distinct(self) -> bool {
        forall|k: int, l: int|
            0 <= k < self.ads.len() && 0 <= l < self.ads.len() && k != l ==> #[trigger] self.ads[k].supply
                != #[trigger] self.ads[l].supply
    }

    /// The store's invariant: identifiers are unique, and every supply and
    /// advertisement refers to registered participants and existing supplies.
    /// A supply leaves `Created` only with items, an advertisement exists only
    /// for a supply that has left `Created`, and no two advertisements name
    /// the same supply.
    pub open spec fn wf(self) -> bool {
        &&& ids_unique(self.providers)
        &&& ids_unique(self.marketers)
        &&& ids_unique(self.buyers)
        &&& self.keys_allocated()
        &&& self.supplies_owned()
        &&& self.supplies_stocked()
        &&& self.ads_refer()
        &&& self.ads_distinct()
    }

    /// The outcome that advertising supply `supply` on behalf of `marketer` has.
    pub open spec fn advertise_check(self, marketer: Seq<char>, supply: Seq<char>) -> Result<(), MarketError> {
        if !self.has_marketer(marketer) {
            Err(MarketError::UnknownMarketer)
        } else if !self.has_supply(supply) {
            Err(MarketError::UnknownSupply)
        } else if self.supply(supply).available_items == 0 {
            Err(MarketError::SupplyNotAvailable)
        } else if self.supply(supply).state != SupplyState::Created {
            Err(MarketError::InvalidTransition)
        } else {
            Ok(())
        }
    }

    /// The store with the supply `id` moved to `state`.
    pub open spec fn with_state(self, id: Seq<char>, state: SupplyState) -> MarketView {
        MarketView {
            supplies: self.supplies.update(self.supply_index(id), SupplyView { state, ..self.supply(id) }),
            ..self
        }
    }

    /// The store after a successful advertisement.
    pub open spec fn advertised(self, marketer: Seq<char>, supply: Seq<char>) -> MarketView {
        let moved = self.with_state(supply, SupplyState::Marketed);
        MarketView { ads: moved.ads.push(AdView { marketer, supply }), ..moved }
    }

    /// The outcome that buyer `buyer` accepting advertisement `ad` has.
    pub open spec fn buy_check(self, buyer: Seq<char>, ad: AdView) -> Result<(), MarketError> {
        if !self.has_buyer(buyer) {
            Err(MarketError::UnknownBuyer)
        } else if !self.has_ad(ad) {
            Err(MarketError::UnknownAdvertisement)
        } else if self.supply(ad.supply).state != SupplyState::Marketed {
            Err(MarketError::InvalidTransition)
        } else {
            Ok(())
        }
    }

    /// The store after a successful purchase.
    pub open spec fn bought(self, ad: AdView) -> MarketView {
        self.with_state(ad.supply, SupplyState::Consumed)
    }

    /// `next` is what one market operation can make of this store: a refused
    /// operation leaves it as it is; the others register a participant under
    /// a new identifier, add a new supply, advertise or buy.
    pub open spec fn steps_to(self, next: MarketView) -> bool {
        ||| next == self
        ||| (exists|e: EntityView| #![trigger self.providers.push(e)]
            !self.has_provider(e.id) && next == (MarketView { providers: self.providers.push(e), ..self }))
        ||| (exists|e: EntityView| #![trigger self.marketers.push(e)]
            !self.has_marketer(e.id) && next == (MarketView { marketers: self.marketers.push(e), ..self }))
        ||| (exists|e: EntityView| #![trigger self.buyers.push(e)]
            !self.has_buyer(e.id) && next == (MarketView { buyers: self.buyers.push(e), ..self }))
        ||| (exists|s: SupplyView| #![trigger self.supplies.push(s)]
            s.state == SupplyState::Created && next == (MarketView { supplies: self.supplies.push(s), ..self }))
        ||| (exists|m: Seq<char>, id: Seq<char>| #![trigger self.advertised(m, id)]
            self.advertise_check(m, id) is Ok && next == self.advertised(m, id))
        ||| (exists|b: Seq<char>, ad: AdView| #![trigger self.buy_check(b, ad)]
            self.buy_check(b, ad) is Ok && next == self.bought(ad))
    }

    /// Whether the advertisement's supply is still on the market.
    pub open spec fn is_live(self, ad: AdView) -> bool {
        self.supply(ad.supply).state == SupplyState::Marketed
    }

    pub open spec fn live_filter(self) -> spec_fn(AdView) -> bool {
        |ad: AdView| self.is_live(ad)
    }

    /// The live advertisements, in order of publication.
    pub open spec fn live_ads(self) -> Seq<AdView> {
        self.ads.filter(self.live_filter())
    }
}

/// Under the allocation scheme, the supply at position `i` is the one its
/// identifier designates.
pub proof fn lemma_supply_index(m: MarketView, i: int)
    requires
        m.keys_allocated(),
        0 <= i < m.supplies.len(),
    ensures
        m.has_supply(m.supplies[i].id),
        m.supply_index(m.supplies[i].id) == i,
{
    let id = m.supplies[i].id;
    assert(m.supplies[i].id == id);
    let j = m.supply_index(id);
    lemma_supply_key_injective(i as nat, j as nat);
}

/// Appending a record with a new identifier keeps identifiers unique and
/// every identifier that was present.
pub proof fn lemma_entity_push(s: Seq<EntityView>, e: EntityView)
    requires
        ids_unique(s),
        !has_entity(s, e.id),
    ensures
        ids_unique(s.push(e)),
        forall|x: Seq<char>| has_entity(s, x) ==> #[trigger] has_entity(s.push(e), x),
        has_entity(s.push(e), e.id),
{
    let t = s.push(e);
    assert(t[s.len() as int].id == e.id);
    assert forall|x: Seq<char>| has_entity(s, x) implies #[trigger] has_entity(t, x) by {
        let i = choose|i: int| 0 <= i < s.len() && #[trigger] s[i].id == x;
        assert(t[i].id == x);
    }
    assert forall|i: int, j: int| 0 <= i < t.len() && 0 <= j < t.len() && i != j implies #[trigger] t[i].id
        != #[trigger] t[j].id by {
        if i < s.len() && j < s.len() {
            assert(s[i].id != s[j].id);
        } else if i < s.len() {
            assert(s[i].id == t[i].id);
        } else {
            assert(s[j].id == t[j].id);
        }
    }
}

/// What the invariant says of the `k`-th advertisement.
pub proof fn lemma_ad(m: MarketView, k: int)
    requires
        m.wf(),
        0 <= k < m.ads.len(),
    ensures
        m.has_marketer(m.ads[k].marketer),
        m.has_supply(m.ads[k].supply),
        0 <= m.supply_index(m.ads[k].supply) < m.supplies.len(),
        m.supplies[m.supply_index(m.ads[k].supply)].id == m.ads[k].supply,
        m.supply(m.ads[k].supply).state != SupplyState::Created,
{
    assert(m.ads[k] == m.ads[k]);
}

/// A store whose first supplies carry the identifiers of `a`'s finds each of
/// `a`'s supplies at the same position.
pub proof fn lemma_same_keys(a: MarketView, b: MarketView)
    requires
        a.keys_allocated(),
        b.keys_allocated(),
        a.supplies.len() <= b.supplies.len(),
    ensures
        forall|x: Seq<char>| #[trigger] a.has_supply(x) ==> b.has_supply(x) && b.supply_index(x) == a.supply_index(x),
{
    assert forall|x: Seq<char>| #[trigger] a.has_supply(x) implies b.has_supply(x) && b.supply_index(x)
        == a.supply_index(x) by {
        let i = a.supply_index(x);
        lemma_supply_index(a, i);
        assert(b.supplies[i].id == x);
        lemma_supply_index(b, i);
    }
}

/// Adding a new supply of a registered provider under the next identifier
/// keeps the store well formed.
proof fn lemma_wf_supply_added(m: MarketView, s: SupplyView)
    requires
        m.wf(),
        s.state == SupplyState::Created,
        m.has_provider(s.provider),
        s.id == supply_key(m.supplies.len()),
    ensures
        (MarketView { supplies: m.supplies.push(s), ..m }).wf(),
{
    let n = MarketView { supplies: m.supplies.push(s), ..m };
    assert(n.supplies[m.supplies.len() as int] == s);
    assert(n.keys_allocated());
    assert(n.supplies_owned());
    assert(n.supplies_stocked()) by {
        assert forall|j: int| 0 <= j < n.supplies.len() && #[trigger] n.supplies[j].state != SupplyState::Created
            implies n.supplies[j].available_items > 0 by {
            if j < m.supplies.len() {
                assert(n.supplies[j] == m.supplies[j]);
            }
        }
    }
    lemma_same_keys(m, n);
    assert forall|k: int| 0 <= k < n.ads.len() implies {
        &&& n.has_marketer(#[trigger] n.ads[k].marketer)
        &&& n.has_supply(n.ads[k].supply)
        &&& n.supply(n.ads[k].supply).state != SupplyState::Created
    } by {
        lemma_ad(m, k);
    }
    assert(n.ads_refer());
}

/// Moving one existing supply to a state other than `Created` keeps
/// identifiers and owners, and finds every supply where it was.
pub proof fn lemma_state_moved(m: MarketView, id: Seq<char>, state: SupplyState)
    requires
        m.wf(),
        m.has_supply(id),
        m.supply(id).available_items > 0,
        state != SupplyState::Created,
    ensures
        ({
            let n = m.with_state(id, state);
            &&& n.keys_allocated()
            &&& n.supplies_owned()
            &&& n.supplies_stocked()
            &&& n.supply(id).state == state
            &&& forall|x: Seq<char>| #[trigger] m.has_supply(x) ==> n.has_supply(x) && (x != id ==> n.supply(x) == m.supply(x))
        }),
{
    let n = m.with_state(id, state);
    let i = m.supply_index(id);
    assert(n.supplies[i].id == m.supplies[i].id);
    assert(n.keys_allocated());
    assert(n.supplies_owned()) by {
        assert forall|j: int| 0 <= j < n.supplies.len() implies n.has_provider(#[trigger] n.supplies[j].provider) by {
            assert(n.supplies[j].provider == m.supplies[j].provider);
        }
    }
    assert(n.supplies_stocked()) by {
        assert forall|j: int| 0 <= j < n.supplies.len() && #[trigger] n.supplies[j].state != SupplyState::Created
            implies n.supplies[j].available_items > 0 by {
            if j != i {
                assert(n.supplies[j] == m.supplies[j]);
            }
        }
    }
    lemma_same_keys(m, n);
    lemma_supply_index(m, i);
    assert forall|x: Seq<char>| #[trigger] m.has_supply(x) implies n.has_supply(x) && (x != id ==> n.supply(x) == m.supply(x)) by {
        let j = m.supply_index(x);
        lemma_supply_index(m, j);
    }
}

/// A successful advertisement keeps the store well formed.
pub proof fn lemma_wf_advertised(m: MarketView, marketer: Seq<char>, supply: Seq<char>)
    requires
        m.wf(),
        m.advertise_check(marketer, supply) is Ok,
    ensures
        m.advertised(marketer, supply).wf(),
{
    let t = m.with_state(supply, SupplyState::Marketed);
    let n = m.advertised(marketer, supply);
    lemma_state_moved(m, supply, SupplyState::Marketed);
    let last = n.ads.len() - 1;
    assert(n.ads[last] == (AdView { marketer, supply }));
    assert forall|k: int| 0 <= k < m.ads.len() implies #[trigger] m.ads[k].supply != supply by {
        lemma_ad(m, k);
    }
    assert(n.ads_refer()) by {
        assert forall|k: int| 0 <= k < n.ads.len() implies #[trigger] n.has_marketer(n.ads[k].marketer) by {
            if k < m.ads.len() {
                assert(n.ads[k] == m.ads[k]);
                lemma_ad(m, k);
            }
        }
    }
    assert(n.ads_distinct());
}

/// A successful purchase keeps the store well formed.
pub proof fn lemma_wf_bought(m: MarketView, buyer: Seq<char>, ad: AdView)
    requires
        m.wf(),
        m.buy_check(buyer, ad) is Ok,
    ensures
        m.bought(ad).wf(),
{
    let n = m.bought(ad);
    let k0 = m.ads.index_of(ad);
    lemma_ad(m, k0);
    assert(m.supplies[m.supply_index(ad.supply)].state != SupplyState::Created);
    lemma_state_moved(m, ad.supply, SupplyState::Consumed);
    assert(n.ads_refer()) by {
        assert forall|k: int| 0 <= k < n.ads.len() implies #[trigger] n.has_marketer(n.ads[k].marketer) by {
            lemma_ad(m, k);
        }
    }
}

/// The participants and supplies of one market, and the operations that move
/// supplies through their lifecycle.
pub struct MarketState {
    providers: Vec<Provider>,
    marketers: Vec<Marketer>,
    buyers: Vec<Buyer>,
    supplies: Vec<Supply>,
    ads: Vec<Ad>,
}

pub open spec fn provider_views(v: Seq<Provider>) -> Seq<EntityView> {
    v.map_values(|p: Provider| p@)
}

pub open spec fn marketer_views(v: Seq<Marketer>) -> Seq<EntityView> {
    v.map_values(|p: Marketer| p@)
}

pub open spec fn buyer_views(v: Seq<Buyer>) -> Seq<EntityView> {
    v.map_values(|p: Buyer| p@)
}

pub open spec fn supply_views(v: Seq<Supply>) -> Seq<SupplyView> {
    v.map_values(|s: Supply| s@)
}

pub open spec fn ad_views(v: Seq<Ad>) -> Seq<AdView> {
    v.map_values(|a: Ad| a@)
}

impl View for MarketState {
    type V = MarketView;

    closed spec fn view(&self) -> MarketView {
        MarketView {
            providers: provider_views(self.providers@),
            marketers: marketer_views(self.marketers@),
            buyers: buyer_views(self.buyers@),
            supplies: supply_views(self.supplies@),
            ads: ad_views(self.ads@),
        }
    }
}

impl MarketState {
    /// An empty market.
    pub fn new() -> (r: Self)
        ensures
            r@.wf(),
            r@.providers.len() == 0,
            r@.marketers.len() == 0,
            r@.buyers.len() == 0,
            r@.supplies.len() == 0,
            r@.ads.len() == 0,
    {
        let r = MarketState {
            providers: Vec::new(),
            marketers: Vec::new(),
            buyers: Vec::new(),
            supplies: Vec::new(),
            ads: Vec::new(),
        };
        assert(r@.supplies.len() == 0);
        r
    }


    /// Adds a provider, refusing one whose identifier is already registered.
    pub fn register_provider(&mut self, provider: Provider) -> (r: Result<(), MarketError>)
        requires
            old(self)@.wf(),
        ensures
            final(self)@.wf(),
            old(self)@.steps_to(final(self)@),
            old(self)@.has_provider(provider@.id) ==> r == Err::<(), MarketError>(MarketError::DuplicateId)
                && final(self)@ == old(self)@,
            !old(self)@.has_provider(provider@.id) ==> r == Ok::<(), MarketError>(())
                && final(self)@ == (MarketView { providers: old(self)@.providers.push(provider@), ..old(self)@ }),
    {
        if self.provider_position(provider.id()).is_some() {
            return Err(MarketError::DuplicateId);
        }
        let ghost before = self@;
        let ghost added = provider@;
        self.providers.push(provider);
        proof {
            assert(self@.providers =~= before.providers.push(added));
            assert(self@ == (MarketView { providers: before.providers.push(added), ..before }));
            lemma_entity_push(before.providers, added);
            assert(before.providers.push(added) == before.providers.push(added));
            assert(self@.ads_refer()) by {
                assert forall|k: int| 0 <= k < self@.ads.len() implies #[trigger] self@.has_marketer(self@.ads[k].marketer) by {
                    lemma_ad(before, k);
                }
            }
        }
        Ok(())
    }

    /// Adds a marketer, refusing one whose identifier is already registered.
    pub fn register_marketer(&mut self, marketer: Marketer) -> (r: Result<(), MarketError>)
        requires
            old(self)@.wf(),
        ensures
            final(self)@.wf(),
            old(self)@.steps_to(final(self)@),
            old(self)@.has_marketer(marketer@.id) ==> r == Err::<(), MarketError>(MarketError::DuplicateId)
                && final(self)@ == old(self)@,
            !old(self)@.has_marketer(marketer@.id) ==> r == Ok::<(), MarketError>(())
                && final(self)@ == (MarketView { marketers: old(self)@.marketers.push(marketer@), ..old(self)@ }),
    {
        if self.marketer_position(marketer.id()).is_some() {
            return Err(MarketError::DuplicateId);
        }
        let ghost before = self@;
        let ghost added = marketer@;
        self.marketers.push(marketer);
        proof {
            assert(self@.marketers =~= before.marketers.push(added));
            assert(self@ == (MarketView { marketers: before.marketers.push(added), ..before }));
            lemma_entity_push(before.marketers, added);
            assert(before.marketers.push(added) == before.marketers.push(added));
            assert(self@.ads_refer()) by {
                assert forall|k: int| 0 <= k < self@.ads.len() implies #[trigger] self@.has_marketer(self@.ads[k].marketer) by {
                    lemma_ad(before, k);
                }
            }
        }
        Ok(())
    }

    /// Adds a buyer, refusing one whose identifier is already registered.
    pub fn register_buyer(&mut self, buyer: Buyer) -> (r: Result<(), MarketError>)
        requires
            old(self)@.wf(),
        ensures
            final(self)@.wf(),
            old(self)@.steps_to(final(self)@),
            old(self)@.has_buyer(buyer@.id) ==> r == Err::<(), MarketError>(MarketError::DuplicateId)
                && final(self)@ == old(self)@,
            !old(self)@.has_buyer(buyer@.id) ==> r == Ok::<(), MarketError>(())
                && final(self)@ == (MarketView { buyers: old(self)@.buyers.push(buyer@), ..old(self)@ }),
    {
        if self.buyer_position(buyer.id()).is_some() {
            return Err(MarketError::DuplicateId);
        }
        let ghost before = self@;
        let ghost added = buyer@;
        self.buyers.push(buyer);
        proof {
            assert(self@.buyers =~= before.buyers.push(added));
            assert(self@ == (MarketView { buyers: before.buyers.push(added), ..before }));
            lemma_entity_push(before.buyers, added);
            assert(before.buyers.push(added) == before.buyers.push(added));
            assert(self@.ads_refer()) by {
                assert forall|k: int| 0 <= k < self@.ads.len() implies #[trigger] self@.has_marketer(self@.ads[k].marketer) by {
                    lemma_ad(before, k);
                }
            }
        }
        Ok(())
    }

    /// Creates a supply of a registered provider, in state `Created`, under a
    /// freshly allocated identifier.
    pub fn create_supply(&mut self, provider_id: &ProviderId, name: String, quantity: u32) -> (r: Result<SupplyId, MarketError>)
        requires
            old(self)@.wf(),
        ensures
            final(self)@.wf(),
            old(self)@.steps_to(final(self)@),
            match r {
                Ok(id) => {
                    &&& old(self)@.has_provider(provider_id@)
                    &&& id@ == supply_key(old(self)@.supplies.len())
                    &&& final(self)@ == (MarketView {
                        supplies: old(self)@.supplies.push(SupplyView {
                            id: id@,
                            provider: provider_id@,
                            name: name@,
                            available_items: quantity,
                            state: SupplyState::Created,
                        }),
                        ..old(self)@
                    })
                },
                Err(e) => {
                    &&& !old(self)@.has_provider(provider_id@)
                    &&& e == MarketError::UnknownProvider
                    &&& final(self)@ == old(self)@
                },
            },
    {
        let p = match self.provider_position(provider_id) {
            None => return Err(MarketError::UnknownProvider),
            Some(p) => p,
        };
        let key = SupplyId(supply_key_text(self.supplies.len()));
        let supply = self.providers[p].creates_supply(key.duplicate(), name, quantity);
        let ghost before = self@;
        let ghost added = supply@;
        self.supplies.push(supply);
        proof {
            assert(self@.supplies =~= before.supplies.push(added));
            assert(self@ == (MarketView { supplies: before.supplies.push(added), ..before }));
            assert(before.providers[p as int].id == provider_id@);
            assert(self@.supplies[before.supplies.len() as int] == added);
            lemma_wf_supply_added(before, added);
            assert(before.supplies.push(added) == before.supplies.push(added));
        }
        Ok(key)
    }


    /// Publishes an advertisement for a supply on behalf of a registered
    /// marketer, moving the supply from `Created` to `Marketed`. Refused when
    /// the marketer or the supply is unknown, when the supply has no items, or
    /// when it has already left `Created`; a refusal changes nothing.
    ///
    /// Any registered marketer may advertise. Since a supply leaves `Created`
    /// only once, each supply is advertised at most once.
    pub fn advertise(&mut self, marketer_id: &MarketerId, supply_id: &SupplyId) -> (r: Result<Ad, MarketError>)
        requires
            old(self)@.wf(),
        ensures
            final(self)@.wf(),
            old(self)@.steps_to(final(self)@),
            match r {
                Ok(ad) => {
                    &&& old(self)@.advertise_check(marketer_id@, supply_id@) == Ok::<(), MarketError>(())
                    &&& ad@ == (AdView { marketer: marketer_id@, supply: supply_id@ })
                    &&& final(self)@ == old(self)@.advertised(marketer_id@, supply_id@)
                },
                Err(e) => {
                    &&& old(self)@.advertise_check(marketer_id@, supply_id@) == Err::<(), MarketError>(e)
                    &&& final(self)@ == old(self)@
                },
            },
    {
        if self.marketer_position(marketer_id).is_none() {
            return Err(MarketError::UnknownMarketer);
        }
        let i = match self.supply_position(supply_id) {
            None => return Err(MarketError::UnknownSupply),
            Some(i) => i,
        };
        proof {
            lemma_supply_index(self@, i as int);
        }
        if !self.supplies[i].has_supply_available() {
            return Err(MarketError::SupplyNotAvailable);
        }
        match self.supplies[i].state() {
            SupplyState::Created => {},
            _ => return Err(MarketError::InvalidTransition),
        }
        let ghost before = self@;
        self.supplies[i].set_state(SupplyState::Marketed);
        let ad = Ad::new(marketer_id.duplicate(), supply_id.duplicate());
        let ghost ad_view = ad@;
        self.ads.push(ad.duplicate());
        proof {
            assert(self@.supplies =~= before.with_state(supply_id@, SupplyState::Marketed).supplies);
            assert(self@.ads =~= before.ads.push(ad_view));
            assert(self@ == before.advertised(marketer_id@, supply_id@));
            lemma_wf_advertised(before, marketer_id@, supply_id@);
            assert(before.advertised(marketer_id@, supply_id@) == before.advertised(marketer_id@, supply_id@));
        }
        Ok(ad)
    }

    /// A registered buyer accepts a published advertisement, moving its supply
    /// from `Marketed` to `Consumed` and recording the transaction. Refused
    /// when the buyer or the advertisement is unknown, or when the supply is
    /// no longer `Marketed`; a refusal changes nothing.
    pub fn buy(&mut self, buyer_id: &BuyerId, ad: &Ad) -> (r: Result<Transaction, MarketError>)
        requires
            old(self)@.wf(),
        ensures
            final(self)@.wf(),
            old(self)@.steps_to(final(self)@),
            match r {
                Ok(t) => {
                    &&& old(self)@.buy_check(buyer_id@, ad@) == Ok::<(), MarketError>(())
                    &&& t@ == (TransactionView { ad: ad@, taker: buyer_id@ })
                    &&& final(self)@ == old(self)@.bought(ad@)
                },
                Err(e) => {
                    &&& old(self)@.buy_check(buyer_id@, ad@) == Err::<(), MarketError>(e)
                    &&& final(self)@ == old(self)@
                },
            },
    {
        if self.buyer_position(buyer_id).is_none() {
            return Err(MarketError::UnknownBuyer);
        }
        let k = match self.ad_position(ad) {
            None => return Err(MarketError::UnknownAdvertisement),
            Some(k) => k,
        };
        proof {
            lemma_ad(self@, k as int);
        }
        let i = match self.supply_position(ad.supply()) {
            None => {
                proof {
                    assert(false);
                }
                return Err(MarketError::UnknownAdvertisement);
            },
            Some(i) => i,
        };
        proof {
            lemma_supply_index(self@, i as int);
        }
        match self.supplies[i].state() {
            SupplyState::Marketed => {},
            _ => return Err(MarketError::InvalidTransition),
        }
        let ghost before = self@;
        self.supplies[i].set_state(SupplyState::Consumed);
        proof {
            assert(self@.supplies =~= before.bought(ad@).supplies);
            assert(self@ == before.bought(ad@));
            lemma_wf_bought(before, buyer_id@, ad@);
            assert(before.buy_check(buyer_id@, ad@) is Ok);
        }
        Ok(Transaction::new(buyer_id.duplicate(), ad.duplicate()))
    }


    /// The advertisements whose supply is still `Marketed`, in order of
    /// publication.
    pub fn live_advertisements(&self) -> (r: Vec<Ad>)
        requires
            self@.wf(),
        ensures
            ad_views(r@) == self@.live_ads(),
    {
        let mut out: Vec<Ad> = Vec::new();
        let mut k: usize = 0;
        while k < self.ads.len()
            invariant
                self@.wf(),
                k <= self.ads.len(),
                ad_views(out@) == self@.ads.take(k as int).filter(self@.live_filter()),
            decreases self.ads.len() - k,
        {
            let ad = &self.ads[k];
            proof {
                lemma_ad(self@, k as int);
                assert(self@.ads.take(k as int + 1) =~= self@.ads.take(k as int).push(self@.ads[k as int]));
                self@.ads.take(k as int).lemma_filter_push(self@.ads[k as int], self@.live_filter());
            }
            let i = match self.supply_position(ad.supply()) {
                None => {
                    proof {
                        assert(false);
                    }
                    return out;
                },
                Some(i) => i,
            };
            proof {
                lemma_supply_index(self@, i as int);
            }
            match self.supplies[i].state() {
                SupplyState::Marketed => {
                    let ghost prev = out@;
                    out.push(ad.duplicate());
                    proof {
                        assert(ad_views(out@) =~= ad_views(prev).push(self@.ads[k as int]));
                    }
                },
                _ => {},
            }
            k += 1;
        }
        proof {
            assert(self@.ads.take(k as int) =~= self@.ads);
        }
        out
    }

    /// The live advertisement at position `draw`, counted modulo their
    /// number; `None` when there is none.
    pub fn select_advertisement(&self, draw: usize) -> (r: Option<Ad>)
        requires
            self@.wf(),
        ensures
            self@.live_ads().len() == 0 ==> r is None,
            self@.live_ads().len() > 0 ==> r is Some && r->0@ == self@.live_ads()[(draw as int) % (self@.live_ads().len() as int)],
    {
        let live = self.live_advertisements();
        if live.len() == 0 {
            return None;
        }
        let ad = live[draw % live.len()].duplicate();
        Some(ad)
    }

    /// A live advertisement picked by `rng`; `None` when there is none.
    pub fn pick_advertisement(&self, rng: &mut rand::rngs::StdRng) -> (r: Option<Ad>)
        requires
            self@.wf(),
        ensures
            self@.live_ads().len() == 0 ==> r is None,
            self@.live_ads().len() > 0 ==> r is Some && self@.live_ads().contains(r->0@),
    {
        let live = self.live_advertisements();
        if live.len() == 0 {
            return None;
        }
        let draw = draw_below(rng, live.len());
        let ad = live[draw].duplicate();
        proof {
            assert(self@.live_ads()[draw as int] == ad@);
        }
        Some(ad)
    }


    /// The registered provider with this identifier.
    pub fn provider(&self, id: &ProviderId) -> (r: Option<&Provider>)
        requires
            self@.wf(),
        ensures
            r is Some <==> self@.has_provider(id@),
            r is Some ==> r->0@.id == id@ && self@.providers.contains(r->0@),
    {
        match self.provider_position(id) {
            None => None,
            Some(i) => Some(&self.providers[i]),
        }
    }

    /// The registered marketer with this identifier.
    pub fn marketer(&self, id: &MarketerId) -> (r: Option<&Marketer>)
        requires
            self@.wf(),
        ensures
            r is Some <==> self@.has_marketer(id@),
            r is Some ==> r->0@.id == id@ && self@.marketers.contains(r->0@),
    {
        match self.marketer_position(id) {
            None => None,
            Some(i) => Some(&self.marketers[i]),
        }
    }

    /// The registered buyer with this identifier.
    pub fn buyer(&self, id: &BuyerId) -> (r: Option<&Buyer>)
        requires
            self@.wf(),
        ensures
            r is Some <==> self@.has_buyer(id@),
            r is Some ==> r->0@.id == id@ && self@.buyers.contains(r->0@),
    {
        match self.buyer_position(id) {
            None => None,
            Some(i) => Some(&self.buyers[i]),
        }
    }

    /// The supply with this identifier.
    pub fn supply(&self, id: &SupplyId) -> (r: Option<&Supply>)
        requires
            self@.wf(),
        ensures
            r is Some <==> self@.has_supply(id@),
            r is Some ==> r->0@ == self@.supply(id@),
    {
        match self.supply_position(id) {
            None => None,
            Some(i) => {
                proof {
                    lemma_supply_index(self@, i as int);
                }
                Some(&self.supplies[i])
            },
        }
    }

    /// All supplies, in order of creation.
    pub fn supplies(&self) -> (r: &Vec<Supply>)
        ensures
            supply_views(r@) == self@.supplies,
    {
        &self.supplies
    }

    /// All advertisements ever published, in order of publication.
    pub fn advertisements(&self) -> (r: &Vec<Ad>)
        ensures
            ad_views(r@) == self@.ads,
    {
        &self.ads
    }

    fn provider_position(&self, id: &ProviderId) -> (r: Option<usize>)
        ensures
            match r {
                Some(i) => i < self@.providers.len() && self@.providers[i as int].id == id@,
                None => !self@.has_provider(id@),
            },
    {
        let mut i: usize = 0;
        while i < self.providers.len()
            invariant
                i <= self.providers.len(),
                forall|j: int| 0 <= j < i ==> self@.providers[j].id != id@,
            decreases self.providers.len() - i,
        {
            if self.providers[i].id().same_as(id) {
                return Some(i);
            }
            i += 1;
        }
        None
    }

    fn marketer_position(&self, id: &MarketerId) -> (r: Option<usize>)
        ensures
            match r {
                Some(i) => i < self@.marketers.len() && self@.marketers[i as int].id == id@,
                None => !self@.has_marketer(id@),
            },
    {
        let mut i: usize = 0;
        while i < self.marketers.len()
            invariant
                i <= self.marketers.len(),
                forall|j: int| 0 <= j < i ==> self@.marketers[j].id != id@,
            decreases self.marketers.len() - i,
        {
            if self.marketers[i].id().same_as(id) {
                return Some(i);
            }
            i += 1;
        }
        None
    }

    fn buyer_position(&self, id: &BuyerId) -> (r: Option<usize>)
        ensures
            match r {
                Some(i) => i < self@.buyers.len() && self@.buyers[i as int].id == id@,
                None => !self@.has_buyer(id@),
            },
    {
        let mut i: usize = 0;
        while i < self.buyers.len()
            invariant
                i <= self.buyers.len(),
                forall|j: int| 0 <= j < i ==> self@.buyers[j].id != id@,
            decreases self.buyers.len() - i,
        {
            if self.buyers[i].id().same_as(id) {
                return Some(i);
            }
            i += 1;
        }
        None
    }

    fn supply_position(&self, id: &SupplyId) -> (r: Option<usize>)
        ensures
            match r {
                Some(i) => i < self@.supplies.len() && self@.supplies[i as int].id == id@,
                None => !self@.has_supply(id@),
            },
    {
        let mut i: usize = 0;
        while i < self.supplies.len()
            invariant
                i <= self.supplies.len(),
                forall|j: int| 0 <= j < i ==> self@.supplies[j].id != id@,
            decreases self.supplies.len() - i,
        {
            if self.supplies[i].id().same_as(id) {
                return Some(i);
            }
            i += 1;
        }
        None
    }

    fn ad_position(&self, ad: &Ad) -> (r: Option<usize>)
        ensures
            match r {
                Some(k) => k < self@.ads.len() && self@.ads[k as int] == ad@,
                None => !self@.has_ad(ad@),
            },
    {
        let mut k: usize = 0;
        while k < self.ads.len()
            invariant
                k <= self.ads.len(),
                forall|j: int| 0 <= j < k ==> self@.ads[j] != ad@,
            decreases self.ads.len() - k,
        {
            if self.ads[k].same_as(ad) {
                return Some(k);
            }
            k += 1;
        }
        None
    }
}

} // verus!
