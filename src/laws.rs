//! Properties of the market that hold across operations, proved over the
//! model that the operations' contracts speak of.

use vstd::prelude::*;

use crate::entities::{AdView, SupplyState};
use crate::market::{lemma_ad, lemma_same_keys, lemma_state_moved, MarketError, MarketView};

verus! {

/// No single operation changes a consumed supply.
pub proof fn lemma_consumed_is_final(m: MarketView, n: MarketView, id: Seq<char>)
    requires
        m.wf(),
        n.wf(),
        m.steps_to(n),
        m.has_supply(id),
        m.supply(id).state == SupplyState::Consumed,
    ensures
        n.has_supply(id),
        n.supply(id) == m.supply(id),
{
    lemma_same_keys(m, n);
    if exists|mk: Seq<char>, sid: Seq<char>| #![trigger m.advertised(mk, sid)]
        m.advertise_check(mk, sid) is Ok && n == m.advertised(mk, sid) {
        let (mk, sid) = choose|mk: Seq<char>, sid: Seq<char>| #![trigger m.advertised(mk, sid)]
            m.advertise_check(mk, sid) is Ok && n == m.advertised(mk, sid);
        lemma_state_moved(m, sid, SupplyState::Marketed);
    } else if exists|b: Seq<char>, ad: AdView| #![trigger m.buy_check(b, ad)]
        m.buy_check(b, ad) is Ok && n == m.bought(ad) {
        let (b, ad) = choose|b: Seq<char>, ad: AdView| #![trigger m.buy_check(b, ad)]
            m.buy_check(b, ad) is Ok && n == m.bought(ad);
        lemma_ad(m, m.ads.index_of(ad));
        assert(m.supplies[m.supply_index(ad.supply)].state != SupplyState::Created);
        lemma_state_moved(m, ad.supply, SupplyState::Consumed);
    } else {
        let i = m.supply_index(id);
        assert(n.supplies[i] == m.supplies[i]);
    }
}

/// Once a supply is consumed, it stays as it is through any later sequence
/// of operations.
pub proof fn lemma_consumed_stays_consumed(run: Seq<MarketView>, a: int, b: int, id: Seq<char>)
    requires
        forall|i: int| 0 <= i < run.len() ==> (#[trigger] run[i]).wf(),
        forall|i: int| 0 <= i < run.len() - 1 ==> (#[trigger] run[i]).steps_to(run[i + 1]),
        0 <= a <= b < run.len(),
        run[a].has_supply(id),
        run[a].supply(id).state == SupplyState::Consumed,
    ensures
        run[b].has_supply(id),
        run[b].supply(id) == run[a].supply(id),
    decreases b - a,
{
    if b > a {
        lemma_consumed_stays_consumed(run, a, b - 1, id);
        assert(run[b - 1].steps_to(run[b]));
        lemma_consumed_is_final(run[b - 1], run[b], id);
    }
}

/// Advertising a consumed supply is refused as an invalid transition.
pub proof fn lemma_consumed_not_advertised(m: MarketView, marketer: Seq<char>, id: Seq<char>)
    requires
        m.wf(),
        m.has_marketer(marketer),
        m.has_supply(id),
        m.supply(id).state == SupplyState::Consumed,
    ensures
        m.advertise_check(marketer, id) == Err::<(), MarketError>(MarketError::InvalidTransition),
{
    let i = m.supply_index(id);
    assert(m.supplies[i].state != SupplyState::Created);
}

/// A supply without items is never advertised.
pub proof fn lemma_no_phantom_advertisement(m: MarketView, marketer: Seq<char>, id: Seq<char>)
    requires
        m.has_supply(id),
        m.supply(id).available_items == 0,
    ensures
        m.advertise_check(marketer, id) is Err,
{
}

/// Every published advertisement names a supply with items.
pub proof fn lemma_advertised_supply_stocked(m: MarketView, ad: AdView)
    requires
        m.wf(),
        m.has_ad(ad),
    ensures
        m.supply(ad.supply).available_items > 0,
{
    lemma_ad(m, m.ads.index_of(ad));
    assert(m.supplies[m.supply_index(ad.supply)].state != SupplyState::Created);
}

/// After an advertisement has been bought, buying it again, by any
/// registered buyer, is refused as an invalid transition.
pub proof fn lemma_single_resolution(m: MarketView, first: Seq<char>, second: Seq<char>, ad: AdView)
    requires
        m.wf(),
        m.buy_check(first, ad) is Ok,
        m.has_buyer(second),
    ensures
        m.bought(ad).buy_check(second, ad) == Err::<(), MarketError>(MarketError::InvalidTransition),
{
    lemma_ad(m, m.ads.index_of(ad));
    assert(m.supplies[m.supply_index(ad.supply)].state != SupplyState::Created);
    lemma_state_moved(m, ad.supply, SupplyState::Consumed);
}

/// A successful purchase names a registered buyer and a published
/// advertisement that was live at the time.
pub proof fn lemma_transaction_refers(m: MarketView, buyer: Seq<char>, ad: AdView)
    requires
        m.buy_check(buyer, ad) is Ok,
    ensures
        m.has_buyer(buyer),
        m.has_ad(ad),
        m.is_live(ad),
        m.live_ads().contains(ad),
{
    let k = m.ads.index_of(ad);
    m.ads.lemma_filter_contains(m.live_filter(), k);
}

/// A purchase consumes its own supply and changes no other.
pub proof fn lemma_purchase_is_local(m: MarketView, buyer: Seq<char>, ad: AdView, other: Seq<char>)
    requires
        m.wf(),
        m.buy_check(buyer, ad) is Ok,
        m.has_supply(other),
        other != ad.supply,
    ensures
        m.bought(ad).supply(ad.supply).state == SupplyState::Consumed,
        m.bought(ad).supply(other) == m.supply(other),
{
    lemma_ad(m, m.ads.index_of(ad));
    assert(m.supplies[m.supply_index(ad.supply)].state != SupplyState::Created);
    lemma_state_moved(m, ad.supply, SupplyState::Consumed);
}

/// Enumerating the live advertisements of an unchanged store gives the same
/// advertisements each time.
pub proof fn lemma_enumeration_stable(m: MarketView, n: MarketView)
    requires
        m == n,
    ensures
        m.live_ads() == n.live_ads(),
        m.live_ads().to_set() == n.live_ads().to_set(),
{
}

} // verus!
