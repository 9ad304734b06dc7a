use marketplace::entities::{Ad, Buyer, Marketer, Provider, SupplyState};
use marketplace::ids::{BuyerId, MarketerId, ProviderId, SupplyId};
use marketplace::market::{MarketError, MarketState};
use rand::rngs::StdRng;
use rand::SeedableRng;

fn market_with_participants() -> MarketState {
    let mut market = MarketState::new();
    market
        .register_provider(Provider::new(ProviderId::new("p1"), "Provider name".into()))
        .unwrap();
    market
        .register_marketer(Marketer::new(MarketerId::new("m1"), "Marketer name".into()))
        .unwrap();
    market
        .register_buyer(Buyer::new(BuyerId::new("b1"), "mr buyer".into()))
        .unwrap();
    market
        .register_buyer(Buyer::new(BuyerId::new("b2"), "mrs buyer".into()))
        .unwrap();
    market
}

#[test]
fn it_allows_to_create_transaction_between_market_participants() {
    let mut market = market_with_participants();
    let p1 = ProviderId::new("p1");
    let m1 = MarketerId::new("m1");
    let b1 = BuyerId::new("b1");

    let s1 = market.create_supply(&p1, "amber".into(), 20).unwrap();
    assert_eq!(market.supply(&s1).unwrap().state(), SupplyState::Created);

    let ad1 = market.advertise(&m1, &s1).unwrap();
    assert_eq!(market.supply(&s1).unwrap().state(), SupplyState::Marketed);
    assert_eq!(ad1.marketer(), &m1);
    assert_eq!(ad1.supply(), &s1);

    let tx = market.buy(&b1, &ad1).unwrap();
    assert_eq!(market.supply(&s1).unwrap().state(), SupplyState::Consumed);
    assert_eq!(tx.ad(), &ad1);
    assert_eq!(tx.taker(), &b1);
}

#[test]
fn it_handles_basic_market_setup() {
    let mut market = MarketState::new();
    for name in ["4f", "nike", "adidas"] {
        market
            .register_provider(Provider::new(ProviderId::new(name), name.into()))
            .unwrap();
    }
    let inventory: [(&str, &str, u32); 7] = [
        ("4f", "Winter jacket", 100),
        ("nike", "Football shoes - pair", 100),
        ("nike", "Football pads - pair", 200),
        ("adidas", "Tracksuite top", 50),
        ("adidas", "Tracksuite bottom", 40),
        ("adidas", "Socks - pair", 444),
        ("4f", "Snowboard jacket", 20),
    ];
    for (provider, name, quantity) in inventory {
        market
            .create_supply(&ProviderId::new(provider), name.into(), quantity)
            .unwrap();
    }
    let of_4f = market
        .supplies()
        .iter()
        .filter(|s| s.provided_by().as_str() == "4f")
        .count();
    assert_eq!(of_4f, 2usize);
    assert_eq!(market.supplies().len(), 7);

    let aggregated: Vec<&str> = market.supplies().iter().map(|s| s.name()).collect();
    let choice = &aggregated[2..=5];
    assert_eq!(choice.len(), 4);
}

#[test]
fn supply_without_items_is_not_advertised() {
    let mut market = market_with_participants();
    let s2 = market
        .create_supply(&ProviderId::new("p1"), "pearl".into(), 0)
        .unwrap();
    let supply = market.supply(&s2).unwrap();
    assert_eq!(supply.state(), SupplyState::Created);
    assert_eq!(supply.available_items(), 0);
    assert!(!supply.has_supply_available());
    assert_eq!(
        market.advertise(&MarketerId::new("m1"), &s2),
        Err(MarketError::SupplyNotAvailable)
    );
    assert_eq!(market.supply(&s2).unwrap().state(), SupplyState::Created);
    assert!(market.advertisements().is_empty());
}

#[test]
fn second_purchase_of_an_advertisement_is_refused() {
    let mut market = market_with_participants();
    let s1 = market
        .create_supply(&ProviderId::new("p1"), "amber".into(), 20)
        .unwrap();
    let ad1 = market.advertise(&MarketerId::new("m1"), &s1).unwrap();
    assert!(market.buy(&BuyerId::new("b1"), &ad1).is_ok());
    assert_eq!(
        market.buy(&BuyerId::new("b2"), &ad1),
        Err(MarketError::InvalidTransition)
    );
    assert_eq!(market.supply(&s1).unwrap().state(), SupplyState::Consumed);
}

#[test]
fn advertising_an_unknown_supply_is_refused() {
    let mut market = market_with_participants();
    assert_eq!(
        market.advertise(&MarketerId::new("m1"), &SupplyId::new("unknown-id")),
        Err(MarketError::UnknownSupply)
    );
}

#[test]
fn buying_one_of_two_live_advertisements_consumes_only_it() {
    let mut market = market_with_participants();
    let p1 = ProviderId::new("p1");
    let m1 = MarketerId::new("m1");
    let s1 = market.create_supply(&p1, "amber".into(), 20).unwrap();
    let s3 = market.create_supply(&p1, "sea shell".into(), 100).unwrap();
    let ad_s1 = market.advertise(&m1, &s1).unwrap();
    let ad_s3 = market.advertise(&m1, &s3).unwrap();

    let live = market.live_advertisements();
    assert_eq!(live, vec![ad_s1.clone(), ad_s3.clone()]);

    let mut rng = StdRng::seed_from_u64(7);
    let chosen = market.pick_advertisement(&mut rng).unwrap();
    assert!(chosen == ad_s1 || chosen == ad_s3);
    market.buy(&BuyerId::new("b1"), &chosen).unwrap();

    let (bought, other) = if chosen == ad_s1 { (&s1, &s3) } else { (&s3, &s1) };
    assert_eq!(market.supply(bought).unwrap().state(), SupplyState::Consumed);
    assert_eq!(market.supply(other).unwrap().state(), SupplyState::Marketed);
    assert_eq!(market.live_advertisements().len(), 1);
}

#[test]
fn seeded_selection_is_reproducible() {
    let mut market = market_with_participants();
    let p1 = ProviderId::new("p1");
    let m1 = MarketerId::new("m1");
    for (name, quantity) in [("amber", 20), ("pearl", 5), ("sea shell", 100)] {
        let id = market.create_supply(&p1, name.into(), quantity).unwrap();
        market.advertise(&m1, &id).unwrap();
    }
    let first = market.pick_advertisement(&mut StdRng::seed_from_u64(42));
    let second = market.pick_advertisement(&mut StdRng::seed_from_u64(42));
    assert!(first.is_some());
    assert_eq!(first, second);
}

#[test]
fn selection_by_draw_counts_modulo_live_advertisements() {
    let mut market = market_with_participants();
    let p1 = ProviderId::new("p1");
    let m1 = MarketerId::new("m1");
    assert_eq!(market.select_advertisement(3), None);
    assert_eq!(market.pick_advertisement(&mut StdRng::seed_from_u64(1)), None);
    let a = market.create_supply(&p1, "amber".into(), 20).unwrap();
    let b = market.create_supply(&p1, "pearl".into(), 5).unwrap();
    let ad_a = market.advertise(&m1, &a).unwrap();
    let ad_b = market.advertise(&m1, &b).unwrap();
    assert_eq!(market.select_advertisement(0), Some(ad_a.clone()));
    assert_eq!(market.select_advertisement(1), Some(ad_b.clone()));
    assert_eq!(market.select_advertisement(4), Some(ad_a.clone()));
    market.buy(&BuyerId::new("b2"), &ad_a).unwrap();
    assert_eq!(market.select_advertisement(0), Some(ad_b.clone()));
    assert_eq!(market.select_advertisement(7), Some(ad_b));
}

#[test]
fn consumed_supply_cannot_be_advertised_again() {
    let mut market = market_with_participants();
    let s1 = market
        .create_supply(&ProviderId::new("p1"), "amber".into(), 20)
        .unwrap();
    let m1 = MarketerId::new("m1");
    let ad1 = market.advertise(&m1, &s1).unwrap();
    assert_eq!(market.advertise(&m1, &s1), Err(MarketError::InvalidTransition));
    market.buy(&BuyerId::new("b1"), &ad1).unwrap();
    assert_eq!(market.advertise(&m1, &s1), Err(MarketError::InvalidTransition));
    assert_eq!(market.supply(&s1).unwrap().state(), SupplyState::Consumed);
    assert_eq!(market.advertisements().len(), 1);
}

#[test]
fn enumerating_twice_gives_the_same_advertisements() {
    let mut market = market_with_participants();
    let p1 = ProviderId::new("p1");
    let m1 = MarketerId::new("m1");
    let a = market.create_supply(&p1, "amber".into(), 20).unwrap();
    let b = market.create_supply(&p1, "pearl".into(), 5).unwrap();
    market.create_supply(&p1, "sea shell".into(), 100).unwrap();
    market.advertise(&m1, &a).unwrap();
    market.advertise(&m1, &b).unwrap();
    let first = market.live_advertisements();
    let second = market.live_advertisements();
    assert_eq!(first.len(), 2);
    assert_eq!(first, second);
}

#[test]
fn supplies_get_fresh_decimal_identifiers() {
    let mut market = market_with_participants();
    let p1 = ProviderId::new("p1");
    let mut ids = Vec::new();
    for i in 0..12u32 {
        ids.push(market.create_supply(&p1, format!("item {}", i), i).unwrap());
    }
    assert_eq!(ids[0].as_str(), "s0");
    assert_eq!(ids[1].as_str(), "s1");
    assert_eq!(ids[9].as_str(), "s9");
    assert_eq!(ids[10].as_str(), "s10");
    assert_eq!(ids[11].as_str(), "s11");
    let supply = market.supply(&ids[10]).unwrap();
    assert_eq!(supply.name(), "item 10");
    assert_eq!(supply.available_items(), 10);
    assert_eq!(supply.provided_by().as_str(), "p1");
}

#[test]
fn duplicate_registrations_are_refused() {
    let mut market = market_with_participants();
    assert_eq!(
        market.register_provider(Provider::new(ProviderId::new("p1"), "again".into())),
        Err(MarketError::DuplicateId)
    );
    assert_eq!(
        market.register_marketer(Marketer::new(MarketerId::new("m1"), "again".into())),
        Err(MarketError::DuplicateId)
    );
    assert_eq!(
        market.register_buyer(Buyer::new(BuyerId::new("b1"), "again".into())),
        Err(MarketError::DuplicateId)
    );
    assert_eq!(market.provider(&ProviderId::new("p1")).unwrap().name(), "Provider name");
    assert_eq!(market.buyer(&BuyerId::new("b1")).unwrap().name(), "mr buyer");
    assert_eq!(market.marketer(&MarketerId::new("m1")).unwrap().name(), "Marketer name");
    assert!(market.provider(&ProviderId::new("p2")).is_none());
}

#[test]
fn unknown_participants_are_refused() {
    let mut market = market_with_participants();
    assert_eq!(
        market.create_supply(&ProviderId::new("p9"), "amber".into(), 20),
        Err(MarketError::UnknownProvider)
    );
    let s1 = market
        .create_supply(&ProviderId::new("p1"), "amber".into(), 20)
        .unwrap();
    assert_eq!(
        market.advertise(&MarketerId::new("m9"), &s1),
        Err(MarketError::UnknownMarketer)
    );
    let ad1 = market.advertise(&MarketerId::new("m1"), &s1).unwrap();
    assert_eq!(
        market.buy(&BuyerId::new("b9"), &ad1),
        Err(MarketError::UnknownBuyer)
    );
    assert_eq!(market.supply(&s1).unwrap().state(), SupplyState::Marketed);
}

#[test]
fn unpublished_advertisement_is_refused() {
    let mut market = market_with_participants();
    let s1 = market
        .create_supply(&ProviderId::new("p1"), "amber".into(), 20)
        .unwrap();
    let forged = Ad::new(MarketerId::new("m1"), s1.clone());
    assert_eq!(
        market.buy(&BuyerId::new("b1"), &forged),
        Err(MarketError::UnknownAdvertisement)
    );
    assert_eq!(market.supply(&s1).unwrap().state(), SupplyState::Created);
}

#[test]
fn provider_creates_supply_in_created_state() {
    let provider = Provider::new(ProviderId::new("p1"), "Provider name".into());
    let supply = provider.creates_supply(SupplyId::new("s"), "amber".into(), 20);
    assert_eq!(supply.id().as_str(), "s");
    assert_eq!(supply.provided_by(), provider.id());
    assert_eq!(supply.state(), SupplyState::Created);
    assert!(supply.has_supply_available());
}
