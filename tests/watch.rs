use card_watcher::api::{
    ApiClient, Expansion, ListMarketplaceProductsOptions, Price, Product, Properties,
    RequestError, User,
};
use card_watcher::compose::{
    build_not_available_anymore_email, build_price_change_email, compose,
    format_product_details,
};
use card_watcher::config::Watchable;
use card_watcher::money::{cents_to_basic_unit, decimal_string};
use card_watcher::policy::{apply_selection, decide_change, ChangeKind};
use card_watcher::select::{is_blacklisted, passes_filters, select_best};
use card_watcher::watcher::{WatchProduct, Watcher};

fn listing(id: usize, cents: usize, country: &str, hub: bool) -> Product {
    Product {
        id,
        blueprint_id: 77,
        name_en: "Bolt".to_string(),
        quantity: 1,
        price: Price { cents, currency: "EUR".to_string() },
        description: None,
        properties_hash: Properties {
            condition: None,
            collector_number: None,
            tournament_legal: None,
            signed: None,
            mtg_card_colors: None,
            mtg_foil: None,
            mtg_rarity: None,
            mtg_language: None,
            altered: None,
        },
        expansion: Expansion { id: 1, code: "lea".to_string(), name_en: "Alpha".to_string() },
        user: User {
            id: 9,
            username: "seller".to_string(),
            can_sell_via_hub: hub,
            country_code: country.to_string(),
            user_type: "normal".to_string(),
            max_sellable_in24h_quantity: None,
        },
        graded: None,
        on_vacation: false,
        bundle_size: 1,
    }
}

fn target(limit: usize, via_zero: bool) -> Watchable {
    Watchable {
        blueprint_id: 77,
        price_limit: limit,
        language: None,
        min_condition: None,
        can_order_via_zero: via_zero,
    }
}

fn item(lowest: Option<Product>) -> WatchProduct {
    let mut w = WatchProduct::new(target(10_000, false));
    w.lowest = lowest;
    w
}

#[test]
fn scenario_appeared() {
    let mut w = item(None);
    let n = w.handle_listings(vec![listing(1, 500, "DE", false)], &vec![]).unwrap();
    assert!(n.subject.starts_with("[-]"));
    assert_eq!(n.subject, "[-] 5.00 EUR - DE - Bolt");
    assert_eq!(n.log_line, "[-] 5.00 EUR - DE - Bolt");
    assert_eq!(w.lowest.as_ref().unwrap().price.cents, 500);

    let mut best = None;
    let e = apply_selection(&mut best, Some(listing(1, 500, "DE", false))).unwrap();
    assert_eq!(e.kind, ChangeKind::Appeared);
    assert!(e.previous.is_none());
}

#[test]
fn scenario_price_decreased() {
    let mut best = Some(listing(1, 500, "DE", false));
    let e = apply_selection(&mut best, Some(listing(2, 400, "DE", false))).unwrap();
    assert_eq!(e.kind, ChangeKind::PriceDecreased);
    assert_eq!(e.previous.as_ref().unwrap().price.cents, 500);
    assert_eq!(best.as_ref().unwrap().price.cents, 400);
}

#[test]
fn scenario_price_increased() {
    let mut w = item(Some(listing(1, 400, "DE", false)));
    let n = w.handle_listings(vec![listing(2, 450, "FR", false)], &vec![]).unwrap();
    assert_eq!(n.subject, "[+] 4.50 EUR - FR - Bolt");
    assert_eq!(w.lowest.as_ref().unwrap().price.cents, 450);
}

#[test]
fn scenario_same_price() {
    let mut best = Some(listing(1, 500, "DE", false));
    let e = apply_selection(&mut best, Some(listing(2, 500, "IT", false)));
    assert!(e.is_none());
    assert_eq!(best.as_ref().unwrap().id, 1);
    assert_eq!(best.as_ref().unwrap().price.cents, 500);

    let mut w = item(Some(listing(1, 500, "DE", false)));
    assert!(w.handle_listings(vec![listing(1, 500, "DE", false)], &vec![]).is_none());
    assert_eq!(w.lowest.as_ref().unwrap().id, 1);
}

#[test]
fn scenario_became_unavailable() {
    let mut w = item(Some(listing(1, 500, "DE", false)));
    let n = w.handle_listings(vec![], &vec![]).unwrap();
    assert!(w.lowest.is_none());
    assert_eq!(n.subject, "[0] Unavailable - Bolt");
    assert_eq!(n.log_line, "[0] None - Bolt");
    assert_eq!(
        n.body,
        "New:      None\nPrevious: 5.00 EUR - DE - Bolt\nhttps://www.cardtrader.com/cards/77"
    );
}

#[test]
fn nothing_before_nothing_now() {
    let mut w = item(None);
    assert!(w.handle_listings(vec![listing(1, 20_000, "DE", false)], &vec![]).is_none());
    assert!(w.lowest.is_none());
}

#[test]
fn cents_format_two_digits() {
    assert_eq!(cents_to_basic_unit(1234), "12.34");
    assert_eq!(cents_to_basic_unit(5), "0.05");
    assert_eq!(cents_to_basic_unit(0), "0.00");
    assert_eq!(cents_to_basic_unit(100), "1.00");
    assert_eq!(cents_to_basic_unit(1230), "12.30");
    let p = listing(1, 1234, "DE", false);
    assert_eq!(format_product_details(Some(&p)), "12.34 EUR - DE - Bolt");
    assert_eq!(format_product_details(None), "None");
}

#[test]
fn decimal_edges() {
    assert_eq!(decimal_string(0), "0");
    assert_eq!(decimal_string(10), "10");
    assert_eq!(decimal_string(usize::MAX), usize::MAX.to_string());
}

#[test]
fn selection_respects_filters() {
    let t = target(500, true);
    let bl = vec!["RU".to_string(), "CN".to_string()];
    assert!(passes_filters(&listing(1, 500, "DE", true), &t, &bl));
    assert!(!passes_filters(&listing(1, 501, "DE", true), &t, &bl));
    assert!(!passes_filters(&listing(1, 100, "DE", false), &t, &bl));
    assert!(!passes_filters(&listing(1, 100, "CN", true), &t, &bl));
    assert!(passes_filters(&listing(1, 100, "DE", false), &target(500, false), &bl));
    assert!(is_blacklisted(&"RU".to_string(), &bl));
    assert!(!is_blacklisted(&"DE".to_string(), &bl));

    let all = vec![
        listing(1, 501, "DE", true),
        listing(2, 100, "CN", true),
        listing(3, 200, "DE", false),
        listing(4, 450, "DE", true),
        listing(5, 300, "FR", true),
    ];
    let best = select_best(all, &t, &bl).unwrap();
    assert_eq!(best.id, 5);
}

#[test]
fn selection_first_of_equal_prices() {
    let all = vec![
        listing(1, 300, "DE", false),
        listing(2, 200, "DE", false),
        listing(3, 200, "FR", false),
        listing(4, 250, "DE", false),
    ];
    let best = select_best(all, &target(1000, false), &vec![]).unwrap();
    assert_eq!(best.id, 2);
}

#[test]
fn selection_of_nothing() {
    assert!(select_best(vec![], &target(1000, false), &vec![]).is_none());
    let all = vec![listing(1, 2000, "DE", false)];
    assert!(select_best(all, &target(1000, false), &vec![]).is_none());
}

#[test]
fn decision_table_rows() {
    assert_eq!(decide_change(None, None), None);
    assert_eq!(decide_change(None, Some(7)), Some(ChangeKind::Appeared));
    assert_eq!(decide_change(None, Some(usize::MAX)), Some(ChangeKind::Appeared));
    assert_eq!(decide_change(Some(7), Some(7)), None);
    assert_eq!(decide_change(Some(7), Some(6)), Some(ChangeKind::PriceDecreased));
    assert_eq!(decide_change(Some(7), Some(8)), Some(ChangeKind::PriceIncreased));
    assert_eq!(decide_change(Some(7), None), Some(ChangeKind::BecameUnavailable));
}

#[test]
fn policy_twice_is_quiet() {
    let mut best = Some(listing(1, 500, "DE", false));
    assert!(apply_selection(&mut best, Some(listing(2, 400, "DE", false))).is_some());
    assert!(apply_selection(&mut best, Some(listing(2, 400, "DE", false))).is_none());
    assert_eq!(best.as_ref().unwrap().id, 2);

    let mut best = Some(listing(1, 500, "DE", false));
    assert!(apply_selection(&mut best, None).is_some());
    assert!(apply_selection(&mut best, None).is_none());
    assert!(best.is_none());
}

#[test]
fn price_change_email_text() {
    let prev = listing(1, 500, "DE", false);
    let new = listing(2, 1234, "FR", false);
    let (subject, body) = build_price_change_email(false, Some(&prev), &new);
    assert_eq!(subject, "[-] 12.34 EUR - FR - Bolt");
    assert_eq!(
        body,
        "New:      12.34 EUR - FR - Bolt\nPrevious: 5.00 EUR - DE - Bolt\nhttps://www.cardtrader.com/cards/77"
    );
    let (subject, body) = build_price_change_email(true, None, &new);
    assert_eq!(subject, "[+] 12.34 EUR - FR - Bolt");
    assert_eq!(
        body,
        "New:      12.34 EUR - FR - Bolt\nPrevious: None\nhttps://www.cardtrader.com/cards/77"
    );
    let (subject, _) = build_not_available_anymore_email(&prev);
    assert_eq!(subject, "[0] Unavailable - Bolt");
}

#[test]
fn unavailable_log_uses_item_name() {
    let mut old = listing(1, 500, "DE", false);
    old.name_en = "Lightning Bolt".to_string();
    let mut best = Some(old);
    let e = apply_selection(&mut best, None).unwrap();
    let n = compose(&e);
    assert_eq!(n.log_line, "[0] None - Lightning Bolt");

    let mut w = item(None);
    let mut found = listing(2, 300, "DE", false);
    found.name_en = "Black Lotus".to_string();
    assert!(w.handle_listings(vec![found], &vec![]).is_some());
    assert_eq!(w.name.as_deref(), Some("Black Lotus"));
    let n = w.handle_listings(vec![], &vec![]).unwrap();
    assert_eq!(n.log_line, "[0] None - Black Lotus");
    assert_eq!(w.name.as_deref(), Some("Black Lotus"));
}

#[test]
fn card_url_and_headers() {
    assert_eq!(ApiClient::build_card_url(42), "https://www.cardtrader.com/cards/42");
    assert_eq!(ApiClient::build_card_url(0), "https://www.cardtrader.com/cards/0");
    let c = ApiClient { bearer_token: "abc".to_string() };
    assert_eq!(c.authorization_header(), "Bearer abc");
}

#[test]
fn query_needs_a_target() {
    let none = ListMarketplaceProductsOptions {
        expansion_id: None,
        blueprint_id: None,
        foil: Some(true),
        language: None,
    };
    assert_eq!(none.query_pairs().unwrap_err(), RequestError::NoTarget);
    let all = ListMarketplaceProductsOptions {
        expansion_id: Some(5),
        blueprint_id: Some(123),
        foil: Some(false),
        language: Some("en".to_string()),
    };
    let q = all.query_pairs().unwrap();
    let expect: Vec<(String, String)> = vec![
        ("blueprint_id".to_string(), "123".to_string()),
        ("expansion_id".to_string(), "5".to_string()),
        ("foil".to_string(), "false".to_string()),
        ("language".to_string(), "en".to_string()),
    ];
    assert_eq!(q, expect);
}

#[test]
fn watcher_polls_one_item() {
    let targets = vec![target(1000, false), target(300, false)];
    let mut w = Watcher::new(60_000, vec!["RU".to_string()], &targets, "tok".to_string());
    assert_eq!(w.watchables.len(), 2);
    let opts = w.request_options(1);
    assert_eq!(opts.blueprint_id, Some(77));
    assert!(opts.language.is_none());

    assert!(w.handle_poll_result(0, None).is_none());
    assert!(w.watchables[0].lowest.is_none());

    let n = w.handle_poll_result(1, Some(vec![listing(1, 250, "RU", false), listing(2, 280, "DE", false)]));
    assert_eq!(n.unwrap().subject, "[-] 2.80 EUR - DE - Bolt");
    assert_eq!(w.watchables[1].lowest.as_ref().unwrap().id, 2);
    assert!(w.watchables[0].lowest.is_none());
}
