use steam_trader::error::{SteamError, UnauthorizedResponse};
use steam_trader::inventory::{
    Asset, AssetDescription, Inventory, ItemCategory, ItemExterior, ItemRarity, ItemType, Tag,
};

fn tag(category: &str, name: &str) -> Tag {
    Tag {
        category: category.to_string(),
        internal_name: String::new(),
        localized_category_name: category.to_string(),
        localized_tag_name: name.to_string(),
        color: None,
    }
}

fn desc(classid: &str, instanceid: &str, market_name: &str, tags: Vec<Tag>) -> AssetDescription {
    AssetDescription {
        appid: 730,
        classid: classid.to_string(),
        instanceid: instanceid.to_string(),
        currency: 0,
        background_color: String::new(),
        icon_url: String::new(),
        icon_url_large: None,
        descriptions: Vec::new(),
        tradable: 1,
        actions: None,
        name: market_name.to_string(),
        name_color: None,
        _type: String::new(),
        market_name: market_name.to_string(),
        market_hash_name: market_name.to_string(),
        market_actions: None,
        commodity: 0,
        market_tradable_restriction: 0,
        market_marketable_restriction: None,
        marketable: 1,
        tags,
        market_buy_country_restriction: None,
    }
}

fn asset(assetid: &str, classid: &str, instanceid: &str) -> Asset {
    Asset {
        appid: 730,
        contextid: "2".to_string(),
        assetid: assetid.to_string(),
        classid: classid.to_string(),
        instanceid: instanceid.to_string(),
        amount: "1".to_string(),
    }
}

fn snapshot(assets: Vec<Asset>, descriptions: Vec<AssetDescription>) -> Inventory {
    Inventory { assets, descriptions, total_inventory_count: 0, success: 1, rwgrsn: -2 }
}

#[test]
fn resolution_dedups_across_repeated_descriptions() {
    let inv = snapshot(
        vec![asset("1001", "55", "0"), asset("1002", "55", "0")],
        vec![desc("55", "0", "Shadow Daggers", Vec::new())],
    );
    let wanted = inv.search_item_name("Shadow Daggers".to_string()).unwrap();
    let again = inv.search_item_name("Shadow Daggers".to_string()).unwrap();
    let refs = inv.get_trade_items(vec![wanted, again]);
    assert_eq!(refs.len(), 2);
    assert_eq!(refs[0].assetid, "1001");
    assert_eq!(refs[1].assetid, "1002");
    assert_ne!(refs[0].assetid, refs[1].assetid);
    assert!(refs.iter().all(|r| r.appid == "730" && r.amount == "1" && r.contextid == "2"));
}

#[test]
fn resolution_never_emits_one_asset_through_two_descriptions() {
    let inv = snapshot(
        vec![asset("1001", "55", "0"), asset("2002", "66", "0")],
        vec![desc("55", "0", "A", Vec::new()), desc("66", "0", "B", Vec::new())],
    );
    let a = inv.search_item_name("A".to_string()).unwrap();
    let b = inv.search_item_name("B".to_string()).unwrap();
    let a2 = inv.search_item_name("A".to_string()).unwrap();
    let refs = inv.get_trade_items(vec![a, b, a2]);
    assert_eq!(refs.len(), 2);
    assert_ne!(refs[0].assetid, refs[1].assetid);
}

#[test]
fn resolution_of_unmatched_description_is_empty() {
    let inv = snapshot(
        vec![asset("1001", "55", "0")],
        vec![desc("77", "0", "Unowned", Vec::new())],
    );
    let d = inv.search_item_name("Unowned".to_string()).unwrap();
    let refs = inv.get_trade_items(vec![d]);
    assert_eq!(refs.len(), 0);
}

#[test]
fn name_search_returns_first_match_in_snapshot_order() {
    let inv = snapshot(
        Vec::new(),
        vec![
            desc("1", "0", "AK-47 | Redline", Vec::new()),
            desc("2", "0", "AWP | Redline", Vec::new()),
        ],
    );
    let loose = inv.search_item_name("Redline".to_string()).unwrap();
    assert_eq!(loose.market_name, "AK-47 | Redline");
    let exact = inv.search_item_name("AK-47 | Redline".to_string()).unwrap();
    assert_eq!(exact.market_name, "AK-47 | Redline");
    let exact_second = inv.search_item_name("AWP | Redline".to_string()).unwrap();
    assert_eq!(exact_second.market_name, "AWP | Redline");
    assert!(inv.search_item_name("Dragon Lore".to_string()).is_none());
}

#[test]
fn tag_filters_keep_snapshot_order_and_match_category_and_name() {
    let inv = snapshot(
        Vec::new(),
        vec![
            desc("1", "0", "One", vec![tag("Quality", "Covert"), tag("Type", "Rifle")]),
            desc("2", "0", "Two", vec![tag("Quality", "Classified")]),
            desc("3", "0", "Three", vec![tag("Quality", "Covert")]),
            desc("4", "0", "Four", vec![tag("Exterior", "Covert")]),
        ],
    );
    let covert = inv.get_all_rarity(ItemRarity::Covert);
    assert_eq!(covert.len(), 2);
    assert_eq!(covert[0].market_name, "One");
    assert_eq!(covert[1].market_name, "Three");
    assert_eq!(inv.get_all_rarity(ItemRarity::Contraband).len(), 0);
    let rifles = inv.get_all_type(ItemType::Rifle);
    assert_eq!(rifles.len(), 1);
    assert_eq!(rifles[0].market_name, "One");
}

#[test]
fn tag_filters_cover_category_and_exterior_vocabularies() {
    let inv = snapshot(
        Vec::new(),
        vec![
            desc("1", "0", "S", vec![tag("Category", "StatTrak™")]),
            desc("2", "0", "F", vec![tag("Exterior", "Factory New")]),
            desc("3", "0", "K", vec![tag("Category", "★ StatTrak™")]),
        ],
    );
    let stattrak = inv.get_all_category(ItemCategory::Stattrak);
    assert_eq!(stattrak.len(), 1);
    assert_eq!(stattrak[0].market_name, "S");
    let special = inv.get_all_category(ItemCategory::SpecialStattrak);
    assert_eq!(special.len(), 1);
    assert_eq!(special[0].market_name, "K");
    let fresh = inv.get_all_exterior(ItemExterior::FactoryNew);
    assert_eq!(fresh.len(), 1);
    assert_eq!(fresh[0].market_name, "F");
    assert_eq!(inv.get_all_exterior(ItemExterior::BattleScarred).len(), 0);
}

#[test]
fn generic_tag_filter_is_exact_on_both_fields() {
    let inv = snapshot(
        Vec::new(),
        vec![desc("1", "0", "One", vec![tag("Quality", "Covert")])],
    );
    assert_eq!(inv.filter_by_tag("Quality", "Covert").len(), 1);
    assert_eq!(inv.filter_by_tag("Quality", "covert").len(), 0);
    assert_eq!(inv.filter_by_tag("Type", "Covert").len(), 0);
}

#[test]
fn load_outcome_of_ok_status_is_the_snapshot() {
    let inv = snapshot(vec![asset("1", "5", "0")], Vec::new());
    let loaded = Inventory::from_response(200, Some(inv), String::new()).unwrap();
    assert_eq!(loaded.assets.len(), 1);
    assert_eq!(loaded.assets[0].assetid, "1");
}

#[test]
fn load_outcome_of_unparsable_body_is_protocol_error() {
    let err = Inventory::from_response(200, None, "<html>".to_string()).unwrap_err();
    assert_eq!(err, SteamError::ProtocolError { body: "<html>".to_string() });
}

#[test]
fn load_outcome_of_429_is_rate_limited() {
    let err = Inventory::from_response(429, None, String::new()).unwrap_err();
    assert_eq!(err, SteamError::RateLimitedError);
}

#[test]
fn load_outcome_of_403_is_forbidden() {
    let err = Inventory::from_response(403, None, String::new()).unwrap_err();
    assert_eq!(err, SteamError::ForbiddenError);
}

#[test]
fn load_outcome_of_other_status_carries_status_and_body() {
    let err = Inventory::from_response(500, None, "oops".to_string()).unwrap_err();
    assert_eq!(err, SteamError::UnexpectedStatusError { status: 500, body: "oops".to_string() });
}

#[test]
fn legacy_error_shape_names_the_failure() {
    let r = UnauthorizedResponse::from_error(&SteamError::RateLimitedError);
    assert!(!r.success);
    assert_eq!(r.error, "Rate Limited");
    let f = UnauthorizedResponse::from_error(&SteamError::ForbiddenError);
    assert_eq!(f.error, "Forbidden Access");
    let u = UnauthorizedResponse::from_error(&SteamError::UnexpectedStatusError {
        status: 500,
        body: "oops".to_string(),
    });
    assert_eq!(u.error, "oops");
}

#[test]
fn well_formed_snapshot_is_recognized() {
    let inv = snapshot(
        vec![asset("1001", "55", "0"), asset("1002", "66", "0")],
        vec![desc("55", "0", "A", Vec::new()), desc("66", "0", "B", Vec::new())],
    );
    assert!(inv.is_well_formed());
}

#[test]
fn asset_without_description_breaks_the_invariant() {
    let inv = snapshot(vec![asset("1001", "55", "0")], vec![desc("66", "0", "B", Vec::new())]);
    assert!(!inv.is_well_formed());
}

#[test]
fn asset_with_two_descriptions_breaks_the_invariant() {
    let inv = snapshot(
        vec![asset("1001", "55", "0")],
        vec![desc("55", "0", "A", Vec::new()), desc("55", "0", "A again", Vec::new())],
    );
    assert!(!inv.is_well_formed());
}

#[test]
fn legacy_load_returns_the_snapshot_on_ok() {
    let inv = snapshot(vec![asset("1", "5", "0")], vec![desc("5", "0", "A", Vec::new())]);
    let loaded = Inventory::new(200, Some(inv), String::new()).unwrap();
    assert_eq!(loaded.assets[0].assetid, "1");
}

#[test]
fn legacy_load_names_each_failure() {
    let limited = Inventory::new(429, None, String::new()).unwrap_err();
    assert!(!limited.success);
    assert_eq!(limited.error, "Rate Limited");
    let forbidden = Inventory::new(403, None, String::new()).unwrap_err();
    assert_eq!(forbidden.error, "Forbidden Access");
    let other = Inventory::new(500, None, "body".to_string()).unwrap_err();
    assert_eq!(other.error, "500");
    let unparsable = Inventory::new(200, None, "<html>".to_string()).unwrap_err();
    assert_eq!(unparsable.error, "<html>");
}
