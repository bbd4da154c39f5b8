use steam_trader::error::SteamError;
use steam_trader::trade::{
    compose_cookie, create_params_json, trade_data_json, OfferAsset, TradeOffer, TradeOfferForm,
    TradeOfferSuccess,
};

const TRADE_URL: &str = "https://steamcommunity.com/tradeoffer/new/?partner=87048484&token=gn-X8Nub";

fn offer_ref(assetid: &str) -> OfferAsset {
    OfferAsset::new(
        "730".to_string(),
        "2".to_string(),
        "1".to_string(),
        assetid.to_string(),
    )
}

#[test]
fn create_parses_partner_and_token() {
    let offer = TradeOffer::new(TRADE_URL.to_string()).unwrap();
    assert_eq!(offer.partner, "76561198047314212");
    assert_eq!(offer.trade_offer_create_params.trade_offer_access_token, "gn-X8Nub");
    assert_eq!(offer.tradeoffermessage, "");
    assert_eq!(offer.trade_url, TRADE_URL);
    assert!(offer.json_tradeoffer.newversion);
    assert_eq!(offer.json_tradeoffer.version, 4);
    assert!(offer.json_tradeoffer.me.assets.is_empty());
    assert!(offer.json_tradeoffer.them.assets.is_empty());
    assert!(!offer.json_tradeoffer.me.ready);
    assert!(!offer.json_tradeoffer.them.ready);
}

#[test]
fn create_without_token_is_malformed() {
    let r = TradeOffer::new("https://steamcommunity.com/tradeoffer/new/?partner=87048484".to_string());
    assert_eq!(r.unwrap_err(), SteamError::MalformedUrlError);
}

#[test]
fn create_without_partner_is_malformed() {
    let r = TradeOffer::new("https://steamcommunity.com/tradeoffer/new/?token=gn-X8Nub".to_string());
    assert_eq!(r.unwrap_err(), SteamError::MalformedUrlError);
}

#[test]
fn create_with_non_numeric_partner_is_malformed() {
    let r = TradeOffer::new("https://host/?partner=abc&token=t".to_string());
    assert_eq!(r.unwrap_err(), SteamError::MalformedUrlError);
}

#[test]
fn add_then_remove_leaves_side_empty() {
    let mut offer = TradeOffer::new(TRADE_URL.to_string()).unwrap();
    offer.add_self_item(offer_ref("111"));
    assert_eq!(offer.json_tradeoffer.me.assets.len(), 1);
    offer.remove_self_item("111".to_string());
    assert!(offer.json_tradeoffer.me.assets.is_empty());
}

#[test]
fn remove_of_absent_id_is_a_no_op() {
    let mut offer = TradeOffer::new(TRADE_URL.to_string()).unwrap();
    offer.add_self_item(offer_ref("111"));
    offer.remove_self_item("999".to_string());
    assert_eq!(offer.json_tradeoffer.me.assets.len(), 1);
    assert_eq!(offer.json_tradeoffer.me.assets[0].assetid, "111");
}

#[test]
fn duplicate_asset_id_is_not_added_twice() {
    let mut offer = TradeOffer::new(TRADE_URL.to_string()).unwrap();
    offer.add_self_item(offer_ref("111"));
    offer.add_self_item(offer_ref("111"));
    assert_eq!(offer.json_tradeoffer.me.assets.len(), 1);
    offer.add_partner_items(vec![offer_ref("7"), offer_ref("7"), offer_ref("8")]);
    assert_eq!(offer.json_tradeoffer.them.assets.len(), 2);
    assert_eq!(offer.json_tradeoffer.them.assets[0].assetid, "7");
    assert_eq!(offer.json_tradeoffer.them.assets[1].assetid, "8");
}

#[test]
fn bulk_removal_drops_every_listed_id() {
    let mut offer = TradeOffer::new(TRADE_URL.to_string()).unwrap();
    offer.add_self_items(vec![offer_ref("1"), offer_ref("2"), offer_ref("3")]);
    offer.remove_self_items(vec!["1".to_string(), "3".to_string()]);
    assert_eq!(offer.json_tradeoffer.me.assets.len(), 1);
    assert_eq!(offer.json_tradeoffer.me.assets[0].assetid, "2");
    offer.add_partner_items(vec![offer_ref("4"), offer_ref("5")]);
    offer.remove_partner_items(vec!["9".to_string()]);
    assert_eq!(offer.json_tradeoffer.them.assets.len(), 2);
    offer.remove_partner_item("4".to_string());
    assert_eq!(offer.json_tradeoffer.them.assets.len(), 1);
    assert_eq!(offer.json_tradeoffer.them.assets[0].assetid, "5");
}

#[test]
fn ready_flags_toggle_independently() {
    let mut offer = TradeOffer::new(TRADE_URL.to_string()).unwrap();
    offer.toggle_self_ready();
    assert!(offer.json_tradeoffer.me.ready);
    assert!(!offer.json_tradeoffer.them.ready);
    offer.toggle_partner_ready();
    offer.toggle_self_ready();
    assert!(!offer.json_tradeoffer.me.ready);
    assert!(offer.json_tradeoffer.them.ready);
}

#[test]
fn message_is_kept_verbatim() {
    let mut offer = TradeOffer::new(TRADE_URL.to_string()).unwrap();
    offer.set_trade_message("Hello World!".to_string());
    assert_eq!(offer.tradeoffermessage, "Hello World!");
}

#[test]
fn offer_body_serializes_to_the_wire_json() {
    let mut offer = TradeOffer::new(TRADE_URL.to_string()).unwrap();
    offer.add_self_item(offer_ref("111"));
    offer.add_partner_item(offer_ref("222"));
    let expected = "{\"newversion\":true,\"version\":4,\"me\":{\"assets\":[{\"appid\":\"730\",\"contextid\":\"2\",\"amount\":\"1\",\"assetid\":\"111\"}],\"currency\":[],\"ready\":false},\"them\":{\"assets\":[{\"appid\":\"730\",\"contextid\":\"2\",\"amount\":\"1\",\"assetid\":\"222\"}],\"currency\":[],\"ready\":false}}";
    assert_eq!(trade_data_json(&offer.json_tradeoffer), expected);
}

#[test]
fn offer_body_with_two_assets_is_comma_separated() {
    let mut offer = TradeOffer::new(TRADE_URL.to_string()).unwrap();
    offer.add_self_items(vec![offer_ref("1"), offer_ref("2")]);
    let body = trade_data_json(&offer.json_tradeoffer);
    assert!(body.contains("\"assetid\":\"1\"},{\"appid\":"));
}

#[test]
fn create_params_serialize_the_token() {
    let offer = TradeOffer::new(TRADE_URL.to_string()).unwrap();
    assert_eq!(
        create_params_json(&offer.trade_offer_create_params),
        "{\"trade_offer_access_token\":\"gn-X8Nub\"}"
    );
}

#[test]
fn json_strings_are_escaped() {
    let offer = TradeOffer::new("https://host/?partner=1&token=a\"b\\c".to_string()).unwrap();
    assert_eq!(
        create_params_json(&offer.trade_offer_create_params),
        "{\"trade_offer_access_token\":\"a\\\"b\\\\c\"}"
    );
    let mut with_control = TradeOffer::new(TRADE_URL.to_string()).unwrap();
    with_control.add_self_item(OfferAsset::new(
        "730".to_string(),
        "2".to_string(),
        "1".to_string(),
        "a\nb".to_string(),
    ));
    let body = trade_data_json(&with_control.json_tradeoffer);
    assert!(body.contains("\"assetid\":\"a\\u000ab\""));
}

#[test]
fn submission_form_carries_the_offer() {
    let mut offer = TradeOffer::new(TRADE_URL.to_string()).unwrap();
    offer.set_trade_message("hi".to_string());
    offer.add_self_item(offer_ref("111"));
    let form = TradeOfferForm::from(&offer);
    assert_eq!(form.serverid, "1");
    assert_eq!(form.captcha, "");
    assert_eq!(form.partner, "76561198047314212");
    assert_eq!(form.tradeoffermessage, "hi");
    assert_eq!(form.sessionid.len(), 24);
    assert!(form.sessionid.chars().all(|c| c.is_ascii_hexdigit() && !c.is_ascii_uppercase()));
    assert_eq!(form.json_tradeoffer, trade_data_json(&offer.json_tradeoffer));
    assert_eq!(form.trade_offer_create_params, "{\"trade_offer_access_token\":\"gn-X8Nub\"}");
}

#[test]
fn cookie_composition_appends_session_id() {
    let cookie = compose_cookie("steamLoginSecure=abc;", "0123456789abcdef01234567");
    assert_eq!(cookie, "steamLoginSecure=abc;sessionid=0123456789abcdef01234567;");
}

#[test]
fn send_classification_matches_the_taxonomy() {
    let success = TradeOfferSuccess {
        tradeofferid: "42".to_string(),
        need_mobile_confirmation: Some(true),
        needs_email_confirmation: None,
        email_domain: None,
    };
    let ok = TradeOffer::classify_response(200, Some(success), String::new()).unwrap();
    assert_eq!(ok.tradeofferid, "42");
    assert_eq!(ok.need_mobile_confirmation, Some(true));
    assert_eq!(
        TradeOffer::classify_response(200, None, "bad".to_string()).unwrap_err(),
        SteamError::ProtocolError { body: "bad".to_string() }
    );
    assert_eq!(
        TradeOffer::classify_response(429, None, String::new()).unwrap_err(),
        SteamError::RateLimitedError
    );
    assert_eq!(
        TradeOffer::classify_response(403, None, String::new()).unwrap_err(),
        SteamError::ForbiddenError
    );
    assert_eq!(
        TradeOffer::classify_response(500, None, "body".to_string()).unwrap_err(),
        SteamError::UnexpectedStatusError { status: 500, body: "body".to_string() }
    );
}
