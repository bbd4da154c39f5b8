use steam_trader::session::{convert_parterid_to_steamid, create_session_id, to_steam_id};
use steam_trader::text::{contains_substring, hex_encode, parse_u64, str_eq, u64_to_dec_string, vec_contains_str};
use steam_trader::url::query_param;

#[test]
fn partner_fragment_converts_by_fixed_offset() {
    assert_eq!(to_steam_id(87048484), 76561198047314212);
    assert_eq!(to_steam_id(0), 76561197960265728);
    assert_eq!(to_steam_id(u32::MAX as u64), 76561197960265728 + u32::MAX as u64);
}

#[test]
fn partner_id_string_converts() {
    assert_eq!(convert_parterid_to_steamid(&"87048484".to_string()), 76561198047314212);
}

#[test]
fn parse_u64_accepts_digit_strings() {
    assert_eq!(parse_u64("0"), Some(0));
    assert_eq!(parse_u64("87048484"), Some(87048484));
    assert_eq!(parse_u64("18446744073709551615"), Some(u64::MAX));
}

#[test]
fn parse_u64_rejects_bad_input() {
    assert_eq!(parse_u64(""), None);
    assert_eq!(parse_u64("12a"), None);
    assert_eq!(parse_u64("-5"), None);
    assert_eq!(parse_u64("18446744073709551616"), None);
    assert_eq!(parse_u64("99999999999999999999999"), None);
}

#[test]
fn u64_renders_to_decimal() {
    assert_eq!(u64_to_dec_string(0), "0");
    assert_eq!(u64_to_dec_string(7), "7");
    assert_eq!(u64_to_dec_string(76561198047314212), "76561198047314212");
    assert_eq!(u64_to_dec_string(u64::MAX), "18446744073709551615");
}

#[test]
fn hex_encodes_lowercase_two_digits_per_byte() {
    assert_eq!(hex_encode(&vec![]), "");
    assert_eq!(hex_encode(&vec![0x00, 0xff, 0x1a]), "00ff1a");
    assert_eq!(hex_encode(&vec![0xde, 0xad, 0xbe, 0xef]), "deadbeef");
}

#[test]
fn substring_search_matches_std_contains() {
    assert!(contains_substring("AK-47 | Redline", "Redline"));
    assert!(contains_substring("AK-47 | Redline", ""));
    assert!(contains_substring("abc", "abc"));
    assert!(!contains_substring("abc", "abcd"));
    assert!(!contains_substring("AK-47 | Redline", "redline"));
    assert!(contains_substring("★ StatTrak™ Knife", "StatTrak™"));
}

#[test]
fn str_eq_compares_by_characters() {
    assert!(str_eq("Quality", "Quality"));
    assert!(!str_eq("Quality", "Qualit"));
    assert!(!str_eq("quality", "Quality"));
    assert!(str_eq("", ""));
}

#[test]
fn vec_contains_str_is_membership() {
    let ids: Vec<String> = vec!["11".to_string(), "22".to_string()];
    assert!(vec_contains_str(&ids, &"22".to_string()));
    assert!(!vec_contains_str(&ids, &"33".to_string()));
}

#[test]
fn session_id_is_twenty_four_hex_digits() {
    let sid: String = create_session_id();
    assert_eq!(sid.len(), 24);
    assert!(sid.chars().all(|c| c.is_ascii_hexdigit() && !c.is_ascii_uppercase()));
}

#[test]
fn session_ids_are_fresh_per_submission() {
    let first: String = create_session_id();
    let second: String = create_session_id();
    assert_ne!(first, second);
}

#[test]
fn query_param_finds_values() {
    let url = "https://steamcommunity.com/tradeoffer/new/?partner=87048484&token=gn-X8Nub";
    assert_eq!(query_param(url, "partner"), Some("87048484".to_string()));
    assert_eq!(query_param(url, "token"), Some("gn-X8Nub".to_string()));
    assert_eq!(query_param(url, "missing"), None);
}

#[test]
fn query_param_edge_cases() {
    assert_eq!(query_param("https://host/path", "partner"), None);
    assert_eq!(query_param("https://host/path?", "partner"), None);
    assert_eq!(query_param("https://host/path?partner", "partner"), Some("".to_string()));
    assert_eq!(query_param("https://host/path?partner=", "partner"), Some("".to_string()));
    assert_eq!(query_param("https://host/?a=1&partner=5&", "partner"), Some("5".to_string()));
    assert_eq!(query_param("https://host/?partner=1&partner=2", "partner"), Some("1".to_string()));
    assert_eq!(query_param("https://host/?token=a=b", "token"), Some("a=b".to_string()));
}
