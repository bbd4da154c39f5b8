//! Platform identifiers and per-submission session tokens: conversion of a
//! compact partner fragment into a full platform user id, and generation of
//! the random hex session identifier that accompanies each submission.
use vstd::prelude::*;
use crate::text::{
    all_dec_digits, dec_val, hex_of, is_hex_digit, lemma_hex_of_digits, parse_u64, hex_encode,
};

verus! {

/// Fixed offset between a compact partner fragment and the full platform
/// user id; it encodes the platform's account-type and universe bits.
pub const STEAM_ID_OFFSET: u64 = 76561197960265728;

/// Convert a partner fragment to a full platform user id by adding the
/// fixed offset.
pub fn to_steam_id(fragment: u64) -> (r: u64)
    requires
        fragment + STEAM_ID_OFFSET <= u64::MAX,
    ensures
        r == fragment + STEAM_ID_OFFSET,
{
    fragment + STEAM_ID_OFFSET
}

/// Every non-negative 32-bit partner fragment converts without overflow, and
/// the conversion adds exactly the fixed platform offset.
pub proof fn lemma_partner_conversion_total(fragment: u32)
    ensures
        fragment as u64 + STEAM_ID_OFFSET <= u64::MAX,
        fragment as u64 + STEAM_ID_OFFSET == fragment + 76561197960265728u64,
{
}

/// Convert a decimal partner fragment string to a full platform user id.
pub fn convert_parterid_to_steamid(partner_id: &String) -> (r: u64)
    requires
        partner_id@.len() > 0,
        all_dec_digits(partner_id@),
        dec_val(partner_id@) + STEAM_ID_OFFSET <= u64::MAX,
    ensures
        r == dec_val(partner_id@) + STEAM_ID_OFFSET,
{
    let id: u64 = match parse_u64(partner_id.as_str()) {
        Some(v) => v,
        None => {
            proof {
                assert(dec_val(partner_id@) <= u64::MAX);
            }
            assert(false);
            0
        },
    };
    to_steam_id(id)
}

/// Relies on rand's `OsRng` through `RngCore::fill_bytes`: twelve bytes of
/// cryptographically strong operating-system randomness. The bytes are
/// unpredictable by design, so only their number is stated; the call aborts
/// only if the operating system's random source itself fails.
#[verifier::external_body]
fn random_bytes_12() -> (r: Vec<u8>)
    ensures
        r@.len() == 12,
{
    let mut buf = [0u8; 12];
    rand::RngCore::fill_bytes(&mut rand::rngs::OsRng, &mut buf);
    buf.to_vec()
}

/// A fresh per-submission session identifier: the lowercase hex rendering of
/// twelve random bytes, so twenty-four hex digit characters.
pub fn create_session_id() -> (r: String)
    ensures
        r@.len() == 24,
        forall|i: int| 0 <= i < r@.len() ==> is_hex_digit(#[trigger] r@[i]),
        exists|b: Seq<u8>| b.len() == 12 && r@ == hex_of(b),
{
    let bytes = random_bytes_12();
    let r = hex_encode(&bytes);
    proof {
        lemma_hex_of_digits(bytes@);
    }
    r
}

} // verus!
