//! The trade-offer aggregate: a pending two-sided exchange built from a
//! trade URL, mutated by add/remove/toggle operations, serialized to the
//! wire form, and submitted. Submission responses are classified into the
//! failure taxonomy. The network post itself lives outside the crate; the
//! form it sends and the classification of what comes back are verified
//! here.
use vstd::prelude::*;
use vstd::string::StrSliceExecFns;
use vstd::string::StringExecFns;
use crate::error::{status_error, SteamError};
use crate::json::{append_json_string, json_string};
use crate::session::{create_session_id, STEAM_ID_OFFSET};
use crate::text::{
    all_dec_digits, dec_digits, dec_val, is_hex_digit, parse_u64, str_in, u64_to_dec_string,
    vec_contains_str,
};
use crate::url::spec_query_param;
use crate::url::query_param;

verus! {

/// The wire-level identity needed to transfer one unit of an item.
#[derive(Debug)]
pub struct OfferAsset {
    pub appid: String,
    pub contextid: String,
    pub amount: String,
    pub assetid: String,
}

/// The view of an asset reference: its four fields as character sequences.
pub ghost struct OfferAssetV {
    pub appid: Seq<char>,
    pub contextid: Seq<char>,
    pub amount: Seq<char>,
    pub assetid: Seq<char>,
}

impl View for OfferAsset {
    type V = OfferAssetV;

    open spec fn view(&self) -> OfferAssetV {
        OfferAssetV {
            appid: self.appid@,
            contextid: self.contextid@,
            amount: self.amount@,
            assetid: self.assetid@,
        }
    }
}

impl Clone for OfferAsset {
    fn clone(&self) -> (res: Self)
        ensures
            res == *self,
    {
        OfferAsset {
            appid: self.appid.clone(),
            contextid: self.contextid.clone(),
            amount: self.amount.clone(),
            assetid: self.assetid.clone(),
        }
    }
}

impl OfferAsset {
    /// An asset reference from its four wire fields.
    pub fn new(appid: String, contextid: String, amount: String, assetid: String) -> (r: OfferAsset)
        ensures
            r.appid == appid,
            r.contextid == contextid,
            r.amount == amount,
            r.assetid == assetid,
    {
        OfferAsset { appid, contextid, amount, assetid }
    }
}

/// One side of an exchange: an ordered set of asset references, a currency
/// list (unused by the platform today), and a ready flag.
#[derive(Debug)]
pub struct OfferData {
    pub assets: Vec<OfferAsset>,
    pub currency: Vec<String>,
    pub ready: bool,
}

impl OfferData {
    fn new() -> (r: OfferData)
        ensures
            r.assets@ =~= Seq::<OfferAsset>::empty(),
            r.currency@ =~= Seq::<String>::empty(),
            !r.ready,
    {
        OfferData { assets: Vec::new(), currency: Vec::new(), ready: false }
    }
}

/// The two-sided body of an offer, as the platform's JSON expects it.
#[derive(Debug)]
pub struct TradeOfferData {
    pub newversion: bool,
    pub version: u32,
    pub me: OfferData,
    pub them: OfferData,
}

impl TradeOfferData {
    fn new() -> (r: TradeOfferData)
        ensures
            r.newversion,
            r.version == 4,
            r.me.assets@ =~= Seq::<OfferAsset>::empty(),
            r.me.currency@ =~= Seq::<String>::empty(),
            !r.me.ready,
            r.them.assets@ =~= Seq::<OfferAsset>::empty(),
            r.them.currency@ =~= Seq::<String>::empty(),
            !r.them.ready,
    {
        TradeOfferData { newversion: true, version: 4, me: OfferData::new(), them: OfferData::new() }
    }
}

/// The access-token wrapper nested in a submission.
#[derive(Debug)]
pub struct TradeOfferCreateParams {
    pub trade_offer_access_token: String,
}

/// A pending exchange: counterparty, message, two sides, the token scoped to
/// the counterparty, and the trade URL the offer originated from.
#[derive(Debug)]
pub struct TradeOffer {
    pub partner: String,
    pub tradeoffermessage: String,
    pub json_tradeoffer: TradeOfferData,
    pub trade_offer_create_params: TradeOfferCreateParams,
    pub trade_url: String,
}

/// The flat form posted to the offer-creation endpoint: the two nested JSON
/// documents already rendered to strings.
#[derive(Debug)]
pub struct TradeOfferForm {
    pub sessionid: String,
    pub serverid: String,
    pub partner: String,
    pub tradeoffermessage: String,
    pub json_tradeoffer: String,
    pub captcha: String,
    pub trade_offer_create_params: String,
}

/// A successful submission: the new offer's identifier and which further
/// confirmations the platform asks for.
#[derive(Debug)]
pub struct TradeOfferSuccess {
    pub tradeofferid: String,
    pub need_mobile_confirmation: Option<bool>,
    pub needs_email_confirmation: Option<bool>,
    pub email_domain: Option<String>,
}

/// Some reference on the side carries the given asset id.
pub open spec fn side_has_id(s: Seq<OfferAsset>, id: Seq<char>) -> bool {
    exists|i: int| 0 <= i < s.len() && #[trigger] s[i].assetid@ == id
}

/// Adding a reference to a side: a no-op when its asset id is already
/// present, else appended at the end.
pub open spec fn spec_add(s: Seq<OfferAsset>, a: OfferAsset) -> Seq<OfferAsset> {
    if side_has_id(s, a.assetid@) {
        s
    } else {
        s.push(a)
    }
}

/// Adding several references in order, each under the no-duplicate rule.
pub open spec fn spec_add_all(s: Seq<OfferAsset>, items: Seq<OfferAsset>) -> Seq<OfferAsset>
    decreases items.len(),
{
    if items.len() == 0 {
        s
    } else {
        spec_add(spec_add_all(s, items.drop_last()), items.last())
    }
}

/// Removing an asset id from a side: every reference carrying it goes,
/// the others keep their order.
pub open spec fn spec_remove(s: Seq<OfferAsset>, id: Seq<char>) -> Seq<OfferAsset>
    decreases s.len(),
{
    if s.len() == 0 {
        s
    } else {
        spec_remove(s.drop_last(), id) + (if s.last().assetid@ == id {
            Seq::<OfferAsset>::empty()
        } else {
            seq![s.last()]
        })
    }
}

/// Removing every reference whose asset id is among the given ids.
pub open spec fn spec_remove_multi(s: Seq<OfferAsset>, ids: Seq<String>) -> Seq<OfferAsset>
    decreases s.len(),
{
    if s.len() == 0 {
        s
    } else {
        spec_remove_multi(s.drop_last(), ids) + (if str_in(ids, s.last().assetid@) {
            Seq::<OfferAsset>::empty()
        } else {
            seq![s.last()]
        })
    }
}

/// Removing an id that no reference on the side carries changes nothing.
pub proof fn lemma_remove_absent_is_noop(s: Seq<OfferAsset>, id: Seq<char>)
    requires
        !side_has_id(s, id),
    ensures
        spec_remove(s, id) == s,
    decreases s.len(),
{
    if s.len() > 0 {
        assert forall|i: int| 0 <= i < s.drop_last().len() implies #[trigger] s.drop_last()[i].assetid@
            != id by {
            assert(s.drop_last()[i] == s[i]);
        }
        lemma_remove_absent_is_noop(s.drop_last(), id);
        assert(s.last().assetid@ != id);
        assert(s.drop_last() + seq![s.last()] =~= s);
    }
}

/// Adding a reference whose id is absent and then removing that id restores
/// the side exactly.
pub proof fn lemma_add_remove_round_trip(s: Seq<OfferAsset>, a: OfferAsset)
    requires
        !side_has_id(s, a.assetid@),
    ensures
        spec_remove(spec_add(s, a), a.assetid@) == s,
{
    let t = s.push(a);
    assert(spec_add(s, a) == t);
    assert(t.drop_last() =~= s);
    assert(t.last() == a);
    assert(spec_remove(t, a.assetid@) == spec_remove(s, a.assetid@));
    lemma_remove_absent_is_noop(s, a.assetid@);
}

/// Everything of an offer but the self side's asset list is unchanged.
pub open spec fn frame_except_me_assets(pre: TradeOffer, post: TradeOffer) -> bool {
    &&& post.partner == pre.partner
    &&& post.tradeoffermessage == pre.tradeoffermessage
    &&& post.trade_offer_create_params == pre.trade_offer_create_params
    &&& post.trade_url == pre.trade_url
    &&& post.json_tradeoffer.newversion == pre.json_tradeoffer.newversion
    &&& post.json_tradeoffer.version == pre.json_tradeoffer.version
    &&& post.json_tradeoffer.them == pre.json_tradeoffer.them
    &&& post.json_tradeoffer.me.currency == pre.json_tradeoffer.me.currency
    &&& post.json_tradeoffer.me.ready == pre.json_tradeoffer.me.ready
}

/// Everything of an offer but the partner side's asset list is unchanged.
pub open spec fn frame_except_them_assets(pre: TradeOffer, post: TradeOffer) -> bool {
    &&& post.partner == pre.partner
    &&& post.tradeoffermessage == pre.tradeoffermessage
    &&& post.trade_offer_create_params == pre.trade_offer_create_params
    &&& post.trade_url == pre.trade_url
    &&& post.json_tradeoffer.newversion == pre.json_tradeoffer.newversion
    &&& post.json_tradeoffer.version == pre.json_tradeoffer.version
    &&& post.json_tradeoffer.me == pre.json_tradeoffer.me
    &&& post.json_tradeoffer.them.currency == pre.json_tradeoffer.them.currency
    &&& post.json_tradeoffer.them.ready == pre.json_tradeoffer.them.ready
}

/// Membership test of an asset id on a side.
fn side_contains_id(assets: &Vec<OfferAsset>, id: &String) -> (r: bool)
    ensures
        r == side_has_id(assets@, id@),
{
    let mut i: usize = 0;
    while i < assets.len()
        invariant
            0 <= i <= assets@.len(),
            forall|k: int| 0 <= k < i ==> #[trigger] assets@[k].assetid@ != id@,
        decreases assets@.len() - i,
    {
        if assets[i].assetid == *id {
            return true;
        }
        i = i + 1;
    }
    false
}

/// The references kept after removing one asset id.
fn remove_id_from_side(assets: &Vec<OfferAsset>, assetid: &String) -> (r: Vec<OfferAsset>)
    ensures
        r@ == spec_remove(assets@, assetid@),
{
    let mut kept: Vec<OfferAsset> = Vec::new();
    let mut i: usize = 0;
    while i < assets.len()
        invariant
            0 <= i <= assets@.len(),
            kept@ == spec_remove(assets@.subrange(0, i as int), assetid@),
        decreases assets@.len() - i,
    {
        if !(assets[i].assetid == *assetid) {
            kept.push(assets[i].clone());
        }
        proof {
            assert(assets@.subrange(0, i as int + 1).drop_last() =~= assets@.subrange(0, i as int));
            assert(kept@ =~= spec_remove(assets@.subrange(0, i as int + 1), assetid@));
        }
        i = i + 1;
    }
    proof {
        assert(assets@.subrange(0, assets@.len() as int) =~= assets@);
    }
    kept
}

/// The references kept after removing a set of asset ids.
fn remove_ids_from_side(assets: &Vec<OfferAsset>, assetids: &Vec<String>) -> (r: Vec<OfferAsset>)
    ensures
        r@ == spec_remove_multi(assets@, assetids@),
{
    let mut kept: Vec<OfferAsset> = Vec::new();
    let mut i: usize = 0;
    while i < assets.len()
        invariant
            0 <= i <= assets@.len(),
            kept@ == spec_remove_multi(assets@.subrange(0, i as int), assetids@),
        decreases assets@.len() - i,
    {
        if !vec_contains_str(assetids, &assets[i].assetid) {
            kept.push(assets[i].clone());
        }
        proof {
            assert(assets@.subrange(0, i as int + 1).drop_last() =~= assets@.subrange(0, i as int));
            assert(kept@ =~= spec_remove_multi(assets@.subrange(0, i as int + 1), assetids@));
        }
        i = i + 1;
    }
    proof {
        assert(assets@.subrange(0, assets@.len() as int) =~= assets@);
    }
    kept
}

/// Append each reference of `items` to `side` in order, skipping any whose
/// asset id is already present.
fn add_all_to_side(side: &mut Vec<OfferAsset>, items: &Vec<OfferAsset>)
    ensures
        final(side)@ == spec_add_all(old(side)@, items@),
{
    let mut i: usize = 0;
    while i < items.len()
        invariant
            0 <= i <= items@.len(),
            side@ == spec_add_all(old(side)@, items@.subrange(0, i as int)),
        decreases items@.len() - i,
    {
        let a = items[i].clone();
        if !side_contains_id(side, &a.assetid) {
            side.push(a);
        }
        proof {
            assert(items@.subrange(0, i as int + 1).drop_last() =~= items@.subrange(0, i as int));
            assert(items@.subrange(0, i as int + 1).last() == items@[i as int]);
        }
        i = i + 1;
    }
    proof {
        assert(items@.subrange(0, items@.len() as int) =~= items@);
    }
}

/// A partner fragment accepted by offer construction: a non-empty decimal
/// string whose value, plus the platform offset, fits in 64 bits.
pub open spec fn valid_fragment(p: Seq<char>) -> bool {
    p.len() > 0 && all_dec_digits(p) && dec_val(p) + STEAM_ID_OFFSET <= u64::MAX
}

impl TradeOffer {
    /// Build an empty offer from a trade URL: the `partner` query parameter,
    /// converted by the fixed offset, names the counterparty, and the
    /// `token` parameter scopes access. A URL missing either parameter, or
    /// whose partner fragment is not a 64-bit decimal number, is rejected.
    pub fn new(trade_url: String) -> (r: Result<TradeOffer, SteamError>)
        ensures
            r is Ok <==> (spec_query_param(trade_url@, "partner"@) matches Some(p)
                && spec_query_param(trade_url@, "token"@) is Some && valid_fragment(p)),
            r matches Err(e) ==> e == SteamError::MalformedUrlError,
            r matches Ok(o) ==> {
                &&& o.partner@ == dec_digits(
                    (dec_val(spec_query_param(trade_url@, "partner"@)->Some_0)
                        + STEAM_ID_OFFSET) as nat,
                )
                &&& o.tradeoffermessage@ == Seq::<char>::empty()
                &&& o.trade_offer_create_params.trade_offer_access_token@ == spec_query_param(
                    trade_url@,
                    "token"@,
                )->Some_0
                &&& o.trade_url == trade_url
                &&& o.json_tradeoffer.newversion
                &&& o.json_tradeoffer.version == 4
                &&& o.json_tradeoffer.me.assets@ =~= Seq::<OfferAsset>::empty()
                &&& o.json_tradeoffer.me.currency@ =~= Seq::<String>::empty()
                &&& !o.json_tradeoffer.me.ready
                &&& o.json_tradeoffer.them.assets@ =~= Seq::<OfferAsset>::empty()
                &&& o.json_tradeoffer.them.currency@ =~= Seq::<String>::empty()
                &&& !o.json_tradeoffer.them.ready
            },
    {
        let partner_fragment: String = match query_param(trade_url.as_str(), "partner") {
            Some(p) => p,
            None => {
                return Err(SteamError::MalformedUrlError);
            },
        };
        let access_token: String = match query_param(trade_url.as_str(), "token") {
            Some(t) => t,
            None => {
                return Err(SteamError::MalformedUrlError);
            },
        };
        let fragment: u64 = match parse_u64(partner_fragment.as_str()) {
            Some(v) => v,
            None => {
                return Err(SteamError::MalformedUrlError);
            },
        };
        let steam_id: u64 = match fragment.checked_add(STEAM_ID_OFFSET) {
            Some(v) => v,
            None => {
                return Err(SteamError::MalformedUrlError);
            },
        };
        Ok(
            TradeOffer {
                partner: u64_to_dec_string(steam_id),
                tradeoffermessage: String::new(),
                json_tradeoffer: TradeOfferData::new(),
                trade_offer_create_params: TradeOfferCreateParams {
                    trade_offer_access_token: access_token,
                },
                trade_url,
            },
        )
    }

    /// Set the human-readable message carried by the offer.
    pub fn set_trade_message(&mut self, message: String)
        ensures
            final(self).tradeoffermessage == message,
            final(self).partner == old(self).partner,
            final(self).json_tradeoffer == old(self).json_tradeoffer,
            final(self).trade_offer_create_params == old(self).trade_offer_create_params,
            final(self).trade_url == old(self).trade_url,
    {
        self.tradeoffermessage = message;
    }

    /// Add one reference to the self side; a reference whose asset id is
    /// already present is not added again.
    pub fn add_self_item(&mut self, asset: OfferAsset)
        ensures
            final(self).json_tradeoffer.me.assets@ == spec_add(
                old(self).json_tradeoffer.me.assets@,
                asset,
            ),
            frame_except_me_assets(*old(self), *final(self)),
    {
        if !side_contains_id(&self.json_tradeoffer.me.assets, &asset.assetid) {
            self.json_tradeoffer.me.assets.push(asset);
        }
    }

    /// Add several references to the self side, in order, each under the
    /// no-duplicate rule.
    pub fn add_self_items(&mut self, assets: Vec<OfferAsset>)
        ensures
            final(self).json_tradeoffer.me.assets@ == spec_add_all(
                old(self).json_tradeoffer.me.assets@,
                assets@,
            ),
            frame_except_me_assets(*old(self), *final(self)),
    {
        add_all_to_side(&mut self.json_tradeoffer.me.assets, &assets);
    }

    /// Add one reference to the partner side; a reference whose asset id is
    /// already present is not added again.
    pub fn add_partner_item(&mut self, asset: OfferAsset)
        ensures
            final(self).json_tradeoffer.them.assets@ == spec_add(
                old(self).json_tradeoffer.them.assets@,
                asset,
            ),
            frame_except_them_assets(*old(self), *final(self)),
    {
        if !side_contains_id(&self.json_tradeoffer.them.assets, &asset.assetid) {
            self.json_tradeoffer.them.assets.push(asset);
        }
    }

    /// Add several references to the partner side, in order, each under the
    /// no-duplicate rule.
    pub fn add_partner_items(&mut self, assets: Vec<OfferAsset>)
        ensures
            final(self).json_tradeoffer.them.assets@ == spec_add_all(
                old(self).json_tradeoffer.them.assets@,
                assets@,
            ),
            frame_except_them_assets(*old(self), *final(self)),
    {
        add_all_to_side(&mut self.json_tradeoffer.them.assets, &assets);
    }

    /// Remove an asset id from the self side; removing an absent id is a
    /// no-op, not an error.
    pub fn remove_self_item(&mut self, assetid: String)
        ensures
            final(self).json_tradeoffer.me.assets@ == spec_remove(
                old(self).json_tradeoffer.me.assets@,
                assetid@,
            ),
            frame_except_me_assets(*old(self), *final(self)),
    {
        self.json_tradeoffer.me.assets = remove_id_from_side(
            &self.json_tradeoffer.me.assets,
            &assetid,
        );
    }

    /// Remove several asset ids from the self side.
    pub fn remove_self_items(&mut self, assetids: Vec<String>)
        ensures
            final(self).json_tradeoffer.me.assets@ == spec_remove_multi(
                old(self).json_tradeoffer.me.assets@,
                assetids@,
            ),
            frame_except_me_assets(*old(self), *final(self)),
    {
        self.json_tradeoffer.me.assets = remove_ids_from_side(
            &self.json_tradeoffer.me.assets,
            &assetids,
        );
    }

    /// Remove an asset id from the partner side; removing an absent id is a
    /// no-op, not an error.
    pub fn remove_partner_item(&mut self, assetid: String)
        ensures
            final(self).json_tradeoffer.them.assets@ == spec_remove(
                old(self).json_tradeoffer.them.assets@,
                assetid@,
            ),
            frame_except_them_assets(*old(self), *final(self)),
    {
        self.json_tradeoffer.them.assets = remove_id_from_side(
            &self.json_tradeoffer.them.assets,
            &assetid,
        );
    }

    /// Remove several asset ids from the partner side.
    pub fn remove_partner_items(&mut self, assetids: Vec<String>)
        ensures
            final(self).json_tradeoffer.them.assets@ == spec_remove_multi(
                old(self).json_tradeoffer.them.assets@,
                assetids@,
            ),
            frame_except_them_assets(*old(self), *final(self)),
    {
        self.json_tradeoffer.them.assets = remove_ids_from_side(
            &self.json_tradeoffer.them.assets,
            &assetids,
        );
    }

    /// Flip the self side's ready flag.
    pub fn toggle_self_ready(&mut self)
        ensures
            final(self).json_tradeoffer.me.ready == !old(self).json_tradeoffer.me.ready,
            final(self).json_tradeoffer.me.assets == old(self).json_tradeoffer.me.assets,
            final(self).json_tradeoffer.me.currency == old(self).json_tradeoffer.me.currency,
            final(self).json_tradeoffer.them == old(self).json_tradeoffer.them,
            final(self).json_tradeoffer.newversion == old(self).json_tradeoffer.newversion,
            final(self).json_tradeoffer.version == old(self).json_tradeoffer.version,
            final(self).partner == old(self).partner,
            final(self).tradeoffermessage == old(self).tradeoffermessage,
            final(self).trade_offer_create_params == old(self).trade_offer_create_params,
            final(self).trade_url == old(self).trade_url,
    {
        self.json_tradeoffer.me.ready = !self.json_tradeoffer.me.ready;
    }

    /// Flip the partner side's ready flag.
    pub fn toggle_partner_ready(&mut self)
        ensures
            final(self).json_tradeoffer.them.ready == !old(self).json_tradeoffer.them.ready,
            final(self).json_tradeoffer.them.assets == old(self).json_tradeoffer.them.assets,
            final(self).json_tradeoffer.them.currency == old(self).json_tradeoffer.them.currency,
            final(self).json_tradeoffer.me == old(self).json_tradeoffer.me,
            final(self).json_tradeoffer.newversion == old(self).json_tradeoffer.newversion,
            final(self).json_tradeoffer.version == old(self).json_tradeoffer.version,
            final(self).partner == old(self).partner,
            final(self).tradeoffermessage == old(self).tradeoffermessage,
            final(self).trade_offer_create_params == old(self).trade_offer_create_params,
            final(self).trade_url == old(self).trade_url,
    {
        self.json_tradeoffer.them.ready = !self.json_tradeoffer.them.ready;
    }

    /// Classify the offer-creation endpoint's response: 200 with a parsed
    /// body succeeds; 200 with an unparsable body is a protocol error
    /// carrying the raw body; 429, 403 and every other status map to the
    /// taxonomy.
    pub fn classify_response(status: u16, parsed: Option<TradeOfferSuccess>, raw_body: String) -> (r:
        Result<TradeOfferSuccess, SteamError>)
        ensures
            status == 200 && parsed is Some ==> r == Ok::<TradeOfferSuccess, SteamError>(
                parsed->Some_0,
            ),
            status == 200 && parsed is None ==> r == Err::<TradeOfferSuccess, SteamError>(
                SteamError::ProtocolError { body: raw_body },
            ),
            status == 429 ==> r == Err::<TradeOfferSuccess, SteamError>(
                SteamError::RateLimitedError,
            ),
            status == 403 ==> r == Err::<TradeOfferSuccess, SteamError>(SteamError::ForbiddenError),
            status != 200 && status != 429 && status != 403 ==> r == Err::<
                TradeOfferSuccess,
                SteamError,
            >(SteamError::UnexpectedStatusError { status, body: raw_body }),
    {
        if status == 200 {
            match parsed {
                Some(success) => Ok(success),
                None => Err(SteamError::ProtocolError { body: raw_body }),
            }
        } else {
            Err(status_error(status, raw_body))
        }
    }
}

/// `true` or `false`, as JSON spells a boolean.
pub open spec fn bool_chars(b: bool) -> Seq<char> {
    if b {
        "true"@
    } else {
        "false"@
    }
}

/// The JSON object for one asset reference, fields in wire order.
pub open spec fn json_of_asset(a: OfferAsset) -> Seq<char> {
    "{\"appid\":"@ + json_string(a.appid@) + ",\"contextid\":"@ + json_string(a.contextid@)
        + ",\"amount\":"@ + json_string(a.amount@) + ",\"assetid\":"@ + json_string(a.assetid@)
        + "}"@
}

/// The comma-separated JSON objects of a side's asset references.
pub open spec fn json_of_assets(s: Seq<OfferAsset>) -> Seq<char>
    decreases s.len(),
{
    if s.len() == 0 {
        Seq::<char>::empty()
    } else if s.len() == 1 {
        json_of_asset(s[0])
    } else {
        json_of_assets(s.drop_last()) + ","@ + json_of_asset(s.last())
    }
}

/// The comma-separated JSON string literals of a currency list.
pub open spec fn json_of_strings(s: Seq<String>) -> Seq<char>
    decreases s.len(),
{
    if s.len() == 0 {
        Seq::<char>::empty()
    } else if s.len() == 1 {
        json_string(s[0]@)
    } else {
        json_of_strings(s.drop_last()) + ","@ + json_string(s.last()@)
    }
}

/// The JSON object for one side of the exchange.
pub open spec fn json_of_offer_data(d: OfferData) -> Seq<char> {
    "{\"assets\":["@ + json_of_assets(d.assets@) + "],\"currency\":["@ + json_of_strings(
        d.currency@,
    ) + "],\"ready\":"@ + bool_chars(d.ready) + "}"@
}

/// The JSON document posted as the `json_tradeoffer` form field.
pub open spec fn json_of_trade_data(t: TradeOfferData) -> Seq<char> {
    "{\"newversion\":"@ + bool_chars(t.newversion) + ",\"version\":"@ + dec_digits(t.version as nat)
        + ",\"me\":"@ + json_of_offer_data(t.me) + ",\"them\":"@ + json_of_offer_data(t.them) + "}"@
}

/// The JSON document posted as the `trade_offer_create_params` form field.
pub open spec fn json_of_create_params(p: TradeOfferCreateParams) -> Seq<char> {
    "{\"trade_offer_access_token\":"@ + json_string(p.trade_offer_access_token@) + "}"@
}

/// Append the JSON object of one asset reference.
fn append_asset_json(out: &mut String, a: &OfferAsset)
    ensures
        final(out)@ == old(out)@ + json_of_asset(*a),
{
    out.append("{\"appid\":");
    append_json_string(out, a.appid.as_str());
    out.append(",\"contextid\":");
    append_json_string(out, a.contextid.as_str());
    out.append(",\"amount\":");
    append_json_string(out, a.amount.as_str());
    out.append(",\"assetid\":");
    append_json_string(out, a.assetid.as_str());
    out.append("}");
    assert(final(out)@ =~= old(out)@ + json_of_asset(*a));
}

/// Append the comma-separated JSON objects of a side's asset references.
fn append_assets_json(out: &mut String, v: &Vec<OfferAsset>)
    ensures
        final(out)@ == old(out)@ + json_of_assets(v@),
{
    let mut i: usize = 0;
    while i < v.len()
        invariant
            0 <= i <= v@.len(),
            out@ == old(out)@ + json_of_assets(v@.subrange(0, i as int)),
        decreases v@.len() - i,
    {
        if i > 0 {
            out.append(",");
        }
        append_asset_json(out, &v[i]);
        proof {
            assert(v@.subrange(0, i as int + 1).drop_last() =~= v@.subrange(0, i as int));
            assert(v@.subrange(0, i as int + 1).last() == v@[i as int]);
            assert(out@ =~= old(out)@ + json_of_assets(v@.subrange(0, i as int + 1)));
        }
        i = i + 1;
    }
    proof {
        assert(v@.subrange(0, v@.len() as int) =~= v@);
    }
}

/// Append the comma-separated JSON string literals of a currency list.
fn append_strings_json(out: &mut String, v: &Vec<String>)
    ensures
        final(out)@ == old(out)@ + json_of_strings(v@),
{
    let mut i: usize = 0;
    while i < v.len()
        invariant
            0 <= i <= v@.len(),
            out@ == old(out)@ + json_of_strings(v@.subrange(0, i as int)),
        decreases v@.len() - i,
    {
        if i > 0 {
            out.append(",");
        }
        append_json_string(out, v[i].as_str());
        proof {
            assert(v@.subrange(0, i as int + 1).drop_last() =~= v@.subrange(0, i as int));
            assert(v@.subrange(0, i as int + 1).last() == v@[i as int]);
            assert(out@ =~= old(out)@ + json_of_strings(v@.subrange(0, i as int + 1)));
        }
        i = i + 1;
    }
    proof {
        assert(v@.subrange(0, v@.len() as int) =~= v@);
    }
}

/// Append the JSON object of one side.
fn append_offer_data_json(out: &mut String, d: &OfferData)
    ensures
        final(out)@ == old(out)@ + json_of_offer_data(*d),
{
    out.append("{\"assets\":[");
    append_assets_json(out, &d.assets);
    out.append("],\"currency\":[");
    append_strings_json(out, &d.currency);
    out.append("],\"ready\":");
    if d.ready {
        out.append("true");
    } else {
        out.append("false");
    }
    out.append("}");
    assert(final(out)@ =~= old(out)@ + json_of_offer_data(*d));
}

/// Render the two-sided offer body to its JSON document.
pub fn trade_data_json(t: &TradeOfferData) -> (r: String)
    ensures
        r@ == json_of_trade_data(*t),
{
    let mut out = String::new();
    out.append("{\"newversion\":");
    if t.newversion {
        out.append("true");
    } else {
        out.append("false");
    }
    out.append(",\"version\":");
    crate::text::append_u64_dec(&mut out, t.version as u64);
    out.append(",\"me\":");
    append_offer_data_json(&mut out, &t.me);
    out.append(",\"them\":");
    append_offer_data_json(&mut out, &t.them);
    out.append("}");
    assert(out@ =~= json_of_trade_data(*t));
    out
}

/// Render the access-token wrapper to its JSON document.
pub fn create_params_json(p: &TradeOfferCreateParams) -> (r: String)
    ensures
        r@ == json_of_create_params(*p),
{
    let mut out = String::new();
    out.append("{\"trade_offer_access_token\":");
    append_json_string(&mut out, p.trade_offer_access_token.as_str());
    out.append("}");
    assert(out@ =~= json_of_create_params(*p));
    out
}

impl TradeOfferForm {
    /// The flat submission form of an offer: a fresh random session id, the
    /// fixed server id and empty captcha, and the two nested JSON documents
    /// rendered to strings.
    pub fn from(trade_offer: &TradeOffer) -> (r: TradeOfferForm)
        ensures
            r.sessionid@.len() == 24,
            forall|i: int| 0 <= i < r.sessionid@.len() ==> is_hex_digit(#[trigger] r.sessionid@[i]),
            r.serverid@ == "1"@,
            r.partner == trade_offer.partner,
            r.tradeoffermessage == trade_offer.tradeoffermessage,
            r.json_tradeoffer@ == json_of_trade_data(trade_offer.json_tradeoffer),
            r.captcha@ == Seq::<char>::empty(),
            r.trade_offer_create_params@ == json_of_create_params(
                trade_offer.trade_offer_create_params,
            ),
    {
        TradeOfferForm {
            sessionid: create_session_id(),
            serverid: String::from_str("1"),
            partner: trade_offer.partner.clone(),
            tradeoffermessage: trade_offer.tradeoffermessage.clone(),
            json_tradeoffer: trade_data_json(&trade_offer.json_tradeoffer),
            captcha: String::new(),
            trade_offer_create_params: create_params_json(&trade_offer.trade_offer_create_params),
        }
    }
}

/// The cookie header for a submission: the caller's authentication cookie
/// with the per-submission session id appended.
pub fn compose_cookie(cookie: &str, session_id: &str) -> (r: String)
    ensures
        r@ == cookie@ + "sessionid="@ + session_id@ + ";"@,
{
    let mut out = String::new();
    out.append(cookie);
    out.append("sessionid=");
    out.append(session_id);
    out.append(";");
    assert(out@ =~= cookie@ + "sessionid="@ + session_id@ + ";"@);
    out
}

} // verus!
