//! A point-in-time snapshot of a profile's inventory: assets (physical,
//! uniquely-owned units) and item descriptions (shared display metadata keyed
//! by class and instance id), with name search, tag filtering, classification
//! of the fetch response, and resolution of descriptions to concrete
//! trade-offer asset references without double-counting.
use vstd::prelude::*;
use vstd::string::StringExecFns;
use crate::error::{status_error, SteamError, UnauthorizedResponse};
use crate::text::{
    contains_substring, dec_digits, has_substring, str_eq, str_in, u64_to_dec_string,
    vec_contains_str,
};
use crate::trade::{OfferAsset, OfferAssetV};

verus! {

/// One physical, uniquely-owned unit of an item.
#[derive(Debug)]
pub struct Asset {
    pub appid: i64,
    pub contextid: String,
    pub assetid: String,
    pub classid: String,
    pub instanceid: String,
    pub amount: String,
}

impl Clone for Asset {
    fn clone(&self) -> (res: Self)
        ensures
            res == *self,
    {
        Asset {
            appid: self.appid,
            contextid: self.contextid.clone(),
            assetid: self.assetid.clone(),
            classid: self.classid.clone(),
            instanceid: self.instanceid.clone(),
            amount: self.amount.clone(),
        }
    }
}

/// One display line of an item description.
#[derive(Debug)]
pub struct Description {
    pub _type: Option<String>,
    pub value: String,
    pub color: Option<String>,
}

/// A link offered on an item (inspect, wiki, and the like).
#[derive(Debug)]
pub struct Action {
    pub link: String,
    pub name: String,
}

/// One category tag of an item description.
#[derive(Debug)]
pub struct Tag {
    pub category: String,
    pub internal_name: String,
    pub localized_category_name: String,
    pub localized_tag_name: String,
    pub color: Option<String>,
}

/// Clone an optional string, preserving the value.
fn clone_opt_string(o: &Option<String>) -> (r: Option<String>)
    ensures
        r == *o,
{
    match o {
        Some(s) => Some(s.clone()),
        None => None,
    }
}

impl Clone for Description {
    fn clone(&self) -> (res: Self)
        ensures
            res == *self,
    {
        Description {
            _type: clone_opt_string(&self._type),
            value: self.value.clone(),
            color: clone_opt_string(&self.color),
        }
    }
}

impl Clone for Action {
    fn clone(&self) -> (res: Self)
        ensures
            res == *self,
    {
        Action { link: self.link.clone(), name: self.name.clone() }
    }
}

impl Clone for Tag {
    fn clone(&self) -> (res: Self)
        ensures
            res == *self,
    {
        Tag {
            category: self.category.clone(),
            internal_name: self.internal_name.clone(),
            localized_category_name: self.localized_category_name.clone(),
            localized_tag_name: self.localized_tag_name.clone(),
            color: clone_opt_string(&self.color),
        }
    }
}

/// Clone a vector of description lines, preserving the element values.
fn clone_descriptions(v: &Vec<Description>) -> (r: Vec<Description>)
    ensures
        r@ == v@,
{
    let mut out: Vec<Description> = Vec::new();
    let mut i: usize = 0;
    while i < v.len()
        invariant
            0 <= i <= v@.len(),
            out@ == v@.subrange(0, i as int),
        decreases v@.len() - i,
    {
        out.push(v[i].clone());
        assert(out@ =~= v@.subrange(0, i as int + 1));
        i = i + 1;
    }
    assert(v@.subrange(0, v@.len() as int) =~= v@);
    out
}

/// Clone a vector of actions, preserving the element values.
fn clone_actions(v: &Vec<Action>) -> (r: Vec<Action>)
    ensures
        r@ == v@,
{
    let mut out: Vec<Action> = Vec::new();
    let mut i: usize = 0;
    while i < v.len()
        invariant
            0 <= i <= v@.len(),
            out@ == v@.subrange(0, i as int),
        decreases v@.len() - i,
    {
        out.push(v[i].clone());
        assert(out@ =~= v@.subrange(0, i as int + 1));
        i = i + 1;
    }
    assert(v@.subrange(0, v@.len() as int) =~= v@);
    out
}

/// Clone a vector of tags, preserving the element values.
fn clone_tags(v: &Vec<Tag>) -> (r: Vec<Tag>)
    ensures
        r@ == v@,
{
    let mut out: Vec<Tag> = Vec::new();
    let mut i: usize = 0;
    while i < v.len()
        invariant
            0 <= i <= v@.len(),
            out@ == v@.subrange(0, i as int),
        decreases v@.len() - i,
    {
        out.push(v[i].clone());
        assert(out@ =~= v@.subrange(0, i as int + 1));
        i = i + 1;
    }
    assert(v@.subrange(0, v@.len() as int) =~= v@);
    out
}

/// An optional action list as an optional sequence.
pub open spec fn opt_actions_view(o: Option<Vec<Action>>) -> Option<Seq<Action>> {
    match o {
        Some(v) => Some(v@),
        None => None,
    }
}

/// Clone an optional action list, preserving the element values.
fn clone_opt_actions(o: &Option<Vec<Action>>) -> (r: Option<Vec<Action>>)
    ensures
        opt_actions_view(r) == opt_actions_view(*o),
{
    match o {
        Some(v) => Some(clone_actions(v)),
        None => None,
    }
}

/// The shared display and market metadata of a class of items, keyed by its
/// class and instance ids; many assets may share one description.
#[derive(Debug)]
pub struct AssetDescription {
    pub appid: i64,
    pub classid: String,
    pub instanceid: String,
    pub currency: i64,
    pub background_color: String,
    pub icon_url: String,
    pub icon_url_large: Option<String>,
    pub descriptions: Vec<Description>,
    pub tradable: i64,
    pub actions: Option<Vec<Action>>,
    pub name: String,
    pub name_color: Option<String>,
    pub _type: String,
    pub market_name: String,
    pub market_hash_name: String,
    pub market_actions: Option<Vec<Action>>,
    pub commodity: i64,
    pub market_tradable_restriction: i64,
    pub market_marketable_restriction: Option<i64>,
    pub marketable: i64,
    pub tags: Vec<Tag>,
    pub market_buy_country_restriction: Option<String>,
}

/// The view of a description: vectors become sequences, everything else
/// keeps its value.
pub ghost struct AssetDescriptionV {
    pub appid: i64,
    pub classid: String,
    pub instanceid: String,
    pub currency: i64,
    pub background_color: String,
    pub icon_url: String,
    pub icon_url_large: Option<String>,
    pub descriptions: Seq<Description>,
    pub tradable: i64,
    pub actions: Option<Seq<Action>>,
    pub name: String,
    pub name_color: Option<String>,
    pub _type: String,
    pub market_name: String,
    pub market_hash_name: String,
    pub market_actions: Option<Seq<Action>>,
    pub commodity: i64,
    pub market_tradable_restriction: i64,
    pub market_marketable_restriction: Option<i64>,
    pub marketable: i64,
    pub tags: Seq<Tag>,
    pub market_buy_country_restriction: Option<String>,
}

impl View for AssetDescription {
    type V = AssetDescriptionV;

    open spec fn view(&self) -> AssetDescriptionV {
        AssetDescriptionV {
            appid: self.appid,
            classid: self.classid,
            instanceid: self.instanceid,
            currency: self.currency,
            background_color: self.background_color,
            icon_url: self.icon_url,
            icon_url_large: self.icon_url_large,
            descriptions: self.descriptions@,
            tradable: self.tradable,
            actions: opt_actions_view(self.actions),
            name: self.name,
            name_color: self.name_color,
            _type: self._type,
            market_name: self.market_name,
            market_hash_name: self.market_hash_name,
            market_actions: opt_actions_view(self.market_actions),
            commodity: self.commodity,
            market_tradable_restriction: self.market_tradable_restriction,
            market_marketable_restriction: self.market_marketable_restriction,
            marketable: self.marketable,
            tags: self.tags@,
            market_buy_country_restriction: self.market_buy_country_restriction,
        }
    }
}

impl Clone for AssetDescription {
    fn clone(&self) -> (res: Self)
        ensures
            res@ == self@,
    {
        AssetDescription {
            appid: self.appid,
            classid: self.classid.clone(),
            instanceid: self.instanceid.clone(),
            currency: self.currency,
            background_color: self.background_color.clone(),
            icon_url: self.icon_url.clone(),
            icon_url_large: clone_opt_string(&self.icon_url_large),
            descriptions: clone_descriptions(&self.descriptions),
            tradable: self.tradable,
            actions: clone_opt_actions(&self.actions),
            name: self.name.clone(),
            name_color: clone_opt_string(&self.name_color),
            _type: self._type.clone(),
            market_name: self.market_name.clone(),
            market_hash_name: self.market_hash_name.clone(),
            market_actions: clone_opt_actions(&self.market_actions),
            commodity: self.commodity,
            market_tradable_restriction: self.market_tradable_restriction,
            market_marketable_restriction: self.market_marketable_restriction,
            marketable: self.marketable,
            tags: clone_tags(&self.tags),
            market_buy_country_restriction: clone_opt_string(&self.market_buy_country_restriction),
        }
    }
}

/// A point-in-time inventory snapshot, as the inventory endpoint returns it.
#[derive(Debug)]
pub struct Inventory {
    pub assets: Vec<Asset>,
    pub descriptions: Vec<AssetDescription>,
    pub total_inventory_count: i64,
    pub success: i32,
    pub rwgrsn: i32,
}

/// An asset resolves to a description when their class and instance ids
/// agree.
pub open spec fn asset_matches(item: AssetDescriptionV, a: Asset) -> bool {
    item.classid@ == a.classid@ && item.instanceid@ == a.instanceid@
}

/// An asset's class and instance ids resolve to exactly one description of
/// the list.
pub open spec fn resolves_uniquely(descs: Seq<AssetDescription>, a: Asset) -> bool {
    exists|j: int|
        #![trigger descs[j]]
        0 <= j < descs.len() && asset_matches(descs[j]@, a) && (forall|k: int|
            #![trigger descs[k]]
            0 <= k < descs.len() && k != j ==> !asset_matches(descs[k]@, a))
}

/// The snapshot invariant: every asset's class and instance ids resolve to
/// exactly one description in the same snapshot.
pub open spec fn snapshot_well_formed(inv: Inventory) -> bool {
    forall|i: int|
        0 <= i < inv.assets@.len() ==> resolves_uniquely(inv.descriptions@, #[trigger] inv.assets@[i])
}

/// Does this asset resolve to exactly one description of the list?
fn check_resolves_uniquely(descs: &Vec<AssetDescription>, a: &Asset) -> (r: bool)
    ensures
        r == resolves_uniquely(descs@, *a),
{
    let mut j: usize = 0;
    let mut count: usize = 0;
    let mut first: usize = 0;
    let mut second: usize = 0;
    while j < descs.len()
        invariant
            0 <= j <= descs@.len(),
            count <= 2,
            count == 0 ==> forall|k: int|
                #![trigger descs@[k]]
                0 <= k < j ==> !asset_matches(descs@[k]@, *a),
            count == 1 ==> first < j && asset_matches(descs@[first as int]@, *a) && (forall|k: int|
                #![trigger descs@[k]]
                0 <= k < j && k != first ==> !asset_matches(descs@[k]@, *a)),
            count == 2 ==> first < second < j && asset_matches(descs@[first as int]@, *a)
                && asset_matches(descs@[second as int]@, *a),
        decreases descs@.len() - j,
    {
        let d = &descs[j];
        if str_eq(d.classid.as_str(), a.classid.as_str()) && str_eq(
            d.instanceid.as_str(),
            a.instanceid.as_str(),
        ) {
            assert(asset_matches(descs@[j as int]@, *a));
            if count == 0 {
                first = j;
                count = 1;
            } else if count == 1 {
                second = j;
                count = 2;
            }
        } else {
            assert(!asset_matches(descs@[j as int]@, *a));
        }
        j = j + 1;
    }
    if count == 1 {
        assert(resolves_uniquely(descs@, *a));
        true
    } else if count == 0 {
        proof {
            if resolves_uniquely(descs@, *a) {
                let w = choose|w: int|
                    #![trigger descs@[w]]
                    0 <= w < descs@.len() && asset_matches(descs@[w]@, *a) && (forall|k: int|
                        #![trigger descs@[k]]
                        0 <= k < descs@.len() && k != w ==> !asset_matches(descs@[k]@, *a));
                assert(!asset_matches(descs@[w]@, *a));
            }
        }
        false
    } else {
        proof {
            if resolves_uniquely(descs@, *a) {
                let w = choose|w: int|
                    #![trigger descs@[w]]
                    0 <= w < descs@.len() && asset_matches(descs@[w]@, *a) && (forall|k: int|
                        #![trigger descs@[k]]
                        0 <= k < descs@.len() && k != w ==> !asset_matches(descs@[k]@, *a));
                if w != first {
                    assert(!asset_matches(descs@[first as int]@, *a));
                } else {
                    assert(!asset_matches(descs@[second as int]@, *a));
                }
            }
        }
        false
    }
}

/// A description's market name contains the query as a substring.
pub open spec fn name_matches(d: AssetDescriptionV, q: Seq<char>) -> bool {
    has_substring(d.market_name@, q)
}

/// The description at `i` matches the query and no earlier one does.
pub open spec fn first_name_match(descs: Seq<AssetDescription>, q: Seq<char>, i: int) -> bool {
    &&& 0 <= i < descs.len()
    &&& name_matches(descs[i]@, q)
    &&& forall|j: int| 0 <= j < i ==> !name_matches(#[trigger] descs[j]@, q)
}

/// A description has a tag of the given category with the given localized
/// name.
pub open spec fn has_tag(d: AssetDescriptionV, cat: Seq<char>, val: Seq<char>) -> bool {
    exists|i: int|
        #![trigger d.tags[i]]
        0 <= i < d.tags.len() && d.tags[i].category@ == cat && d.tags[i].localized_tag_name@ == val
}

/// The views of a sequence of descriptions.
pub open spec fn desc_views(s: Seq<AssetDescription>) -> Seq<AssetDescriptionV> {
    s.map_values(|d: AssetDescription| d@)
}

/// The views of the descriptions carrying the given tag, in snapshot order.
pub open spec fn filter_tag_views(s: Seq<AssetDescription>, cat: Seq<char>, val: Seq<char>) -> Seq<
    AssetDescriptionV,
>
    decreases s.len(),
{
    if s.len() == 0 {
        Seq::<AssetDescriptionV>::empty()
    } else {
        filter_tag_views(s.drop_last(), cat, val) + (if has_tag(s.last()@, cat, val) {
            seq![s.last()@]
        } else {
            Seq::<AssetDescriptionV>::empty()
        })
    }
}

/// Does the description carry a tag of this category and localized name?
fn description_has_tag(d: &AssetDescription, cat: &str, val: &str) -> (r: bool)
    ensures
        r == has_tag(d@, cat@, val@),
{
    let mut i: usize = 0;
    while i < d.tags.len()
        invariant
            0 <= i <= d.tags@.len(),
            forall|k: int|
                #![trigger d.tags@[k]]
                0 <= k < i ==> !(d.tags@[k].category@ == cat@ && d.tags@[k].localized_tag_name@
                    == val@),
        decreases d.tags@.len() - i,
    {
        if str_eq(d.tags[i].category.as_str(), cat) && str_eq(
            d.tags[i].localized_tag_name.as_str(),
            val,
        ) {
            assert(d@.tags[i as int] == d.tags@[i as int]);
            assert(has_tag(d@, cat@, val@));
            return true;
        }
        i = i + 1;
    }
    proof {
        assert(d@.tags =~= d.tags@);
        if has_tag(d@, cat@, val@) {
            let w = choose|w: int|
                #![trigger d@.tags[w]]
                0 <= w < d@.tags.len() && d@.tags[w].category@ == cat@
                    && d@.tags[w].localized_tag_name@ == val@;
            assert(d.tags@[w].category@ == cat@ && d.tags@[w].localized_tag_name@ == val@);
            assert(false);
        }
    }
    false
}

/// The cosmetic per-tag enumerations: quality grades.
pub enum ItemRarity {
    ConsumerGrade,
    IndustrialGrade,
    MilspecGrade,
    Restricted,
    Classified,
    Covert,
    Contraband,
    BaseGrade,
    Distinguished,
    Exceptional,
    Superior,
    Extraordinary,
    Master,
    HighGrade,
    Remarkable,
    Exotic,
}

/// The cosmetic per-tag enumerations: item categories.
pub enum ItemCategory {
    Normal,
    Souvenir,
    Stattrak,
    Special,
    SpecialStattrak,
}

/// The cosmetic per-tag enumerations: wear exteriors.
pub enum ItemExterior {
    FieldTested,
    MinimalWear,
    BattleScarred,
    WellWorn,
    FactoryNew,
    NotPainted,
}

/// The cosmetic per-tag enumerations: item types.
pub enum ItemType {
    Pistol,
    SMG,
    Rifle,
    SniperRifle,
    Shotgun,
    Machinegun,
    Agent,
    Container,
    Knife,
    Sticker,
    Gloves,
    Graffiti,
    MusicKit,
    Patch,
    Collectible,
    Key,
    Pass,
    Gift,
    Tag,
    Tool,
}

/// The localized tag name a quality grade filters by.
pub open spec fn rarity_tag_name(q: ItemRarity) -> Seq<char> {
    match q {
        ItemRarity::ConsumerGrade => "Consumer Grade"@,
        ItemRarity::IndustrialGrade => "Industrial Grade"@,
        ItemRarity::MilspecGrade => "Mil-Spec Grade"@,
        ItemRarity::Restricted => "Restricted"@,
        ItemRarity::Classified => "Classified"@,
        ItemRarity::Covert => "Covert"@,
        ItemRarity::Contraband => "Contraband"@,
        ItemRarity::BaseGrade => "Base Grade"@,
        ItemRarity::Distinguished => "Distinguished"@,
        ItemRarity::Exceptional => "Exceptional"@,
        ItemRarity::Superior => "Superior"@,
        ItemRarity::Extraordinary => "Extraordinary"@,
        ItemRarity::Master => "Master"@,
        ItemRarity::HighGrade => "High Grade"@,
        ItemRarity::Remarkable => "Remarkable"@,
        ItemRarity::Exotic => "Exotic"@,
    }
}

/// The localized tag name a category filters by.
pub open spec fn category_tag_name(c: ItemCategory) -> Seq<char> {
    match c {
        ItemCategory::Normal => "Normal"@,
        ItemCategory::Souvenir => "Souvenir"@,
        ItemCategory::Stattrak => "StatTrak™"@,
        ItemCategory::Special => "★"@,
        ItemCategory::SpecialStattrak => "★ StatTrak™"@,
    }
}

/// The localized tag name an exterior filters by.
pub open spec fn exterior_tag_name(e: ItemExterior) -> Seq<char> {
    match e {
        ItemExterior::FieldTested => "Field-Tested"@,
        ItemExterior::MinimalWear => "Minimal Wear"@,
        ItemExterior::BattleScarred => "Battle-Scarred"@,
        ItemExterior::WellWorn => "Well-Worn"@,
        ItemExterior::FactoryNew => "Factory New"@,
        ItemExterior::NotPainted => "Not Painted"@,
    }
}

/// The localized tag name an item type filters by.
pub open spec fn type_tag_name(t: ItemType) -> Seq<char> {
    match t {
        ItemType::Pistol => "Pistol"@,
        ItemType::SMG => "SMG"@,
        ItemType::Rifle => "Rifle"@,
        ItemType::SniperRifle => "Sniper Rifle"@,
        ItemType::Shotgun => "Shotgun"@,
        ItemType::Machinegun => "Machinegun"@,
        ItemType::Agent => "Agent"@,
        ItemType::Container => "Container"@,
        ItemType::Knife => "Knife"@,
        ItemType::Sticker => "Sticker"@,
        ItemType::Gloves => "Gloves"@,
        ItemType::Graffiti => "Graffiti"@,
        ItemType::MusicKit => "Music Kit"@,
        ItemType::Patch => "Patch"@,
        ItemType::Collectible => "Collectible"@,
        ItemType::Key => "Key"@,
        ItemType::Pass => "Pass"@,
        ItemType::Gift => "Gift"@,
        ItemType::Tag => "Tag"@,
        ItemType::Tool => "Tool"@,
    }
}

impl Inventory {
    /// Does every asset of this snapshot resolve to exactly one description?
    /// The snapshot invariant of the inventory endpoint, checkable on any
    /// decoded body.
    pub fn is_well_formed(&self) -> (r: bool)
        ensures
            r == snapshot_well_formed(*self),
    {
        let mut i: usize = 0;
        while i < self.assets.len()
            invariant
                0 <= i <= self.assets@.len(),
                forall|k: int|
                    0 <= k < i ==> resolves_uniquely(self.descriptions@, #[trigger] self.assets@[k]),
            decreases self.assets@.len() - i,
        {
            if !check_resolves_uniquely(&self.descriptions, &self.assets[i]) {
                assert(!resolves_uniquely(self.descriptions@, self.assets@[i as int]));
                return false;
            }
            i = i + 1;
        }
        true
    }

    /// Classify the inventory endpoint's response into the legacy error
    /// shape: the snapshot on 200 with a parsed body; otherwise a failed
    /// `UnauthorizedResponse` whose message names rate limiting, forbidden
    /// access, the decimal status, or (for an unparsable 200 body) carries
    /// the raw body.
    pub fn new(status: u16, parsed: Option<Inventory>, raw_body: String) -> (r: Result<
        Inventory,
        UnauthorizedResponse,
    >)
        ensures
            status == 200 && parsed is Some ==> r == Ok::<Inventory, UnauthorizedResponse>(
                parsed->Some_0,
            ),
            status == 200 && parsed is None ==> r == Err::<Inventory, UnauthorizedResponse>(
                UnauthorizedResponse { success: false, error: raw_body },
            ),
            status == 429 ==> (r matches Err(u) && !u.success && u.error@ == "Rate Limited"@),
            status == 403 ==> (r matches Err(u) && !u.success && u.error@ == "Forbidden Access"@),
            status != 200 && status != 429 && status != 403 ==> (r matches Err(u) && !u.success
                && u.error@ == dec_digits(status as nat)),
    {
        if status == 200 {
            match parsed {
                Some(inventory) => Ok(inventory),
                None => Err(UnauthorizedResponse { success: false, error: raw_body }),
            }
        } else if status == 429 {
            Err(UnauthorizedResponse { success: false, error: String::from_str("Rate Limited") })
        } else if status == 403 {
            Err(
                UnauthorizedResponse {
                    success: false,
                    error: String::from_str("Forbidden Access"),
                },
            )
        } else {
            Err(
                UnauthorizedResponse {
                    success: false,
                    error: u64_to_dec_string(status as u64),
                },
            )
        }
    }

    /// Classify the inventory endpoint's response: 200 with a parsed body is
    /// the snapshot; 200 with an unparsable body is a protocol error carrying
    /// the raw body; 429, 403 and every other status map to the taxonomy.
    pub fn from_response(status: u16, parsed: Option<Inventory>, raw_body: String) -> (r: Result<
        Inventory,
        SteamError,
    >)
        ensures
            status == 200 && parsed is Some ==> r == Ok::<Inventory, SteamError>(parsed->Some_0),
            status == 200 && parsed is None ==> r == Err::<Inventory, SteamError>(
                SteamError::ProtocolError { body: raw_body },
            ),
            status == 429 ==> r == Err::<Inventory, SteamError>(SteamError::RateLimitedError),
            status == 403 ==> r == Err::<Inventory, SteamError>(SteamError::ForbiddenError),
            status != 200 && status != 429 && status != 403 ==> r == Err::<Inventory, SteamError>(
                SteamError::UnexpectedStatusError { status, body: raw_body },
            ),
    {
        if status == 200 {
            match parsed {
                Some(inventory) => Ok(inventory),
                None => Err(SteamError::ProtocolError { body: raw_body }),
            }
        } else {
            Err(status_error(status, raw_body))
        }
    }

    /// The first description whose market name contains the query as a
    /// substring, in snapshot order; `None` when no market name contains it.
    pub fn search_item_name(&self, item_name: String) -> (r: Option<AssetDescription>)
        ensures
            r is None <==> !exists|i: int|
                0 <= i < self.descriptions@.len() && name_matches(
                    #[trigger] self.descriptions@[i]@,
                    item_name@,
                ),
            r matches Some(d) ==> exists|i: int|
                #[trigger] first_name_match(self.descriptions@, item_name@, i) && d@
                    == self.descriptions@[i]@,
    {
        let mut i: usize = 0;
        while i < self.descriptions.len()
            invariant
                0 <= i <= self.descriptions@.len(),
                forall|j: int| 0 <= j < i ==> !name_matches(#[trigger] self.descriptions@[j]@, item_name@),
            decreases self.descriptions@.len() - i,
        {
            if contains_substring(self.descriptions[i].market_name.as_str(), item_name.as_str()) {
                let found = self.descriptions[i].clone();
                assert(first_name_match(self.descriptions@, item_name@, i as int));
                return Some(found);
            }
            i = i + 1;
        }
        None
    }

    /// All descriptions carrying a tag of the given category with the given
    /// localized name, in snapshot order.
    pub fn filter_by_tag(&self, tag_category: &str, tag_value: &str) -> (r: Vec<AssetDescription>)
        ensures
            desc_views(r@) == filter_tag_views(self.descriptions@, tag_category@, tag_value@),
    {
        let mut results: Vec<AssetDescription> = Vec::new();
        let mut i: usize = 0;
        while i < self.descriptions.len()
            invariant
                0 <= i <= self.descriptions@.len(),
                desc_views(results@) == filter_tag_views(
                    self.descriptions@.subrange(0, i as int),
                    tag_category@,
                    tag_value@,
                ),
            decreases self.descriptions@.len() - i,
        {
            if description_has_tag(&self.descriptions[i], tag_category, tag_value) {
                results.push(self.descriptions[i].clone());
            }
            proof {
                assert(self.descriptions@.subrange(0, i as int + 1).drop_last()
                    =~= self.descriptions@.subrange(0, i as int));
                assert(self.descriptions@.subrange(0, i as int + 1).last()
                    == self.descriptions@[i as int]);
                assert(desc_views(results@) =~= filter_tag_views(
                    self.descriptions@.subrange(0, i as int + 1),
                    tag_category@,
                    tag_value@,
                ));
            }
            i = i + 1;
        }
        proof {
            assert(self.descriptions@.subrange(0, self.descriptions@.len() as int)
                =~= self.descriptions@);
        }
        results
    }

    /// All descriptions of the given quality grade.
    pub fn get_all_rarity(&self, quality: ItemRarity) -> (r: Vec<AssetDescription>)
        ensures
            desc_views(r@) == filter_tag_views(
                self.descriptions@,
                "Quality"@,
                rarity_tag_name(quality),
            ),
    {
        match quality {
            ItemRarity::ConsumerGrade => self.filter_by_tag("Quality", "Consumer Grade"),
            ItemRarity::IndustrialGrade => self.filter_by_tag("Quality", "Industrial Grade"),
            ItemRarity::MilspecGrade => self.filter_by_tag("Quality", "Mil-Spec Grade"),
            ItemRarity::Restricted => self.filter_by_tag("Quality", "Restricted"),
            ItemRarity::Classified => self.filter_by_tag("Quality", "Classified"),
            ItemRarity::Covert => self.filter_by_tag("Quality", "Covert"),
            ItemRarity::Contraband => self.filter_by_tag("Quality", "Contraband"),
            ItemRarity::BaseGrade => self.filter_by_tag("Quality", "Base Grade"),
            ItemRarity::Distinguished => self.filter_by_tag("Quality", "Distinguished"),
            ItemRarity::Exceptional => self.filter_by_tag("Quality", "Exceptional"),
            ItemRarity::Superior => self.filter_by_tag("Quality", "Superior"),
            ItemRarity::Extraordinary => self.filter_by_tag("Quality", "Extraordinary"),
            ItemRarity::Master => self.filter_by_tag("Quality", "Master"),
            ItemRarity::HighGrade => self.filter_by_tag("Quality", "High Grade"),
            ItemRarity::Remarkable => self.filter_by_tag("Quality", "Remarkable"),
            ItemRarity::Exotic => self.filter_by_tag("Quality", "Exotic"),
        }
    }

    /// All descriptions of the given category.
    pub fn get_all_category(&self, category: ItemCategory) -> (r: Vec<AssetDescription>)
        ensures
            desc_views(r@) == filter_tag_views(
                self.descriptions@,
                "Category"@,
                category_tag_name(category),
            ),
    {
        match category {
            ItemCategory::Normal => self.filter_by_tag("Category", "Normal"),
            ItemCategory::Souvenir => self.filter_by_tag("Category", "Souvenir"),
            ItemCategory::Stattrak => self.filter_by_tag("Category", "StatTrak™"),
            ItemCategory::Special => self.filter_by_tag("Category", "★"),
            ItemCategory::SpecialStattrak => self.filter_by_tag("Category", "★ StatTrak™"),
        }
    }

    /// All descriptions of the given exterior.
    pub fn get_all_exterior(&self, exterior: ItemExterior) -> (r: Vec<AssetDescription>)
        ensures
            desc_views(r@) == filter_tag_views(
                self.descriptions@,
                "Exterior"@,
                exterior_tag_name(exterior),
            ),
    {
        match exterior {
            ItemExterior::FieldTested => self.filter_by_tag("Exterior", "Field-Tested"),
            ItemExterior::MinimalWear => self.filter_by_tag("Exterior", "Minimal Wear"),
            ItemExterior::BattleScarred => self.filter_by_tag("Exterior", "Battle-Scarred"),
            ItemExterior::WellWorn => self.filter_by_tag("Exterior", "Well-Worn"),
            ItemExterior::FactoryNew => self.filter_by_tag("Exterior", "Factory New"),
            ItemExterior::NotPainted => self.filter_by_tag("Exterior", "Not Painted"),
        }
    }

    /// All descriptions of the given item type.
    pub fn get_all_type(&self, _type: ItemType) -> (r: Vec<AssetDescription>)
        ensures
            desc_views(r@) == filter_tag_views(self.descriptions@, "Type"@, type_tag_name(_type)),
    {
        match _type {
            ItemType::Pistol => self.filter_by_tag("Type", "Pistol"),
            ItemType::SMG => self.filter_by_tag("Type", "SMG"),
            ItemType::Rifle => self.filter_by_tag("Type", "Rifle"),
            ItemType::SniperRifle => self.filter_by_tag("Type", "Sniper Rifle"),
            ItemType::Shotgun => self.filter_by_tag("Type", "Shotgun"),
            ItemType::Machinegun => self.filter_by_tag("Type", "Machinegun"),
            ItemType::Agent => self.filter_by_tag("Type", "Agent"),
            ItemType::Container => self.filter_by_tag("Type", "Container"),
            ItemType::Knife => self.filter_by_tag("Type", "Knife"),
            ItemType::Sticker => self.filter_by_tag("Type", "Sticker"),
            ItemType::Gloves => self.filter_by_tag("Type", "Gloves"),
            ItemType::Graffiti => self.filter_by_tag("Type", "Graffiti"),
            ItemType::MusicKit => self.filter_by_tag("Type", "Music Kit"),
            ItemType::Patch => self.filter_by_tag("Type", "Patch"),
            ItemType::Collectible => self.filter_by_tag("Type", "Collectible"),
            ItemType::Key => self.filter_by_tag("Type", "Key"),
            ItemType::Pass => self.filter_by_tag("Type", "Pass"),
            ItemType::Gift => self.filter_by_tag("Type", "Gift"),
            ItemType::Tag => self.filter_by_tag("Type", "Tag"),
            ItemType::Tool => self.filter_by_tag("Type", "Tool"),
        }
    }
}

/// The asset reference emitted for one asset: app id fixed at 730, one unit.
pub open spec fn offer_of_asset(a: Asset) -> OfferAssetV {
    OfferAssetV { appid: "730"@, contextid: a.contextid@, amount: "1"@, assetid: a.assetid@ }
}

/// The views of a sequence of asset references.
pub open spec fn offer_views(s: Seq<OfferAsset>) -> Seq<OfferAssetV> {
    s.map_values(|o: OfferAsset| o@)
}

/// The asset ids carried by a sequence of emitted references.
pub open spec fn ids_of(s: Seq<OfferAssetV>) -> Set<Seq<char>> {
    Set::new(|id: Seq<char>| exists|k: int| 0 <= k < s.len() && #[trigger] s[k].assetid == id)
}

/// The asset ids carried by a vector of id strings.
pub open spec fn set_of_ids(v: Seq<String>) -> Set<Seq<char>> {
    Set::new(|id: Seq<char>| str_in(v, id))
}

/// One resolution pass for one requested description: scan the assets in
/// order and emit a reference for every match whose asset id has not been
/// emitted before, growing the seen set as it goes.
pub open spec fn resolve_item(assets: Seq<Asset>, item: AssetDescriptionV, seen: Set<Seq<char>>) -> Seq<
    OfferAssetV,
>
    decreases assets.len(),
{
    if assets.len() == 0 {
        Seq::<OfferAssetV>::empty()
    } else {
        let a = assets[0];
        let hit = asset_matches(item, a) && !seen.contains(a.assetid@);
        (if hit {
            seq![offer_of_asset(a)]
        } else {
            Seq::<OfferAssetV>::empty()
        }) + resolve_item(
            assets.drop_first(),
            item,
            if hit {
                seen.insert(a.assetid@)
            } else {
                seen
            },
        )
    }
}

/// Full resolution of a request list: one pass per requested description,
/// each pass seeing every asset id the earlier passes emitted. The seen
/// guard is keyed on asset ids, so no physical asset is ever emitted twice,
/// however often its description is requested.
pub open spec fn resolve_all(assets: Seq<Asset>, items: Seq<AssetDescription>) -> Seq<OfferAssetV>
    decreases items.len(),
{
    if items.len() == 0 {
        Seq::<OfferAssetV>::empty()
    } else {
        let prefix = resolve_all(assets, items.drop_last());
        prefix + resolve_item(assets, items.last()@, ids_of(prefix))
    }
}

/// Pushing an id string extends the id set by exactly that id.
proof fn lemma_set_of_ids_push(v: Seq<String>, s: String)
    ensures
        set_of_ids(v.push(s)) =~= set_of_ids(v).insert(s@),
{
    assert forall|x: Seq<char>| set_of_ids(v.push(s)).contains(x) implies set_of_ids(v).insert(
        s@,
    ).contains(x) by {
        let i = choose|i: int| 0 <= i < v.push(s).len() && #[trigger] v.push(s)[i]@ == x;
        if i < v.len() {
            assert(v[i]@ == x);
        }
    }
    assert forall|x: Seq<char>| set_of_ids(v).insert(s@).contains(x) implies set_of_ids(
        v.push(s),
    ).contains(x) by {
        if set_of_ids(v).contains(x) {
            let i = choose|i: int| 0 <= i < v.len() && #[trigger] v[i]@ == x;
            assert(v.push(s)[i]@ == x);
        } else {
            assert(v.push(s)[v.len() as int]@ == x);
        }
    }
}

/// Pushing an emitted reference extends its id set by exactly its id.
proof fn lemma_ids_of_push(s: Seq<OfferAssetV>, o: OfferAssetV)
    ensures
        ids_of(s.push(o)) =~= ids_of(s).insert(o.assetid),
{
    assert forall|x: Seq<char>| ids_of(s.push(o)).contains(x) implies ids_of(s).insert(
        o.assetid,
    ).contains(x) by {
        let i = choose|i: int| 0 <= i < s.push(o).len() && #[trigger] s.push(o)[i].assetid == x;
        if i < s.len() {
            assert(s[i].assetid == x);
        }
    }
    assert forall|x: Seq<char>| ids_of(s).insert(o.assetid).contains(x) implies ids_of(
        s.push(o),
    ).contains(x) by {
        if ids_of(s).contains(x) {
            let i = choose|i: int| 0 <= i < s.len() && #[trigger] s[i].assetid == x;
            assert(s.push(o)[i].assetid == x);
        } else {
            assert(s.push(o)[s.len() as int].assetid == x);
        }
    }
}

/// One resolution pass emits no id from the seen set and no id twice.
proof fn lemma_resolve_item_distinct(assets: Seq<Asset>, item: AssetDescriptionV, seen: Set<Seq<char>>)
    ensures
        forall|i: int|
            0 <= i < resolve_item(assets, item, seen).len() ==> !seen.contains(
                #[trigger] resolve_item(assets, item, seen)[i].assetid,
            ),
        forall|i: int, j: int|
            0 <= i < j < resolve_item(assets, item, seen).len() ==> resolve_item(
                assets,
                item,
                seen,
            )[i].assetid != resolve_item(assets, item, seen)[j].assetid,
    decreases assets.len(),
{
    if assets.len() > 0 {
        let a = assets[0];
        let hit = asset_matches(item, a) && !seen.contains(a.assetid@);
        let seen2 = if hit {
            seen.insert(a.assetid@)
        } else {
            seen
        };
        let rest = resolve_item(assets.drop_first(), item, seen2);
        lemma_resolve_item_distinct(assets.drop_first(), item, seen2);
        let r = resolve_item(assets, item, seen);
        if hit {
            assert(r =~= seq![offer_of_asset(a)] + rest);
            assert forall|i: int| 0 <= i < r.len() implies !seen.contains(
                #[trigger] r[i].assetid,
            ) by {
                if i > 0 {
                    assert(r[i] == rest[i - 1]);
                    assert(!seen2.contains(rest[i - 1].assetid));
                }
            }
            assert forall|i: int, j: int| 0 <= i < j < r.len() implies r[i].assetid
                != r[j].assetid by {
                if i == 0 {
                    assert(r[j] == rest[j - 1]);
                    assert(!seen2.contains(rest[j - 1].assetid));
                    assert(seen2.contains(a.assetid@));
                } else {
                    assert(r[i] == rest[i - 1]);
                    assert(r[j] == rest[j - 1]);
                }
            }
        } else {
            assert(r =~= rest);
        }
    }
}

/// A full resolution never emits the same asset id twice, even when one
/// description is requested more than once or matches through different
/// requested descriptions.
pub proof fn lemma_resolution_never_repeats_an_asset(assets: Seq<Asset>, items: Seq<AssetDescription>)
    ensures
        forall|i: int, j: int|
            0 <= i < j < resolve_all(assets, items).len() ==> resolve_all(assets, items)[i].assetid
                != resolve_all(assets, items)[j].assetid,
    decreases items.len(),
{
    if items.len() > 0 {
        let prefix = resolve_all(assets, items.drop_last());
        let pass = resolve_item(assets, items.last()@, ids_of(prefix));
        lemma_resolution_never_repeats_an_asset(assets, items.drop_last());
        lemma_resolve_item_distinct(assets, items.last()@, ids_of(prefix));
        let r = resolve_all(assets, items);
        assert(r =~= prefix + pass);
        assert forall|i: int, j: int| 0 <= i < j < r.len() implies r[i].assetid
            != r[j].assetid by {
            if j < prefix.len() {
                assert(r[i] == prefix[i] && r[j] == prefix[j]);
            } else if i >= prefix.len() {
                assert(r[i] == pass[i - prefix.len()] && r[j] == pass[j - prefix.len()]);
            } else {
                assert(r[i] == prefix[i] && r[j] == pass[j - prefix.len()]);
                assert(ids_of(prefix).contains(prefix[i].assetid));
                assert(!ids_of(prefix).contains(pass[j - prefix.len()].assetid));
            }
        }
    }
}

impl Inventory {
    /// Resolve requested descriptions to concrete trade-offer asset
    /// references: for each requested description in order, every asset of
    /// the snapshot whose class and instance ids match and whose asset id
    /// has not yet been emitted yields one reference of one unit, and its
    /// asset id is marked as emitted. No asset id appears twice in the
    /// result.
    pub fn get_trade_items(&self, items: Vec<AssetDescription>) -> (r: Vec<OfferAsset>)
        ensures
            offer_views(r@) == resolve_all(self.assets@, items@),
    {
        let mut out: Vec<OfferAsset> = Vec::new();
        let mut seen: Vec<String> = Vec::new();
        let an: usize = self.assets.len();
        let mut t: usize = 0;
        proof {
            assert(offer_views(out@) =~= Seq::<OfferAssetV>::empty());
            assert(set_of_ids(seen@) =~= ids_of(offer_views(out@)));
            assert(items@.subrange(0, 0) =~= Seq::<AssetDescription>::empty());
        }
        while t < items.len()
            invariant
                0 <= t <= items@.len(),
                an == self.assets@.len(),
                offer_views(out@) == resolve_all(self.assets@, items@.subrange(0, t as int)),
                set_of_ids(seen@) == ids_of(offer_views(out@)),
            decreases items@.len() - t,
        {
            let item = &items[t];
            let ghost pass_base = offer_views(out@);
            let ghost base_len = out@.len();
            let mut k: usize = 0;
            proof {
                assert(self.assets@.subrange(0, an as int) =~= self.assets@);
                assert(offer_views(out@).subrange(base_len as int, offer_views(out@).len() as int)
                    =~= Seq::<OfferAssetV>::empty());
                assert(self.assets@.subrange(k as int, an as int) =~= self.assets@);
            }
            while k < an
                invariant
                    0 <= k <= an,
                    an == self.assets@.len(),
                    0 <= t < items@.len(),
                    item == &items[t as int],
                    base_len <= out@.len(),
                    offer_views(out@).subrange(0, base_len as int) == pass_base,
                    resolve_item(self.assets@, items@[t as int]@, ids_of(pass_base)) == offer_views(
                        out@,
                    ).subrange(base_len as int, offer_views(out@).len() as int) + resolve_item(
                        self.assets@.subrange(k as int, an as int),
                        items@[t as int]@,
                        set_of_ids(seen@),
                    ),
                    set_of_ids(seen@) == ids_of(offer_views(out@)),
                decreases an - k,
            {
                let ghost suffix = self.assets@.subrange(k as int, an as int);
                let ghost seen_set = set_of_ids(seen@);
                proof {
                    assert(suffix[0] == self.assets@[k as int]);
                    assert(suffix.drop_first() =~= self.assets@.subrange(k as int + 1, an as int));
                }
                let a = &self.assets[k];
                let matches: bool = a.classid == item.classid && a.instanceid == item.instanceid;
                proof {
                    assert(matches == asset_matches(items@[t as int]@, self.assets@[k as int]));
                    assert(seen_set.contains(self.assets@[k as int].assetid@) == str_in(
                        seen@,
                        self.assets@[k as int].assetid@,
                    ));
                }
                if matches && !vec_contains_str(&seen, &a.assetid) {
                    let ghost out0 = out@;
                    let ghost seen0 = seen@;
                    let ghost hit_offer = offer_of_asset(self.assets@[k as int]);
                    let ghost hit_id = self.assets@[k as int].assetid@;
                    let emitted = OfferAsset::new(
                        String::from_str("730"),
                        a.contextid.clone(),
                        String::from_str("1"),
                        a.assetid.clone(),
                    );
                    proof {
                        assert(emitted@ == hit_offer);
                    }
                    out.push(emitted);
                    seen.push(a.assetid.clone());
                    proof {
                        // The views of the output grew by exactly the emitted reference.
                        assert(offer_views(out@) =~= offer_views(out0).push(hit_offer));
                        // The seen ids grew by exactly the emitted asset id.
                        assert(seen@.last()@ == hit_id);
                        lemma_set_of_ids_push(seen0, seen@.last());
                        assert(seen0.push(seen@.last()) =~= seen@);
                        assert(set_of_ids(seen@) =~= set_of_ids(seen0).insert(hit_id));
                        lemma_ids_of_push(offer_views(out0), hit_offer);
                        assert(ids_of(offer_views(out@)) =~= ids_of(offer_views(out0)).insert(
                            hit_id,
                        ));
                        // One unfolding of the pass on the remaining assets.
                        assert(resolve_item(suffix, items@[t as int]@, seen_set) =~= seq![hit_offer]
                            + resolve_item(
                            self.assets@.subrange(k as int + 1, an as int),
                            items@[t as int]@,
                            seen_set.insert(hit_id),
                        ));
                        // The emitted prefix of this pass grew by the reference.
                        assert(offer_views(out@).subrange(0, base_len as int) =~= pass_base);
                        assert(offer_views(out@).subrange(
                            base_len as int,
                            offer_views(out@).len() as int,
                        ) =~= offer_views(out0).subrange(base_len as int, out0.len() as int).push(
                            hit_offer,
                        ));
                        assert(offer_views(out0).subrange(base_len as int, out0.len() as int).push(
                            hit_offer,
                        ) + resolve_item(
                            self.assets@.subrange(k as int + 1, an as int),
                            items@[t as int]@,
                            seen_set.insert(hit_id),
                        ) =~= offer_views(out0).subrange(base_len as int, out0.len() as int) + (
                        seq![hit_offer] + resolve_item(
                            self.assets@.subrange(k as int + 1, an as int),
                            items@[t as int]@,
                            seen_set.insert(hit_id),
                        )));
                    }
                } else {
                    proof {
                        assert(resolve_item(suffix, items@[t as int]@, seen_set) =~= resolve_item(
                            suffix.drop_first(),
                            items@[t as int]@,
                            seen_set,
                        ));
                    }
                }
                k = k + 1;
            }
            proof {
                assert(self.assets@.subrange(an as int, an as int) =~= Seq::<Asset>::empty());
                assert(resolve_item(
                    self.assets@.subrange(an as int, an as int),
                    items@[t as int]@,
                    set_of_ids(seen@),
                ) =~= Seq::<OfferAssetV>::empty());
                assert(resolve_item(self.assets@, items@[t as int]@, ids_of(pass_base))
                    =~= offer_views(out@).subrange(base_len as int, offer_views(out@).len() as int));
                assert(items@.subrange(0, t as int + 1).drop_last() =~= items@.subrange(
                    0,
                    t as int,
                ));
                assert(items@.subrange(0, t as int + 1).last() == items@[t as int]);
                assert(offer_views(out@) =~= offer_views(out@).subrange(0, base_len as int)
                    + offer_views(out@).subrange(base_len as int, offer_views(out@).len() as int));
                assert(offer_views(out@) =~= resolve_all(
                    self.assets@,
                    items@.subrange(0, t as int + 1),
                ));
            }
            t = t + 1;
        }
        proof {
            assert(items@.subrange(0, items@.len() as int) =~= items@);
        }
        out
    }
}

} // verus!
