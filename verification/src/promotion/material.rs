//! Material library: paged queries, owner-checked update and delete, and the
//! deduplicating batch upsert of selected items.
//!
//! Prices are carried as the bit pattern of the 64-bit float the application
//! stores (`f64::to_bits`); the library only copies them.
use vstd::prelude::*;
use crate::text::{opt_string, owned, str_eq, str_is_empty, strings_view, trim_seq, trim_str};
use crate::records::{owner_checked, owner_gate};
use crate::OpenDeskResult;

verus! {

/// Publish state of a material.
#[derive(Debug, Clone, Copy, PartialEq, Eq, Structural)]
pub enum PublishStatus {
    /// Not published.
    Unpublished,
    /// Published.
    Published,
    /// Publishing failed.
    Failed,
}

/// The wire name of a publish state.
pub open spec fn publish_status_name(s: PublishStatus) -> Seq<char> {
    match s {
        PublishStatus::Unpublished => "unpublished"@,
        PublishStatus::Published => "published"@,
        PublishStatus::Failed => "failed"@,
    }
}

impl PublishStatus {
    /// `unpublished`, `published` or `failed`.
    pub fn as_str(&self) -> (s: &'static str)
        ensures
            s@ == publish_status_name(*self),
    {
        match self {
            PublishStatus::Unpublished => "unpublished",
            PublishStatus::Published => "published",
            PublishStatus::Failed => "failed",
        }
    }

    /// The old boolean flag: `"1"` is published, `"0"` unpublished, anything
    /// else unknown.
    pub fn from_legacy(value: &str) -> (r: Option<Self>)
        ensures
            value@ == "1"@ ==> r == Some(PublishStatus::Published),
            value@ == "0"@ ==> r == Some(PublishStatus::Unpublished),
            value@ != "1"@ && value@ != "0"@ ==> r is None,
    {
        proof {
            reveal_strlit("1");
            reveal_strlit("0");
            assert("1"@[0] != "0"@[0]);
        }
        if str_eq(value, "1") {
            Some(PublishStatus::Published)
        } else if str_eq(value, "0") {
            Some(PublishStatus::Unpublished)
        } else {
            None
        }
    }
}

/// A material.
#[derive(Debug)]
pub struct Material {
    pub id: i64,
    pub owner_id: i64,
    pub account_id: String,
    /// The product-selection rule it came from.
    pub rule_id: i64,
    pub item_id: String,
    pub title: String,
    /// The price, as the bits of a 64-bit float.
    pub price_bits: u64,
    pub stock: i32,
    pub description: Option<String>,
    /// Images (a JSON string).
    pub images: String,
    pub click_url: Option<String>,
    pub coupon_url: Option<String>,
    pub coupon_info: Option<String>,
    pub tpwd: Option<String>,
    pub short_url: Option<String>,
    pub publish_status: PublishStatus,
}

/// The value of a material.
pub ghost struct MaterialView {
    pub id: i64,
    pub owner_id: i64,
    pub account_id: Seq<char>,
    pub rule_id: i64,
    pub item_id: Seq<char>,
    pub title: Seq<char>,
    pub price_bits: u64,
    pub stock: i32,
    pub description: Option<Seq<char>>,
    pub images: Seq<char>,
    pub click_url: Option<Seq<char>>,
    pub coupon_url: Option<Seq<char>>,
    pub coupon_info: Option<Seq<char>>,
    pub tpwd: Option<Seq<char>>,
    pub short_url: Option<Seq<char>>,
    pub publish_status: PublishStatus,
}

impl Material {
    pub open spec fn view(&self) -> MaterialView {
        MaterialView {
            id: self.id,
            owner_id: self.owner_id,
            account_id: self.account_id@,
            rule_id: self.rule_id,
            item_id: self.item_id@,
            title: self.title@,
            price_bits: self.price_bits,
            stock: self.stock,
            description: opt_string(self.description),
            images: self.images@,
            click_url: opt_string(self.click_url),
            coupon_url: opt_string(self.coupon_url),
            coupon_info: opt_string(self.coupon_info),
            tpwd: opt_string(self.tpwd),
            short_url: opt_string(self.short_url),
            publish_status: self.publish_status,
        }
    }
}

impl Clone for Material {
    fn clone(&self) -> (r: Self)
        ensures
            r == *self,
    {
        Material {
            id: self.id,
            owner_id: self.owner_id,
            account_id: self.account_id.clone(),
            rule_id: self.rule_id,
            item_id: self.item_id.clone(),
            title: self.title.clone(),
            price_bits: self.price_bits,
            stock: self.stock,
            description: self.description.clone(),
            images: self.images.clone(),
            click_url: self.click_url.clone(),
            coupon_url: self.coupon_url.clone(),
            coupon_info: self.coupon_info.clone(),
            tpwd: self.tpwd.clone(),
            short_url: self.short_url.clone(),
            publish_status: self.publish_status,
        }
    }
}

/// Material query.
#[derive(Debug, Clone)]
pub struct MaterialQuery {
    pub page: u32,
    pub page_size: u32,
    /// Keyword (matched against title, description and coupon text).
    pub keyword: String,
    pub account_id: String,
    pub is_admin: bool,
    pub publish_status: Option<PublishStatus>,
}

impl Default for MaterialQuery {
    fn default() -> (q: Self)
        ensures
            q.page == 0 && q.page_size == 0 && q.keyword@.len() == 0 && q.account_id@.len() == 0
                && !q.is_admin && q.publish_status is None,
    {
        MaterialQuery {
            page: 0,
            page_size: 0,
            keyword: String::new(),
            account_id: String::new(),
            is_admin: false,
            publish_status: None,
        }
    }
}

/// An item to write (from a product-selection run).
#[derive(Debug)]
pub struct MaterialItem {
    pub item_id: String,
    pub title: String,
    /// The price, as the bits of a 64-bit float.
    pub price_bits: u64,
    pub stock: i32,
    pub description: Option<String>,
    pub click_url: Option<String>,
    pub coupon_url: Option<String>,
    pub coupon_info: Option<String>,
    pub tpwd: Option<String>,
    pub short_url: Option<String>,
}

/// The value of an item.
pub ghost struct ItemView {
    pub item_id: Seq<char>,
    pub title: Seq<char>,
    pub price_bits: u64,
    pub stock: i32,
    pub description: Option<Seq<char>>,
    pub click_url: Option<Seq<char>>,
    pub coupon_url: Option<Seq<char>>,
    pub coupon_info: Option<Seq<char>>,
    pub tpwd: Option<Seq<char>>,
    pub short_url: Option<Seq<char>>,
}

impl MaterialItem {
    pub open spec fn view(&self) -> ItemView {
        ItemView {
            item_id: self.item_id@,
            title: self.title@,
            price_bits: self.price_bits,
            stock: self.stock,
            description: opt_string(self.description),
            click_url: opt_string(self.click_url),
            coupon_url: opt_string(self.coupon_url),
            coupon_info: opt_string(self.coupon_info),
            tpwd: opt_string(self.tpwd),
            short_url: opt_string(self.short_url),
        }
    }
}

impl Clone for MaterialItem {
    fn clone(&self) -> (r: Self)
        ensures
            r == *self,
    {
        MaterialItem {
            item_id: self.item_id.clone(),
            title: self.title.clone(),
            price_bits: self.price_bits,
            stock: self.stock,
            description: self.description.clone(),
            click_url: self.click_url.clone(),
            coupon_url: self.coupon_url.clone(),
            coupon_info: self.coupon_info.clone(),
            tpwd: self.tpwd.clone(),
            short_url: self.short_url.clone(),
        }
    }
}

/// The values of a list of items.
pub open spec fn items_view(s: Seq<MaterialItem>) -> Seq<ItemView> {
    s.map_values(|x: MaterialItem| x@)
}

/// The item ids of the items, in order.
pub open spec fn lookup_ids(items: Seq<ItemView>) -> Seq<Seq<char>> {
    items.map_values(|x: ItemView| x.item_id)
}

/// The non-empty titles of the items, in order.
pub open spec fn lookup_titles(items: Seq<ItemView>) -> Seq<Seq<char>>
    decreases items.len(),
{
    if items.len() == 0 {
        Seq::empty()
    } else {
        let before = lookup_titles(items.drop_last());
        if items.last().title.len() > 0 {
            before.push(items.last().title)
        } else {
            before
        }
    }
}

/// The values of a list of materials.
pub open spec fn materials_view(s: Seq<Material>) -> Seq<MaterialView> {
    s.map_values(|x: Material| x@)
}

/// Outcome of a batch write.
#[derive(Debug, Clone)]
pub struct BatchWriteResult {
    /// Materials created.
    pub created: usize,
    /// Existing materials updated.
    pub updated: usize,
}

impl Default for BatchWriteResult {
    fn default() -> (r: Self)
        ensures
            r.created == 0 && r.updated == 0,
    {
        BatchWriteResult { created: 0, updated: 0 }
    }
}

/// Storage of materials, implemented by the application. Each `closed spec
/// fn` below names the answers the store may give to one of its calls
/// (unconstrained unless an implementation says otherwise).
pub trait MaterialStore {
    /// `r` is an answer to listing a page of materials.
    closed spec fn materials_listed(&self, owner_id: i64, query: MaterialQuery, r: OpenDeskResult<(Vec<Material>, u32)>) -> bool {
        true
    }

    /// `r` is an answer to looking up the user's material `material_id`.
    closed spec fn material_got(&self, owner_id: i64, material_id: i64, r: OpenDeskResult<Option<Material>>) -> bool {
        true
    }

    /// `r` is an answer to updating a material to `material`.
    closed spec fn material_updated(&self, material: MaterialView, r: OpenDeskResult<()>) -> bool {
        true
    }

    /// `r` is an answer to deleting the material `material_id`.
    closed spec fn material_deleted(&self, material_id: i64, r: OpenDeskResult<()>) -> bool {
        true
    }

    /// `r` is an answer to asking for the user's materials of the account
    /// with one of the item ids or titles.
    closed spec fn materials_existing(
        &self,
        owner_id: i64,
        account: Seq<char>,
        item_ids: Seq<Seq<char>>,
        titles: Seq<Seq<char>>,
        r: OpenDeskResult<Vec<Material>>,
    ) -> bool {
        true
    }

    /// `r` is an answer to storing the new material `material`.
    closed spec fn material_created(&self, material: MaterialView, r: OpenDeskResult<Material>) -> bool {
        true
    }

    /// One page of materials.
    fn list_materials(&self, owner_id: i64, query: &MaterialQuery) -> (r: OpenDeskResult<(Vec<Material>, u32)>)
        ensures
            self.materials_listed(owner_id, *query, r);

    /// The user's material with the given id.
    fn get_material(&self, owner_id: i64, material_id: i64) -> (r: OpenDeskResult<Option<Material>>)
        ensures
            self.material_got(owner_id, material_id, r);

    /// Updates a material.
    fn update_material(&self, material: &Material) -> (r: OpenDeskResult<()>)
        ensures
            self.material_updated(material@, r);

    /// Deletes a material.
    fn delete_material(&self, material_id: i64) -> (r: OpenDeskResult<()>)
        ensures
            self.material_deleted(material_id, r);

    /// The user's materials of the account whose item id or title is among
    /// the given ones.
    fn existing_materials(
        &self,
        owner_id: i64,
        account_id: &str,
        item_ids: &[String],
        titles: &[String],
    ) -> (r: OpenDeskResult<Vec<Material>>)
        ensures
            self.materials_existing(owner_id, account_id@, strings_view(item_ids@), strings_view(titles@), r);

    /// Stores a new material and returns it as stored.
    fn create_material(&self, material: &Material) -> (r: OpenDeskResult<Material>)
        ensures
            self.material_created(material@, r);
}

// ---------------------------------------------------------------------------
// Normalization

/// The item trimmed: item id and title without surrounding white space.
pub open spec fn trimmed_item(it: ItemView) -> ItemView {
    ItemView { item_id: trim_seq(it.item_id), title: trim_seq(it.title), ..it }
}

/// Some kept item has this item id.
pub open spec fn has_id(kept: Seq<ItemView>, id: Seq<char>) -> bool {
    exists|j: int| 0 <= j < kept.len() && #[trigger] kept[j].item_id == id
}

/// Some kept item has this title.
pub open spec fn has_title(kept: Seq<ItemView>, title: Seq<char>) -> bool {
    exists|j: int| 0 <= j < kept.len() && #[trigger] kept[j].title == title
}

/// An item is kept after `kept`: its trimmed id is not empty and not taken,
/// and its trimmed title, when not empty, is not taken.
pub open spec fn keeps(kept: Seq<ItemView>, it: ItemView) -> bool {
    let id = trim_seq(it.item_id);
    let title = trim_seq(it.title);
    &&& id.len() > 0
    &&& !has_id(kept, id)
    &&& !(title.len() > 0 && has_title(kept, title))
}

/// The normalized items, in input order: each item trimmed and kept when
/// [`keeps`] holds of it after the items kept before it.
pub open spec fn normalize_spec(items: Seq<ItemView>) -> Seq<ItemView>
    decreases items.len(),
{
    if items.len() == 0 {
        Seq::empty()
    } else {
        let kept = normalize_spec(items.drop_last());
        if keeps(kept, items.last()) {
            kept.push(trimmed_item(items.last()))
        } else {
            kept
        }
    }
}

/// Whether an item of `v` has item id `id`.
fn contains_item_id(v: &Vec<MaterialItem>, id: &str) -> (b: bool)
    ensures
        b == has_id(items_view(v@), id@),
{
    let mut k: usize = 0;
    while k < v.len()
        invariant
            k <= v.len(),
            forall|j: int| 0 <= j < k ==> v@[j].item_id@ != id@,
        decreases v.len() - k,
    {
        if str_eq(v[k].item_id.as_str(), id) {
            assert(items_view(v@)[k as int].item_id == id@);
            return true;
        }
        k = k + 1;
    }
    assert(!has_id(items_view(v@), id@)) by {
        assert forall|j: int| 0 <= j < items_view(v@).len() implies #[trigger] items_view(v@)[j].item_id
            != id@ by {
            assert(v@[j].item_id@ != id@);
        }
    }
    false
}

/// Whether an item of `v` has title `title`.
fn contains_item_title(v: &Vec<MaterialItem>, title: &str) -> (b: bool)
    ensures
        b == has_title(items_view(v@), title@),
{
    let mut k: usize = 0;
    while k < v.len()
        invariant
            k <= v.len(),
            forall|j: int| 0 <= j < k ==> v@[j].title@ != title@,
        decreases v.len() - k,
    {
        if str_eq(v[k].title.as_str(), title) {
            assert(items_view(v@)[k as int].title == title@);
            return true;
        }
        k = k + 1;
    }
    assert(!has_title(items_view(v@), title@)) by {
        assert forall|j: int| 0 <= j < items_view(v@).len() implies #[trigger] items_view(v@)[j].title
            != title@ by {
            assert(v@[j].title@ != title@);
        }
    }
    false
}

// ---------------------------------------------------------------------------
// Batch upsert

/// `j` is the last position of a material with the (non-empty) item id `id`.
pub open spec fn is_last_with_id(existing: Seq<MaterialView>, id: Seq<char>, j: int) -> bool {
    &&& 0 <= j < existing.len()
    &&& id.len() > 0
    &&& existing[j].item_id == id
    &&& forall|t: int| j < t < existing.len() ==> #[trigger] existing[t].item_id != id
}

/// The existing material with the item id (the last one when several share
/// it); none for an empty id.
pub open spec fn lookup_existing(existing: Seq<MaterialView>, id: Seq<char>) -> Option<MaterialView> {
    if exists|j: int| is_last_with_id(existing, id, j) {
        Some(existing[choose|j: int| is_last_with_id(existing, id, j)])
    } else {
        None
    }
}

/// A field after an upsert: the new value when given, else the old one.
pub open spec fn merged(old_value: Option<Seq<char>>, new_value: Option<Seq<char>>) -> Option<Seq<char>> {
    match new_value {
        Some(v) => Some(v),
        None => old_value,
    }
}

/// The upsert changes the field: a new value is given and differs.
pub open spec fn differs(old_value: Option<Seq<char>>, new_value: Option<Seq<char>>) -> bool {
    new_value matches Some(v) && old_value != Some(v)
}

/// The existing material with the item's link, coupon, description, code
/// and short-link fields merged in.
pub open spec fn updated_material(m: MaterialView, it: ItemView) -> MaterialView {
    MaterialView {
        click_url: merged(m.click_url, it.click_url),
        coupon_url: merged(m.coupon_url, it.coupon_url),
        coupon_info: merged(m.coupon_info, it.coupon_info),
        description: merged(m.description, it.description),
        tpwd: merged(m.tpwd, it.tpwd),
        short_url: merged(m.short_url, it.short_url),
        ..m
    }
}

/// The item changes some field of the existing material.
pub open spec fn item_changes(m: MaterialView, it: ItemView) -> bool {
    differs(m.click_url, it.click_url) || differs(m.coupon_url, it.coupon_url) || differs(
        m.coupon_info,
        it.coupon_info,
    ) || differs(m.description, it.description) || differs(m.tpwd, it.tpwd) || differs(
        m.short_url,
        it.short_url,
    )
}

/// The material created for an item: id 0, no images, unpublished.
pub open spec fn new_material(owner_id: i64, account_id: Seq<char>, rule_id: i64, it: ItemView) -> MaterialView {
    MaterialView {
        id: 0,
        owner_id,
        account_id,
        rule_id,
        item_id: it.item_id,
        title: it.title,
        price_bits: it.price_bits,
        stock: it.stock,
        description: it.description,
        images: Seq::empty(),
        click_url: it.click_url,
        coupon_url: it.coupon_url,
        coupon_info: it.coupon_info,
        tpwd: it.tpwd,
        short_url: it.short_url,
        publish_status: PublishStatus::Unpublished,
    }
}

/// A write of the batch upsert.
pub ghost enum WriteView {
    Update(MaterialView),
    Create(MaterialView),
}

/// The non-empty titles of the materials, in order.
pub open spec fn title_list(existing: Seq<MaterialView>) -> Seq<Seq<char>>
    decreases existing.len(),
{
    if existing.len() == 0 {
        Seq::empty()
    } else if existing.last().title.len() > 0 {
        title_list(existing.drop_last()).push(existing.last().title)
    } else {
        title_list(existing.drop_last())
    }
}

/// The writes of the batch upsert, item by item: an item whose id exists is
/// merged into the existing material, written only when something changed;
/// otherwise an item whose non-empty title is taken is skipped; otherwise a
/// material is created and its title taken.
pub open spec fn plan_spec(
    items: Seq<ItemView>,
    existing: Seq<MaterialView>,
    titles: Seq<Seq<char>>,
    owner_id: i64,
    account_id: Seq<char>,
    rule_id: i64,
) -> Seq<WriteView>
    decreases items.len(),
{
    if items.len() == 0 {
        Seq::empty()
    } else {
        let it = items[0];
        let rest = items.drop_first();
        match lookup_existing(existing, it.item_id) {
            Some(m) => if item_changes(m, it) {
                seq![WriteView::Update(updated_material(m, it))] + plan_spec(
                    rest,
                    existing,
                    titles,
                    owner_id,
                    account_id,
                    rule_id,
                )
            } else {
                plan_spec(rest, existing, titles, owner_id, account_id, rule_id)
            },
            None => if it.title.len() > 0 && titles.contains(it.title) {
                plan_spec(rest, existing, titles, owner_id, account_id, rule_id)
            } else {
                seq![WriteView::Create(new_material(owner_id, account_id, rule_id, it))] + plan_spec(
                    rest,
                    existing,
                    if it.title.len() > 0 {
                        titles.push(it.title)
                    } else {
                        titles
                    },
                    owner_id,
                    account_id,
                    rule_id,
                )
            },
        }
    }
}

/// The batch upsert's writes for the items against the existing materials.
pub open spec fn batch_plan(
    items: Seq<ItemView>,
    existing: Seq<MaterialView>,
    owner_id: i64,
    account_id: Seq<char>,
    rule_id: i64,
) -> Seq<WriteView> {
    plan_spec(items, existing, title_list(existing), owner_id, account_id, rule_id)
}

/// Number of creations among the writes.
pub open spec fn count_created(w: Seq<WriteView>) -> nat
    decreases w.len(),
{
    if w.len() == 0 {
        0
    } else {
        count_created(w.drop_last()) + if w.last() is Create {
            1nat
        } else {
            0nat
        }
    }
}

/// Number of updates among the writes.
pub open spec fn count_updated(w: Seq<WriteView>) -> nat
    decreases w.len(),
{
    if w.len() == 0 {
        0
    } else {
        count_updated(w.drop_last()) + if w.last() is Update {
            1nat
        } else {
            0nat
        }
    }
}

/// A write of the batch upsert.
#[derive(Debug)]
pub enum MaterialWrite {
    /// Update an existing material.
    Update(Material),
    /// Create a material.
    Create(Material),
}

impl MaterialWrite {
    pub open spec fn view(&self) -> WriteView {
        match self {
            MaterialWrite::Update(m) => WriteView::Update(m@),
            MaterialWrite::Create(m) => WriteView::Create(m@),
        }
    }
}

/// The values of a list of writes.
pub open spec fn writes_view(s: Seq<MaterialWrite>) -> Seq<WriteView> {
    s.map_values(|x: MaterialWrite| x@)
}

proof fn lemma_last_unique(existing: Seq<MaterialView>, id: Seq<char>, j: int)
    requires
        is_last_with_id(existing, id, j),
    ensures
        lookup_existing(existing, id) == Some(existing[j]),
{
    let c = choose|k: int| is_last_with_id(existing, id, k);
    assert(is_last_with_id(existing, id, c));
    if c < j {
        assert(existing[j].item_id != id);
    } else if c > j {
        assert(existing[c].item_id != id);
    }
}

/// The last position of a material with the (non-empty) item id.
fn find_last_with_id(existing: &[Material], id: &str) -> (r: Option<usize>)
    ensures
        match r {
            Some(j) => is_last_with_id(materials_view(existing@), id@, j as int),
            None => lookup_existing(materials_view(existing@), id@) is None,
        },
{
    let ghost ev = materials_view(existing@);
    if str_is_empty(id) {
        return None;
    }
    let mut found: Option<usize> = None;
    let mut k: usize = 0;
    while k < existing.len()
        invariant
            k <= existing.len(),
            ev == materials_view(existing@),
            id@.len() > 0,
            match found {
                Some(f) => f < k && ev[f as int].item_id == id@ && forall|t: int|
                    f < t < k ==> #[trigger] ev[t].item_id != id@,
                None => forall|t: int| 0 <= t < k ==> #[trigger] ev[t].item_id != id@,
            },
        decreases existing.len() - k,
    {
        if str_eq(existing[k].item_id.as_str(), id) {
            found = Some(k);
        }
        k = k + 1;
    }
    match found {
        Some(f) => {},
        None => {
            assert(!exists|j: int| is_last_with_id(ev, id@, j)) by {
                assert forall|j: int| !is_last_with_id(ev, id@, j) by {
                    if 0 <= j < ev.len() {
                        assert(ev[j].item_id != id@);
                    }
                }
            }
        },
    }
    found
}

/// Whether `s` is among the strings.
fn contains_string(v: &Vec<String>, s: &str) -> (b: bool)
    ensures
        b == crate::text::strings_view(v@).contains(s@),
{
    let ghost sv = crate::text::strings_view(v@);
    let mut k: usize = 0;
    while k < v.len()
        invariant
            k <= v.len(),
            sv == crate::text::strings_view(v@),
            forall|t: int| 0 <= t < k ==> sv[t] != s@,
        decreases v.len() - k,
    {
        if str_eq(v[k].as_str(), s) {
            assert(sv[k as int] == s@);
            return true;
        }
        k = k + 1;
    }
    false
}

/// Merges a new value into a field; returns whether the field changed.
fn merge_field(target: &mut Option<String>, value: &Option<String>) -> (changed: bool)
    ensures
        opt_string(*final(target)) == merged(opt_string(*old(target)), opt_string(*value)),
        changed == differs(opt_string(*old(target)), opt_string(*value)),
{
    match value {
        Some(v) => {
            let same = match target {
                Some(t) => str_eq(t.as_str(), v.as_str()),
                None => false,
            };
            if !same {
                *target = Some(v.clone());
            }
            !same
        },
        None => false,
    }
}

/// Material service.
pub struct MaterialService<'a> {
    /// The store the service works on.
    pub store: &'a dyn MaterialStore,
}

impl<'a> MaterialService<'a> {
    pub fn new(store: &'a dyn MaterialStore) -> Self {
        Self { store }
    }

    /// Trims and deduplicates items (see [`normalize_spec`]): items with an
    /// empty id, a repeated id or a repeated non-empty title are dropped.
    pub fn normalize_items(items: &[MaterialItem]) -> (r: Vec<MaterialItem>)
        ensures
            items_view(r@) == normalize_spec(items_view(items@)),
    {
        let mut unique: Vec<MaterialItem> = Vec::new();
        let mut i: usize = 0;
        while i < items.len()
            invariant
                i <= items.len(),
                items_view(unique@) == normalize_spec(items_view(items@.take(i as int))),
            decreases items.len() - i,
        {
            let ghost before = items_view(items@.take(i as int));
            let ghost after = items_view(items@.take(i as int + 1));
            proof {
                assert(after.drop_last() =~= before);
                assert(after.last() == items@[i as int]@);
            }
            let item = &items[i];
            let item_id = trim_str(item.item_id.as_str());
            let title = trim_str(item.title.as_str());
            let keep = !str_is_empty(item_id.as_str()) && !contains_item_id(&unique, item_id.as_str())
                && !(!str_is_empty(title.as_str()) && contains_item_title(&unique, title.as_str()));
            assert(keep == keeps(items_view(unique@), items@[i as int]@));
            if keep {
                let mut normalized = item.clone();
                normalized.item_id = item_id;
                normalized.title = title;
                let ghost old_unique = unique@;
                unique.push(normalized);
                proof {
                    assert(items_view(unique@) =~= items_view(old_unique).push(trimmed_item(items@[i as int]@)));
                }
            }
            i = i + 1;
        }
        assert(items@.take(items.len() as int) =~= items@);
        unique
    }

    /// The writes of the batch upsert of `unique` against `existing` (see
    /// [`batch_plan`]).
    pub fn plan_writes(
        owner_id: i64,
        account_id: &str,
        rule_id: i64,
        unique: &[MaterialItem],
        existing: &[Material],
    ) -> (r: Vec<MaterialWrite>)
        ensures
            writes_view(r@) == batch_plan(items_view(unique@), materials_view(existing@), owner_id, account_id@, rule_id),
    {
        let ghost ev = materials_view(existing@);
        let ghost iv = items_view(unique@);
        // Titles already taken.
        let mut titles: Vec<String> = Vec::new();
        let mut k: usize = 0;
        while k < existing.len()
            invariant
                k <= existing.len(),
                ev == materials_view(existing@),
                crate::text::strings_view(titles@) == title_list(ev.take(k as int)),
            decreases existing.len() - k,
        {
            proof {
                assert(ev.take(k as int + 1).drop_last() =~= ev.take(k as int));
            }
            if !str_is_empty(existing[k].title.as_str()) {
                let ghost before = titles@;
                titles.push(existing[k].title.clone());
                assert(crate::text::strings_view(titles@) =~= crate::text::strings_view(before).push(ev[k as int].title));
            }
            k = k + 1;
        }
        assert(ev.take(existing.len() as int) =~= ev);
        let ghost titles0 = crate::text::strings_view(titles@);
        let mut writes: Vec<MaterialWrite> = Vec::new();
        let mut i: usize = 0;
        assert(iv.skip(0) =~= iv);
        assert(writes_view(writes@) + plan_spec(iv, ev, titles0, owner_id, account_id@, rule_id) =~= plan_spec(
            iv,
            ev,
            titles0,
            owner_id,
            account_id@,
            rule_id,
        ));
        while i < unique.len()
            invariant
                i <= unique.len(),
                ev == materials_view(existing@),
                iv == items_view(unique@),
                writes_view(writes@) + plan_spec(iv.skip(i as int), ev, crate::text::strings_view(titles@), owner_id, account_id@, rule_id)
                    == plan_spec(iv, ev, titles0, owner_id, account_id@, rule_id),
            decreases unique.len() - i,
        {
            let ghost rest = iv.skip(i as int);
            let ghost tv = crate::text::strings_view(titles@);
            let ghost w0 = writes_view(writes@);
            proof {
                assert(rest.drop_first() =~= iv.skip(i as int + 1));
                assert(rest[0] == unique@[i as int]@);
            }
            let item = &unique[i];
            match find_last_with_id(existing, item.item_id.as_str()) {
                Some(j) => {
                    proof {
                        lemma_last_unique(ev, item.item_id@, j as int);
                    }
                    let mut material = existing[j].clone();
                    let c1 = merge_field(&mut material.click_url, &item.click_url);
                    let c2 = merge_field(&mut material.coupon_url, &item.coupon_url);
                    let c3 = merge_field(&mut material.coupon_info, &item.coupon_info);
                    let c4 = merge_field(&mut material.description, &item.description);
                    let c5 = merge_field(&mut material.tpwd, &item.tpwd);
                    let c6 = merge_field(&mut material.short_url, &item.short_url);
                    assert(material@ == updated_material(ev[j as int], item@));
                    if c1 || c2 || c3 || c4 || c5 || c6 {
                        writes.push(MaterialWrite::Update(material));
                        assert(writes_view(writes@) =~= w0.push(WriteView::Update(updated_material(ev[j as int], item@))));
                        assert(writes_view(writes@) + plan_spec(iv.skip(i as int + 1), ev, tv, owner_id, account_id@, rule_id)
                            =~= w0 + plan_spec(rest, ev, tv, owner_id, account_id@, rule_id));
                    }
                },
                None => {
                    let title_taken = !str_is_empty(item.title.as_str()) && contains_string(&titles, item.title.as_str());
                    if !title_taken {
                        let material = Material {
                            id: 0,
                            owner_id,
                            account_id: crate::text::owned(account_id),
                            rule_id,
                            item_id: item.item_id.clone(),
                            title: item.title.clone(),
                            price_bits: item.price_bits,
                            stock: item.stock,
                            description: item.description.clone(),
                            images: String::new(),
                            click_url: item.click_url.clone(),
                            coupon_url: item.coupon_url.clone(),
                            coupon_info: item.coupon_info.clone(),
                            tpwd: item.tpwd.clone(),
                            short_url: item.short_url.clone(),
                            publish_status: PublishStatus::Unpublished,
                        };
                        assert(material@ == new_material(owner_id, account_id@, rule_id, item@));
                        writes.push(MaterialWrite::Create(material));
                        if !str_is_empty(item.title.as_str()) {
                            titles.push(item.title.clone());
                            assert(crate::text::strings_view(titles@) =~= tv.push(item.title@));
                        }
                        assert(writes_view(writes@) =~= w0.push(WriteView::Create(new_material(owner_id, account_id@, rule_id, item@))));
                        assert(writes_view(writes@) + plan_spec(iv.skip(i as int + 1), ev, crate::text::strings_view(titles@), owner_id, account_id@, rule_id)
                            =~= w0 + plan_spec(rest, ev, tv, owner_id, account_id@, rule_id));
                    }
                },
            }
            i = i + 1;
        }
        assert(iv.skip(0) =~= iv);
        assert(writes_view(writes@) =~= writes_view(writes@) + Seq::<WriteView>::empty());
        writes
    }

    /// What the existing materials are looked up by: the items' ids (see
    /// [`lookup_ids`]) and their non-empty titles (see [`lookup_titles`]).
    pub fn lookup_keys(items: &[MaterialItem]) -> (r: (Vec<String>, Vec<String>))
        ensures
            strings_view(r.0@) == lookup_ids(items_view(items@)),
            strings_view(r.1@) == lookup_titles(items_view(items@)),
    {
        let mut item_ids: Vec<String> = Vec::new();
        let mut titles: Vec<String> = Vec::new();
        let mut k: usize = 0;
        while k < items.len()
            invariant
                k <= items@.len(),
                strings_view(item_ids@) == lookup_ids(items_view(items@.take(k as int))),
                strings_view(titles@) == lookup_titles(items_view(items@.take(k as int))),
            decreases items.len() - k,
        {
            proof {
                assert(items_view(items@.take(k as int + 1)).drop_last() =~= items_view(items@.take(k as int)));
            }
            let ghost ids_before = item_ids@;
            let ghost titles_before = titles@;
            item_ids.push(items[k].item_id.clone());
            assert(strings_view(item_ids@) =~= strings_view(ids_before).push(items@[k as int].item_id@));
            assert(lookup_ids(items_view(items@.take(k as int + 1))) =~= lookup_ids(items_view(items@.take(k as int))).push(
                items@[k as int].item_id@,
            ));
            if !str_is_empty(items[k].title.as_str()) {
                titles.push(items[k].title.clone());
                assert(strings_view(titles@) =~= strings_view(titles_before).push(items@[k as int].title@));
            }
            k = k + 1;
        }
        assert(items@.take(items@.len() as int) =~= items@);
        (item_ids, titles)
    }

    /// Batch upsert: the items are normalized (see [`normalize_spec`]); when
    /// some remain, the store is asked for the materials that share their ids
    /// or titles (the keys of [`Self::lookup_keys`] on the normalized items),
    /// and the writes of [`batch_plan`] are made in order, stopping
    /// at the first store error: a failed lookup is returned; on success
    /// every write was accepted and the counts are those of the plan; a
    /// failure is the answer of one write of the plan, all before it
    /// accepted.
    #[verifier::rlimit(40)]
    pub fn batch_create(&self, owner_id: i64, account_id: &str, rule_id: i64, items: &[MaterialItem]) -> (r:
        OpenDeskResult<BatchWriteResult>)
        ensures
            normalize_spec(items_view(items@)).len() == 0 ==> (r matches Ok(b) && b.created == 0 && b.updated == 0),
            r matches Ok(b) ==> exists|existing: Seq<MaterialView>|
                {
                    let plan = #[trigger] batch_plan(normalize_spec(items_view(items@)), existing, owner_id, account_id@, rule_id);
                    b.created == count_created(plan) && b.updated == count_updated(plan)
                },
            normalize_spec(items_view(items@)).len() > 0 ==> exists|listed: OpenDeskResult<Vec<Material>>|
                #![trigger self.store.materials_existing(owner_id, account_id@, lookup_ids(normalize_spec(items_view(items@))), lookup_titles(normalize_spec(items_view(items@))), listed)]
                self.store.materials_existing(
                    owner_id,
                    account_id@,
                    lookup_ids(normalize_spec(items_view(items@))),
                    lookup_titles(normalize_spec(items_view(items@))),
                    listed,
                ) && match listed {
                    Err(e) => r == Err::<BatchWriteResult, String>(e),
                    Ok(ex) => {
                        let plan = batch_plan(normalize_spec(items_view(items@)), materials_view(ex@), owner_id, account_id@, rule_id);
                        &&& r matches Ok(b) ==> b.created == count_created(plan) && b.updated == count_updated(plan)
                            && forall|k: int| 0 <= k < plan.len() ==> match #[trigger] plan[k] {
                            WriteView::Update(m) => exists|a: OpenDeskResult<()>| a is Ok && self.store.material_updated(m, a),
                            WriteView::Create(m) => exists|a: OpenDeskResult<Material>| a is Ok && self.store.material_created(m, a),
                        }
                        &&& r matches Err(e) ==> exists|k: int|
                            0 <= k < plan.len() && (forall|j: int| 0 <= j < k ==> match #[trigger] plan[j] {
                                WriteView::Update(m) => exists|a: OpenDeskResult<()>| a is Ok && self.store.material_updated(m, a),
                                WriteView::Create(m) => exists|a: OpenDeskResult<Material>| a is Ok && self.store.material_created(m, a),
                            }) && match #[trigger] plan[k] {
                                WriteView::Update(m) => self.store.material_updated(m, Err(e)),
                                WriteView::Create(m) => self.store.material_created(m, Err(e)),
                            }
                    },
                },
    {
        let unique = Self::normalize_items(items);
        if unique.len() == 0 {
            assert(count_created(batch_plan(normalize_spec(items_view(items@)), Seq::<MaterialView>::empty(), owner_id, account_id@, rule_id)) == 0);
            return Ok(BatchWriteResult::default());
        }
        assert(items_view(unique@).len() > 0);
        let (item_ids, titles) = Self::lookup_keys(unique.as_slice());
        let listed = self.store.existing_materials(owner_id, account_id, item_ids.as_slice(), titles.as_slice());
        let ghost g = listed;
        let existing = match listed {
            Ok(e) => e,
            Err(e) => return Err(e),
        };
        assert(g matches Ok(v) && v@ == existing@);
        let writes = Self::plan_writes(owner_id, account_id, rule_id, unique.as_slice(), existing.as_slice());
        let ghost plan = writes_view(writes@);
        let mut result = BatchWriteResult::default();
        let mut n: usize = 0;
        while n < writes.len()
            invariant
                n <= writes.len(),
                plan == writes_view(writes@),
                normalize_spec(items_view(items@)).len() > 0,
                result.created == count_created(plan.take(n as int)),
                result.updated == count_updated(plan.take(n as int)),
                result.created + result.updated <= n,
                self.store.materials_existing(
                    owner_id,
                    account_id@,
                    lookup_ids(normalize_spec(items_view(items@))),
                    lookup_titles(normalize_spec(items_view(items@))),
                    g,
                ),
                g matches Ok(v) && v@ == existing@,
                plan == batch_plan(normalize_spec(items_view(items@)), materials_view(existing@), owner_id, account_id@, rule_id),
                forall|j: int| 0 <= j < n ==> match #[trigger] plan[j] {
                    WriteView::Update(m) => exists|a: OpenDeskResult<()>| a is Ok && self.store.material_updated(m, a),
                    WriteView::Create(m) => exists|a: OpenDeskResult<Material>| a is Ok && self.store.material_created(m, a),
                },
            decreases writes.len() - n,
        {
            proof {
                assert(plan.take(n as int + 1).drop_last() =~= plan.take(n as int));
            }
            match &writes[n] {
                MaterialWrite::Update(m) => {
                    let a = self.store.update_material(m);
                    assert(plan[n as int] == WriteView::Update(m@));
                    match a {
                        Err(e) => {
                            assert(self.store.material_updated(m@, Err(e)));
                            return Err(e);
                        },
                        Ok(()) => {
                            assert(a is Ok && self.store.material_updated(m@, a));
                        },
                    }
                    result.updated = result.updated + 1;
                },
                MaterialWrite::Create(m) => {
                    let a = self.store.create_material(m);
                    assert(plan[n as int] == WriteView::Create(m@));
                    match a {
                        Err(e) => {
                            assert(self.store.material_created(m@, Err(e)));
                            return Err(e);
                        },
                        Ok(_) => {
                            assert(a is Ok && self.store.material_created(m@, a));
                        },
                    }
                    result.created = result.created + 1;
                },
            }
            n = n + 1;
        }
        assert(plan.take(writes.len() as int) =~= plan);
        Ok(result)
    }

    /// One page of materials, as the store lists them.
    pub fn list(&self, owner_id: i64, query: &MaterialQuery) -> (r: OpenDeskResult<(Vec<Material>, u32)>)
        ensures
            self.store.materials_listed(owner_id, *query, r),
    {
        self.store.list_materials(owner_id, query)
    }

    /// Updates the user's material with `apply`: the lookup of the user's
    /// material decides (see [`owner_checked`]); a material found is updated
    /// to what `apply` makes of it.
    pub fn update<F: FnOnce(Material) -> Material>(&self, owner_id: i64, material_id: i64, apply: F) -> (r: OpenDeskResult<()>)
        requires
            forall|m: Material| apply.requires((m,)),
        ensures
            exists|got: OpenDeskResult<Option<Material>>|
                #![trigger self.store.material_got(owner_id, material_id, got)]
                self.store.material_got(owner_id, material_id, got) && owner_checked(got, r, "素材不存在或无权限"@) && (got matches Ok(
                    Some(m),
                ) ==> exists|applied: Material|
                    #![trigger self.store.material_updated(applied@, r)]
                    call_ensures(apply, (m,), applied) && self.store.material_updated(applied@, r)),
    {
        let got = self.store.get_material(owner_id, material_id);
        let material = match owner_gate(&got, "素材不存在或无权限") {
            Err(e) => {
                let r = Err(e);
                assert(owner_checked(got, r, "素材不存在或无权限"@));
                return r;
            },
            Ok(m) => m.clone(),
        };
        let material = apply(material);
        let r = self.store.update_material(&material);
        assert(owner_checked(got, r, "素材不存在或无权限"@));
        r
    }

    /// Deletes the user's material: the lookup of the user's material decides
    /// (see [`owner_checked`]); a material found is deleted.
    pub fn delete(&self, owner_id: i64, material_id: i64) -> (r: OpenDeskResult<()>)
        ensures
            exists|got: OpenDeskResult<Option<Material>>|
                #![trigger self.store.material_got(owner_id, material_id, got)]
                self.store.material_got(owner_id, material_id, got) && owner_checked(got, r, "素材不存在或无权限"@) && (got matches Ok(
                    Some(_),
                ) ==> self.store.material_deleted(material_id, r)),
    {
        let got = self.store.get_material(owner_id, material_id);
        let r = match owner_gate(&got, "素材不存在或无权限") {
            Err(e) => Err(e),
            Ok(_) => self.store.delete_material(material_id),
        };
        assert(owner_checked(got, r, "素材不存在或无权限"@));
        r
    }
}


/// The normalized items have non-empty item ids, no item id twice, and no
/// non-empty title twice.
pub proof fn lemma_normalized_unique(items: Seq<ItemView>)
    ensures
        forall|i: int| 0 <= i < normalize_spec(items).len() ==> (#[trigger] normalize_spec(items)[i]).item_id.len() > 0,
        forall|i: int, j: int|
            0 <= i < j < normalize_spec(items).len() ==> (#[trigger] normalize_spec(items)[i]).item_id
                != (#[trigger] normalize_spec(items)[j]).item_id,
        forall|i: int, j: int|
            0 <= i < j < normalize_spec(items).len() && (#[trigger] normalize_spec(items)[i]).title.len() > 0
                ==> normalize_spec(items)[i].title != (#[trigger] normalize_spec(items)[j]).title,
    decreases items.len(),
{
    if items.len() > 0 {
        lemma_normalized_unique(items.drop_last());
        let kept = normalize_spec(items.drop_last());
        let it = items.last();
        if keeps(kept, it) {
            let r = normalize_spec(items);
            let t = trimmed_item(it);
            assert(r == kept.push(t));
            assert forall|i: int, j: int| 0 <= i < j < r.len() implies (#[trigger] r[i]).item_id != (#[trigger] r[j]).item_id by {
                if j == r.len() - 1 {
                    assert(r[i] == kept[i]);
                    if kept[i].item_id == t.item_id {
                        assert(has_id(kept, trim_seq(it.item_id)));
                    }
                } else {
                    assert(r[i] == kept[i] && r[j] == kept[j]);
                }
            }
            assert forall|i: int, j: int| 0 <= i < j < r.len() && (#[trigger] r[i]).title.len() > 0 implies r[i].title
                != (#[trigger] r[j]).title by {
                if j == r.len() - 1 {
                    assert(r[i] == kept[i]);
                    if kept[i].title == t.title {
                        assert(has_title(kept, trim_seq(it.title)));
                    }
                } else {
                    assert(r[i] == kept[i] && r[j] == kept[j]);
                }
            }
            assert forall|i: int| 0 <= i < r.len() implies (#[trigger] r[i]).item_id.len() > 0 by {
                if i < r.len() - 1 {
                    assert(r[i] == kept[i]);
                }
            }
        }
    }
}

} // verus!
