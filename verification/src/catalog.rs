//! The model catalog overlay: the stock catalog with Sol's context window raised,
//! every other entry left as it was.
use vstd::prelude::*;
use crate::hook_input::opt_view;
use crate::text::str_eq;

verus! {

/// What the overlay needs to know of one catalog entry.
pub struct CatalogModel {
    /// Whether the entry is a JSON object.
    pub is_object: bool,
    /// Its `slug`, when that is a string.
    pub slug: Option<String>,
}

/// The text of a [`CatalogModel`].
pub struct CatalogModelView {
    pub is_object: bool,
    pub slug: Option<Seq<char>>,
}

impl View for CatalogModel {
    type V = CatalogModelView;

    open spec fn view(&self) -> CatalogModelView {
        CatalogModelView { is_object: self.is_object, slug: opt_view(self.slug) }
    }
}

/// Why the overlay was not made.
#[derive(Debug)]
pub enum CatalogError {
    /// The cache is not JSON (with `serde_json`'s message).
    NotJson(String),
    /// `models` is missing or not an array.
    ModelsNotArray,
    /// An entry of `models` is not an object.
    ModelNotObject,
    /// There is not exactly one Sol, one Terra and one Luna.
    FamilyCount,
}

impl CatalogError {
    /// The message reported for the error.
    pub fn message(&self) -> (r: String)
        ensures
            r@ == match self {
                CatalogError::NotJson(m) => m@,
                CatalogError::ModelsNotArray => "models must be an array"@,
                CatalogError::ModelNotObject => "model must be an object"@,
                CatalogError::FamilyCount => "catalog requires exactly one Sol, Terra, and Luna"@,
            },
    {
        match self {
            CatalogError::NotJson(m) => m.clone(),
            CatalogError::ModelsNotArray => "models must be an array".to_owned(),
            CatalogError::ModelNotObject => "model must be an object".to_owned(),
            CatalogError::FamilyCount => "catalog requires exactly one Sol, Terra, and Luna".to_owned(),
        }
    }
}

pub open spec fn sol_slug() -> Seq<char> {
    "gpt-5.6-sol"@
}

pub open spec fn terra_slug() -> Seq<char> {
    "gpt-5.6-terra"@
}

pub open spec fn luna_slug() -> Seq<char> {
    "gpt-5.6-luna"@
}

/// Sol's context window in the overlay.
pub const SOL_CONTEXT_WINDOW: u64 = 1050000;

/// Sol's automatic compaction threshold in the overlay.
pub const SOL_AUTO_COMPACT_LIMIT: u64 = 950000;

/// How many entries have the slug `slug`.
pub open spec fn count_slug(models: Seq<CatalogModelView>, slug: Seq<char>) -> nat
    decreases models.len(),
{
    if models.len() == 0 {
        0
    } else {
        count_slug(models.drop_last(), slug) + if models.last().slug == Some(slug) {
            1nat
        } else {
            0nat
        }
    }
}

/// The index of the first entry with the slug `slug`, or -1.
pub open spec fn first_with_slug(models: Seq<CatalogModelView>, slug: Seq<char>) -> int
    decreases models.len(),
{
    if models.len() == 0 {
        -1
    } else if first_with_slug(models.drop_last(), slug) >= 0 {
        first_with_slug(models.drop_last(), slug)
    } else if models.last().slug == Some(slug) {
        models.len() - 1
    } else {
        -1
    }
}

/// One field to set on one catalog entry.
pub struct FieldEdit {
    pub index: usize,
    pub key: String,
    pub value: u64,
}

/// The text of a [`FieldEdit`].
pub struct FieldEditView {
    pub index: int,
    pub key: Seq<char>,
    pub value: u64,
}

impl View for FieldEdit {
    type V = FieldEditView;

    open spec fn view(&self) -> FieldEditView {
        FieldEditView { index: self.index as int, key: self.key@, value: self.value }
    }
}

/// The three fields that raise Sol's ceiling, on the entry at `i`.
pub open spec fn sol_edits(i: int) -> Seq<FieldEditView> {
    seq![
        FieldEditView { index: i, key: "context_window"@, value: SOL_CONTEXT_WINDOW },
        FieldEditView { index: i, key: "max_context_window"@, value: SOL_CONTEXT_WINDOW },
        FieldEditView { index: i, key: "auto_compact_token_limit"@, value: SOL_AUTO_COMPACT_LIMIT },
    ]
}

/// The edits that make the overlay from the catalog's `models` (`None` when it is
/// missing or not an array).
pub open spec fn plan_spec(models: Option<Seq<CatalogModelView>>) -> Result<
    Seq<FieldEditView>,
    CatalogError,
> {
    match models {
        None => Err(CatalogError::ModelsNotArray),
        Some(ms) => {
            if exists|k: int| 0 <= k < ms.len() && !(#[trigger] ms[k]).is_object {
                Err(CatalogError::ModelNotObject)
            } else if count_slug(ms, sol_slug()) != 1 || count_slug(ms, terra_slug()) != 1
                || count_slug(ms, luna_slug()) != 1 {
                Err(CatalogError::FamilyCount)
            } else {
                Ok(sol_edits(first_with_slug(ms, sol_slug())))
            }
        },
    }
}

/// The view of an optional list of entries.
pub open spec fn models_view(models: Option<Vec<CatalogModel>>) -> Option<Seq<CatalogModelView>> {
    match models {
        Some(v) => Some(v@.map_values(|m: CatalogModel| m@)),
        None => None,
    }
}

/// The view of a plan.
pub open spec fn plan_view(r: Result<Vec<FieldEdit>, CatalogError>) -> Result<
    Seq<FieldEditView>,
    CatalogError,
> {
    match r {
        Ok(v) => Ok(v@.map_values(|e: FieldEdit| e@)),
        Err(e) => Err(e),
    }
}

proof fn lemma_first_with_slug(models: Seq<CatalogModelView>, slug: Seq<char>)
    ensures
        -1 <= first_with_slug(models, slug) < models.len(),
        first_with_slug(models, slug) >= 0 ==> models[first_with_slug(models, slug)].slug == Some(
            slug,
        ),
        first_with_slug(models, slug) < 0 ==> count_slug(models, slug) == 0,
        count_slug(models, slug) == 0 ==> first_with_slug(models, slug) < 0,
    decreases models.len(),
{
    if models.len() > 0 {
        let init = models.drop_last();
        lemma_first_with_slug(init, slug);
        assert forall|j: int| 0 <= j < init.len() implies init[j] == models[j] by {}
    }
}

/// Which family an entry's slug belongs to: 0 Sol, 1 Terra, 2 Luna, 3 none.
fn family(m: &CatalogModel) -> (r: u8)
    ensures
        r == (if m@.slug == Some(sol_slug()) {
            0u8
        } else if m@.slug == Some(terra_slug()) {
            1u8
        } else if m@.slug == Some(luna_slug()) {
            2u8
        } else {
            3u8
        }),
{
    match &m.slug {
        Some(s) => {
            if str_eq(s.as_str(), "gpt-5.6-sol") {
                0
            } else if str_eq(s.as_str(), "gpt-5.6-terra") {
                1
            } else if str_eq(s.as_str(), "gpt-5.6-luna") {
                2
            } else {
                3
            }
        },
        None => 3,
    }
}

fn edit(index: usize, key: &str, value: u64) -> (r: FieldEdit)
    ensures
        r@ == (FieldEditView { index: index as int, key: key@, value }),
{
    FieldEdit { index, key: key.to_owned(), value }
}

/// Checks the catalog's `models` and returns the edits that make the overlay: the
/// three fields of Sol's entry, provided every entry is an object and there is
/// exactly one Sol, one Terra and one Luna.
pub fn plan_catalog(models: &Option<Vec<CatalogModel>>) -> (r: Result<Vec<FieldEdit>, CatalogError>)
    ensures
        plan_view(r) == plan_spec(models_view(*models)),
{
    let ms = match models {
        Some(ms) => ms,
        None => return Err(CatalogError::ModelsNotArray),
    };
    let ghost views = ms@.map_values(|m: CatalogModel| m@);
    proof {
        reveal_strlit("gpt-5.6-sol");
        reveal_strlit("gpt-5.6-terra");
        reveal_strlit("gpt-5.6-luna");
        assert(sol_slug()[8] != terra_slug()[8]);
        assert(sol_slug()[8] != luna_slug()[8]);
        assert(terra_slug()[8] != luna_slug()[8]);
    }
    let mut sol: usize = 0;
    let mut terra: usize = 0;
    let mut luna: usize = 0;
    let mut sol_at: usize = 0;
    let mut k: usize = 0;
    while k < ms.len()
        invariant
            k <= ms@.len(),
            views == ms@.map_values(|m: CatalogModel| m@),
            models_view(*models) == Some(views),
            sol_slug() != terra_slug() && sol_slug() != luna_slug() && terra_slug() != luna_slug(),
            forall|j: int| 0 <= j < k ==> (#[trigger] views[j]).is_object,
            sol as nat == count_slug(views.subrange(0, k as int), sol_slug()),
            terra as nat == count_slug(views.subrange(0, k as int), terra_slug()),
            luna as nat == count_slug(views.subrange(0, k as int), luna_slug()),
            sol <= k,
            terra <= k,
            luna <= k,
            sol > 0 ==> sol_at < k && sol_at as int == first_with_slug(
                views.subrange(0, k as int),
                sol_slug(),
            ),
            sol == 0 ==> first_with_slug(views.subrange(0, k as int), sol_slug()) < 0,
        decreases ms@.len() - k,
    {
        let m = &ms[k];
        if !m.is_object {
            assert(!views[k as int].is_object);
            return Err(CatalogError::ModelNotObject);
        }
        let f = family(m);
        proof {
            let pre = views.subrange(0, k as int);
            let next = views.subrange(0, k + 1);
            assert(next.drop_last() == pre);
            assert(next.last() == views[k as int]);
            lemma_first_with_slug(pre, sol_slug());
        }
        if f == 0 {
            if sol == 0 {
                sol_at = k;
            }
            sol = sol + 1;
        } else if f == 1 {
            terra = terra + 1;
        } else if f == 2 {
            luna = luna + 1;
        }
        k = k + 1;
    }
    assert(views.subrange(0, ms@.len() as int) == views);
    if sol != 1 || terra != 1 || luna != 1 {
        return Err(CatalogError::FamilyCount);
    }
    let mut edits: Vec<FieldEdit> = Vec::new();
    edits.push(edit(sol_at, "context_window", SOL_CONTEXT_WINDOW));
    edits.push(edit(sol_at, "max_context_window", SOL_CONTEXT_WINDOW));
    edits.push(edit(sol_at, "auto_compact_token_limit", SOL_AUTO_COMPACT_LIMIT));
    assert(edits@.map_values(|e: FieldEdit| e@) =~= sol_edits(sol_at as int));
    Ok(edits)
}

/// Every edit of a plan targets the entry whose slug is Sol's, and exactly one
/// entry has that slug.
pub proof fn only_sol_is_patched(models: Seq<CatalogModelView>)
    requires
        plan_spec(Some(models)) is Ok,
    ensures
        forall|e: int|
            0 <= e < plan_spec(Some(models))->Ok_0.len() ==> {
                let i = (#[trigger] plan_spec(Some(models))->Ok_0[e]).index;
                &&& 0 <= i < models.len()
                &&& models[i].slug == Some(sol_slug())
            },
        count_slug(models, sol_slug()) == 1,
{
    lemma_first_with_slug(models, sol_slug());
}

/// The plan checks the catalog before it edits: no `models` array is refused
/// first, then any entry that is not an object, then anything but exactly one
/// Sol, one Terra and one Luna; a catalog that passes gets exactly three edits
/// of Sol's entry, raising its context window and maximum to 1,050,000 and its
/// compaction threshold to 950,000.
pub proof fn plan_checks_before_editing(models: Seq<CatalogModelView>)
    ensures
        plan_spec(None) == Err::<Seq<FieldEditView>, CatalogError>(CatalogError::ModelsNotArray),
        (exists|k: int| 0 <= k < models.len() && !(#[trigger] models[k]).is_object) ==> plan_spec(
            Some(models),
        ) == Err::<Seq<FieldEditView>, CatalogError>(CatalogError::ModelNotObject),
        (forall|k: int| 0 <= k < models.len() ==> (#[trigger] models[k]).is_object) && (count_slug(
            models,
            sol_slug(),
        ) != 1 || count_slug(models, terra_slug()) != 1 || count_slug(models, luna_slug()) != 1)
            ==> plan_spec(Some(models)) == Err::<Seq<FieldEditView>, CatalogError>(
            CatalogError::FamilyCount,
        ),
        (forall|k: int| 0 <= k < models.len() ==> (#[trigger] models[k]).is_object) && count_slug(
            models,
            sol_slug(),
        ) == 1 && count_slug(models, terra_slug()) == 1 && count_slug(models, luna_slug()) == 1
            ==> ({
            let edits = plan_spec(Some(models))->Ok_0;
            let i = first_with_slug(models, sol_slug());
            &&& plan_spec(Some(models)) is Ok
            &&& edits.len() == 3
            &&& edits[0] == (FieldEditView { index: i, key: "context_window"@, value: 1050000 })
            &&& edits[1] == (FieldEditView { index: i, key: "max_context_window"@, value: 1050000 })
            &&& edits[2] == (FieldEditView {
                index: i,
                key: "auto_compact_token_limit"@,
                value: 950000,
            })
            &&& 0 <= i < models.len() && models[i].slug == Some(sol_slug())
        }),
{
    lemma_first_with_slug(models, sol_slug());
}

/// What `serde_json` reads of the catalog cache `text`: `None` when it is not
/// JSON, else the entries of its `models` array (`None` when that is missing or
/// not an array). A name for what [`read_catalog`] returns.
pub uninterp spec fn catalog_reading(text: Seq<char>) -> Option<Option<Seq<CatalogModelView>>>;

/// What `serde_json` writes for each entry of the `models` array of the value
/// that it reads from `text`, one text per entry, in order. A name for part of
/// what [`patch_model`] returns.
pub uninterp spec fn json_entries(text: Seq<char>) -> Seq<Seq<u8>>;

/// What `serde_json` writes for the value that it reads from `text`, with the
/// text of each entry of its `models` array replaced by the one at the same
/// place in `entries`. A name for part of what [`patch_model`] returns.
pub uninterp spec fn json_with_entries(text: Seq<char>, entries: Seq<Seq<u8>>) -> Seq<u8>;

/// What `serde_json` writes for entry `index` of the `models` array of the value
/// that it reads from `text`, once its number fields `k1`, `k2` and `k3` are set
/// to `v1`, `v2` and `v3`. A name for part of what [`patch_model`] returns.
pub uninterp spec fn json_entry_with_fields(
    text: Seq<char>,
    index: int,
    k1: Seq<char>,
    v1: u64,
    k2: Seq<char>,
    v2: u64,
    k3: Seq<char>,
    v3: u64,
) -> Seq<u8>;

/// Calls `serde_json::from_str::<Value>` and reads the `models` array with
/// `Value::get`, `Value::as_array`, `Value::is_object` and `Value::as_str`, one
/// [`CatalogModel`] per entry. Trusted to return [`catalog_reading`] of `text`,
/// with as many entries as [`json_entries`] writes (the error carries
/// `serde_json`'s message).
#[verifier::external_body]
fn read_catalog(text: &str) -> (r: Result<Option<Vec<CatalogModel>>, String>)
    ensures
        match r {
            Ok(m) => catalog_reading(text@) == Some(models_view(m)) && (m matches Some(v) ==> json_entries(
                text@,
            ).len() == v@.len()),
            Err(_) => catalog_reading(text@) is None,
        },
{
    let doc: serde_json::Value = serde_json::from_str(text).map_err(|e| e.to_string())?;
    Ok(doc.get("models").and_then(serde_json::Value::as_array).map(|a| a.iter().map(|m| CatalogModel {
        is_object: m.is_object(),
        slug: m.get("slug").and_then(serde_json::Value::as_str).map(|x| x.to_owned()),
    }).collect()))
}

/// Calls `serde_json::from_str::<Value>`, sets the three fields of entry
/// `index` of `models` through `Value::get_mut`, `Value::as_object_mut` and
/// `Map::insert`, and serialises the value once with `serde_json::to_vec`.
/// `text` is JSON whose entry `index` is an object, so neither call fails (a
/// `Value` always serialises). Trusted to write each entry of `models` as
/// `serde_json` writes it alone, the patched entry in its place and every other
/// entry as it was read.
#[verifier::external_body]
fn patch_model(
    text: &str,
    index: usize,
    k1: &str,
    v1: u64,
    k2: &str,
    v2: u64,
    k3: &str,
    v3: u64,
) -> (r: Vec<u8>)
    requires
        catalog_reading(text@) matches Some(Some(ms)) && index < ms.len() && ms[index as int].is_object,
    ensures
        r@ == json_with_entries(
            text@,
            json_entries(text@).update(
                index as int,
                json_entry_with_fields(text@, index as int, k1@, v1, k2@, v2, k3@, v3),
            ),
        ),
{
    let mut doc: serde_json::Value = serde_json::from_str(text).expect("checked JSON");
    if let Some(obj) = doc.get_mut("models").and_then(|m| m.get_mut(index)).and_then(serde_json::Value::as_object_mut) {
        obj.insert(k1.to_owned(), serde_json::Value::from(v1));
        obj.insert(k2.to_owned(), serde_json::Value::from(v2));
        obj.insert(k3.to_owned(), serde_json::Value::from(v3));
    }
    serde_json::to_vec(&doc).expect("a value always serialises")
}

/// The entries of the overlay: those of the cache `text`, with entry `i` set by
/// `edits`.
pub open spec fn overlay_entries(text: Seq<char>, edits: Seq<FieldEditView>) -> Seq<Seq<u8>> {
    json_entries(text).update(
        edits[0].index,
        json_entry_with_fields(
            text,
            edits[0].index,
            edits[0].key,
            edits[0].value,
            edits[1].key,
            edits[1].value,
            edits[2].key,
            edits[2].value,
        ),
    )
}

/// The catalog cache `text` with the three edits of a plan applied to one
/// parse of it, serialised once.
pub open spec fn apply_edits(text: Seq<char>, edits: Seq<FieldEditView>) -> Seq<u8> {
    json_with_entries(text, overlay_entries(text, edits))
}

/// The kinds of [`CatalogError`], without their messages.
pub enum CatalogFailure {
    NotJson,
    ModelsNotArray,
    ModelNotObject,
    FamilyCount,
}

/// The kind of an error.
pub open spec fn failure_of(e: CatalogError) -> CatalogFailure {
    match e {
        CatalogError::NotJson(_) => CatalogFailure::NotJson,
        CatalogError::ModelsNotArray => CatalogFailure::ModelsNotArray,
        CatalogError::ModelNotObject => CatalogFailure::ModelNotObject,
        CatalogError::FamilyCount => CatalogFailure::FamilyCount,
    }
}

/// The overlay for the catalog cache `text`, or the kind of error: made
/// whenever `text` is JSON whose `models` pass the checks of [`plan_spec`].
pub open spec fn refresh_spec(text: Seq<char>) -> Result<Seq<u8>, CatalogFailure> {
    match catalog_reading(text) {
        None => Err(CatalogFailure::NotJson),
        Some(models) => match plan_spec(models) {
            Err(e) => Err(failure_of(e)),
            Ok(edits) => Ok(apply_edits(text, edits)),
        },
    }
}

/// The view of a refresh result.
pub open spec fn refresh_view(r: Result<Vec<u8>, CatalogError>) -> Result<Seq<u8>, CatalogFailure> {
    match r {
        Ok(b) => Ok(b@),
        Err(e) => Err(failure_of(e)),
    }
}

/// The overlay for the catalog cache `text`: the cache with the edits of
/// [`plan_catalog`] applied to its entries, serialised as JSON.
pub fn refresh(text: &str) -> (r: Result<Vec<u8>, CatalogError>)
    ensures
        refresh_view(r) == refresh_spec(text@),
        r is Ok ==> (catalog_reading(text@) matches Some(Some(ms)) && json_entries(text@).len()
            == ms.len()),
{
    let models = match read_catalog(text) {
        Ok(m) => m,
        Err(msg) => return Err(CatalogError::NotJson(msg)),
    };
    let edits = match plan_catalog(&models) {
        Ok(edits) => edits,
        Err(e) => return Err(e),
    };
    let ghost ms = models_view(models)->Some_0;
    let ghost ev = edits@.map_values(|e: FieldEdit| e@);
    proof {
        assert(ev == plan_spec(models_view(models))->Ok_0);
        assert(ev.len() == 3);
        assert(ev[0] == edits@[0]@ && ev[1] == edits@[1]@ && ev[2] == edits@[2]@);
        only_sol_is_patched(ms);
        assert(ms[ev[0].index].is_object);
    }
    let b = patch_model(
        text,
        edits[0].index,
        edits[0].key.as_str(),
        edits[0].value,
        edits[1].key.as_str(),
        edits[1].value,
        edits[2].key.as_str(),
        edits[2].value,
    );
    proof {
        overlay_keeps_other_entries(text@, ms);
    }
    Ok(b)
}

/// The overlay keeps every entry but Sol's: it is the cache written with the
/// entry whose slug is Sol's (the only one) patched, and every other entry,
/// Terra's and Luna's among them, written as it was read.
pub proof fn overlay_keeps_other_entries(text: Seq<char>, models: Seq<CatalogModelView>)
    requires
        catalog_reading(text) == Some(Some(models)),
        json_entries(text).len() == models.len(),
        plan_spec(Some(models)) is Ok,
    ensures
        ({
            let i = first_with_slug(models, sol_slug());
            let out = overlay_entries(text, sol_edits(i));
            &&& refresh_spec(text) == Ok::<Seq<u8>, CatalogFailure>(json_with_entries(text, out))
            &&& 0 <= i < models.len()
            &&& models[i].slug == Some(sol_slug())
            &&& count_slug(models, sol_slug()) == 1
            &&& out.len() == models.len()
            &&& forall|j: int|
                0 <= j < models.len() && j != i ==> #[trigger] out[j] == json_entries(text)[j]
        }),
{
    lemma_first_with_slug(models, sol_slug());
    only_sol_is_patched(models);
}

} // verus!
