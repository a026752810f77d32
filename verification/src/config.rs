//! The host's `config.toml`: pointing it at the catalog overlay and dropping the
//! context overrides that the overlay replaces.
use vstd::prelude::*;

verus! {

#[verifier::external_type_specification]
#[verifier::external_body]
pub struct ExDocumentMut(toml_edit::DocumentMut);

#[verifier::external_type_specification]
#[verifier::external_body]
pub struct ExTomlError(toml_edit::TomlError);

/// What `toml_edit` reads from `text` (a name for the outcome of
/// `DocumentMut::from_str`): `None` when it is not a TOML document, else the
/// items of its root table, as [`toml_items`] gives them, and the keys among
/// them that hold a string, with the string.
pub uninterp spec fn toml_reading(text: Seq<char>) -> Option<(Map<Seq<char>, Seq<char>>, Map<Seq<char>, Seq<char>>)>;

/// The items of a document's root table: each key with a text that stands for
/// the data of its item (its values and nested keys and their values, not its
/// layout, comments or quoting style), so that two items hold the same data
/// exactly when their texts are equal.
pub uninterp spec fn toml_items(doc: toml_edit::DocumentMut) -> Map<Seq<char>, Seq<char>>;

/// The keys of a document's root table that hold a value (not a table), each
/// with the text that the document's `Display` writes for it on its line: the
/// key with the spaces and comments around it, `=`, and the value with the
/// spaces and comments around it.
pub uninterp spec fn toml_lines(doc: toml_edit::DocumentMut) -> Map<Seq<char>, Seq<char>>;

/// `part` stands somewhere in `whole`, as one run of characters.
pub open spec fn occurs_in(part: Seq<char>, whole: Seq<char>) -> bool {
    exists|i: int| 0 <= i && i + part.len() <= whole.len() && #[trigger] whole.subrange(i, i + part.len()) == part
}

/// The keys of a document's root table that hold a string, with that string.
pub uninterp spec fn toml_strings(doc: toml_edit::DocumentMut) -> Map<Seq<char>, Seq<char>>;

/// Calls `str::parse::<DocumentMut>`. Trusted to succeed exactly when
/// [`toml_reading`] of `text` is some reading, and then to give a document with
/// that root table, whose lines (see [`toml_lines`]) stand in `text` as they
/// were read: `toml_edit` keeps the spaces, comments and quoting of what it
/// parses.
#[verifier::external_body]
fn parse_toml(text: &str) -> (r: Result<toml_edit::DocumentMut, toml_edit::TomlError>)
    ensures
        match r {
            Ok(d) => toml_reading(text@) == Some((toml_items(d), toml_strings(d))) && forall|k: Seq<char>|
                #[trigger] toml_lines(d).contains_key(k) ==> occurs_in(toml_lines(d)[k], text@),
            Err(_) => toml_reading(text@) is None,
        },
{
    text.parse::<toml_edit::DocumentMut>()
}

/// Calls the `Display` of `toml_edit::TomlError`. Nothing is stated of the text.
#[verifier::external_body]
fn toml_error_text(e: &toml_edit::TomlError) -> String {
    e.to_string()
}

/// Runs `doc[key] = toml_edit::value(value)`. Trusted, as the `IndexMut` of
/// `DocumentMut` and `Table::entry` show, to leave `key` in the root table
/// holding the string `value`, every other item as it was.
#[verifier::external_body]
fn set_string(doc: &mut toml_edit::DocumentMut, key: &str, value: &str)
    ensures
        toml_items(*final(doc)).contains_key(key@),
        toml_items(*final(doc)).remove(key@) == toml_items(*old(doc)).remove(key@),
        toml_strings(*final(doc)) == toml_strings(*old(doc)).insert(key@, value@),
        toml_lines(*final(doc)).remove(key@) == toml_lines(*old(doc)).remove(key@),
{
    doc[key] = toml_edit::value(value);
}

/// Calls `Table::remove` on the root table. Trusted, as `Table::remove` shows
/// (`IndexMap::shift_remove`), to take `key` out and leave every other item.
#[verifier::external_body]
fn remove_key(doc: &mut toml_edit::DocumentMut, key: &str)
    ensures
        toml_items(*final(doc)) == toml_items(*old(doc)).remove(key@),
        toml_strings(*final(doc)) == toml_strings(*old(doc)).remove(key@),
        toml_lines(*final(doc)) == toml_lines(*old(doc)).remove(key@),
{
    doc.remove(key);
}

/// Calls the `Display` of `DocumentMut`. Trusted, as the round trip that
/// `toml_edit` keeps (its `Display` writes each item's values as they are held,
/// and `from_str` reads them back) shows, to give a text that reads back with
/// the same items and strings in its root table, and in which each line of the
/// root table (see [`toml_lines`]) stands as it is written. Where the tables
/// and the lines go in the text is left unsaid.
#[verifier::external_body]
fn render_toml(doc: &toml_edit::DocumentMut) -> (r: String)
    ensures
        toml_reading(r@) == Some((toml_items(*doc), toml_strings(*doc))),
        forall|k: Seq<char>| #[trigger] toml_lines(*doc).contains_key(k) ==> occurs_in(toml_lines(*doc)[k], r@),
{
    doc.to_string()
}

/// Why the configuration could not be changed.
#[derive(Debug)]
pub enum ConfigError {
    /// `config.toml` is not TOML (with `toml_edit`'s message).
    Parse(String),
}

impl ConfigError {
    /// The message reported for the error.
    pub fn message(&self) -> (r: String)
        ensures
            r@ == match self {
                ConfigError::Parse(m) => m@,
            },
    {
        match self {
            ConfigError::Parse(m) => m.clone(),
        }
    }
}

/// The key that points the host at the model catalog.
pub open spec fn catalog_key() -> Seq<char> {
    "model_catalog_json"@
}

/// The context window override that the overlay replaces.
pub open spec fn window_key() -> Seq<char> {
    "model_context_window"@
}

/// The compaction threshold override that the overlay replaces.
pub open spec fn compact_key() -> Seq<char> {
    "model_auto_compact_token_limit"@
}

/// A parsed `config.toml`.
pub struct ConfigDocument {
    doc: toml_edit::DocumentMut,
}

impl ConfigDocument {
    /// The items of the root table, each key with the data it holds.
    pub closed spec fn items(&self) -> Map<Seq<char>, Seq<char>> {
        toml_items(self.doc)
    }

    /// The lines of the root table's values, as written with their spaces and
    /// comments (see [`toml_lines`]).
    pub closed spec fn lines(&self) -> Map<Seq<char>, Seq<char>> {
        toml_lines(self.doc)
    }

    /// The keys of the root table.
    pub open spec fn keys(&self) -> Set<Seq<char>> {
        self.items().dom()
    }

    /// The string values of the root table.
    pub closed spec fn strings(&self) -> Map<Seq<char>, Seq<char>> {
        toml_strings(self.doc)
    }

    /// Parses `text` (an unreadable file reads as empty text): succeeds exactly
    /// when `text` is TOML, with the root table that `text` holds and its lines
    /// as they stand in `text`.
    pub fn parse(text: &str) -> (r: Result<ConfigDocument, ConfigError>)
        ensures
            match r {
                Ok(d) => toml_reading(text@) == Some((d.items(), d.strings())) && forall|k: Seq<char>|
                    #[trigger] d.lines().contains_key(k) ==> occurs_in(d.lines()[k], text@),
                Err(_) => toml_reading(text@) is None,
            },
    {
        match parse_toml(text) {
            Ok(doc) => Ok(ConfigDocument { doc }),
            Err(e) => Err(ConfigError::Parse(toml_error_text(&e))),
        }
    }

    /// The document as TOML text, which reads back with the same root table and
    /// holds each of its lines as written.
    pub fn render(&self) -> (r: String)
        ensures
            toml_reading(r@) == Some((self.items(), self.strings())),
            forall|k: Seq<char>| #[trigger] self.lines().contains_key(k) ==> occurs_in(self.lines()[k], r@),
    {
        render_toml(&self.doc)
    }
}

/// Points the configuration at the catalog overlay `catalog_path` and removes
/// the context window and compaction overrides; every other item is kept as it
/// was, and every other value's line as it was written.
pub fn install(doc: &mut ConfigDocument, catalog_path: &str)
    ensures
        final(doc).items().contains_key(catalog_key()),
        final(doc).items() == old(doc).items().remove(window_key()).remove(compact_key()).insert(
            catalog_key(),
            final(doc).items()[catalog_key()],
        ),
        final(doc).strings() == old(doc).strings().insert(catalog_key(), catalog_path@).remove(
            window_key(),
        ).remove(compact_key()),
        final(doc).lines().remove(catalog_key()) == old(doc).lines().remove(window_key()).remove(
            compact_key(),
        ).remove(catalog_key()),
{
    proof {
        lemma_config_keys_differ();
    }
    let ghost before = doc.items();
    let ghost lines_before = doc.lines();
    set_string(&mut doc.doc, "model_catalog_json", catalog_path);
    let ghost mid = doc.items();
    let ghost lines_mid = doc.lines();
    remove_key(&mut doc.doc, "model_context_window");
    remove_key(&mut doc.doc, "model_auto_compact_token_limit");
    proof {
        let after = doc.items();
        assert(mid.remove(catalog_key()) =~= before.remove(catalog_key()));
        assert forall|k: Seq<char>| k != catalog_key() implies (after.contains_key(k) <==> before.remove(
            window_key(),
        ).remove(compact_key()).contains_key(k)) && (after.contains_key(k) ==> after[k] == before[k]) by {
            assert(mid.remove(catalog_key()).contains_key(k) == before.remove(catalog_key()).contains_key(k));
            if mid.contains_key(k) {
                assert(mid.remove(catalog_key())[k] == mid[k]);
                assert(before.remove(catalog_key())[k] == before[k]);
            }
        }
        assert(after =~= before.remove(window_key()).remove(compact_key()).insert(
            catalog_key(),
            after[catalog_key()],
        ));
        let lines_after = doc.lines();
        assert(lines_after == lines_mid.remove(window_key()).remove(compact_key()));
        let lhs = lines_after.remove(catalog_key());
        let rhs = lines_before.remove(window_key()).remove(compact_key()).remove(catalog_key());
        assert forall|k: Seq<char>| #[trigger] lhs.contains_key(k) == rhs.contains_key(k) && (
        lhs.contains_key(k) ==> lhs[k] == rhs[k]) by {
            if k != catalog_key() && k != window_key() && k != compact_key() {
                assert(lines_mid.remove(catalog_key()).contains_key(k) == lines_before.remove(
                    catalog_key(),
                ).contains_key(k));
                assert(lines_mid.contains_key(k) == lines_before.contains_key(k));
                if lines_mid.contains_key(k) {
                    assert(lines_mid.remove(catalog_key())[k] == lines_mid[k]);
                    assert(lines_before.remove(catalog_key())[k] == lines_before[k]);
                    assert(lines_after.contains_key(k) && lines_after[k] == lines_mid[k]);
                }
            }
        }
        assert(lhs =~= lines_before.remove(window_key()).remove(
            compact_key(),
        ).remove(catalog_key()));
    }
}

/// The three keys that installing touches are distinct.
proof fn lemma_config_keys_differ()
    ensures
        catalog_key() != window_key(),
        catalog_key() != compact_key(),
        window_key() != compact_key(),
{
    reveal_strlit("model_catalog_json");
    reveal_strlit("model_context_window");
    reveal_strlit("model_auto_compact_token_limit");
    assert(catalog_key()[7] != window_key()[7]);
    assert(catalog_key().len() != compact_key().len());
    assert(window_key().len() != compact_key().len());
}

/// After installing, the configuration names the overlay and holds neither
/// override, and every other item of the root table is kept as it was.
pub proof fn install_points_at_overlay(
    before_items: Map<Seq<char>, Seq<char>>,
    before_strings: Map<Seq<char>, Seq<char>>,
    path: Seq<char>,
    path_item: Seq<char>,
)
    ensures
        ({
            let items = before_items.remove(window_key()).remove(compact_key()).insert(catalog_key(), path_item);
            let strings = before_strings.insert(catalog_key(), path).remove(window_key()).remove(compact_key());
            &&& strings.contains_key(catalog_key()) && strings[catalog_key()] == path
            &&& items.contains_key(catalog_key())
            &&& !items.contains_key(window_key()) && !items.contains_key(compact_key())
            &&& forall|k: Seq<char>|
                k != catalog_key() && k != window_key() && k != compact_key() ==> (
                #[trigger] items.contains_key(k) <==> before_items.contains_key(k)) && (
                items.contains_key(k) ==> items[k] == before_items[k])
        }),
{
    lemma_config_keys_differ();
}

/// Installing keeps the layout of every other value of the root table: each
/// line that `config.toml` held for a key other than the three that installing
/// touches, comments and spaces included, stands in the rendered text as it
/// was.
pub proof fn install_keeps_other_lines(
    before: Map<Seq<char>, Seq<char>>,
    after: Map<Seq<char>, Seq<char>>,
    rendered: Seq<char>,
)
    requires
        after.remove(catalog_key()) == before.remove(window_key()).remove(compact_key()).remove(
            catalog_key(),
        ),
        forall|k: Seq<char>| #[trigger] after.contains_key(k) ==> occurs_in(after[k], rendered),
    ensures
        forall|k: Seq<char>|
            #[trigger] before.contains_key(k) && k != catalog_key() && k != window_key() && k
                != compact_key() ==> occurs_in(before[k], rendered),
{
    assert forall|k: Seq<char>|
        #[trigger] before.contains_key(k) && k != catalog_key() && k != window_key() && k
            != compact_key() implies occurs_in(before[k], rendered) by {
        let kept = before.remove(window_key()).remove(compact_key()).remove(catalog_key());
        assert(kept.contains_key(k) && kept[k] == before[k]);
        assert(after.remove(catalog_key()).contains_key(k));
        assert(after.contains_key(k) && after[k] == before[k]);
    }
}

/// Restoring the stock configuration has nothing to undo: the plugin only ever
/// edits the keys above, and restoring succeeds.
pub fn restore() -> (r: Result<(), ConfigError>)
    ensures
        r is Ok,
{
    Ok(())
}

} // verus!
