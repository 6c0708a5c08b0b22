//! The embedded emoji catalog.
//!
//! The catalog is a fixed table bundled into the binary: an ordered list of
//! records, each holding the emoji glyph, a background colour name, and a
//! one-line description. `load` builds the list; its contract pins every
//! entry to `catalog_spec`, so two loads always agree.

use vstd::prelude::*;

verus! {

/// One record of the emoji catalog.
pub struct EmojiEntry {
    /// The emoji character itself.
    pub glyph: String,
    /// A colour name; part of the record shape, unused by the current logic.
    pub background: String,
    /// A one-line description of when to use the emoji.
    pub description: String,
}

/// The mathematical model of an `EmojiEntry`: its three fields as
/// character sequences.
pub struct EmojiEntryModel {
    pub glyph: Seq<char>,
    pub background: Seq<char>,
    pub description: Seq<char>,
}

impl View for EmojiEntry {
    type V = EmojiEntryModel;

    open spec fn view(&self) -> EmojiEntryModel {
        EmojiEntryModel {
            glyph: self.glyph@,
            background: self.background@,
            description: self.description@,
        }
    }
}

/// The catalog's contents, in their fixed order.
pub open spec fn catalog_spec() -> Seq<EmojiEntryModel> {
    seq![
        EmojiEntryModel { glyph: "🎨"@, background: "blue"@, description: "Improve structure / format of the code"@ },
        EmojiEntryModel { glyph: "⚡"@, background: "yellow"@, description: "Improve performance"@ },
        EmojiEntryModel { glyph: "🔥"@, background: "orange"@, description: "Remove code or files"@ },
        EmojiEntryModel { glyph: "🐛"@, background: "red"@, description: "Fix a bug"@ },
        EmojiEntryModel { glyph: "✨"@, background: "cyan"@, description: "Introduce new features"@ },
        EmojiEntryModel { glyph: "📝"@, background: "white"@, description: "Add or update documentation"@ },
        EmojiEntryModel { glyph: "🚀"@, background: "purple"@, description: "Deploy stuff"@ },
        EmojiEntryModel { glyph: "💄"@, background: "pink"@, description: "Add or update the UI and style files"@ },
        EmojiEntryModel { glyph: "🎉"@, background: "green"@, description: "Begin a project"@ },
        EmojiEntryModel { glyph: "✅"@, background: "green"@, description: "Add, update, or pass tests"@ },
        EmojiEntryModel { glyph: "🔒"@, background: "gray"@, description: "Fix security issues"@ },
        EmojiEntryModel { glyph: "🚧"@, background: "yellow"@, description: "Work in progress"@ },
    ]
}

/// Every catalog record is well formed: the catalog is non-empty and each
/// entry's glyph and description are non-empty strings.
pub proof fn lemma_catalog_well_formed()
    ensures
        catalog_spec().len() > 0,
        forall|i: int|
            0 <= i < catalog_spec().len() ==> (#[trigger] catalog_spec()[i]).glyph.len() > 0
                && catalog_spec()[i].description.len() > 0,
{
    reveal_strlit("🎨");
    reveal_strlit("⚡");
    reveal_strlit("🔥");
    reveal_strlit("🐛");
    reveal_strlit("✨");
    reveal_strlit("📝");
    reveal_strlit("🚀");
    reveal_strlit("💄");
    reveal_strlit("🎉");
    reveal_strlit("✅");
    reveal_strlit("🔒");
    reveal_strlit("🚧");
    reveal_strlit("Improve structure / format of the code");
    reveal_strlit("Improve performance");
    reveal_strlit("Remove code or files");
    reveal_strlit("Fix a bug");
    reveal_strlit("Introduce new features");
    reveal_strlit("Add or update documentation");
    reveal_strlit("Deploy stuff");
    reveal_strlit("Add or update the UI and style files");
    reveal_strlit("Begin a project");
    reveal_strlit("Add, update, or pass tests");
    reveal_strlit("Fix security issues");
    reveal_strlit("Work in progress");
}

/// Loading is idempotent: two catalogs built by `load` — that is, two
/// lists whose contents both match `catalog_spec`, which is all that
/// `load` ever returns — are value-equal entry by entry.
pub proof fn lemma_load_idempotent(a: Seq<EmojiEntry>, b: Seq<EmojiEntry>)
    requires
        a.len() == catalog_spec().len(),
        forall|i: int| 0 <= i < a.len() ==> #[trigger] a[i]@ == catalog_spec()[i],
        b.len() == catalog_spec().len(),
        forall|i: int| 0 <= i < b.len() ==> #[trigger] b[i]@ == catalog_spec()[i],
    ensures
        a.len() == b.len(),
        forall|i: int| 0 <= i < a.len() ==> #[trigger] a[i]@ == b[i]@,
{
}

/// Builds one catalog record from its three fields.
fn entry(glyph: &str, background: &str, description: &str) -> (e: EmojiEntry)
    ensures
        e@.glyph == glyph@,
        e@.background == background@,
        e@.description == description@,
{
    EmojiEntry { glyph: glyph.to_owned(), background: background.to_owned(), description: description.to_owned() }
}

/// Builds the embedded catalog. Deterministic: the result's content is
/// exactly `catalog_spec`, whatever call site it is built from.
pub fn load() -> (r: Vec<EmojiEntry>)
    ensures
        r@.len() == catalog_spec().len(),
        forall|i: int| 0 <= i < r@.len() ==> #[trigger] r@[i]@ == catalog_spec()[i],
{
    let mut v: Vec<EmojiEntry> = Vec::new();
    v.push(entry("🎨", "blue", "Improve structure / format of the code"));
    v.push(entry("⚡", "yellow", "Improve performance"));
    v.push(entry("🔥", "orange", "Remove code or files"));
    v.push(entry("🐛", "red", "Fix a bug"));
    v.push(entry("✨", "cyan", "Introduce new features"));
    v.push(entry("📝", "white", "Add or update documentation"));
    v.push(entry("🚀", "purple", "Deploy stuff"));
    v.push(entry("💄", "pink", "Add or update the UI and style files"));
    v.push(entry("🎉", "green", "Begin a project"));
    v.push(entry("✅", "green", "Add, update, or pass tests"));
    v.push(entry("🔒", "gray", "Fix security issues"));
    v.push(entry("🚧", "yellow", "Work in progress"));
    v
}

/// The display label of one catalog record: the glyph, a separator, and
/// the description, as the selection list shows it.
pub fn entry_label(e: &EmojiEntry) -> (r: String)
    ensures
        r@ == e@.glyph + " - "@ + e@.description,
{
    let mut s = e.glyph.clone();
    s.append(" - ");
    s.append(e.description.as_str());
    s
}

} // verus!
