//! The configuration document as it stands in the file, before anything is
//! filled in: for each provider its section, and for each section its three
//! keys, each with what was found under it.

use crate::toml_tree::{table_entries, table_get, TomlNode};
use vstd::prelude::*;

verus! {

/// What a section of the document holds under one key.
#[derive(Debug, Clone, PartialEq, Eq)]
pub enum Entry {
    /// The key is not there.
    Absent,
    /// A string.
    Text(String),
    /// An integer.
    Integer(i64),
    /// A value of any other kind.
    Other,
}

/// An `Entry` as mathematical values.
pub enum EntryView {
    Absent,
    Text(Seq<char>),
    Integer(int),
    Other,
}

impl View for Entry {
    type V = EntryView;

    open spec fn view(&self) -> EntryView {
        match self {
            Entry::Absent => EntryView::Absent,
            Entry::Text(text) => EntryView::Text(text@),
            Entry::Integer(number) => EntryView::Integer(*number as int),
            Entry::Other => EntryView::Other,
        }
    }
}

/// The three keys of a provider's section.
#[derive(Debug, Clone, PartialEq, Eq)]
pub struct Fields {
    pub api_url: Entry,
    pub default_model: Entry,
    pub timeout_secs: Entry,
}

/// `Fields` as mathematical values.
pub struct FieldsView {
    pub api_url: EntryView,
    pub default_model: EntryView,
    pub timeout_secs: EntryView,
}

impl View for Fields {
    type V = FieldsView;

    open spec fn view(&self) -> FieldsView {
        FieldsView {
            api_url: self.api_url@,
            default_model: self.default_model@,
            timeout_secs: self.timeout_secs@,
        }
    }
}

/// What the document holds under a provider's name.
#[derive(Debug, Clone, PartialEq, Eq)]
pub enum Section {
    /// The document has no such section.
    Absent,
    /// The section is a table; these are its three keys.
    Present(Fields),
    /// Something other than a table stands under the provider's name.
    Malformed,
}

/// A `Section` as mathematical values.
pub enum SectionView {
    Absent,
    Present(FieldsView),
    Malformed,
}

impl View for Section {
    type V = SectionView;

    open spec fn view(&self) -> SectionView {
        match self {
            Section::Absent => SectionView::Absent,
            Section::Present(fields) => SectionView::Present(fields@),
            Section::Malformed => SectionView::Malformed,
        }
    }
}

/// What the configuration document says, before anything is filled in.
#[derive(Debug, Clone, PartialEq, Eq)]
pub struct Document {
    pub openai: Section,
    pub deepseek: Section,
    pub gemini: Section,
}

/// A `Document` as mathematical values.
pub struct DocumentView {
    pub openai: SectionView,
    pub deepseek: SectionView,
    pub gemini: SectionView,
}

impl View for Document {
    type V = DocumentView;

    open spec fn view(&self) -> DocumentView {
        DocumentView { openai: self.openai@, deepseek: self.deepseek@, gemini: self.gemini@ }
    }
}

/// Whether a text field's entry is one the merge accepts: absent, or a string.
pub open spec fn text_entry_fits(entry: EntryView) -> bool {
    entry is Absent || entry is Text
}

/// Whether the entry of a field of seconds is one the merge accepts: absent,
/// or an integer that is not negative.
pub open spec fn seconds_entry_fits(entry: EntryView) -> bool {
    entry is Absent || (entry matches EntryView::Integer(number) && 0 <= number <= u64::MAX)
}

/// Whether a section is one the merge accepts: absent, or a table whose three
/// fields all fit.
pub open spec fn section_fits(section: SectionView) -> bool {
    match section {
        SectionView::Absent => true,
        SectionView::Malformed => false,
        SectionView::Present(fields) => text_entry_fits(fields.api_url) && text_entry_fits(
            fields.default_model,
        ) && seconds_entry_fits(fields.timeout_secs),
    }
}

/// Whether every section of a document fits.
pub open spec fn well_typed(document: DocumentView) -> bool {
    section_fits(document.openai) && section_fits(document.deepseek) && section_fits(
        document.gemini,
    )
}

/// The value under a key of a table, if the table has the key.
pub open spec fn lookup(entries: Map<Seq<char>, TomlNode>, key: Seq<char>) -> Option<TomlNode> {
    if entries.contains_key(key) {
        Some(entries[key])
    } else {
        None
    }
}

/// What a field's entry is, given what the table has under its key.
pub open spec fn entry_of(found: Option<TomlNode>) -> EntryView {
    match found {
        None => EntryView::Absent,
        Some(TomlNode::Text(text)) => EntryView::Text(text),
        Some(TomlNode::Integer(number)) => EntryView::Integer(number),
        Some(_) => EntryView::Other,
    }
}

/// The three fields of a section's table.
pub open spec fn fields_of(entries: Map<Seq<char>, TomlNode>) -> FieldsView {
    FieldsView {
        api_url: entry_of(lookup(entries, "api_url"@)),
        default_model: entry_of(lookup(entries, "default_model"@)),
        timeout_secs: entry_of(lookup(entries, "timeout_secs"@)),
    }
}

/// What a provider's section is, given what the root table has under its name.
pub open spec fn section_of(found: Option<TomlNode>) -> SectionView {
    match found {
        None => SectionView::Absent,
        Some(TomlNode::Table(entries)) => SectionView::Present(fields_of(entries)),
        Some(_) => SectionView::Malformed,
    }
}

/// What a root table says as a configuration document. Keys that the
/// configuration does not know are passed over.
pub open spec fn document_of(entries: Map<Seq<char>, TomlNode>) -> DocumentView {
    DocumentView {
        openai: section_of(lookup(entries, "openai"@)),
        deepseek: section_of(lookup(entries, "deepseek"@)),
        gemini: section_of(lookup(entries, "gemini"@)),
    }
}

impl Entry {
    /// Reads what a table holds under a key.
    pub fn read(table: &toml::Table, key: &str) -> (entry: Entry)
        ensures
            entry@ == entry_of(lookup(table_entries(*table), key@)),
    {
        match table_get(table, key) {
            None => Entry::Absent,
            Some(value) => match value.as_str() {
                Some(text) => Entry::Text(text.to_owned()),
                None => match value.as_integer() {
                    Some(number) => Entry::Integer(number),
                    None => Entry::Other,
                },
            },
        }
    }
}

impl Section {
    /// Reads what the root table holds under a provider's name.
    pub fn read(root: &toml::Table, name: &str) -> (section: Section)
        ensures
            section@ == section_of(lookup(table_entries(*root), name@)),
    {
        match table_get(root, name) {
            None => Section::Absent,
            Some(value) => match value.as_table() {
                None => Section::Malformed,
                Some(table) => Section::Present(
                    Fields {
                        api_url: Entry::read(table, "api_url"),
                        default_model: Entry::read(table, "default_model"),
                        timeout_secs: Entry::read(table, "timeout_secs"),
                    },
                ),
            },
        }
    }
}

impl Document {
    /// Reads a root table as a configuration document.
    pub fn read(root: &toml::Table) -> (document: Document)
        ensures
            document@ == document_of(table_entries(*root)),
    {
        Document {
            openai: Section::read(root, "openai"),
            deepseek: Section::read(root, "deepseek"),
            gemini: Section::read(root, "gemini"),
        }
    }
}

} // verus!
