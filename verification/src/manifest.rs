//! Reading the manifest of a package.

use vstd::prelude::*;

verus! {

/// What a JSON document holds under a key at its top level.
#[derive(Debug, Clone, PartialEq, Eq)]
pub enum ManifestEntry {
    /// The bytes are not a JSON document.
    Unparsable,
    /// The document is valid JSON, but its top level is not an object.
    NotAnObject,
    /// The object has no entry under the key.
    Missing,
    /// The object has an entry under the key, and it is not a string.
    NotText,
    /// The object has a string under the key.
    Text(String),
}

/// The mathematical content of a [`ManifestEntry`].
pub enum ManifestEntryView {
    Unparsable,
    NotAnObject,
    Missing,
    NotText,
    Text(Seq<char>),
}

impl View for ManifestEntry {
    type V = ManifestEntryView;

    open spec fn view(&self) -> ManifestEntryView {
        match self {
            ManifestEntry::Unparsable => ManifestEntryView::Unparsable,
            ManifestEntry::NotAnObject => ManifestEntryView::NotAnObject,
            ManifestEntry::Missing => ManifestEntryView::Missing,
            ManifestEntry::NotText => ManifestEntryView::NotText,
            ManifestEntry::Text(text) => ManifestEntryView::Text(text@),
        }
    }
}

/// Why a manifest cannot be used.
#[derive(Debug, Clone, Copy, PartialEq, Eq, Structural)]
pub enum ManifestFault {
    /// The bytes are not a JSON document.
    Unparsable,
    /// The document is valid JSON, but its top level is not an object.
    NotAnObject,
}

/// What `serde_json` finds under a key at the top level of a JSON document.
pub uninterp spec fn json_entry(document: Seq<u8>, key: Seq<char>) -> ManifestEntryView;

/// Looks up what a JSON document holds under `key` at its top level.
///
/// Trusted: the body parses the bytes with `serde_json::from_slice` into a
/// `serde_json::Value` and, where that is an object, looks the key up with
/// `serde_json::Map::get`; each outcome of the two is handed out as a variant of its own.
/// The contract claims only that the outcome is a function of the bytes and the key, and
/// calls that function [`json_entry`].
#[verifier::external_body]
pub(crate) fn lookup(document: &Vec<u8>, key: &str) -> (entry: ManifestEntry)
    ensures
        entry@ == json_entry(document@, key@),
{
    match serde_json::from_slice::<serde_json::Value>(document.as_slice()) {
        Err(_) => ManifestEntry::Unparsable,
        Ok(serde_json::Value::Object(entries)) => match entries.get(key) {
            None => ManifestEntry::Missing,
            Some(serde_json::Value::String(text)) => ManifestEntry::Text(text.clone()),
            Some(_) => ManifestEntry::NotText,
        },
        Ok(_) => ManifestEntry::NotAnObject,
    }
}

/// The key under which a manifest names the package's main file.
pub open spec fn main_key() -> Seq<char> {
    "module"@
}

/// Reads what a manifest holds under the key that names the package's main file.
pub fn main_entry(manifest: &Vec<u8>) -> (entry: ManifestEntry)
    ensures
        entry@ == json_entry(manifest@, main_key()),
{
    lookup(manifest, "module")
}

/// The main file that a manifest declares, given what it holds under the main key. A
/// manifest that is no JSON object is faulty. A manifest without an entry under the key,
/// or with an entry that is not a string, declares no main file.
pub open spec fn declared_main_of(entry: ManifestEntryView) -> Result<
    Option<Seq<char>>,
    ManifestFault,
> {
    match entry {
        ManifestEntryView::Unparsable => Err(ManifestFault::Unparsable),
        ManifestEntryView::NotAnObject => Err(ManifestFault::NotAnObject),
        ManifestEntryView::Missing => Ok(None),
        ManifestEntryView::NotText => Ok(None),
        ManifestEntryView::Text(main) => Ok(Some(main)),
    }
}

/// The contents of a declared main file.
pub open spec fn declared_view(declared: Result<Option<String>, ManifestFault>) -> Result<
    Option<Seq<char>>,
    ManifestFault,
> {
    match declared {
        Ok(Some(text)) => Ok(Some(text@)),
        Ok(None) => Ok(None),
        Err(fault) => Err(fault),
    }
}

/// Decides which main file a manifest declares, given what it holds under the main key.
pub fn declared_main(entry: &ManifestEntry) -> (declared: Result<Option<String>, ManifestFault>)
    ensures
        declared_view(declared) == declared_main_of(entry@),
{
    match entry {
        ManifestEntry::Unparsable => Err(ManifestFault::Unparsable),
        ManifestEntry::NotAnObject => Err(ManifestFault::NotAnObject),
        ManifestEntry::Missing => Ok(None),
        ManifestEntry::NotText => Ok(None),
        ManifestEntry::Text(main) => Ok(Some(main.clone())),
    }
}

} // verus!
