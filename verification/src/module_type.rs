//! The kind of a module, derived from the extension of its file.

use vstd::prelude::*;
use crate::paths::{components_view, dot, dot_dot, segments, split_segments};
use vstd::string::*;
use crate::text::chars_of;

verus! {

/// The kind of a loaded module.
#[derive(Debug, Clone, PartialEq, Eq)]
pub enum ModuleType {
    /// Script source.
    JavaScript,
    /// Structured data.
    Json,
    /// A binary module.
    Wasm,
    /// A kind that the embedder defines, by its name.
    Other(String),
}

/// The mathematical content of a [`ModuleType`].
pub enum ModuleTypeView {
    JavaScript,
    Json,
    Wasm,
    Other(Seq<char>),
}

impl View for ModuleType {
    type V = ModuleTypeView;

    open spec fn view(&self) -> ModuleTypeView {
        match self {
            ModuleType::JavaScript => ModuleTypeView::JavaScript,
            ModuleType::Json => ModuleTypeView::Json,
            ModuleType::Wasm => ModuleTypeView::Wasm,
            ModuleType::Other(name) => ModuleTypeView::Other(name@),
        }
    }
}

/// The kind that an import asked for.
#[derive(Debug, Clone, PartialEq, Eq)]
pub enum RequestedModuleType {
    /// The import named no kind.
    Unspecified,
    /// The import asked for structured data.
    Json,
    /// The import asked for a kind that the embedder defines.
    Other(String),
}

/// The mathematical content of a [`RequestedModuleType`].
pub enum RequestedModuleTypeView {
    Unspecified,
    Json,
    Other(Seq<char>),
}

impl View for RequestedModuleType {
    type V = RequestedModuleTypeView;

    open spec fn view(&self) -> RequestedModuleTypeView {
        match self {
            RequestedModuleType::Unspecified => RequestedModuleTypeView::Unspecified,
            RequestedModuleType::Json => RequestedModuleTypeView::Json,
            RequestedModuleType::Other(name) => RequestedModuleTypeView::Other(name@),
        }
    }
}

/// Why a module cannot be loaded as asked.
#[derive(Debug, Clone, PartialEq, Eq)]
pub enum LoadError {
    /// The module's URL names no file; holds the URL.
    NotFileUrl(String),
    /// The import asked for one kind and the file is of another.
    TypeMismatch,
}

/// The mathematical content of a [`LoadError`].
pub enum LoadErrorView {
    NotFileUrl(Seq<char>),
    TypeMismatch,
}

impl View for LoadError {
    type V = LoadErrorView;

    open spec fn view(&self) -> LoadErrorView {
        match self {
            LoadError::NotFileUrl(specifier) => LoadErrorView::NotFileUrl(specifier@),
            LoadError::TypeMismatch => LoadErrorView::TypeMismatch,
        }
    }
}

impl LoadErrorView {
    /// The text that describes the error. A URL that names no file is named in it.
    pub open spec fn message(self) -> Seq<char> {
        match self {
            LoadErrorView::NotFileUrl(specifier) => "Provided module specifier \""@ + specifier
                + "\" is not a file URL."@,
            LoadErrorView::TypeMismatch =>
                "The module is not of the type that the import asked for."@,
        }
    }
}

impl LoadError {
    /// Describes the error in words.
    pub fn message(&self) -> (text: String)
        ensures
            text@ == self@.message(),
    {
        match self {
            LoadError::NotFileUrl(specifier) => "Provided module specifier \"".to_owned().concat(
                specifier.as_str(),
            ).concat("\" is not a file URL."),
            LoadError::TypeMismatch =>
                "The module is not of the type that the import asked for.".to_owned(),
        }
    }
}

/// A module whose file could not be read.
#[derive(Debug, Clone, PartialEq, Eq)]
pub struct LoadFailedError {
    /// The location of the module.
    pub specifier: String,
    /// What the system said of the failed read.
    pub source: String,
}

impl LoadFailedError {
    /// The text that describes the error: it names the module.
    pub open spec fn message_text(&self) -> Seq<char> {
        "Failed to load "@ + self.specifier@
    }

    /// Describes the error in words.
    pub fn message(&self) -> (text: String)
        ensures
            text@ == self.message_text(),
    {
        "Failed to load ".to_owned().concat(self.specifier.as_str())
    }
}

/// The last of the first `n` segments that is neither empty nor `.`, if there is one.
pub open spec fn last_named_segment(segs: Seq<Seq<char>>, n: int) -> Option<Seq<char>>
    decreases n,
{
    if n <= 0 {
        None
    } else if segs[n - 1].len() == 0 || segs[n - 1] == dot() {
        last_named_segment(segs, n - 1)
    } else {
        Some(segs[n - 1])
    }
}

/// The file name of a location: its last segment that is neither empty nor `.`, unless
/// that segment is `..`.
pub open spec fn file_name_of(path: Seq<char>) -> Option<Seq<char>> {
    match last_named_segment(segments(path), segments(path).len() as int) {
        Some(name) => if name == dot_dot() {
            None
        } else {
            Some(name)
        },
        None => None,
    }
}

/// The index of the last `.` among the first `n` characters of `name`, or `-1`.
pub open spec fn last_dot(name: Seq<char>, n: int) -> int
    decreases n,
{
    if n <= 0 {
        -1
    } else if name[n - 1] == '.' {
        n - 1
    } else {
        last_dot(name, n - 1)
    }
}

/// The extension of a location: what follows the last `.` of its file name, where that
/// `.` is not the file name's first character.
pub open spec fn extension_of(path: Seq<char>) -> Option<Seq<char>> {
    match file_name_of(path) {
        Some(name) => {
            let at = last_dot(name, name.len() as int);
            if at <= 0 {
                None
            } else {
                Some(name.subrange(at + 1, name.len() as int))
            }
        },
        None => None,
    }
}

/// Whether an extension is `json`, in any mix of upper and lower case.
pub open spec fn is_json_extension(ext: Seq<char>) -> bool {
    &&& ext.len() == 4
    &&& (ext[0] == 'j' || ext[0] == 'J')
    &&& (ext[1] == 's' || ext[1] == 'S')
    &&& (ext[2] == 'o' || ext[2] == 'O')
    &&& (ext[3] == 'n' || ext[3] == 'N')
}

/// Whether an extension is `wasm`, in any mix of upper and lower case.
pub open spec fn is_wasm_extension(ext: Seq<char>) -> bool {
    &&& ext.len() == 4
    &&& (ext[0] == 'w' || ext[0] == 'W')
    &&& (ext[1] == 'a' || ext[1] == 'A')
    &&& (ext[2] == 's' || ext[2] == 'S')
    &&& (ext[3] == 'm' || ext[3] == 'M')
}

/// The kind of the module at `path`: data for `.json`, binary for `.wasm`, and for
/// everything else the embedder's kind where the import asked for one, else script.
pub open spec fn module_type_of(path: Seq<char>, requested: RequestedModuleTypeView)
    -> ModuleTypeView {
    match extension_of(path) {
        Some(ext) => if is_json_extension(ext) {
            ModuleTypeView::Json
        } else if is_wasm_extension(ext) {
            ModuleTypeView::Wasm
        } else {
            match requested {
                RequestedModuleTypeView::Other(name) => ModuleTypeView::Other(name),
                _ => ModuleTypeView::JavaScript,
            }
        },
        None => ModuleTypeView::JavaScript,
    }
}

/// Whether a file of kind `derived` may be loaded for an import that asked for
/// `requested`: an import that names no kind accepts every file, any other import only a
/// file of the kind it names.
pub open spec fn request_agrees(derived: ModuleTypeView, requested: RequestedModuleTypeView)
    -> bool {
    match requested {
        RequestedModuleTypeView::Unspecified => true,
        RequestedModuleTypeView::Json => derived == ModuleTypeView::Json,
        RequestedModuleTypeView::Other(name) => derived == ModuleTypeView::Other(name),
    }
}

/// The extension of a location, if it has one.
pub fn extension(path: &Vec<char>) -> (ext: Option<Vec<char>>)
    ensures
        match ext {
            Some(e) => extension_of(path@) == Some(e@),
            None => extension_of(path@) is None,
        },
{
    let segs = split_segments(path);
    let mut n: usize = segs.len();
    while n > 0 && (segs[n - 1].len() == 0 || (segs[n - 1].len() == 1 && segs[n - 1][0] == '.'))
        invariant
            n <= segs.len(),
            components_view(segs@) == segments(path@),
            last_named_segment(segments(path@), segs.len() as int) == last_named_segment(
                segments(path@),
                n as int,
            ),
        decreases n,
    {
        assert(components_view(segs@)[n - 1] == segs@[n - 1]@);
        assert(segs@[n - 1]@.len() == 1 && segs@[n - 1]@[0] == '.' ==> segs@[n - 1]@ =~= dot());
        n -= 1;
    }
    if n == 0 {
        return None;
    }
    let name = &segs[n - 1];
    assert(components_view(segs@)[n - 1] == name@);
    assert(name@ == dot() ==> name@.len() == 1 && name@[0] == '.');
    assert(last_named_segment(segments(path@), n as int) == Some(name@));
    if name.len() == 2 && name[0] == '.' && name[1] == '.' {
        assert(name@ =~= dot_dot());
        return None;
    }
    assert(name@ == dot_dot() ==> name@.len() == 2 && name@[0] == '.' && name@[1] == '.');
    let mut at: usize = name.len();
    while at > 0 && name[at - 1] != '.'
        invariant
            at <= name.len(),
            last_dot(name@, name.len() as int) == last_dot(name@, at as int),
        decreases at,
    {
        at -= 1;
    }
    if at <= 1 {
        return None;
    }
    let mut ext: Vec<char> = Vec::new();
    let mut i: usize = at;
    while i < name.len()
        invariant
            at <= i <= name.len(),
            ext@ == name@.subrange(at as int, i as int),
        decreases name.len() - i,
    {
        ext.push(name[i]);
        i += 1;
        assert(ext@ =~= name@.subrange(at as int, i as int));
    }
    Some(ext)
}

/// Whether an extension is `json`, in any mix of upper and lower case.
fn json_extension(ext: &Vec<char>) -> (yes: bool)
    ensures
        yes == is_json_extension(ext@),
{
    ext.len() == 4 && (ext[0] == 'j' || ext[0] == 'J') && (ext[1] == 's' || ext[1] == 'S') && (
    ext[2] == 'o' || ext[2] == 'O') && (ext[3] == 'n' || ext[3] == 'N')
}

/// Whether an extension is `wasm`, in any mix of upper and lower case.
fn wasm_extension(ext: &Vec<char>) -> (yes: bool)
    ensures
        yes == is_wasm_extension(ext@),
{
    ext.len() == 4 && (ext[0] == 'w' || ext[0] == 'W') && (ext[1] == 'a' || ext[1] == 'A') && (
    ext[2] == 's' || ext[2] == 'S') && (ext[3] == 'm' || ext[3] == 'M')
}

/// Derives the kind of the module at `path` from the extension of its file. Only where
/// the extension decides nothing does the kind that the import asked for count.
pub fn determine_module_type(path: &str, requested: &RequestedModuleType) -> (kind: ModuleType)
    ensures
        kind@ == module_type_of(path@, requested@),
{
    let chars = chars_of(path);
    match extension(&chars) {
        Some(ext) => {
            if json_extension(&ext) {
                ModuleType::Json
            } else if wasm_extension(&ext) {
                ModuleType::Wasm
            } else {
                match requested {
                    RequestedModuleType::Other(name) => ModuleType::Other(name.clone()),
                    _ => ModuleType::JavaScript,
                }
            }
        },
        None => ModuleType::JavaScript,
    }
}

/// Whether a file of kind `derived` may be loaded for an import that asked for
/// `requested`.
fn agrees(derived: &ModuleType, requested: &RequestedModuleType) -> (yes: bool)
    ensures
        yes == request_agrees(derived@, requested@),
{
    match requested {
        RequestedModuleType::Unspecified => true,
        RequestedModuleType::Json => match derived {
            ModuleType::Json => true,
            _ => false,
        },
        RequestedModuleType::Other(name) => match derived {
            ModuleType::Other(found) => {
                let same = *found == *name;
                same
            },
            _ => false,
        },
    }
}

/// Decides as what kind of module the file at `path` is loaded. An import that asked for
/// a kind is refused where the file is of another kind; otherwise the file's kind is
/// returned.
pub fn checked_module_type(path: &str, requested: &RequestedModuleType) -> (outcome: Result<
    ModuleType,
    LoadError,
>)
    ensures
        match outcome {
            Ok(kind) => kind@ == module_type_of(path@, requested@) && request_agrees(
                kind@,
                requested@,
            ),
            Err(e) => e@ == LoadErrorView::TypeMismatch && !request_agrees(
                module_type_of(path@, requested@),
                requested@,
            ),
        },
{
    let kind = determine_module_type(path, requested);
    if agrees(&kind, requested) {
        Ok(kind)
    } else {
        Err(LoadError::TypeMismatch)
    }
}

} // verus!
