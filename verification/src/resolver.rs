//! Resolution of import specifiers to the locations of modules.
//!
//! A file-style specifier is joined onto the referrer's URL; the join is the `url`
//! crate's. Every other specifier names a package, which is looked for in the package
//! directories of the referrer's directory and of its ancestors, nearest first. What is on
//! disk is handed in as a [`PackageTree`]: this module reads no file itself.

use vstd::prelude::*;
use vstd::string::*;
use crate::location::{
    file_url_of, file_url_path, file_url_path_of, path_file_url, url_join, url_join_of, UrlJoin,
    UrlJoinView, UrlPath, UrlPathView,
};
use crate::manifest::{
    declared_main, declared_main_of, json_entry, main_entry, main_key, ManifestEntry,
    ManifestEntryView,
};
use crate::module_type::{
    checked_module_type, module_type_of, request_agrees, LoadError, LoadErrorView, ModuleType,
    ModuleTypeView, RequestedModuleType, RequestedModuleTypeView,
};
use crate::paths::{
    all_names, components, components_of, components_view, copy_chars, dot, dot_dot, is_name,
    law_normal_form_is_stable, lemma_components_of_rendered, parent_of, render, rendered,
    same_chars, starts_with_chars, walk, walk_from,
};
use crate::text::{chars_of, string_of};

verus! {

/// Why a specifier cannot be resolved.
#[derive(Debug, Clone, PartialEq, Eq)]
pub enum ResolutionError {
    /// No package directory for the specifier exists at any level; holds the specifier.
    NotFound(String),
    /// The package directory holds no manifest; holds the manifest's location.
    ManifestMissing(String),
    /// The manifest is not a structured document; holds the manifest's location.
    ManifestMalformed(String),
    /// The package's main file does not exist; holds the main file's location.
    MainFileMissing(String),
    /// The specifier cannot be joined onto the referrer, or what it names is no file;
    /// holds the specifier.
    InvalidSpecifier(String),
    /// The referrer is not a URL.
    InvalidReferrer,
    /// The referrer is a URL that names no file.
    ReferrerNotFile,
    /// The resolved location cannot be written as a URL.
    LocationNotUrl,
}

/// The mathematical content of a [`ResolutionError`].
pub enum ResolutionErrorView {
    NotFound(Seq<char>),
    ManifestMissing(Seq<char>),
    ManifestMalformed(Seq<char>),
    MainFileMissing(Seq<char>),
    InvalidSpecifier(Seq<char>),
    InvalidReferrer,
    ReferrerNotFile,
    LocationNotUrl,
}

impl View for ResolutionError {
    type V = ResolutionErrorView;

    open spec fn view(&self) -> ResolutionErrorView {
        match self {
            ResolutionError::NotFound(s) => ResolutionErrorView::NotFound(s@),
            ResolutionError::ManifestMissing(s) => ResolutionErrorView::ManifestMissing(s@),
            ResolutionError::ManifestMalformed(s) => ResolutionErrorView::ManifestMalformed(s@),
            ResolutionError::MainFileMissing(s) => ResolutionErrorView::MainFileMissing(s@),
            ResolutionError::InvalidSpecifier(s) => ResolutionErrorView::InvalidSpecifier(s@),
            ResolutionError::InvalidReferrer => ResolutionErrorView::InvalidReferrer,
            ResolutionError::ReferrerNotFile => ResolutionErrorView::ReferrerNotFile,
            ResolutionError::LocationNotUrl => ResolutionErrorView::LocationNotUrl,
        }
    }
}

impl ResolutionErrorView {
    /// The text that describes the error: what went wrong, then the specifier or the
    /// location that it went wrong for.
    pub open spec fn message(self) -> Seq<char> {
        match self {
            ResolutionErrorView::NotFound(s) => "Cannot find package: "@ + s,
            ResolutionErrorView::ManifestMissing(s) => "Cannot find manifest: "@ + s,
            ResolutionErrorView::ManifestMalformed(s) => "Cannot parse manifest: "@ + s,
            ResolutionErrorView::MainFileMissing(s) => "Cannot find main file: "@ + s,
            ResolutionErrorView::InvalidSpecifier(s) => "Invalid specifier: "@ + s,
            ResolutionErrorView::InvalidReferrer => "Invalid referrer URL"@,
            ResolutionErrorView::ReferrerNotFile => "Referrer is not a file URL"@,
            ResolutionErrorView::LocationNotUrl => "Failed to convert file path to URL"@,
        }
    }
}

impl ResolutionError {
    /// Describes the error in words.
    pub fn message(&self) -> (text: String)
        ensures
            text@ == self@.message(),
    {
        match self {
            ResolutionError::NotFound(s) => String::from_str("Cannot find package: ").concat(
                s.as_str(),
            ),
            ResolutionError::ManifestMissing(s) => String::from_str(
                "Cannot find manifest: ",
            ).concat(s.as_str()),
            ResolutionError::ManifestMalformed(s) => String::from_str(
                "Cannot parse manifest: ",
            ).concat(s.as_str()),
            ResolutionError::MainFileMissing(s) => String::from_str(
                "Cannot find main file: ",
            ).concat(s.as_str()),
            ResolutionError::InvalidSpecifier(s) => String::from_str(
                "Invalid specifier: ",
            ).concat(s.as_str()),
            ResolutionError::InvalidReferrer => String::from_str("Invalid referrer URL"),
            ResolutionError::ReferrerNotFile => String::from_str("Referrer is not a file URL"),
            ResolutionError::LocationNotUrl => String::from_str(
                "Failed to convert file path to URL",
            ),
        }
    }
}

/// The contents of the outcome of a resolution.
pub open spec fn outcome_view(outcome: Result<String, ResolutionError>) -> Result<
    Seq<char>,
    ResolutionErrorView,
> {
    match outcome {
        Ok(location) => Ok(location@),
        Err(error) => Err(error@),
    }
}

/// A file of a [`PackageTree`].
#[derive(Debug, Clone, PartialEq, Eq)]
pub struct TreeFile {
    /// The file's absolute location, in normal form.
    pub path: String,
    /// The file's bytes. Only a manifest's bytes are ever read.
    pub content: Vec<u8>,
}

/// What is known to exist on disk: directories and files, by their absolute locations in
/// normal form.
#[derive(Debug, Clone, PartialEq, Eq)]
pub struct PackageTree {
    pub directories: Vec<String>,
    pub files: Vec<TreeFile>,
}

impl PackageTree {
    /// Whether the tree holds a directory at `path`.
    pub open spec fn has_directory(&self, path: Seq<char>) -> bool {
        exists|i: int| 0 <= i < self.directories@.len() && self.directories@[i]@ == path
    }

    /// The index of the first file at `path` at or after `from`, or the number of files
    /// if there is none.
    pub open spec fn file_index(&self, path: Seq<char>, from: int) -> int
        decreases self.files@.len() - from,
    {
        if from < 0 || from >= self.files@.len() {
            self.files@.len() as int
        } else if self.files@[from].path@ == path {
            from
        } else {
            self.file_index(path, from + 1)
        }
    }

    /// The bytes of the file at `path`, if the tree holds one. Of several files at one
    /// location the first counts.
    pub open spec fn file_content(&self, path: Seq<char>) -> Option<Seq<u8>> {
        let at = self.file_index(path, 0);
        if at < self.files@.len() {
            Some(self.files@[at].content@)
        } else {
            None
        }
    }

    /// Whether the tree holds a file at `path`.
    pub open spec fn has_file(&self, path: Seq<char>) -> bool {
        self.file_content(path) is Some
    }

    /// A tree that holds nothing.
    pub fn new() -> (tree: PackageTree)
        ensures
            tree.directories@.len() == 0,
            tree.files@.len() == 0,
    {
        PackageTree { directories: Vec::new(), files: Vec::new() }
    }

    /// Records a directory.
    pub fn add_directory(&mut self, path: &str)
        ensures
            final(self).files == old(self).files,
            final(self).directories@.len() == old(self).directories@.len() + 1,
            forall|p: Seq<char>|
                final(self).has_directory(p) <==> (p == path@ || old(self).has_directory(p)),
    {
        let ghost before = self.directories@;
        self.directories.push(path.to_owned());
        proof {
            let after = self.directories@;
            assert forall|p: Seq<char>|
                self.has_directory(p) <==> (p == path@ || old(self).has_directory(p)) by {
                if self.has_directory(p) {
                    let i = choose|i: int| 0 <= i < after.len() && after[i]@ == p;
                    if i < before.len() {
                        assert(before[i]@ == p);
                    }
                }
                if p == path@ {
                    assert(after[after.len() - 1]@ == p);
                }
                if old(self).has_directory(p) {
                    let i = choose|i: int| 0 <= i < before.len() && before[i]@ == p;
                    assert(after[i]@ == p);
                }
            }
        }
    }

    /// Records a file with its bytes, behind the files recorded before.
    pub fn add_file(&mut self, path: &str, content: Vec<u8>)
        ensures
            final(self).directories == old(self).directories,
            final(self).files@.len() == old(self).files@.len() + 1,
            forall|i: int| 0 <= i < old(self).files@.len() ==> final(self).files@[i] == old(
                self,
            ).files@[i],
            final(self).files@[old(self).files@.len() as int].path@ == path@,
            final(self).files@[old(self).files@.len() as int].content@ == content@,
    {
        self.files.push(TreeFile { path: path.to_owned(), content });
    }

    /// Whether the tree holds a directory at `path`.
    pub fn contains_directory(&self, path: &Vec<char>) -> (found: bool)
        ensures
            found == self.has_directory(path@),
    {
        let mut i: usize = 0;
        while i < self.directories.len()
            invariant
                i <= self.directories.len(),
                forall|j: int| 0 <= j < i ==> self.directories@[j]@ != path@,
            decreases self.directories.len() - i,
        {
            let candidate = chars_of(self.directories[i].as_str());
            if same_chars(&candidate, path) {
                return true;
            }
            i += 1;
        }
        false
    }

    /// The index of the first file at `path`, if the tree holds one.
    pub fn find_file(&self, path: &Vec<char>) -> (found: Option<usize>)
        ensures
            match found {
                Some(at) => at < self.files@.len() && at == self.file_index(path@, 0),
                None => self.file_index(path@, 0) == self.files@.len(),
            },
            found is Some == self.has_file(path@),
    {
        let mut i: usize = 0;
        while i < self.files.len()
            invariant
                i <= self.files.len(),
                self.file_index(path@, 0) == self.file_index(path@, i as int),
            decreases self.files.len() - i,
        {
            let candidate = chars_of(self.files[i].path.as_str());
            if same_chars(&candidate, path) {
                return Some(i);
            }
            i += 1;
        }
        None
    }
}

/// The prefix that marks a specifier as a file URL.
pub open spec fn file_scheme() -> Seq<char> {
    seq!['f', 'i', 'l', 'e', ':', '/', '/']
}

/// Whether a specifier is file-style: it begins with `.`, `/`, `./`, `../` or `file://`.
/// Every other specifier names a package.
pub open spec fn is_file_specifier(specifier: Seq<char>) -> bool {
    ||| seq!['.'].is_prefix_of(specifier)
    ||| seq!['/'].is_prefix_of(specifier)
    ||| seq!['.', '/'].is_prefix_of(specifier)
    ||| seq!['.', '.', '/'].is_prefix_of(specifier)
    ||| file_scheme().is_prefix_of(specifier)
}

/// The characters of the file URL prefix.
fn file_scheme_chars() -> (scheme: Vec<char>)
    ensures
        scheme@ == file_scheme(),
{
    let scheme: Vec<char> = vec!['f', 'i', 'l', 'e', ':', '/', '/'];
    assert(scheme@ =~= file_scheme());
    scheme
}

/// Whether the characters of a specifier make it file-style.
fn is_file_specifier_chars(specifier: &Vec<char>) -> (file_style: bool)
    ensures
        file_style == is_file_specifier(specifier@),
{
    let scheme = file_scheme_chars();
    let first_is_mark = specifier.len() > 0 && (specifier[0] == '.' || specifier[0] == '/');
    proof {
        let s = specifier@;
        assert(seq!['.'].is_prefix_of(s) <==> (s.len() > 0 && s[0] == '.')) by {
            if s.len() > 0 && s[0] == '.' {
                assert(s.subrange(0, 1) =~= seq!['.']);
            }
            if seq!['.'].is_prefix_of(s) {
                assert(s.subrange(0, 1)[0] == '.');
            }
        }
        assert(seq!['/'].is_prefix_of(s) <==> (s.len() > 0 && s[0] == '/')) by {
            if s.len() > 0 && s[0] == '/' {
                assert(s.subrange(0, 1) =~= seq!['/']);
            }
            if seq!['/'].is_prefix_of(s) {
                assert(s.subrange(0, 1)[0] == '/');
            }
        }
        assert(seq!['.', '/'].is_prefix_of(s) ==> s.len() > 0 && s[0] == '.') by {
            if seq!['.', '/'].is_prefix_of(s) {
                assert(s.subrange(0, 2)[0] == '.');
            }
        }
        assert(seq!['.', '.', '/'].is_prefix_of(s) ==> s.len() > 0 && s[0] == '.') by {
            if seq!['.', '.', '/'].is_prefix_of(s) {
                assert(s.subrange(0, 3)[0] == '.');
            }
        }
    }
    first_is_mark || starts_with_chars(specifier, &scheme)
}

/// Tells file-style specifiers from package specifiers.
pub fn is_file_import(specifier: &str) -> (file_style: bool)
    ensures
        file_style == is_file_specifier(specifier@),
{
    let chars = chars_of(specifier);
    is_file_specifier_chars(&chars)
}

/// The name of the directory that holds packages.
pub open spec fn modules_dir() -> Seq<char> {
    "node-style-modules"@
}

/// The name of a package's manifest file.
pub open spec fn manifest_name() -> Seq<char> {
    "package.json"@
}

/// The main file of a package whose manifest names none.
pub open spec fn default_main() -> Seq<char> {
    "index.mjs"@
}

/// The components of the package directory for `package` that lies below the first
/// `depth` components of `dir`.
pub open spec fn package_dir(dir: Seq<Seq<char>>, package: Seq<Seq<char>>, depth: int) -> Seq<
    Seq<char>,
> {
    dir.subrange(0, depth).push(modules_dir()) + package
}

/// The greatest depth up to `depth` at which the tree holds the package directory, or
/// `-1` if it holds it at none. The greatest depth is the level nearest to `dir`.
pub open spec fn nearest_depth(
    tree: PackageTree,
    dir: Seq<Seq<char>>,
    package: Seq<Seq<char>>,
    depth: int,
) -> int
    decreases depth + 1,
{
    if depth < 0 {
        -1
    } else if tree.has_directory(rendered(package_dir(dir, package, depth))) {
        depth
    } else {
        nearest_depth(tree, dir, package, depth - 1)
    }
}

/// The location of the manifest of the package directory at `package`.
pub open spec fn manifest_location_of(package: Seq<char>) -> Seq<char> {
    rendered(components_of(package).push(manifest_name()))
}

/// The location of the main file of the package directory at `package`, given what the
/// manifest holds under its main key: the entry, or the default where there is none,
/// followed from the package directory and brought to normal form.
pub open spec fn main_location_of(package: Seq<char>, entry: Option<Seq<char>>) -> Seq<char> {
    rendered(
        walk(
            components_of(package),
            match entry {
                Some(main) => main,
                None => default_main(),
            },
        ),
    )
}

/// The outcome of resolving within the package directory at `package`, given what its
/// manifest holds under the main key (`None` where the directory holds no manifest).
pub open spec fn located_main(
    tree: PackageTree,
    package: Seq<char>,
    entry: Option<ManifestEntryView>,
) -> Result<Seq<char>, ResolutionErrorView> {
    match entry {
        None => Err(ResolutionErrorView::ManifestMissing(manifest_location_of(package))),
        Some(found) => match declared_main_of(found) {
            Err(_) => Err(ResolutionErrorView::ManifestMalformed(manifest_location_of(package))),
            Ok(main) => if tree.has_file(main_location_of(package, main)) {
                Ok(main_location_of(package, main))
            } else {
                Err(ResolutionErrorView::MainFileMissing(main_location_of(package, main)))
            },
        },
    }
}

/// What the manifest of the package directory at `package` holds under its main key, or
/// `None` where the tree holds no manifest there.
pub open spec fn manifest_entry_of(tree: PackageTree, package: Seq<char>) -> Option<
    ManifestEntryView,
> {
    match tree.file_content(manifest_location_of(package)) {
        Some(bytes) => Some(json_entry(bytes, main_key())),
        None => None,
    }
}

/// The outcome of resolving a package specifier from the directory `dir`.
///
/// The package directory nearest to `dir` decides alone: where its manifest is missing
/// or malformed, or its main file is missing, resolution fails and no directory further
/// up is tried. Where no level holds the package directory, or the specifier names no
/// package at all, the package is not found.
pub open spec fn resolved_package(tree: PackageTree, specifier: Seq<char>, dir: Seq<char>)
    -> Result<Seq<char>, ResolutionErrorView> {
    let package = components_of(specifier);
    let base = components_of(dir);
    let depth = nearest_depth(tree, base, package, base.len() as int);
    if package.len() == 0 || depth < 0 {
        Err(ResolutionErrorView::NotFound(specifier))
    } else {
        let found = rendered(package_dir(base, package, depth));
        located_main(tree, found, manifest_entry_of(tree, found))
    }
}

/// The contents of what was read of a manifest.
pub open spec fn read_view(entry: Option<ManifestEntry>) -> Option<ManifestEntryView> {
    match entry {
        Some(found) => Some(found@),
        None => None,
    }
}

/// The contents of an optional string.
pub open spec fn optional_text(text: Option<String>) -> Option<Seq<char>> {
    match text {
        Some(t) => Some(t@),
        None => None,
    }
}

/// The location of the manifest of the package directory at `package`.
pub fn manifest_location(package: &str) -> (location: String)
    ensures
        location@ == manifest_location_of(package@),
{
    let mut parts = components(&chars_of(package));
    let ghost before = components_view(parts@);
    parts.push(chars_of("package.json"));
    assert(components_view(parts@) =~= before.push(manifest_name()));
    string_of(&render(&parts))
}

/// The location of the main file of the package directory at `package`, given what its
/// manifest holds under the main key.
pub fn main_location(package: &str, entry: &Option<String>) -> (location: String)
    ensures
        location@ == main_location_of(package@, optional_text(*entry)),
{
    let base = components(&chars_of(package));
    let main = match entry {
        Some(main) => chars_of(main.as_str()),
        None => chars_of("index.mjs"),
    };
    string_of(&render(&walk_from(base, &main)))
}

/// Resolves within the package directory at `package`, given what its manifest holds
/// under the main key (`None` where the directory holds no manifest).
pub fn locate_main(tree: &PackageTree, package: &str, entry: &Option<ManifestEntry>) -> (outcome:
    Result<String, ResolutionError>)
    ensures
        outcome_view(outcome) == located_main(*tree, package@, read_view(*entry)),
{
    match entry {
        None => Err(ResolutionError::ManifestMissing(manifest_location(package))),
        Some(found) => match declared_main(found) {
            Err(_) => Err(ResolutionError::ManifestMalformed(manifest_location(package))),
            Ok(main) => {
                let location = main_location(package, &main);
                let at = tree.find_file(&chars_of(location.as_str()));
                if at.is_some() {
                    Ok(location)
                } else {
                    Err(ResolutionError::MainFileMissing(location))
                }
            },
        },
    }
}

/// Reads what the manifest of the package directory at `package` holds under its main
/// key. Gives `None` where the tree holds no manifest there.
pub fn read_manifest_entry(tree: &PackageTree, package: &str) -> (entry: Option<ManifestEntry>)
    ensures
        read_view(entry) == manifest_entry_of(*tree, package@),
{
    let location = manifest_location(package);
    match tree.find_file(&chars_of(location.as_str())) {
        Some(at) => Some(main_entry(&tree.files[at].content)),
        None => None,
    }
}

/// The components of the package directory for `package` below the first `depth`
/// components of `base`.
fn package_dir_components(base: &Vec<Vec<char>>, package: &Vec<Vec<char>>, depth: usize) -> (dir:
    Vec<Vec<char>>)
    requires
        depth <= base@.len(),
    ensures
        components_view(dir@) == package_dir(
            components_view(base@),
            components_view(package@),
            depth as int,
        ),
{
    let mut dir: Vec<Vec<char>> = Vec::new();
    let mut i: usize = 0;
    while i < depth
        invariant
            i <= depth <= base@.len(),
            components_view(dir@) == components_view(base@).subrange(0, i as int),
        decreases depth - i,
    {
        let ghost before = components_view(dir@);
        dir.push(copy_chars(&base[i]));
        assert(components_view(dir@) =~= before.push(base@[i as int]@));
        i += 1;
        assert(components_view(dir@) =~= components_view(base@).subrange(0, i as int));
    }
    let ghost kept = components_view(dir@);
    dir.push(chars_of("node-style-modules"));
    assert(components_view(dir@) =~= kept.push(modules_dir()));
    let mut j: usize = 0;
    while j < package.len()
        invariant
            j <= package.len(),
            components_view(dir@) == kept.push(modules_dir()) + components_view(
                package@,
            ).subrange(0, j as int),
        decreases package.len() - j,
    {
        let ghost before = components_view(dir@);
        dir.push(copy_chars(&package[j]));
        assert(components_view(dir@) =~= before.push(package@[j as int]@));
        j += 1;
        assert(components_view(dir@) =~= kept.push(modules_dir()) + components_view(
            package@,
        ).subrange(0, j as int));
    }
    assert(components_view(package@).subrange(0, package.len() as int) =~= components_view(
        package@,
    ));
    dir
}

/// The package directories in which a package specifier is looked for from the
/// directory `dir`, nearest first: one at `dir` itself and one at each of its ancestors
/// up to the root. A specifier that names no package has none.
pub fn package_candidates(specifier: &str, dir: &str) -> (candidates: Vec<String>)
    ensures
        components_of(specifier@).len() == 0 ==> candidates@.len() == 0,
        components_of(specifier@).len() > 0 ==> candidates@.len() == components_of(dir@).len()
            + 1,
        forall|i: int|
            0 <= i < candidates@.len() ==> #[trigger] candidates@[i]@ == rendered(
                package_dir(
                    components_of(dir@),
                    components_of(specifier@),
                    components_of(dir@).len() - i,
                ),
            ),
{
    let package = components(&chars_of(specifier));
    let base = components(&chars_of(dir));
    let mut candidates: Vec<String> = Vec::new();
    if package.len() == 0 {
        return candidates;
    }
    let mut depth: usize = base.len();
    loop
        invariant_except_break
            candidates@.len() == base@.len() - depth,
        invariant
            depth <= base@.len(),
            components_view(base@) == components_of(dir@),
            components_view(package@) == components_of(specifier@),
            forall|k: int|
                0 <= k < candidates@.len() ==> #[trigger] candidates@[k]@ == rendered(
                    package_dir(
                        components_of(dir@),
                        components_of(specifier@),
                        components_of(dir@).len() - k,
                    ),
                ),
        ensures
            candidates@.len() == base@.len() + 1,
            forall|k: int|
                0 <= k < candidates@.len() ==> #[trigger] candidates@[k]@ == rendered(
                    package_dir(
                        components_of(dir@),
                        components_of(specifier@),
                        components_of(dir@).len() - k,
                    ),
                ),
        decreases depth,
    {
        let candidate = render(&package_dir_components(&base, &package, depth));
        candidates.push(string_of(&candidate));
        if depth == 0 {
            break;
        }
        depth -= 1;
    }
    candidates
}

/// Resolves a package specifier from the directory `dir` against what the tree holds.
///
/// The package directory nearest to `dir` is chosen; its manifest must exist and parse,
/// and the main file that the manifest names (or the default) must exist.
pub fn resolve_package(tree: &PackageTree, specifier: &str, dir: &str) -> (outcome: Result<
    String,
    ResolutionError,
>)
    ensures
        outcome_view(outcome) == resolved_package(*tree, specifier@, dir@),
{
    let package = components(&chars_of(specifier));
    let base = components(&chars_of(dir));
    if package.len() == 0 {
        return Err(ResolutionError::NotFound(specifier.to_owned()));
    }
    let mut depth: usize = base.len();
    loop
        invariant
            depth <= base@.len(),
            components_view(base@) == components_of(dir@),
            components_view(package@) == components_of(specifier@),
            package@.len() > 0,
            nearest_depth(
                *tree,
                components_of(dir@),
                components_of(specifier@),
                components_of(dir@).len() as int,
            ) == nearest_depth(
                *tree,
                components_of(dir@),
                components_of(specifier@),
                depth as int,
            ),
        decreases depth,
    {
        let candidate = render(&package_dir_components(&base, &package, depth));
        if tree.contains_directory(&candidate) {
            let found = string_of(&candidate);
            let entry = read_manifest_entry(tree, found.as_str());
            return locate_main(tree, found.as_str(), &entry);
        }
        if depth == 0 {
            assert(nearest_depth(*tree, components_of(dir@), components_of(specifier@), -1) == -1);
            return Err(ResolutionError::NotFound(specifier.to_owned()));
        }
        depth -= 1;
    }
}

/// The outcome of an import, given what joining the specifier onto the referrer gives:
/// the joined URL; where the referrer is no URL or the specifier cannot be joined, the
/// error that says so.
pub open spec fn import_outcome(specifier: Seq<char>, joined: UrlJoinView) -> Result<
    Seq<char>,
    ResolutionErrorView,
> {
    match joined {
        UrlJoinView::Joined(url) => Ok(url),
        UrlJoinView::BadBase => Err(ResolutionErrorView::InvalidReferrer),
        UrlJoinView::BadReference => Err(ResolutionErrorView::InvalidSpecifier(specifier)),
    }
}

/// Decides on the outcome of an import, given what joining the specifier onto the
/// referrer gave.
pub fn import_location(specifier: &str, joined: UrlJoin) -> (outcome: Result<
    String,
    ResolutionError,
>)
    ensures
        outcome_view(outcome) == import_outcome(specifier@, joined@),
{
    match joined {
        UrlJoin::Joined(url) => Ok(url),
        UrlJoin::BadBase => Err(ResolutionError::InvalidReferrer),
        UrlJoin::BadReference => Err(ResolutionError::InvalidSpecifier(specifier.to_owned())),
    }
}

/// Resolves a file-style specifier that is imported from the module at the URL
/// `referrer`: the specifier is joined onto the referrer as the `url` crate joins a
/// reference onto a base. Whether anything exists at the joined URL is not asked.
pub fn resolve_import(specifier: &str, referrer: &str) -> (outcome: Result<
    String,
    ResolutionError,
>)
    ensures
        outcome_view(outcome) == import_outcome(specifier@, url_join_of(referrer@, specifier@)),
{
    import_location(specifier, url_join(referrer, specifier))
}

/// The path of the referrer, given what converting the referrer's URL to a path gives.
pub open spec fn referrer_outcome(path: UrlPathView) -> Result<Seq<char>, ResolutionErrorView> {
    match path {
        UrlPathView::Path(found) => Ok(found),
        UrlPathView::Unparsable => Err(ResolutionErrorView::InvalidReferrer),
        UrlPathView::NotFile => Err(ResolutionErrorView::ReferrerNotFile),
        UrlPathView::NotText => Err(ResolutionErrorView::ReferrerNotFile),
    }
}

/// Decides on the path of the referrer, given what converting its URL to a path gave.
pub fn referrer_location(path: UrlPath) -> (outcome: Result<String, ResolutionError>)
    ensures
        outcome_view(outcome) == referrer_outcome(path@),
{
    match path {
        UrlPath::Path(found) => Ok(found),
        UrlPath::Unparsable => Err(ResolutionError::InvalidReferrer),
        UrlPath::NotFile => Err(ResolutionError::ReferrerNotFile),
        UrlPath::NotText => Err(ResolutionError::ReferrerNotFile),
    }
}

/// The path of the file that the referrer's URL names.
pub fn referrer_path(referrer: &str) -> (outcome: Result<String, ResolutionError>)
    ensures
        outcome_view(outcome) == referrer_outcome(file_url_path_of(referrer@)),
{
    referrer_location(file_url_path(referrer))
}

/// The resolved location as a URL, given what converting its path to a URL gives.
pub open spec fn url_outcome(url: Option<Seq<char>>) -> Result<Seq<char>, ResolutionErrorView> {
    match url {
        Some(text) => Ok(text),
        None => Err(ResolutionErrorView::LocationNotUrl),
    }
}

/// Decides on the resolved location as a URL, given what converting its path to a URL
/// gave.
pub fn location_url(url: Option<String>) -> (outcome: Result<String, ResolutionError>)
    ensures
        outcome_view(outcome) == url_outcome(optional_text(url)),
{
    match url {
        Some(text) => Ok(text),
        None => Err(ResolutionError::LocationNotUrl),
    }
}

/// The path that a file-style specifier names, given what converting the joined URL to
/// a path gives.
pub open spec fn specifier_path_outcome(specifier: Seq<char>, path: UrlPathView) -> Result<
    Seq<char>,
    ResolutionErrorView,
> {
    match path {
        UrlPathView::Path(found) => Ok(found),
        _ => Err(ResolutionErrorView::InvalidSpecifier(specifier)),
    }
}

/// Decides on the path that a file-style specifier names, given what converting the
/// joined URL to a path gave.
pub fn specifier_location(specifier: &str, path: UrlPath) -> (outcome: Result<
    String,
    ResolutionError,
>)
    ensures
        outcome_view(outcome) == specifier_path_outcome(specifier@, path@),
{
    match path {
        UrlPath::Path(found) => Ok(found),
        _ => Err(ResolutionError::InvalidSpecifier(specifier.to_owned())),
    }
}

/// The path that a file-style specifier names when it is imported from the file at the
/// path `referrer`: the referrer is written as a file URL, the specifier is joined onto
/// it, and the joined URL is converted back to a path. The referrer must be absolute.
pub open spec fn relative_location(specifier: Seq<char>, referrer: Seq<char>) -> Result<
    Seq<char>,
    ResolutionErrorView,
> {
    match file_url_of(referrer) {
        None => Err(ResolutionErrorView::InvalidReferrer),
        Some(base) => match import_outcome(specifier, url_join_of(base, specifier)) {
            Err(error) => Err(error),
            Ok(url) => specifier_path_outcome(specifier, file_url_path_of(url)),
        },
    }
}

/// Resolves a file-style specifier that is imported from the file at the path
/// `referrer`, to a path.
pub fn resolve_relative(specifier: &str, referrer: &str) -> (outcome: Result<
    String,
    ResolutionError,
>)
    ensures
        outcome_view(outcome) == relative_location(specifier@, referrer@),
{
    match path_file_url(referrer) {
        None => Err(ResolutionError::InvalidReferrer),
        Some(base) => match resolve_import(specifier, base.as_str()) {
            Err(error) => Err(error),
            Ok(url) => specifier_location(specifier, file_url_path(url.as_str())),
        },
    }
}

/// The directory of the file at `referrer`, as components.
fn referrer_dir(referrer: &str) -> (dir: Vec<Vec<char>>)
    ensures
        components_view(dir@) == parent_of(components_of(referrer@)),
{
    let mut dir = components(&chars_of(referrer));
    let ghost before = components_view(dir@);
    if dir.len() > 0 {
        dir.pop();
        assert(components_view(dir@) =~= before.drop_last());
    }
    dir
}

/// The outcome of resolving a package specifier that is imported from the module at the
/// URL `referrer`: the referrer must name a file; the package is looked for from that
/// file's directory; the location found is written as a URL.
pub open spec fn resolved_npm(tree: PackageTree, specifier: Seq<char>, referrer: Seq<char>)
    -> Result<Seq<char>, ResolutionErrorView> {
    match referrer_outcome(file_url_path_of(referrer)) {
        Err(error) => Err(error),
        Ok(path) => match resolved_package(
            tree,
            specifier,
            rendered(parent_of(components_of(path))),
        ) {
            Err(error) => Err(error),
            Ok(found) => url_outcome(file_url_of(found)),
        },
    }
}

/// The outcome of resolving any specifier that is imported from the module at the URL
/// `referrer`.
pub open spec fn resolved(tree: PackageTree, specifier: Seq<char>, referrer: Seq<char>)
    -> Result<Seq<char>, ResolutionErrorView> {
    if is_file_specifier(specifier) {
        import_outcome(specifier, url_join_of(referrer, specifier))
    } else {
        resolved_npm(tree, specifier, referrer)
    }
}

/// Resolves a package specifier that is imported from the module at the URL `referrer`,
/// to a URL.
pub fn resolve_npm(specifier: &str, referrer: &str, tree: &PackageTree) -> (outcome: Result<
    String,
    ResolutionError,
>)
    ensures
        outcome_view(outcome) == resolved_npm(*tree, specifier@, referrer@),
{
    match referrer_path(referrer) {
        Err(error) => Err(error),
        Ok(path) => {
            let dir = string_of(&render(&referrer_dir(path.as_str())));
            match resolve_package(tree, specifier, dir.as_str()) {
                Err(error) => Err(error),
                Ok(found) => location_url(path_file_url(found.as_str())),
            }
        },
    }
}

/// What is to be read for a module, and as what kind it is loaded.
#[derive(Debug, Clone, PartialEq, Eq)]
pub struct LoadPlan {
    /// The path of the module's file.
    pub path: String,
    /// The kind of the module.
    pub module_type: ModuleType,
}

/// The path of the module at the URL `specifier`, given what converting the URL to a
/// path gives: a URL that names no file is refused, and the error names the specifier.
pub open spec fn load_path_outcome(specifier: Seq<char>, path: UrlPathView) -> Result<
    Seq<char>,
    LoadErrorView,
> {
    match path {
        UrlPathView::Path(found) => Ok(found),
        _ => Err(LoadErrorView::NotFileUrl(specifier)),
    }
}

/// Decides on the path of the module at the URL `specifier`, given what converting the
/// URL to a path gave.
pub fn load_path(specifier: &str, path: UrlPath) -> (outcome: Result<String, LoadError>)
    ensures
        match outcome {
            Ok(found) => load_path_outcome(specifier@, path@) == Ok::<Seq<char>, LoadErrorView>(
                found@,
            ),
            Err(error) => load_path_outcome(specifier@, path@) == Err::<
                Seq<char>,
                LoadErrorView,
            >(error@),
        },
{
    match path {
        UrlPath::Path(found) => Ok(found),
        _ => Err(LoadError::NotFileUrl(specifier.to_owned())),
    }
}

/// The plan for loading the module at the URL `specifier`, given the path of its file:
/// the kind follows the file's extension, and an import that asked for another kind is
/// refused.
pub open spec fn load_outcome(
    specifier: Seq<char>,
    requested: RequestedModuleTypeView,
    path: UrlPathView,
) -> Result<(Seq<char>, ModuleTypeView), LoadErrorView> {
    match load_path_outcome(specifier, path) {
        Err(error) => Err(error),
        Ok(found) => if request_agrees(module_type_of(found, requested), requested) {
            Ok((found, module_type_of(found, requested)))
        } else {
            Err(LoadErrorView::TypeMismatch)
        },
    }
}

/// Resolves import specifiers, both file-style and package-style, and plans the loading
/// of modules.
#[derive(Debug, Clone, Copy, PartialEq, Eq)]
pub struct NpmFsModuleLoader;

impl NpmFsModuleLoader {
    /// Resolves a specifier that is imported from the module at the URL `referrer`, to a
    /// URL. A file-style specifier is joined onto the referrer; any other specifier names a
    /// package, which is looked for in what the tree holds.
    pub fn resolve(&self, specifier: &str, referrer: &str, tree: &PackageTree) -> (outcome:
        Result<String, ResolutionError>)
        ensures
            outcome_view(outcome) == resolved(*tree, specifier@, referrer@),
    {
        if is_file_import(specifier) {
            resolve_import(specifier, referrer)
        } else {
            resolve_npm(specifier, referrer, tree)
        }
    }

    /// Plans the loading of the module at the URL `specifier`: says which file is to be
    /// read and as what kind the module is loaded. Reading the file is the caller's part.
    pub fn load(&self, specifier: &str, requested: &RequestedModuleType) -> (outcome: Result<
        LoadPlan,
        LoadError,
    >)
        ensures
            match outcome {
                Ok(plan) => load_outcome(specifier@, requested@, file_url_path_of(specifier@))
                    == Ok::<(Seq<char>, ModuleTypeView), LoadErrorView>(
                    (plan.path@, plan.module_type@),
                ),
                Err(error) => load_outcome(specifier@, requested@, file_url_path_of(specifier@))
                    == Err::<(Seq<char>, ModuleTypeView), LoadErrorView>(error@),
            },
    {
        match load_path(specifier, file_url_path(specifier)) {
            Err(error) => Err(error),
            Ok(path) => match checked_module_type(path.as_str(), requested) {
                Err(error) => Err(error),
                Ok(module_type) => Ok(LoadPlan { path, module_type }),
            },
        }
    }
}

/// The depth that [`nearest_depth`] gives is a level that holds the package directory,
/// and no level between it and `depth` holds it; it gives `-1` only where no level up to
/// `depth` holds it.
pub proof fn lemma_nearest_depth(
    tree: PackageTree,
    dir: Seq<Seq<char>>,
    package: Seq<Seq<char>>,
    depth: int,
)
    requires
        -1 <= depth,
    ensures
        -1 <= nearest_depth(tree, dir, package, depth) <= depth,
        nearest_depth(tree, dir, package, depth) >= 0 ==> tree.has_directory(
            rendered(package_dir(dir, package, nearest_depth(tree, dir, package, depth))),
        ),
        forall|k: int|
            nearest_depth(tree, dir, package, depth) < k <= depth ==> !tree.has_directory(
                #[trigger] rendered(package_dir(dir, package, k)),
            ),
    decreases depth + 1,
{
    if depth >= 0 && !tree.has_directory(rendered(package_dir(dir, package, depth))) {
        lemma_nearest_depth(tree, dir, package, depth - 1);
    }
}

/// The nearest package directory wins: where the tree holds the package directory at
/// the level `near` of the referrer's directory chain and at no level nearer to the
/// referrer, the package directory at `near` alone decides the outcome, whatever the tree
/// holds at the levels further up.
pub proof fn law_nearest_package_decides(
    tree: PackageTree,
    specifier: Seq<char>,
    dir: Seq<char>,
    near: int,
)
    requires
        components_of(specifier).len() > 0,
        0 <= near <= components_of(dir).len(),
        tree.has_directory(
            rendered(package_dir(components_of(dir), components_of(specifier), near)),
        ),
        forall|k: int|
            near < k <= components_of(dir).len() ==> !tree.has_directory(
                #[trigger] rendered(package_dir(components_of(dir), components_of(specifier), k)),
            ),
    ensures
        resolved_package(tree, specifier, dir) == located_main(
            tree,
            rendered(package_dir(components_of(dir), components_of(specifier), near)),
            manifest_entry_of(
                tree,
                rendered(package_dir(components_of(dir), components_of(specifier), near)),
            ),
        ),
{
    let base = components_of(dir);
    let package = components_of(specifier);
    lemma_nearest_depth(tree, base, package, base.len() as int);
    let found = nearest_depth(tree, base, package, base.len() as int);
    if found < near {
        assert(!tree.has_directory(rendered(package_dir(base, package, near))));
    }
    if found > near {
        assert(!tree.has_directory(rendered(package_dir(base, package, found))));
    }
}

/// A package is not found exactly where the specifier names no package or no level of
/// the referrer's directory chain holds the package directory.
pub proof fn law_not_found(tree: PackageTree, specifier: Seq<char>, dir: Seq<char>)
    ensures
        resolved_package(tree, specifier, dir) == Err::<Seq<char>, ResolutionErrorView>(
            ResolutionErrorView::NotFound(specifier),
        ) <==> (components_of(specifier).len() == 0 || forall|k: int|
            0 <= k <= components_of(dir).len() ==> !tree.has_directory(
                #[trigger] rendered(package_dir(components_of(dir), components_of(specifier), k)),
            )),
{
    let base = components_of(dir);
    let package = components_of(specifier);
    lemma_nearest_depth(tree, base, package, base.len() as int);
    let found = nearest_depth(tree, base, package, base.len() as int);
    if package.len() > 0 && found >= 0 {
        assert(tree.has_directory(rendered(package_dir(base, package, found))));
    }
}

/// The name of the directory that holds packages is the name of an entry of a directory.
pub proof fn lemma_modules_dir_is_name()
    ensures
        is_name(modules_dir()),
{
    reveal_strlit("node-style-modules");
    let name = modules_dir();
    assert(name.len() == 18);
    assert(name != dot());
    assert(name != dot_dot());
}

/// The manifest and the main file of a package are looked for in the package directory
/// itself: the text of a package directory names that directory, so that the manifest's
/// location is the directory's with the manifest's name behind it, and the main file's
/// location is what the manifest's entry (or the default) names from the directory.
pub proof fn law_package_files_lie_in_package_directory(
    specifier: Seq<char>,
    dir: Seq<char>,
    depth: int,
    entry: Option<Seq<char>>,
)
    requires
        0 <= depth <= components_of(dir).len(),
    ensures
        all_names(package_dir(components_of(dir), components_of(specifier), depth)),
        manifest_location_of(
            rendered(package_dir(components_of(dir), components_of(specifier), depth)),
        ) == rendered(
            package_dir(components_of(dir), components_of(specifier), depth).push(manifest_name()),
        ),
        main_location_of(
            rendered(package_dir(components_of(dir), components_of(specifier), depth)),
            entry,
        ) == rendered(
            walk(
                package_dir(components_of(dir), components_of(specifier), depth),
                match entry {
                    Some(main) => main,
                    None => default_main(),
                },
            ),
        ),
{
    let base = components_of(dir);
    let package = components_of(specifier);
    let found = package_dir(base, package, depth);
    law_normal_form_is_stable(dir);
    law_normal_form_is_stable(specifier);
    lemma_modules_dir_is_name();
    assert forall|i: int| 0 <= i < found.len() implies is_name(#[trigger] found[i]) by {
        if i < depth {
            assert(found[i] == base[i]);
        } else if i == depth {
            assert(found[i] == modules_dir());
        } else {
            assert(found[i] == package[i - depth - 1]);
        }
    }
    lemma_components_of_rendered(found);
}

/// A location with another adjoined to it: the other alone where it begins at the root
/// or the first is empty; else the first, a separator unless the first ends with one, and
/// the other.
pub open spec fn joined(base: Seq<char>, path: Seq<char>) -> Seq<char> {
    if base.len() == 0 || (path.len() > 0 && path[0] == '/') {
        path
    } else if base[base.len() - 1] == '/' {
        base + path
    } else {
        base + seq!['/'] + path
    }
}

/// The location at which `require` looks for the source of a module: the file
/// `dist/index.js` of the module's directory below `node_modules`, relative to the working
/// directory.
pub open spec fn required_location(module: Seq<char>) -> Seq<char> {
    joined(joined(joined("node_modules"@, module), "dist"@), "index.js"@)
}

/// Adjoins a location to another.
fn join(base: Vec<char>, path: &Vec<char>) -> (whole: Vec<char>)
    ensures
        whole@ == joined(base@, path@),
{
    if base.len() == 0 || (path.len() > 0 && path[0] == '/') {
        return copy_chars(path);
    }
    let mut whole = base;
    if whole[whole.len() - 1] != '/' {
        whole.push('/');
    }
    let ghost head = whole@;
    let mut i: usize = 0;
    while i < path.len()
        invariant
            i <= path.len(),
            whole@ == head + path@.subrange(0, i as int),
        decreases path.len() - i,
    {
        whole.push(path[i]);
        i += 1;
        assert(whole@ =~= head + path@.subrange(0, i as int));
    }
    assert(path@.subrange(0, path.len() as int) =~= path@);
    whole
}

/// Says where `require` looks for the source of a module.
pub fn require(module: &str) -> (location: String)
    ensures
        location@ == required_location(module@),
{
    let in_modules = join(chars_of("node_modules"), &chars_of(module));
    let in_dist = join(in_modules, &chars_of("dist"));
    string_of(&join(in_dist, &chars_of("index.js")))
}

} // verus!
