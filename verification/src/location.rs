//! Conversions between file paths and locations written as URLs, and the joining of a
//! reference onto a base URL. All three are the work of the `url` crate.

use vstd::prelude::*;

verus! {

/// What converting a URL to a file path gives.
#[derive(Debug, Clone, PartialEq, Eq)]
pub enum UrlPath {
    /// The text is not a URL.
    Unparsable,
    /// The URL does not name a local file.
    NotFile,
    /// The URL names a local file whose path is not Unicode text.
    NotText,
    /// The path of the file that the URL names.
    Path(String),
}

/// The mathematical content of a [`UrlPath`].
pub enum UrlPathView {
    Unparsable,
    NotFile,
    NotText,
    Path(Seq<char>),
}

impl View for UrlPath {
    type V = UrlPathView;

    open spec fn view(&self) -> UrlPathView {
        match self {
            UrlPath::Unparsable => UrlPathView::Unparsable,
            UrlPath::NotFile => UrlPathView::NotFile,
            UrlPath::NotText => UrlPathView::NotText,
            UrlPath::Path(path) => UrlPathView::Path(path@),
        }
    }
}

/// What joining a reference onto a base URL gives.
#[derive(Debug, Clone, PartialEq, Eq)]
pub enum UrlJoin {
    /// The base is not a URL.
    BadBase,
    /// The reference cannot be joined onto the base.
    BadReference,
    /// The URL that the reference names from the base.
    Joined(String),
}

/// The mathematical content of a [`UrlJoin`].
pub enum UrlJoinView {
    BadBase,
    BadReference,
    Joined(Seq<char>),
}

impl View for UrlJoin {
    type V = UrlJoinView;

    open spec fn view(&self) -> UrlJoinView {
        match self {
            UrlJoin::BadBase => UrlJoinView::BadBase,
            UrlJoin::BadReference => UrlJoinView::BadReference,
            UrlJoin::Joined(url) => UrlJoinView::Joined(url@),
        }
    }
}

/// What the `url` crate gives as the file path of a URL, in one build of this crate.
pub uninterp spec fn file_url_path_of(url: Seq<char>) -> UrlPathView;

/// What the `url` crate gives as the URL of a file path, in one build of this crate;
/// `None` where it refuses the path.
pub uninterp spec fn file_url_of(path: Seq<char>) -> Option<Seq<char>>;

/// What the `url` crate gives for a reference joined onto a base URL.
pub uninterp spec fn url_join_of(base: Seq<char>, reference: Seq<char>) -> UrlJoinView;

/// Converts a URL to the path of the file that it names.
///
/// Trusted: the body turns the text into a `url::Url` with `Url::parse` and calls
/// `Url::to_file_path` on it; the path is handed out as text. The contract claims only
/// that the outcome is a function of the text, and calls that function
/// [`file_url_path_of`].
#[verifier::external_body]
pub(crate) fn file_url_path(url: &str) -> (path: UrlPath)
    ensures
        path@ == file_url_path_of(url@),
{
    match url::Url::parse(url) {
        Err(_) => UrlPath::Unparsable,
        Ok(parsed) => match parsed.to_file_path() {
            Err(_) => UrlPath::NotFile,
            Ok(path) => match path.into_os_string().into_string() {
                Err(_) => UrlPath::NotText,
                Ok(text) => UrlPath::Path(text),
            },
        },
    }
}

/// Converts a file path to a URL.
///
/// Trusted: the body calls `url::Url::from_file_path` and hands the URL out as text. The
/// contract claims only that the outcome is a function of the path, and calls that
/// function [`file_url_of`].
#[verifier::external_body]
pub(crate) fn path_file_url(path: &str) -> (url: Option<String>)
    ensures
        match url {
            Some(text) => file_url_of(path@) == Some(text@),
            None => file_url_of(path@) is None,
        },
{
    match url::Url::from_file_path(path) {
        Ok(url) => Some(String::from(url)),
        Err(_) => None,
    }
}

/// Joins a reference onto a base URL.
///
/// Trusted: the body turns the base into a `url::Url` with `Url::parse` and calls
/// `Url::join` on it with the reference; the URL is handed out as text. The contract
/// claims only that the outcome is a function of the two texts, and calls that function
/// [`url_join_of`].
#[verifier::external_body]
pub(crate) fn url_join(base: &str, reference: &str) -> (joined: UrlJoin)
    ensures
        joined@ == url_join_of(base@, reference@),
{
    match url::Url::parse(base) {
        Err(_) => UrlJoin::BadBase,
        Ok(parsed) => match parsed.join(reference) {
            Err(_) => UrlJoin::BadReference,
            Ok(url) => UrlJoin::Joined(String::from(url)),
        },
    }
}

} // verus!
