//! The steps of registering a module that come before the engine evaluates its source.

use vstd::prelude::*;
use vstd::string::*;
use vstd::utf8::*;
use crate::marshal::{c_string_bytes, c_string_prefix};
use crate::text::utf8_to_string;

verus! {

/// Why a text argument of a native entry point cannot be used.
#[derive(Debug, Clone, Copy, PartialEq, Eq, Structural)]
pub enum TextError {
    /// The pointer was null.
    NullPointer,
    /// The bytes before the NUL terminator are not UTF-8.
    InvalidUtf8,
}

impl TextError {
    /// The text that describes the error.
    pub open spec fn message_text(self) -> Seq<char> {
        match self {
            TextError::NullPointer => "Received null pointer"@,
            TextError::InvalidUtf8 => "Invalid UTF-8 in pointer string"@,
        }
    }

    /// Describes the error in words.
    pub fn message(&self) -> (text: String)
        ensures
            text@ == self.message_text(),
    {
        match self {
            TextError::NullPointer => "Received null pointer".to_owned(),
            TextError::InvalidUtf8 => "Invalid UTF-8 in pointer string".to_owned(),
        }
    }
}

/// The text of a text argument, given the bytes found behind its pointer (`None` for a
/// null pointer): the bytes before the first NUL byte, decoded as UTF-8.
pub open spec fn text_of(bytes: Option<Seq<u8>>) -> Result<Seq<char>, TextError> {
    match bytes {
        None => Err(TextError::NullPointer),
        Some(found) => if valid_utf8(c_string_bytes(found)) {
            Ok(decode_utf8(c_string_bytes(found)))
        } else {
            Err(TextError::InvalidUtf8)
        },
    }
}

/// The contents of optional bytes.
pub open spec fn optional_bytes(bytes: Option<Vec<u8>>) -> Option<Seq<u8>> {
    match bytes {
        Some(found) => Some(found@),
        None => None,
    }
}

/// Checks a text argument of a native entry point and decodes it.
pub fn check_and_get_cstr(bytes: &Option<Vec<u8>>) -> (outcome: Result<String, TextError>)
    ensures
        match outcome {
            Ok(text) => text_of(optional_bytes(*bytes)) == Ok::<Seq<char>, TextError>(text@),
            Err(error) => text_of(optional_bytes(*bytes)) == Err::<Seq<char>, TextError>(error),
        },
{
    match bytes {
        None => Err(TextError::NullPointer),
        Some(found) => match utf8_to_string(c_string_prefix(found)) {
            Some(text) => Ok(text),
            None => Err(TextError::InvalidUtf8),
        },
    }
}

/// The location under which the engine knows the source of a module: the file's own
/// location where the source was given as the path of a file, else the module's name with
/// `.js` behind it; in both cases as a `file://` location.
pub open spec fn source_location(name: Seq<char>, source: Seq<char>, source_is_file: bool) -> Seq<
    char,
> {
    if source_is_file {
        "file://"@ + source
    } else {
        "file://"@ + name + ".js"@
    }
}

/// Names the source of a module to the engine. `source` is what the caller passed: the
/// path of a file, where `source_is_file` says that a file exists there, else the source
/// text itself.
pub fn module_location(name: &str, source: &str, source_is_file: bool) -> (location: String)
    ensures
        location@ == source_location(name@, source@, source_is_file),
{
    if source_is_file {
        "file://".to_owned().concat(source)
    } else {
        "file://".to_owned().concat(name).concat(".js")
    }
}

/// The text of the error of a module whose file could not be read.
pub open spec fn read_failure(cause: Seq<char>) -> Seq<char> {
    "Failed to read JS module from file: "@ + cause
}

/// Describes a module whose file could not be read, by the cause.
pub fn read_failure_message(cause: &str) -> (text: String)
    ensures
        text@ == read_failure(cause@),
{
    "Failed to read JS module from file: ".to_owned().concat(cause)
}

/// The text of the error of a module that the engine could not evaluate.
pub open spec fn load_failure(name: Seq<char>, cause: Seq<char>) -> Seq<char> {
    "Error loading module: "@ + name + ", "@ + cause
}

/// Describes a module that the engine could not evaluate, by its name and the cause.
pub fn load_failure_message(name: &str, cause: &str) -> (text: String)
    ensures
        text@ == load_failure(name@, cause@),
{
    "Error loading module: ".to_owned().concat(name).concat(", ").concat(cause)
}

/// The source of a module as the engine evaluates it.
#[derive(Debug, Clone, PartialEq, Eq)]
pub struct ModuleSource {
    /// The location under which the engine knows the source.
    pub location: String,
    /// The text that the engine evaluates.
    pub code: String,
}

/// Why the source of a module cannot be had.
#[derive(Debug, Clone, PartialEq, Eq)]
pub enum SourceError {
    /// The file that the caller named exists and could not be read; holds the cause.
    ReadFailed(String),
}

impl SourceError {
    /// The text that describes the error.
    pub open spec fn message_text(&self) -> Seq<char> {
        match self {
            SourceError::ReadFailed(cause) => read_failure(cause@),
        }
    }

    /// Describes the error in words.
    pub fn message(&self) -> (text: String)
        ensures
            text@ == self.message_text(),
    {
        match self {
            SourceError::ReadFailed(cause) => read_failure_message(cause.as_str()),
        }
    }
}

/// What the engine evaluates for a registration, as its location and its text.
///
/// `file` says what was found where `source` is taken as a path: `None` where no file
/// exists there, else the file's content or the cause for which it could not be read.
/// Where a file exists, its content is evaluated under the file's own location; where none
/// exists, `source` itself is evaluated, under the module's name.
pub open spec fn source_of(
    name: Seq<char>,
    source: Seq<char>,
    file: Option<Result<Seq<char>, Seq<char>>>,
) -> Result<(Seq<char>, Seq<char>), Seq<char>> {
    match file {
        None => Ok((source_location(name, source, false), source)),
        Some(Ok(content)) => Ok((source_location(name, source, true), content)),
        Some(Err(cause)) => Err(cause),
    }
}

/// The contents of what was found at a path.
pub open spec fn file_view(file: Option<Result<String, String>>) -> Option<
    Result<Seq<char>, Seq<char>>,
> {
    match file {
        None => None,
        Some(Ok(content)) => Some(Ok(content@)),
        Some(Err(cause)) => Some(Err(cause@)),
    }
}

/// Decides what the engine evaluates for a registration.
pub fn module_source(name: &str, source: &str, file: Option<Result<String, String>>) -> (outcome:
    Result<ModuleSource, SourceError>)
    ensures
        match outcome {
            Ok(found) => source_of(name@, source@, file_view(file)) == Ok::<
                (Seq<char>, Seq<char>),
                Seq<char>,
            >((found.location@, found.code@)),
            Err(SourceError::ReadFailed(cause)) => source_of(name@, source@, file_view(file))
                == Err::<(Seq<char>, Seq<char>), Seq<char>>(cause@),
        },
{
    match file {
        None => Ok(
            ModuleSource { location: module_location(name, source, false), code: source.to_owned() },
        ),
        Some(Ok(content)) => Ok(
            ModuleSource { location: module_location(name, source, true), code: content },
        ),
        Some(Err(cause)) => Err(SourceError::ReadFailed(cause)),
    }
}

} // verus!
