//! The options of an outbound request, as script code passes them.

use vstd::prelude::*;
use vstd::string::*;
use crate::bridge::{PendingCall, SettlementView};
use crate::paths::same_chars;
use crate::text::chars_of;

verus! {

/// The text that `str::to_uppercase` gives for a text.
pub uninterp spec fn uppercase_of(text: Seq<char>) -> Seq<char>;

/// Converts a text to upper case.
///
/// Trusted: the body calls `str::to_uppercase` of the standard library. The contract
/// claims only that the result is a function of the text, and calls that function
/// [`uppercase_of`].
#[verifier::external_body]
pub(crate) fn to_uppercase(text: &str) -> (upper: String)
    ensures
        upper@ == uppercase_of(text@),
{
    text.to_uppercase()
}

/// Whether a character may stand in the name of a request method: a letter, a digit, or
/// one of ``! # $ % & ' * + - . ^ _ ` | ~``.
pub open spec fn is_method_char(c: char) -> bool {
    ||| ('a' <= c && c <= 'z')
    ||| ('A' <= c && c <= 'Z')
    ||| ('0' <= c && c <= '9')
    ||| c == '!'
    ||| c == '#'
    ||| c == '$'
    ||| c == '%'
    ||| c == '&'
    ||| c == '\''
    ||| c == '*'
    ||| c == '+'
    ||| c == '-'
    ||| c == '.'
    ||| c == '^'
    ||| c == '_'
    ||| c == '`'
    ||| c == '|'
    ||| c == '~'
}

/// Whether a text is the name of a request method: it is not empty and holds method
/// characters only.
pub open spec fn is_method_text(text: Seq<char>) -> bool {
    text.len() > 0 && forall|i: int| 0 <= i < text.len() ==> is_method_char(#[trigger] text[i])
}

/// Whether a text is accepted as the name of a request method.
///
/// Trusted: the body calls `reqwest::Method::from_bytes` on the bytes of the text, which
/// refuses the empty text and every text with a byte outside its table of method
/// characters, and accepts every other text, as a standard method or as an extension
/// method.
#[verifier::external_body]
pub(crate) fn method_parses(text: &str) -> (accepted: bool)
    ensures
        accepted == is_method_text(text@),
{
    reqwest::Method::from_bytes(text.as_bytes()).is_ok()
}

/// The options of a request.
#[derive(Debug, Clone, PartialEq, Eq)]
pub struct FetchOptions {
    /// The name of the request method, in upper case.
    pub method: String,
    pub headers: Option<String>,
    pub body: Option<String>,
}

/// The mathematical content of a [`FetchOptions`].
pub struct FetchOptionsView {
    pub method: Seq<char>,
    pub headers: Option<Seq<char>>,
    pub body: Option<Seq<char>>,
}

impl View for FetchOptions {
    type V = FetchOptionsView;

    open spec fn view(&self) -> FetchOptionsView {
        FetchOptionsView {
            method: self.method@,
            headers: match self.headers {
                Some(text) => Some(text@),
                None => None,
            },
            body: match self.body {
                Some(text) => Some(text@),
                None => None,
            },
        }
    }
}

/// Why options are refused.
#[derive(Debug, Clone, PartialEq, Eq)]
pub enum FetchError {
    /// The method is not the name of a request method; holds the method as it was given.
    InvalidMethod(String),
}

/// The mathematical content of a [`FetchError`].
pub enum FetchErrorView {
    InvalidMethod(Seq<char>),
}

impl View for FetchError {
    type V = FetchErrorView;

    open spec fn view(&self) -> FetchErrorView {
        match self {
            FetchError::InvalidMethod(method) => FetchErrorView::InvalidMethod(method@),
        }
    }
}

impl FetchErrorView {
    /// The text that describes the error.
    pub open spec fn message(self) -> Seq<char> {
        match self {
            FetchErrorView::InvalidMethod(method) => "Invalid HTTP method: "@ + method,
        }
    }
}

impl FetchError {
    /// Describes the error in words.
    pub fn message(&self) -> (text: String)
        ensures
            text@ == self@.message(),
    {
        match self {
            FetchError::InvalidMethod(method) => "Invalid HTTP method: ".to_owned().concat(
                method.as_str(),
            ),
        }
    }
}

/// The name of a request method for the text that a script gave: the text in upper case,
/// where that is the name of a request method.
pub open spec fn method_of(given: Seq<char>, upper: Seq<char>) -> Result<
    Seq<char>,
    FetchErrorView,
> {
    if is_method_text(upper) {
        Ok(upper)
    } else {
        Err(FetchErrorView::InvalidMethod(given))
    }
}

/// Decides on a request method, given the text that a script gave and the same text in
/// upper case.
pub fn checked_method(given: &str, upper: String) -> (outcome: Result<String, FetchError>)
    ensures
        match outcome {
            Ok(method) => method_of(given@, upper@) == Ok::<Seq<char>, FetchErrorView>(method@),
            Err(error) => method_of(given@, upper@) == Err::<Seq<char>, FetchErrorView>(error@),
        },
{
    if method_parses(upper.as_str()) {
        Ok(upper)
    } else {
        Err(FetchError::InvalidMethod(given.to_owned()))
    }
}

/// The name of a request method for the text that a script gave. Lower and upper case
/// count alike.
pub fn string_to_method(method: &str) -> (outcome: Result<String, FetchError>)
    ensures
        match outcome {
            Ok(name) => method_of(method@, uppercase_of(method@)) == Ok::<
                Seq<char>,
                FetchErrorView,
            >(name@),
            Err(error) => method_of(method@, uppercase_of(method@)) == Err::<
                Seq<char>,
                FetchErrorView,
            >(error@),
        },
{
    checked_method(method, to_uppercase(method))
}

/// The options of a request for which the script gave none: the method `GET`, no
/// headers, no body.
pub open spec fn default_options() -> FetchOptionsView {
    FetchOptionsView { method: "GET"@, headers: None, body: None }
}

/// The options after one more property of the script's options object is read. The
/// properties `method`, `headers` and `body` count; every other property is passed over.
pub open spec fn with_property(options: FetchOptionsView, key: Seq<char>, value: Seq<char>)
    -> Result<FetchOptionsView, FetchErrorView> {
    if key == "method"@ {
        match method_of(value, uppercase_of(value)) {
            Ok(method) => Ok(FetchOptionsView { method, ..options }),
            Err(error) => Err(error),
        }
    } else if key == "headers"@ {
        Ok(FetchOptionsView { headers: Some(value), ..options })
    } else if key == "body"@ {
        Ok(FetchOptionsView { body: Some(value), ..options })
    } else {
        Ok(options)
    }
}

/// The options after the first `n` properties are read in order. The first method that
/// is refused ends the reading.
pub open spec fn options_after(properties: Seq<(String, String)>, n: int) -> Result<
    FetchOptionsView,
    FetchErrorView,
>
    decreases n,
{
    if n <= 0 {
        Ok(default_options())
    } else {
        match options_after(properties, n - 1) {
            Ok(options) => with_property(options, properties[n - 1].0@, properties[n - 1].1@),
            Err(error) => Err(error),
        }
    }
}

/// Reads the options of a request from the properties of the script's options object,
/// each given as its name and its value as text. A script that gives no options object has
/// no properties.
pub fn fetch_options_to_rust(properties: &Vec<(String, String)>) -> (outcome: Result<
    FetchOptions,
    FetchError,
>)
    ensures
        match outcome {
            Ok(options) => options_after(properties@, properties@.len() as int) == Ok::<
                FetchOptionsView,
                FetchErrorView,
            >(options@),
            Err(error) => options_after(properties@, properties@.len() as int) == Err::<
                FetchOptionsView,
                FetchErrorView,
            >(error@),
        },
{
    let mut options = FetchOptions { method: "GET".to_owned(), headers: None, body: None };
    let mut i: usize = 0;
    while i < properties.len()
        invariant
            i <= properties.len(),
            options_after(properties@, i as int) == Ok::<FetchOptionsView, FetchErrorView>(
                options@,
            ),
        decreases properties.len() - i,
    {
        let key = chars_of(properties[i].0.as_str());
        let value = &properties[i].1;
        if same_chars(&key, &chars_of("method")) {
            match string_to_method(value.as_str()) {
                Ok(method) => {
                    options.method = method;
                },
                Err(error) => {
                    proof {
                        lemma_error_stays(properties@, i + 1, properties@.len() as int);
                    }
                    return Err(error);
                },
            }
        } else if same_chars(&key, &chars_of("headers")) {
            options.headers = Some(value.clone());
        } else if same_chars(&key, &chars_of("body")) {
            options.body = Some(value.clone());
        }
        i += 1;
    }
    Ok(options)
}

/// Once a method has been refused, reading further properties changes nothing.
pub proof fn lemma_error_stays(properties: Seq<(String, String)>, failed: int, n: int)
    requires
        0 <= failed <= n,
        options_after(properties, failed) is Err,
    ensures
        options_after(properties, n) == options_after(properties, failed),
    decreases n - failed,
{
    if failed < n {
        lemma_error_stays(properties, failed, n - 1);
    }
}

/// What is done for a request once its promise is handed to the script.
#[derive(Debug, Clone, PartialEq, Eq)]
pub enum FetchPlan {
    /// Make the request with these options, and hand its outcome to
    /// [`PendingCall::settle`].
    Request(FetchOptions),
    /// Make no request: hand this failure to [`PendingCall::settle`] at once.
    Refuse(String),
}

/// The mathematical content of a [`FetchPlan`].
pub enum FetchPlanView {
    Request(FetchOptionsView),
    Refuse(Seq<char>),
}

impl View for FetchPlan {
    type V = FetchPlanView;

    open spec fn view(&self) -> FetchPlanView {
        match self {
            FetchPlan::Request(options) => FetchPlanView::Request(options@),
            FetchPlan::Refuse(failure) => FetchPlanView::Refuse(failure@),
        }
    }
}

/// The plan for a request with the given properties: the request with its options, or,
/// where the options are refused, the failure that describes why.
pub open spec fn planned(properties: Seq<(String, String)>) -> FetchPlanView {
    match options_after(properties, properties.len() as int) {
        Ok(options) => FetchPlanView::Request(options),
        Err(error) => FetchPlanView::Refuse(error.message()),
    }
}

/// Begins a request for a script: opens the call for the promise that the script gets
/// back, and reads the options that the script gave. The promise is pending on every
/// path. It is settled through [`PendingCall::settle`] alone: with the outcome of the
/// request, or, where the options are refused, with the failure that the plan holds.
pub fn fetch(promise: u64, properties: &Vec<(String, String)>) -> (begun: (PendingCall, FetchPlan))
    ensures
        begun.0.promise() == promise,
        begun.0.settlement() == SettlementView::Pending,
        begun.1@ == planned(properties@),
{
    let call = PendingCall::new(promise);
    match fetch_options_to_rust(properties) {
        Ok(options) => (call, FetchPlan::Request(options)),
        Err(error) => (call, FetchPlan::Refuse(error.message())),
    }
}

} // verus!
