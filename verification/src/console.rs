//! The line that the console prints for the arguments of a log call.

use vstd::prelude::*;
use vstd::string::*;
use crate::text::{chars_of, string_of};

verus! {

/// An argument of a log call, as far as the console looks at it.
#[derive(Debug, Clone, PartialEq, Eq)]
pub enum ConsoleArgument {
    Text(String),
    Null,
    Undefined,
    Boolean(bool),
    /// A number, by its decimal text.
    Number(String),
    /// An object: its JSON text, where it has one, and the name that it goes by, where
    /// it has a constructor and a name.
    Object { json: Option<String>, name: Option<String> },
    /// Any other value.
    Other,
}

/// The mathematical content of a [`ConsoleArgument`].
pub enum ConsoleArgumentView {
    Text(Seq<char>),
    Null,
    Undefined,
    Boolean(bool),
    Number(Seq<char>),
    Object { json: Option<Seq<char>>, name: Option<Seq<char>> },
    Other,
}

impl View for ConsoleArgument {
    type V = ConsoleArgumentView;

    open spec fn view(&self) -> ConsoleArgumentView {
        match self {
            ConsoleArgument::Text(text) => ConsoleArgumentView::Text(text@),
            ConsoleArgument::Null => ConsoleArgumentView::Null,
            ConsoleArgument::Undefined => ConsoleArgumentView::Undefined,
            ConsoleArgument::Boolean(value) => ConsoleArgumentView::Boolean(*value),
            ConsoleArgument::Number(text) => ConsoleArgumentView::Number(text@),
            ConsoleArgument::Object { json, name } => ConsoleArgumentView::Object {
                json: match json {
                    Some(text) => Some(text@),
                    None => None,
                },
                name: match name {
                    Some(text) => Some(text@),
                    None => None,
                },
            },
            ConsoleArgument::Other => ConsoleArgumentView::Other,
        }
    }
}

/// The text that the console prints for one argument. An object is printed as its JSON
/// text; an object without one as its name between `[class ` and `]`; an object with
/// neither, and any value of another kind, as nothing.
pub open spec fn printed(argument: ConsoleArgumentView) -> Seq<char> {
    match argument {
        ConsoleArgumentView::Text(text) => text,
        ConsoleArgumentView::Null => "null"@,
        ConsoleArgumentView::Undefined => "undefined"@,
        ConsoleArgumentView::Boolean(value) => if value {
            "true"@
        } else {
            "false"@
        },
        ConsoleArgumentView::Number(text) => text,
        ConsoleArgumentView::Object { json, name } => match json {
            Some(text) => text,
            None => match name {
                Some(text) => "[class "@ + text + "]"@,
                None => Seq::empty(),
            },
        },
        ConsoleArgumentView::Other => Seq::empty(),
    }
}

/// The line that the console prints for the first `n` arguments: their texts with one
/// space between each two.
pub open spec fn printed_line(arguments: Seq<ConsoleArgument>, n: int) -> Seq<char>
    decreases n,
{
    if n <= 0 {
        Seq::empty()
    } else if n == 1 {
        printed(arguments[0]@)
    } else {
        printed_line(arguments, n - 1) + seq![' '] + printed(arguments[n - 1]@)
    }
}

/// Appends the characters of a text.
fn push_text(out: &mut Vec<char>, text: &str)
    ensures
        final(out)@ == old(out)@ + text@,
{
    let chars = chars_of(text);
    let mut i: usize = 0;
    while i < chars.len()
        invariant
            i <= chars.len(),
            chars@ == text@,
            out@ == old(out)@ + chars@.subrange(0, i as int),
        decreases chars.len() - i,
    {
        out.push(chars[i]);
        i += 1;
        assert(out@ =~= old(out)@ + chars@.subrange(0, i as int));
    }
    assert(chars@.subrange(0, chars.len() as int) =~= chars@);
}

/// Appends the text that the console prints for one argument.
fn push_printed(out: &mut Vec<char>, argument: &ConsoleArgument)
    ensures
        final(out)@ == old(out)@ + printed(argument@),
{
    match argument {
        ConsoleArgument::Text(text) => push_text(out, text.as_str()),
        ConsoleArgument::Null => push_text(out, "null"),
        ConsoleArgument::Undefined => push_text(out, "undefined"),
        ConsoleArgument::Boolean(value) => {
            if *value {
                push_text(out, "true")
            } else {
                push_text(out, "false")
            }
        },
        ConsoleArgument::Number(text) => push_text(out, text.as_str()),
        ConsoleArgument::Object { json, name } => match json {
            Some(text) => push_text(out, text.as_str()),
            None => match name {
                Some(text) => {
                    push_text(out, "[class ");
                    push_text(out, text.as_str());
                    push_text(out, "]");
                    assert(final(out)@ =~= old(out)@ + ("[class "@ + text@ + "]"@));
                },
                None => {
                    assert(final(out)@ =~= old(out)@ + Seq::<char>::empty());
                },
            },
        },
        ConsoleArgument::Other => {
            assert(final(out)@ =~= old(out)@ + Seq::<char>::empty());
        },
    }
}

/// The line that the console prints for the arguments of a log call.
pub fn log_callback(arguments: &Vec<ConsoleArgument>) -> (line: String)
    ensures
        line@ == printed_line(arguments@, arguments@.len() as int),
{
    let mut out: Vec<char> = Vec::new();
    let mut i: usize = 0;
    while i < arguments.len()
        invariant
            i <= arguments.len(),
            out@ == printed_line(arguments@, i as int),
        decreases arguments.len() - i,
    {
        let ghost before = out@;
        if i > 0 {
            out.push(' ');
        }
        push_printed(&mut out, &arguments[i]);
        i += 1;
        proof {
            if i == 1 {
                assert(out@ =~= printed(arguments@[0]@));
            } else {
                assert(out@ =~= before + seq![' '] + printed(arguments@[i - 1]@));
            }
        }
    }
    string_of(&out)
}

/// The line that reports an exception: the exception's text, or a note that it has none.
pub open spec fn exception_line(exception: Option<Seq<char>>) -> Seq<char> {
    "V8 Exception: "@ + match exception {
        Some(text) => text,
        None => "Unknown exception"@,
    }
}

/// The line that reports the stack trace of an exception: the trace's text, or a note
/// that it has none.
pub open spec fn stack_trace_line(trace: Option<Seq<char>>) -> Seq<char> {
    "Stack trace: "@ + match trace {
        Some(text) => text,
        None => "No stack trace"@,
    }
}

/// The contents of an optional text.
pub open spec fn text_view(text: Option<String>) -> Option<Seq<char>> {
    match text {
        Some(t) => Some(t@),
        None => None,
    }
}

/// The lines that report what the engine caught.
///
/// `exception` is `None` where nothing was caught; else it holds the exception's text,
/// where the exception has one. `stack_trace` is `None` where the exception has no stack
/// trace; else it holds the trace's text, where the trace has one. Nothing is reported
/// where nothing was caught; else the exception is reported, and after it the stack trace
/// where there is one.
pub fn handle_v8_exception(exception: &Option<Option<String>>, stack_trace: &Option<
    Option<String>,
>) -> (lines: Vec<String>)
    ensures
        exception is None ==> lines@.len() == 0,
        exception is Some && stack_trace is None ==> lines@.len() == 1,
        exception is Some && stack_trace is Some ==> lines@.len() == 2,
        exception is Some ==> lines@[0]@ == exception_line(text_view(exception->0)),
        exception is Some && stack_trace is Some ==> lines@[1]@ == stack_trace_line(
            text_view(stack_trace->0),
        ),
{
    let mut lines: Vec<String> = Vec::new();
    match exception {
        None => {},
        Some(text) => {
            let line = match text {
                Some(t) => "V8 Exception: ".to_owned().concat(t.as_str()),
                None => "V8 Exception: ".to_owned().concat("Unknown exception"),
            };
            lines.push(line);
            match stack_trace {
                None => {},
                Some(trace) => {
                    let line = match trace {
                        Some(t) => "Stack trace: ".to_owned().concat(t.as_str()),
                        None => "Stack trace: ".to_owned().concat("No stack trace"),
                    };
                    lines.push(line);
                },
            }
        },
    }
    lines
}

} // verus!
