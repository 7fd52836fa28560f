//! The native message bridge: messages that script code posts to the host's port.
//!
//! A message is encoded as the object that the host's channel carries. Posting the object
//! is the caller's part; the outcome of the post goes back to the script as a boolean.

use vstd::prelude::*;
use vstd::string::*;
use vstd::utf8::*;
use crate::marshal::{copy_bytes, EngineValue, EngineValueView};
use crate::text::{chars_of, string_of};

verus! {

/// The options of the bridge: the handle of the host's native port.
#[derive(Debug, Clone, Copy, PartialEq, Eq, Structural)]
pub struct DartRuntimeOptions {
    pub send_port: i64,
}

/// A message from script code to the host.
#[derive(Debug, Clone, PartialEq, Eq)]
pub enum OutboundMessage {
    /// A plain string.
    Text(String),
    /// A callback identifier with textual data.
    Structured { callback_id: i32, data: String },
    /// A callback identifier with a binary payload.
    Binary { callback_id: i32, bytes: Vec<u8> },
}

/// The mathematical content of an [`OutboundMessage`].
pub enum OutboundMessageView {
    Text(Seq<char>),
    Structured { callback_id: i32, data: Seq<char> },
    Binary { callback_id: i32, bytes: Seq<u8> },
}

impl View for OutboundMessage {
    type V = OutboundMessageView;

    open spec fn view(&self) -> OutboundMessageView {
        match self {
            OutboundMessage::Text(text) => OutboundMessageView::Text(text@),
            OutboundMessage::Structured { callback_id, data } => OutboundMessageView::Structured {
                callback_id: *callback_id,
                data: data@,
            },
            OutboundMessage::Binary { callback_id, bytes } => OutboundMessageView::Binary {
                callback_id: *callback_id,
                bytes: bytes@,
            },
        }
    }
}

/// An element of an array that the host's channel carries.
#[derive(Debug, Clone, PartialEq, Eq)]
pub enum HostElement {
    Int32(i32),
    Uint8List(Vec<u8>),
}

/// The mathematical content of a [`HostElement`].
pub enum HostElementView {
    Int32(i32),
    Uint8List(Seq<u8>),
}

impl View for HostElement {
    type V = HostElementView;

    open spec fn view(&self) -> HostElementView {
        match self {
            HostElement::Int32(value) => HostElementView::Int32(*value),
            HostElement::Uint8List(bytes) => HostElementView::Uint8List(bytes@),
        }
    }
}

/// An object that the host's channel carries.
#[derive(Debug, Clone, PartialEq, Eq)]
pub enum HostObject {
    Text(String),
    Uint8List(Vec<u8>),
    Array(Vec<HostElement>),
}

/// The mathematical content of a [`HostObject`].
pub enum HostObjectView {
    Text(Seq<char>),
    Uint8List(Seq<u8>),
    Array(Seq<HostElementView>),
}

impl View for HostObject {
    type V = HostObjectView;

    open spec fn view(&self) -> HostObjectView {
        match self {
            HostObject::Text(text) => HostObjectView::Text(text@),
            HostObject::Uint8List(bytes) => HostObjectView::Uint8List(bytes@),
            HostObject::Array(elements) => HostObjectView::Array(
                Seq::new(elements@.len(), |i: int| elements@[i]@),
            ),
        }
    }
}

/// The character of a decimal digit.
pub open spec fn digit_char(digit: int) -> char {
    if digit == 0 {
        '0'
    } else if digit == 1 {
        '1'
    } else if digit == 2 {
        '2'
    } else if digit == 3 {
        '3'
    } else if digit == 4 {
        '4'
    } else if digit == 5 {
        '5'
    } else if digit == 6 {
        '6'
    } else if digit == 7 {
        '7'
    } else if digit == 8 {
        '8'
    } else {
        '9'
    }
}

/// The decimal digits of a natural number, without leading zeros.
pub open spec fn decimal_digits(value: nat) -> Seq<char>
    decreases value,
{
    if value < 10 {
        seq![digit_char(value as int)]
    } else {
        decimal_digits(value / 10).push(digit_char((value % 10) as int))
    }
}

/// The decimal text of an integer: a minus sign for a negative one, then its digits.
pub open spec fn decimal_text(value: int) -> Seq<char> {
    if value < 0 {
        seq!['-'] + decimal_digits((-value) as nat)
    } else {
        decimal_digits(value as nat)
    }
}

/// The character of a hexadecimal digit, in lower case.
pub open spec fn hex_char(digit: int) -> char {
    if digit < 10 {
        digit_char(digit)
    } else if digit == 10 {
        'a'
    } else if digit == 11 {
        'b'
    } else if digit == 12 {
        'c'
    } else if digit == 13 {
        'd'
    } else if digit == 14 {
        'e'
    } else {
        'f'
    }
}

/// How a character stands inside a JSON string: the quotation mark and the reverse
/// solidus behind a reverse solidus, a control character as its short escape or as
/// `\u00` and two hexadecimal digits, any other character as itself.
pub open spec fn escaped_char(c: char) -> Seq<char> {
    if c == '"' {
        seq!['\\', '"']
    } else if c == '\\' {
        seq!['\\', '\\']
    } else if c == '\u{8}' {
        seq!['\\', 'b']
    } else if c == '\u{c}' {
        seq!['\\', 'f']
    } else if c == '\n' {
        seq!['\\', 'n']
    } else if c == '\r' {
        seq!['\\', 'r']
    } else if c == '\t' {
        seq!['\\', 't']
    } else if (c as u32) < 0x20 {
        seq!['\\', 'u', '0', '0', hex_char((c as u32) as int / 16), hex_char((c as u32) as int % 16)]
    } else {
        seq![c]
    }
}

/// The first `n` characters of `text` as they stand inside a JSON string.
pub open spec fn escaped_prefix(text: Seq<char>, n: int) -> Seq<char>
    decreases n,
{
    if n <= 0 {
        Seq::empty()
    } else {
        escaped_prefix(text, n - 1) + escaped_char(text[n - 1])
    }
}

/// A text as a JSON string, between quotation marks.
pub open spec fn json_string(text: Seq<char>) -> Seq<char> {
    seq!['"'] + escaped_prefix(text, text.len() as int) + seq!['"']
}

/// The compact JSON text of a structured message: an object with the callback
/// identifier under `callbackId` and the data under `data`, without white space.
pub open spec fn structured_json(callback_id: i32, data: Seq<char>) -> Seq<char> {
    "{\"callbackId\":"@ + decimal_text(callback_id as int) + ",\"data\":"@ + json_string(data)
        + "}"@
}

/// The object that carries a message: a plain string as itself; a structured message as
/// the UTF-8 bytes of its compact JSON text; a binary message as an array of the callback
/// identifier and the bytes.
pub open spec fn encoded(message: OutboundMessageView) -> HostObjectView {
    match message {
        OutboundMessageView::Text(text) => HostObjectView::Text(text),
        OutboundMessageView::Structured { callback_id, data } => HostObjectView::Uint8List(
            encode_utf8(structured_json(callback_id, data)),
        ),
        OutboundMessageView::Binary { callback_id, bytes } => HostObjectView::Array(
            seq![HostElementView::Int32(callback_id), HostElementView::Uint8List(bytes)],
        ),
    }
}

/// The character of a decimal digit.
fn digit(value: u64) -> (c: char)
    requires
        value < 10,
    ensures
        c == digit_char(value as int),
{
    if value == 0 {
        '0'
    } else if value == 1 {
        '1'
    } else if value == 2 {
        '2'
    } else if value == 3 {
        '3'
    } else if value == 4 {
        '4'
    } else if value == 5 {
        '5'
    } else if value == 6 {
        '6'
    } else if value == 7 {
        '7'
    } else if value == 8 {
        '8'
    } else {
        '9'
    }
}

/// The character of a hexadecimal digit, in lower case.
fn hex_digit(value: u64) -> (c: char)
    requires
        value < 16,
    ensures
        c == hex_char(value as int),
{
    if value < 10 {
        digit(value)
    } else if value == 10 {
        'a'
    } else if value == 11 {
        'b'
    } else if value == 12 {
        'c'
    } else if value == 13 {
        'd'
    } else if value == 14 {
        'e'
    } else {
        'f'
    }
}

/// Appends the decimal digits of a number.
fn push_digits(out: &mut Vec<char>, value: u64)
    ensures
        final(out)@ == old(out)@ + decimal_digits(value as nat),
    decreases value,
{
    if value >= 10 {
        push_digits(out, value / 10);
    }
    out.push(digit(value % 10));
    assert(final(out)@ =~= old(out)@ + decimal_digits(value as nat));
}

/// Appends the decimal text of a 32-bit integer.
pub fn push_decimal(out: &mut Vec<char>, value: i32)
    ensures
        final(out)@ == old(out)@ + decimal_text(value as int),
{
    if value < 0 {
        out.push('-');
        let magnitude: u64 = (-(value as i64)) as u64;
        push_digits(out, magnitude);
        assert(final(out)@ =~= old(out)@ + decimal_text(value as int));
    } else {
        push_digits(out, value as u64);
    }
}

/// Appends a character as it stands inside a JSON string.
fn push_escaped_char(out: &mut Vec<char>, c: char)
    ensures
        final(out)@ == old(out)@ + escaped_char(c),
{
    if c == '"' {
        out.push('\\');
        out.push('"');
    } else if c == '\\' {
        out.push('\\');
        out.push('\\');
    } else if c == '\u{8}' {
        out.push('\\');
        out.push('b');
    } else if c == '\u{c}' {
        out.push('\\');
        out.push('f');
    } else if c == '\n' {
        out.push('\\');
        out.push('n');
    } else if c == '\r' {
        out.push('\\');
        out.push('r');
    } else if c == '\t' {
        out.push('\\');
        out.push('t');
    } else if (c as u32) < 0x20 {
        let code: u64 = (c as u32) as u64;
        out.push('\\');
        out.push('u');
        out.push('0');
        out.push('0');
        out.push(hex_digit(code / 16));
        out.push(hex_digit(code % 16));
    } else {
        out.push(c);
    }
    assert(final(out)@ =~= old(out)@ + escaped_char(c));
}

/// Appends a text as a JSON string, between quotation marks.
pub fn push_json_string(out: &mut Vec<char>, text: &Vec<char>)
    ensures
        final(out)@ == old(out)@ + json_string(text@),
{
    out.push('"');
    let mut i: usize = 0;
    while i < text.len()
        invariant
            i <= text.len(),
            out@ == old(out)@ + seq!['"'] + escaped_prefix(text@, i as int),
        decreases text.len() - i,
    {
        let ghost before = out@;
        push_escaped_char(out, text[i]);
        i += 1;
        assert(out@ =~= old(out)@ + seq!['"'] + escaped_prefix(text@, i as int));
    }
    out.push('"');
    assert(out@ =~= old(out)@ + json_string(text@));
}

/// Appends the characters of a text.
fn push_chars(out: &mut Vec<char>, text: &Vec<char>)
    ensures
        final(out)@ == old(out)@ + text@,
{
    let mut i: usize = 0;
    while i < text.len()
        invariant
            i <= text.len(),
            out@ == old(out)@ + text@.subrange(0, i as int),
        decreases text.len() - i,
    {
        out.push(text[i]);
        i += 1;
        assert(out@ =~= old(out)@ + text@.subrange(0, i as int));
    }
    assert(text@.subrange(0, text.len() as int) =~= text@);
}

/// The compact JSON text of a structured message.
pub fn structured_text(callback_id: i32, data: &str) -> (json: String)
    ensures
        json@ == structured_json(callback_id, data@),
{
    let mut out: Vec<char> = Vec::new();
    push_chars(&mut out, &chars_of("{\"callbackId\":"));
    push_decimal(&mut out, callback_id);
    push_chars(&mut out, &chars_of(",\"data\":"));
    push_json_string(&mut out, &chars_of(data));
    push_chars(&mut out, &chars_of("}"));
    assert(out@ =~= structured_json(callback_id, data@));
    string_of(&out)
}

impl OutboundMessage {
    /// Encodes the message as the object that the host's channel carries.
    pub fn encode(&self) -> (object: HostObject)
        ensures
            object@ == encoded(self@),
    {
        match self {
            OutboundMessage::Text(text) => HostObject::Text(text.clone()),
            OutboundMessage::Structured { callback_id, data } => {
                let json = structured_text(*callback_id, data.as_str());
                HostObject::Uint8List(json.as_str().as_bytes_vec())
            },
            OutboundMessage::Binary { callback_id, bytes } => {
                let mut elements: Vec<HostElement> = Vec::new();
                elements.push(HostElement::Int32(*callback_id));
                elements.push(HostElement::Uint8List(copy_bytes(bytes)));
                let object = HostObject::Array(elements);
                assert(object@ =~= encoded(self@)) by {
                    let view = Seq::new(elements@.len(), |i: int| elements@[i]@);
                    assert(view =~= seq![
                        HostElementView::Int32(*callback_id),
                        HostElementView::Uint8List(bytes@),
                    ]);
                }
                object
            },
        }
    }
}

/// What the script sees of a post: `true` where the host's channel took the message,
/// `false` where it did not. A failed post is no exception.
pub fn post_result(delivered: bool) -> (value: EngineValue)
    ensures
        value@ == EngineValueView::Boolean(delivered),
{
    EngineValue::Boolean(delivered)
}

/// Whether a character is a decimal digit.
pub open spec fn is_digit(c: char) -> bool {
    '0' <= c && c <= '9'
}

/// The value of a decimal digit.
pub open spec fn digit_value(c: char) -> int {
    (c as u32) as int - 48
}

/// The number that the first `n` characters of `digits` write in decimal.
pub open spec fn digits_value(digits: Seq<char>, n: int) -> int
    decreases n,
{
    if n <= 0 {
        0
    } else {
        digits_value(digits, n - 1) * 10 + digit_value(digits[n - 1])
    }
}

/// Whether a text holds decimal digits only.
pub open spec fn all_digits(text: Seq<char>) -> bool {
    forall|i: int| 0 <= i < text.len() ==> is_digit(#[trigger] text[i])
}

/// Whether a text begins with a sign.
pub open spec fn has_sign(text: Seq<char>) -> bool {
    text.len() > 0 && (text[0] == '-' || text[0] == '+')
}

/// The digits of a text: what follows its sign, or all of it where it has none.
pub open spec fn unsigned_part(text: Seq<char>) -> Seq<char> {
    if has_sign(text) {
        text.subrange(1, text.len() as int)
    } else {
        text
    }
}

/// The integer that a text writes in decimal: an optional sign, then one digit at least
/// and digits only.
pub open spec fn parsed_integer(text: Seq<char>) -> Option<int> {
    let digits = unsigned_part(text);
    if digits.len() == 0 || !all_digits(digits) {
        None
    } else if text[0] == '-' {
        Some(-digits_value(digits, digits.len() as int))
    } else {
        Some(digits_value(digits, digits.len() as int))
    }
}

/// The port handle that a text writes: its integer, where that fits in 64 bits.
pub open spec fn parsed_port(text: Seq<char>) -> Option<i64> {
    match parsed_integer(text) {
        Some(value) => if i64::MIN <= value <= i64::MAX {
            Some(value as i64)
        } else {
            None
        },
        None => None,
    }
}

/// The number that digits write does not shrink as more digits are read.
pub proof fn lemma_digits_value_grows(digits: Seq<char>, i: int, n: int)
    requires
        0 <= i <= n <= digits.len(),
        all_digits(digits),
    ensures
        0 <= digits_value(digits, i) <= digits_value(digits, n),
    decreases n,
{
    if n > 0 {
        assert(is_digit(digits[n - 1]));
        if i < n {
            lemma_digits_value_grows(digits, i, n - 1);
        } else {
            lemma_digits_value_grows(digits, n - 1, n - 1);
        }
    }
}

/// Reads a port handle from its decimal text.
pub fn parse_port(text: &str) -> (port: Option<i64>)
    ensures
        port == parsed_port(text@),
{
    let chars = chars_of(text);
    let negative = chars.len() > 0 && chars[0] == '-';
    let start: usize = if chars.len() > 0 && (chars[0] == '-' || chars[0] == '+') {
        1
    } else {
        0
    };
    let ghost digits = unsigned_part(text@);
    assert(digits =~= chars@.subrange(start as int, chars@.len() as int));
    if start == chars.len() {
        return None;
    }
    let limit: u64 = if negative {
        9223372036854775808
    } else {
        9223372036854775807
    };
    let mut magnitude: u64 = 0;
    let mut i: usize = start;
    while i < chars.len()
        invariant
            start <= i <= chars.len(),
            digits == chars@.subrange(start as int, chars@.len() as int),
            digits == unsigned_part(text@),
            digits.len() > 0,
            text@.len() > 0,
            negative == (text@[0] == '-'),
            negative ==> limit == 9223372036854775808,
            !negative ==> limit == 9223372036854775807,
            forall|k: int| 0 <= k < i - start ==> is_digit(#[trigger] digits[k]),
            magnitude == digits_value(digits, i - start),
            magnitude <= limit,
            limit == 9223372036854775808 || limit == 9223372036854775807,
        decreases chars.len() - i,
    {
        let c = chars[i];
        assert(digits[i - start] == c);
        if !(c >= '0' && c <= '9') {
            assert(!is_digit(digits[i - start]));
            return None;
        }
        let d: u64 = ((c as u32) - 48) as u64;
        if magnitude > (limit - d) / 10 {
            proof {
                assert(magnitude * 10 + d > limit);
                assert(digit_value(digits[i - start]) == d);
                assert(digits_value(digits, i - start + 1) == magnitude * 10 + d);
                if all_digits(digits) {
                    lemma_digits_value_grows(digits, i - start + 1, digits.len() as int);
                }
            }
            return None;
        }
        magnitude = magnitude * 10 + d;
        i += 1;
    }
    assert(all_digits(digits));
    if negative {
        if magnitude == 9223372036854775808 {
            Some(i64::MIN)
        } else {
            Some(-(magnitude as i64))
        }
    } else {
        Some(magnitude as i64)
    }
}

/// What a script posts with a port given as text: the port handle and the object that
/// carries the message, where the text writes a port handle.
pub fn send_to_port(port: &str, message: &str) -> (post: Option<(i64, HostObject)>)
    ensures
        match post {
            Some((handle, object)) => parsed_port(port@) == Some(handle) && object@
                == HostObjectView::Text(message@),
            None => parsed_port(port@) is None,
        },
{
    match parse_port(port) {
        Some(handle) => Some((handle, HostObject::Text(message.to_owned()))),
        None => None,
    }
}

} // verus!
