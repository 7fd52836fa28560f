//! Tagged native arguments and their conversion into engine values.
//!
//! A native caller describes each argument by a pointer, a type tag and a byte size. The
//! memory behind the pointer is read by the caller of this module, which is told by
//! [`plan_read`] what to read; everything else (the dispatch on the tag, the policy for null
//! pointers and malformed data, the composition of argument lists) is decided here.

use vstd::prelude::*;
use vstd::utf8::*;
use crate::text::utf8_to_string;

verus! {

/// The type tag that accompanies each native argument.
#[derive(Debug, Clone, Copy, PartialEq, Eq, Structural)]
pub enum FFITypeId {
    Nothing,
    String,
    Integer,
    Double,
    Bool,
    Bytes,
}

impl FFITypeId {
    /// The tag that the wire value `value` stands for, if it is in the known range.
    pub open spec fn of_wire(value: int) -> Option<FFITypeId> {
        if value == 0 {
            Some(FFITypeId::Nothing)
        } else if value == 1 {
            Some(FFITypeId::String)
        } else if value == 2 {
            Some(FFITypeId::Integer)
        } else if value == 3 {
            Some(FFITypeId::Double)
        } else if value == 4 {
            Some(FFITypeId::Bool)
        } else if value == 5 {
            Some(FFITypeId::Bytes)
        } else {
            None
        }
    }

    /// The wire value of a tag.
    pub open spec fn wire(self) -> int {
        match self {
            FFITypeId::Nothing => 0,
            FFITypeId::String => 1,
            FFITypeId::Integer => 2,
            FFITypeId::Double => 3,
            FFITypeId::Bool => 4,
            FFITypeId::Bytes => 5,
        }
    }

    /// Decodes a wire tag; values outside `0..=5` give `None`.
    pub fn from_i32(value: i32) -> (tag: Option<FFITypeId>)
        ensures
            tag == Self::of_wire(value as int),
    {
        match value {
            0 => Some(FFITypeId::Nothing),
            1 => Some(FFITypeId::String),
            2 => Some(FFITypeId::Integer),
            3 => Some(FFITypeId::Double),
            4 => Some(FFITypeId::Bool),
            5 => Some(FFITypeId::Bytes),
            _ => None,
        }
    }

    /// Encodes a tag as its wire value.
    pub fn to_i32(self) -> (value: i32)
        ensures
            value as int == self.wire(),
            Self::of_wire(value as int) == Some(self),
    {
        match self {
            FFITypeId::Nothing => 0,
            FFITypeId::String => 1,
            FFITypeId::Integer => 2,
            FFITypeId::Double => 3,
            FFITypeId::Bool => 4,
            FFITypeId::Bytes => 5,
        }
    }
}

/// What has to be read from native memory for one argument.
#[derive(Debug, Clone, Copy, PartialEq, Eq, Structural)]
pub enum ReadRequest {
    /// Nothing is read: the argument is decided by the pointer and the tag alone.
    Nothing,
    /// The bytes at the pointer up to a NUL terminator.
    CString,
    /// A 4-byte signed integer at the pointer.
    Int32,
    /// An 8-byte float at the pointer, handed over as its bit pattern.
    Float64,
    /// That many bytes at the pointer.
    Bytes(usize),
}

/// What was read from native memory for one argument.
#[derive(Debug, Clone, PartialEq, Eq)]
pub enum NativeRead {
    Nothing,
    /// The bytes found at the pointer; a NUL byte among them ends the string.
    CString(Vec<u8>),
    Int32(i32),
    /// The bit pattern of the 8-byte float.
    Float64(u64),
    Bytes(Vec<u8>),
}

/// The mathematical content of a [`NativeRead`].
pub enum NativeReadView {
    Nothing,
    CString(Seq<u8>),
    Int32(i32),
    Float64(u64),
    Bytes(Seq<u8>),
}

impl View for NativeRead {
    type V = NativeReadView;

    open spec fn view(&self) -> NativeReadView {
        match self {
            NativeRead::Nothing => NativeReadView::Nothing,
            NativeRead::CString(b) => NativeReadView::CString(b@),
            NativeRead::Int32(v) => NativeReadView::Int32(*v),
            NativeRead::Float64(v) => NativeReadView::Float64(*v),
            NativeRead::Bytes(b) => NativeReadView::Bytes(b@),
        }
    }
}

/// One native argument: the raw triple and what was read behind its pointer.
#[derive(Debug, Clone, PartialEq, Eq)]
pub struct NativeArgument {
    /// The pointer's address; zero is the null pointer.
    pub pointer: usize,
    /// The type tag as it came over the wire.
    pub tag: i32,
    /// The byte size, meaningful for byte buffers only.
    pub size: isize,
    /// What was read at the pointer, as [`plan_read`] asked.
    pub data: NativeRead,
}

/// A decoded native argument.
#[derive(Debug, Clone, PartialEq, Eq)]
pub enum TaggedArgument {
    /// No usable value: the tag says so, or the triple was malformed.
    Nothing,
    String(String),
    Integer(i32),
    /// A 64-bit float, held as its bit pattern.
    Double(u64),
    Bool(bool),
    Bytes(Vec<u8>),
}

/// The mathematical content of a [`TaggedArgument`].
pub enum TaggedArgumentView {
    Nothing,
    String(Seq<char>),
    Integer(i32),
    Double(u64),
    Bool(bool),
    Bytes(Seq<u8>),
}

impl View for TaggedArgument {
    type V = TaggedArgumentView;

    open spec fn view(&self) -> TaggedArgumentView {
        match self {
            TaggedArgument::Nothing => TaggedArgumentView::Nothing,
            TaggedArgument::String(s) => TaggedArgumentView::String(s@),
            TaggedArgument::Integer(v) => TaggedArgumentView::Integer(*v),
            TaggedArgument::Double(v) => TaggedArgumentView::Double(*v),
            TaggedArgument::Bool(v) => TaggedArgumentView::Bool(*v),
            TaggedArgument::Bytes(b) => TaggedArgumentView::Bytes(b@),
        }
    }
}

/// A value as the engine is asked to construct it.
#[derive(Debug, Clone, PartialEq, Eq)]
pub enum EngineValue {
    Undefined,
    Text(String),
    Integer(i32),
    /// A number, held as the bit pattern of a 64-bit float.
    Number(u64),
    Boolean(bool),
    /// A binary buffer that owns a copy of the bytes.
    Buffer(Vec<u8>),
    /// The persistent state of a registered module, by its handle.
    State(u64),
}

/// The mathematical content of an [`EngineValue`].
pub enum EngineValueView {
    Undefined,
    Text(Seq<char>),
    Integer(i32),
    Number(u64),
    Boolean(bool),
    Buffer(Seq<u8>),
    State(u64),
}

impl View for EngineValue {
    type V = EngineValueView;

    open spec fn view(&self) -> EngineValueView {
        match self {
            EngineValue::Undefined => EngineValueView::Undefined,
            EngineValue::Text(s) => EngineValueView::Text(s@),
            EngineValue::Integer(v) => EngineValueView::Integer(*v),
            EngineValue::Number(v) => EngineValueView::Number(*v),
            EngineValue::Boolean(v) => EngineValueView::Boolean(*v),
            EngineValue::Buffer(b) => EngineValueView::Buffer(b@),
            EngineValue::State(h) => EngineValueView::State(*h),
        }
    }
}

/// The contents of a list of engine values.
pub open spec fn values_view(values: Seq<EngineValue>) -> Seq<EngineValueView> {
    Seq::new(values.len(), |i: int| values[i]@)
}

/// What [`plan_read`] answers for a raw triple.
pub open spec fn read_request_of(pointer: usize, tag: i32, size: isize) -> ReadRequest {
    if pointer == 0 {
        ReadRequest::Nothing
    } else {
        match FFITypeId::of_wire(tag as int) {
            Some(FFITypeId::String) => ReadRequest::CString,
            Some(FFITypeId::Integer) => ReadRequest::Int32,
            Some(FFITypeId::Double) => ReadRequest::Float64,
            Some(FFITypeId::Bytes) => if size >= 0 {
                ReadRequest::Bytes(size as usize)
            } else {
                ReadRequest::Nothing
            },
            _ => ReadRequest::Nothing,
        }
    }
}

/// Says what has to be read behind the pointer of a raw triple. Nothing is read behind a
/// null pointer, for a tag that carries no data, for an unknown tag, or for a byte buffer
/// of negative size.
pub fn plan_read(pointer: usize, tag: i32, size: isize) -> (request: ReadRequest)
    ensures
        request == read_request_of(pointer, tag, size),
{
    if pointer == 0 {
        return ReadRequest::Nothing;
    }
    match FFITypeId::from_i32(tag) {
        Some(FFITypeId::String) => ReadRequest::CString,
        Some(FFITypeId::Integer) => ReadRequest::Int32,
        Some(FFITypeId::Double) => ReadRequest::Float64,
        Some(FFITypeId::Bytes) => {
            if size >= 0 {
                ReadRequest::Bytes(size as usize)
            } else {
                ReadRequest::Nothing
            }
        },
        _ => ReadRequest::Nothing,
    }
}

/// The index of the first NUL byte of `bytes` at or after `from`, or the length of `bytes`
/// if there is none.
pub open spec fn nul_index(bytes: Seq<u8>, from: int) -> int
    decreases bytes.len() - from,
{
    if from < 0 || from >= bytes.len() {
        bytes.len() as int
    } else if bytes[from] == 0 {
        from
    } else {
        nul_index(bytes, from + 1)
    }
}

/// The bytes of a C string: those before the first NUL byte.
pub open spec fn c_string_bytes(bytes: Seq<u8>) -> Seq<u8> {
    bytes.subrange(0, nul_index(bytes, 0))
}

/// The index computed by [`nul_index`] lies within the bytes, no byte before it is NUL, and
/// the byte at it, if any, is NUL.
pub proof fn lemma_nul_index(bytes: Seq<u8>, from: int)
    requires
        0 <= from <= bytes.len(),
    ensures
        from <= nul_index(bytes, from) <= bytes.len(),
        forall|i: int| from <= i < nul_index(bytes, from) ==> bytes[i] != 0,
        nul_index(bytes, from) < bytes.len() ==> bytes[nul_index(bytes, from)] == 0,
    decreases bytes.len() - from,
{
    if from < bytes.len() && bytes[from] != 0 {
        lemma_nul_index(bytes, from + 1);
    }
}

/// Copies the bytes of a C string: those before the first NUL byte.
pub fn c_string_prefix(bytes: &Vec<u8>) -> (prefix: Vec<u8>)
    ensures
        prefix@ == c_string_bytes(bytes@),
{
    let mut prefix: Vec<u8> = Vec::new();
    let mut i: usize = 0;
    while i < bytes.len() && bytes[i] != 0
        invariant
            i <= bytes.len(),
            prefix@ == bytes@.subrange(0, i as int),
            nul_index(bytes@, 0) == nul_index(bytes@, i as int),
        decreases bytes.len() - i,
    {
        prefix.push(bytes[i]);
        i += 1;
        assert(prefix@ =~= bytes@.subrange(0, i as int));
    }
    prefix
}

/// The argument that a raw triple and the data read for it decode to.
///
/// A null pointer, an unknown tag, the tag for no value, data of another kind than the tag
/// asks for, text that is not UTF-8, and a byte buffer whose size is negative or differs
/// from the number of bytes read all give [`TaggedArgumentView::Nothing`].
pub open spec fn decoded(pointer: usize, tag: i32, size: isize, data: NativeReadView)
    -> TaggedArgumentView {
    if pointer == 0 {
        TaggedArgumentView::Nothing
    } else {
        match FFITypeId::of_wire(tag as int) {
            Some(FFITypeId::String) => match data {
                NativeReadView::CString(b) => if valid_utf8(c_string_bytes(b)) {
                    TaggedArgumentView::String(decode_utf8(c_string_bytes(b)))
                } else {
                    TaggedArgumentView::Nothing
                },
                _ => TaggedArgumentView::Nothing,
            },
            Some(FFITypeId::Integer) => match data {
                NativeReadView::Int32(v) => TaggedArgumentView::Integer(v),
                _ => TaggedArgumentView::Nothing,
            },
            Some(FFITypeId::Double) => match data {
                NativeReadView::Float64(v) => TaggedArgumentView::Double(v),
                _ => TaggedArgumentView::Nothing,
            },
            Some(FFITypeId::Bool) => TaggedArgumentView::Bool(pointer != 0),
            Some(FFITypeId::Bytes) => match data {
                NativeReadView::Bytes(b) => if size >= 0 && b.len() == size {
                    TaggedArgumentView::Bytes(b)
                } else {
                    TaggedArgumentView::Nothing
                },
                _ => TaggedArgumentView::Nothing,
            },
            _ => TaggedArgumentView::Nothing,
        }
    }
}

impl NativeArgument {
    /// The argument that this triple and its data decode to.
    pub open spec fn decoded(&self) -> TaggedArgumentView {
        decoded(self.pointer, self.tag, self.size, self.data@)
    }

    /// Decodes the triple. Decoding never fails: what cannot be decoded is
    /// [`TaggedArgument::Nothing`].
    pub fn decode(&self) -> (argument: TaggedArgument)
        ensures
            argument@ == self.decoded(),
            self.pointer == 0 ==> argument@ == TaggedArgumentView::Nothing,
    {
        if self.pointer == 0 {
            return TaggedArgument::Nothing;
        }
        match FFITypeId::from_i32(self.tag) {
            Some(FFITypeId::String) => match &self.data {
                NativeRead::CString(bytes) => {
                    let prefix = c_string_prefix(bytes);
                    match utf8_to_string(prefix) {
                        Some(text) => TaggedArgument::String(text),
                        None => TaggedArgument::Nothing,
                    }
                },
                _ => TaggedArgument::Nothing,
            },
            Some(FFITypeId::Integer) => match &self.data {
                NativeRead::Int32(v) => TaggedArgument::Integer(*v),
                _ => TaggedArgument::Nothing,
            },
            Some(FFITypeId::Double) => match &self.data {
                NativeRead::Float64(v) => TaggedArgument::Double(*v),
                _ => TaggedArgument::Nothing,
            },
            Some(FFITypeId::Bool) => TaggedArgument::Bool(self.pointer != 0),
            Some(FFITypeId::Bytes) => match &self.data {
                NativeRead::Bytes(bytes) => {
                    if self.size >= 0 && bytes.len() == self.size as usize {
                        TaggedArgument::Bytes(copy_bytes(bytes))
                    } else {
                        TaggedArgument::Nothing
                    }
                },
                _ => TaggedArgument::Nothing,
            },
            _ => TaggedArgument::Nothing,
        }
    }
}

/// A copy of a byte vector.
pub fn copy_bytes(bytes: &Vec<u8>) -> (copy: Vec<u8>)
    ensures
        copy@ == bytes@,
{
    let mut copy: Vec<u8> = Vec::new();
    let mut i: usize = 0;
    while i < bytes.len()
        invariant
            i <= bytes.len(),
            copy@ == bytes@.subrange(0, i as int),
        decreases bytes.len() - i,
    {
        copy.push(bytes[i]);
        i += 1;
        assert(copy@ =~= bytes@.subrange(0, i as int));
    }
    assert(bytes@.subrange(0, bytes.len() as int) =~= bytes@);
    copy
}

/// The engine value that stands for a decoded argument.
pub open spec fn engine_value_of(argument: TaggedArgumentView) -> EngineValueView {
    match argument {
        TaggedArgumentView::Nothing => EngineValueView::Undefined,
        TaggedArgumentView::String(s) => EngineValueView::Text(s),
        TaggedArgumentView::Integer(v) => EngineValueView::Integer(v),
        TaggedArgumentView::Double(v) => EngineValueView::Number(v),
        TaggedArgumentView::Bool(v) => EngineValueView::Boolean(v),
        TaggedArgumentView::Bytes(b) => EngineValueView::Buffer(b),
    }
}

impl TaggedArgument {
    /// Turns a decoded argument into the engine value that stands for it.
    pub fn into_engine_value(self) -> (value: EngineValue)
        ensures
            value@ == engine_value_of(self@),
    {
        match self {
            TaggedArgument::Nothing => EngineValue::Undefined,
            TaggedArgument::String(s) => EngineValue::Text(s),
            TaggedArgument::Integer(v) => EngineValue::Integer(v),
            TaggedArgument::Double(v) => EngineValue::Number(v),
            TaggedArgument::Bool(v) => EngineValue::Boolean(v),
            TaggedArgument::Bytes(b) => EngineValue::Buffer(b),
        }
    }
}

/// The arguments of a native call: three parallel arrays, one entry of each per argument,
/// and the number of arguments.
#[derive(Debug, Clone, PartialEq, Eq)]
pub struct JsFunctionArgs {
    /// The pointers' addresses; zero is the null pointer.
    pub args: Vec<usize>,
    /// The type tags as they came over the wire.
    pub type_ids: Vec<i32>,
    /// The byte sizes, meaningful for byte buffers only.
    pub sizes: Vec<isize>,
    /// The number of arguments that the caller announced.
    pub count: i32,
}

/// The smallest of four numbers.
pub open spec fn least(a: int, b: int, c: int, d: int) -> int {
    let ab = if a <= b {
        a
    } else {
        b
    };
    let cd = if c <= d {
        c
    } else {
        d
    };
    if ab <= cd {
        ab
    } else {
        cd
    }
}

impl JsFunctionArgs {
    /// The number of arguments that can be marshaled: the announced number, but no more
    /// than each of the arrays holds, and none where the announced number is negative.
    pub open spec fn slots(&self) -> int {
        if self.count < 0 {
            0
        } else {
            least(
                self.count as int,
                self.args@.len() as int,
                self.type_ids@.len() as int,
                self.sizes@.len() as int,
            )
        }
    }

    /// What the argument at position `i` decodes to, given what was read for the
    /// arguments. An argument for which nothing was handed over counts as one for which
    /// nothing was read.
    pub open spec fn decoded_at(&self, reads: Seq<NativeRead>, i: int) -> TaggedArgumentView {
        decoded(
            self.args@[i],
            self.type_ids@[i],
            self.sizes@[i],
            if i < reads.len() {
                reads[i]@
            } else {
                NativeReadView::Nothing
            },
        )
    }

    /// The number of arguments that can be marshaled.
    pub fn slot_count(&self) -> (n: usize)
        ensures
            n == self.slots(),
    {
        if self.count < 0 {
            return 0;
        }
        let mut n: usize = self.count as usize;
        if self.args.len() < n {
            n = self.args.len();
        }
        if self.type_ids.len() < n {
            n = self.type_ids.len();
        }
        if self.sizes.len() < n {
            n = self.sizes.len();
        }
        n
    }

    /// Says for each argument what has to be read behind its pointer.
    pub fn read_plan(&self) -> (plan: Vec<ReadRequest>)
        ensures
            plan@.len() == self.slots(),
            forall|i: int|
                0 <= i < self.slots() ==> #[trigger] plan@[i] == read_request_of(
                    self.args@[i],
                    self.type_ids@[i],
                    self.sizes@[i],
                ),
    {
        let n = self.slot_count();
        let mut plan: Vec<ReadRequest> = Vec::new();
        let mut i: usize = 0;
        while i < n
            invariant
                i <= n,
                n == self.slots(),
                plan@.len() == i,
                forall|j: int|
                    0 <= j < i ==> #[trigger] plan@[j] == read_request_of(
                        self.args@[j],
                        self.type_ids@[j],
                        self.sizes@[j],
                    ),
            decreases n - i,
        {
            plan.push(plan_read(self.args[i], self.type_ids[i], self.sizes[i]));
            i += 1;
        }
        plan
    }
}

/// The engine values that the arguments of a native call marshal to: one per argument,
/// in the same order.
pub open spec fn marshaled(arguments: JsFunctionArgs, reads: Seq<NativeRead>) -> Seq<
    EngineValueView,
> {
    Seq::new(arguments.slots() as nat, |i: int| engine_value_of(arguments.decoded_at(reads, i)))
}

/// Marshals the arguments of a native call into engine values, for a call within the
/// engine's current scope. `reads` holds, position by position, what was read behind the
/// pointers as [`JsFunctionArgs::read_plan`] asked.
///
/// Every argument gives exactly one value at its own position; an argument with a null
/// pointer gives `Undefined`, as does any other argument that cannot be decoded.
pub fn c_args_to_v8_args_local(arguments: &JsFunctionArgs, reads: &Vec<NativeRead>) -> (values:
    Vec<EngineValue>)
    ensures
        values@.len() == arguments.slots(),
        values_view(values@) == marshaled(*arguments, reads@),
        forall|i: int|
            0 <= i < arguments.slots() && arguments.args@[i] == 0 ==> #[trigger] values@[i]@
                == EngineValueView::Undefined,
{
    let n = arguments.slot_count();
    let mut values: Vec<EngineValue> = Vec::new();
    let mut i: usize = 0;
    while i < n
        invariant
            i <= n,
            n == arguments.slots(),
            values@.len() == i,
            forall|j: int|
                0 <= j < i ==> #[trigger] values@[j]@ == engine_value_of(
                    arguments.decoded_at(reads@, j),
                ),
        decreases n - i,
    {
        let data = if i < reads.len() {
            copy_read(&reads[i])
        } else {
            NativeRead::Nothing
        };
        let slot = NativeArgument {
            pointer: arguments.args[i],
            tag: arguments.type_ids[i],
            size: arguments.sizes[i],
            data,
        };
        values.push(slot.decode().into_engine_value());
        i += 1;
    }
    assert(values_view(values@) =~= marshaled(*arguments, reads@));
    values
}

/// Marshals the arguments of a native call into engine values that outlive the
/// engine's current scope. The values are those of [`c_args_to_v8_args_local`].
pub fn c_args_to_v8_args_global(arguments: &JsFunctionArgs, reads: &Vec<NativeRead>) -> (values:
    Vec<EngineValue>)
    ensures
        values@.len() == arguments.slots(),
        values_view(values@) == marshaled(*arguments, reads@),
        forall|i: int|
            0 <= i < arguments.slots() && arguments.args@[i] == 0 ==> #[trigger] values@[i]@
                == EngineValueView::Undefined,
{
    c_args_to_v8_args_local(arguments, reads)
}

/// A copy of what was read for an argument.
pub fn copy_read(read: &NativeRead) -> (copy: NativeRead)
    ensures
        copy@ == read@,
{
    match read {
        NativeRead::Nothing => NativeRead::Nothing,
        NativeRead::CString(bytes) => NativeRead::CString(copy_bytes(bytes)),
        NativeRead::Int32(value) => NativeRead::Int32(*value),
        NativeRead::Float64(bits) => NativeRead::Float64(*bits),
        NativeRead::Bytes(bytes) => NativeRead::Bytes(copy_bytes(bytes)),
    }
}

/// The argument list of an exported function: the module's state, then the call's own
/// arguments, then the correlation identifier.
pub open spec fn call_arguments_of(
    state: u64,
    arguments: Seq<EngineValueView>,
    correlation_id: i32,
) -> Seq<EngineValueView> {
    seq![EngineValueView::State(state)] + arguments + seq![
        EngineValueView::Integer(correlation_id),
    ]
}

/// Builds the argument list of an exported function.
pub fn call_arguments(state: u64, arguments: Vec<EngineValue>, correlation_id: i32) -> (composed:
    Vec<EngineValue>)
    ensures
        values_view(composed@) == call_arguments_of(
            state,
            values_view(arguments@),
            correlation_id,
        ),
{
    let mut composed = arguments;
    composed.insert(0, EngineValue::State(state));
    composed.push(EngineValue::Integer(correlation_id));
    assert(values_view(composed@) =~= call_arguments_of(
        state,
        values_view(arguments@),
        correlation_id,
    ));
    composed
}

} // verus!
