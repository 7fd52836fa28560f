use script_bridge::marshal::{
    c_args_to_v8_args_global, c_args_to_v8_args_local, c_string_prefix, call_arguments,
    plan_read, EngineValue, FFITypeId, JsFunctionArgs, NativeArgument, NativeRead,
    ReadRequest, TaggedArgument,
};

fn marshal_arguments(arguments: &Vec<NativeArgument>) -> Vec<EngineValue> {
    let call = JsFunctionArgs {
        args: arguments.iter().map(|a| a.pointer).collect(),
        type_ids: arguments.iter().map(|a| a.tag).collect(),
        sizes: arguments.iter().map(|a| a.size).collect(),
        count: arguments.len() as i32,
    };
    let reads: Vec<NativeRead> = arguments.iter().map(|a| a.data.clone()).collect();
    let values = c_args_to_v8_args_local(&call, &reads);
    assert_eq!(c_args_to_v8_args_global(&call, &reads), values);
    values
}

fn argument(pointer: usize, tag: i32, size: isize, data: NativeRead) -> NativeArgument {
    NativeArgument { pointer, tag, size, data }
}

#[test]
fn tags_decode_from_their_wire_values() {
    assert_eq!(FFITypeId::from_i32(0), Some(FFITypeId::Nothing));
    assert_eq!(FFITypeId::from_i32(1), Some(FFITypeId::String));
    assert_eq!(FFITypeId::from_i32(2), Some(FFITypeId::Integer));
    assert_eq!(FFITypeId::from_i32(3), Some(FFITypeId::Double));
    assert_eq!(FFITypeId::from_i32(4), Some(FFITypeId::Bool));
    assert_eq!(FFITypeId::from_i32(5), Some(FFITypeId::Bytes));
}

#[test]
fn tags_outside_the_known_range_decode_to_none() {
    assert_eq!(FFITypeId::from_i32(6), None);
    assert_eq!(FFITypeId::from_i32(-1), None);
    assert_eq!(FFITypeId::from_i32(i32::MAX), None);
    assert_eq!(FFITypeId::from_i32(i32::MIN), None);
}

#[test]
fn tags_encode_back_to_their_wire_values() {
    for value in 0..6 {
        assert_eq!(FFITypeId::from_i32(value).unwrap().to_i32(), value);
    }
}

#[test]
fn read_plan_follows_the_tag() {
    assert_eq!(plan_read(8, 1, 0), ReadRequest::CString);
    assert_eq!(plan_read(8, 2, 0), ReadRequest::Int32);
    assert_eq!(plan_read(8, 3, 0), ReadRequest::Float64);
    assert_eq!(plan_read(8, 4, 0), ReadRequest::Nothing);
    assert_eq!(plan_read(8, 5, 3), ReadRequest::Bytes(3));
    assert_eq!(plan_read(8, 0, 0), ReadRequest::Nothing);
    assert_eq!(plan_read(8, 9, 0), ReadRequest::Nothing);
}

#[test]
fn nothing_is_read_behind_a_null_pointer_or_for_a_negative_size() {
    for tag in 0..6 {
        assert_eq!(plan_read(0, tag, 4), ReadRequest::Nothing);
    }
    assert_eq!(plan_read(8, 5, -1), ReadRequest::Nothing);
}

#[test]
fn c_string_ends_at_the_first_nul() {
    assert_eq!(c_string_prefix(&b"abc\0def".to_vec()), b"abc".to_vec());
    assert_eq!(c_string_prefix(&b"abc".to_vec()), b"abc".to_vec());
    assert_eq!(c_string_prefix(&b"\0abc".to_vec()), Vec::<u8>::new());
    assert_eq!(c_string_prefix(&Vec::new()), Vec::<u8>::new());
}

#[test]
fn each_tag_decodes_its_own_data() {
    assert_eq!(
        argument(8, 1, 0, NativeRead::CString(b"hi\0".to_vec())).decode(),
        TaggedArgument::String("hi".to_string())
    );
    assert_eq!(
        argument(8, 2, 0, NativeRead::Int32(-42)).decode(),
        TaggedArgument::Integer(-42)
    );
    let bits = 1.5f64.to_bits();
    assert_eq!(
        argument(8, 3, 0, NativeRead::Float64(bits)).decode(),
        TaggedArgument::Double(bits)
    );
    assert_eq!(argument(1, 4, 0, NativeRead::Nothing).decode(), TaggedArgument::Bool(true));
    assert_eq!(
        argument(8, 5, 3, NativeRead::Bytes(vec![1, 2, 3])).decode(),
        TaggedArgument::Bytes(vec![1, 2, 3])
    );
    assert_eq!(argument(8, 0, 0, NativeRead::Nothing).decode(), TaggedArgument::Nothing);
}

#[test]
fn multi_byte_text_decodes_as_utf8() {
    assert_eq!(
        argument(8, 1, 0, NativeRead::CString("héllo ✓".as_bytes().to_vec())).decode(),
        TaggedArgument::String("héllo ✓".to_string())
    );
}

#[test]
fn null_pointer_gives_undefined_for_every_tag() {
    let arguments = vec![
        argument(0, 0, 0, NativeRead::Nothing),
        argument(0, 1, 0, NativeRead::CString(b"x".to_vec())),
        argument(0, 2, 0, NativeRead::Int32(7)),
        argument(0, 3, 0, NativeRead::Float64(0)),
        argument(0, 4, 0, NativeRead::Nothing),
        argument(0, 5, 1, NativeRead::Bytes(vec![9])),
    ];
    let values = marshal_arguments(&arguments);
    assert_eq!(values, vec![EngineValue::Undefined; 6]);
}

#[test]
fn invalid_utf8_gives_undefined_for_that_slot_only() {
    let arguments = vec![
        argument(8, 2, 0, NativeRead::Int32(1)),
        argument(8, 1, 0, NativeRead::CString(vec![0xff, 0xfe, 0])),
        argument(8, 2, 0, NativeRead::Int32(3)),
    ];
    assert_eq!(
        marshal_arguments(&arguments),
        vec![EngineValue::Integer(1), EngineValue::Undefined, EngineValue::Integer(3)]
    );
}

#[test]
fn malformed_integer_argument_degrades_without_aborting_the_call() {
    let arguments = vec![
        argument(8, 2, 0, NativeRead::CString(b"42".to_vec())),
        argument(8, 1, 0, NativeRead::CString(b"after".to_vec())),
    ];
    assert_eq!(
        marshal_arguments(&arguments),
        vec![EngineValue::Undefined, EngineValue::Text("after".to_string())]
    );
}

#[test]
fn unknown_tag_and_mismatched_buffer_give_undefined() {
    let arguments = vec![
        argument(8, 17, 0, NativeRead::Int32(1)),
        argument(8, 5, 4, NativeRead::Bytes(vec![1, 2, 3])),
        argument(8, 5, -1, NativeRead::Bytes(Vec::new())),
        argument(8, 3, 0, NativeRead::Int32(1)),
    ];
    assert_eq!(marshal_arguments(&arguments), vec![EngineValue::Undefined; 4]);
}

#[test]
fn marshaling_keeps_count_and_order() {
    let arguments = vec![
        argument(8, 5, 2, NativeRead::Bytes(vec![7, 8])),
        argument(8, 4, 0, NativeRead::Nothing),
        argument(8, 3, 0, NativeRead::Float64(2.0f64.to_bits())),
    ];
    assert_eq!(
        marshal_arguments(&arguments),
        vec![
            EngineValue::Buffer(vec![7, 8]),
            EngineValue::Boolean(true),
            EngineValue::Number(2.0f64.to_bits()),
        ]
    );
    assert_eq!(marshal_arguments(&Vec::new()), Vec::<EngineValue>::new());
}

#[test]
fn registration_arguments_reach_init_as_they_are_marshaled() {
    let arguments = vec![
        argument(8, 2, 0, NativeRead::Int32(1)),
        argument(0, 1, 0, NativeRead::Nothing),
    ];
    assert_eq!(
        marshal_arguments(&arguments),
        vec![EngineValue::Integer(1), EngineValue::Undefined]
    );
}

#[test]
fn call_arguments_wrap_state_and_correlation_id_around_the_rest() {
    assert_eq!(
        call_arguments(9, vec![EngineValue::Text("a".to_string())], -3),
        vec![
            EngineValue::State(9),
            EngineValue::Text("a".to_string()),
            EngineValue::Integer(-3),
        ]
    );
    assert_eq!(
        call_arguments(0, Vec::new(), 5),
        vec![EngineValue::State(0), EngineValue::Integer(5)]
    );
}

#[test]
fn announced_count_is_cut_to_what_the_arrays_hold() {
    let mut call = JsFunctionArgs {
        args: vec![8, 8, 8],
        type_ids: vec![2, 2, 2],
        sizes: vec![0, 0, 0],
        count: 2,
    };
    let reads = vec![NativeRead::Int32(1), NativeRead::Int32(2), NativeRead::Int32(3)];
    assert_eq!(call.slot_count(), 2);
    assert_eq!(
        c_args_to_v8_args_local(&call, &reads),
        vec![EngineValue::Integer(1), EngineValue::Integer(2)]
    );
    call.count = 5;
    assert_eq!(call.slot_count(), 3);
    call.type_ids.pop();
    assert_eq!(call.slot_count(), 2);
    call.count = -1;
    assert_eq!(call.slot_count(), 0);
    assert_eq!(c_args_to_v8_args_local(&call, &reads), Vec::<EngineValue>::new());
    call.count = 0;
    assert_eq!(call.read_plan(), Vec::<ReadRequest>::new());
}

#[test]
fn arguments_without_reads_count_as_nothing_read() {
    let call = JsFunctionArgs {
        args: vec![8, 8, 1],
        type_ids: vec![2, 1, 4],
        sizes: vec![0, 0, 0],
        count: 3,
    };
    assert_eq!(
        c_args_to_v8_args_local(&call, &vec![NativeRead::Int32(5)]),
        vec![EngineValue::Integer(5), EngineValue::Undefined, EngineValue::Boolean(true)]
    );
}

#[test]
fn read_plan_has_one_request_per_argument() {
    let call = JsFunctionArgs {
        args: vec![8, 0, 8, 8],
        type_ids: vec![1, 1, 5, 4],
        sizes: vec![0, 0, 16, 0],
        count: 4,
    };
    assert_eq!(
        call.read_plan(),
        vec![
            ReadRequest::CString,
            ReadRequest::Nothing,
            ReadRequest::Bytes(16),
            ReadRequest::Nothing,
        ]
    );
}
