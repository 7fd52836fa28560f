use script_bridge::registration::{
    check_and_get_cstr, load_failure_message, module_location, module_source,
    read_failure_message, ModuleSource, SourceError, TextError,
};

#[test]
fn text_argument_is_decoded_up_to_the_terminator() {
    assert_eq!(check_and_get_cstr(&Some(b"math\0junk".to_vec())), Ok("math".to_string()));
    assert_eq!(check_and_get_cstr(&Some(b"math".to_vec())), Ok("math".to_string()));
    assert_eq!(check_and_get_cstr(&Some(Vec::new())), Ok(String::new()));
    assert_eq!(check_and_get_cstr(&Some("größe".as_bytes().to_vec())), Ok("größe".to_string()));
}

#[test]
fn null_pointer_and_bad_utf8_are_told_apart() {
    assert_eq!(check_and_get_cstr(&None), Err(TextError::NullPointer));
    assert_eq!(check_and_get_cstr(&Some(vec![b'a', 0xc3, 0])), Err(TextError::InvalidUtf8));
    assert_eq!(check_and_get_cstr(&Some(vec![b'a', 0, 0xc3])), Ok("a".to_string()));
    assert_eq!(TextError::NullPointer.message(), "Received null pointer");
    assert_eq!(TextError::InvalidUtf8.message(), "Invalid UTF-8 in pointer string");
}

#[test]
fn inline_source_is_named_after_the_module() {
    assert_eq!(module_location("math", "export default {}", false), "file://math.js");
}

#[test]
fn source_from_a_file_is_named_by_its_path() {
    assert_eq!(module_location("math", "/app/math.mjs", true), "file:///app/math.mjs");
}

#[test]
fn failures_are_described_with_their_cause() {
    assert_eq!(
        read_failure_message("permission denied"),
        "Failed to read JS module from file: permission denied"
    );
    assert_eq!(
        load_failure_message("math", "SyntaxError: x"),
        "Error loading module: math, SyntaxError: x"
    );
}

#[test]
fn existing_file_is_evaluated_in_place_of_the_argument() {
    assert_eq!(
        module_source("math", "/app/math.mjs", Some(Ok("export default {}".to_string()))),
        Ok(ModuleSource {
            location: "file:///app/math.mjs".to_string(),
            code: "export default {}".to_string(),
        })
    );
}

#[test]
fn argument_is_evaluated_where_it_names_no_file() {
    assert_eq!(
        module_source("math", "export default {}", None),
        Ok(ModuleSource {
            location: "file://math.js".to_string(),
            code: "export default {}".to_string(),
        })
    );
}

#[test]
fn unreadable_file_fails_the_registration() {
    let error = module_source("math", "/app/math.mjs", Some(Err("denied".to_string()))).unwrap_err();
    assert_eq!(error, SourceError::ReadFailed("denied".to_string()));
    assert_eq!(error.message(), "Failed to read JS module from file: denied");
}
