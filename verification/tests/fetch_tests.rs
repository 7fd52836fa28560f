use script_bridge::bridge::Settlement;
use script_bridge::bridge::BridgeAction;
use script_bridge::fetch::{fetch, FetchPlan};
use script_bridge::fetch::{
    checked_method, fetch_options_to_rust, string_to_method, FetchError, FetchOptions,
};

fn property(key: &str, value: &str) -> (String, String) {
    (key.to_string(), value.to_string())
}

#[test]
fn method_names_are_brought_to_upper_case() {
    assert_eq!(string_to_method("get"), Ok("GET".to_string()));
    assert_eq!(string_to_method("Post"), Ok("POST".to_string()));
    assert_eq!(string_to_method("DELETE"), Ok("DELETE".to_string()));
    assert_eq!(string_to_method("purge"), Ok("PURGE".to_string()));
    assert_eq!(string_to_method("m-search"), Ok("M-SEARCH".to_string()));
}

#[test]
fn text_that_names_no_method_is_refused_as_it_was_given() {
    assert_eq!(string_to_method(""), Err(FetchError::InvalidMethod(String::new())));
    assert_eq!(
        string_to_method("get it"),
        Err(FetchError::InvalidMethod("get it".to_string()))
    );
    assert_eq!(string_to_method("gét"), Err(FetchError::InvalidMethod("gét".to_string())));
    assert_eq!(string_to_method("a(b)"), Err(FetchError::InvalidMethod("a(b)".to_string())));
    assert_eq!(
        FetchError::InvalidMethod("get it".to_string()).message(),
        "Invalid HTTP method: get it"
    );
}

#[test]
fn method_check_takes_the_upper_case_text_as_given() {
    assert_eq!(checked_method("x", "GET".to_string()), Ok("GET".to_string()));
    assert_eq!(checked_method("x", "get".to_string()), Ok("get".to_string()));
    assert_eq!(checked_method("x", "!#$%&'*+-.^_`|~09azAZ".to_string()), Ok("!#$%&'*+-.^_`|~09azAZ".to_string()));
    assert_eq!(checked_method("x", "A B".to_string()), Err(FetchError::InvalidMethod("x".to_string())));
    assert_eq!(checked_method("x", "A/B".to_string()), Err(FetchError::InvalidMethod("x".to_string())));
    assert_eq!(checked_method("x", "A\"".to_string()), Err(FetchError::InvalidMethod("x".to_string())));
    assert_eq!(checked_method("x", String::new()), Err(FetchError::InvalidMethod("x".to_string())));
}

#[test]
fn options_default_to_get_without_headers_and_body() {
    assert_eq!(
        fetch_options_to_rust(&Vec::new()),
        Ok(FetchOptions { method: "GET".to_string(), headers: None, body: None })
    );
}

#[test]
fn options_are_read_from_the_known_properties() {
    let properties = vec![
        property("method", "post"),
        property("mode", "cors"),
        property("headers", "[object Object]"),
        property("body", "{\"a\":1}"),
    ];
    assert_eq!(
        fetch_options_to_rust(&properties),
        Ok(FetchOptions {
            method: "POST".to_string(),
            headers: Some("[object Object]".to_string()),
            body: Some("{\"a\":1}".to_string()),
        })
    );
}

#[test]
fn later_property_overrides_an_earlier_one() {
    let properties =
        vec![property("body", "a"), property("method", "put"), property("body", "b"), property("method", "patch")];
    assert_eq!(
        fetch_options_to_rust(&properties),
        Ok(FetchOptions { method: "PATCH".to_string(), headers: None, body: Some("b".to_string()) })
    );
}

#[test]
fn first_refused_method_ends_the_reading() {
    let properties =
        vec![property("method", "no good"), property("method", "get"), property("body", "b")];
    assert_eq!(
        fetch_options_to_rust(&properties),
        Err(FetchError::InvalidMethod("no good".to_string()))
    );
}

#[test]
fn property_names_are_matched_exactly() {
    let properties = vec![property("Method", "post"), property("BODY", "b"), property("", "x")];
    assert_eq!(
        fetch_options_to_rust(&properties),
        Ok(FetchOptions { method: "GET".to_string(), headers: None, body: None })
    );
}

#[test]
fn request_begins_with_a_pending_promise() {
    let (call, plan) = fetch(21, &vec![property("method", "head")]);
    assert_eq!(call.promise_handle(), 21);
    assert_eq!(call.current(), Settlement::Pending);
    assert_eq!(
        plan,
        FetchPlan::Request(FetchOptions { method: "HEAD".to_string(), headers: None, body: None })
    );
}

#[test]
fn refused_options_still_give_a_pending_promise_and_reject_it_through_settle() {
    let (mut call, plan) = fetch(22, &vec![property("method", "no good")]);
    assert_eq!(call.promise_handle(), 22);
    assert_eq!(call.current(), Settlement::Pending);
    assert_eq!(plan, FetchPlan::Refuse("Invalid HTTP method: no good".to_string()));
    let FetchPlan::Refuse(failure) = plan else {
        panic!("the options were refused");
    };
    assert_eq!(call.settle(Err(failure.clone())), BridgeAction::Reject(failure.clone()));
    assert_eq!(call.current(), Settlement::Rejected(failure));
}
