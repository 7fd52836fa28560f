use script_bridge::paths::{
    components, render, same_chars, split_segments, starts_with_chars, walk_from,
};
use script_bridge::text::{chars_of, string_of};

fn chars(text: &str) -> Vec<char> {
    text.chars().collect()
}

fn parts(names: &[&str]) -> Vec<Vec<char>> {
    names.iter().map(|name| chars(name)).collect()
}

fn normal(text: &str) -> String {
    render(&components(&chars(text))).into_iter().collect()
}

#[test]
fn text_and_characters_convert_both_ways() {
    assert_eq!(chars_of("a/é✓"), vec!['a', '/', 'é', '✓']);
    assert_eq!(chars_of(""), Vec::<char>::new());
    assert_eq!(string_of(&vec!['a', '/', 'é', '✓']), "a/é✓");
    assert_eq!(string_of(&Vec::new()), "");
}

#[test]
fn splitting_keeps_empty_segments() {
    assert_eq!(split_segments(&chars("/a//b/")), parts(&["", "a", "", "b", ""]));
    assert_eq!(split_segments(&chars("a")), parts(&["a"]));
    assert_eq!(split_segments(&chars("")), parts(&[""]));
    assert_eq!(split_segments(&chars("/")), parts(&["", ""]));
}

#[test]
fn normal_form_drops_dots_and_empty_segments() {
    assert_eq!(normal("/app/src/main.mjs"), "/app/src/main.mjs");
    assert_eq!(normal("/app//src/./main.mjs"), "/app/src/main.mjs");
    assert_eq!(normal("/app/src/../lib/x.mjs"), "/app/lib/x.mjs");
    assert_eq!(normal("/app/src/"), "/app/src");
    assert_eq!(normal("app/src"), "/app/src");
}

#[test]
fn parent_of_the_root_is_the_root() {
    assert_eq!(normal("/"), "/");
    assert_eq!(normal(""), "/");
    assert_eq!(normal("/.."), "/");
    assert_eq!(normal("/a/../../.."), "/");
    assert_eq!(normal("/../a"), "/a");
}

#[test]
fn walking_follows_a_text_from_a_base() {
    assert_eq!(walk_from(parts(&["app", "src"]), &chars("./util.mjs")), parts(&["app", "src", "util.mjs"]));
    assert_eq!(walk_from(parts(&["app", "src"]), &chars("../x/y")), parts(&["app", "x", "y"]));
    assert_eq!(walk_from(parts(&["app"]), &chars("")), parts(&["app"]));
    assert_eq!(walk_from(Vec::new(), &chars("..")), Vec::<Vec<char>>::new());
    assert_eq!(walk_from(parts(&["a"]), &chars("...")), parts(&["a", "..."]));
}

#[test]
fn rendering_puts_a_separator_before_each_component() {
    assert_eq!(render(&parts(&["a", "b"])), chars("/a/b"));
    assert_eq!(render(&Vec::new()), chars("/"));
}

#[test]
fn character_comparisons() {
    assert!(same_chars(&chars("abc"), &chars("abc")));
    assert!(!same_chars(&chars("abc"), &chars("abd")));
    assert!(!same_chars(&chars("abc"), &chars("ab")));
    assert!(same_chars(&chars(""), &chars("")));
    assert!(starts_with_chars(&chars("file://x"), &chars("file://")));
    assert!(starts_with_chars(&chars("abc"), &chars("")));
    assert!(!starts_with_chars(&chars("fil"), &chars("file://")));
    assert!(!starts_with_chars(&chars("file:/x/y"), &chars("file://")));
}

#[test]
fn normal_form_of_a_normal_form_is_itself() {
    for text in ["/app/src/../lib//x.mjs", "a/./b/", "/", "", "/..", "/a/b/c", "..//.."] {
        let once = normal(text);
        assert_eq!(normal(&once), once);
    }
}
