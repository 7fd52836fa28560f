use script_bridge::module_type::LoadFailedError;
use script_bridge::resolver::require;
use script_bridge::location::{UrlJoin, UrlPath};
use script_bridge::manifest::{declared_main, main_entry, ManifestEntry, ManifestFault};
use script_bridge::resolver::{
    import_location, load_path, locate_main, location_url, main_location, manifest_location,
    read_manifest_entry, referrer_location, resolve_npm, specifier_location, PackageTree,
    ResolutionError,
};

#[test]
fn manifest_main_entry_is_read_from_json() {
    let text = |value: &str| ManifestEntry::Text(value.to_string());
    assert_eq!(main_entry(&b"{\"module\": \"dist/index.mjs\"}".to_vec()), text("dist/index.mjs"));
    assert_eq!(main_entry(&b"{\"main\": \"x\"}".to_vec()), ManifestEntry::Missing);
    assert_eq!(main_entry(&b"{}".to_vec()), ManifestEntry::Missing);
    assert_eq!(main_entry(&b"{\"module\": null}".to_vec()), ManifestEntry::NotText);
    assert_eq!(main_entry(&b"{\"module\": 3}".to_vec()), ManifestEntry::NotText);
    assert_eq!(main_entry(&b"{\"module\": \"a\", \"module\": \"b\"}".to_vec()), text("b"));
    assert_eq!(main_entry(&b"\"module\"".to_vec()), ManifestEntry::NotAnObject);
    assert_eq!(main_entry(&b"[1]".to_vec()), ManifestEntry::NotAnObject);
    assert_eq!(main_entry(&b"".to_vec()), ManifestEntry::Unparsable);
    assert_eq!(main_entry(&b"{\"module\": ".to_vec()), ManifestEntry::Unparsable);
    assert_eq!(main_entry(&vec![b'{', 0xff, b'}']), ManifestEntry::Unparsable);
}

#[test]
fn declared_main_is_decided_from_the_entry() {
    assert_eq!(declared_main(&ManifestEntry::Text("a.mjs".to_string())), Ok(Some("a.mjs".to_string())));
    assert_eq!(declared_main(&ManifestEntry::Missing), Ok(None));
    assert_eq!(declared_main(&ManifestEntry::NotText), Ok(None));
    assert_eq!(declared_main(&ManifestEntry::Unparsable), Err(ManifestFault::Unparsable));
    assert_eq!(declared_main(&ManifestEntry::NotAnObject), Err(ManifestFault::NotAnObject));
}

#[test]
fn manifest_lies_in_the_package_directory() {
    assert_eq!(manifest_location("/a/node-style-modules/p"), "/a/node-style-modules/p/package.json");
    assert_eq!(manifest_location("/"), "/package.json");
}

#[test]
fn main_file_is_the_entry_or_the_default() {
    assert_eq!(main_location("/m/p", &Some("dist/index.mjs".to_string())), "/m/p/dist/index.mjs");
    assert_eq!(main_location("/m/p", &None), "/m/p/index.mjs");
    assert_eq!(main_location("/m/p", &Some("../q/x.mjs".to_string())), "/m/q/x.mjs");
    assert_eq!(main_location("/m/p", &Some(String::new())), "/m/p");
}

#[test]
fn locating_the_main_file_covers_every_outcome_of_the_manifest() {
    let mut tree = PackageTree::new();
    tree.add_file("/m/p/index.mjs", Vec::new());
    let index = Ok("/m/p/index.mjs".to_string());
    assert_eq!(locate_main(&tree, "/m/p", &Some(ManifestEntry::Missing)), index);
    assert_eq!(locate_main(&tree, "/m/p", &Some(ManifestEntry::NotText)), index);
    assert_eq!(
        locate_main(&tree, "/m/p", &Some(ManifestEntry::Text("x.mjs".to_string()))),
        Err(ResolutionError::MainFileMissing("/m/p/x.mjs".to_string()))
    );
    assert_eq!(
        locate_main(&tree, "/m/p", &None),
        Err(ResolutionError::ManifestMissing("/m/p/package.json".to_string()))
    );
    assert_eq!(
        locate_main(&tree, "/m/p", &Some(ManifestEntry::Unparsable)),
        Err(ResolutionError::ManifestMalformed("/m/p/package.json".to_string()))
    );
    assert_eq!(
        locate_main(&tree, "/m/p", &Some(ManifestEntry::NotAnObject)),
        Err(ResolutionError::ManifestMalformed("/m/p/package.json".to_string()))
    );
}

#[test]
fn manifest_entry_is_read_from_the_tree() {
    let mut tree = PackageTree::new();
    tree.add_file("/m/p/package.json", b"{\"module\": \"a.mjs\"}".to_vec());
    tree.add_file("/m/q/package.json", b"nonsense".to_vec());
    assert_eq!(read_manifest_entry(&tree, "/m/p"), Some(ManifestEntry::Text("a.mjs".to_string())));
    assert_eq!(read_manifest_entry(&tree, "/m/q"), Some(ManifestEntry::Unparsable));
    assert_eq!(read_manifest_entry(&tree, "/m/r"), None);
}

#[test]
fn outcomes_of_url_conversions_are_decided_case_by_case() {
    let joined = UrlJoin::Joined("file:///a/b.mjs".to_string());
    assert_eq!(import_location("./b.mjs", joined), Ok("file:///a/b.mjs".to_string()));
    assert_eq!(import_location("./b.mjs", UrlJoin::BadBase), Err(ResolutionError::InvalidReferrer));
    assert_eq!(
        import_location("./b.mjs", UrlJoin::BadReference),
        Err(ResolutionError::InvalidSpecifier("./b.mjs".to_string()))
    );
    assert_eq!(referrer_location(UrlPath::Path("/a".to_string())), Ok("/a".to_string()));
    assert_eq!(referrer_location(UrlPath::Unparsable), Err(ResolutionError::InvalidReferrer));
    assert_eq!(referrer_location(UrlPath::NotFile), Err(ResolutionError::ReferrerNotFile));
    assert_eq!(referrer_location(UrlPath::NotText), Err(ResolutionError::ReferrerNotFile));
    assert_eq!(location_url(Some("file:///a".to_string())), Ok("file:///a".to_string()));
    assert_eq!(location_url(None), Err(ResolutionError::LocationNotUrl));
    assert_eq!(specifier_location("./a", UrlPath::Path("/a".to_string())), Ok("/a".to_string()));
    for path in [UrlPath::Unparsable, UrlPath::NotFile, UrlPath::NotText] {
        assert_eq!(
            specifier_location("./a", path.clone()),
            Err(ResolutionError::InvalidSpecifier("./a".to_string()))
        );
        assert_eq!(
            load_path("x:a", path),
            Err(script_bridge::module_type::LoadError::NotFileUrl("x:a".to_string()))
        );
    }
    assert_eq!(load_path("x:a", UrlPath::Path("/a".to_string())), Ok("/a".to_string()));
}

#[test]
fn tree_lookups_are_exact() {
    let mut tree = PackageTree::new();
    tree.add_directory("/a/b");
    tree.add_file("/a/b/c", vec![1]);
    let chars = |text: &str| text.chars().collect::<Vec<char>>();
    assert!(tree.contains_directory(&chars("/a/b")));
    assert!(!tree.contains_directory(&chars("/a")));
    assert!(!tree.contains_directory(&chars("/a/b/c")));
    assert_eq!(tree.find_file(&chars("/a/b/c")), Some(0));
    assert_eq!(tree.find_file(&chars("/a/b")), None);
}

#[test]
fn packages_are_looked_for_from_the_referrers_directory() {
    let mut tree = PackageTree::new();
    tree.add_directory("/app/src/node-style-modules/dep");
    tree.add_file("/app/src/node-style-modules/dep/package.json", b"{}".to_vec());
    tree.add_file("/app/src/node-style-modules/dep/index.mjs", Vec::new());
    assert_eq!(
        resolve_npm("dep", "file:///app/src/main.mjs", &tree),
        Ok("file:///app/src/node-style-modules/dep/index.mjs".to_string())
    );
    assert_eq!(
        resolve_npm("dep", "file:///app/main.mjs", &tree),
        Err(ResolutionError::NotFound("dep".to_string()))
    );
}

#[test]
fn require_looks_below_node_modules() {
    assert_eq!(require("left-pad"), "node_modules/left-pad/dist/index.js");
    assert_eq!(require("@scope/pkg"), "node_modules/@scope/pkg/dist/index.js");
    assert_eq!(require("pkg/"), "node_modules/pkg/dist/index.js");
    assert_eq!(require(""), "node_modules/dist/index.js");
    assert_eq!(require("/abs/pkg"), "/abs/pkg/dist/index.js");
    for name in ["left-pad", "pkg/", "", "/abs/pkg", "a//b"] {
        let expected = std::path::Path::new("node_modules").join(name).join("dist").join("index.js");
        assert_eq!(require(name), expected.to_str().unwrap());
    }
}

#[test]
fn load_failure_names_the_module() {
    let error = LoadFailedError {
        specifier: "file:///app/a.mjs".to_string(),
        source: "No such file or directory".to_string(),
    };
    assert_eq!(error.message(), "Failed to load file:///app/a.mjs");
}
