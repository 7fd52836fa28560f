use script_bridge::module_type::{LoadError, ModuleType, RequestedModuleType};
use script_bridge::resolver::{
    is_file_import, package_candidates, referrer_path, resolve_import, resolve_package,
    resolve_relative, LoadPlan, NpmFsModuleLoader, PackageTree, ResolutionError,
};

fn left_pad_tree(manifest: &str) -> PackageTree {
    let mut tree = PackageTree::new();
    tree.add_directory("/app/node-style-modules/left-pad");
    tree.add_file(
        "/app/node-style-modules/left-pad/package.json",
        manifest.as_bytes().to_vec(),
    );
    tree.add_file("/app/node-style-modules/left-pad/dist/index.mjs", Vec::new());
    tree
}

#[test]
fn relative_specifier_resolves_against_referrer_directory() {
    assert_eq!(
        resolve_relative("./util.mjs", "/app/src/main.mjs"),
        Ok("/app/src/util.mjs".to_string())
    );
}

#[test]
fn bare_specifier_resolves_through_manifest_module_entry() {
    let tree = left_pad_tree("{\"name\": \"left-pad\", \"module\": \"dist/index.mjs\"}");
    assert_eq!(
        resolve_package(&tree, "left-pad", "/app"),
        Ok("/app/node-style-modules/left-pad/dist/index.mjs".to_string())
    );
    assert_eq!(
        NpmFsModuleLoader.resolve("left-pad", "file:///app/src/main.mjs", &tree),
        Ok("file:///app/node-style-modules/left-pad/dist/index.mjs".to_string())
    );
}

#[test]
fn nearest_package_directory_wins() {
    let mut tree = PackageTree::new();
    tree.add_directory("/app/node-style-modules/dep");
    tree.add_file("/app/node-style-modules/dep/package.json", b"{}".to_vec());
    tree.add_file("/app/node-style-modules/dep/index.mjs", Vec::new());
    tree.add_directory("/app/src/node-style-modules/dep");
    tree.add_file("/app/src/node-style-modules/dep/package.json", b"{}".to_vec());
    tree.add_file("/app/src/node-style-modules/dep/index.mjs", Vec::new());
    assert_eq!(
        resolve_package(&tree, "dep", "/app/src"),
        Ok("/app/src/node-style-modules/dep/index.mjs".to_string())
    );
    assert_eq!(
        resolve_package(&tree, "dep", "/app/other"),
        Ok("/app/node-style-modules/dep/index.mjs".to_string())
    );
}

#[test]
fn candidates_run_from_the_referrer_up_to_the_root() {
    assert_eq!(
        package_candidates("left-pad", "/app/src"),
        vec![
            "/app/src/node-style-modules/left-pad".to_string(),
            "/app/node-style-modules/left-pad".to_string(),
            "/node-style-modules/left-pad".to_string(),
        ]
    );
}

#[test]
fn malformed_manifest_is_an_error_not_a_fallback() {
    let mut tree = left_pad_tree("{ not json");
    tree.add_directory("/node-style-modules/left-pad");
    tree.add_file("/node-style-modules/left-pad/package.json", b"{}".to_vec());
    tree.add_file("/node-style-modules/left-pad/index.mjs", Vec::new());
    assert_eq!(
        resolve_package(&tree, "left-pad", "/app/src"),
        Err(ResolutionError::ManifestMalformed(
            "/app/node-style-modules/left-pad/package.json".to_string()
        ))
    );
}

#[test]
fn file_style_specifiers_are_told_from_package_names() {
    assert!(is_file_import("./a.mjs"));
    assert!(is_file_import("../a.mjs"));
    assert!(is_file_import("/a.mjs"));
    assert!(is_file_import(".hidden"));
    assert!(is_file_import("file:///a.mjs"));
    assert!(!is_file_import("left-pad"));
    assert!(!is_file_import(""));
    assert!(!is_file_import("file:/a.mjs"));
}

#[test]
fn manifest_without_module_entry_falls_back_to_index() {
    let mut tree = PackageTree::new();
    tree.add_directory("/app/node-style-modules/dep");
    tree.add_file("/app/node-style-modules/dep/package.json", b"{\"main\": \"lib.js\"}".to_vec());
    tree.add_file("/app/node-style-modules/dep/index.mjs", Vec::new());
    assert_eq!(
        resolve_package(&tree, "dep", "/app/src/deep"),
        Ok("/app/node-style-modules/dep/index.mjs".to_string())
    );
}

#[test]
fn module_entry_that_is_not_a_string_counts_as_absent() {
    let mut tree = PackageTree::new();
    tree.add_directory("/app/node-style-modules/dep");
    tree.add_file("/app/node-style-modules/dep/package.json", b"{\"module\": 3}".to_vec());
    tree.add_file("/app/node-style-modules/dep/index.mjs", Vec::new());
    assert_eq!(
        resolve_package(&tree, "dep", "/app"),
        Ok("/app/node-style-modules/dep/index.mjs".to_string())
    );
}

#[test]
fn module_entry_is_normalized() {
    let tree = left_pad_tree("{\"module\": \"./lib/../dist//index.mjs\"}");
    assert_eq!(
        resolve_package(&tree, "left-pad", "/app"),
        Ok("/app/node-style-modules/left-pad/dist/index.mjs".to_string())
    );
}

#[test]
fn missing_main_file_is_named_in_the_error() {
    let tree = left_pad_tree("{\"module\": \"dist/other.mjs\"}");
    let error = resolve_package(&tree, "left-pad", "/app/src").unwrap_err();
    assert_eq!(
        error,
        ResolutionError::MainFileMissing(
            "/app/node-style-modules/left-pad/dist/other.mjs".to_string()
        )
    );
    assert_eq!(
        error.message(),
        "Cannot find main file: /app/node-style-modules/left-pad/dist/other.mjs"
    );
}

#[test]
fn missing_manifest_is_an_error() {
    let mut tree = PackageTree::new();
    tree.add_directory("/app/node-style-modules/dep");
    tree.add_file("/app/node-style-modules/dep/index.mjs", Vec::new());
    let error = resolve_package(&tree, "dep", "/app").unwrap_err();
    assert_eq!(
        error,
        ResolutionError::ManifestMissing("/app/node-style-modules/dep/package.json".to_string())
    );
    assert_eq!(
        error.message(),
        "Cannot find manifest: /app/node-style-modules/dep/package.json"
    );
}

#[test]
fn manifest_that_is_not_an_object_is_malformed() {
    let tree = left_pad_tree("[1, 2]");
    let error = resolve_package(&tree, "left-pad", "/app").unwrap_err();
    assert_eq!(
        error,
        ResolutionError::ManifestMalformed(
            "/app/node-style-modules/left-pad/package.json".to_string()
        )
    );
    assert_eq!(
        error.message(),
        "Cannot parse manifest: /app/node-style-modules/left-pad/package.json"
    );
}

#[test]
fn package_that_no_level_holds_is_not_found() {
    let tree = left_pad_tree("{}");
    let error = resolve_package(&tree, "right-pad", "/app/src").unwrap_err();
    assert_eq!(error, ResolutionError::NotFound("right-pad".to_string()));
    assert_eq!(error.message(), "Cannot find package: right-pad");
    assert_eq!(
        resolve_package(&tree, "left-pad", "/other/place"),
        Err(ResolutionError::NotFound("left-pad".to_string()))
    );
    assert_eq!(
        resolve_package(&PackageTree::new(), "", "/app"),
        Err(ResolutionError::NotFound(String::new()))
    );
}

#[test]
fn scoped_package_names_are_nested_directories() {
    let mut tree = PackageTree::new();
    tree.add_directory("/node-style-modules/@scope/pkg");
    tree.add_file("/node-style-modules/@scope/pkg/package.json", b"{}".to_vec());
    tree.add_file("/node-style-modules/@scope/pkg/index.mjs", Vec::new());
    assert_eq!(
        resolve_package(&tree, "@scope/pkg", "/app/src"),
        Ok("/node-style-modules/@scope/pkg/index.mjs".to_string())
    );
    assert_eq!(
        package_candidates("@scope/pkg", "/"),
        vec!["/node-style-modules/@scope/pkg".to_string()]
    );
    assert_eq!(package_candidates("", "/app"), Vec::<String>::new());
}

#[test]
fn file_style_specifiers_are_joined_onto_the_referrer() {
    let loader = NpmFsModuleLoader;
    let tree = PackageTree::new();
    let referrer = "file:///app/src/main.mjs";
    assert_eq!(
        loader.resolve("./util.mjs", referrer, &tree),
        Ok("file:///app/src/util.mjs".to_string())
    );
    assert_eq!(
        loader.resolve("../lib/a.mjs", referrer, &tree),
        Ok("file:///app/lib/a.mjs".to_string())
    );
    assert_eq!(loader.resolve("/abs/./b.mjs", referrer, &tree), Ok("file:///abs/b.mjs".to_string()));
    assert_eq!(
        loader.resolve("file:///abs/c.mjs", referrer, &tree),
        Ok("file:///abs/c.mjs".to_string())
    );
    assert_eq!(
        loader.resolve("./x.mjs", "https://example.org/a/main.mjs", &tree),
        Ok("https://example.org/a/x.mjs".to_string())
    );
    assert_eq!(
        resolve_import("./x.mjs?v=1#top", referrer),
        Ok("file:///app/src/x.mjs?v=1#top".to_string())
    );
}

#[test]
fn referrer_that_is_no_url_is_refused() {
    let loader = NpmFsModuleLoader;
    let tree = PackageTree::new();
    let error = loader.resolve("./util.mjs", "/app/src/main.mjs", &tree).unwrap_err();
    assert_eq!(error, ResolutionError::InvalidReferrer);
    assert_eq!(error.message(), "Invalid referrer URL");
    assert_eq!(
        loader.resolve("left-pad", "not a url", &tree),
        Err(ResolutionError::InvalidReferrer)
    );
    assert_eq!(resolve_relative("./a.mjs", "relative/main.mjs"), Err(ResolutionError::InvalidReferrer));
}

#[test]
fn package_import_needs_a_referrer_that_names_a_file() {
    let tree = left_pad_tree("{}");
    let error =
        NpmFsModuleLoader.resolve("left-pad", "https://example.org/main.mjs", &tree).unwrap_err();
    assert_eq!(error, ResolutionError::ReferrerNotFile);
    assert_eq!(error.message(), "Referrer is not a file URL");
    assert_eq!(referrer_path("file://example.org/a.mjs"), Err(ResolutionError::ReferrerNotFile));
    assert_eq!(referrer_path("file:///app/src/main.mjs"), Ok("/app/src/main.mjs".to_string()));
    assert_eq!(referrer_path("file:///app/a%20b.mjs"), Ok("/app/a b.mjs".to_string()));
    assert_eq!(ResolutionError::LocationNotUrl.message(), "Failed to convert file path to URL");
}

#[test]
fn package_that_no_level_holds_is_not_found_from_a_url() {
    assert_eq!(
        NpmFsModuleLoader.resolve("left-pad", "file:///app/src/main.mjs", &PackageTree::new()),
        Err(ResolutionError::NotFound("left-pad".to_string()))
    );
}

#[test]
fn relative_paths_follow_the_rules_of_urls() {
    assert_eq!(resolve_relative("../lib/a.mjs", "/app/src/main.mjs"), Ok("/app/lib/a.mjs".to_string()));
    assert_eq!(resolve_relative("/abs/./b.mjs", "/app/src/main.mjs"), Ok("/abs/b.mjs".to_string()));
    assert_eq!(resolve_relative("file:///abs/c.mjs", "/app/main.mjs"), Ok("/abs/c.mjs".to_string()));
    assert_eq!(
        resolve_relative("file://localhost/abs/c.mjs", "/app/main.mjs"),
        Ok("/abs/c.mjs".to_string())
    );
    assert_eq!(resolve_relative("./a%20b.mjs", "/app/main.mjs"), Ok("/app/a b.mjs".to_string()));
    assert_eq!(resolve_relative("./a.mjs?v=1#top", "/app/main.mjs"), Ok("/app/a.mjs".to_string()));
    assert_eq!(resolve_relative("./x.mjs", "/main.mjs"), Ok("/x.mjs".to_string()));
}

#[test]
fn file_url_with_a_foreign_host_is_refused() {
    let error = resolve_relative("file://example.org/a.mjs", "/app/main.mjs").unwrap_err();
    assert_eq!(error, ResolutionError::InvalidSpecifier("file://example.org/a.mjs".to_string()));
    assert_eq!(error.message(), "Invalid specifier: file://example.org/a.mjs");
}

#[test]
fn load_plan_names_the_file_and_its_kind() {
    let loader = NpmFsModuleLoader;
    assert_eq!(
        loader.load("file:///app/src/main.mjs", &RequestedModuleType::Unspecified),
        Ok(LoadPlan { path: "/app/src/main.mjs".to_string(), module_type: ModuleType::JavaScript })
    );
    assert_eq!(
        loader.load("file:///app/data.json", &RequestedModuleType::Json),
        Ok(LoadPlan { path: "/app/data.json".to_string(), module_type: ModuleType::Json })
    );
    assert_eq!(
        loader.load("file:///app/lib.wasm", &RequestedModuleType::Unspecified),
        Ok(LoadPlan { path: "/app/lib.wasm".to_string(), module_type: ModuleType::Wasm })
    );
    assert_eq!(
        loader.load("file:///app/src/main.mjs", &RequestedModuleType::Json),
        Err(LoadError::TypeMismatch)
    );
}

#[test]
fn module_that_is_no_file_url_is_refused_by_name() {
    let loader = NpmFsModuleLoader;
    let error =
        loader.load("https://example.com/a.mjs", &RequestedModuleType::Unspecified).unwrap_err();
    assert_eq!(error, LoadError::NotFileUrl("https://example.com/a.mjs".to_string()));
    assert_eq!(
        error.message(),
        "Provided module specifier \"https://example.com/a.mjs\" is not a file URL."
    );
    assert_eq!(
        loader.load("/app/a.mjs", &RequestedModuleType::Unspecified),
        Err(LoadError::NotFileUrl("/app/a.mjs".to_string()))
    );
    assert_eq!(
        LoadError::TypeMismatch.message(),
        "The module is not of the type that the import asked for."
    );
}

#[test]
fn first_file_at_a_location_counts() {
    let mut tree = PackageTree::new();
    tree.add_directory("/node-style-modules/dep");
    tree.add_file("/node-style-modules/dep/package.json", b"{\"module\": \"a.mjs\"}".to_vec());
    tree.add_file("/node-style-modules/dep/package.json", b"{\"module\": \"b.mjs\"}".to_vec());
    tree.add_file("/node-style-modules/dep/a.mjs", Vec::new());
    tree.add_file("/node-style-modules/dep/b.mjs", Vec::new());
    assert_eq!(
        resolve_package(&tree, "dep", "/"),
        Ok("/node-style-modules/dep/a.mjs".to_string())
    );
}
