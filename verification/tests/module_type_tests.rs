use script_bridge::module_type::{
    checked_module_type, determine_module_type, extension, LoadError, ModuleType,
    RequestedModuleType,
};

fn extension_text(path: &str) -> Option<String> {
    let chars: Vec<char> = path.chars().collect();
    extension(&chars).map(|ext| ext.into_iter().collect())
}

#[test]
fn extension_is_what_follows_the_last_dot_of_the_file_name() {
    assert_eq!(extension_text("/app/data.json"), Some("json".to_string()));
    assert_eq!(extension_text("/app/archive.tar.gz"), Some("gz".to_string()));
    assert_eq!(extension_text("/app/trailing."), Some(String::new()));
    assert_eq!(extension_text("/app/.a.b"), Some("b".to_string()));
    assert_eq!(extension_text("/app/dir/data.json/"), Some("json".to_string()));
    assert_eq!(extension_text("/app/dir/data.json/."), Some("json".to_string()));
}

#[test]
fn some_locations_have_no_extension() {
    assert_eq!(extension_text("/app/README"), None);
    assert_eq!(extension_text("/app/.hidden"), None);
    assert_eq!(extension_text("/app.d/file"), None);
    assert_eq!(extension_text("/app/.."), None);
    assert_eq!(extension_text("/"), None);
    assert_eq!(extension_text(""), None);
}

#[test]
fn kind_follows_the_extension() {
    let unspecified = RequestedModuleType::Unspecified;
    assert_eq!(determine_module_type("/a/data.json", &unspecified), ModuleType::Json);
    assert_eq!(determine_module_type("/a/data.JSON", &unspecified), ModuleType::Json);
    assert_eq!(determine_module_type("/a/data.Json", &unspecified), ModuleType::Json);
    assert_eq!(determine_module_type("/a/lib.wasm", &unspecified), ModuleType::Wasm);
    assert_eq!(determine_module_type("/a/lib.WaSm", &unspecified), ModuleType::Wasm);
    assert_eq!(determine_module_type("/a/main.mjs", &unspecified), ModuleType::JavaScript);
    assert_eq!(determine_module_type("/a/main.jsonx", &unspecified), ModuleType::JavaScript);
    assert_eq!(determine_module_type("/a/main", &unspecified), ModuleType::JavaScript);
    assert_eq!(determine_module_type("/a/json", &unspecified), ModuleType::JavaScript);
}

#[test]
fn requested_kind_counts_only_where_the_extension_decides_nothing() {
    let css = RequestedModuleType::Other("css".to_string());
    assert_eq!(determine_module_type("/a/style.css", &css), ModuleType::Other("css".to_string()));
    assert_eq!(determine_module_type("/a/data.json", &css), ModuleType::Json);
    assert_eq!(determine_module_type("/a/lib.wasm", &css), ModuleType::Wasm);
    assert_eq!(determine_module_type("/a/noext", &css), ModuleType::JavaScript);
    assert_eq!(
        determine_module_type("/a/main.mjs", &RequestedModuleType::Json),
        ModuleType::JavaScript
    );
}

#[test]
fn import_without_a_kind_accepts_every_file() {
    let unspecified = RequestedModuleType::Unspecified;
    assert_eq!(checked_module_type("/a/data.json", &unspecified), Ok(ModuleType::Json));
    assert_eq!(checked_module_type("/a/lib.wasm", &unspecified), Ok(ModuleType::Wasm));
    assert_eq!(checked_module_type("/a/main.mjs", &unspecified), Ok(ModuleType::JavaScript));
}

#[test]
fn import_with_a_kind_refuses_a_file_of_another_kind() {
    let json = RequestedModuleType::Json;
    assert_eq!(checked_module_type("/a/data.json", &json), Ok(ModuleType::Json));
    assert_eq!(checked_module_type("/a/main.mjs", &json), Err(LoadError::TypeMismatch));
    assert_eq!(checked_module_type("/a/lib.wasm", &json), Err(LoadError::TypeMismatch));
    let css = RequestedModuleType::Other("css".to_string());
    assert_eq!(checked_module_type("/a/style.css", &css), Ok(ModuleType::Other("css".to_string())));
    assert_eq!(checked_module_type("/a/data.json", &css), Err(LoadError::TypeMismatch));
    assert_eq!(checked_module_type("/a/noext", &css), Err(LoadError::TypeMismatch));
}
