use quick_entry::resolve::{
    make_quick_entry_data, resolve_entry_context, Collection, RegistryFault, SettingsFault,
};

const DEFAULT_PATH: &str = "/Users/danny/dev/astro-editor/temp-dummy-astro-project";

fn good_settings() -> String {
    let mut s = String::new();
    s.push_str("{\"general\":{\"ideCommand\":\"code\",\"theme\":\"dark\",\"highlights\":{},");
    s.push_str("\"quickEntry\":{\"enabled\":true,\"globalShortcut\":\"Cmd+Shift+N\",");
    s.push_str("\"defaultCollection\":\"posts\"}},");
    s.push_str("\"defaultProjectSettings\":{},\"version\":1}");
    s
}

fn good_registry() -> String {
    "{\"projects\":{\"p1\":{\"path\":\"/proj\"}},\"lastOpenedProject\":\"p1\",\"version\":1}"
        .to_string()
}

#[test]
fn both_absent_yield_fixed_defaults() {
    let r = resolve_entry_context(None, None);
    assert_eq!(r.project_path, DEFAULT_PATH);
    assert_eq!(r.default_collection, "notes");
    assert_eq!(r.settings_fault, Some(SettingsFault::ReadFailed));
    assert_eq!(r.registry_fault, None);
}

#[test]
fn present_layers_yield_stored_values() {
    let s = good_settings();
    let g = good_registry();
    let r = resolve_entry_context(Some(&s), Some(&g));
    assert_eq!(r.project_path, "/proj");
    assert_eq!(r.default_collection, "posts");
    assert_eq!(r.settings_fault, None);
    assert_eq!(r.registry_fault, None);
}

#[test]
fn malformed_settings_short_circuit() {
    let g = good_registry();
    let r = resolve_entry_context(Some("{not json"), Some(&g));
    assert_eq!(r.project_path, DEFAULT_PATH);
    assert_eq!(r.default_collection, "notes");
    assert_eq!(r.settings_fault, Some(SettingsFault::ParseFailed));
    assert_eq!(r.registry_fault, None);
}

#[test]
fn settings_missing_nested_field_are_discarded_wholesale() {
    // No quickEntry.defaultCollection: the whole settings layer is dropped.
    let mut s = String::new();
    s.push_str("{\"general\":{\"ideCommand\":\"code\",\"theme\":\"dark\",\"highlights\":{},");
    s.push_str("\"quickEntry\":{\"enabled\":true,\"globalShortcut\":\"Cmd+Shift+N\"}},");
    s.push_str("\"defaultProjectSettings\":{},\"version\":1}");
    let g = good_registry();
    let r = resolve_entry_context(Some(&s), Some(&g));
    assert_eq!(r.default_collection, "notes");
    assert_eq!(r.settings_fault, Some(SettingsFault::ParseFailed));
    // The registry is never consulted in this branch.
    assert_eq!(r.project_path, DEFAULT_PATH);
    assert_eq!(r.registry_fault, None);
}

#[test]
fn registry_absent_or_malformed_fall_back() {
    let s = good_settings();

    let r = resolve_entry_context(Some(&s), None);
    assert_eq!(r.project_path, DEFAULT_PATH);
    assert_eq!(r.default_collection, "posts");
    assert_eq!(r.registry_fault, Some(RegistryFault::ReadFailed));

    let r = resolve_entry_context(Some(&s), Some("]["));
    assert_eq!(r.project_path, DEFAULT_PATH);
    assert_eq!(r.registry_fault, Some(RegistryFault::ParseFailed));
}

#[test]
fn registry_fallback_reasons_are_distinct() {
    let s = good_settings();

    let no_last = "{\"projects\":{\"p1\":{\"path\":\"/proj\"}},\"lastOpenedProject\":null,\"version\":1}";
    let r = resolve_entry_context(Some(&s), Some(no_last));
    assert_eq!(r.project_path, DEFAULT_PATH);
    assert_eq!(r.registry_fault, Some(RegistryFault::NoLastOpened));

    let absent_key = "{\"projects\":{\"p1\":{\"path\":\"/proj\"}},\"version\":1}";
    let r = resolve_entry_context(Some(&s), Some(absent_key));
    assert_eq!(r.registry_fault, Some(RegistryFault::NoLastOpened));

    let missing_project =
        "{\"projects\":{\"p2\":{\"path\":\"/proj\"}},\"lastOpenedProject\":\"p1\",\"version\":1}";
    let r = resolve_entry_context(Some(&s), Some(missing_project));
    assert_eq!(r.project_path, DEFAULT_PATH);
    assert_eq!(r.registry_fault, Some(RegistryFault::ProjectNotFound));

    let path_missing =
        "{\"projects\":{\"p1\":{\"name\":\"x\"}},\"lastOpenedProject\":\"p1\",\"version\":1}";
    let r = resolve_entry_context(Some(&s), Some(path_missing));
    assert_eq!(r.project_path, DEFAULT_PATH);
    assert_eq!(r.registry_fault, Some(RegistryFault::PathMissing));

    let path_not_string =
        "{\"projects\":{\"p1\":{\"path\":7}},\"lastOpenedProject\":\"p1\",\"version\":1}";
    let r = resolve_entry_context(Some(&s), Some(path_not_string));
    assert_eq!(r.project_path, DEFAULT_PATH);
    assert_eq!(r.registry_fault, Some(RegistryFault::PathNotString));

    let bad_shape = "{\"projects\":[],\"lastOpenedProject\":\"p1\",\"version\":1}";
    let r = resolve_entry_context(Some(&s), Some(bad_shape));
    assert_eq!(r.project_path, DEFAULT_PATH);
    assert_eq!(r.registry_fault, Some(RegistryFault::ParseFailed));
}

#[test]
fn resolution_never_fails_across_combinations() {
    let s = good_settings();
    let g = good_registry();
    let settings_cases: [Option<&str>; 3] = [None, Some("oops"), Some(&s)];
    let registry_cases: [Option<&str>; 4] =
        [None, Some("oops"), Some(&g), Some("{\"projects\":{},\"version\":1}")];
    for sc in settings_cases {
        for rc in registry_cases {
            let r = resolve_entry_context(sc, rc);
            assert!(!r.project_path.is_empty());
            assert!(!r.default_collection.is_empty());
        }
    }
}

#[test]
fn quick_entry_data_combines_resolution_and_collections() {
    let s = good_settings();
    let g = good_registry();
    let r = resolve_entry_context(Some(&s), Some(&g));
    let cols = vec![Collection { name: "posts".to_string() }, Collection {
        name: "notes".to_string(),
    }];
    let data = make_quick_entry_data(&r, cols);
    assert_eq!(data.project_path, "/proj");
    assert_eq!(data.default_collection, "posts");
    assert_eq!(data.collections.len(), 2);
    assert_eq!(data.collections[0].name, "posts");
}
