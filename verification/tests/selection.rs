use spin_clean::manifest::{ApplicationManifest, BuildConfig, CleanConfig, ComponentManifest};
use spin_clean::select::{
    contains_text, has_component, nothing_to_clean, requested_components, select_components,
    unknown_components, UnknownComponentError,
};

fn component(id: &str, clean: Option<&str>) -> ComponentManifest {
    ComponentManifest {
        id: id.to_string(),
        build: None,
        clean: clean.map(|command| CleanConfig { command: command.to_string(), workdir: None }),
    }
}

fn ids(components: &[ComponentManifest]) -> Vec<String> {
    components.iter().map(|c| c.id.clone()).collect()
}

fn strings(items: &[&str]) -> Vec<String> {
    items.iter().map(|s| s.to_string()).collect()
}

#[test]
fn empty_request_selects_every_component_in_order() {
    let all = vec![component("c", None), component("a", Some("true")), component("b", None)];
    let expected = all.clone();
    let chosen = select_components(all, &Vec::new()).unwrap();
    assert_eq!(chosen, expected);
    assert_eq!(ids(&chosen), strings(&["c", "a", "b"]));
}

#[test]
fn empty_request_on_empty_manifest_selects_nothing() {
    let chosen = select_components(Vec::new(), &Vec::new()).unwrap();
    assert!(chosen.is_empty());
}

#[test]
fn request_selects_in_manifest_order_not_request_order() {
    let all = vec![component("a", None), component("b", Some("make clean")), component("c", None)];
    let chosen = select_components(all, &strings(&["c", "a"])).unwrap();
    assert_eq!(ids(&chosen), strings(&["a", "c"]));
}

#[test]
fn selected_component_keeps_its_fields() {
    let b = ComponentManifest {
        id: "b".to_string(),
        build: Some(BuildConfig {
            command: "cargo build".to_string(),
            workdir: Some("b".to_string()),
            watch: Some(strings(&["src/**/*.rs", "Cargo.toml"])),
        }),
        clean: Some(CleanConfig { command: "cargo clean".to_string(), workdir: Some("b".to_string()) }),
    };
    let all = vec![component("a", None), b.clone()];
    let chosen = select_components(all, &strings(&["b"])).unwrap();
    assert_eq!(chosen, vec![b]);
}

#[test]
fn request_naming_an_id_twice_selects_it_once() {
    let all = vec![component("a", None), component("b", None)];
    let chosen = select_components(all, &strings(&["b", "b"])).unwrap();
    assert_eq!(ids(&chosen), strings(&["b"]));
}

#[test]
fn components_sharing_an_id_are_all_selected() {
    let all = vec![component("a", Some("one")), component("b", None), component("a", Some("two"))];
    let chosen = select_components(all, &strings(&["a"])).unwrap();
    assert_eq!(chosen, vec![component("a", Some("one")), component("a", Some("two"))]);
}

#[test]
fn unknown_ids_are_all_reported() {
    let all = vec![component("a", None), component("b", None)];
    let err = select_components(all, &strings(&["x", "a", "y"])).unwrap_err();
    assert_eq!(err, UnknownComponentError { unknown: strings(&["x", "y"]) });
    assert_eq!(err.message(), "Unknown component(s) x, y");
}

#[test]
fn one_unknown_id_fails_the_whole_request() {
    let all = vec![component("a", None), component("b", None)];
    let err = select_components(all, &strings(&["a", "b", "zed"])).unwrap_err();
    assert_eq!(err.unknown, strings(&["zed"]));
    assert_eq!(err.message(), "Unknown component(s) zed");
}

#[test]
fn unknown_id_named_twice_is_reported_twice() {
    let all = vec![component("a", None)];
    let err = select_components(all, &strings(&["q", "q"])).unwrap_err();
    assert_eq!(err.message(), "Unknown component(s) q, q");
}

#[test]
fn any_request_on_an_empty_manifest_is_unknown() {
    let err = select_components(Vec::new(), &strings(&["a"])).unwrap_err();
    assert_eq!(err.unknown, strings(&["a"]));
}

#[test]
fn ids_are_compared_exactly() {
    let all = vec![component("web", None)];
    let err = select_components(all, &strings(&["Web", "web "])).unwrap_err();
    assert_eq!(err.unknown, strings(&["Web", "web "]));
}

#[test]
fn unknown_components_lists_in_request_order() {
    let all = vec![component("a", None), component("b", None)];
    assert_eq!(unknown_components(&all, &strings(&["z", "b", "y", "a"])), strings(&["z", "y"]));
    assert!(unknown_components(&all, &strings(&["b", "a"])).is_empty());
    assert!(unknown_components(&all, &Vec::new()).is_empty());
}

#[test]
fn requested_components_of_an_empty_request_is_empty() {
    let all = vec![component("a", None)];
    assert!(requested_components(&all, &Vec::new()).is_empty());
    assert_eq!(requested_components(&all, &strings(&["a"])), all);
}

#[test]
fn membership_helpers() {
    let list = strings(&["a", "bc"]);
    assert!(contains_text(&list, &"bc".to_string()));
    assert!(!contains_text(&list, &"b".to_string()));
    assert!(!contains_text(&Vec::new(), &"".to_string()));
    let all = vec![component("a", None), component("b", None)];
    assert!(has_component(&all, &"b".to_string()));
    assert!(!has_component(&all, &"c".to_string()));
}

#[test]
fn nothing_to_clean_when_no_component_has_a_clean_command() {
    assert!(nothing_to_clean(&vec![component("a", None), component("b", None)]));
    assert!(nothing_to_clean(&Vec::new()));
    assert!(!nothing_to_clean(&vec![component("a", None), component("b", Some("true"))]));
}

#[test]
fn build_command_alone_is_nothing_to_clean() {
    let a = ComponentManifest {
        id: "a".to_string(),
        build: Some(BuildConfig { command: "make".to_string(), workdir: None, watch: None }),
        clean: None,
    };
    assert!(nothing_to_clean(&vec![a]));
}

#[test]
fn manifest_clone_is_equal() {
    let manifest = ApplicationManifest {
        components: vec![
            component("a", Some("true")),
            ComponentManifest {
                id: "b".to_string(),
                build: Some(BuildConfig {
                    command: "make".to_string(),
                    workdir: Some("b".to_string()),
                    watch: Some(strings(&["*.c"])),
                }),
                clean: None,
            },
        ],
    };
    assert_eq!(manifest.clone(), manifest);
    let copy: Vec<ComponentManifest> = manifest.components.iter().map(|c| c.clone()).collect();
    assert_eq!(ApplicationManifest { components: copy }, manifest);
}
