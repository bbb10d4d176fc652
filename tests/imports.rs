use sixtyfps_wasm_interpreter::imports::{import_action, loaded_source, pair_callbacks, ImportAction};

#[test]
fn loader_installed_only_with_both_callbacks() {
    assert_eq!(pair_callbacks(Some(1u8), Some("load")), Some((1u8, "load")));
    assert_eq!(pair_callbacks(Some(1u8), None::<&str>), None);
    assert_eq!(pair_callbacks(None::<u8>, Some("load")), None);
    assert_eq!(pair_callbacks(None::<u8>, None::<&str>), None);
}

#[test]
fn resolver_path_is_passed_verbatim() {
    match import_action(Some(Some("lib/widgets.60".to_string()))) {
        ImportAction::Load(p) => assert_eq!(p, "lib/widgets.60"),
        ImportAction::UseDefault => panic!("expected a load"),
    }
}

#[test]
fn resolver_without_path_uses_default() {
    assert!(matches!(import_action(Some(None)), ImportAction::UseDefault));
    assert!(matches!(import_action(None), ImportAction::UseDefault));
}

#[test]
fn loader_content_and_errors() {
    assert_eq!(loaded_source(Ok(Some("X := Rectangle {}".to_string()))), Ok("X := Rectangle {}".to_string()));
    assert_eq!(loaded_source(Ok(None)), Ok(String::new()));
    assert_eq!(loaded_source(Err(Some("404".to_string()))), Err("404".to_string()));
    assert_eq!(loaded_source(Err(None)), Err(String::new()));
}
