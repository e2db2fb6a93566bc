use tsc_runtime::render::{check_ir_version, crepus_render};

#[test]
fn renders_minimal_bundle() {
    let bundle = r#"{"entry":"index.crepus","files":{"index.crepus":"div class=\"x\"\n  \"hello\""}}"#;
    let html = crepus_render(bundle).expect("render");
    assert!(html.contains("hello"));
    assert!(html.contains("class=\"x\""));
}

#[test]
fn bundle_without_entry_is_refused() {
    let err = crepus_render(r#"{"files":{"index.crepus":"div"}}"#).unwrap_err();
    assert_eq!(err, "render error: bundle missing string field \"entry\"");
}

#[test]
fn bundle_without_files_is_refused() {
    let err = crepus_render(r#"{"entry":"index.crepus"}"#).unwrap_err();
    assert_eq!(err, "render error: bundle missing \"files\" object");
}

#[test]
fn invalid_bundle_json_is_refused() {
    let err = crepus_render("{ invalid json }").unwrap_err();
    assert!(err.contains("bundle JSON:"));
}

#[test]
fn current_ir_version_is_accepted() {
    assert_eq!(check_ir_version(7), Ok(()));
}

#[test]
fn other_ir_version_is_refused() {
    assert_eq!(
        check_ir_version(3),
        Err("unexpected IR version 3 (expected 7)".to_string())
    );
    assert_eq!(
        check_ir_version(4_294_967_295),
        Err("unexpected IR version 4294967295 (expected 7)".to_string())
    );
    assert_eq!(
        check_ir_version(12),
        Err("unexpected IR version 12 (expected 7)".to_string())
    );
}
