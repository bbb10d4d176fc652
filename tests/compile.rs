use sixtyfps_wasm_interpreter::component::compile_outcome;
use sixtyfps_wasm_interpreter::diagnostics::{DiagnosticRecord, Severity};

#[test]
fn compiled_component_is_handed_back() {
    let warnings = vec![DiagnosticRecord {
        message: "deprecated property".to_string(),
        source_file: Some("main.60".to_string()),
        line: 2,
        column: 5,
        severity: Severity::Warning,
    }];
    match compile_outcome(Some("Hello"), &warnings) {
        Ok(c) => assert_eq!(c, "Hello"),
        Err(_) => panic!("expected the component"),
    }
    assert!(compile_outcome(Some(7u32), &vec![]).is_ok());
}

#[test]
fn missing_component_gives_aggregate_error() {
    let errors = vec![DiagnosticRecord {
        message: "Syntax error: expected ';'".to_string(),
        source_file: Some("main.60".to_string()),
        line: 4,
        column: 11,
        severity: Severity::Error,
    }];
    let e = match compile_outcome(None::<u32>, &errors) {
        Err(e) => e,
        Ok(_) => panic!("expected an error"),
    };
    assert_eq!(e.errors.len(), 1);
    assert_eq!(e.errors[0].file_name, "main.60");
    assert_eq!(e.errors[0].line_number, 4);
    assert_eq!(e.errors[0].column_number, 11);
    assert_eq!(e.summary, "main.60:4:11: Syntax error: expected ';'");
}
