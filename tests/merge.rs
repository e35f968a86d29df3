use cairo1_compile::error::ToolError;
use cairo1_compile::layout::Layout;
use cairo1_compile::merge::{frame_merged, merge_documents};
use cairo_lang_sierra::program::Program;

const EMPTY_PROGRAM: &str =
    "{\"type_declarations\":[],\"libfunc_declarations\":[],\"statements\":[],\"funcs\":[]}";

const SPACED_PROGRAM: &str = "{ \"type_declarations\": [],\n  \"libfunc_declarations\": [],\n  \"statements\": [],\n  \"funcs\": [] }";

#[test]
fn frame_merged_orders_the_three_keys() {
    let doc = frame_merged("{\"a\":1}", "[true,null]", Layout::Recursive);
    assert_eq!(
        doc,
        "{\"program\":{\"a\":1},\"program_input\":[true,null],\"layout\":\"recursive\"}"
    );
}

#[test]
fn frame_merged_with_empty_parts() {
    let doc = frame_merged("", "", Layout::Recursive);
    assert_eq!(doc, "{\"program\":,\"program_input\":,\"layout\":\"recursive\"}");
}

#[test]
fn merge_reencodes_both_documents_compactly() {
    let doc = merge_documents(SPACED_PROGRAM, " { \"a\" : [1, 2] } ", None).unwrap();
    assert_eq!(
        doc,
        format!("{{\"program\":{},\"program_input\":{{\"a\":[1,2]}},\"layout\":\"recursive\"}}", EMPTY_PROGRAM)
    );
}

#[test]
fn merge_program_field_decodes_to_the_given_program() {
    let doc = merge_documents(SPACED_PROGRAM, "\"text\"", Some(Layout::Recursive)).unwrap();
    let value: serde_json::Value = serde_json::from_str(&doc).unwrap();
    let object = value.as_object().unwrap();
    let keys: Vec<&String> = object.keys().collect();
    assert_eq!(keys.len(), 3);
    let given: Program = serde_json::from_str(SPACED_PROGRAM).unwrap();
    let merged: Program = serde_json::from_value(object["program"].clone()).unwrap();
    assert_eq!(given, merged);
    assert_eq!(object["program_input"], serde_json::Value::String("text".to_string()));
    assert_eq!(object["layout"], serde_json::Value::String("recursive".to_string()));
}

#[test]
fn merge_keeps_any_input_value() {
    let input = "{\"nested\":{\"list\":[1,-2,3.5,\"x\",false,null]},\"n\":12345678901234567890}";
    let doc = merge_documents(EMPTY_PROGRAM, input, None).unwrap();
    let value: serde_json::Value = serde_json::from_str(&doc).unwrap();
    let expected: serde_json::Value = serde_json::from_str(input).unwrap();
    assert_eq!(value["program_input"], expected);
}

#[test]
fn merge_without_layout_equals_recursive_layout() {
    let a = merge_documents(EMPTY_PROGRAM, "[1,2,3]", None).unwrap();
    let b = merge_documents(EMPTY_PROGRAM, "[1,2,3]", Some(Layout::Recursive)).unwrap();
    assert_eq!(a, b);
}

#[test]
fn merge_rejects_malformed_input() {
    let r = merge_documents(EMPTY_PROGRAM, "{\"a\": [1, 2", None);
    assert!(matches!(r, Err(ToolError::InvalidInput(_))));
}

#[test]
fn merge_rejects_empty_input() {
    let r = merge_documents(EMPTY_PROGRAM, "", None);
    assert!(matches!(r, Err(ToolError::InvalidInput(_))));
}

#[test]
fn merge_rejects_malformed_program() {
    let r = merge_documents("{\"type_declarations\": [", "1", None);
    assert!(matches!(r, Err(ToolError::InvalidProgram(_))));
}

#[test]
fn merge_rejects_program_outside_the_schema() {
    let r = merge_documents("{\"x\": 1}", "1", None);
    assert!(matches!(r, Err(ToolError::InvalidProgram(_))));
}

#[test]
fn merge_reports_the_program_first_when_both_are_bad() {
    let r = merge_documents("not json", "not json either", None);
    assert!(matches!(r, Err(ToolError::InvalidProgram(_))));
}

#[test]
fn error_carries_a_message() {
    match merge_documents(EMPTY_PROGRAM, "[", None) {
        Err(ToolError::InvalidInput(message)) => assert!(!message.is_empty()),
        _ => panic!("expected an input error"),
    }
}

#[test]
fn merge_result_is_the_same_for_the_same_texts() {
    let a = merge_documents(SPACED_PROGRAM, "{\"b\": 2, \"a\": 1}", None).unwrap();
    let b = merge_documents(SPACED_PROGRAM, "{\"b\": 2, \"a\": 1}", None).unwrap();
    assert_eq!(a, b);
}

#[test]
fn program_decoder_skips_deep_unknown_fields_that_values_refuse() {
    let deep = format!("{}{}", "[".repeat(200), "]".repeat(200));
    let program = format!(
        "{{\"type_declarations\":[],\"libfunc_declarations\":[],\"statements\":[],\"funcs\":[],\"extra\":{}}}",
        deep
    );
    assert!(serde_json::from_str::<serde_json::Value>(&program).is_err());
    let doc = merge_documents(&program, "0", None).unwrap();
    assert_eq!(
        doc,
        format!("{{\"program\":{},\"program_input\":0,\"layout\":\"recursive\"}}", EMPTY_PROGRAM)
    );
}

#[test]
fn merge_rejects_deeply_nested_input() {
    let deep = format!("{}{}", "[".repeat(200), "]".repeat(200));
    let r = merge_documents(EMPTY_PROGRAM, &deep, None);
    assert!(matches!(r, Err(ToolError::InvalidInput(_))));
}
