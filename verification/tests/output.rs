use cap_cli::{
    error_with_detail, report_error, report_list, report_result, ErrorReport, ListReport,
    OutputFormat, ResultReport,
    ERROR_STATUS, SUCCESS_STATUS,
};

#[test]
fn json_flag_selects_the_format() {
    assert_eq!(OutputFormat::from_json_flag(true), OutputFormat::Json);
    assert_eq!(OutputFormat::from_json_flag(false), OutputFormat::Human);
}

#[test]
fn human_results_are_left_to_the_caller() {
    assert!(matches!(report_result(OutputFormat::Human, 7u32), ResultReport::Human));
}

#[test]
fn json_lists_carry_success_status_and_the_items_in_order() {
    let items = ["a", "b", "c"];
    match report_list(OutputFormat::Json, &items[..]) {
        ListReport::Json(out) => {
            assert_eq!(out.status, "success");
            assert_eq!(out.items, &["a", "b", "c"][..]);
        }
        ListReport::Human => panic!("expected JSON"),
    }
}

#[test]
fn empty_json_lists_are_reported() {
    let items: Vec<u32> = Vec::new();
    match report_list(OutputFormat::Json, &items) {
        ListReport::Json(out) => {
            assert_eq!(out.status, SUCCESS_STATUS);
            assert!(out.items.is_empty());
        }
        ListReport::Human => panic!("expected JSON"),
    }
}

#[test]
fn human_lists_are_left_to_the_caller() {
    assert!(matches!(report_list(OutputFormat::Human, vec![1u8]), ListReport::Human));
}

#[test]
fn json_results_carry_success_status_and_the_data() {
    match report_result(OutputFormat::Json, vec![1u32, 2, 3]) {
        ResultReport::Json(out) => {
            assert_eq!(out.status, "success");
            assert_eq!(out.status, SUCCESS_STATUS);
            assert_eq!(out.data, vec![1, 2, 3]);
        }
        ResultReport::Human => panic!("expected JSON"),
    }
}

#[test]
fn human_errors_go_to_stderr_with_prefix() {
    match report_error(OutputFormat::Human, "Invalid width") {
        ErrorReport::Stderr(line) => assert_eq!(line, "Error: Invalid width"),
        ErrorReport::Json(_) => panic!("expected a line"),
    }
}

#[test]
fn json_errors_carry_error_status_and_message() {
    match report_error(OutputFormat::Json, "Screen with id '3' not found") {
        ErrorReport::Json(err) => {
            assert_eq!(err.status, "error");
            assert_eq!(err.status, ERROR_STATUS);
            assert_eq!(err.message, "Screen with id '3' not found");
        }
        ErrorReport::Stderr(_) => panic!("expected JSON"),
    }
}

#[test]
fn empty_error_message_is_kept() {
    match report_error(OutputFormat::Human, "") {
        ErrorReport::Stderr(line) => assert_eq!(line, "Error: "),
        ErrorReport::Json(_) => panic!("expected a line"),
    }
}

#[test]
fn detailed_errors_join_context_and_cause() {
    assert_eq!(error_with_detail("Export error", "disk full"), "Export error: disk full");
    assert_eq!(error_with_detail("", ""), ": ");
}
