use rust_editor::sample::{line_report, plan_line, take_line, LineError, SCRATCH_SIZE};

#[test]
fn the_scratch_area_holds_a_kilobyte() {
    assert_eq!(SCRATCH_SIZE, 1024);
}

#[test]
fn a_failed_length_query_ends_the_fetch() {
    assert_eq!(plan_line(-1), Err(LineError::NoLength));
    assert_eq!(plan_line(i32::MIN), Err(LineError::NoLength));
}

#[test]
fn a_line_that_does_not_fit_is_not_asked_for() {
    assert_eq!(plan_line(1025), Err(LineError::TooLong));
    assert_eq!(plan_line(i32::MAX), Err(LineError::TooLong));
    assert_eq!(plan_line(1024), Ok(Some(1024)));
}

#[test]
fn an_empty_line_is_not_asked_for() {
    assert_eq!(plan_line(0), Ok(None));
    assert_eq!(plan_line(1), Ok(Some(1)));
}

#[test]
fn the_line_is_what_the_host_wrote() {
    let mut scratch = [0u8; SCRATCH_SIZE];
    scratch[..7].copy_from_slice("größe".as_bytes());
    assert_eq!(take_line(7, &scratch), Ok("größe".to_string()));
    assert_eq!(take_line(2, &scratch), Ok("gr".to_string()));
    assert_eq!(take_line(0, &scratch), Ok(String::new()));
    assert_eq!(take_line(1024, &[b'x'; 1024]), Ok("x".repeat(1024)));
}

#[test]
fn a_failed_request_or_broken_text_is_an_error() {
    let mut scratch = [0u8; SCRATCH_SIZE];
    scratch[..7].copy_from_slice("größe".as_bytes());
    assert_eq!(take_line(-1, &scratch), Err(LineError::NoData));
    assert_eq!(take_line(-4, &scratch), Err(LineError::NoData));
    assert_eq!(take_line(1025, &scratch), Err(LineError::NoData));
    assert_eq!(take_line(3, &scratch), Err(LineError::NotUtf8));
    assert_eq!(take_line(1, &[0xff]), Err(LineError::NotUtf8));
}

#[test]
fn the_report_is_the_line_behind_its_label() {
    assert_eq!(line_report(Ok("int main()".to_string())), "Line 0: int main()");
    assert_eq!(line_report(Ok(String::new())), "Line 0: ");
    assert_eq!(line_report(Ok("x".repeat(1016))), format!("Line 0: {}", "x".repeat(1016)));
}

#[test]
fn a_report_that_does_not_fit_says_so() {
    assert_eq!(line_report(Ok("x".repeat(1017))), "Error: Combined message is too long.");
    assert_eq!(line_report(Ok("ß".repeat(509))), "Error: Combined message is too long.");
    assert_eq!(line_report(Ok("ß".repeat(508))), format!("Line 0: {}", "ß".repeat(508)));
}

#[test]
fn an_error_is_reported_in_its_words() {
    assert_eq!(line_report(Err(LineError::NoLength)), "API Error: Could not get line length.");
    assert_eq!(line_report(Err(LineError::TooLong)), "Error: Line is too long to fit in the buffer.");
    assert_eq!(line_report(Err(LineError::NoData)), "API Error: Could not get line data.");
    assert_eq!(line_report(Err(LineError::NotUtf8)), "Error: Line contains invalid UTF-8.");
    assert_eq!(LineError::NoData.message(), "API Error: Could not get line data.");
}
