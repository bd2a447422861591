use winshim::diagnostics::decimal_string;
use winshim::diagnostics::render_system_message;
use winshim::diagnostics::FormatFailure;
use winshim::diagnostics::Win32Error;

#[test]
fn application_error_renders_fixed_template() {
    let e = Win32Error(0x20000002);
    assert!(!e.needs_host_lookup());
    assert_eq!(e.application_text(), "Win32ApplicationError(536870914)");
}

#[test]
fn application_error_display_needs_no_lookup() {
    let e = Win32Error(0x20000002);
    let text = e.display_text(None).unwrap();
    assert_eq!(text, "Win32ApplicationError(536870914)");
}

#[test]
fn application_error_distinct_from_host_lookup() {
    let e = Win32Error(0x20000002);
    let template = e.display_text(None).unwrap();
    let looked_up = render_system_message(&[0x41, 0x42]);
    assert_ne!(template, looked_up);
}

#[test]
fn system_error_needs_lookup() {
    let e = Win32Error(5);
    assert!(e.needs_host_lookup());
}

#[test]
fn system_error_without_buffer_is_format_failure() {
    let e = Win32Error(5);
    assert_eq!(e.display_text(None), Err(FormatFailure));
}

#[test]
fn system_error_renders_host_buffer() {
    let e = Win32Error(5);
    let units: Vec<u16> = "Access is denied.".encode_utf16().collect();
    let text = e.display_text(Some(&units)).unwrap();
    assert_eq!(text, "Access is denied.");
}

#[test]
fn decimal_renders_zero() {
    assert_eq!(decimal_string(0), "0");
}

#[test]
fn decimal_renders_largest_code() {
    assert_eq!(decimal_string(4294967295), "4294967295");
}

#[test]
fn decimal_renders_plain_number() {
    assert_eq!(decimal_string(12345), "12345");
}

#[test]
fn line_breaks_flatten_to_single_spaces() {
    let units: Vec<u16> = vec![0x41, 0x0D, 0x0A, 0x42];
    assert_eq!(render_system_message(&units), "A  B");
}

#[test]
fn trailing_line_break_flattens() {
    let units: Vec<u16> = "Access is denied.\r\n".encode_utf16().collect();
    assert_eq!(render_system_message(&units), "Access is denied.  ");
}

#[test]
fn lone_high_surrogate_becomes_one_replacement() {
    let units: Vec<u16> = vec![0xD800];
    assert_eq!(render_system_message(&units), "\u{FFFD}");
}

#[test]
fn decoding_continues_after_invalid_unit() {
    let units: Vec<u16> = vec![0xD800, 0x41, 0x42];
    assert_eq!(render_system_message(&units), "\u{FFFD}AB");
}

#[test]
fn lone_low_surrogate_then_valid_pair() {
    let units: Vec<u16> = vec![0xDC00, 0xD834, 0xDD1E];
    assert_eq!(render_system_message(&units), "\u{FFFD}\u{1D11E}");
}

#[test]
fn surrogate_pair_decodes_to_one_character() {
    let units: Vec<u16> = vec![0xD834, 0xDD1E];
    assert_eq!(render_system_message(&units), "\u{1D11E}");
}

#[test]
fn high_surrogate_before_non_low_unit_is_replaced() {
    let units: Vec<u16> = vec![0xD800, 0xD800, 0xDC00];
    assert_eq!(render_system_message(&units), "\u{FFFD}\u{10000}");
}

#[test]
fn empty_buffer_renders_empty_text() {
    let units: Vec<u16> = vec![];
    assert_eq!(render_system_message(&units), "");
}

#[test]
fn plain_text_renders_verbatim() {
    let units: Vec<u16> = vec![0x48, 0x69];
    assert_eq!(render_system_message(&units), "Hi");
}
