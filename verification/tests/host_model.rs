use winshim::acquire::fill_acquisition;
use winshim::acquire::handle_acquisition;
use winshim::acquire::registration_acquisition;
use winshim::diagnostics::Win32Error;
use winshim::win32::makeintresourcew;
use winshim::win32::wide_null;
use winshim::win32::IDCursor;
use winshim::win32::SysColor;
use winshim::win32::CREATESTRUCTW;
use winshim::win32::GradientTriangle;
use winshim::win32::TRIVERTIX;
use winshim::win32::MSG;
use winshim::win32::PAINTSTRUCT;
use winshim::win32::POINT;
use winshim::win32::RECT;
use winshim::win32::WNDCLASSW;
use winshim::win32::COLOR_WINDOW;
use winshim::win32::IDC_ARROW;
use winshim::win32::WS_OVERLAPPEDWINDOW;

#[test]
fn makeintresourcew_carries_the_identifier() {
    assert_eq!(makeintresourcew(32512), 32512);
    assert_eq!(makeintresourcew(0), 0);
}

#[test]
fn wide_null_terminates_ascii_text() {
    assert_eq!(wide_null("abc"), vec![97, 98, 99, 0]);
}

#[test]
fn wide_null_of_empty_text_is_one_zero_unit() {
    assert_eq!(wide_null(""), vec![0]);
}

#[test]
fn wide_null_encodes_basic_plane_characters() {
    assert_eq!(wide_null("\u{00E9}"), vec![0x00E9, 0]);
}

#[test]
fn wide_null_encodes_surrogate_pairs() {
    assert_eq!(wide_null("\u{1D11E}"), vec![0xD834, 0xDD1E, 0]);
}

#[test]
fn wide_null_matches_std_encoding() {
    let s = "Sample Window Class";
    let expected: Vec<u16> = s.encode_utf16().chain(Some(0)).collect();
    assert_eq!(wide_null(s), expected);
}

#[test]
fn cursor_identifiers_match_the_host_table() {
    assert_eq!(IDCursor::Arrow.id(), 32512);
    assert_eq!(IDCursor::Wait.id(), 32514);
    assert_eq!(IDCursor::Arrow.id() as usize, IDC_ARROW);
}

#[test]
fn sys_color_indexes_match_the_host_table() {
    assert_eq!(SysColor::Window.index(), 5);
    assert_eq!(SysColor::Window.index(), COLOR_WINDOW);
    assert_eq!(SysColor::ScrollBar.index(), 0);
    assert_eq!(SysColor::MenuBar.index(), 30);
}

#[test]
fn brush_is_one_past_the_color_index() {
    assert_eq!(SysColor::Window.brush(), 6);
    assert_eq!(SysColor::Desktop.brush(), 2);
}

#[test]
fn overlapped_window_style_combines_the_flags() {
    assert_eq!(WS_OVERLAPPEDWINDOW, 0x00CF0000);
}

#[test]
fn class_record_defaults_to_all_zero() {
    let wc = WNDCLASSW::default();
    assert_eq!(wc.style, 0);
    assert_eq!(wc.lpfn_wnd_proc, 0);
    assert_eq!(wc.h_instance, 0);
    assert_eq!(wc.h_cursor, 0);
    assert_eq!(wc.lpsz_class_name, 0);
}

#[test]
fn message_record_defaults_to_all_zero() {
    let msg = MSG::default();
    assert_eq!(msg.hwnd, 0);
    assert_eq!(msg.message, 0);
    assert_eq!(msg.w_param, 0);
    assert_eq!(msg.l_param, 0);
    assert_eq!(msg.pt.x, 0);
    assert_eq!(msg.pt.y, 0);
}

#[test]
fn paint_record_defaults_to_all_zero() {
    let ps = PAINTSTRUCT::default();
    assert_eq!(ps.hdc, 0);
    assert_eq!(ps.rc_paint.left, 0);
    assert_eq!(ps.rc_paint.bottom, 0);
    assert_eq!(ps.rgb_reserved, [0u8; 32]);
}

#[test]
fn geometry_records_default_to_all_zero() {
    let p = POINT::default();
    assert_eq!((p.x, p.y), (0, 0));
    let r = RECT::default();
    assert_eq!((r.left, r.top, r.right, r.bottom), (0, 0, 0, 0));
}

#[test]
fn creation_record_defaults_to_all_zero() {
    let cs = CREATESTRUCTW::default();
    assert_eq!(cs.lp_create_params, 0);
    assert_eq!(cs.h_instance, 0);
    assert_eq!(cs.style, 0);
}

#[test]
fn gradient_records_default_to_all_zero() {
    let v = TRIVERTIX::default();
    assert_eq!((v.x, v.y, v.red, v.green, v.blue, v.alpha), (0, 0, 0, 0, 0, 0));
    let t = GradientTriangle::default();
    assert_eq!((t.vertex1, t.vertex2, t.vertex3), (0, 0, 0));
}

#[test]
fn nonzero_handle_is_acquired() {
    assert_eq!(handle_acquisition(42, 5), Ok(42));
}

#[test]
fn null_handle_carries_the_failure_code() {
    assert_eq!(handle_acquisition(0, 5), Err(Win32Error(5)));
}

#[test]
fn nonzero_atom_registers() {
    assert_eq!(registration_acquisition(17, 3), Ok(17));
}

#[test]
fn zero_atom_carries_the_failure_code() {
    assert_eq!(registration_acquisition(0, 3), Err(Win32Error(3)));
}

#[test]
fn fill_outcome_follows_the_return_word() {
    assert_eq!(fill_acquisition(1), Ok(()));
    assert_eq!(fill_acquisition(-3), Ok(()));
    assert_eq!(fill_acquisition(0), Err(()));
}
