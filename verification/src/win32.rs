//! Plain-value models of the host windowing API's records and constants.
//!
//! The host API traffics in raw pointers and opaque handles.  Inside the
//! library every handle and pointer appears as a plain numeric identifier
//! (`0` standing for null); the unverified program around the library
//! converts between these identifiers and the real handles.  The record
//! layouts mirror the host's, field for field, so that a caller can fill
//! them from, or into, the real structures.

use vstd::prelude::*;

use crate::utf16::encode_units;
use vstd::string::StrSliceExecFns;

verus! {

// Aliases to literals and primitive types of the host's C interface.
pub type CUint = u32;

pub type CInt = i32;

pub type UintPtr = usize;

pub type LongPtr = isize;

pub type CLong = i32;

pub type LONG = CLong;

pub type BYTE = u8;

pub type WcharT = u16;

pub type DWORD = u32;

pub type CUlong = u32;

pub type WORD = u16;

pub type CUshort = u16;

pub type ATOM = WORD;

pub type BOOL = CInt;

// Aliases of types which the host defines over the above.
pub type LPARAM = LongPtr;

pub type LRESULT = LongPtr;

pub type WPARAM = UintPtr;

pub type UINT = CUint;

pub type WCHAR = WcharT;

pub type COLOR16 = CUshort;

// Handles and pointers, modelled as plain numeric identifiers (0 = null).
pub type HANDLE = usize;

pub type HINSTANCE = HANDLE;

pub type HMODULE = HINSTANCE;

pub type HICON = HANDLE;

pub type HCURSOR = HICON;

pub type HBRUSH = HANDLE;

pub type HWND = HANDLE;

pub type HDC = HANDLE;

pub type HMENU = HANDLE;

pub type HLOCAL = HANDLE;

pub type LPCWSTR = usize;

pub type LPWSTR = usize;

pub type LPVOID = usize;

/// The window-procedure slot of a class record: the identifier of the
/// callback the host will invoke (0 = none).
pub type WNDPROC = usize;

// Window styles.
pub const WS_OVERLAPPED: u32 = 0x00000000;

pub const WS_CAPTION: u32 = 0x00C00000;

pub const WS_SYSMENU: u32 = 0x00080000;

pub const WS_THICKFRAME: u32 = 0x00040000;

pub const WS_MINIMIZEBOX: u32 = 0x00020000;

pub const WS_MAXIMIZEBOX: u32 = 0x00010000;

pub const WS_OVERLAPPEDWINDOW: u32 = WS_OVERLAPPED | WS_CAPTION | WS_SYSMENU | WS_THICKFRAME
    | WS_MINIMIZEBOX | WS_MAXIMIZEBOX;

/// Asks the host to pick a default position or size.
pub const CW_USEDEFAULT: CInt = -2147483648;

pub const COLOR_WINDOW: u32 = 5;

pub const SW_SHOW: CInt = 5;

pub const MB_OKCANCEL: u32 = 1;

pub const IDOK: CInt = 1;

/// The per-window user-data association slot's index.
pub const GWLP_USERDATA: CInt = -21;

/// The resource identifier of the standard arrow cursor.
pub const IDC_ARROW: LPCWSTR = 32512;

// Flags for the host's message-table formatting call.
pub const FORMAT_MESSAGE_ALLOCATE_BUFFER: DWORD = 0x00000100;

pub const FORMAT_MESSAGE_FROM_SYSTEM: DWORD = 0x00001000;

pub const FORMAT_MESSAGE_IGNORE_INSERTS: DWORD = 0x00000200;

// Gradient-fill modes.
pub const GRADIENT_FILL_RECT_H: CUlong = 0x00000000;

pub const GRADIENT_FILL_RECT_V: CUlong = 0x00000001;

pub const GRADIENT_FILL_TRIANGLE: CUlong = 0x00000002;

// The numeric event kinds the dispatch machine recognises.
pub const WM_CLOSE: u32 = 0x0010;

pub const WM_DESTROY: u32 = 0x0002;

pub const WM_MOUSEMOVE: u32 = 0x0200;

pub const WM_PAINT: u32 = 0x000F;

pub const WM_NCCREATE: u32 = 0x0081;

pub const WM_CREATE: u32 = 0x0001;

/// The predefined cursor styles.
#[derive(Debug, Clone, Copy, PartialEq, Eq, Structural)]
pub enum IDCursor {
    /// Standard arrow and small hourglass
    AppStarting,
    /// Standard arrow
    Arrow,
    /// Crosshair
    Cross,
    /// Hand
    Hand,
    /// Arrow and question mark
    Help,
    /// I-beam
    IBeam,
    /// Slashed circle
    No,
    /// Four-pointed arrow pointing north, south, east, and west
    SizeAll,
    /// Double-pointed arrow pointing northeast and southwest
    SizeNeSw,
    /// Double-pointed arrow pointing north and south
    SizeNS,
    /// Double-pointed arrow pointing northwest and southeast
    SizeNwSe,
    /// Double-pointed arrow pointing west and east
    SizeWE,
    /// Vertical arrow
    UpArrow,
    /// Hourglass
    Wait,
}

/// The host's resource identifier for a predefined cursor style.
pub open spec fn spec_cursor_id(c: IDCursor) -> WORD {
    match c {
        IDCursor::AppStarting => 32650,
        IDCursor::Arrow => 32512,
        IDCursor::Cross => 32515,
        IDCursor::Hand => 32649,
        IDCursor::Help => 32651,
        IDCursor::IBeam => 32513,
        IDCursor::No => 32648,
        IDCursor::SizeAll => 32646,
        IDCursor::SizeNeSw => 32643,
        IDCursor::SizeNS => 32645,
        IDCursor::SizeNwSe => 32642,
        IDCursor::SizeWE => 32644,
        IDCursor::UpArrow => 32516,
        IDCursor::Wait => 32514,
    }
}

impl IDCursor {
    /// The host's resource identifier for this cursor style.
    pub fn id(&self) -> (r: WORD)
        ensures
            r == spec_cursor_id(*self),
    {
        match self {
            IDCursor::AppStarting => 32650,
            IDCursor::Arrow => 32512,
            IDCursor::Cross => 32515,
            IDCursor::Hand => 32649,
            IDCursor::Help => 32651,
            IDCursor::IBeam => 32513,
            IDCursor::No => 32648,
            IDCursor::SizeAll => 32646,
            IDCursor::SizeNeSw => 32643,
            IDCursor::SizeNS => 32645,
            IDCursor::SizeNwSe => 32642,
            IDCursor::SizeWE => 32644,
            IDCursor::UpArrow => 32516,
            IDCursor::Wait => 32514,
        }
    }
}

/// The host's system colors.
#[derive(Debug, Clone, Copy, PartialEq, Eq, Structural)]
pub enum SysColor {
    /// Dark shadow for three-dimensional display elements.
    DarkShadow3d,
    /// Light color for three-dimensional display elements.
    Light3d,
    ActiveBorder,
    ActiveCaption,
    AppWorkspace,
    /// Button face, also "3D face" color.
    ButtonFace,
    /// Button highlight, also "3D highlight" color.
    ButtonHighlight,
    /// Button shadow, also "3D shadow" color.
    ButtonShadow,
    ButtonText,
    CaptionText,
    /// Desktop background color
    Desktop,
    GradientActiveCaption,
    GradientInactiveCaption,
    GrayText,
    Highlight,
    HighlightText,
    HotLight,
    InactiveBorder,
    InactiveCaption,
    InactiveCaptionText,
    InfoBackground,
    InfoText,
    Menu,
    MenuHighlight,
    MenuBar,
    MenuText,
    ScrollBar,
    Window,
    WindowFrame,
    WindowText,
}

/// The host's numeric index for a system color.
pub open spec fn spec_sys_color_index(c: SysColor) -> u32 {
    match c {
        SysColor::DarkShadow3d => 21,
        SysColor::Light3d => 22,
        SysColor::ActiveBorder => 10,
        SysColor::ActiveCaption => 2,
        SysColor::AppWorkspace => 12,
        SysColor::ButtonFace => 15,
        SysColor::ButtonHighlight => 20,
        SysColor::ButtonShadow => 16,
        SysColor::ButtonText => 18,
        SysColor::CaptionText => 9,
        SysColor::Desktop => 1,
        SysColor::GradientActiveCaption => 27,
        SysColor::GradientInactiveCaption => 28,
        SysColor::GrayText => 17,
        SysColor::Highlight => 13,
        SysColor::HighlightText => 14,
        SysColor::HotLight => 26,
        SysColor::InactiveBorder => 11,
        SysColor::InactiveCaption => 3,
        SysColor::InactiveCaptionText => 19,
        SysColor::InfoBackground => 24,
        SysColor::InfoText => 23,
        SysColor::Menu => 4,
        SysColor::MenuHighlight => 29,
        SysColor::MenuBar => 30,
        SysColor::MenuText => 7,
        SysColor::ScrollBar => 0,
        SysColor::Window => 5,
        SysColor::WindowFrame => 6,
        SysColor::WindowText => 8,
    }
}

impl SysColor {
    /// The host's numeric index for this system color.
    pub fn index(&self) -> (r: u32)
        ensures
            r == spec_sys_color_index(*self),
    {
        match self {
            SysColor::DarkShadow3d => 21,
            SysColor::Light3d => 22,
            SysColor::ActiveBorder => 10,
            SysColor::ActiveCaption => 2,
            SysColor::AppWorkspace => 12,
            SysColor::ButtonFace => 15,
            SysColor::ButtonHighlight => 20,
            SysColor::ButtonShadow => 16,
            SysColor::ButtonText => 18,
            SysColor::CaptionText => 9,
            SysColor::Desktop => 1,
            SysColor::GradientActiveCaption => 27,
            SysColor::GradientInactiveCaption => 28,
            SysColor::GrayText => 17,
            SysColor::Highlight => 13,
            SysColor::HighlightText => 14,
            SysColor::HotLight => 26,
            SysColor::InactiveBorder => 11,
            SysColor::InactiveCaption => 3,
            SysColor::InactiveCaptionText => 19,
            SysColor::InfoBackground => 24,
            SysColor::InfoText => 23,
            SysColor::Menu => 4,
            SysColor::MenuHighlight => 29,
            SysColor::MenuBar => 30,
            SysColor::MenuText => 7,
            SysColor::ScrollBar => 0,
            SysColor::Window => 5,
            SysColor::WindowFrame => 6,
            SysColor::WindowText => 8,
        }
    }

    /// The brush identifier the host's fill call expects for this system
    /// color: one more than the color's index.
    pub fn brush(&self) -> (r: HBRUSH)
        ensures
            r == spec_sys_color_index(*self) + 1,
    {
        (self.index() + 1) as usize
    }
}

/// A window-class registration record.
pub struct WNDCLASSW {
    pub style: UINT,
    pub lpfn_wnd_proc: WNDPROC,
    pub cb_cls_extra: CInt,
    pub cb_wnd_extra: CInt,
    pub h_instance: HINSTANCE,
    pub h_icon: HICON,
    pub h_cursor: HCURSOR,
    pub hbr_background: HBRUSH,
    pub lpsz_menu_name: LPCWSTR,
    pub lpsz_class_name: LPCWSTR,
}

impl Default for WNDCLASSW {
    /// The all-zero record the host expects as a starting point.
    fn default() -> (d: Self)
        ensures
            d.style == 0 && d.lpfn_wnd_proc == 0 && d.cb_cls_extra == 0 && d.cb_wnd_extra == 0
                && d.h_instance == 0 && d.h_icon == 0 && d.h_cursor == 0 && d.hbr_background == 0
                && d.lpsz_menu_name == 0 && d.lpsz_class_name == 0,
    {
        WNDCLASSW {
            style: 0,
            lpfn_wnd_proc: 0,
            cb_cls_extra: 0,
            cb_wnd_extra: 0,
            h_instance: 0,
            h_icon: 0,
            h_cursor: 0,
            hbr_background: 0,
            lpsz_menu_name: 0,
            lpsz_class_name: 0,
        }
    }
}

/// One retrieved event record: target handle, event kind, two generic
/// parameter words, and timestamp/position metadata.
pub struct MSG {
    pub hwnd: HWND,
    pub message: UINT,
    pub w_param: WPARAM,
    pub l_param: LPARAM,
    pub time: DWORD,
    pub pt: POINT,
    pub l_private: DWORD,
}

impl Default for MSG {
    /// The all-zero record handed to the host's retrieval call to fill.
    fn default() -> (d: Self)
        ensures
            d.hwnd == 0 && d.message == 0 && d.w_param == 0 && d.l_param == 0 && d.time == 0
                && d.pt.x == 0 && d.pt.y == 0 && d.l_private == 0,
    {
        MSG {
            hwnd: 0,
            message: 0,
            w_param: 0,
            l_param: 0,
            time: 0,
            pt: POINT { x: 0, y: 0 },
            l_private: 0,
        }
    }
}

/// The record a paint-context acquisition fills: the context handle, the
/// region to repaint, and host-reserved fields.
pub struct PAINTSTRUCT {
    pub hdc: HDC,
    pub f_erase: BOOL,
    pub rc_paint: RECT,
    pub f_restore: BOOL,
    pub f_inc_update: BOOL,
    pub rgb_reserved: [BYTE; 32],
}

impl Default for PAINTSTRUCT {
    /// The all-zero record handed to the paint-context acquisition to fill.
    fn default() -> (d: Self)
        ensures
            d.hdc == 0 && d.f_erase == 0 && d.rc_paint.left == 0 && d.rc_paint.top == 0
                && d.rc_paint.right == 0 && d.rc_paint.bottom == 0 && d.f_restore == 0
                && d.f_inc_update == 0,
    {
        PAINTSTRUCT {
            hdc: 0,
            f_erase: 0,
            rc_paint: RECT { left: 0, top: 0, right: 0, bottom: 0 },
            f_restore: 0,
            f_inc_update: 0,
            rgb_reserved: [0u8;32],
        }
    }
}

/// A point in client coordinates.
pub struct POINT {
    pub x: LONG,
    pub y: LONG,
}

impl Default for POINT {
    fn default() -> (d: Self)
        ensures
            d.x == 0 && d.y == 0,
    {
        POINT { x: 0, y: 0 }
    }
}

/// A rectangle in client coordinates.
pub struct RECT {
    pub left: LONG,
    pub top: LONG,
    pub right: LONG,
    pub bottom: LONG,
}

impl Default for RECT {
    fn default() -> (d: Self)
        ensures
            d.left == 0 && d.top == 0 && d.right == 0 && d.bottom == 0,
    {
        RECT { left: 0, top: 0, right: 0, bottom: 0 }
    }
}

/// The creation-parameters record delivered with a structural-creation
/// notification; `lp_create_params` carries the caller-supplied opaque
/// payload reference (0 = absent).
pub struct CREATESTRUCTW {
    pub lp_create_params: LPVOID,
    pub h_instance: HINSTANCE,
    pub h_menu: HMENU,
    pub hwnd_parent: HWND,
    pub cy: CInt,
    pub cx: CInt,
    pub y: CInt,
    pub x: CInt,
    pub style: LONG,
    pub lpsz_name: LPCWSTR,
    pub lpsz_class: LPCWSTR,
    pub dw_ex_style: DWORD,
}

impl Default for CREATESTRUCTW {
    fn default() -> (d: Self)
        ensures
            d.lp_create_params == 0 && d.h_instance == 0 && d.h_menu == 0 && d.hwnd_parent == 0
                && d.cy == 0 && d.cx == 0 && d.y == 0 && d.x == 0 && d.style == 0 && d.lpsz_name
                == 0 && d.lpsz_class == 0 && d.dw_ex_style == 0,
    {
        CREATESTRUCTW {
            lp_create_params: 0,
            h_instance: 0,
            h_menu: 0,
            hwnd_parent: 0,
            cy: 0,
            cx: 0,
            y: 0,
            x: 0,
            style: 0,
            lpsz_name: 0,
            lpsz_class: 0,
            dw_ex_style: 0,
        }
    }
}

/// One vertex of a gradient fill: position and color components.
#[derive(Debug)]
pub struct TRIVERTIX {
    pub x: LONG,
    pub y: LONG,
    pub red: COLOR16,
    pub green: COLOR16,
    pub blue: COLOR16,
    pub alpha: COLOR16,
}

impl Default for TRIVERTIX {
    fn default() -> (d: Self)
        ensures
            d.x == 0 && d.y == 0 && d.red == 0 && d.green == 0 && d.blue == 0 && d.alpha == 0,
    {
        TRIVERTIX { x: 0, y: 0, red: 0, green: 0, blue: 0, alpha: 0 }
    }
}

/// A triangle over three gradient vertices, by index.
pub struct GradientTriangle {
    pub vertex1: CUlong,
    pub vertex2: CUlong,
    pub vertex3: CUlong,
}

impl Default for GradientTriangle {
    fn default() -> (d: Self)
        ensures
            d.vertex1 == 0 && d.vertex2 == 0 && d.vertex3 == 0,
    {
        GradientTriangle { vertex1: 0, vertex2: 0, vertex3: 0 }
    }
}

/// An integer resource identifier in the place of a resource-name pointer,
/// as the host's resource calls expect.
pub fn makeintresourcew(i: WORD) -> (r: LPWSTR)
    ensures
        r == i as usize,
{
    i as usize
}

/// The UTF-16 units of a string followed by one terminating zero unit, as
/// the host's wide-string calls expect.
pub fn wide_null(s: &str) -> (r: Vec<u16>)
    ensures
        r@ == encode_units(s@) + seq![0u16],
{
    let mut out: Vec<u16> = Vec::new();
    let n = s.unicode_len();
    let mut i: usize = 0;
    proof {
        assert(s@.take(0) =~= Seq::<char>::empty());
        assert(encode_units(Seq::<char>::empty()) =~= Seq::<u16>::empty());
        assert(out@ =~= encode_units(s@.take(0)));
    }
    while i < n
        invariant
            i <= n,
            n == s@.len(),
            out@ == encode_units(s@.take(i as int)),
        decreases n - i,
    {
        let c = s.get_char(i);
        proof {
            vstd::utf8::char_is_scalar(c);
        }
        let v = c as u32;
        if v < 0x10000 {
            out.push(v as u16);
        } else {
            let offset = v - 0x10000;
            out.push((0xD800 + offset / 0x400) as u16);
            out.push((0xDC00 + offset % 0x400) as u16);
        }
        proof {
            assert(s@.take(i + 1) =~= s@.take(i as int).push(c));
            crate::utf16::lemma_encode_units_push(s@.take(i as int), c);
            assert(out@ =~= encode_units(s@.take(i + 1)));
        }
        i = i + 1;
    }
    out.push(0);
    proof {
        assert(s@.take(n as int) =~= s@);
        assert(out@ =~= encode_units(s@) + seq![0u16]);
    }
    out
}

} // verus!
