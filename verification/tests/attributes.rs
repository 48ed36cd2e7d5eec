use slint_windows_mica_template::attributes::{
    is_system_dark_mode, CornerPreference, DwmBackdrop, DwmPreset, DwmValue, DwmWrite,
    WindowAttributes, DWMSBT_MAINWINDOW, DWMSBT_NONE, DWMSBT_TABBEDWINDOW, DWMSBT_TRANSIENTWINDOW,
    DWMWA_BORDER_COLOR, DWMWA_CAPTION_COLOR, DWMWA_MICA_EFFECT, DWMWA_SYSTEMBACKDROP_TYPE,
    DWMWA_TEXT_COLOR, DWMWA_USE_IMMERSIVE_DARK_MODE, DWMWA_WINDOW_CORNER_PREFERENCE,
    DWMWCP_DONOTROUND, DWMWCP_ROUND, DWMWCP_ROUNDSMALL, REG_DWORD, WS_EX_APPWINDOW,
    WS_EX_NOACTIVATE, WS_EX_TOOLWINDOW, WS_EX_TOPMOST, WS_EX_TRANSPARENT,
};
use windows_sys::Win32::Graphics::Dwm as dwm;
use windows_sys::Win32::System::Registry as reg;
use windows_sys::Win32::UI::WindowsAndMessaging as wm;

fn dword(attribute: u32, v: u32) -> DwmWrite {
    DwmWrite { attribute, value: DwmValue::Dword(v) }
}

#[test]
fn constants_match_win32() {
    assert_eq!(WS_EX_TOOLWINDOW, wm::WS_EX_TOOLWINDOW);
    assert_eq!(WS_EX_APPWINDOW, wm::WS_EX_APPWINDOW);
    assert_eq!(WS_EX_TOPMOST, wm::WS_EX_TOPMOST);
    assert_eq!(WS_EX_TRANSPARENT, wm::WS_EX_TRANSPARENT);
    assert_eq!(WS_EX_NOACTIVATE, wm::WS_EX_NOACTIVATE);
    assert_eq!(DWMWA_SYSTEMBACKDROP_TYPE as i32, dwm::DWMWA_SYSTEMBACKDROP_TYPE);
    assert_eq!(DWMWA_USE_IMMERSIVE_DARK_MODE as i32, dwm::DWMWA_USE_IMMERSIVE_DARK_MODE);
    assert_eq!(DWMWA_WINDOW_CORNER_PREFERENCE as i32, dwm::DWMWA_WINDOW_CORNER_PREFERENCE);
    assert_eq!(DWMWA_BORDER_COLOR as i32, dwm::DWMWA_BORDER_COLOR);
    assert_eq!(DWMWA_CAPTION_COLOR as i32, dwm::DWMWA_CAPTION_COLOR);
    assert_eq!(DWMWA_TEXT_COLOR as i32, dwm::DWMWA_TEXT_COLOR);
    assert_eq!(DWMSBT_MAINWINDOW as i32, dwm::DWMSBT_MAINWINDOW);
    assert_eq!(DWMSBT_TRANSIENTWINDOW as i32, dwm::DWMSBT_TRANSIENTWINDOW);
    assert_eq!(DWMSBT_TABBEDWINDOW as i32, dwm::DWMSBT_TABBEDWINDOW);
    assert_eq!(DWMSBT_NONE as i32, dwm::DWMSBT_NONE);
    assert_eq!(DWMWCP_ROUND as i32, dwm::DWMWCP_ROUND);
    assert_eq!(DWMWCP_ROUNDSMALL as i32, dwm::DWMWCP_ROUNDSMALL);
    assert_eq!(DWMWCP_DONOTROUND as i32, dwm::DWMWCP_DONOTROUND);
    assert_eq!(REG_DWORD, reg::REG_DWORD);
    assert_eq!(DWMWA_MICA_EFFECT, 1029);
}

#[test]
fn empty_configuration_changes_nothing() {
    let a = WindowAttributes::new();
    assert_eq!(a.style_update(0x1234), None);
    assert_eq!(a.ex_style_update(0x1234), None);
    assert_eq!(a.backdrop_write(), None);
    assert_eq!(a.backdrop_fallback(-1), None);
    assert!(a.into_remaining_writes().is_empty());
    let d: DwmPreset = WindowAttributes::default();
    assert!(d.into_remaining_writes().is_empty());
}

#[test]
fn main_window_configuration() {
    let a = WindowAttributes::new()
        .with_mica()
        .with_dark_mode(true)
        .with_corner(CornerPreference::Round)
        .with_app_window(true);
    assert_eq!(a.backdrop_write(), Some(dword(38, 2)));
    // WS_EX_APPWINDOW added, WS_EX_TOOLWINDOW removed
    assert_eq!(a.ex_style_update(0x0000_0080), Some(0x0004_0000));
    assert_eq!(a.ex_style_update(0x0004_0000), None);
    assert_eq!(a.style_update(0x16CF_0000), None);
    assert_eq!(a.backdrop_fallback(0), None);
    assert_eq!(a.backdrop_fallback(-2147024809), Some(dword(1029, 1)));
    assert_eq!(a.into_remaining_writes(), vec![dword(20, 1), dword(33, 2)]);
}

#[test]
fn backdrops_and_corners() {
    let a = WindowAttributes::new().with_acrylic();
    assert_eq!(a.backdrop_write(), Some(dword(38, 3)));
    assert_eq!(a.backdrop_fallback(-1), None);
    assert_eq!(WindowAttributes::new().with_tabbed().backdrop_write(), Some(dword(38, 4)));
    assert_eq!(
        WindowAttributes::new().with_backdrop(DwmBackdrop::NoMaterial).backdrop_write(),
        Some(dword(38, 1))
    );
    // the last backdrop set wins
    assert_eq!(
        WindowAttributes::new().with_mica().with_tabbed().backdrop_write(),
        Some(dword(38, 4))
    );
    let w = WindowAttributes::new()
        .with_corner(CornerPreference::RoundSmall)
        .with_dark_mode(false)
        .into_remaining_writes();
    assert_eq!(w, vec![dword(20, 0), dword(33, 3)]);
    let w = WindowAttributes::new().with_corner(CornerPreference::DoNotRound).into_remaining_writes();
    assert_eq!(w, vec![dword(33, 1)]);
}

#[test]
fn write_order_and_raw_attributes() {
    let w = WindowAttributes::new()
        .with_raw_dwm_attribute(1029, vec![1, 0, 0, 0])
        .with_text_color(0x00FF_FFFF)
        .with_caption_color(0x0020_2020)
        .with_border_color(0x0000_00FF)
        .with_dark_mode(true)
        .with_raw_dwm_attribute(7, vec![9])
        .into_remaining_writes();
    assert_eq!(
        w,
        vec![
            dword(20, 1),
            dword(34, 0x0000_00FF),
            dword(35, 0x0020_2020),
            dword(36, 0x00FF_FFFF),
            DwmWrite { attribute: 1029, value: DwmValue::Bytes(vec![1, 0, 0, 0]) },
            DwmWrite { attribute: 7, value: DwmValue::Bytes(vec![9]) },
        ]
    );
}

#[test]
fn extended_style_flags() {
    let a = WindowAttributes::new()
        .with_always_on_top(true)
        .with_click_through(true)
        .with_no_activate(true);
    assert_eq!(a.ex_style_update(0), Some(0x0800_0028));
    let b = WindowAttributes::new()
        .with_always_on_top(false)
        .with_click_through(false)
        .with_no_activate(false)
        .with_app_window(false);
    assert_eq!(b.ex_style_update(0x0804_00A8), Some(0x80));
    let t = WindowAttributes::new().with_tool_window(true);
    assert_eq!(t.ex_style_update(0x0004_0000), Some(0x80));
    let t = WindowAttributes::new().with_tool_window(false);
    assert_eq!(t.ex_style_update(0x80), Some(0));
}

#[test]
fn removal_wins_over_addition() {
    // tool window then app window: both bits marked for removal, so both go
    let a = WindowAttributes::new().with_tool_window(true).with_app_window(true);
    assert_eq!(a.ex_style_update(0x0004_0080), Some(0));
    assert_eq!(a.ex_style_update(0), None);
}

#[test]
fn raw_styles() {
    let a = WindowAttributes::new().with_raw_style(0x00C0_0000, 0x8000_0000);
    assert_eq!(a.style_update(0x8000_0000), Some(0x00C0_0000));
    // applying again is no change
    assert_eq!(a.style_update(0x00C0_0000), None);
    let b = WindowAttributes::new().with_raw_ex_style(0x1, 0x2).with_raw_ex_style(0x4, 0);
    assert_eq!(b.ex_style_update(0x2), Some(0x5));
}

#[test]
fn dark_mode_from_registry() {
    assert!(is_system_dark_mode(0, 0, REG_DWORD, 0));
    assert!(!is_system_dark_mode(0, 0, REG_DWORD, 1));
    assert!(is_system_dark_mode(2, 0, REG_DWORD, 1));
    assert!(is_system_dark_mode(0, 234, REG_DWORD, 1));
    assert!(is_system_dark_mode(0, 0, 1, 1));
}

#[test]
fn style_reads_only_when_bits_are_configured() {
    let empty = WindowAttributes::new();
    assert!(!empty.needs_style_read());
    assert!(!empty.needs_ex_style_read());
    assert_eq!(empty.backdrop_write(), None);
    assert!(WindowAttributes::new().into_remaining_writes().is_empty());
    let styled = WindowAttributes::new().with_raw_style(0, 0x00C0_0000);
    assert!(styled.needs_style_read());
    assert!(!styled.needs_ex_style_read());
    let ex = WindowAttributes::new().with_always_on_top(false);
    assert!(!ex.needs_style_read());
    assert!(ex.needs_ex_style_read());
}
