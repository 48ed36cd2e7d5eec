use slint_windows_mica_template::controls::TitlebarButtons;
use slint_windows_mica_template::geometry::{point_from_lparam, Point, Rect};
use slint_windows_mica_template::hit_test::{
    caption_band_hit_test, caption_button, custom_frame_client_rect, custom_frame_hit_test, native_caption_hit_test,
    native_client_rect, resize_border_width, resize_zone, CaptionLayout, HitZone, HT_BOTTOM,
    HT_BOTTOMLEFT, HT_BOTTOMRIGHT, HT_CAPTION, HT_CLIENT, HT_CLOSE, HT_LEFT, HT_MAXBUTTON,
    HT_MINBUTTON, HT_RIGHT, HT_TOP, HT_TOPLEFT, HT_TOPRIGHT,
};
use windows_sys::Win32::UI::WindowsAndMessaging as wm;

const WINDOW: Rect = Rect { left: 100, top: 50, right: 900, bottom: 650 };

fn all_buttons() -> CaptionLayout {
    CaptionLayout {
        titlebar_height: 32,
        close_width: 46,
        maximize_width: 46,
        minimize_width: 46,
        buttons: TitlebarButtons { show_minimize: true, show_maximize: true, show_close: true },
    }
}

fn hit(x: i32, y: i32, layout: Option<CaptionLayout>) -> Option<HitZone> {
    custom_frame_hit_test(x, y, Some(WINDOW), false, None, layout, 8)
}

#[test]
fn hit_codes_match_win32() {
    assert_eq!(HT_CLIENT, wm::HTCLIENT);
    assert_eq!(HT_CAPTION, wm::HTCAPTION);
    assert_eq!(HT_MINBUTTON, wm::HTMINBUTTON);
    assert_eq!(HT_MAXBUTTON, wm::HTMAXBUTTON);
    assert_eq!(HT_CLOSE, wm::HTCLOSE);
    assert_eq!(HT_LEFT, wm::HTLEFT);
    assert_eq!(HT_RIGHT, wm::HTRIGHT);
    assert_eq!(HT_TOP, wm::HTTOP);
    assert_eq!(HT_TOPLEFT, wm::HTTOPLEFT);
    assert_eq!(HT_TOPRIGHT, wm::HTTOPRIGHT);
    assert_eq!(HT_BOTTOM, wm::HTBOTTOM);
    assert_eq!(HT_BOTTOMLEFT, wm::HTBOTTOMLEFT);
    assert_eq!(HT_BOTTOMRIGHT, wm::HTBOTTOMRIGHT);
    assert_eq!(HitZone::Close.code(), 20);
    assert_eq!(HitZone::TopLeft.code(), 13);
    assert_eq!(HitZone::Client.code(), 1);
}

#[test]
fn lparam_points() {
    assert_eq!(point_from_lparam(0x0032_0064), Point { x: 100, y: 50 });
    // x = -5 (0xFFFB), y = 300 (0x012C)
    assert_eq!(point_from_lparam(0x012C_FFFB), Point { x: -5, y: 300 });
    // y = -1: high word 0xFFFF
    assert_eq!(point_from_lparam(0xFFFF_0010u32 as i32 as isize), Point { x: 16, y: -1 });
    assert_eq!(point_from_lparam(-1), Point { x: -1, y: -1 });
    assert_eq!(point_from_lparam(0), Point { x: 0, y: 0 });
}

#[test]
fn lparam_roundtrip_with_makelparam() {
    for &(x, y) in &[(0i32, 0i32), (-32768, 32767), (1234, -2000), (-1, 1)] {
        let l = (((y as u16 as u32) << 16) | (x as u16 as u32)) as i32 as isize;
        assert_eq!(point_from_lparam(l), Point { x, y });
    }
}

#[test]
fn caption_buttons_right_to_left() {
    let l = Some(all_buttons());
    // close: [854, 900)
    assert_eq!(hit(899, 60, l), Some(HitZone::Close));
    assert_eq!(hit(854, 60, l), Some(HitZone::Close));
    // maximize: [808, 854)
    assert_eq!(hit(853, 60, l), Some(HitZone::MaxButton));
    assert_eq!(hit(808, 60, l), Some(HitZone::MaxButton));
    // minimize: [762, 808)
    assert_eq!(hit(807, 60, l), Some(HitZone::MinButton));
    assert_eq!(hit(762, 60, l), Some(HitZone::MinButton));
    // left of the buttons, inside the titlebar: client (the UI drags)
    assert_eq!(hit(761, 60, l), Some(HitZone::Client));
    // below the titlebar band (50 + 32 = 82)
    assert_eq!(hit(880, 82, l), Some(HitZone::Client));
}

#[test]
fn buttons_win_over_resize_edges() {
    let l = Some(all_buttons());
    // top-right corner is inside the close button
    assert_eq!(hit(899, 50, l), Some(HitZone::Close));
    // without layout the same point is a resize corner
    assert_eq!(hit(899, 50, None), Some(HitZone::TopRight));
}

#[test]
fn hidden_buttons_are_skipped() {
    let mut l = all_buttons();
    l.buttons = TitlebarButtons { show_minimize: false, show_maximize: false, show_close: true };
    assert_eq!(hit(853, 60, Some(l)), Some(HitZone::Client));
    assert_eq!(hit(807, 60, Some(l)), Some(HitZone::Client));
    // close hidden: maximize moves to the right edge
    l.buttons = TitlebarButtons { show_minimize: true, show_maximize: true, show_close: false };
    assert_eq!(hit(880, 60, Some(l)), Some(HitZone::MaxButton));
    assert_eq!(hit(840, 60, Some(l)), Some(HitZone::MinButton));
}

#[test]
fn resize_edges_and_corners() {
    assert_eq!(hit(100, 300, None), Some(HitZone::Left));
    assert_eq!(hit(107, 300, None), Some(HitZone::Left));
    assert_eq!(hit(108, 300, None), Some(HitZone::Client));
    // right edge is inclusive of the border width: 900 - 892 = 8 <= 8
    assert_eq!(hit(892, 300, None), Some(HitZone::Right));
    assert_eq!(hit(891, 300, None), Some(HitZone::Client));
    assert_eq!(hit(500, 50, None), Some(HitZone::Top));
    assert_eq!(hit(500, 645, None), Some(HitZone::Bottom));
    assert_eq!(hit(101, 51, None), Some(HitZone::TopLeft));
    assert_eq!(hit(101, 649, None), Some(HitZone::BottomLeft));
    assert_eq!(hit(899, 649, None), Some(HitZone::BottomRight));
    assert_eq!(resize_zone(500, 300, WINDOW, 8), None);
}

#[test]
fn maximized_uses_work_area_and_has_no_edges() {
    let work = Rect { left: 0, top: 0, right: 1920, bottom: 1040 };
    let l = Some(all_buttons());
    let window = Some(Rect { left: -8, top: -8, right: 1928, bottom: 1048 });
    assert_eq!(custom_frame_hit_test(1919, 5, window, true, Some(work), l, 8), Some(HitZone::Close));
    assert_eq!(custom_frame_hit_test(2, 500, window, true, Some(work), l, 8), Some(HitZone::Client));
    assert_eq!(custom_frame_hit_test(1919, 1039, window, true, Some(work), l, 8), Some(HitZone::Client));
    // unreadable window rectangle: leave the message to the default procedure
    assert_eq!(custom_frame_hit_test(10, 10, None, false, None, l, 8), None);
}

#[test]
fn caption_button_directly() {
    assert_eq!(caption_button(870, 55, WINDOW, all_buttons()), Some(HitZone::Close));
    assert_eq!(caption_button(870, 40, WINDOW, all_buttons()), None);
}

#[test]
fn border_width_from_dpi() {
    assert_eq!(resize_border_width(0, 4, 4), 8);
    assert_eq!(resize_border_width(144, 6, 6), 12);
    assert_eq!(resize_border_width(96, 4, 4), 8);
}

#[test]
fn native_caption_zones() {
    let w = Some(WINDOW);
    let bounds = Some(Rect { left: 762, top: 0, right: 900, bottom: 36 });
    // group width 138, each column 46
    assert_eq!(native_caption_hit_test(900, 60, w, false, None, bounds, 8), HitZone::Close);
    assert_eq!(native_caption_hit_test(855, 60, w, false, None, bounds, 8), HitZone::Close);
    assert_eq!(native_caption_hit_test(854, 60, w, false, None, bounds, 8), HitZone::MaxButton);
    assert_eq!(native_caption_hit_test(808, 60, w, false, None, bounds, 8), HitZone::MinButton);
    assert_eq!(native_caption_hit_test(762, 60, w, false, None, bounds, 8), HitZone::MinButton);
    assert_eq!(native_caption_hit_test(500, 60, w, false, None, bounds, 8), HitZone::Caption);
    assert_eq!(native_caption_hit_test(500, 86, w, false, None, bounds, 8), HitZone::Client);
    assert_eq!(native_caption_hit_test(500, 52, w, false, None, bounds, 8), HitZone::Top);
    assert_eq!(native_caption_hit_test(104, 300, w, false, None, bounds, 8), HitZone::Left);
    assert_eq!(native_caption_hit_test(500, 300, None, false, None, bounds, 8), HitZone::Client);
}

#[test]
fn native_caption_default_group_width() {
    // no bounds: 140 px group, columns of 46 px
    let w = Some(WINDOW);
    assert_eq!(native_caption_hit_test(760, 60, w, false, None, None, 8), HitZone::MinButton);
    assert_eq!(native_caption_hit_test(759, 60, w, false, None, None, 8), HitZone::Caption);
    let empty = Some(Rect { left: 5, top: 0, right: 5, bottom: 0 });
    assert_eq!(native_caption_hit_test(760, 60, w, false, None, empty, 8), HitZone::MinButton);
}

#[test]
fn native_caption_maximized() {
    let work = Some(Rect { left: 0, top: 0, right: 1920, bottom: 1040 });
    let w = Some(Rect { left: -8, top: -8, right: 1928, bottom: 1048 });
    assert_eq!(native_caption_hit_test(1920, 10, w, true, work, None, 8), HitZone::Close);
    assert_eq!(native_caption_hit_test(0, 10, w, true, work, None, 8), HitZone::Caption);
    assert_eq!(native_caption_hit_test(1925, 500, w, true, work, None, 8), HitZone::Client);
}

#[test]
fn client_rects() {
    let work = Rect { left: 0, top: 0, right: 1920, bottom: 1040 };
    let proposed = Rect { left: -8, top: -8, right: 1928, bottom: 1048 };
    assert_eq!(custom_frame_client_rect(proposed, true, Some(work)), work);
    assert_eq!(custom_frame_client_rect(proposed, true, None), proposed);
    assert_eq!(custom_frame_client_rect(proposed, false, Some(work)), proposed);
    let computed = Rect { left: 108, top: 81, right: 892, bottom: 642 };
    assert_eq!(
        native_client_rect(WINDOW, computed),
        Rect { left: 108, top: 50, right: 892, bottom: 642 }
    );
}

#[test]
fn first_native_frame_caption_band() {
    assert_eq!(caption_band_hit_test(HT_TOP, 51, Some(WINDOW)), HT_TOP);
    assert_eq!(caption_band_hit_test(HT_CLIENT, 50, Some(WINDOW)), HT_CAPTION);
    assert_eq!(caption_band_hit_test(HT_CLIENT, 85, Some(WINDOW)), HT_CAPTION);
    assert_eq!(caption_band_hit_test(HT_CLIENT, 86, Some(WINDOW)), HT_CLIENT);
    assert_eq!(caption_band_hit_test(HT_CLIENT, 49, Some(WINDOW)), HT_CLIENT);
    assert_eq!(caption_band_hit_test(HT_CLIENT, 60, None), HT_CLIENT);
}
