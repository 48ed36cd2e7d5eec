use slint_windows_mica_template::controls::{
    ButtonFlags, CaptionButton, CaptionTracker, FrameEvent, HoverOnlyCaptionTracker, FrameReaction, GlobalWindowControlsAdapter,
    ProcResult, SimpleBorderlessAdapter, TerminalTitlebarAdapter, TitlebarButtons,
    CAPTION_BUTTON_WIDTH, DEFAULT_TITLEBAR_HEIGHT, TERMINAL_TITLEBAR_HEIGHT,
};

const MIN: usize = 8;
const MAX: usize = 9;
const CLOSE: usize = 20;
const CAPTION: usize = 2;

const NONE: ButtonFlags = ButtonFlags { min: false, max: false, close: false };

fn flags(min: bool, max: bool, close: bool) -> ButtonFlags {
    ButtonFlags { min, max, close }
}

#[test]
fn buttons_default_shows_all() {
    let b = TitlebarButtons::default();
    assert!(b.show_minimize && b.show_maximize && b.show_close);
    assert_eq!(DEFAULT_TITLEBAR_HEIGHT, 32);
    assert_eq!(TERMINAL_TITLEBAR_HEIGHT, 36);
    assert_eq!(CAPTION_BUTTON_WIDTH, 46);
}

#[test]
fn adapters_choose_buttons() {
    let cfg = TitlebarButtons { show_minimize: false, show_maximize: true, show_close: true };
    let g = GlobalWindowControlsAdapter::new(cfg);
    assert_eq!(g.buttons, cfg);
    let ui = TitlebarButtons { show_minimize: true, show_maximize: false, show_close: true };
    assert_eq!(
        g.visible_buttons(ui),
        TitlebarButtons { show_minimize: false, show_maximize: false, show_close: true }
    );
    let t = TerminalTitlebarAdapter::new(cfg);
    assert_eq!(t.buttons, cfg);
    assert_eq!(t.visible_buttons(), cfg);
    assert_eq!(
        SimpleBorderlessAdapter.visible_buttons(),
        TitlebarButtons { show_minimize: false, show_maximize: false, show_close: false }
    );
}

#[test]
fn hit_codes_to_buttons() {
    assert_eq!(CaptionButton::from_hit_code(MIN), Some(CaptionButton::Minimize));
    assert_eq!(CaptionButton::from_hit_code(MAX), Some(CaptionButton::Maximize));
    assert_eq!(CaptionButton::from_hit_code(CLOSE), Some(CaptionButton::Close));
    assert_eq!(CaptionButton::from_hit_code(CAPTION), None);
    assert_eq!(CaptionButton::from_hit_code(1), None);
}

#[test]
fn press_and_release_same_button_clicks() {
    let mut t = CaptionTracker::new();
    let down = t.handle(FrameEvent::NcButtonDown { hit: MAX });
    assert_eq!(down.pressed, Some(flags(false, true, false)));
    assert_eq!(down.hover, Some(NONE));
    assert_eq!(down.result, ProcResult::Return(0));
    assert_eq!(t.pressed(), Some(CaptionButton::Maximize));
    let up = t.handle(FrameEvent::ButtonUp { hit: MAX });
    assert_eq!(up.click, Some(CaptionButton::Maximize));
    assert_eq!(up.pressed, Some(NONE));
    assert_eq!(up.hover, Some(flags(false, true, false)));
    assert_eq!(up.result, ProcResult::Return(0));
    assert_eq!(t.pressed(), None);
}

#[test]
fn release_on_other_button_does_not_click() {
    let mut t = CaptionTracker::new();
    t.handle(FrameEvent::NcButtonDown { hit: CLOSE });
    let up = t.handle(FrameEvent::ButtonUp { hit: MIN });
    assert_eq!(up.click, None);
    assert_eq!(up.hover, Some(flags(true, false, false)));
    assert_eq!(up.result, ProcResult::Return(0));
    // release outside the buttons goes to the default procedure
    t.handle(FrameEvent::NcButtonDown { hit: CLOSE });
    let up = t.handle(FrameEvent::ButtonUp { hit: CAPTION });
    assert_eq!(up.click, None);
    assert_eq!(up.result, ProcResult::Default);
    assert_eq!(t.pressed(), None);
}

#[test]
fn release_without_press_does_not_click() {
    let mut t = CaptionTracker::new();
    let up = t.handle(FrameEvent::ButtonUp { hit: CLOSE });
    assert_eq!(up.click, None);
}

#[test]
fn cancel_mode_drops_the_press() {
    let mut t = CaptionTracker::new();
    t.handle(FrameEvent::NcButtonDown { hit: MIN });
    let c = t.handle(FrameEvent::CancelMode);
    assert_eq!(c.hover, Some(NONE));
    assert_eq!(c.pressed, Some(NONE));
    assert_eq!(c.result, ProcResult::Default);
    let up = t.handle(FrameEvent::ButtonUp { hit: MIN });
    assert_eq!(up.click, None);
}

#[test]
fn button_down_outside_buttons_passes_on() {
    let mut t = CaptionTracker::new();
    let r = t.handle(FrameEvent::NcButtonDown { hit: CAPTION });
    assert_eq!(
        r,
        FrameReaction {
            active: None,
            hover: None,
            pressed: None,
            click: None,
            maximized: None,
            result: ProcResult::Default
        }
    );
    assert_eq!(t.pressed(), None);
}

#[test]
fn mouse_move_hover_and_pressed_visuals() {
    let mut t = CaptionTracker::new();
    let r = t.handle(FrameEvent::NcMouseMove { hit: CLOSE });
    assert_eq!(r.hover, Some(flags(false, false, true)));
    assert_eq!(r.pressed, Some(NONE));
    assert_eq!(r.result, ProcResult::Default);
    t.handle(FrameEvent::NcButtonDown { hit: MIN });
    let r = t.handle(FrameEvent::NcMouseMove { hit: MIN });
    assert_eq!(r.pressed, Some(flags(true, false, false)));
    assert_eq!(r.hover, Some(NONE));
    // dragged off the pressed button: nothing highlighted, press kept
    let r = t.handle(FrameEvent::NcMouseMove { hit: MAX });
    assert_eq!(r.pressed, Some(NONE));
    assert_eq!(r.hover, Some(NONE));
    assert_eq!(t.pressed(), Some(CaptionButton::Minimize));
    // pointer leaving clears visuals but keeps the press
    let r = t.handle(FrameEvent::PointerLeft);
    assert_eq!(r.hover, Some(NONE));
    assert_eq!(r.pressed, Some(NONE));
    assert_eq!(t.pressed(), Some(CaptionButton::Minimize));
    let up = t.handle(FrameEvent::ButtonUp { hit: MIN });
    assert_eq!(up.click, Some(CaptionButton::Minimize));
}

#[test]
fn activation_and_size() {
    let mut t = CaptionTracker::new();
    let r = t.handle(FrameEvent::Activate { wparam: 1 });
    assert_eq!(r.active, Some(true));
    assert_eq!(r.hover, None);
    let r = t.handle(FrameEvent::Activate { wparam: 0x0001_0000 });
    assert_eq!(r.active, Some(false));
    assert_eq!(r.hover, Some(NONE));
    assert_eq!(r.pressed, Some(NONE));
    assert_eq!(r.result, ProcResult::Default);
    assert_eq!(t.handle(FrameEvent::Size { wparam: 2 }).maximized, Some(true));
    assert_eq!(t.handle(FrameEvent::Size { wparam: 0 }).maximized, Some(false));
    assert_eq!(t.handle(FrameEvent::Size { wparam: 1 }).maximized, None);
}

#[test]
fn nc_activate_depends_on_composition() {
    let mut t = CaptionTracker::new();
    assert_eq!(
        t.handle(FrameEvent::NcActivate { composition_enabled: Some(true) }).result,
        ProcResult::Default
    );
    assert_eq!(
        t.handle(FrameEvent::NcActivate { composition_enabled: Some(false) }).result,
        ProcResult::Return(1)
    );
    assert_eq!(
        t.handle(FrameEvent::NcActivate { composition_enabled: None }).result,
        ProcResult::Return(1)
    );
}

#[test]
fn hover_only_tracker_clicks_and_hover() {
    let mut t = HoverOnlyCaptionTracker::new();
    let r = t.handle(FrameEvent::NcMouseMove { hit: CLOSE });
    assert_eq!(r.hover, Some(flags(false, false, true)));
    assert_eq!(r.pressed, None);
    let r = t.handle(FrameEvent::NcButtonDown { hit: CLOSE });
    assert_eq!(r.result, ProcResult::Return(0));
    assert_eq!(r.pressed, None);
    assert_eq!(t.pressed(), Some(CaptionButton::Close));
    let r = t.handle(FrameEvent::ButtonUp { hit: CLOSE });
    assert_eq!(r.click, Some(CaptionButton::Close));
    assert_eq!(t.pressed(), None);
}

#[test]
fn hover_only_tracker_leave_drops_press() {
    let mut t = HoverOnlyCaptionTracker::new();
    t.handle(FrameEvent::NcButtonDown { hit: MIN });
    let r = t.handle(FrameEvent::PointerLeft);
    assert_eq!(r.hover, Some(NONE));
    assert_eq!(t.pressed(), None);
    assert_eq!(t.handle(FrameEvent::ButtonUp { hit: MIN }).click, None);
    // a release outside the buttons keeps the press
    t.handle(FrameEvent::NcButtonDown { hit: MAX });
    let r = t.handle(FrameEvent::ButtonUp { hit: CAPTION });
    assert_eq!(r.result, ProcResult::Default);
    assert_eq!(t.pressed(), Some(CaptionButton::Maximize));
    // activation and cancel mode are not handled
    assert_eq!(t.handle(FrameEvent::CancelMode).result, ProcResult::Default);
    assert_eq!(t.pressed(), Some(CaptionButton::Maximize));
    assert_eq!(t.handle(FrameEvent::Activate { wparam: 0 }).active, None);
    assert_eq!(t.handle(FrameEvent::Size { wparam: 2 }).maximized, Some(true));
}
