//! Titlebar button configuration, the titlebar adapters' button choices, and
//! the caption-button state machine behind the custom frame's window
//! procedure: which buttons show hover or pressed, when a click fires, and
//! what the procedure returns.

use vstd::prelude::*;

use crate::hit_test::{HT_CLOSE, HT_MAXBUTTON, HT_MINBUTTON};

verus! {

/// Which caption buttons a titlebar shows.
#[derive(Clone, Copy, Debug, PartialEq, Eq, Structural)]
pub struct TitlebarButtons {
    pub show_minimize: bool,
    pub show_maximize: bool,
    pub show_close: bool,
}

impl Default for TitlebarButtons {
    /// All three buttons shown.
    fn default() -> (b: Self)
        ensures
            b == (TitlebarButtons { show_minimize: true, show_maximize: true, show_close: true }),
    {
        TitlebarButtons { show_minimize: true, show_maximize: true, show_close: true }
    }
}

/// Titlebar height of the default titlebar metrics, in logical pixels.
pub const DEFAULT_TITLEBAR_HEIGHT: u32 = 32;
/// Titlebar height of the custom terminal window, in logical pixels.
pub const TERMINAL_TITLEBAR_HEIGHT: u32 = 36;
/// Width of each caption button of the default and terminal titlebars, in
/// logical pixels.
pub const CAPTION_BUTTON_WIDTH: u32 = 46;

/// The buttons shown when two configurations must both allow a button.
pub open spec fn buttons_both(a: TitlebarButtons, b: TitlebarButtons) -> TitlebarButtons {
    TitlebarButtons {
        show_minimize: a.show_minimize && b.show_minimize,
        show_maximize: a.show_maximize && b.show_maximize,
        show_close: a.show_close && b.show_close,
    }
}

/// Adapter for windows whose titlebar state lives in the UI's global
/// `WindowControls` singleton. A button is hit-tested only when both the
/// adapter's configuration and the UI show it.
pub struct GlobalWindowControlsAdapter {
    pub buttons: TitlebarButtons,
}

impl GlobalWindowControlsAdapter {
    pub fn new(buttons: TitlebarButtons) -> (a: Self)
        ensures
            a.buttons == buttons,
    {
        Self { buttons }
    }

    /// The buttons to hit-test, given the `show-*` flags the UI currently has.
    pub fn visible_buttons(&self, ui: TitlebarButtons) -> (b: TitlebarButtons)
        ensures
            b == buttons_both(self.buttons, ui),
    {
        TitlebarButtons {
            show_minimize: self.buttons.show_minimize && ui.show_minimize,
            show_maximize: self.buttons.show_maximize && ui.show_maximize,
            show_close: self.buttons.show_close && ui.show_close,
        }
    }
}

/// Adapter for the custom terminal window: a `TERMINAL_TITLEBAR_HEIGHT`
/// titlebar with `CAPTION_BUTTON_WIDTH` buttons, shown as configured.
pub struct TerminalTitlebarAdapter {
    pub buttons: TitlebarButtons,
}

impl TerminalTitlebarAdapter {
    pub fn new(buttons: TitlebarButtons) -> (a: Self)
        ensures
            a.buttons == buttons,
    {
        Self { buttons }
    }

    /// The buttons to hit-test: the configured ones.
    pub fn visible_buttons(&self) -> (b: TitlebarButtons)
        ensures
            b == self.buttons,
    {
        self.buttons
    }
}

/// Adapter that only gives a window resize edges and the native shadow: it
/// hit-tests no caption button.
pub struct SimpleBorderlessAdapter;

impl SimpleBorderlessAdapter {
    /// The buttons to hit-test: none.
    pub fn visible_buttons(&self) -> (b: TitlebarButtons)
        ensures
            b == (TitlebarButtons { show_minimize: false, show_maximize: false, show_close: false }),
    {
        TitlebarButtons { show_minimize: false, show_maximize: false, show_close: false }
    }
}

/// One of the three caption buttons.
#[derive(Clone, Copy, Debug, PartialEq, Eq, Structural)]
pub enum CaptionButton {
    Minimize,
    Maximize,
    Close,
}

/// The caption button a hit-test code stands for, if any.
pub open spec fn button_of_hit(hit: usize) -> Option<CaptionButton> {
    if hit == HT_MINBUTTON as usize {
        Some(CaptionButton::Minimize)
    } else if hit == HT_MAXBUTTON as usize {
        Some(CaptionButton::Maximize)
    } else if hit == HT_CLOSE as usize {
        Some(CaptionButton::Close)
    } else {
        None
    }
}

impl CaptionButton {
    /// The caption button a hit-test code (`HTMINBUTTON`, `HTMAXBUTTON`,
    /// `HTCLOSE`) stands for; `None` for every other code.
    pub fn from_hit_code(hit: usize) -> (b: Option<CaptionButton>)
        ensures
            b == button_of_hit(hit),
    {
        if hit == HT_MINBUTTON as usize {
            Some(CaptionButton::Minimize)
        } else if hit == HT_MAXBUTTON as usize {
            Some(CaptionButton::Maximize)
        } else if hit == HT_CLOSE as usize {
            Some(CaptionButton::Close)
        } else {
            None
        }
    }
}

/// A visual flag for each caption button (hover or pressed).
#[derive(Clone, Copy, Debug, PartialEq, Eq, Structural)]
pub struct ButtonFlags {
    pub min: bool,
    pub max: bool,
    pub close: bool,
}

/// No button flagged.
pub open spec fn no_flags() -> ButtonFlags {
    ButtonFlags { min: false, max: false, close: false }
}

/// The flags with exactly the button of `hit` set (none for other codes).
pub open spec fn flags_for_hit(hit: usize) -> ButtonFlags {
    ButtonFlags {
        min: hit == HT_MINBUTTON as usize,
        max: hit == HT_MAXBUTTON as usize,
        close: hit == HT_CLOSE as usize,
    }
}

/// The flags with exactly button `b` set.
pub open spec fn flags_for_button(b: CaptionButton) -> ButtonFlags {
    ButtonFlags {
        min: b == CaptionButton::Minimize,
        max: b == CaptionButton::Maximize,
        close: b == CaptionButton::Close,
    }
}

/// A window message as the custom frame's procedure sees it, reduced to what
/// its decisions read.
#[derive(Clone, Copy, Debug, PartialEq, Eq)]
pub enum FrameEvent {
    /// `WM_ACTIVATE` with its `wParam`.
    Activate { wparam: usize },
    /// `WM_SIZE` with its `wParam` (the size type).
    Size { wparam: usize },
    /// `WM_NCACTIVATE`, with whether DWM composition is enabled (`None`
    /// when the query failed).
    NcActivate { composition_enabled: Option<bool> },
    /// `WM_NCMOUSEMOVE` with the hit-test code in its `wParam`.
    NcMouseMove { hit: usize },
    /// `WM_NCMOUSELEAVE` or `WM_MOUSEMOVE`: the pointer left the titlebar.
    PointerLeft,
    /// `WM_NCLBUTTONDOWN` with the hit-test code in its `wParam`.
    NcButtonDown { hit: usize },
    /// `WM_NCLBUTTONUP` or `WM_LBUTTONUP` with its `wParam`.
    ButtonUp { hit: usize },
    /// `WM_CANCELMODE`.
    CancelMode,
}

/// What the window procedure returns.
#[derive(Clone, Copy, Debug, PartialEq, Eq)]
pub enum ProcResult {
    /// Pass the message on to the next procedure (`DefSubclassProc`).
    Default,
    /// Return this value without passing the message on.
    Return(isize),
}

/// What the custom frame does in answer to one message.
#[derive(Clone, Copy, Debug, PartialEq, Eq)]
pub struct FrameReaction {
    /// New active state to show in the titlebar.
    pub active: Option<bool>,
    /// New hover flags to show on the caption buttons.
    pub hover: Option<ButtonFlags>,
    /// New pressed flags to show on the caption buttons.
    pub pressed: Option<ButtonFlags>,
    /// The caption button whose action runs.
    pub click: Option<CaptionButton>,
    /// The window became maximized (`true`) or was restored (`false`).
    pub maximized: Option<bool>,
    pub result: ProcResult,
}

/// A reaction that changes nothing and passes the message on.
pub open spec fn pass_on() -> FrameReaction {
    FrameReaction {
        active: None,
        hover: None,
        pressed: None,
        click: None,
        maximized: None,
        result: ProcResult::Default,
    }
}

/// The reaction that clears every hover and pressed flag.
pub open spec fn clear_visuals(result: ProcResult) -> FrameReaction {
    FrameReaction {
        active: None,
        hover: Some(no_flags()),
        pressed: Some(no_flags()),
        click: None,
        maximized: None,
        result,
    }
}

/// Whether a `WM_ACTIVATE` `wParam` activates the window (its low word is
/// not `WA_INACTIVE`).
pub open spec fn activates(wparam: usize) -> bool {
    wparam & 0xFFFF != 0
}

/// The maximize state a `WM_SIZE` size type reports: `SIZE_MAXIMIZED` (2)
/// maximized, `SIZE_RESTORED` (0) restored, otherwise no change.
pub open spec fn maximize_change(wparam: usize) -> Option<bool> {
    if wparam as u32 == 2 {
        Some(true)
    } else if wparam as u32 == 0 {
        Some(false)
    } else {
        None
    }
}

/// The custom frame's decision for one message, given the caption button
/// pressed so far: the button pressed afterwards and the reaction.
pub open spec fn frame_step(pressed: Option<CaptionButton>, e: FrameEvent) -> (
    Option<CaptionButton>,
    FrameReaction,
) {
    match e {
        FrameEvent::Activate { wparam } => {
            let active = activates(wparam);
            (
                pressed,
                FrameReaction {
                    active: Some(active),
                    hover: if active {
                        None
                    } else {
                        Some(no_flags())
                    },
                    pressed: if active {
                        None
                    } else {
                        Some(no_flags())
                    },
                    ..pass_on()
                },
            )
        },
        FrameEvent::Size { wparam } => (
            pressed,
            FrameReaction { maximized: maximize_change(wparam), ..pass_on() },
        ),
        FrameEvent::NcActivate { composition_enabled } => (
            pressed,
            if composition_enabled == Some(true) {
                pass_on()
            } else {
                FrameReaction { result: ProcResult::Return(1), ..pass_on() }
            },
        ),
        FrameEvent::NcMouseMove { hit } => (
            pressed,
            match pressed {
                Some(p) => if button_of_hit(hit) == Some(p) {
                    FrameReaction {
                        hover: Some(no_flags()),
                        pressed: Some(flags_for_button(p)),
                        ..pass_on()
                    }
                } else {
                    clear_visuals(ProcResult::Default)
                },
                None => FrameReaction {
                    hover: Some(flags_for_hit(hit)),
                    pressed: Some(no_flags()),
                    ..pass_on()
                },
            },
        ),
        FrameEvent::PointerLeft => (pressed, clear_visuals(ProcResult::Default)),
        FrameEvent::NcButtonDown { hit } => match button_of_hit(hit) {
            Some(b) => (
                Some(b),
                FrameReaction {
                    hover: Some(no_flags()),
                    pressed: Some(flags_for_button(b)),
                    result: ProcResult::Return(0),
                    ..pass_on()
                },
            ),
            None => (pressed, pass_on()),
        },
        FrameEvent::ButtonUp { hit } => (
            None,
            FrameReaction {
                hover: Some(flags_for_hit(hit)),
                pressed: Some(no_flags()),
                click: if pressed.is_some() && button_of_hit(hit) == pressed {
                    pressed
                } else {
                    None
                },
                result: if button_of_hit(hit).is_some() {
                    ProcResult::Return(0)
                } else {
                    ProcResult::Default
                },
                ..pass_on()
            },
        ),
        FrameEvent::CancelMode => (None, clear_visuals(ProcResult::Default)),
    }
}

/// The caption-button state of a custom frame: the button the left mouse
/// button went down on, until it is released or the press is cancelled.
pub struct CaptionTracker {
    pressed: Option<CaptionButton>,
}

impl View for CaptionTracker {
    type V = Option<CaptionButton>;

    closed spec fn view(&self) -> Option<CaptionButton> {
        self.pressed
    }
}

impl CaptionTracker {
    /// A tracker with no button pressed.
    pub fn new() -> (t: Self)
        ensures
            t@ == None::<CaptionButton>,
    {
        CaptionTracker { pressed: None }
    }

    /// The button currently held down, if any.
    pub fn pressed(&self) -> (b: Option<CaptionButton>)
        ensures
            b == self@,
    {
        self.pressed
    }

    /// Decides the frame's answer to one message and updates the pressed
    /// button.
    pub fn handle(&mut self, e: FrameEvent) -> (r: FrameReaction)
        ensures
            (final(self)@, r) == frame_step(old(self)@, e),
    {
        let none = ButtonFlags { min: false, max: false, close: false };
        let pass = FrameReaction {
            active: None,
            hover: None,
            pressed: None,
            click: None,
            maximized: None,
            result: ProcResult::Default,
        };
        match e {
            FrameEvent::Activate { wparam } => {
                let active = wparam & 0xFFFF != 0;
                if active {
                    FrameReaction { active: Some(true), ..pass }
                } else {
                    FrameReaction { active: Some(false), hover: Some(none), pressed: Some(none), ..pass }
                }
            },
            FrameEvent::Size { wparam } => {
                let size_type = wparam as u32;
                let maximized = if size_type == 2 {
                    Some(true)
                } else if size_type == 0 {
                    Some(false)
                } else {
                    None
                };
                FrameReaction { maximized, ..pass }
            },
            FrameEvent::NcActivate { composition_enabled } => {
                match composition_enabled {
                    Some(true) => pass,
                    _ => FrameReaction { result: ProcResult::Return(1), ..pass },
                }
            },
            FrameEvent::NcMouseMove { hit } => {
                let hit_button = CaptionButton::from_hit_code(hit);
                match self.pressed {
                    Some(p) => {
                        let same = match hit_button {
                            Some(h) => h == p,
                            None => false,
                        };
                        if same {
                            FrameReaction {
                                hover: Some(none),
                                pressed: Some(Self::flags_for(p)),
                                ..pass
                            }
                        } else {
                            FrameReaction { hover: Some(none), pressed: Some(none), ..pass }
                        }
                    },
                    None => FrameReaction {
                        hover: Some(Self::hit_flags(hit)),
                        pressed: Some(none),
                        ..pass
                    },
                }
            },
            FrameEvent::PointerLeft => {
                FrameReaction { hover: Some(none), pressed: Some(none), ..pass }
            },
            FrameEvent::NcButtonDown { hit } => {
                match CaptionButton::from_hit_code(hit) {
                    Some(b) => {
                        self.pressed = Some(b);
                        FrameReaction {
                            hover: Some(none),
                            pressed: Some(Self::flags_for(b)),
                            result: ProcResult::Return(0),
                            ..pass
                        }
                    },
                    None => pass,
                }
            },
            FrameEvent::ButtonUp { hit } => {
                let was = self.pressed;
                self.pressed = None;
                let hit_button = CaptionButton::from_hit_code(hit);
                let click = match (was, hit_button) {
                    (Some(p), Some(h)) => if p == h {
                        Some(p)
                    } else {
                        None
                    },
                    _ => None,
                };
                let result = match hit_button {
                    Some(_) => ProcResult::Return(0),
                    None => ProcResult::Default,
                };
                FrameReaction {
                    hover: Some(Self::hit_flags(hit)),
                    pressed: Some(none),
                    click,
                    result,
                    ..pass
                }
            },
            FrameEvent::CancelMode => {
                self.pressed = None;
                FrameReaction { hover: Some(none), pressed: Some(none), ..pass }
            },
        }
    }

    fn flags_for(b: CaptionButton) -> (f: ButtonFlags)
        ensures
            f == flags_for_button(b),
    {
        match b {
            CaptionButton::Minimize => ButtonFlags { min: true, max: false, close: false },
            CaptionButton::Maximize => ButtonFlags { min: false, max: true, close: false },
            CaptionButton::Close => ButtonFlags { min: false, max: false, close: true },
        }
    }

    fn hit_flags(hit: usize) -> (f: ButtonFlags)
        ensures
            f == flags_for_hit(hit),
    {
        ButtonFlags {
            min: hit == HT_MINBUTTON as usize,
            max: hit == HT_MAXBUTTON as usize,
            close: hit == HT_CLOSE as usize,
        }
    }
}

/// Whether at most one caption button is flagged across both flag sets.
pub open spec fn at_most_one_flag(hover: ButtonFlags, pressed: ButtonFlags) -> bool {
    let n = (if hover.min { 1int } else { 0 }) + (if hover.max { 1int } else { 0 }) + (if hover.close {
        1int
    } else {
        0
    }) + (if pressed.min { 1int } else { 0 }) + (if pressed.max { 1int } else { 0 }) + (
    if pressed.close {
        1int
    } else {
        0
    });
    n <= 1
}

/// A click needs a press and a release on the same caption button: after the
/// left button goes down on caption button `b` (whatever was pressed before),
/// releasing it over hit-test code `release` clicks `b` exactly when
/// `release` is `b`'s code, and clicks nothing otherwise.
pub proof fn lemma_click_needs_same_button(prior: Option<CaptionButton>, down: usize, release: usize)
    requires
        button_of_hit(down).is_some(),
    ensures
        ({
            let after_down = frame_step(prior, FrameEvent::NcButtonDown { hit: down }).0;
            let r = frame_step(after_down, FrameEvent::ButtonUp { hit: release }).1;
            r.click == (if button_of_hit(release) == button_of_hit(down) {
                button_of_hit(down)
            } else {
                None
            })
        }),
{
}

/// Only a button release clicks, and it clicks the button that was pressed.
pub proof fn lemma_click_only_on_release(prior: Option<CaptionButton>, e: FrameEvent)
    ensures
        frame_step(prior, e).1.click.is_some() ==> (e is ButtonUp && frame_step(prior, e).1.click
            == prior),
{
}

/// A release or a cancelled mode leaves no button pressed, so a press never
/// survives into a later, unrelated release.
pub proof fn lemma_release_and_cancel_clear(prior: Option<CaptionButton>, e: FrameEvent)
    requires
        e is ButtonUp || e is CancelMode,
    ensures
        frame_step(prior, e).0 == None::<CaptionButton>,
{
}

/// After `WM_CANCELMODE` the next release clicks nothing.
pub proof fn lemma_cancel_prevents_click(prior: Option<CaptionButton>, release: usize)
    ensures
        frame_step(frame_step(prior, FrameEvent::CancelMode).0, FrameEvent::ButtonUp { hit: release }).1.click
            == None::<CaptionButton>,
{
}

/// Only pressing a caption button changes the pressed state to a button:
/// pointer moves, activation, sizing and `WM_NCACTIVATE` keep it.
pub proof fn lemma_press_state_kept(prior: Option<CaptionButton>, e: FrameEvent)
    requires
        !(e is NcButtonDown || e is ButtonUp || e is CancelMode),
    ensures
        frame_step(prior, e).0 == prior,
{
}

/// Every reaction highlights at most one caption button in total (hover and
/// pressed together).
pub proof fn lemma_single_highlight(prior: Option<CaptionButton>, e: FrameEvent)
    ensures
        ({
            let r = frame_step(prior, e).1;
            at_most_one_flag(
                match r.hover {
                    Some(h) => h,
                    None => no_flags(),
                },
                match r.pressed {
                    Some(p) => p,
                    None => no_flags(),
                },
            )
        }),
{
}

/// The hover-only custom frame's decision for one message: hover follows the
/// pointer without showing presses, leaving the titlebar also drops the
/// press, only `WM_NCLBUTTONUP` releases (as `ButtonUp`), and activation,
/// `WM_NCACTIVATE` and `WM_CANCELMODE` are passed on untouched.
pub open spec fn hover_only_frame_step(pressed: Option<CaptionButton>, e: FrameEvent) -> (
    Option<CaptionButton>,
    FrameReaction,
) {
    match e {
        FrameEvent::Size { wparam } => (
            pressed,
            FrameReaction { maximized: maximize_change(wparam), ..pass_on() },
        ),
        FrameEvent::NcMouseMove { hit } => (
            pressed,
            FrameReaction { hover: Some(flags_for_hit(hit)), ..pass_on() },
        ),
        FrameEvent::PointerLeft => (None, FrameReaction { hover: Some(no_flags()), ..pass_on() }),
        FrameEvent::NcButtonDown { hit } => match button_of_hit(hit) {
            Some(b) => (Some(b), FrameReaction { result: ProcResult::Return(0), ..pass_on() }),
            None => (pressed, pass_on()),
        },
        FrameEvent::ButtonUp { hit } => match button_of_hit(hit) {
            Some(b) => (
                None,
                FrameReaction {
                    click: if pressed == Some(b) {
                        Some(b)
                    } else {
                        None
                    },
                    result: ProcResult::Return(0),
                    ..pass_on()
                },
            ),
            None => (pressed, pass_on()),
        },
        _ => (pressed, pass_on()),
    }
}

/// The caption-button state of the hover-only custom frame, which shows hover
/// only and runs a button's action when the press and the release hit it.
pub struct HoverOnlyCaptionTracker {
    pressed: Option<CaptionButton>,
}

impl View for HoverOnlyCaptionTracker {
    type V = Option<CaptionButton>;

    closed spec fn view(&self) -> Option<CaptionButton> {
        self.pressed
    }
}

impl HoverOnlyCaptionTracker {
    /// A tracker with no button pressed.
    pub fn new() -> (t: Self)
        ensures
            t@ == None::<CaptionButton>,
    {
        HoverOnlyCaptionTracker { pressed: None }
    }

    /// The button currently held down, if any.
    pub fn pressed(&self) -> (b: Option<CaptionButton>)
        ensures
            b == self@,
    {
        self.pressed
    }

    /// Decides the frame's answer to one message and updates the pressed
    /// button.
    pub fn handle(&mut self, e: FrameEvent) -> (r: FrameReaction)
        ensures
            (final(self)@, r) == hover_only_frame_step(old(self)@, e),
    {
        let pass = FrameReaction {
            active: None,
            hover: None,
            pressed: None,
            click: None,
            maximized: None,
            result: ProcResult::Default,
        };
        match e {
            FrameEvent::Size { wparam } => {
                let size_type = wparam as u32;
                let maximized = if size_type == 2 {
                    Some(true)
                } else if size_type == 0 {
                    Some(false)
                } else {
                    None
                };
                FrameReaction { maximized, ..pass }
            },
            FrameEvent::NcMouseMove { hit } => FrameReaction {
                hover: Some(CaptionTracker::hit_flags(hit)),
                ..pass
            },
            FrameEvent::PointerLeft => {
                self.pressed = None;
                FrameReaction { hover: Some(ButtonFlags { min: false, max: false, close: false }), ..pass }
            },
            FrameEvent::NcButtonDown { hit } => match CaptionButton::from_hit_code(hit) {
                Some(b) => {
                    self.pressed = Some(b);
                    FrameReaction { result: ProcResult::Return(0), ..pass }
                },
                None => pass,
            },
            FrameEvent::ButtonUp { hit } => match CaptionButton::from_hit_code(hit) {
                Some(b) => {
                    let was = self.pressed;
                    self.pressed = None;
                    let click = match was {
                        Some(p) => if p == b {
                            Some(b)
                        } else {
                            None
                        },
                        None => None,
                    };
                    FrameReaction { click, result: ProcResult::Return(0), ..pass }
                },
                None => pass,
            },
            _ => pass,
        }
    }
}

/// In the hover-only custom frame too, a click needs the press and the release on
/// the same caption button, with the pointer staying in the titlebar.
pub proof fn lemma_hover_only_click_needs_same_button(
    prior: Option<CaptionButton>,
    down: usize,
    release: usize,
)
    requires
        button_of_hit(down).is_some(),
    ensures
        ({
            let after_down = hover_only_frame_step(prior, FrameEvent::NcButtonDown { hit: down }).0;
            let r = hover_only_frame_step(after_down, FrameEvent::ButtonUp { hit: release }).1;
            r.click == (if button_of_hit(release) == button_of_hit(down) {
                button_of_hit(down)
            } else {
                None
            })
        }),
        // leaving the titlebar between press and release cancels the click
        ({
            let after_down = hover_only_frame_step(prior, FrameEvent::NcButtonDown { hit: down }).0;
            let after_leave = hover_only_frame_step(after_down, FrameEvent::PointerLeft).0;
            hover_only_frame_step(after_leave, FrameEvent::ButtonUp { hit: release }).1.click
                == None::<CaptionButton>
        }),
{
}

/// The hit-test code of a caption button: `HTMINBUTTON` (8),
/// `HTMAXBUTTON` (9) or `HTCLOSE` (20).
pub open spec fn hit_code_of(b: CaptionButton) -> usize {
    match b {
        CaptionButton::Minimize => 8,
        CaptionButton::Maximize => 9,
        CaptionButton::Close => 20,
    }
}

/// Flags naming exactly the button whose hit-test code is `hit` (none for a
/// code that is no caption button).
pub open spec fn flags_naming(hit: usize) -> ButtonFlags {
    ButtonFlags { min: hit == 8, max: hit == 9, close: hit == 20 }
}

/// The three caption-button codes stand for their buttons, and every other
/// code for none.
pub proof fn lemma_hit_codes(hit: usize)
    ensures
        button_of_hit(8) == Some(CaptionButton::Minimize),
        button_of_hit(9) == Some(CaptionButton::Maximize),
        button_of_hit(20) == Some(CaptionButton::Close),
        (hit != 8 && hit != 9 && hit != 20) ==> button_of_hit(hit) is None,
        forall|b: CaptionButton| #[trigger] button_of_hit(hit_code_of(b)) == Some(b),
{
}

/// `WM_ACTIVATE` activates the window exactly when the low word of `wParam`
/// is not `WA_INACTIVE` (0), so `WA_ACTIVE` and `WA_CLICKACTIVE` both show
/// the titlebar active; deactivation also clears hover and pressed. The
/// message is passed on and the pressed button is kept.
pub proof fn lemma_activate_reaction(prior: Option<CaptionButton>, wparam: usize)
    ensures
        ({
            let (next, r) = frame_step(prior, FrameEvent::Activate { wparam });
            let active = wparam % 0x10000 != 0;
            &&& next == prior
            &&& r.active == Some(active)
            &&& active ==> (r.hover is None && r.pressed is None)
            &&& !active ==> (r.hover == Some(flags_naming(0)) && r.pressed == Some(flags_naming(0)))
            &&& r.click is None
            &&& r.maximized is None
            &&& r.result == ProcResult::Default
        }),
{
    assert((wparam & 0xFFFF) == wparam % 0x10000) by (bit_vector);
}

/// `WM_SIZE` reports maximized for `SIZE_MAXIMIZED` (2) and restored for
/// `SIZE_RESTORED` (0), nothing for other size types; the message is passed
/// on and nothing else changes.
pub proof fn lemma_size_reaction(prior: Option<CaptionButton>, wparam: usize)
    ensures
        ({
            let (next, r) = frame_step(prior, FrameEvent::Size { wparam });
            let size_type = wparam as u32;
            &&& next == prior
            &&& r.maximized == (if size_type == 2 {
                Some(true)
            } else if size_type == 0 {
                Some(false)
            } else {
                None
            })
            &&& r.active is None && r.hover is None && r.pressed is None && r.click is None
            &&& r.result == ProcResult::Default
        }),
{
}

/// `WM_NCACTIVATE` is passed on when DWM composition is enabled; otherwise
/// (disabled or unknown) the frame answers `TRUE` itself so no classic frame
/// is painted.
pub proof fn lemma_ncactivate_reaction(prior: Option<CaptionButton>, composition_enabled: Option<bool>)
    ensures
        ({
            let (next, r) = frame_step(prior, FrameEvent::NcActivate { composition_enabled });
            &&& next == prior
            &&& r.result == (if composition_enabled == Some(true) {
                ProcResult::Default
            } else {
                ProcResult::Return(1)
            })
            &&& r.active is None && r.hover is None && r.pressed is None && r.click is None
                && r.maximized is None
        }),
{
}

/// Moving over the titlebar with no button held highlights exactly the
/// button under the pointer; with a button held, that button shows pressed
/// while the pointer is over it and nothing shows otherwise. The message is
/// passed on and the held button is kept.
pub proof fn lemma_mouse_move_reaction(prior: Option<CaptionButton>, hit: usize)
    ensures
        ({
            let (next, r) = frame_step(prior, FrameEvent::NcMouseMove { hit });
            &&& next == prior
            &&& prior is None ==> (r.hover == Some(flags_naming(hit)) && r.pressed == Some(
                flags_naming(0),
            ))
            &&& (prior matches Some(p) && hit == hit_code_of(p)) ==> (r.hover == Some(
                flags_naming(0),
            ) && r.pressed == Some(flags_naming(hit)))
            &&& (prior matches Some(p) && hit != hit_code_of(p)) ==> (r.hover == Some(
                flags_naming(0),
            ) && r.pressed == Some(flags_naming(0)))
            &&& r.click is None && r.active is None && r.maximized is None
            &&& r.result == ProcResult::Default
        }),
{
}

/// Pressing the left button on a caption button holds that button, shows it
/// pressed and consumes the message; a press anywhere else changes nothing
/// and is passed on.
pub proof fn lemma_press_reaction(prior: Option<CaptionButton>, hit: usize)
    ensures
        ({
            let (next, r) = frame_step(prior, FrameEvent::NcButtonDown { hit });
            let on_button = hit == 8 || hit == 9 || hit == 20;
            &&& on_button ==> (next matches Some(b) && hit_code_of(b) == hit)
            &&& on_button ==> (r.pressed == Some(flags_naming(hit)) && r.hover == Some(
                flags_naming(0),
            ) && r.result == ProcResult::Return(0))
            &&& !on_button ==> (next == prior && r == pass_on())
            &&& r.click is None
        }),
{
}

/// Releasing the left button ends any press: the button under the pointer is
/// highlighted, nothing shows pressed, and the held button is clicked exactly
/// when the release is over that same button. A release over a caption
/// button is consumed; elsewhere it is passed on.
pub proof fn lemma_release_reaction(prior: Option<CaptionButton>, hit: usize)
    ensures
        ({
            let (next, r) = frame_step(prior, FrameEvent::ButtonUp { hit });
            &&& next is None
            &&& r.hover == Some(flags_naming(hit))
            &&& r.pressed == Some(flags_naming(0))
            &&& r.click == (match prior {
                Some(p) => if hit == hit_code_of(p) {
                    Some(p)
                } else {
                    None
                },
                None => None,
            })
            &&& r.result == (if hit == 8 || hit == 9 || hit == 20 {
                ProcResult::Return(0)
            } else {
                ProcResult::Default
            })
        }),
{
}

/// Leaving the titlebar clears every highlight but keeps the held button;
/// `WM_CANCELMODE` clears the highlights and drops the held button. Both are
/// passed on.
pub proof fn lemma_leave_and_cancel_reaction(prior: Option<CaptionButton>)
    ensures
        ({
            let (next, r) = frame_step(prior, FrameEvent::PointerLeft);
            &&& next == prior
            &&& r.hover == Some(flags_naming(0)) && r.pressed == Some(flags_naming(0))
            &&& r.click is None && r.result == ProcResult::Default
        }),
        ({
            let (next, r) = frame_step(prior, FrameEvent::CancelMode);
            &&& next is None
            &&& r.hover == Some(flags_naming(0)) && r.pressed == Some(flags_naming(0))
            &&& r.click is None && r.result == ProcResult::Default
        }),
{
}

/// The hover-only frame: moving over the titlebar highlights exactly the
/// button under the pointer (and nothing is ever shown pressed), leaving it
/// clears the highlight and drops the held button, a press on a caption
/// button holds it and is consumed, and a release on a caption button
/// clicks the held button when it is that same button and is consumed.
/// `WM_SIZE` reports maximize and restore; every other message is passed on
/// unchanged.
pub proof fn lemma_hover_only_reactions(prior: Option<CaptionButton>, e: FrameEvent)
    ensures
        ({
            let (next, r) = hover_only_frame_step(prior, e);
            &&& r.pressed is None && r.active is None
            &&& match e {
                FrameEvent::NcMouseMove { hit } => next == prior && r.hover == Some(
                    flags_naming(hit),
                ) && r.click is None && r.result == ProcResult::Default,
                FrameEvent::PointerLeft => next is None && r.hover == Some(flags_naming(0))
                    && r.click is None && r.result == ProcResult::Default,
                FrameEvent::NcButtonDown { hit } => if hit == 8 || hit == 9 || hit == 20 {
                    (next matches Some(b) && hit_code_of(b) == hit) && r.result
                        == ProcResult::Return(0) && r.hover is None && r.click is None
                } else {
                    next == prior && r == pass_on()
                },
                FrameEvent::ButtonUp { hit } => if hit == 8 || hit == 9 || hit == 20 {
                    next is None && r.result == ProcResult::Return(0) && r.hover is None
                        && r.click == (match prior {
                        Some(p) => if hit == hit_code_of(p) {
                            Some(p)
                        } else {
                            None
                        },
                        None => None,
                    })
                } else {
                    next == prior && r == pass_on()
                },
                FrameEvent::Size { wparam } => next == prior && r.maximized == (if wparam as u32
                    == 2 {
                    Some(true)
                } else if wparam as u32 == 0 {
                    Some(false)
                } else {
                    None
                }) && r.hover is None && r.click is None && r.result == ProcResult::Default,
                _ => next == prior && r == pass_on(),
            }
        }),
{
}

/// The global-controls adapter hit-tests a button only when both its own
/// configuration and the UI show it.
pub proof fn lemma_buttons_both_shown(a: TitlebarButtons, b: TitlebarButtons)
    ensures
        buttons_both(a, b).show_minimize == (a.show_minimize && b.show_minimize),
        buttons_both(a, b).show_maximize == (a.show_maximize && b.show_maximize),
        buttons_both(a, b).show_close == (a.show_close && b.show_close),
{
}

} // verus!
