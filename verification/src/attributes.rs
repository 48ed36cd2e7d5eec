//! Declarative window attributes: DWM backdrop material, dark mode, corner
//! preference, border/caption/text colours, Win32 style and extended-style
//! bits to add or remove, and raw DWM attributes. The configuration is turned
//! into the exact sequence of style updates and `DwmSetWindowAttribute`
//! writes to perform on a window.

use vstd::prelude::*;

verus! {

/// `WS_EX_TOPMOST`.
pub const WS_EX_TOPMOST: u32 = 0x0000_0008;
/// `WS_EX_TRANSPARENT`.
pub const WS_EX_TRANSPARENT: u32 = 0x0000_0020;
/// `WS_EX_TOOLWINDOW`.
pub const WS_EX_TOOLWINDOW: u32 = 0x0000_0080;
/// `WS_EX_APPWINDOW`.
pub const WS_EX_APPWINDOW: u32 = 0x0004_0000;
/// `WS_EX_NOACTIVATE`.
pub const WS_EX_NOACTIVATE: u32 = 0x0800_0000;

/// `DWMWA_USE_IMMERSIVE_DARK_MODE`.
pub const DWMWA_USE_IMMERSIVE_DARK_MODE: u32 = 20;
/// `DWMWA_WINDOW_CORNER_PREFERENCE`.
pub const DWMWA_WINDOW_CORNER_PREFERENCE: u32 = 33;
/// `DWMWA_BORDER_COLOR` (Windows 11 build 22000+).
pub const DWMWA_BORDER_COLOR: u32 = 34;
/// `DWMWA_CAPTION_COLOR` (Windows 11 build 22000+).
pub const DWMWA_CAPTION_COLOR: u32 = 35;
/// `DWMWA_TEXT_COLOR` (Windows 11 build 22000+).
pub const DWMWA_TEXT_COLOR: u32 = 36;
/// `DWMWA_SYSTEMBACKDROP_TYPE`.
pub const DWMWA_SYSTEMBACKDROP_TYPE: u32 = 38;
/// The undocumented Mica switch of early Windows 11 builds (22000-22522).
pub const DWMWA_MICA_EFFECT: u32 = 1029;

/// `DWMSBT_NONE`.
pub const DWMSBT_NONE: u32 = 1;
/// `DWMSBT_MAINWINDOW` (Mica).
pub const DWMSBT_MAINWINDOW: u32 = 2;
/// `DWMSBT_TRANSIENTWINDOW` (Acrylic).
pub const DWMSBT_TRANSIENTWINDOW: u32 = 3;
/// `DWMSBT_TABBEDWINDOW` (Tabbed).
pub const DWMSBT_TABBEDWINDOW: u32 = 4;

/// `DWMWCP_DONOTROUND`.
pub const DWMWCP_DONOTROUND: u32 = 1;
/// `DWMWCP_ROUND`.
pub const DWMWCP_ROUND: u32 = 2;
/// `DWMWCP_ROUNDSMALL`.
pub const DWMWCP_ROUNDSMALL: u32 = 3;

/// `REG_DWORD`.
pub const REG_DWORD: u32 = 4;

/// DWM backdrop material.
#[derive(Clone, Copy, Debug, PartialEq, Eq, Structural)]
pub enum DwmBackdrop {
    /// Mica (Windows 11 main-window material).
    Mica,
    /// Acrylic (translucent blur, for light windows and popups).
    Acrylic,
    /// Tabbed.
    Tabbed,
    /// No DWM material.
    NoMaterial,
}

/// Window corner preference.
#[derive(Clone, Copy, Debug, PartialEq, Eq, Structural)]
pub enum CornerPreference {
    Round,
    RoundSmall,
    DoNotRound,
}

/// The `DWMWA_SYSTEMBACKDROP_TYPE` value of a backdrop.
pub open spec fn backdrop_type(b: DwmBackdrop) -> u32 {
    match b {
        DwmBackdrop::Mica => DWMSBT_MAINWINDOW,
        DwmBackdrop::Acrylic => DWMSBT_TRANSIENTWINDOW,
        DwmBackdrop::Tabbed => DWMSBT_TABBEDWINDOW,
        DwmBackdrop::NoMaterial => DWMSBT_NONE,
    }
}

/// The `DWMWA_WINDOW_CORNER_PREFERENCE` value of a corner preference.
pub open spec fn corner_value(c: CornerPreference) -> u32 {
    match c {
        CornerPreference::Round => DWMWCP_ROUND,
        CornerPreference::RoundSmall => DWMWCP_ROUNDSMALL,
        CornerPreference::DoNotRound => DWMWCP_DONOTROUND,
    }
}

/// The data of one DWM attribute write.
#[derive(Clone, Debug, PartialEq, Eq)]
pub enum DwmValue {
    /// A `DWORD` value.
    Dword(u32),
    /// Raw bytes, passed as they are.
    Bytes(Vec<u8>),
}

/// The model of a `DwmValue`.
pub enum DwmValueModel {
    Dword(u32),
    Bytes(Seq<u8>),
}

/// One `DwmSetWindowAttribute` call: an attribute id and its data.
#[derive(Clone, Debug, PartialEq, Eq)]
pub struct DwmWrite {
    pub attribute: u32,
    pub value: DwmValue,
}

/// The model of a `DwmWrite`.
pub struct DwmWriteModel {
    pub attribute: u32,
    pub value: DwmValueModel,
}

impl View for DwmWrite {
    type V = DwmWriteModel;

    open spec fn view(&self) -> DwmWriteModel {
        DwmWriteModel {
            attribute: self.attribute,
            value: match self.value {
                DwmValue::Dword(d) => DwmValueModel::Dword(d),
                DwmValue::Bytes(b) => DwmValueModel::Bytes(b@),
            },
        }
    }
}

/// The models of a sequence of writes.
pub open spec fn writes_model(s: Seq<DwmWrite>) -> Seq<DwmWriteModel> {
    s.map_values(|w: DwmWrite| w@)
}

/// A `DWORD` write.
pub open spec fn dword_write(attribute: u32, value: u32) -> DwmWriteModel {
    DwmWriteModel { attribute, value: DwmValueModel::Dword(value) }
}

/// The model of a `WindowAttributes` configuration.
pub struct AttributesModel {
    pub backdrop: Option<DwmBackdrop>,
    pub dark_mode: Option<bool>,
    pub corner: Option<CornerPreference>,
    pub border_color: Option<u32>,
    pub caption_color: Option<u32>,
    pub text_color: Option<u32>,
    pub style_add: u32,
    pub style_remove: u32,
    pub ex_style_add: u32,
    pub ex_style_remove: u32,
    pub raw_dwm_attrs: Seq<DwmWriteModel>,
}

/// The empty configuration: nothing to change.
pub open spec fn empty_attributes() -> AttributesModel {
    AttributesModel {
        backdrop: None,
        dark_mode: None,
        corner: None,
        border_color: None,
        caption_color: None,
        text_color: None,
        style_add: 0,
        style_remove: 0,
        ex_style_add: 0,
        ex_style_remove: 0,
        raw_dwm_attrs: Seq::empty(),
    }
}

/// The style a window gets from its current style and the bits to add and
/// remove (removal wins), or `None` when nothing is to be written: no bits
/// are configured, or the style would not change.
pub open spec fn updated_style(current: u32, add: u32, remove: u32) -> Option<u32> {
    if add == 0 && remove == 0 {
        None
    } else {
        let next = (current | add) & !remove;
        if next != current {
            Some(next)
        } else {
            None
        }
    }
}

/// The backdrop write of a configuration, if it sets a backdrop.
pub open spec fn backdrop_write_of(m: AttributesModel) -> Option<DwmWriteModel> {
    match m.backdrop {
        Some(b) => Some(dword_write(DWMWA_SYSTEMBACKDROP_TYPE, backdrop_type(b))),
        None => None,
    }
}

/// A one-element sequence for `Some`, empty for `None`.
pub open spec fn opt_seq(w: Option<DwmWriteModel>) -> Seq<DwmWriteModel> {
    match w {
        Some(w) => seq![w],
        None => Seq::empty(),
    }
}

/// The model of an optional write.
pub open spec fn opt_model(w: Option<DwmWrite>) -> Option<DwmWriteModel> {
    match w {
        Some(w) => Some(w@),
        None => None,
    }
}

/// The dark-mode write of a configuration, if any.
pub open spec fn dark_write_of(m: AttributesModel) -> Option<DwmWriteModel> {
    match m.dark_mode {
        Some(d) => Some(dword_write(DWMWA_USE_IMMERSIVE_DARK_MODE, if d { 1 } else { 0 })),
        None => None,
    }
}

/// The corner-preference write of a configuration, if any.
pub open spec fn corner_write_of(m: AttributesModel) -> Option<DwmWriteModel> {
    match m.corner {
        Some(c) => Some(dword_write(DWMWA_WINDOW_CORNER_PREFERENCE, corner_value(c))),
        None => None,
    }
}

/// The write of an optional colour attribute.
pub open spec fn color_write_of(attribute: u32, color: Option<u32>) -> Option<DwmWriteModel> {
    match color {
        Some(c) => Some(dword_write(attribute, c)),
        None => None,
    }
}

/// The writes after the backdrop, in order: dark mode, corner preference,
/// border, caption and text colours, then the raw attributes as they were
/// added.
pub open spec fn remaining_writes_of(m: AttributesModel) -> Seq<DwmWriteModel> {
    opt_seq(dark_write_of(m)) + opt_seq(corner_write_of(m)) + opt_seq(
        color_write_of(DWMWA_BORDER_COLOR, m.border_color),
    ) + opt_seq(color_write_of(DWMWA_CAPTION_COLOR, m.caption_color)) + opt_seq(
        color_write_of(DWMWA_TEXT_COLOR, m.text_color),
    ) + m.raw_dwm_attrs
}

/// Declarative window attribute configuration, built with the `with_*`
/// methods and then applied to a window.
pub struct WindowAttributes {
    backdrop: Option<DwmBackdrop>,
    dark_mode: Option<bool>,
    corner: Option<CornerPreference>,
    border_color: Option<u32>,
    caption_color: Option<u32>,
    text_color: Option<u32>,
    style_add: u32,
    style_remove: u32,
    ex_style_add: u32,
    ex_style_remove: u32,
    raw_dwm_attrs: Vec<DwmWrite>,
}

impl View for WindowAttributes {
    type V = AttributesModel;

    closed spec fn view(&self) -> AttributesModel {
        AttributesModel {
            backdrop: self.backdrop,
            dark_mode: self.dark_mode,
            corner: self.corner,
            border_color: self.border_color,
            caption_color: self.caption_color,
            text_color: self.text_color,
            style_add: self.style_add,
            style_remove: self.style_remove,
            ex_style_add: self.ex_style_add,
            ex_style_remove: self.ex_style_remove,
            raw_dwm_attrs: writes_model(self.raw_dwm_attrs@),
        }
    }
}

/// Another name for `WindowAttributes`.
pub type DwmPreset = WindowAttributes;

impl Default for WindowAttributes {
    /// An empty configuration.
    fn default() -> (a: Self)
        ensures
            a@ == empty_attributes(),
    {
        WindowAttributes::new()
    }
}

impl WindowAttributes {
    /// An empty configuration.
    pub fn new() -> (a: Self)
        ensures
            a@ == empty_attributes(),
    {
        let a = WindowAttributes {
            backdrop: None,
            dark_mode: None,
            corner: None,
            border_color: None,
            caption_color: None,
            text_color: None,
            style_add: 0,
            style_remove: 0,
            ex_style_add: 0,
            ex_style_remove: 0,
            raw_dwm_attrs: Vec::new(),
        };
        assert(writes_model(a.raw_dwm_attrs@) =~= Seq::<DwmWriteModel>::empty());
        a
    }

    /// Uses the Mica backdrop.
    pub fn with_mica(self) -> (a: Self)
        ensures
            a@ == (AttributesModel { backdrop: Some(DwmBackdrop::Mica), ..self@ }),
    {
        self.with_backdrop(DwmBackdrop::Mica)
    }

    /// Uses the Acrylic backdrop.
    pub fn with_acrylic(self) -> (a: Self)
        ensures
            a@ == (AttributesModel { backdrop: Some(DwmBackdrop::Acrylic), ..self@ }),
    {
        self.with_backdrop(DwmBackdrop::Acrylic)
    }

    /// Uses the Tabbed backdrop.
    pub fn with_tabbed(self) -> (a: Self)
        ensures
            a@ == (AttributesModel { backdrop: Some(DwmBackdrop::Tabbed), ..self@ }),
    {
        self.with_backdrop(DwmBackdrop::Tabbed)
    }

    /// Sets the DWM backdrop material.
    pub fn with_backdrop(self, backdrop: DwmBackdrop) -> (a: Self)
        ensures
            a@ == (AttributesModel { backdrop: Some(backdrop), ..self@ }),
    {
        WindowAttributes { backdrop: Some(backdrop), ..self }
    }

    /// Sets dark (`true`) or light (`false`) mode.
    pub fn with_dark_mode(self, enabled: bool) -> (a: Self)
        ensures
            a@ == (AttributesModel { dark_mode: Some(enabled), ..self@ }),
    {
        WindowAttributes { dark_mode: Some(enabled), ..self }
    }

    /// Sets the corner preference.
    pub fn with_corner(self, pref: CornerPreference) -> (a: Self)
        ensures
            a@ == (AttributesModel { corner: Some(pref), ..self@ }),
    {
        WindowAttributes { corner: Some(pref), ..self }
    }

    /// Sets the DWM border colour (`0x00BBGGRR`).
    pub fn with_border_color(self, color_bgr: u32) -> (a: Self)
        ensures
            a@ == (AttributesModel { border_color: Some(color_bgr), ..self@ }),
    {
        WindowAttributes { border_color: Some(color_bgr), ..self }
    }

    /// Sets the DWM caption colour (`0x00BBGGRR`).
    pub fn with_caption_color(self, color_bgr: u32) -> (a: Self)
        ensures
            a@ == (AttributesModel { caption_color: Some(color_bgr), ..self@ }),
    {
        WindowAttributes { caption_color: Some(color_bgr), ..self }
    }

    /// Sets the DWM caption text colour (`0x00BBGGRR`).
    pub fn with_text_color(self, color_bgr: u32) -> (a: Self)
        ensures
            a@ == (AttributesModel { text_color: Some(color_bgr), ..self@ }),
    {
        WindowAttributes { text_color: Some(color_bgr), ..self }
    }

    /// Makes the window a tool window (`WS_EX_TOOLWINDOW`: not in Alt+Tab nor
    /// the taskbar), which also drops `WS_EX_APPWINDOW`; or, when disabled,
    /// removes `WS_EX_TOOLWINDOW`.
    pub fn with_tool_window(self, enabled: bool) -> (a: Self)
        ensures
            a@ == (if enabled {
                AttributesModel {
                    ex_style_add: self@.ex_style_add | WS_EX_TOOLWINDOW,
                    ex_style_remove: self@.ex_style_remove | WS_EX_APPWINDOW,
                    ..self@
                }
            } else {
                AttributesModel { ex_style_remove: self@.ex_style_remove | WS_EX_TOOLWINDOW, ..self@ }
            }),
    {
        if enabled {
            WindowAttributes {
                ex_style_add: self.ex_style_add | WS_EX_TOOLWINDOW,
                ex_style_remove: self.ex_style_remove | WS_EX_APPWINDOW,
                ..self
            }
        } else {
            WindowAttributes { ex_style_remove: self.ex_style_remove | WS_EX_TOOLWINDOW, ..self }
        }
    }

    /// Forces a taskbar button (`WS_EX_APPWINDOW`), which also drops
    /// `WS_EX_TOOLWINDOW`; or, when disabled, removes `WS_EX_APPWINDOW`.
    pub fn with_app_window(self, enabled: bool) -> (a: Self)
        ensures
            a@ == (if enabled {
                AttributesModel {
                    ex_style_add: self@.ex_style_add | WS_EX_APPWINDOW,
                    ex_style_remove: self@.ex_style_remove | WS_EX_TOOLWINDOW,
                    ..self@
                }
            } else {
                AttributesModel { ex_style_remove: self@.ex_style_remove | WS_EX_APPWINDOW, ..self@ }
            }),
    {
        if enabled {
            WindowAttributes {
                ex_style_add: self.ex_style_add | WS_EX_APPWINDOW,
                ex_style_remove: self.ex_style_remove | WS_EX_TOOLWINDOW,
                ..self
            }
        } else {
            WindowAttributes { ex_style_remove: self.ex_style_remove | WS_EX_APPWINDOW, ..self }
        }
    }

    /// Adds (`true`) or removes (`false`) one extended-style bit.
    fn with_ex_flag(self, flag: u32, enabled: bool) -> (a: Self)
        ensures
            a@ == (if enabled {
                AttributesModel { ex_style_add: self@.ex_style_add | flag, ..self@ }
            } else {
                AttributesModel { ex_style_remove: self@.ex_style_remove | flag, ..self@ }
            }),
    {
        if enabled {
            WindowAttributes { ex_style_add: self.ex_style_add | flag, ..self }
        } else {
            WindowAttributes { ex_style_remove: self.ex_style_remove | flag, ..self }
        }
    }

    /// Keeps the window above others (`WS_EX_TOPMOST`), or removes that bit.
    pub fn with_always_on_top(self, enabled: bool) -> (a: Self)
        ensures
            a@ == (if enabled {
                AttributesModel { ex_style_add: self@.ex_style_add | WS_EX_TOPMOST, ..self@ }
            } else {
                AttributesModel { ex_style_remove: self@.ex_style_remove | WS_EX_TOPMOST, ..self@ }
            }),
    {
        self.with_ex_flag(WS_EX_TOPMOST, enabled)
    }

    /// Lets mouse clicks pass through (`WS_EX_TRANSPARENT`), or removes that
    /// bit.
    pub fn with_click_through(self, enabled: bool) -> (a: Self)
        ensures
            a@ == (if enabled {
                AttributesModel { ex_style_add: self@.ex_style_add | WS_EX_TRANSPARENT, ..self@ }
            } else {
                AttributesModel {
                    ex_style_remove: self@.ex_style_remove | WS_EX_TRANSPARENT,
                    ..self@
                }
            }),
    {
        self.with_ex_flag(WS_EX_TRANSPARENT, enabled)
    }

    /// Keeps clicks from activating the window (`WS_EX_NOACTIVATE`), or
    /// removes that bit.
    pub fn with_no_activate(self, enabled: bool) -> (a: Self)
        ensures
            a@ == (if enabled {
                AttributesModel { ex_style_add: self@.ex_style_add | WS_EX_NOACTIVATE, ..self@ }
            } else {
                AttributesModel { ex_style_remove: self@.ex_style_remove | WS_EX_NOACTIVATE, ..self@ }
            }),
    {
        self.with_ex_flag(WS_EX_NOACTIVATE, enabled)
    }

    /// Adds raw `GWL_STYLE` bits to set and to clear.
    pub fn with_raw_style(self, add: u32, remove: u32) -> (a: Self)
        ensures
            a@ == (AttributesModel {
                style_add: self@.style_add | add,
                style_remove: self@.style_remove | remove,
                ..self@
            }),
    {
        WindowAttributes {
            style_add: self.style_add | add,
            style_remove: self.style_remove | remove,
            ..self
        }
    }

    /// Adds raw `GWL_EXSTYLE` bits to set and to clear.
    pub fn with_raw_ex_style(self, add: u32, remove: u32) -> (a: Self)
        ensures
            a@ == (AttributesModel {
                ex_style_add: self@.ex_style_add | add,
                ex_style_remove: self@.ex_style_remove | remove,
                ..self@
            }),
    {
        WindowAttributes {
            ex_style_add: self.ex_style_add | add,
            ex_style_remove: self.ex_style_remove | remove,
            ..self
        }
    }

    /// Adds a raw DWM attribute write (attribute id and the bytes of its
    /// value), performed after all the others in the order added.
    pub fn with_raw_dwm_attribute(self, attr: u32, data: Vec<u8>) -> (a: Self)
        ensures
            a@ == (AttributesModel {
                raw_dwm_attrs: self@.raw_dwm_attrs.push(
                    DwmWriteModel { attribute: attr, value: DwmValueModel::Bytes(data@) },
                ),
                ..self@
            }),
    {
        let mut s = self;
        let ghost before = s.raw_dwm_attrs@;
        let w = DwmWrite { attribute: attr, value: DwmValue::Bytes(data) };
        s.raw_dwm_attrs.push(w);
        assert(writes_model(s.raw_dwm_attrs@) =~= writes_model(before).push(w@));
        s
    }

    /// Whether applying the configuration needs the window's `GWL_STYLE` at
    /// all: only when some style bit is to be added or removed. Otherwise the
    /// style is neither read nor written.
    pub fn needs_style_read(&self) -> (b: bool)
        ensures
            b == (self@.style_add != 0 || self@.style_remove != 0),
            !b ==> forall|current: u32| #[trigger] updated_style(current, self@.style_add, self@.style_remove) is None,
    {
        self.style_add != 0 || self.style_remove != 0
    }

    /// Whether applying the configuration needs the window's `GWL_EXSTYLE`
    /// at all: only when some extended-style bit is to be added or removed.
    pub fn needs_ex_style_read(&self) -> (b: bool)
        ensures
            b == (self@.ex_style_add != 0 || self@.ex_style_remove != 0),
            !b ==> forall|current: u32| #[trigger] updated_style(current, self@.ex_style_add, self@.ex_style_remove) is None,
    {
        self.ex_style_add != 0 || self.ex_style_remove != 0
    }

    /// The new `GWL_STYLE` for a window whose style is `current`, or `None`
    /// when nothing is to be written.
    pub fn style_update(&self, current: u32) -> (s: Option<u32>)
        ensures
            s == updated_style(current, self@.style_add, self@.style_remove),
    {
        style_update_of(current, self.style_add, self.style_remove)
    }

    /// The new `GWL_EXSTYLE` for a window whose extended style is `current`,
    /// or `None` when nothing is to be written (when one is written, the
    /// frame must then be refreshed).
    pub fn ex_style_update(&self, current: u32) -> (s: Option<u32>)
        ensures
            s == updated_style(current, self@.ex_style_add, self@.ex_style_remove),
    {
        style_update_of(current, self.ex_style_add, self.ex_style_remove)
    }

    /// The backdrop write, performed first among the DWM writes.
    pub fn backdrop_write(&self) -> (w: Option<DwmWrite>)
        ensures
            match w {
                Some(w) => backdrop_write_of(self@) == Some(w@),
                None => backdrop_write_of(self@) is None,
            },
    {
        match self.backdrop {
            Some(b) => Some(
                DwmWrite { attribute: DWMWA_SYSTEMBACKDROP_TYPE, value: DwmValue::Dword(backdrop_value(b)) },
            ),
            None => None,
        }
    }

    /// The write to try when the backdrop write returned `status`: a failed
    /// Mica backdrop (older Windows 11 builds) falls back to
    /// `DWMWA_MICA_EFFECT = 1`; nothing otherwise.
    pub fn backdrop_fallback(&self, status: i32) -> (w: Option<DwmWrite>)
        ensures
            match w {
                Some(w) => status != 0 && self@.backdrop == Some(DwmBackdrop::Mica) && w@ == dword_write(
                    DWMWA_MICA_EFFECT,
                    1,
                ),
                None => !(status != 0 && self@.backdrop == Some(DwmBackdrop::Mica)),
            },
    {
        match self.backdrop {
            Some(DwmBackdrop::Mica) => if status != 0 {
                Some(DwmWrite { attribute: DWMWA_MICA_EFFECT, value: DwmValue::Dword(1) })
            } else {
                None
            },
            _ => None,
        }
    }

    /// The DWM writes that follow the backdrop (and its fallback), in order.
    pub fn into_remaining_writes(self) -> (ws: Vec<DwmWrite>)
        ensures
            writes_model(ws@) == remaining_writes_of(self@),
    {
        let ghost m = self@;
        let mut out: Vec<DwmWrite> = Vec::new();
        assert(writes_model(out@) =~= Seq::<DwmWriteModel>::empty());
        let dark = match self.dark_mode {
            Some(d) => Some(
                DwmWrite {
                    attribute: DWMWA_USE_IMMERSIVE_DARK_MODE,
                    value: DwmValue::Dword(
                        if d {
                            1
                        } else {
                            0
                        },
                    ),
                },
            ),
            None => None,
        };
        push_opt(&mut out, dark);
        let corner = match self.corner {
            Some(c) => Some(
                DwmWrite {
                    attribute: DWMWA_WINDOW_CORNER_PREFERENCE,
                    value: DwmValue::Dword(corner_pref_value(c)),
                },
            ),
            None => None,
        };
        push_opt(&mut out, corner);
        push_opt(&mut out, color_write(DWMWA_BORDER_COLOR, self.border_color));
        push_opt(&mut out, color_write(DWMWA_CAPTION_COLOR, self.caption_color));
        push_opt(&mut out, color_write(DWMWA_TEXT_COLOR, self.text_color));
        let ghost head = out@;
        let mut raws = self.raw_dwm_attrs;
        out.append(&mut raws);
        assert(writes_model(out@) =~= writes_model(head) + m.raw_dwm_attrs);
        out
    }
}

/// Appends an optional write.
fn push_opt(out: &mut Vec<DwmWrite>, w: Option<DwmWrite>)
    ensures
        writes_model(final(out)@) == writes_model(old(out)@) + opt_seq(opt_model(w)),
{
    match w {
        Some(x) => {
            let ghost before = out@;
            out.push(x);
            assert(writes_model(out@) =~= writes_model(before) + opt_seq(opt_model(w)));
        },
        None => {
            assert(writes_model(out@) =~= writes_model(out@) + opt_seq(opt_model(w)));
        },
    }
}

/// The write of an optional colour attribute.
fn color_write(attribute: u32, color: Option<u32>) -> (w: Option<DwmWrite>)
    ensures
        opt_model(w) == color_write_of(attribute, color),
{
    match color {
        Some(c) => Some(DwmWrite { attribute, value: DwmValue::Dword(c) }),
        None => None,
    }
}

/// The `DWMWA_SYSTEMBACKDROP_TYPE` value of a backdrop.
fn backdrop_value(b: DwmBackdrop) -> (v: u32)
    ensures
        v == backdrop_type(b),
{
    match b {
        DwmBackdrop::Mica => DWMSBT_MAINWINDOW,
        DwmBackdrop::Acrylic => DWMSBT_TRANSIENTWINDOW,
        DwmBackdrop::Tabbed => DWMSBT_TABBEDWINDOW,
        DwmBackdrop::NoMaterial => DWMSBT_NONE,
    }
}

/// The `DWMWA_WINDOW_CORNER_PREFERENCE` value of a corner preference.
fn corner_pref_value(c: CornerPreference) -> (v: u32)
    ensures
        v == corner_value(c),
{
    match c {
        CornerPreference::Round => DWMWCP_ROUND,
        CornerPreference::RoundSmall => DWMWCP_ROUNDSMALL,
        CornerPreference::DoNotRound => DWMWCP_DONOTROUND,
    }
}

/// The updated style for `current`, `add` and `remove`.
fn style_update_of(current: u32, add: u32, remove: u32) -> (s: Option<u32>)
    ensures
        s == updated_style(current, add, remove),
{
    if add == 0 && remove == 0 {
        return None;
    }
    let next = (current | add) & !remove;
    if next != current {
        Some(next)
    } else {
        None
    }
}

/// Whether the system uses dark mode, from the read of
/// `HKCU\Software\Microsoft\Windows\CurrentVersion\Themes\Personalize\AppsUseLightTheme`:
/// `open_status` is the status of opening the key; `query_status`,
/// `value_type` and `data` are those of reading the value (not looked at when
/// the key did not open). The value 0 means dark mode; any other value means
/// light mode; a key or value that cannot be read, or is not a `REG_DWORD`,
/// means dark mode.
pub fn is_system_dark_mode(open_status: u32, query_status: u32, value_type: u32, data: u32) -> (dark: bool)
    ensures
        dark == (open_status != 0 || query_status != 0 || value_type != REG_DWORD || data == 0),
{
    if open_status != 0 {
        return true;
    }
    if query_status != 0 || value_type != REG_DWORD {
        return true;
    }
    data == 0
}

/// The style a window has once an update is applied (unchanged when there is
/// nothing to write).
pub open spec fn style_after(current: u32, add: u32, remove: u32) -> u32 {
    match updated_style(current, add, remove) {
        Some(n) => n,
        None => current,
    }
}

/// Applying a configuration sets every bit to add and clears every bit to
/// remove, removal winning when a bit is in both: the resulting style is
/// `(current | add) & !remove`, and it is written only when it differs.
pub proof fn lemma_style_after(current: u32, add: u32, remove: u32)
    ensures
        style_after(current, add, remove) == (current | add) & !remove,
        style_after(current, add, remove) & remove == 0,
        style_after(current, add, remove) & (add & !remove) == add & !remove,
        updated_style(current, add, remove) is Some ==> style_after(current, add, remove) != current,
{
    assert((current | 0u32) & !0u32 == current) by (bit_vector);
    assert(((current | add) & !remove) & remove == 0) by (bit_vector);
    assert((((current | add) & !remove) & (add & !remove)) == (add & !remove)) by (bit_vector);
}

/// An empty configuration reads and writes no style and performs no DWM
/// write: it leaves the window unchanged.
pub proof fn lemma_empty_configuration_changes_nothing()
    ensures
        !(empty_attributes().style_add != 0 || empty_attributes().style_remove != 0),
        !(empty_attributes().ex_style_add != 0 || empty_attributes().ex_style_remove != 0),
        backdrop_write_of(empty_attributes()) is None,
        remaining_writes_of(empty_attributes()) == Seq::<DwmWriteModel>::empty(),
{
    assert(remaining_writes_of(empty_attributes()) =~= Seq::<DwmWriteModel>::empty());
}

/// Applying the same style bits twice changes nothing the second time.
pub proof fn lemma_style_update_idempotent(current: u32, add: u32, remove: u32)
    ensures
        updated_style(style_after(current, add, remove), add, remove) is None,
{
    let n = (current | add) & !remove;
    assert(((n | add) & !remove) == n) by (bit_vector)
        requires
            n == (current | add) & !remove,
    ;
}

/// `with_app_window(true)` puts the window in the taskbar: whatever the
/// window's extended style was, afterwards it has `WS_EX_APPWINDOW` and not
/// `WS_EX_TOOLWINDOW` — unless an earlier call already marked
/// `WS_EX_APPWINDOW` for removal (such as `with_tool_window(true)`), since
/// removal wins.
pub proof fn lemma_app_window_in_taskbar(m: AttributesModel, current: u32)
    requires
        m.ex_style_remove & WS_EX_APPWINDOW == 0,
    ensures
        ({
            let s = style_after(
                current,
                m.ex_style_add | WS_EX_APPWINDOW,
                m.ex_style_remove | WS_EX_TOOLWINDOW,
            );
            s & WS_EX_APPWINDOW != 0 && s & WS_EX_TOOLWINDOW == 0
        }),
{
    let add = m.ex_style_add | WS_EX_APPWINDOW;
    let remove = m.ex_style_remove | WS_EX_TOOLWINDOW;
    lemma_style_after(current, add, remove);
    let r = m.ex_style_remove;
    let a = m.ex_style_add;
    assert((((current | (a | 0x0004_0000u32)) & !(r | 0x80u32)) & 0x0004_0000u32) != 0
        && (((current | (a | 0x0004_0000u32)) & !(r | 0x80u32)) & 0x80u32) == 0) by (bit_vector)
        requires
            r & 0x0004_0000u32 == 0,
    ;
}

/// `with_tool_window(true)` hides the window from the taskbar: afterwards it
/// has `WS_EX_TOOLWINDOW` and not `WS_EX_APPWINDOW` — unless an earlier call
/// already marked `WS_EX_TOOLWINDOW` for removal.
pub proof fn lemma_tool_window_not_in_taskbar(m: AttributesModel, current: u32)
    requires
        m.ex_style_remove & WS_EX_TOOLWINDOW == 0,
    ensures
        ({
            let s = style_after(
                current,
                m.ex_style_add | WS_EX_TOOLWINDOW,
                m.ex_style_remove | WS_EX_APPWINDOW,
            );
            s & WS_EX_TOOLWINDOW != 0 && s & WS_EX_APPWINDOW == 0
        }),
{
    let add = m.ex_style_add | WS_EX_TOOLWINDOW;
    let remove = m.ex_style_remove | WS_EX_APPWINDOW;
    lemma_style_after(current, add, remove);
    let r = m.ex_style_remove;
    let a = m.ex_style_add;
    assert((((current | (a | 0x80u32)) & !(r | 0x0004_0000u32)) & 0x80u32) != 0
        && (((current | (a | 0x80u32)) & !(r | 0x0004_0000u32)) & 0x0004_0000u32) == 0) by (bit_vector)
        requires
            r & 0x80u32 == 0,
    ;
}

/// The DWM values the configuration writes: the backdrop as
/// `DWMWA_SYSTEMBACKDROP_TYPE` (38) with Mica 2, Acrylic 3, Tabbed 4 and no
/// material 1; dark mode as `DWMWA_USE_IMMERSIVE_DARK_MODE` (20) with 1 for
/// dark and 0 for light; corners as `DWMWA_WINDOW_CORNER_PREFERENCE` (33) with
/// round 2, small round 3 and square 1; the colours as attributes 34, 35 and
/// 36 with the colour itself.
pub proof fn lemma_dwm_values(m: AttributesModel)
    ensures
        m.backdrop == Some(DwmBackdrop::Mica) ==> backdrop_write_of(m) == Some(dword_write(38, 2)),
        m.backdrop == Some(DwmBackdrop::Acrylic) ==> backdrop_write_of(m) == Some(dword_write(38, 3)),
        m.backdrop == Some(DwmBackdrop::Tabbed) ==> backdrop_write_of(m) == Some(dword_write(38, 4)),
        m.backdrop == Some(DwmBackdrop::NoMaterial) ==> backdrop_write_of(m) == Some(
            dword_write(38, 1),
        ),
        m.backdrop is None ==> backdrop_write_of(m) is None,
        m.dark_mode == Some(true) ==> dark_write_of(m) == Some(dword_write(20, 1)),
        m.dark_mode == Some(false) ==> dark_write_of(m) == Some(dword_write(20, 0)),
        m.dark_mode is None ==> dark_write_of(m) is None,
        m.corner == Some(CornerPreference::Round) ==> corner_write_of(m) == Some(dword_write(33, 2)),
        m.corner == Some(CornerPreference::RoundSmall) ==> corner_write_of(m) == Some(
            dword_write(33, 3),
        ),
        m.corner == Some(CornerPreference::DoNotRound) ==> corner_write_of(m) == Some(
            dword_write(33, 1),
        ),
        m.corner is None ==> corner_write_of(m) is None,
        forall|c: u32| #[trigger] color_write_of(34, Some(c)) == Some(dword_write(34, c)),
        color_write_of(35, None) is None,
{
}

/// The writes after the backdrop come in a fixed order, each present exactly
/// when configured: dark mode, corner preference, border, caption and text
/// colour, then every raw attribute in the order added. A fully configured
/// window gets the five typed writes followed by its raw writes.
pub proof fn lemma_remaining_writes_order(m: AttributesModel, dark: bool, corner: CornerPreference, b: u32, c: u32, t: u32)
    requires
        m.dark_mode == Some(dark),
        m.corner == Some(corner),
        m.border_color == Some(b),
        m.caption_color == Some(c),
        m.text_color == Some(t),
    ensures
        ({
            let ws = remaining_writes_of(m);
            &&& ws.len() == 5 + m.raw_dwm_attrs.len()
            &&& ws[0] == dword_write(20, if dark { 1 } else { 0 })
            &&& ws[1] == dword_write(33, corner_value(corner))
            &&& ws[2] == dword_write(34, b)
            &&& ws[3] == dword_write(35, c)
            &&& ws[4] == dword_write(36, t)
            &&& ws.subrange(5, ws.len() as int) == m.raw_dwm_attrs
        }),
{
    let ws = remaining_writes_of(m);
    assert(ws.subrange(5, ws.len() as int) =~= m.raw_dwm_attrs);
}

} // verus!
