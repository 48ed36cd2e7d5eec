//! Window matching for the `WH_CBT` hook that hands the window handle of a
//! UI window to a callback the instant the window is created, before its
//! first frame is drawn.
//!
//! The hook procedure reports two kinds of events: a window is being created
//! (`HCBT_CREATEWND`) and a window is about to be activated
//! (`HCBT_ACTIVATE`). `HookSession` decides which created window is the
//! target and when the callback runs; it runs at most once per installation,
//! after which the hook is removed.

use vstd::prelude::*;

verus! {

/// `WS_CHILD`.
pub const WS_CHILD: u32 = 0x4000_0000;

/// Whether `needle` occurs as a contiguous run in `hay`.
pub open spec fn is_infix(needle: Seq<char>, hay: Seq<char>) -> bool {
    exists|i: int|
        0 <= i && i + needle.len() <= hay.len() && #[trigger] hay.subrange(i, i + needle.len())
            == needle
}

/// Whether `needle` occurs in `hay` at position `i`.
pub open spec fn occurs_at(needle: Seq<char>, hay: Seq<char>, i: int) -> bool {
    0 <= i && i + needle.len() <= hay.len() && hay.subrange(i, i + needle.len()) == needle
}

/// The characters of a string.
pub fn chars_of(s: &str) -> (v: Vec<char>)
    ensures
        v@ == s@,
{
    let n = s.unicode_len();
    let mut v: Vec<char> = Vec::new();
    let mut i: usize = 0;
    while i < n
        invariant
            n == s@.len(),
            i <= n,
            v@ == s@.subrange(0, i as int),
        decreases n - i,
    {
        let c = s.get_char(i);
        v.push(c);
        i = i + 1;
        assert(v@ =~= s@.subrange(0, i as int));
    }
    assert(v@ =~= s@);
    v
}

/// Whether `needle` occurs in `hay` at position `start`.
fn matches_at(hay: &Vec<char>, needle: &Vec<char>, start: usize) -> (b: bool)
    requires
        start + needle@.len() <= hay@.len(),
    ensures
        b == occurs_at(needle@, hay@, start as int),
{
    let hay_len = hay.len();
    let mut j: usize = 0;
    while j < needle.len()
        invariant
            hay_len == hay@.len(),
            start + needle@.len() <= hay@.len(),
            j <= needle@.len(),
            forall|k: int| 0 <= k < j ==> hay@[start + k] == needle@[k],
        decreases needle@.len() - j,
    {
        if hay[start + j] != needle[j] {
            assert(hay@.subrange(start as int, start + needle@.len())[j as int] != needle@[j as int]);
            return false;
        }
        j = j + 1;
    }
    assert(hay@.subrange(start as int, start + needle@.len()) =~= needle@);
    true
}

/// Whether `needle` occurs as a contiguous run of characters in `hay`.
pub fn contains_chars(hay: &Vec<char>, needle: &Vec<char>) -> (b: bool)
    ensures
        b == is_infix(needle@, hay@),
{
    if needle.len() > hay.len() {
        return false;
    }
    let last = hay.len() - needle.len();
    let mut i: usize = 0;
    loop
        invariant
            last + needle@.len() == hay@.len(),
            i <= last,
            forall|k: int| 0 <= k < i ==> !occurs_at(needle@, hay@, k),
        decreases last - i,
    {
        if matches_at(hay, needle, i) {
            assert(occurs_at(needle@, hay@, i as int));
            return true;
        }
        if i == last {
            assert forall|k: int|
                0 <= k && k + needle@.len() <= hay@.len() implies #[trigger] hay@.subrange(
                k,
                k + needle@.len(),
            ) != needle@ by {
                assert(!occurs_at(needle@, hay@, k));
            }
            return false;
        }
        i = i + 1;
    }
}

/// Whether two character sequences are equal.
fn same_chars(a: &Vec<char>, b: &Vec<char>) -> (r: bool)
    ensures
        r == (a@ == b@),
{
    if a.len() != b.len() {
        return false;
    }
    let mut i: usize = 0;
    while i < a.len()
        invariant
            a@.len() == b@.len(),
            i <= a@.len(),
            forall|k: int| 0 <= k < i ==> a@[k] == b@[k],
        decreases a@.len() - i,
    {
        if a[i] != b[i] {
            return false;
        }
        i = i + 1;
    }
    assert(a@ =~= b@);
    true
}

/// Whether a created window's name matches the target title: the name
/// contains the title, or the name is non-empty and the title contains it.
/// An unnamed window matches only an empty title.
pub open spec fn title_match(window_name: Seq<char>, title: Seq<char>) -> bool {
    is_infix(title, window_name) || (window_name.len() > 0 && is_infix(window_name, title))
}

/// Whether the window named `window_name` is the one whose title is
/// `title`: the name contains the title, or the name is non-empty and the
/// title contains it.
pub fn title_matches(window_name: &str, title: &str) -> (b: bool)
    ensures
        b == title_match(window_name@, title@),
{
    let name = chars_of(window_name);
    let t = chars_of(title);
    contains_chars(&name, &t) || (name.len() > 0 && contains_chars(&t, &name))
}

/// Whether a window being created is top level: it has no `WS_CHILD`
/// style, no parent and no owner.
pub fn is_top_level_window(style: u32, parent: isize, owner: isize) -> (b: bool)
    ensures
        b == (style & WS_CHILD == 0 && parent == 0 && owner == 0),
{
    style & WS_CHILD == 0 && parent == 0 && owner == 0
}

/// What the hook knows between installation and the callback.
pub struct HookContext {
    target_title: Option<String>,
    target: Option<isize>,
    applied: bool,
}

/// The model of a hook context.
pub struct HookContextModel {
    /// The title to match, if the hook matches by title.
    pub target_title: Option<Seq<char>>,
    /// The window recognised as the target so far.
    pub target: Option<isize>,
    /// Whether the callback has run.
    pub applied: bool,
}

/// The hook state of a thread: a context while a hook is installed and its
/// callback has not run.
pub struct HookSession {
    context: Option<HookContext>,
}

impl View for HookSession {
    type V = Option<HookContextModel>;

    closed spec fn view(&self) -> Option<HookContextModel> {
        match self.context {
            Some(c) => Some(
                HookContextModel {
                    target_title: match c.target_title {
                        Some(t) => Some(t@),
                        None => None,
                    },
                    target: c.target,
                    applied: c.applied,
                },
            ),
            None => None,
        }
    }
}

/// The context after a window named `name` is created as `hwnd`: when the
/// window is top level and the hook has no title or the title matches, it
/// becomes the target (a later match replaces an earlier one).
pub open spec fn after_create(
    s: Option<HookContextModel>,
    hwnd: isize,
    top_level: bool,
    name: Seq<char>,
) -> (Option<HookContextModel>, bool) {
    match s {
        Some(c) => if top_level && (match c.target_title {
            Some(t) => title_match(name, t),
            None => true,
        }) {
            (Some(HookContextModel { target: Some(hwnd), ..c }), true)
        } else {
            (s, false)
        },
        None => (s, false),
    }
}

/// Whether the callback runs when `hwnd` is about to be activated: it has
/// not run yet, and `hwnd` is the recognised target. Without a title to
/// match, the first window activated before any target was recognised also
/// qualifies; with a title, only a matching window ever does.
pub open spec fn fires_on(s: Option<HookContextModel>, hwnd: isize) -> bool {
    match s {
        Some(c) => !c.applied && (c.target == Some(hwnd) || (c.target is None
            && c.target_title is None)),
        None => false,
    }
}

impl HookSession {
    /// No hook installed.
    pub fn new() -> (s: Self)
        ensures
            s@ is None,
    {
        HookSession { context: None }
    }

    /// Forgets any context (before installing, and when the hook is removed).
    pub fn clear(&mut self)
        ensures
            final(self)@ is None,
    {
        self.context = None;
    }

    /// Starts a context once the hook is installed, matching windows by
    /// `target_title` when one is given.
    pub fn start(&mut self, target_title: Option<String>)
        ensures
            final(self)@ == Some(
                HookContextModel {
                    target_title: match target_title {
                        Some(t) => Some(t@),
                        None => None,
                    },
                    target: None,
                    applied: false,
                },
            ),
    {
        self.context = Some(HookContext { target_title, target: None, applied: false });
    }

    /// `HCBT_CREATEWND`: a window `hwnd` named `name` is being created.
    /// Returns whether it became the target.
    pub fn on_create(&mut self, hwnd: isize, top_level: bool, name: &str) -> (matched: bool)
        ensures
            (final(self)@, matched) == after_create(old(self)@, hwnd, top_level, name@),
    {
        if !top_level {
            return false;
        }
        match &mut self.context {
            Some(c) => {
                let is_target = match &c.target_title {
                    Some(t) => title_matches(name, t.as_str()),
                    None => true,
                };
                if is_target {
                    c.target = Some(hwnd);
                }
                is_target
            },
            None => false,
        }
    }

    /// `HCBT_ACTIVATE`: window `hwnd` is about to be activated. Returns the
    /// window to hand to the callback when the callback is due; the context
    /// is then over (the hook is to be removed) and the callback never runs
    /// again for this installation.
    pub fn on_activate(&mut self, hwnd: isize) -> (fire: Option<isize>)
        ensures
            fire == (if fires_on(old(self)@, hwnd) {
                Some(hwnd)
            } else {
                None
            }),
            final(self)@ == (if fires_on(old(self)@, hwnd) {
                None
            } else {
                old(self)@
            }),
    {
        let due = match &self.context {
            Some(c) => !c.applied && (match c.target {
                Some(t) => t == hwnd,
                None => c.target_title.is_none(),
            }),
            None => false,
        };
        if due {
            self.context = None;
            Some(hwnd)
        } else {
            None
        }
    }
}

/// Once the callback has run, the hook is over: nothing becomes a target
/// and the callback never runs again until the hook is installed anew.
pub proof fn lemma_callback_at_most_once(
    s: Option<HookContextModel>,
    hwnd: isize,
    later: isize,
    top_level: bool,
    name: Seq<char>,
)
    requires
        fires_on(s, hwnd),
    ensures
        !fires_on(None, later),
        after_create(None, later, top_level, name) == (None::<HookContextModel>, false),
{
}

/// The callback only ever receives the recognised target window; with a
/// title to match, never any other window. Only a hook without a title
/// falls back to the first window activated when none was recognised.
pub proof fn lemma_fires_for_target(s: Option<HookContextModel>, hwnd: isize)
    requires
        fires_on(s, hwnd),
    ensures
        s matches Some(c) && !c.applied && (c.target == Some(hwnd) || (c.target is None
            && c.target_title is None)),
        (s matches Some(c) && c.target_title is Some) ==> (s matches Some(c) && c.target == Some(
            hwnd,
        )),
{
}

/// An unnamed window never matches a non-empty title, so with a non-empty
/// title an unnamed top-level window never becomes the target.
pub proof fn lemma_unnamed_window_not_target(c: HookContextModel, t: Seq<char>, hwnd: isize)
    requires
        c.target_title == Some(t),
        t.len() > 0,
    ensures
        !title_match(Seq::<char>::empty(), t),
        after_create(Some(c), hwnd, true, Seq::<char>::empty()) == (Some(c), false),
{
}

/// With a title to match, a created window whose name does not match it
/// (see `title_match`), or that is not top level, never becomes the target;
/// a matching top-level window always does.
pub proof fn lemma_title_selects_target(
    c: HookContextModel,
    t: Seq<char>,
    hwnd: isize,
    top_level: bool,
    name: Seq<char>,
)
    requires
        c.target_title == Some(t),
    ensures
        after_create(Some(c), hwnd, top_level, name).1 == (top_level && title_match(name, t)),
        !(top_level && title_match(name, t)) ==> after_create(Some(c), hwnd, top_level, name).0
            == Some(c),
        (top_level && title_match(name, t)) ==> after_create(Some(c), hwnd, top_level, name).0
            == Some(HookContextModel { target: Some(hwnd), ..c }),
{
}

/// The Unicode lowercase mapping of a string's characters, as
/// `str::to_lowercase` computes it.
pub uninterp spec fn unicode_lowercase(s: Seq<char>) -> Seq<char>;

/// Calls `str::to_lowercase`; its result is named `unicode_lowercase` of
/// the argument's characters (the Unicode lowercase mapping, which this
/// contract does not spell out).
#[verifier::external_body]
fn to_lowercase(s: &str) -> (r: String)
    ensures
        r@ == unicode_lowercase(s@),
{
    s.to_lowercase()
}

/// Whether an already lowercased class name is that of a system or framework
/// helper window: it contains `winit thread event target`, `ime`,
/// `olemainthread` or `cicmarshal`, or is `message`.
pub open spec fn helper_lowercase_name(lower: Seq<char>) -> bool {
    is_infix("winit thread event target"@, lower) || is_infix("ime"@, lower) || is_infix(
        "olemainthread"@,
        lower,
    ) || is_infix("cicmarshal"@, lower) || lower == "message"@
}

/// Whether a window class belongs to a system or framework helper window:
/// an atom class, or a class whose lowercase name is a helper name.
pub open spec fn helper_class(class_name: Seq<char>, is_atom: bool) -> bool {
    is_atom || helper_lowercase_name(unicode_lowercase(class_name))
}

/// Whether the lowercased class name `lower` names a system or framework
/// helper window (see `helper_lowercase_name`).
pub fn is_lowercase_helper_name(lower: &str) -> (b: bool)
    ensures
        b == helper_lowercase_name(lower@),
{
    let lower = chars_of(lower);
    contains_chars(&lower, &chars_of("winit thread event target")) || contains_chars(
        &lower,
        &chars_of("ime"),
    ) || contains_chars(&lower, &chars_of("olemainthread")) || contains_chars(
        &lower,
        &chars_of("cicmarshal"),
    ) || same_chars(&lower, &chars_of("message"))
}

/// Whether `class_name` (or an atom class, `is_atom`) names a system or
/// framework helper window rather than the UI window: the name is
/// lowercased with `str::to_lowercase` and then tested with
/// `is_lowercase_helper_name`.
pub fn is_system_or_helper_class(class_name: &str, is_atom: bool) -> (b: bool)
    ensures
        b == helper_class(class_name@, is_atom),
{
    if is_atom {
        return true;
    }
    let lower = to_lowercase(class_name);
    is_lowercase_helper_name(lower.as_str())
}

/// The window class the UI toolkit registers for its top-level windows.
pub open spec fn ui_window_class() -> Seq<char> {
    "Window Class"@
}

/// Whether a `CREATESTRUCTW::lpszClass` value is a class atom rather than a
/// pointer to a class name: atoms fit in the low 16 bits.
pub fn is_class_atom(class_ptr: usize) -> (b: bool)
    ensures
        b == (class_ptr <= 0xFFFF),
{
    class_ptr <= 0xFFFF
}

/// Whether a window is top level: no parent and no owner.
pub fn is_top_level(parent: isize, owner: isize) -> (b: bool)
    ensures
        b == (parent == 0 && owner == 0),
{
    parent == 0 && owner == 0
}

/// Whether a created window is the UI window that the class-matching hook
/// waits for: a top-level window of class `Window Class` that is no helper.
pub fn is_ui_window(class_name: &str, is_atom: bool, top_level: bool) -> (b: bool)
    ensures
        b == (!helper_class(class_name@, is_atom) && top_level && class_name@ == ui_window_class()),
{
    if is_system_or_helper_class(class_name, is_atom) || !top_level {
        return false;
    }
    let name = chars_of(class_name);
    same_chars(&name, &chars_of("Window Class"))
}

/// The state of the class-matching hook: the first UI window created is the
/// target, and the callback runs when exactly that window is activated.
pub struct ClassHookSession {
    context: Option<(Option<isize>, bool)>,
}

impl View for ClassHookSession {
    /// While installed: the target recognised so far and whether the
    /// callback has run.
    type V = Option<(Option<isize>, bool)>;

    closed spec fn view(&self) -> Option<(Option<isize>, bool)> {
        self.context
    }
}

/// Whether the callback has run, for an installed class-matching hook.
pub open spec fn applied_of(s: Option<(Option<isize>, bool)>) -> bool {
    match s {
        Some((_, applied)) => applied,
        None => false,
    }
}

/// Whether the class-matching hook's callback is due when `hwnd` is about
/// to be activated: `hwnd` is the recorded target and the callback has not
/// run.
pub open spec fn class_hook_due(s: Option<(Option<isize>, bool)>, hwnd: isize) -> bool {
    s matches Some((Some(t), false)) && t == hwnd
}

impl ClassHookSession {
    /// No hook installed.
    pub fn new() -> (s: Self)
        ensures
            s@ is None,
    {
        ClassHookSession { context: None }
    }

    /// Starts a context once the hook is installed.
    pub fn start(&mut self)
        ensures
            final(self)@ == Some((None::<isize>, false)),
    {
        self.context = Some((None, false));
    }

    /// `HCBT_CREATEWND`: records `hwnd` as the target when it is the first
    /// UI window created. Returns whether it was recorded.
    pub fn on_create(&mut self, hwnd: isize, is_ui: bool) -> (recorded: bool)
        ensures
            recorded == (is_ui && old(self)@ matches Some((None, _))),
            final(self)@ == (if recorded {
                Some((Some(hwnd), applied_of(old(self)@)))
            } else {
                old(self)@
            }),
    {
        if !is_ui {
            return false;
        }
        match self.context {
            Some((None, applied)) => {
                self.context = Some((Some(hwnd), applied));
                true
            },
            _ => false,
        }
    }

    /// `HCBT_ACTIVATE`: returns `hwnd` when the callback is due (the target
    /// is being activated and the callback has not run); the callback is
    /// then marked as run and the hook is to be removed.
    pub fn on_activate(&mut self, hwnd: isize) -> (fire: Option<isize>)
        ensures
            fire == (if class_hook_due(old(self)@, hwnd) {
                Some(hwnd)
            } else {
                None
            }),
            final(self)@ == (if class_hook_due(old(self)@, hwnd) {
                Some((Some(hwnd), true))
            } else {
                old(self)@
            }),
    {
        match self.context {
            Some((Some(t), false)) => if t == hwnd {
                self.context = Some((Some(t), true));
                Some(hwnd)
            } else {
                None
            },
            _ => None,
        }
    }

    /// Whether the callback has run, as the hook reports it; `recorded` is
    /// what was last known when the context is gone.
    pub fn was_applied(&self, recorded: bool) -> (b: bool)
        ensures
            b == (match self@ {
                Some((_, applied)) => applied,
                None => recorded,
            }),
    {
        match self.context {
            Some((_, applied)) => applied,
            None => recorded,
        }
    }
}

/// The class-matching hook runs its callback at most once: once it has run,
/// no later activation is due, and a later creation records no new target.
pub proof fn lemma_class_callback_at_most_once(
    s: Option<(Option<isize>, bool)>,
    hwnd: isize,
    later: isize,
)
    requires
        class_hook_due(s, hwnd),
    ensures
        !class_hook_due(Some((Some(hwnd), true)), later),
        !(Some((Some(hwnd), true)) matches Some((None, _))),
{
}

/// Only top-level windows are ever targeted: a window that is not top level
/// never becomes the target and leaves the context as it was, with or without
/// a title. Without a title every top-level window becomes the target (the
/// last one created wins); with no hook installed nothing happens.
pub proof fn lemma_create_targets_top_level(
    c: HookContextModel,
    hwnd: isize,
    top_level: bool,
    name: Seq<char>,
)
    ensures
        !top_level ==> after_create(Some(c), hwnd, top_level, name) == (Some(c), false),
        (top_level && c.target_title is None) ==> after_create(Some(c), hwnd, top_level, name)
            == (Some(HookContextModel { target: Some(hwnd), ..c }), true),
        after_create(None, hwnd, top_level, name) == (None::<HookContextModel>, false),
{
}

/// A run of characters occurs in any sequence built around it, and never in
/// a shorter sequence.
pub proof fn lemma_infix_cases(needle: Seq<char>, before: Seq<char>, after: Seq<char>, hay: Seq<char>)
    ensures
        is_infix(needle, before + needle + after),
        needle.len() > hay.len() ==> !is_infix(needle, hay),
{
    let h = before + needle + after;
    assert(h.subrange(before.len() as int, (before.len() + needle.len()) as int) =~= needle);
}

/// A window name matches a title when it contains the title, and when it is
/// non-empty and the title contains it; an unnamed window matches no
/// non-empty title, and a name matches no title that is neither within it
/// nor, being longer, around it.
pub proof fn lemma_title_match_cases(name: Seq<char>, t: Seq<char>, before: Seq<char>, after: Seq<char>)
    ensures
        title_match(before + t + after, t),
        name.len() > 0 ==> title_match(name, before + name + after),
        t.len() > 0 ==> !title_match(Seq::<char>::empty(), t),
        (t.len() > name.len() && !is_infix(name, t)) ==> !title_match(name, t),
{
    lemma_infix_cases(t, before, after, Seq::<char>::empty());
    lemma_infix_cases(name, before, after, Seq::<char>::empty());
    lemma_infix_cases(t, Seq::<char>::empty(), Seq::<char>::empty(), name);
    lemma_infix_cases(t, Seq::<char>::empty(), Seq::<char>::empty(), Seq::<char>::empty());
}

/// When a window is about to be activated, the callback runs for the
/// recognised target and for no other window; before any target is
/// recognised it runs for the first window activated only when the hook
/// matches no title; after it has run, never.
pub proof fn lemma_activation_cases(c: HookContextModel, hwnd: isize)
    ensures
        (!c.applied && c.target == Some(hwnd)) ==> fires_on(Some(c), hwnd),
        (c.target matches Some(t) && t != hwnd) ==> !fires_on(Some(c), hwnd),
        (!c.applied && c.target is None && c.target_title is None) ==> fires_on(Some(c), hwnd),
        (c.target is None && c.target_title is Some) ==> !fires_on(Some(c), hwnd),
        c.applied ==> !fires_on(Some(c), hwnd),
        !fires_on(None, hwnd),
{
}

/// Every atom class is a helper class, and so is every lowercase class name
/// that contains one of the helper markers (`winit thread event target`,
/// `ime`, `olemainthread`, `cicmarshal`) or is `message`.
pub proof fn lemma_helper_names(class_name: Seq<char>, before: Seq<char>, after: Seq<char>)
    ensures
        helper_class(class_name, true),
        helper_lowercase_name(before + "winit thread event target"@ + after),
        helper_lowercase_name(before + "ime"@ + after),
        helper_lowercase_name(before + "olemainthread"@ + after),
        helper_lowercase_name(before + "cicmarshal"@ + after),
        helper_lowercase_name("message"@),
{
    lemma_infix_cases("winit thread event target"@, before, after, Seq::<char>::empty());
    lemma_infix_cases("ime"@, before, after, Seq::<char>::empty());
    lemma_infix_cases("olemainthread"@, before, after, Seq::<char>::empty());
    lemma_infix_cases("cicmarshal"@, before, after, Seq::<char>::empty());
}

/// The class-matching hook's callback is due exactly when the recorded
/// target is the window being activated and the callback has not run: never
/// before a target is recorded, never for another window, never twice.
pub proof fn lemma_class_hook_due_cases(t: isize, hwnd: isize, applied: bool)
    ensures
        class_hook_due(Some((Some(t), false)), hwnd) == (t == hwnd),
        !class_hook_due(Some((Some(t), true)), hwnd),
        !class_hook_due(Some((None::<isize>, applied)), hwnd),
        !class_hook_due(None, hwnd),
{
}

} // verus!
