//! The frame/event bridge: accumulates native window events into the GUI's
//! input snapshot, classifies quit events, and turns per-frame GUI output
//! into the host actions (cursor, clipboard, URL) it calls for.
//!
//! All values are plain: positions and deltas are logical points, the
//! pixel-density scale is an exact rational, and the window is represented
//! only by the sizes and events the host shell feeds in.

use crate::geom::Scale;
use vstd::prelude::*;

verus! {

/// Keyboard modifier state.
#[derive(Clone, Copy, PartialEq, Eq, Structural, Debug)]
pub struct Modifiers {
    pub alt: bool,
    pub ctrl: bool,
    pub shift: bool,
    pub logo: bool,
}

impl Modifiers {
    /// No modifier held.
    pub fn empty() -> (r: Modifiers)
        ensures
            r == (Modifiers { alt: false, ctrl: false, shift: false, logo: false }),
    {
        Modifiers { alt: false, ctrl: false, shift: false, logo: false }
    }
}

/// The host platform's shortcut conventions. The command modifier, the quit
/// chord and the extra edit chords differ between them; the host shell sets
/// this once, from the platform it was built for.
#[derive(Clone, Copy, PartialEq, Eq, Structural, Debug)]
pub enum Platform {
    Mac,
    Windows,
    Other,
}

/// The platform's command modifier, which marks the cut/copy/paste chords:
/// the logo (cmd) key on mac, control everywhere else.
pub open spec fn is_command(p: Platform, m: Modifiers) -> bool {
    if p == Platform::Mac {
        m.logo
    } else {
        m.ctrl
    }
}

/// On mac, characters that arrive while control or the command key is held
/// are side effects of command chords, not text.
pub open spec fn is_text_suppressed(p: Platform, m: Modifiers) -> bool {
    p == Platform::Mac && (m.ctrl || m.logo)
}

/// The keys the bridge handles: the modifier keys (which steer the modifier
/// state), every key the GUI has a representation for (which are forwarded
/// as key events), the quit-chord function key, and `Other`, which carries
/// any remaining native key code opaquely and is not forwarded, since the
/// GUI has no representation for it.
#[derive(Clone, Copy, PartialEq, Eq, Structural, Debug)]
pub enum Key {
    Alt,
    Ctrl,
    Shift,
    Logo,
    F4,
    Other(u32),
    ArrowDown,
    ArrowLeft,
    ArrowRight,
    ArrowUp,
    Escape,
    Tab,
    Backspace,
    Enter,
    Space,
    Insert,
    Delete,
    Home,
    End,
    PageUp,
    PageDown,
    Num0,
    Num1,
    Num2,
    Num3,
    Num4,
    Num5,
    Num6,
    Num7,
    Num8,
    Num9,
    A,
    B,
    C,
    D,
    E,
    F,
    G,
    H,
    I,
    J,
    K,
    L,
    M,
    N,
    O,
    P,
    Q,
    R,
    S,
    T,
    U,
    V,
    W,
    X,
    Y,
    Z,
}

/// Pointer buttons the GUI distinguishes; any further native button is
/// carried as `Unknown` and produces no pointer event.
#[derive(Clone, Copy, PartialEq, Eq, Structural, Debug)]
pub enum PointerButton {
    Primary,
    Secondary,
    Middle,
    Unknown,
}

/// Cursor icons the GUI may request; `Hidden` asks for no visible cursor,
/// and `Duplicate` is the copy cursor of drag-and-drop.
#[derive(Clone, Copy, PartialEq, Eq, Structural, Debug)]
pub enum CursorIcon {
    Default,
    ContextMenu,
    Help,
    PointingHand,
    Progress,
    Wait,
    Cell,
    Crosshair,
    Text,
    VerticalText,
    Alias,
    Duplicate,
    Move,
    NoDrop,
    NotAllowed,
    Grab,
    Grabbing,
    AllScroll,
    ResizeHorizontal,
    ResizeNeSw,
    ResizeNwSe,
    ResizeVertical,
    ZoomIn,
    ZoomOut,
    Hidden,
}

/// A native window event, with positions and deltas already converted to
/// logical points by the host shell.
#[derive(Clone, Copy, PartialEq, Eq, Structural, Debug)]
pub enum WindowEvent {
    CloseRequested,
    Destroyed,
    ScaleFactorChanged { scale: Scale },
    CursorMoved { x: i64, y: i64 },
    CursorLeft,
    MouseInput { button: PointerButton, pressed: bool },
    MouseWheel { dx: i64, dy: i64 },
    ReceivedCharacter { ch: char },
    KeyboardInput { key: Key, pressed: bool },
    Focused { focused: bool },
    Other,
}

impl WindowEvent {
    /// An event is well formed when any scale it carries is a valid rational.
    pub open spec fn wf(self) -> bool {
        match self {
            WindowEvent::ScaleFactorChanged { scale } => scale.wf(),
            _ => true,
        }
    }
}

/// One entry of the input snapshot handed to the GUI each frame.
#[derive(Clone, Copy, PartialEq, Eq, Structural, Debug)]
pub enum InputEvent {
    PointerMoved { x: i64, y: i64 },
    PointerButton { x: i64, y: i64, button: PointerButton, pressed: bool, modifiers: Modifiers },
    PointerGone,
    Text { ch: char },
    Key { key: Key, pressed: bool, modifiers: Modifiers },
    Cut,
    Copy,
    /// The paste chord went down: the host shell answers this request by
    /// inserting the clipboard's text at this position of the stream.
    Paste,
}

/// What the GUI context currently claims about focus, queried by the host
/// shell right before each event is bridged.
#[derive(Clone, Copy, PartialEq, Eq, Structural, Debug)]
pub struct GuiFlags {
    /// A widget wants pointer input (e.g. the pointer is over a window).
    pub wants_pointer_input: bool,
    /// A widget wants keyboard input (e.g. a text field has focus).
    pub wants_keyboard_input: bool,
    /// The pointer is actively used by a widget (e.g. mid-drag).
    pub is_using_pointer: bool,
}

/// The per-frame output of the GUI that must be applied to the host window.
#[derive(Debug)]
pub struct Output {
    /// The GUI asks for another frame right away.
    pub needs_repaint: bool,
    /// The cursor icon to show.
    pub cursor: CursorIcon,
    /// Text to place on the clipboard; empty means nothing was copied.
    pub copied_text: String,
    /// A URL the user asked to open.
    pub open_url: Option<String>,
}

/// An action the host shell must perform on the native window.
#[derive(Debug)]
pub enum HostAction {
    HideCursor,
    ShowCursor,
    SetCursor(CursorIcon),
    SetClipboard(String),
    OpenUrl(String),
}

/// The input snapshot handed to the GUI at the start of a frame.
#[derive(Debug)]
pub struct RawInput {
    /// Screen size in whole logical points, absent while the window has no
    /// visible area (e.g. minimized).
    pub screen_size_pts: Option<(u64, u64)>,
    /// Current pixel-density scale.
    pub scale: Scale,
    /// Current modifier state.
    pub modifiers: Modifiers,
    /// The events accumulated since the previous snapshot, in arrival order.
    pub events: Vec<InputEvent>,
    /// Accumulated scroll delta in points.
    pub scroll_x: i64,
    pub scroll_y: i64,
    /// Accumulated zoom delta in points (scroll with the command modifier).
    pub zoom_y: i64,
}

/// The abstract state of a [`Bridge`].
#[verifier::ext_equal]
pub struct BridgeState {
    pub scale: Scale,
    pub platform: Platform,
    pub pointer_pos: Option<(i64, i64)>,
    pub modifiers: Modifiers,
    pub current_cursor: CursorIcon,
    pub events: Seq<InputEvent>,
    pub scroll_x: int,
    pub scroll_y: int,
    pub zoom_y: int,
}

impl BridgeState {
    /// The bridge is well formed when its scale is a valid rational and its
    /// accumulators fit the machine words that hold them.
    pub open spec fn wf(self) -> bool {
        &&& self.scale.wf()
        &&& i64::MIN <= self.scroll_x <= i64::MAX
        &&& i64::MIN <= self.scroll_y <= i64::MAX
        &&& i64::MIN <= self.zoom_y <= i64::MAX
    }
}

/// Addition saturating at the `i64` range, as the accumulators use.
pub open spec fn sat_add_spec(a: int, b: int) -> int {
    if a + b > i64::MAX {
        i64::MAX as int
    } else if a + b < i64::MIN {
        i64::MIN as int
    } else {
        a + b
    }
}

/// Executable form of [`sat_add_spec`].
pub fn sat_add(a: i64, b: i64) -> (r: i64)
    ensures
        r as int == sat_add_spec(a as int, b as int),
{
    let s: i128 = a as i128 + b as i128;
    if s > i64::MAX as i128 {
        i64::MAX
    } else if s < i64::MIN as i128 {
        i64::MIN
    } else {
        s as i64
    }
}

/// A character the GUI treats as text input: neither a control character
/// nor one of the Unicode private-use areas (which carry key side effects
/// on some platforms).
pub open spec fn is_printable_spec(c: char) -> bool {
    let u = c as u32;
    &&& !(u < 0x20 || u == 0x7f)
    &&& !(0xe000 <= u <= 0xf8ff)
    &&& !(0xf0000 <= u <= 0xffffd)
    &&& !(0x100000 <= u <= 0x10fffd)
}

/// Executable form of [`is_printable_spec`].
pub fn is_printable(c: char) -> (r: bool)
    ensures
        r == is_printable_spec(c),
{
    let u = c as u32;
    !(u < 0x20 || u == 0x7f) && !(0xe000 <= u && u <= 0xf8ff) && !(0xf0000 <= u && u <= 0xffffd)
        && !(0x100000 <= u && u <= 0x10fffd)
}

/// The modifier state after a key goes down or up. Only mac tracks the
/// logo key as a modifier; elsewhere it is ignored.
pub open spec fn update_modifiers_spec(p: Platform, m: Modifiers, key: Key, pressed: bool) -> Modifiers {
    match key {
        Key::Alt => Modifiers { alt: pressed, ..m },
        Key::Ctrl => Modifiers { ctrl: pressed, ..m },
        Key::Shift => Modifiers { shift: pressed, ..m },
        Key::Logo => if p == Platform::Mac {
            Modifiers { logo: pressed, ..m }
        } else {
            m
        },
        _ => m,
    }
}

/// The cut shortcut: command-X, plus shift-delete on Windows.
pub open spec fn is_cut_chord(p: Platform, m: Modifiers, key: Key) -> bool {
    (is_command(p, m) && key == Key::X) || (p == Platform::Windows && m.shift && key
        == Key::Delete)
}

/// The copy shortcut: command-C, plus control-insert on Windows.
pub open spec fn is_copy_chord(p: Platform, m: Modifiers, key: Key) -> bool {
    (is_command(p, m) && key == Key::C) || (p == Platform::Windows && m.ctrl && key == Key::Insert)
}

/// The paste shortcut: command-V, plus shift-insert on Windows. The bridge
/// emits a paste request for it; the host shell supplies the clipboard's
/// text.
pub open spec fn is_paste_chord(p: Platform, m: Modifiers, key: Key) -> bool {
    (is_command(p, m) && key == Key::V) || (p == Platform::Windows && m.shift && key
        == Key::Insert)
}

/// The keys that have a GUI representation and are forwarded as key events;
/// modifier keys, the quit-chord function key and unknown native codes are
/// not.
pub open spec fn is_forwarded_key(key: Key) -> bool {
    match key {
        Key::Alt | Key::Ctrl | Key::Shift | Key::Logo | Key::F4 | Key::Other(_) => false,
        _ => true,
    }
}

/// The events a key press or release appends to the pending input.
pub open spec fn key_events_spec(p: Platform, m: Modifiers, key: Key, pressed: bool) -> Seq<
    InputEvent,
> {
    let chord: Seq<InputEvent> = if pressed && is_cut_chord(p, m, key) {
        seq![InputEvent::Cut]
    } else if pressed && is_copy_chord(p, m, key) {
        seq![InputEvent::Copy]
    } else if pressed && is_paste_chord(p, m, key) {
        seq![InputEvent::Paste]
    } else {
        Seq::empty()
    };
    if is_forwarded_key(key) {
        chord + seq![InputEvent::Key { key, pressed, modifiers: m }]
    } else {
        chord
    }
}

/// How one window event transforms the bridge state.
pub open spec fn on_event_spec(s: BridgeState, ev: WindowEvent) -> BridgeState {
    match ev {
        WindowEvent::ScaleFactorChanged { scale } => BridgeState { scale, ..s },
        WindowEvent::CursorMoved { x, y } => BridgeState {
            pointer_pos: Some((x, y)),
            events: s.events + seq![InputEvent::PointerMoved { x, y }],
            ..s
        },
        WindowEvent::CursorLeft => BridgeState {
            pointer_pos: None,
            events: s.events + seq![InputEvent::PointerGone],
            ..s
        },
        WindowEvent::MouseInput { button, pressed } => match s.pointer_pos {
            Some((x, y)) => if button == PointerButton::Unknown {
                s
            } else {
                BridgeState {
                    events: s.events + seq![
                        InputEvent::PointerButton { x, y, button, pressed, modifiers: s.modifiers },
                    ],
                    ..s
                }
            },
            None => s,
        },
        WindowEvent::MouseWheel { dx, dy } => {
            if s.modifiers.ctrl || is_command(s.platform, s.modifiers) {
                BridgeState { zoom_y: sat_add_spec(s.zoom_y, dy as int), ..s }
            } else {
                BridgeState {
                    scroll_x: sat_add_spec(s.scroll_x, dx as int),
                    scroll_y: sat_add_spec(s.scroll_y, dy as int),
                    ..s
                }
            }
        },
        WindowEvent::ReceivedCharacter { ch } => {
            if is_printable_spec(ch) && !is_text_suppressed(s.platform, s.modifiers) {
                BridgeState { events: s.events + seq![InputEvent::Text { ch }], ..s }
            } else {
                s
            }
        },
        WindowEvent::KeyboardInput { key, pressed } => {
            let m = update_modifiers_spec(s.platform, s.modifiers, key, pressed);
            BridgeState {
                modifiers: m,
                events: s.events + key_events_spec(s.platform, m, key, pressed),
                ..s
            }
        },
        WindowEvent::Focused { .. } => BridgeState {
            modifiers: Modifiers { alt: false, ctrl: false, shift: false, logo: false },
            ..s
        },
        _ => s,
    }
}

/// Whether the GUI claims exclusive use of one window event: pointer events
/// go to it while it wants or uses the pointer, text and keys while it wants
/// the keyboard, and its focus-cycling key (tab) always.
pub open spec fn consumed_spec(s: BridgeState, flags: GuiFlags, ev: WindowEvent) -> bool {
    match ev {
        WindowEvent::MouseInput { .. } | WindowEvent::MouseWheel { .. } => {
            flags.wants_pointer_input
        },
        WindowEvent::CursorMoved { .. } => flags.is_using_pointer,
        WindowEvent::ReceivedCharacter { ch } => is_printable_spec(ch) && !is_text_suppressed(
            s.platform,
            s.modifiers,
        ) && flags.wants_keyboard_input,
        WindowEvent::KeyboardInput { key, .. } => flags.wants_keyboard_input || key == Key::Tab,
        _ => false,
    }
}

/// A quit event: a window-close request (or the window being destroyed), or
/// the platform's own quit chord going down while its modifier is held —
/// cmd-Q on mac, alt-F4 everywhere else. Every other key combination is not
/// a quit event.
pub open spec fn is_quit_spec(p: Platform, m: Modifiers, ev: WindowEvent) -> bool {
    match ev {
        WindowEvent::CloseRequested | WindowEvent::Destroyed => true,
        WindowEvent::KeyboardInput { key, pressed } => pressed && (if p == Platform::Mac {
            m.logo && key == Key::Q
        } else {
            m.alt && key == Key::F4
        }),
        _ => false,
    }
}

/// The bridge state after its pending input is taken: the accumulators are
/// empty, everything persistent is kept.
pub open spec fn drained_spec(s: BridgeState) -> BridgeState {
    BridgeState { events: Seq::empty(), scroll_x: 0, scroll_y: 0, zoom_y: 0, ..s }
}

/// The screen size in whole points (rounded up) that a pixel size induces
/// at a scale, absent exactly when the window has no visible area — a pixel
/// dimension of zero, the minimized case.
pub open spec fn screen_pts_spec(w_px: u32, h_px: u32, scale: Scale) -> Option<(u64, u64)> {
    if w_px == 0 || h_px == 0 {
        None
    } else {
        let w = (w_px as int * scale.den as int + scale.num as int - 1) / (scale.num as int);
        let h = (h_px as int * scale.den as int + scale.num as int - 1) / (scale.num as int);
        Some((w as u64, h as u64))
    }
}

/// The adapter between a native window's events and the GUI's input model.
pub struct Bridge {
    pub scale: Scale,
    pub platform: Platform,
    pub pointer_pos: Option<(i64, i64)>,
    pub modifiers: Modifiers,
    pub current_cursor: CursorIcon,
    pub events: Vec<InputEvent>,
    pub scroll_x: i64,
    pub scroll_y: i64,
    pub zoom_y: i64,
}

impl View for Bridge {
    type V = BridgeState;

    open spec fn view(&self) -> BridgeState {
        BridgeState {
            scale: self.scale,
            platform: self.platform,
            pointer_pos: self.pointer_pos,
            modifiers: self.modifiers,
            current_cursor: self.current_cursor,
            events: self.events@,
            scroll_x: self.scroll_x as int,
            scroll_y: self.scroll_y as int,
            zoom_y: self.zoom_y as int,
        }
    }
}

impl Bridge {
    /// A fresh bridge at the window's pixel-density scale, bound to the host
    /// platform's shortcut conventions: no pending input, no known pointer
    /// position, no modifier held, default cursor.
    pub fn new(scale: Scale, platform: Platform) -> (r: Bridge)
        requires
            scale.wf(),
        ensures
            r@ == (BridgeState {
                scale,
                platform,
                pointer_pos: None,
                modifiers: Modifiers { alt: false, ctrl: false, shift: false, logo: false },
                current_cursor: CursorIcon::Default,
                events: Seq::<InputEvent>::empty(),
                scroll_x: 0,
                scroll_y: 0,
                zoom_y: 0,
            }),
            r@.wf(),
    {
        let r = Bridge {
            scale,
            platform,
            pointer_pos: None,
            modifiers: Modifiers::empty(),
            current_cursor: CursorIcon::Default,
            events: Vec::new(),
            scroll_x: 0,
            scroll_y: 0,
            zoom_y: 0,
        };
        proof {
            assert(r@ =~= BridgeState {
                scale,
                platform,
                pointer_pos: None,
                modifiers: Modifiers { alt: false, ctrl: false, shift: false, logo: false },
                current_cursor: CursorIcon::Default,
                events: Seq::<InputEvent>::empty(),
                scroll_x: 0,
                scroll_y: 0,
                zoom_y: 0,
            });
        }
        r
    }

    /// Feeds one native window event into the adapter. Returns true when the
    /// GUI claims exclusive use of the event, so the host should not treat it
    /// as application input; the focus-cycling key is always claimed.
    #[verifier::rlimit(100)]
    pub fn on_event(&mut self, flags: &GuiFlags, event: &WindowEvent) -> (consumed: bool)
        requires
            old(self)@.wf(),
            event.wf(),
        ensures
            final(self)@ == on_event_spec(old(self)@, *event),
            consumed == consumed_spec(old(self)@, *flags, *event),
            final(self)@.wf(),
    {
        let ghost s0 = self@;
        match *event {
            WindowEvent::ScaleFactorChanged { scale } => {
                self.scale = scale;
                proof {
                    assert(self@ =~= on_event_spec(s0, *event));
                }
                false
            },
            WindowEvent::CursorMoved { x, y } => {
                self.pointer_pos = Some((x, y));
                self.events.push(InputEvent::PointerMoved { x, y });
                proof {
                    assert(self@ =~= on_event_spec(s0, *event));
                }
                flags.is_using_pointer
            },
            WindowEvent::CursorLeft => {
                self.pointer_pos = None;
                self.events.push(InputEvent::PointerGone);
                proof {
                    assert(self@ =~= on_event_spec(s0, *event));
                }
                false
            },
            WindowEvent::MouseInput { button, pressed } => {
                match self.pointer_pos {
                    Some((x, y)) => {
                        if !matches!(button, PointerButton::Unknown) {
                            let m = self.modifiers;
                            self.events.push(
                                InputEvent::PointerButton { x, y, button, pressed, modifiers: m },
                            );
                        }
                    },
                    None => {},
                }
                proof {
                    assert(self@ =~= on_event_spec(s0, *event));
                }
                flags.wants_pointer_input
            },
            WindowEvent::MouseWheel { dx, dy } => {
                let command = if matches!(self.platform, Platform::Mac) {
                    self.modifiers.logo
                } else {
                    self.modifiers.ctrl
                };
                if self.modifiers.ctrl || command {
                    self.zoom_y = sat_add(self.zoom_y, dy);
                } else {
                    self.scroll_x = sat_add(self.scroll_x, dx);
                    self.scroll_y = sat_add(self.scroll_y, dy);
                }
                proof {
                    assert(self@ =~= on_event_spec(s0, *event));
                }
                flags.wants_pointer_input
            },
            WindowEvent::ReceivedCharacter { ch } => {
                let printable = is_printable(ch);
                let suppressed = matches!(self.platform, Platform::Mac) && (self.modifiers.ctrl
                    || self.modifiers.logo);
                if printable && !suppressed {
                    self.events.push(InputEvent::Text { ch });
                }
                proof {
                    assert(self@ =~= on_event_spec(s0, *event));
                }
                printable && !suppressed && flags.wants_keyboard_input
            },
            WindowEvent::KeyboardInput { key, pressed } => {
                let is_mac = matches!(self.platform, Platform::Mac);
                let is_windows = matches!(self.platform, Platform::Windows);
                match key {
                    Key::Alt => self.modifiers.alt = pressed,
                    Key::Ctrl => self.modifiers.ctrl = pressed,
                    Key::Shift => self.modifiers.shift = pressed,
                    Key::Logo => {
                        if is_mac {
                            self.modifiers.logo = pressed;
                        }
                    },
                    _ => {},
                }
                let m = self.modifiers;
                let command = if is_mac {
                    m.logo
                } else {
                    m.ctrl
                };
                if pressed && ((command && matches!(key, Key::X)) || (is_windows && m.shift
                    && matches!(key, Key::Delete))) {
                    self.events.push(InputEvent::Cut);
                } else if pressed && ((command && matches!(key, Key::C)) || (is_windows && m.ctrl
                    && matches!(key, Key::Insert))) {
                    self.events.push(InputEvent::Copy);
                } else if pressed && ((command && matches!(key, Key::V)) || (is_windows && m.shift
                    && matches!(key, Key::Insert))) {
                    self.events.push(InputEvent::Paste);
                }
                let forwarded = !matches!(
                    key,
                    Key::Alt | Key::Ctrl | Key::Shift | Key::Logo | Key::F4 | Key::Other(_)
                );
                if forwarded {
                    self.events.push(InputEvent::Key { key, pressed, modifiers: m });
                }
                proof {
                    assert(self@.events =~= s0.events + key_events_spec(
                        s0.platform,
                        update_modifiers_spec(s0.platform, s0.modifiers, key, pressed),
                        key,
                        pressed,
                    ));
                    assert(self@ =~= on_event_spec(s0, *event));
                }
                flags.wants_keyboard_input || matches!(key, Key::Tab)
            },
            WindowEvent::Focused { .. } => {
                self.modifiers = Modifiers::empty();
                proof {
                    assert(self@ =~= on_event_spec(s0, *event));
                }
                false
            },
            _ => {
                proof {
                    assert(self@ =~= on_event_spec(s0, *event));
                }
                false
            },
        }
    }

    /// Is this a close request or the platform's quit keyboard chord?
    pub fn is_quit_event(&self, event: &WindowEvent) -> (r: bool)
        ensures
            r == is_quit_spec(self@.platform, self@.modifiers, *event),
    {
        match *event {
            WindowEvent::CloseRequested | WindowEvent::Destroyed => true,
            WindowEvent::KeyboardInput { key, pressed } => {
                if matches!(self.platform, Platform::Mac) {
                    pressed && self.modifiers.logo && matches!(key, Key::Q)
                } else {
                    pressed && self.modifiers.alt && matches!(key, Key::F4)
                }
            },
            _ => false,
        }
    }

    /// Drains the pending input into a snapshot tagged with the current
    /// screen size (in points) and pixel-density scale. A second call with
    /// no event in between returns an empty-delta snapshot; nothing is lost.
    pub fn take_input(&mut self, screen_width_px: u32, screen_height_px: u32) -> (r: RawInput)
        requires
            old(self)@.wf(),
        ensures
            final(self)@ == drained_spec(old(self)@),
            final(self)@.wf(),
            r.screen_size_pts == screen_pts_spec(screen_width_px, screen_height_px, old(
                self,
            )@.scale),
            r.scale == old(self)@.scale,
            r.modifiers == old(self)@.modifiers,
            r.events@ == old(self)@.events,
            r.scroll_x as int == old(self)@.scroll_x,
            r.scroll_y as int == old(self)@.scroll_y,
            r.zoom_y as int == old(self)@.zoom_y,
    {
        proof {
            assert(screen_width_px as int * self.scale.den as int <= (u32::MAX as int) * (
            u32::MAX as int)) by (nonlinear_arith)
                requires
                    0 <= screen_width_px as int <= u32::MAX as int,
                    0 <= self.scale.den as int <= u32::MAX as int,
            ;
            assert(screen_height_px as int * self.scale.den as int <= (u32::MAX as int) * (
            u32::MAX as int)) by (nonlinear_arith)
                requires
                    0 <= screen_height_px as int <= u32::MAX as int,
                    0 <= self.scale.den as int <= u32::MAX as int,
            ;
        }
        let screen_size_pts: Option<(u64, u64)> = if screen_width_px == 0 || screen_height_px
            == 0 {
            None
        } else {
            let num: u64 = self.scale.num as u64;
            let den: u64 = self.scale.den as u64;
            let w: u64 = (screen_width_px as u64 * den + (num - 1)) / num;
            let h: u64 = (screen_height_px as u64 * den + (num - 1)) / num;
            Some((w, h))
        };
        let mut events: Vec<InputEvent> = Vec::new();
        core::mem::swap(&mut events, &mut self.events);
        let r = RawInput {
            screen_size_pts,
            scale: self.scale,
            modifiers: self.modifiers,
            events,
            scroll_x: self.scroll_x,
            scroll_y: self.scroll_y,
            zoom_y: self.zoom_y,
        };
        self.scroll_x = 0;
        self.scroll_y = 0;
        self.zoom_y = 0;
        proof {
            assert(self@ =~= drained_spec(old(self)@));
        }
        r
    }

    /// The host actions that one frame's GUI output calls for: a cursor
    /// change only when the icon differs from the one already shown (and a
    /// concrete icon only while the pointer is in the window), then any URL
    /// to open, then any nonempty copied text for the clipboard. The shell
    /// performs them in order and silently skips what its platform lacks.
    pub fn apply_output(&mut self, output: Output) -> (actions: Vec<HostAction>)
        ensures
            final(self)@ == (BridgeState { current_cursor: output.cursor, ..old(self)@ }),
            actions@ == output_actions_spec(old(self)@, output),
    {
        let ghost s0 = self@;
        let mut actions: Vec<HostAction> = Vec::new();
        if output.cursor != self.current_cursor {
            if matches!(output.cursor, CursorIcon::Hidden) {
                actions.push(HostAction::HideCursor);
            } else {
                actions.push(HostAction::ShowCursor);
                if self.pointer_pos.is_some() {
                    actions.push(HostAction::SetCursor(output.cursor));
                }
            }
        }
        self.current_cursor = output.cursor;
        match output.open_url {
            Some(url) => actions.push(HostAction::OpenUrl(url)),
            None => {},
        }
        if !output.copied_text.as_str().is_empty() {
            actions.push(HostAction::SetClipboard(output.copied_text));
        }
        proof {
            assert(self@ =~= (BridgeState { current_cursor: output.cursor, ..s0 }));
            assert(actions@ =~= output_actions_spec(s0, output));
        }
        actions
    }
}

/// The cursor part of [`output_actions_spec`].
pub open spec fn cursor_actions_spec(s: BridgeState, o: Output) -> Seq<HostAction> {
    if o.cursor == s.current_cursor {
        Seq::empty()
    } else if o.cursor == CursorIcon::Hidden {
        seq![HostAction::HideCursor]
    } else if s.pointer_pos is Some {
        seq![HostAction::ShowCursor, HostAction::SetCursor(o.cursor)]
    } else {
        seq![HostAction::ShowCursor]
    }
}

/// Every host action one frame's GUI output calls for, in order: cursor,
/// URL, clipboard.
pub open spec fn output_actions_spec(s: BridgeState, o: Output) -> Seq<HostAction> {
    cursor_actions_spec(s, o) + (match o.open_url {
        Some(url) => seq![HostAction::OpenUrl(url)],
        None => Seq::empty(),
    }) + (if o.copied_text@.len() > 0 {
        seq![HostAction::SetClipboard(o.copied_text)]
    } else {
        Seq::empty()
    })
}

/// While no widget wants or uses the pointer or keyboard, every event other
/// than the focus-cycling key is left to the host application.
pub proof fn lemma_unfocused_event_not_consumed(s: BridgeState, flags: GuiFlags, ev: WindowEvent)
    requires
        !flags.wants_pointer_input,
        !flags.wants_keyboard_input,
        !flags.is_using_pointer,
        !(ev matches WindowEvent::KeyboardInput { key, .. } && key == Key::Tab),
    ensures
        !consumed_spec(s, flags, ev),
{
}

/// The focus-cycling key is always consumed, whatever has focus.
pub proof fn lemma_focus_cycle_key_always_consumed(s: BridgeState, flags: GuiFlags, pressed: bool)
    ensures
        consumed_spec(s, flags, WindowEvent::KeyboardInput { key: Key::Tab, pressed }),
{
}

/// Taking input twice without an intervening event yields, the second time,
/// a snapshot with no events and zero scroll and zoom deltas.
pub proof fn lemma_take_input_twice_empty(s: BridgeState)
    ensures
        drained_spec(s).events.len() == 0,
        drained_spec(s).scroll_x == 0,
        drained_spec(s).scroll_y == 0,
        drained_spec(s).zoom_y == 0,
        drained_spec(drained_spec(s)) == drained_spec(s),
{
    assert(drained_spec(drained_spec(s)) =~= drained_spec(s));
}

} // verus!
