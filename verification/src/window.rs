//! The window vocabulary every backend adapter produces and consumes:
//! the window state sum type, the opaque window token, and the normalized
//! event set buffered per window.

use vstd::prelude::*;
use vstd::assert_seqs_equal;

use crate::geometry::{IPoint, IRect, ISize, Size};
use crate::key::{Code, Mods, Sym};
use crate::keymap;
use crate::mouse::{But, Buts};
use crate::shared::{
    close_step, configure_step, drain_step, events_view, key_down_step, key_up_step, mouse_step,
    state_step, MouseMsg, SharedV, WindowShared,
};

verus! {

/// The logical state of a window. Exactly one is active at a time.
/// `Normal` may carry an explicit client size request.
#[derive(Copy, Clone, PartialEq, Eq, Structural, Debug)]
pub enum State {
    Normal(Option<Size<u32>>),
    Maximized,
    Minimized,
    Fullscreen,
}

/// An opaque, copyable identifier for a window, derived from a stable
/// native handle. The render thread compares tokens for equality only.
#[derive(Copy, Clone, PartialEq, Eq, Structural, Debug, Hash)]
pub struct Token {
    pub id: u64,
}

impl Token {
    pub fn new(id: u64) -> (r: Token)
        ensures
            r.id == id,
    {
        Token { id }
    }
}

/// A normalized window event, buffered per window in arrival order and
/// drained by the application once per loop iteration.
#[derive(Clone, PartialEq, Debug)]
pub enum Event {
    Resize(ISize),
    Close,
    State(State),
    MouseEnter(IPoint, Buts, Mods),
    MouseLeave(IPoint, Buts, Mods),
    MouseMove(IPoint, Buts, Mods),
    MouseDown(IPoint, But, Buts, Mods),
    MouseUp(IPoint, But, Buts, Mods),
    KeyDown(Sym, Code, Mods, String),
    KeyUp(Sym, Code, Mods),
}

/// The mathematical image of an [`Event`]: identical shape, with the
/// composed text of a key press as a sequence of characters.
pub enum EventV {
    Resize(ISize),
    Close,
    State(State),
    MouseEnter(IPoint, Buts, Mods),
    MouseLeave(IPoint, Buts, Mods),
    MouseMove(IPoint, Buts, Mods),
    MouseDown(IPoint, But, Buts, Mods),
    MouseUp(IPoint, But, Buts, Mods),
    KeyDown(Sym, Code, Mods, Seq<char>),
    KeyUp(Sym, Code, Mods),
}

impl View for Event {
    type V = EventV;

    open spec fn view(&self) -> EventV {
        match self {
            Event::Resize(s) => EventV::Resize(*s),
            Event::Close => EventV::Close,
            Event::State(s) => EventV::State(*s),
            Event::MouseEnter(p, b, m) => EventV::MouseEnter(*p, *b, *m),
            Event::MouseLeave(p, b, m) => EventV::MouseLeave(*p, *b, *m),
            Event::MouseMove(p, b, m) => EventV::MouseMove(*p, *b, *m),
            Event::MouseDown(p, but, b, m) => EventV::MouseDown(*p, *but, *b, *m),
            Event::MouseUp(p, but, b, m) => EventV::MouseUp(*p, *but, *b, *m),
            Event::KeyDown(sy, c, m, t) => EventV::KeyDown(*sy, *c, *m, t@),
            Event::KeyUp(sy, c, m) => EventV::KeyUp(*sy, *c, *m),
        }
    }
}

/// What the adapter saved on entering fullscreen, so the prior state is
/// exactly recoverable.
#[derive(Copy, Clone, PartialEq, Eq, Structural, Debug)]
pub struct SavedInfo {
    pub rect: IRect,
    pub maximized: bool,
}

/// A native action the adapter decides on; the driver that owns the native
/// connection performs it.
#[derive(Copy, Clone, PartialEq, Eq, Structural, Debug)]
pub enum NativeCmd {
    /// Create the native window, with placement flags for the given state.
    Create { state: State, size: Option<Size<u32>> },
    ShowNormal,
    ShowMaximized,
    ShowMinimized,
    /// Save the native decorations, strip them, and size to the monitor.
    EnterFullscreen,
    /// Restore the saved decorations and this saved rectangle.
    LeaveFullscreen(IRect),
    /// Re-maximize after leaving fullscreen.
    RestoreMaximized,
    /// Reposition to an explicit rectangle.
    SetRect(IRect),
    /// Push the stored title to the native window.
    UpdateTitle,
    /// Destroy the native window.
    Destroy,
    /// Re-register for pointer-leave notifications.
    TrackPointer,
}

/// One decoded native notification addressed to a window.
#[derive(Copy, Clone, PartialEq, Eq, Structural, Debug)]
pub enum WinMsg {
    Configure(ISize),
    StateChanged(State),
    CloseReq,
    Mouse(MouseMsg, IPoint),
    KeyDown { vkey: u32, scancode: u32, mods: Mods },
    Char { ch: char, repeat: u32 },
    KeyUp { vkey: u32, scancode: u32, mods: Mods },
}

/// The GPU-facing description of a window, handed to the render bridge at
/// window-open time.
#[derive(Copy, Clone, PartialEq, Eq, Structural, Debug)]
pub struct SurfaceParams {
    pub token: Token,
    pub size: ISize,
}

/// The mathematical image of a [`Window`] adapter.
#[verifier::ext_equal]
pub struct WindowV {
    pub created: bool,
    pub closed: bool,
    pub title: Seq<char>,
    pub token: u64,
    pub saved: Option<SavedInfo>,
    pub shared: SharedV,
}

impl WindowV {
    pub open spec fn wf(self) -> bool {
        self.shared.wf()
    }
}

/// The two-phase state transition behind every effective `show` call on an
/// already created window: fullscreen bookkeeping first, then the plain
/// show of the target state.
pub open spec fn transition_spec(w: WindowV, state: State) -> (WindowV, Seq<NativeCmd>) {
    let (w1, cmds1) = if (state matches State::Fullscreen) {
        (
            WindowV {
                saved: Some(
                    SavedInfo {
                        rect: w.shared.rect,
                        maximized: (w.shared.state matches State::Maximized),
                    },
                ),
                ..w
            },
            seq![NativeCmd::EnterFullscreen],
        )
    } else if (w.shared.state matches State::Fullscreen) {
        match w.saved {
            Some(si) => (
                w,
                if si.maximized {
                    seq![NativeCmd::LeaveFullscreen(si.rect), NativeCmd::RestoreMaximized]
                } else {
                    seq![NativeCmd::LeaveFullscreen(si.rect)]
                },
            ),
            None => (w, Seq::empty()),
        }
    } else {
        (w, Seq::empty())
    };
    let cmds2 = match state {
        State::Normal(sz) => match sz {
            Some(s) => {
                let base = match w1.saved {
                    Some(si) => si.rect,
                    None => w1.shared.rect,
                };
                seq![
                    NativeCmd::ShowNormal,
                    NativeCmd::SetRect(IRect { x: base.x, y: base.y, w: s.w as i32, h: s.h as i32 }),
                ]
            },
            None => seq![NativeCmd::ShowNormal],
        },
        State::Maximized => seq![NativeCmd::ShowMaximized],
        State::Minimized => seq![NativeCmd::ShowMinimized],
        State::Fullscreen => Seq::empty(),
    };
    (WindowV { shared: SharedV { state, ..w1.shared }, ..w1 }, cmds1 + cmds2)
}

/// What one `show` call does and decides. The very first effective call
/// creates the native window; a call naming the state already active is a
/// pure no-op; a call on a closed window is a no-op.
pub open spec fn show_spec(w: WindowV, state: State) -> (WindowV, Seq<NativeCmd>) {
    if w.closed {
        (w, Seq::empty())
    } else if !w.created {
        let size_hint = match state {
            State::Normal(sz) => sz,
            _ => None,
        };
        let recorded = if (state matches State::Fullscreen) {
            State::Normal(None)
        } else {
            state
        };
        let base = WindowV {
            created: true,
            shared: SharedV { state: recorded, ..w.shared },
            ..w
        };
        let create = seq![NativeCmd::Create { state, size: size_hint }];
        match state {
            State::Normal(_) => (base, create.push(NativeCmd::ShowNormal)),
            State::Maximized => (base, create.push(NativeCmd::ShowMaximized)),
            State::Minimized => (base, create.push(NativeCmd::ShowMinimized)),
            State::Fullscreen => {
                let (w2, cmds2) = transition_spec(base, state);
                (w2, create + cmds2)
            },
        }
    } else if state == w.shared.state {
        (w, Seq::empty())
    } else {
        transition_spec(w, state)
    }
}

/// What `close` does and decides: terminal, and destroys the native window
/// if one exists.
pub open spec fn close_spec(w: WindowV) -> (WindowV, Seq<NativeCmd>) {
    (
        WindowV { closed: true, ..w },
        if w.created && !w.closed {
            seq![NativeCmd::Destroy]
        } else {
            Seq::empty()
        },
    )
}

/// What `set_title` does: stores the title and asks for a native update
/// only while the window is created and not closed.
pub open spec fn title_spec(w: WindowV, t: Seq<char>) -> (WindowV, bool) {
    if w.closed {
        (w, false)
    } else {
        (WindowV { title: t, ..w }, w.created)
    }
}

/// The text composed by a key press repeated `n` times.
pub open spec fn repeat_text(ch: char, n: nat) -> Seq<char> {
    Seq::new(n, |i: int| ch)
}

/// Key notifications must carry in-range native codes; everything else is
/// unconstrained.
pub open spec fn key_msg_ok(m: WinMsg) -> bool {
    match m {
        WinMsg::KeyDown { vkey, scancode, .. } => vkey < 256 && scancode < 256,
        WinMsg::KeyUp { vkey, scancode, .. } => vkey < 256 && scancode < 256,
        _ => true,
    }
}

/// The shared-state reconciliation a batch of decoded notifications
/// performs, in order. A `Char` message immediately following a `KeyDown`
/// is drained into that key press's composed text, synchronously; a stray
/// `Char` is dropped.
pub open spec fn dispatch_steps(v: SharedV, msgs: Seq<WinMsg>) -> SharedV
    decreases msgs.len(),
{
    if msgs.len() == 0 {
        v
    } else {
        let rest = msgs.subrange(1, msgs.len() as int);
        match msgs[0] {
            WinMsg::Configure(s) => dispatch_steps(configure_step(v, s), rest),
            WinMsg::StateChanged(st) => dispatch_steps(state_step(v, st), rest),
            WinMsg::CloseReq => dispatch_steps(close_step(v), rest),
            WinMsg::Mouse(m, p) => dispatch_steps(mouse_step(v, m, p), rest),
            WinMsg::KeyDown { vkey, scancode, mods } => {
                if msgs.len() >= 2 && msgs[1] matches WinMsg::Char { .. } {
                    match msgs[1] {
                        WinMsg::Char { ch, repeat } => dispatch_steps(
                            key_down_step(
                                v,
                                keymap::sym_spec(vkey),
                                keymap::code_spec(scancode),
                                mods,
                                repeat_text(ch, repeat as nat),
                            ),
                            msgs.subrange(2, msgs.len() as int),
                        ),
                        _ => v,
                    }
                } else {
                    dispatch_steps(
                        key_down_step(
                            v,
                            keymap::sym_spec(vkey),
                            keymap::code_spec(scancode),
                            mods,
                            Seq::empty(),
                        ),
                        rest,
                    )
                }
            },
            WinMsg::Char { .. } => dispatch_steps(v, rest),
            WinMsg::KeyUp { vkey, scancode, mods } => dispatch_steps(
                key_up_step(v, keymap::sym_spec(vkey), keymap::code_spec(scancode), mods),
                rest,
            ),
        }
    }
}

/// The native actions the same batch decides on: re-registration for
/// pointer-leave notifications whenever the pointer enters.
pub open spec fn dispatch_cmds(v: SharedV, msgs: Seq<WinMsg>) -> Seq<NativeCmd>
    decreases msgs.len(),
{
    if msgs.len() == 0 {
        Seq::empty()
    } else {
        let rest = msgs.subrange(1, msgs.len() as int);
        match msgs[0] {
            WinMsg::Configure(s) => dispatch_cmds(configure_step(v, s), rest),
            WinMsg::StateChanged(st) => dispatch_cmds(state_step(v, st), rest),
            WinMsg::CloseReq => dispatch_cmds(close_step(v), rest),
            WinMsg::Mouse(m, p) => {
                let here: Seq<NativeCmd> = if (m matches MouseMsg::Move) && v.mouse_out {
                    seq![NativeCmd::TrackPointer]
                } else {
                    Seq::empty()
                };
                here + dispatch_cmds(mouse_step(v, m, p), rest)
            },
            WinMsg::KeyDown { vkey, scancode, mods } => {
                if msgs.len() >= 2 && msgs[1] matches WinMsg::Char { .. } {
                    match msgs[1] {
                        WinMsg::Char { ch, repeat } => dispatch_cmds(
                            key_down_step(
                                v,
                                keymap::sym_spec(vkey),
                                keymap::code_spec(scancode),
                                mods,
                                repeat_text(ch, repeat as nat),
                            ),
                            msgs.subrange(2, msgs.len() as int),
                        ),
                        _ => Seq::empty(),
                    }
                } else {
                    dispatch_cmds(
                        key_down_step(
                            v,
                            keymap::sym_spec(vkey),
                            keymap::code_spec(scancode),
                            mods,
                            Seq::empty(),
                        ),
                        rest,
                    )
                }
            },
            WinMsg::Char { .. } => dispatch_cmds(v, rest),
            WinMsg::KeyUp { vkey, scancode, mods } => dispatch_cmds(
                key_up_step(v, keymap::sym_spec(vkey), keymap::code_spec(scancode), mods),
                rest,
            ),
        }
    }
}

/// Relies on `String::push`: appends the given character to the end of
/// the string.
pub assume_specification[ String::push ](s: &mut String, ch: char)
    ensures
        final(s)@ == old(s)@.push(ch),
;

/// Build the composed text of one key press: the character repeated
/// `repeat` times, exactly as many as the native repeat-count field says.
fn compose_text(ch: char, repeat: u32) -> (r: String)
    ensures
        r@ == repeat_text(ch, repeat as nat),
{
    let mut s = String::new();
    let mut i: u32 = 0;
    while i < repeat
        invariant
            0 <= i <= repeat,
            s@ == repeat_text(ch, i as nat),
        decreases repeat - i,
    {
        s.push(ch);
        proof {
            assert_seqs_equal!(repeat_text(ch, (i + 1) as nat), repeat_text(ch, i as nat).push(ch));
        }
        i = i + 1;
    }
    s
}

/// One window of the display connection: the backend adapter that owns the
/// per-window shared state, decides native actions, and translates decoded
/// native notifications into buffered events.
pub struct Window {
    created: bool,
    closed: bool,
    title: String,
    token_id: u64,
    saved: Option<SavedInfo>,
    shared: WindowShared,
}

impl View for Window {
    type V = WindowV;

    closed spec fn view(&self) -> WindowV {
        WindowV {
            created: self.created,
            closed: self.closed,
            title: self.title@,
            token: self.token_id,
            saved: self.saved,
            shared: self.shared@,
        }
    }
}

impl Window {
    pub open spec fn wf(&self) -> bool {
        self@.wf()
    }

    /// A fresh, unshown window carrying the token its display issued.
    pub(crate) fn new(token_id: u64) -> (r: Window)
        ensures
            r@ == (WindowV {
                created: false,
                closed: false,
                title: Seq::empty(),
                token: token_id,
                saved: None,
                shared: SharedV::init(),
            }),
            r.wf(),
    {
        let r = Window {
            created: false,
            closed: false,
            title: String::new(),
            token_id,
            saved: None,
            shared: WindowShared::new(),
        };
        proof {
            assert(r@ =~= (WindowV {
                created: false,
                closed: false,
                title: Seq::empty(),
                token: token_id,
                saved: None,
                shared: SharedV::init(),
            }));
        }
        r
    }
}

impl Window {
    /// Make the window visible in the given state. The very first call
    /// creates the native window, so the requested state cannot be
    /// `Minimized` then. A call naming the state already active is a pure
    /// no-op, and any call after `close` is a no-op.
    pub fn show(&mut self, state: State) -> (cmds: Vec<NativeCmd>)
        requires
            old(self).wf(),
            old(self)@.created || !(state matches State::Minimized),
        ensures
            final(self).wf(),
            final(self)@ == show_spec(old(self)@, state).0,
            cmds@ == show_spec(old(self)@, state).1,
    {
        let mut cmds: Vec<NativeCmd> = Vec::new();
        if self.closed {
            proof {
                assert(cmds@ =~= show_spec(old(self)@, state).1);
            }
            return cmds;
        }
        if !self.created {
            self.created = true;
            let size_hint = match state {
                State::Normal(sz) => sz,
                _ => None,
            };
            cmds.push(NativeCmd::Create { state, size: size_hint });
            match state {
                State::Fullscreen => {
                    self.shared.record_state(State::Normal(None));
                },
                _ => {
                    self.shared.record_state(state);
                    match state {
                        State::Normal(_) => cmds.push(NativeCmd::ShowNormal),
                        State::Maximized => cmds.push(NativeCmd::ShowMaximized),
                        State::Minimized => cmds.push(NativeCmd::ShowMinimized),
                        State::Fullscreen => {},
                    }
                    proof {
                        assert(self@ =~= show_spec(old(self)@, state).0);
                        assert(cmds@ =~= show_spec(old(self)@, state).1);
                    }
                    return cmds;
                },
            }
        }
        let cur = self.shared.state();
        if state == cur {
            proof {
                assert(self@ =~= show_spec(old(self)@, state).0);
                assert(cmds@ =~= show_spec(old(self)@, state).1);
            }
            return cmds;
        }
        if matches!(state, State::Fullscreen) {
            self.saved = Some(
                SavedInfo { rect: self.shared.rect(), maximized: matches!(cur, State::Maximized) },
            );
            cmds.push(NativeCmd::EnterFullscreen);
        } else if matches!(cur, State::Fullscreen) {
            if let Some(si) = self.saved {
                cmds.push(NativeCmd::LeaveFullscreen(si.rect));
                if si.maximized {
                    cmds.push(NativeCmd::RestoreMaximized);
                }
            }
        }
        match state {
            State::Normal(sz) => {
                cmds.push(NativeCmd::ShowNormal);
                if let Some(sx) = sz {
                    let base = match self.saved {
                        Some(si) => si.rect,
                        None => self.shared.rect(),
                    };
                    let wpx: i32 = #[verifier::truncate] (sx.w as i32);
                    let hpx: i32 = #[verifier::truncate] (sx.h as i32);
                    cmds.push(NativeCmd::SetRect(IRect { x: base.x, y: base.y, w: wpx, h: hpx }));
                }
            },
            State::Maximized => {
                cmds.push(NativeCmd::ShowMaximized);
            },
            State::Minimized => {
                cmds.push(NativeCmd::ShowMinimized);
            },
            State::Fullscreen => {},
        }
        self.shared.record_state(state);
        proof {
            assert(self@ =~= show_spec(old(self)@, state).0);
            assert(cmds@ =~= show_spec(old(self)@, state).1);
        }
        cmds
    }

    /// Close the window: destroy the native resources and end its life.
    /// Terminal: every later `show` or `set_title` is a no-op.
    pub fn close(&mut self) -> (cmds: Vec<NativeCmd>)
        requires
            old(self).wf(),
        ensures
            final(self).wf(),
            final(self)@ == close_spec(old(self)@).0,
            cmds@ == close_spec(old(self)@).1,
    {
        let mut cmds: Vec<NativeCmd> = Vec::new();
        if self.created && !self.closed {
            cmds.push(NativeCmd::Destroy);
        }
        self.closed = true;
        proof {
            assert(self@ =~= close_spec(old(self)@).0);
            assert(cmds@ =~= close_spec(old(self)@).1);
        }
        cmds
    }

    /// Store a new title; the driver pushes it to the native window only
    /// while one exists and the window is not closed.
    pub fn set_title(&mut self, title: String) -> (cmd: Option<NativeCmd>)
        requires
            old(self).wf(),
        ensures
            final(self).wf(),
            final(self)@ == title_spec(old(self)@, title@).0,
            (cmd is Some) == title_spec(old(self)@, title@).1,
            cmd matches Some(c) ==> c == NativeCmd::UpdateTitle,
    {
        if self.closed {
            return None;
        }
        let ghost t = title@;
        self.title = title;
        proof {
            assert(self@ =~= title_spec(old(self)@, t).0);
        }
        if self.created {
            Some(NativeCmd::UpdateTitle)
        } else {
            None
        }
    }

    /// The stored title.
    pub fn title(&self) -> (r: &String)
        ensures
            r@ == self@.title,
    {
        &self.title
    }

    /// The recorded window state.
    pub fn state(&self) -> (r: State)
        ensures
            r == self@.shared.state,
    {
        self.shared.state()
    }

    /// The recorded client size; the window must have been shown.
    pub fn size(&self) -> (r: ISize)
        requires
            self@.created,
        ensures
            r == (ISize { w: self@.shared.rect.w, h: self@.shared.rect.h }),
    {
        self.shared.size()
    }

    /// The window's stable token. Valid only between the first `show` and
    /// `close`; calling it outside that span is a caller bug.
    pub fn token(&self) -> (r: Token)
        requires
            self@.created,
            !self@.closed,
        ensures
            r.id == self@.token,
    {
        Token { id: self.token_id }
    }

    /// Whether this window is live and carries the given token.
    pub fn has_token(&self, t: Token) -> (r: bool)
        ensures
            r == (self@.created && !self@.closed && self@.token == t.id),
    {
        self.created && !self.closed && self.token_id == t.id
    }

    /// What the render bridge needs to build a surface for this window.
    /// Valid only between the first `show` and `close`.
    pub fn create_surface(&self) -> (r: SurfaceParams)
        requires
            self@.created,
            !self@.closed,
        ensures
            r == (SurfaceParams {
                token: Token { id: self@.token },
                size: ISize { w: self@.shared.rect.w, h: self@.shared.rect.h },
            }),
    {
        SurfaceParams { token: Token { id: self.token_id }, size: self.shared.size() }
    }

    /// Drain the buffered events in arrival order; a fresh compression
    /// period begins.
    pub fn retrieve_events(&mut self) -> (evs: Vec<Event>)
        requires
            old(self).wf(),
        ensures
            final(self).wf(),
            events_view(evs@) == old(self)@.shared.buf,
            final(self)@ == (WindowV { shared: drain_step(old(self)@.shared), ..old(self)@ }),
    {
        let evs = self.shared.retrieve_events();
        proof {
            assert(self@ =~= (WindowV { shared: drain_step(old(self)@.shared), ..old(self)@ }));
        }
        evs
    }

    /// Feed one batch of decoded native notifications through the
    /// translation rules, in order, and collect the native actions decided
    /// on along the way.
    pub fn dispatch(&mut self, msgs: &Vec<WinMsg>) -> (cmds: Vec<NativeCmd>)
        requires
            old(self).wf(),
            forall|k: int| 0 <= k < msgs@.len() ==> key_msg_ok(#[trigger] msgs@[k]),
        ensures
            final(self).wf(),
            final(self)@ == (WindowV { shared: dispatch_steps(old(self)@.shared, msgs@), ..old(
                self,
            )@ }),
            cmds@ == dispatch_cmds(old(self)@.shared, msgs@),
    {
        let mut cmds: Vec<NativeCmd> = Vec::new();
        let n = msgs.len();
        let mut i: usize = 0;
        proof {
            assert_seqs_equal!(msgs@.subrange(0, n as int), msgs@);
            assert(cmds@ + dispatch_cmds(self@.shared, msgs@) =~= dispatch_cmds(
                self@.shared,
                msgs@,
            ));
        }
        while i < n
            invariant
                self@.created == old(self)@.created,
                self@.closed == old(self)@.closed,
                self@.title == old(self)@.title,
                self@.token == old(self)@.token,
                self@.saved == old(self)@.saved,
                self.wf(),
                n == msgs@.len(),
                0 <= i <= n,
                forall|k: int| 0 <= k < msgs@.len() ==> key_msg_ok(#[trigger] msgs@[k]),
                dispatch_steps(self@.shared, msgs@.subrange(i as int, n as int)) == dispatch_steps(
                    old(self)@.shared,
                    msgs@,
                ),
                cmds@ + dispatch_cmds(self@.shared, msgs@.subrange(i as int, n as int))
                    == dispatch_cmds(old(self)@.shared, msgs@),
            decreases n - i,
        {
            let ghost rem = msgs@.subrange(i as int, n as int);
            let ghost vpre = self@.shared;
            let ghost cpre = cmds@;
            let m = msgs[i];
            proof {
                assert(rem[0] == m);
            }
            match m {
                WinMsg::Configure(s) => {
                    self.shared.handle_configure(s);
                    proof {
                        assert_seqs_equal!(
                            rem.subrange(1, rem.len() as int),
                            msgs@.subrange(i + 1, n as int)
                        );
                        assert(cpre + dispatch_cmds(self@.shared, msgs@.subrange(i + 1, n as int))
                            =~= dispatch_cmds(old(self)@.shared, msgs@));
                    }
                    i = i + 1;
                },
                WinMsg::StateChanged(st) => {
                    self.shared.state_change(st);
                    proof {
                        assert_seqs_equal!(
                            rem.subrange(1, rem.len() as int),
                            msgs@.subrange(i + 1, n as int)
                        );
                        assert(cpre + dispatch_cmds(self@.shared, msgs@.subrange(i + 1, n as int))
                            =~= dispatch_cmds(old(self)@.shared, msgs@));
                    }
                    i = i + 1;
                },
                WinMsg::CloseReq => {
                    self.shared.close_event();
                    proof {
                        assert_seqs_equal!(
                            rem.subrange(1, rem.len() as int),
                            msgs@.subrange(i + 1, n as int)
                        );
                        assert(cpre + dispatch_cmds(self@.shared, msgs@.subrange(i + 1, n as int))
                            =~= dispatch_cmds(old(self)@.shared, msgs@));
                    }
                    i = i + 1;
                },
                WinMsg::Mouse(mm, p) => {
                    let track = self.shared.handle_mouse(mm, p);
                    if track {
                        cmds.push(NativeCmd::TrackPointer);
                    }
                    proof {
                        assert_seqs_equal!(
                            rem.subrange(1, rem.len() as int),
                            msgs@.subrange(i + 1, n as int)
                        );
                        assert(cmds@ + dispatch_cmds(self@.shared, msgs@.subrange(i + 1, n as int))
                            =~= dispatch_cmds(old(self)@.shared, msgs@));
                    }
                    i = i + 1;
                },
                WinMsg::KeyDown { vkey, scancode, mods } => {
                    proof {
                        assert(key_msg_ok(msgs@[i as int]));
                    }
                    let sy = keymap::sym(vkey);
                    let co = keymap::code(scancode);
                    let mut two = false;
                    if i + 1 < n {
                        let m2 = msgs[i + 1];
                        if let WinMsg::Char { ch, repeat } = m2 {
                            let text = compose_text(ch, repeat);
                            self.shared.key_down(sy, co, mods, text);
                            proof {
                                assert(rem[1] == m2);
                                assert_seqs_equal!(
                                    rem.subrange(2, rem.len() as int),
                                    msgs@.subrange(i + 2, n as int)
                                );
                                assert(cpre + dispatch_cmds(
                                    self@.shared,
                                    msgs@.subrange(i + 2, n as int),
                                ) =~= dispatch_cmds(old(self)@.shared, msgs@));
                            }
                            i = i + 2;
                            two = true;
                        }
                        if !two {
                            proof {
                                assert(!(rem[1] matches WinMsg::Char { .. }));
                            }
                        }
                    }
                    if !two {
                        self.shared.key_down(sy, co, mods, String::new());
                        proof {
                            assert_seqs_equal!(
                                rem.subrange(1, rem.len() as int),
                                msgs@.subrange(i + 1, n as int)
                            );
                            assert(cpre + dispatch_cmds(
                                self@.shared,
                                msgs@.subrange(i + 1, n as int),
                            ) =~= dispatch_cmds(old(self)@.shared, msgs@));
                        }
                        i = i + 1;
                    }
                },
                WinMsg::Char { .. } => {
                    proof {
                        assert_seqs_equal!(
                            rem.subrange(1, rem.len() as int),
                            msgs@.subrange(i + 1, n as int)
                        );
                        assert(cpre + dispatch_cmds(self@.shared, msgs@.subrange(i + 1, n as int))
                            =~= dispatch_cmds(old(self)@.shared, msgs@));
                    }
                    i = i + 1;
                },
                WinMsg::KeyUp { vkey, scancode, mods } => {
                    proof {
                        assert(key_msg_ok(msgs@[i as int]));
                    }
                    let sy = keymap::sym(vkey);
                    let co = keymap::code(scancode);
                    self.shared.key_up(sy, co, mods);
                    proof {
                        assert_seqs_equal!(
                            rem.subrange(1, rem.len() as int),
                            msgs@.subrange(i + 1, n as int)
                        );
                        assert(cpre + dispatch_cmds(self@.shared, msgs@.subrange(i + 1, n as int))
                            =~= dispatch_cmds(old(self)@.shared, msgs@));
                    }
                    i = i + 1;
                },
            }
        }
        proof {
            assert(msgs@.subrange(n as int, n as int) =~= Seq::<WinMsg>::empty());
            assert(self@ =~= (WindowV { shared: dispatch_steps(old(self)@.shared, msgs@), ..old(
                self,
            )@ }));
            assert(cmds@ =~= dispatch_cmds(old(self)@.shared, msgs@));
        }
        cmds
    }
}

/// Idempotent show: calling `show` with the state already active issues
/// no native command and changes nothing at all.
pub proof fn lemma_show_idempotent(w: WindowV, state: State)
    requires
        w.created,
        !w.closed,
        state == w.shared.state,
    ensures
        show_spec(w, state).0 == w,
        show_spec(w, state).1 == Seq::<NativeCmd>::empty(),
{
}

/// Entering fullscreen from any non-fullscreen state and leaving it with
/// the next `show` issues, first of all, the restoration of exactly the
/// window rectangle recorded immediately before entering.
pub proof fn lemma_fullscreen_round_trip(w: WindowV, target: State)
    requires
        w.created,
        !w.closed,
        !(w.shared.state matches State::Fullscreen),
        !(target matches State::Fullscreen),
    ensures
        show_spec(w, State::Fullscreen).1 == seq![NativeCmd::EnterFullscreen],
        show_spec(show_spec(w, State::Fullscreen).0, target).1.len() >= 1,
        show_spec(show_spec(w, State::Fullscreen).0, target).1[0] == NativeCmd::LeaveFullscreen(
            w.shared.rect,
        ),
{
    assert(show_spec(w, State::Fullscreen).1 =~= seq![NativeCmd::EnterFullscreen]);
    let wf_ = show_spec(w, State::Fullscreen).0;
    assert(wf_.saved == Some(
        SavedInfo { rect: w.shared.rect, maximized: (w.shared.state matches State::Maximized) },
    ));
}

/// The full fullscreen round trip: show a normal size, go fullscreen, come
/// back to `Normal(None)`; the last call restores the rectangle recorded
/// just before fullscreen and re-shows the window, nothing more.
pub proof fn lemma_fullscreen_round_trip_scenario(w: WindowV, sz: Size<u32>)
    requires
        w.created,
        !w.closed,
        !(w.shared.state matches State::Fullscreen),
    ensures
        ({
            let w1 = show_spec(w, State::Normal(Some(sz))).0;
            let w2 = show_spec(w1, State::Fullscreen).0;
            let cmds = show_spec(w2, State::Normal(None)).1;
            &&& cmds =~= seq![
                NativeCmd::LeaveFullscreen(w1.shared.rect),
                NativeCmd::ShowNormal,
            ]
        }),
{
    let w1 = show_spec(w, State::Normal(Some(sz))).0;
    assert(w1.shared.state == State::Normal(Some(sz)));
    let w2 = show_spec(w1, State::Fullscreen).0;
    assert(w2.saved == Some(SavedInfo { rect: w1.shared.rect, maximized: false }));
}

/// Close is terminal: once a window is closed, every later `show` and
/// `set_title` is a pure no-op.
pub proof fn lemma_close_terminal(w: WindowV, state: State, t: Seq<char>)
    ensures
        close_spec(w).0.closed,
        show_spec(close_spec(w).0, state).0 == close_spec(w).0,
        show_spec(close_spec(w).0, state).1 == Seq::<NativeCmd>::empty(),
        title_spec(close_spec(w).0, t).0 == close_spec(w).0,
        title_spec(close_spec(w).0, t).1 == false,
{
}

/// Keyboard text drain: one key-down carrying a repeat-count `Char`
/// message, followed by the key-up, yields exactly one `KeyDown` event
/// whose composed text has the repeat count's length, then one `KeyUp`,
/// and nothing else.
pub proof fn lemma_key_text_drain(
    v: SharedV,
    vkey: u32,
    scancode: u32,
    mods: Mods,
    ch: char,
    repeat: u32,
    vkey2: u32,
    scancode2: u32,
    mods2: Mods,
)
    ensures
        ({
            let msgs = seq![
                WinMsg::KeyDown { vkey, scancode, mods },
                WinMsg::Char { ch, repeat },
                WinMsg::KeyUp { vkey: vkey2, scancode: scancode2, mods: mods2 },
            ];
            let after = dispatch_steps(v, msgs);
            &&& after.buf == v.buf.push(
                EventV::KeyDown(
                    keymap::sym_spec(vkey),
                    keymap::code_spec(scancode),
                    mods,
                    repeat_text(ch, repeat as nat),
                ),
            ).push(EventV::KeyUp(keymap::sym_spec(vkey2), keymap::code_spec(scancode2), mods2))
            &&& repeat_text(ch, repeat as nat).len() == repeat
        }),
{
    let msgs = seq![
        WinMsg::KeyDown { vkey, scancode, mods },
        WinMsg::Char { ch, repeat },
        WinMsg::KeyUp { vkey: vkey2, scancode: scancode2, mods: mods2 },
    ];
    let v1 = key_down_step(
        v,
        keymap::sym_spec(vkey),
        keymap::code_spec(scancode),
        mods,
        repeat_text(ch, repeat as nat),
    );
    assert(msgs[1] matches WinMsg::Char { .. });
    assert_seqs_equal!(
        msgs.subrange(2, 3),
        seq![WinMsg::KeyUp { vkey: vkey2, scancode: scancode2, mods: mods2 }]
    );
    let tail = msgs.subrange(2, 3);
    let v2 = key_up_step(v1, keymap::sym_spec(vkey2), keymap::code_spec(scancode2), mods2);
    assert_seqs_equal!(tail.subrange(1, 1), Seq::<WinMsg>::empty());
    assert(dispatch_steps(v, msgs) == dispatch_steps(v1, msgs.subrange(2, 3)));
    assert(dispatch_steps(v1, tail) == dispatch_steps(v2, tail.subrange(1, 1)));
    assert(dispatch_steps(v2, tail.subrange(1, 1)) == v2);
}

} // verus!
