//! The display connection: the adapter that owns the native connection,
//! issues window tokens, and routes connection-level pointer notifications
//! to the single window the pointer is in.
//!
//! The native handshake and the event pump are the driver's: it hands the
//! decoded outcome of the handshake to [`Display::open`], and each batch of
//! decoded pointer notifications to [`Display::collect_events`], then
//! delivers the returned per-window messages through
//! [`crate::window::Window::dispatch`].

use vstd::prelude::*;
use vstd::assert_seqs_equal;

use crate::geometry::IPoint;
use crate::mouse::But;
use crate::shared::MouseMsg;
use crate::window::{State, Token, WinMsg, Window};

verus! {

/// Why opening the display connection failed. Fatal to the process: a
/// missing server or a missing mandatory protocol extension is not
/// retried.
#[derive(Copy, Clone, PartialEq, Eq, Structural, Debug)]
pub enum OpenError {
    /// No compositor or server is reachable.
    NoServer,
    /// A mandatory protocol object or extension was not advertised.
    MissingExtension,
}

/// What the native handshake round-trips discovered, decoded to plain
/// values by the driver.
#[derive(Copy, Clone, PartialEq, Eq, Structural, Debug)]
pub struct HandshakeInfo {
    /// The connection itself could be established.
    pub connected: bool,
    /// The compositor global was advertised.
    pub compositor: bool,
    /// The shell protocol needed to make toplevel windows was advertised.
    pub shell: bool,
}

/// One decoded connection-level pointer notification.
#[derive(Copy, Clone, PartialEq, Eq, Structural, Debug)]
pub enum PtrEvent {
    /// The pointer entered the window with this token.
    Enter { token: Token, pos: IPoint },
    /// The pointer left the window with this token.
    Leave { token: Token },
    /// The pointer moved inside the entered window.
    Motion { pos: IPoint },
    /// A button changed, reported with the native button code.
    Button { code: u32, pressed: bool },
}

/// The mathematical image of a [`Display`].
#[verifier::ext_equal]
pub struct DisplayV {
    /// The next token to issue; every issued token is below it.
    pub next_token: u64,
    /// The token of the window the pointer is in, if any. Only one window
    /// can be entered at a time.
    pub pointed: Option<u64>,
    /// The last reported pointer position inside the entered window.
    pub cursor: IPoint,
}

/// The native button codes the adapter understands; any other code is
/// ignored silently.
pub open spec fn but_of_code(code: u32) -> Option<But> {
    if code == 0x110 {
        Some(But::Left)
    } else if code == 0x111 {
        Some(But::Right)
    } else if code == 0x112 {
        Some(But::Middle)
    } else {
        None
    }
}

/// Issue one window token: the counter's current value, and the counter
/// moves past it, never to return.
pub open spec fn issue_spec(d: DisplayV) -> (DisplayV, u64) {
    (DisplayV { next_token: (d.next_token + 1) as u64, ..d }, d.next_token)
}

/// Route one pointer notification: update the entered-window association
/// and decide which window, if any, receives which message. Motion and
/// buttons while no window is entered are dropped.
pub open spec fn route_spec(d: DisplayV, ev: PtrEvent) -> (DisplayV, Option<(Token, WinMsg)>) {
    match ev {
        PtrEvent::Enter { token, pos } => (
            DisplayV { pointed: Some(token.id), cursor: pos, ..d },
            Some((token, WinMsg::Mouse(MouseMsg::Move, pos))),
        ),
        PtrEvent::Leave { token } => (
            DisplayV { pointed: None, ..d },
            Some((token, WinMsg::Mouse(MouseMsg::Leave, d.cursor))),
        ),
        PtrEvent::Motion { pos } => match d.pointed {
            Some(t) => (
                DisplayV { cursor: pos, ..d },
                Some((Token { id: t }, WinMsg::Mouse(MouseMsg::Move, pos))),
            ),
            None => (d, None),
        },
        PtrEvent::Button { code, pressed } => match d.pointed {
            Some(t) => match but_of_code(code) {
                Some(b) => (
                    d,
                    Some(
                        (
                            Token { id: t },
                            WinMsg::Mouse(
                                if pressed {
                                    MouseMsg::Down(b)
                                } else {
                                    MouseMsg::Up(b)
                                },
                                d.cursor,
                            ),
                        ),
                    ),
                ),
                None => (d, None),
            },
            None => (d, None),
        },
    }
}

/// Route a whole batch, in order.
pub open spec fn route_all(d: DisplayV, evs: Seq<PtrEvent>) -> (DisplayV, Seq<(Token, WinMsg)>)
    decreases evs.len(),
{
    if evs.len() == 0 {
        (d, Seq::empty())
    } else {
        let (d1, out) = route_spec(d, evs[0]);
        let (d2, outs) = route_all(d1, evs.subrange(1, evs.len() as int));
        (
            d2,
            match out {
                Some(o) => seq![o] + outs,
                None => outs,
            },
        )
    }
}

/// The display connection adapter.
pub struct Display {
    next_token: u64,
    pointed: Option<u64>,
    cursor: IPoint,
}

impl View for Display {
    type V = DisplayV;

    closed spec fn view(&self) -> DisplayV {
        DisplayV { next_token: self.next_token, pointed: self.pointed, cursor: self.cursor }
    }
}

impl Display {
    /// Open the display connection, judging the decoded handshake outcome.
    /// Succeeds exactly when the server was reachable and advertised both
    /// the compositor and the shell protocol.
    pub fn open(handshake: HandshakeInfo) -> (r: Result<Display, OpenError>)
        ensures
            (r is Ok) == (handshake.connected && handshake.compositor && handshake.shell),
            !handshake.connected ==> r == Result::<Display, OpenError>::Err(OpenError::NoServer),
            handshake.connected && !(handshake.compositor && handshake.shell) ==> r
                == Result::<Display, OpenError>::Err(OpenError::MissingExtension),
            r matches Ok(d) ==> d@ == (DisplayV {
                next_token: 1,
                pointed: None,
                cursor: IPoint { x: 0, y: 0 },
            }),
    {
        if !handshake.connected {
            Err(OpenError::NoServer)
        } else if !handshake.compositor || !handshake.shell {
            Err(OpenError::MissingExtension)
        } else {
            Ok(Display { next_token: 1, pointed: None, cursor: IPoint { x: 0, y: 0 } })
        }
    }

    /// Allocate a window: a fresh, unshown adapter carrying a token no
    /// other window of this display ever got or will get.
    pub fn create_window(&mut self) -> (w: Window)
        requires
            old(self)@.next_token < u64::MAX,
        ensures
            final(self)@ == issue_spec(old(self)@).0,
            w@.token == issue_spec(old(self)@).1,
            !w@.created,
            !w@.closed,
            w.wf(),
    {
        let t = self.next_token;
        self.next_token = self.next_token + 1;
        let w = Window::new(t);
        proof {
            assert(self@ =~= issue_spec(old(self)@).0);
        }
        w
    }

    /// Pump one batch of decoded connection-level pointer notifications:
    /// reconcile the entered-window association and return the per-window
    /// deliveries, in order.
    pub fn collect_events(&mut self, evs: &Vec<PtrEvent>) -> (out: Vec<(Token, WinMsg)>)
        ensures
            final(self)@ == route_all(old(self)@, evs@).0,
            out@ == route_all(old(self)@, evs@).1,
    {
        let mut out: Vec<(Token, WinMsg)> = Vec::new();
        let n = evs.len();
        let mut i: usize = 0;
        proof {
            assert_seqs_equal!(evs@.subrange(0, n as int), evs@);
            assert(out@ + route_all(self@, evs@).1 =~= route_all(self@, evs@).1);
        }
        while i < n
            invariant
                n == evs@.len(),
                0 <= i <= n,
                route_all(self@, evs@.subrange(i as int, n as int)).0 == route_all(
                    old(self)@,
                    evs@,
                ).0,
                out@ + route_all(self@, evs@.subrange(i as int, n as int)).1 == route_all(
                    old(self)@,
                    evs@,
                ).1,
            decreases n - i,
        {
            let ghost rem = evs@.subrange(i as int, n as int);
            let ghost dpre = self@;
            let ev = evs[i];
            proof {
                assert(rem[0] == ev);
            }
            match ev {
                PtrEvent::Enter { token, pos } => {
                    self.pointed = Some(token.id);
                    self.cursor = pos;
                    out.push((token, WinMsg::Mouse(MouseMsg::Move, pos)));
                },
                PtrEvent::Leave { token } => {
                    let c = self.cursor;
                    self.pointed = None;
                    out.push((token, WinMsg::Mouse(MouseMsg::Leave, c)));
                },
                PtrEvent::Motion { pos } => {
                    if let Some(t) = self.pointed {
                        self.cursor = pos;
                        out.push((Token { id: t }, WinMsg::Mouse(MouseMsg::Move, pos)));
                    }
                },
                PtrEvent::Button { code, pressed } => {
                    if let Some(t) = self.pointed {
                        let b = if code == 0x110 {
                            Some(But::Left)
                        } else if code == 0x111 {
                            Some(But::Right)
                        } else if code == 0x112 {
                            Some(But::Middle)
                        } else {
                            None
                        };
                        if let Some(bb) = b {
                            let m = if pressed {
                                MouseMsg::Down(bb)
                            } else {
                                MouseMsg::Up(bb)
                            };
                            out.push((Token { id: t }, WinMsg::Mouse(m, self.cursor)));
                        }
                    }
                },
            }
            proof {
                assert(self@ =~= route_spec(dpre, ev).0);
                assert_seqs_equal!(
                    rem.subrange(1, rem.len() as int),
                    evs@.subrange(i + 1, n as int)
                );
                assert(out@ + route_all(self@, evs@.subrange(i + 1, n as int)).1 =~= route_all(
                    old(self)@,
                    evs@,
                ).1);
            }
            i = i + 1;
        }
        proof {
            assert(evs@.subrange(n as int, n as int) =~= Seq::<PtrEvent>::empty());
            assert(out@ =~= route_all(old(self)@, evs@).1);
        }
        out
    }
}

/// Token uniqueness: two windows issued by the same display, one after the
/// other, never share a token; and issuing never hands out a token that an
/// earlier window already holds, because the counter only grows.
pub proof fn lemma_tokens_unique(d: DisplayV)
    requires
        d.next_token < u64::MAX,
    ensures
        issue_spec(d).1 != issue_spec(issue_spec(d).0).1,
        issue_spec(d).0.next_token > issue_spec(d).1,
{
}

/// Token stability: no window operation moves a window's token; only the
/// display hands tokens out.
pub proof fn lemma_token_stability(w: crate::window::WindowV, state: State, t: Seq<char>)
    ensures
        crate::window::show_spec(w, state).0.token == w.token,
        crate::window::close_spec(w).0.token == w.token,
        crate::window::title_spec(w, t).0.token == w.token,
{
}

/// What a seat-capabilities notification requires of the adapter:
/// acquiring the pointer or keyboard device, or releasing the pointer.
#[derive(Copy, Clone, PartialEq, Eq, Structural, Debug)]
pub struct SeatActions {
    pub get_pointer: bool,
    pub release_pointer: bool,
    pub get_keyboard: bool,
}

/// Decide what a seat-capabilities notification requires: acquire the
/// pointer or keyboard when the seat advertises one and none is bound yet;
/// release the pointer when the seat withdrew it.
pub fn seat_caps_actions(
    pointer_cap: bool,
    keyboard_cap: bool,
    pointer_bound: bool,
    keyboard_bound: bool,
) -> (r: SeatActions)
    ensures
        r.get_pointer == (pointer_cap && !pointer_bound),
        r.release_pointer == (!pointer_cap && pointer_bound),
        r.get_keyboard == (keyboard_cap && !keyboard_bound),
{
    SeatActions {
        get_pointer: pointer_cap && !pointer_bound,
        release_pointer: !pointer_cap && pointer_bound,
        get_keyboard: keyboard_cap && !keyboard_bound,
    }
}

} // verus!
