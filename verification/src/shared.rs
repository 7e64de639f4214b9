//! Per-window shared mutable state: the pending event buffer, the
//! compression bitmask, and the recorded geometry, window state, modifier,
//! button and pointer tracking that native notifications reconcile against.
//!
//! High-frequency notifications (resize, mouse move) are compressed: at most
//! one pending `Resize` and at most one pending `MouseMove` event exist in
//! the buffer at any time. A repeated notification overwrites the pending
//! event's payload in place, preserving its original queue position; all
//! other event kinds are always appended in arrival order.

use vstd::prelude::*;
use vstd::assert_seqs_equal;
use vstd::pervasive::VecAdditionalExecFns;

use crate::geometry::{IPoint, IRect, ISize};
use crate::key::{Code, Mods, Sym};
use crate::mouse::{but_bit, But, Buts};
use crate::window::{Event, EventV, State};

verus! {

/// Compression-mask bit: a `Resize` event is pending in the buffer.
pub const COMP_RESIZE: u32 = 1;

/// Compression-mask bit: a `MouseMove` event is pending in the buffer.
pub const COMP_MOUSE_MOVE: u32 = 2;

/// One decoded per-window mouse notification.
#[derive(Copy, Clone, PartialEq, Eq, Structural, Debug)]
pub enum MouseMsg {
    Down(But),
    Up(But),
    Move,
    Leave,
}

/// The mathematical image of a [`WindowShared`] block.
#[verifier::ext_equal]
pub struct SharedV {
    pub buf: Seq<EventV>,
    pub comp_resize: bool,
    pub comp_move: bool,
    pub rect: IRect,
    pub state: State,
    pub mods: Mods,
    pub buts: Buts,
    pub mouse_pos: IPoint,
    pub mouse_out: bool,
}

pub open spec fn is_resize(e: EventV) -> bool {
    e matches EventV::Resize(_)
}

pub open spec fn is_mouse_move(e: EventV) -> bool {
    e matches EventV::MouseMove(_, _, _)
}

pub open spec fn has_resize(s: Seq<EventV>) -> bool {
    exists|i: int| 0 <= i < s.len() && is_resize(s[i])
}

pub open spec fn has_mouse_move(s: Seq<EventV>) -> bool {
    exists|i: int| 0 <= i < s.len() && is_mouse_move(s[i])
}

/// The position of the pending `Resize` event; meaningful only under
/// [`SharedV::wf`], which makes it unique.
pub open spec fn resize_idx(s: Seq<EventV>) -> int {
    choose|i: int| 0 <= i < s.len() && is_resize(s[i])
}

/// The position of the pending `MouseMove` event; meaningful only under
/// [`SharedV::wf`], which makes it unique.
pub open spec fn mouse_move_idx(s: Seq<EventV>) -> int {
    choose|i: int| 0 <= i < s.len() && is_mouse_move(s[i])
}

pub open spec fn at_most_one_resize(s: Seq<EventV>) -> bool {
    forall|i: int, j: int|
        0 <= i < s.len() && 0 <= j < s.len() && is_resize(s[i]) && is_resize(s[j]) ==> i == j
}

pub open spec fn at_most_one_mouse_move(s: Seq<EventV>) -> bool {
    forall|i: int, j: int|
        0 <= i < s.len() && 0 <= j < s.len() && is_mouse_move(s[i]) && is_mouse_move(s[j]) ==> i
            == j
}

impl SharedV {
    /// The compression invariant: a mask bit is set exactly when one event
    /// of its kind is pending, and never more than one is.
    pub open spec fn wf(self) -> bool {
        &&& self.comp_resize == has_resize(self.buf)
        &&& self.comp_move == has_mouse_move(self.buf)
        &&& at_most_one_resize(self.buf)
        &&& at_most_one_mouse_move(self.buf)
    }

    /// The freshly created block: empty buffer, cleared mask, zero
    /// geometry, default-normal state, pointer outside.
    pub open spec fn init() -> SharedV {
        SharedV {
            buf: Seq::empty(),
            comp_resize: false,
            comp_move: false,
            rect: IRect { x: 0, y: 0, w: 0, h: 0 },
            state: State::Normal(None),
            mods: Mods { bits: 0 },
            buts: Buts { bits: 0 },
            mouse_pos: IPoint { x: 0, y: 0 },
            mouse_out: true,
        }
    }
}

/// Append one non-compressible event.
pub open spec fn push_step(v: SharedV, e: EventV) -> SharedV {
    SharedV { buf: v.buf.push(e), ..v }
}

/// Record a resize: append a `Resize` event if none is pending, else
/// overwrite the pending one in place.
pub open spec fn resize_step(v: SharedV, size: ISize) -> SharedV {
    if !v.comp_resize {
        SharedV { buf: v.buf.push(EventV::Resize(size)), comp_resize: true, ..v }
    } else {
        SharedV { buf: v.buf.update(resize_idx(v.buf), EventV::Resize(size)), ..v }
    }
}

/// Record a mouse move: append if none is pending, else overwrite in place.
pub open spec fn mouse_move_step(v: SharedV, pos: IPoint) -> SharedV {
    let e = EventV::MouseMove(pos, v.buts, v.mods);
    if !v.comp_move {
        SharedV { buf: v.buf.push(e), comp_move: true, ..v }
    } else {
        SharedV { buf: v.buf.update(mouse_move_idx(v.buf), e), ..v }
    }
}

/// A native configure notification: yields a resize only when the new size
/// is non-zero in both dimensions and differs from the recorded size.
pub open spec fn configure_step(v: SharedV, size: ISize) -> SharedV {
    if size.w != 0 && size.h != 0 && (size.w != v.rect.w || size.h != v.rect.h) {
        let moved = SharedV { rect: IRect { w: size.w, h: size.h, ..v.rect }, ..v };
        resize_step(moved, size)
    } else {
        v
    }
}

/// A native state-change notification: yields a `State` event only when the
/// state differs from the recorded one.
pub open spec fn state_step(v: SharedV, state: State) -> SharedV {
    if state != v.state {
        SharedV { buf: v.buf.push(EventV::State(state)), state, ..v }
    } else {
        v
    }
}

/// A native close request: always yields exactly one `Close` event.
pub open spec fn close_step(v: SharedV) -> SharedV {
    SharedV { buf: v.buf.push(EventV::Close), ..v }
}

/// One decoded mouse notification, win32-style: presses and releases update
/// the held-button set and append; the first motion after the pointer was
/// out appends an enter event; motion is compressed; leave reports the last
/// recorded position.
pub open spec fn mouse_step(v: SharedV, m: MouseMsg, pos: IPoint) -> SharedV {
    match m {
        MouseMsg::Down(b) => {
            let nb = Buts { bits: v.buts.bits | but_bit(b) };
            SharedV { buf: v.buf.push(EventV::MouseDown(pos, b, nb, v.mods)), buts: nb, ..v }
        },
        MouseMsg::Up(b) => {
            let nb = Buts { bits: v.buts.bits & !but_bit(b) };
            SharedV { buf: v.buf.push(EventV::MouseUp(pos, b, nb, v.mods)), buts: nb, ..v }
        },
        MouseMsg::Move => {
            let entered = if v.mouse_out {
                SharedV {
                    buf: v.buf.push(EventV::MouseEnter(pos, v.buts, v.mods)),
                    mouse_out: false,
                    ..v
                }
            } else {
                v
            };
            mouse_move_step(SharedV { mouse_pos: pos, ..entered }, pos)
        },
        MouseMsg::Leave => {
            SharedV {
                buf: v.buf.push(EventV::MouseLeave(v.mouse_pos, v.buts, v.mods)),
                mouse_out: true,
                ..v
            }
        },
    }
}

/// A key press: records the fresh modifier state and appends a `KeyDown`
/// carrying the text composed for this one press.
pub open spec fn key_down_step(
    v: SharedV,
    sym: Sym,
    code: Code,
    mods: Mods,
    text: Seq<char>,
) -> SharedV {
    SharedV { buf: v.buf.push(EventV::KeyDown(sym, code, mods, text)), mods, ..v }
}

/// A key release: records the fresh modifier state and appends a `KeyUp`.
pub open spec fn key_up_step(v: SharedV, sym: Sym, code: Code, mods: Mods) -> SharedV {
    SharedV { buf: v.buf.push(EventV::KeyUp(sym, code, mods)), mods, ..v }
}

/// Drain: the buffer empties and the compression mask clears; tracking
/// fields survive.
pub open spec fn drain_step(v: SharedV) -> SharedV {
    SharedV { buf: Seq::empty(), comp_resize: false, comp_move: false, ..v }
}

pub open spec fn events_view(s: Seq<Event>) -> Seq<EventV> {
    s.map_values(|e: Event| e@)
}

/// Per-window shared mutable state, owned by the window adapter and
/// reconciled by decoded native notifications.
pub struct WindowShared {
    event_buf: Vec<Event>,
    event_comp: u32,
    rect: IRect,
    state: State,
    mods: Mods,
    buts: Buts,
    mouse_pos: IPoint,
    mouse_out: bool,
}

impl View for WindowShared {
    type V = SharedV;

    closed spec fn view(&self) -> SharedV {
        SharedV {
            buf: events_view(self.event_buf@),
            comp_resize: self.event_comp & COMP_RESIZE != 0,
            comp_move: self.event_comp & COMP_MOUSE_MOVE != 0,
            rect: self.rect,
            state: self.state,
            mods: self.mods,
            buts: self.buts,
            mouse_pos: self.mouse_pos,
            mouse_out: self.mouse_out,
        }
    }
}

/// The few facts about the two mask bits that the adapter needs.
proof fn lemma_comp_bits(c: u32)
    ensures
        0u32 & COMP_RESIZE == 0,
        0u32 & COMP_MOUSE_MOVE == 0,
        (c | COMP_RESIZE) & COMP_RESIZE != 0,
        ((c | COMP_RESIZE) & COMP_MOUSE_MOVE != 0) == (c & COMP_MOUSE_MOVE != 0),
        (c | COMP_MOUSE_MOVE) & COMP_MOUSE_MOVE != 0,
        ((c | COMP_MOUSE_MOVE) & COMP_RESIZE != 0) == (c & COMP_RESIZE != 0),
{
    assert(0u32 & 1u32 == 0) by (bit_vector);
    assert(0u32 & 2u32 == 0) by (bit_vector);
    assert((c | 1u32) & 1u32 != 0) by (bit_vector);
    assert(((c | 1u32) & 2u32 != 0) == (c & 2u32 != 0)) by (bit_vector);
    assert((c | 2u32) & 2u32 != 0) by (bit_vector);
    assert(((c | 2u32) & 1u32 != 0) == (c & 1u32 != 0)) by (bit_vector);
}

proof fn lemma_events_view_push(s: Seq<Event>, e: Event)
    ensures
        events_view(s.push(e)) == events_view(s).push(e@),
{
    assert_seqs_equal!(events_view(s.push(e)), events_view(s).push(e@));
}

proof fn lemma_events_view_update(s: Seq<Event>, i: int, e: Event)
    requires
        0 <= i < s.len(),
    ensures
        events_view(s.update(i, e)) == events_view(s).update(i, e@),
{
    assert_seqs_equal!(events_view(s.update(i, e)), events_view(s).update(i, e@));
}

impl WindowShared {
    pub open spec fn wf(&self) -> bool {
        self@.wf()
    }

    pub fn new() -> (r: WindowShared)
        ensures
            r@ == SharedV::init(),
            r.wf(),
    {
        let r = WindowShared {
            event_buf: Vec::new(),
            event_comp: 0,
            rect: IRect { x: 0, y: 0, w: 0, h: 0 },
            state: State::Normal(None),
            mods: Mods { bits: 0 },
            buts: Buts { bits: 0 },
            mouse_pos: IPoint { x: 0, y: 0 },
            mouse_out: true,
        };
        proof {
            lemma_comp_bits(0);
            assert(r@.buf =~= Seq::<EventV>::empty());
            assert(r@ =~= SharedV::init());
        }
        r
    }

    /// Append one event with no compression.
    pub fn event(&mut self, ev: Event)
        requires
            old(self).wf(),
            !is_resize(ev@),
            !is_mouse_move(ev@),
        ensures
            final(self)@ == push_step(old(self)@, ev@),
            final(self).wf(),
    {
        let ghost pre = self@;
        proof {
            lemma_events_view_push(self.event_buf@, ev);
        }
        self.event_buf.push(ev);
        proof {
            assert(self@ =~= push_step(pre, ev@));
            assert(forall|i: int|
                0 <= i < self@.buf.len() && is_resize(self@.buf[i]) ==> i < pre.buf.len()
                    && is_resize(pre.buf[i]));
            assert(forall|i: int|
                0 <= i < self@.buf.len() && is_mouse_move(self@.buf[i]) ==> i < pre.buf.len()
                    && is_mouse_move(pre.buf[i]));
        }
    }
}

proof fn lemma_push_non_comp(s: Seq<EventV>, e: EventV)
    requires
        !is_resize(e),
        !is_mouse_move(e),
    ensures
        has_resize(s.push(e)) == has_resize(s),
        has_mouse_move(s.push(e)) == has_mouse_move(s),
        at_most_one_resize(s) ==> at_most_one_resize(s.push(e)),
        at_most_one_mouse_move(s) ==> at_most_one_mouse_move(s.push(e)),
        has_resize(s) && at_most_one_resize(s) ==> resize_idx(s.push(e)) == resize_idx(s),
        has_mouse_move(s) && at_most_one_mouse_move(s) ==> mouse_move_idx(s.push(e))
            == mouse_move_idx(s),
{
    let u = s.push(e);
    assert(forall|i: int| 0 <= i < s.len() ==> u[i] == s[i]);
    assert(u[s.len() as int] == e);
    if has_resize(s) {
        let i0 = choose|i: int| 0 <= i < s.len() && is_resize(s[i]);
        assert(is_resize(u[i0]));
    }
    if has_mouse_move(s) {
        let i0 = choose|i: int| 0 <= i < s.len() && is_mouse_move(s[i]);
        assert(is_mouse_move(u[i0]));
    }
    if has_resize(u) {
        let i0 = choose|i: int| 0 <= i < u.len() && is_resize(u[i]);
        assert(i0 < s.len() && is_resize(s[i0]));
    }
    if has_mouse_move(u) {
        let i0 = choose|i: int| 0 <= i < u.len() && is_mouse_move(u[i]);
        assert(i0 < s.len() && is_mouse_move(s[i0]));
    }
    if has_resize(s) && at_most_one_resize(s) {
        let i0 = resize_idx(s);
        assert(0 <= i0 < s.len() && is_resize(s[i0]));
        let iu = resize_idx(u);
        assert(0 <= iu < u.len() && is_resize(u[iu]));
        assert(iu != s.len());
        assert(is_resize(s[iu]));
        assert(iu == i0);
    }
    if has_mouse_move(s) && at_most_one_mouse_move(s) {
        let i0 = mouse_move_idx(s);
        assert(0 <= i0 < s.len() && is_mouse_move(s[i0]));
        let iu = mouse_move_idx(u);
        assert(0 <= iu < u.len() && is_mouse_move(u[iu]));
        assert(iu != s.len());
        assert(is_mouse_move(s[iu]));
        assert(iu == i0);
    }
}

proof fn lemma_push_resize(s: Seq<EventV>, size: ISize)
    requires
        !has_resize(s),
    ensures
        has_resize(s.push(EventV::Resize(size))),
        at_most_one_resize(s.push(EventV::Resize(size))),
        has_mouse_move(s.push(EventV::Resize(size))) == has_mouse_move(s),
        at_most_one_mouse_move(s) ==> at_most_one_mouse_move(s.push(EventV::Resize(size))),
        resize_idx(s.push(EventV::Resize(size))) == s.len(),
        has_mouse_move(s) && at_most_one_mouse_move(s) ==> mouse_move_idx(
            s.push(EventV::Resize(size)),
        ) == mouse_move_idx(s),
{
    let u = s.push(EventV::Resize(size));
    assert(forall|i: int| 0 <= i < s.len() ==> u[i] == s[i]);
    assert(is_resize(u[s.len() as int]));
    assert(forall|i: int| 0 <= i < u.len() && is_resize(u[i]) ==> i == s.len());
    if has_mouse_move(s) {
        let i0 = choose|i: int| 0 <= i < s.len() && is_mouse_move(s[i]);
        assert(is_mouse_move(u[i0]));
    }
    if has_mouse_move(u) {
        let i0 = choose|i: int| 0 <= i < u.len() && is_mouse_move(u[i]);
        assert(i0 < s.len() && is_mouse_move(s[i0]));
    }
    if has_mouse_move(s) && at_most_one_mouse_move(s) {
        let i0 = mouse_move_idx(s);
        assert(0 <= i0 < s.len() && is_mouse_move(s[i0]));
        let iu = mouse_move_idx(u);
        assert(0 <= iu < u.len() && is_mouse_move(u[iu]));
        assert(iu != s.len());
        assert(is_mouse_move(s[iu]));
        assert(iu == i0);
    }
}

proof fn lemma_push_mouse_move(s: Seq<EventV>, e: EventV)
    requires
        !has_mouse_move(s),
        is_mouse_move(e),
    ensures
        has_mouse_move(s.push(e)),
        at_most_one_mouse_move(s.push(e)),
        has_resize(s.push(e)) == has_resize(s),
        at_most_one_resize(s) ==> at_most_one_resize(s.push(e)),
        mouse_move_idx(s.push(e)) == s.len(),
        has_resize(s) && at_most_one_resize(s) ==> resize_idx(s.push(e)) == resize_idx(s),
{
    let u = s.push(e);
    assert(forall|i: int| 0 <= i < s.len() ==> u[i] == s[i]);
    assert(is_mouse_move(u[s.len() as int]));
    assert(forall|i: int| 0 <= i < u.len() && is_mouse_move(u[i]) ==> i == s.len());
    if has_resize(s) {
        let i0 = choose|i: int| 0 <= i < s.len() && is_resize(s[i]);
        assert(is_resize(u[i0]));
    }
    if has_resize(u) {
        let i0 = choose|i: int| 0 <= i < u.len() && is_resize(u[i]);
        assert(i0 < s.len() && is_resize(s[i0]));
    }
    if has_resize(s) && at_most_one_resize(s) {
        let i0 = resize_idx(s);
        assert(0 <= i0 < s.len() && is_resize(s[i0]));
        let iu = resize_idx(u);
        assert(0 <= iu < u.len() && is_resize(u[iu]));
        assert(iu != s.len());
        assert(is_resize(s[iu]));
        assert(iu == i0);
    }
}

proof fn lemma_update_resize(s: Seq<EventV>, size: ISize)
    requires
        has_resize(s),
        at_most_one_resize(s),
    ensures
        0 <= resize_idx(s) < s.len(),
        is_resize(s[resize_idx(s)]),
        has_resize(s.update(resize_idx(s), EventV::Resize(size))),
        at_most_one_resize(s.update(resize_idx(s), EventV::Resize(size))),
        resize_idx(s.update(resize_idx(s), EventV::Resize(size))) == resize_idx(s),
        has_mouse_move(s.update(resize_idx(s), EventV::Resize(size))) == has_mouse_move(s),
        at_most_one_mouse_move(s) ==> at_most_one_mouse_move(
            s.update(resize_idx(s), EventV::Resize(size)),
        ),
{
    let idx = resize_idx(s);
    assert(0 <= idx < s.len() && is_resize(s[idx]));
    let u = s.update(idx, EventV::Resize(size));
    assert(forall|i: int| 0 <= i < s.len() && i != idx ==> u[i] == s[i]);
    assert(is_resize(u[idx]));
    assert(forall|i: int| 0 <= i < u.len() && is_resize(u[i]) ==> i == idx);
    if has_mouse_move(s) {
        let i0 = choose|i: int| 0 <= i < s.len() && is_mouse_move(s[i]);
        assert(i0 != idx);
        assert(is_mouse_move(u[i0]));
    }
    if has_mouse_move(u) {
        let i0 = choose|i: int| 0 <= i < u.len() && is_mouse_move(u[i]);
        assert(i0 != idx);
        assert(is_mouse_move(s[i0]));
    }
}

proof fn lemma_update_mouse_move(s: Seq<EventV>, e: EventV)
    requires
        has_mouse_move(s),
        at_most_one_mouse_move(s),
        is_mouse_move(e),
    ensures
        0 <= mouse_move_idx(s) < s.len(),
        is_mouse_move(s[mouse_move_idx(s)]),
        has_mouse_move(s.update(mouse_move_idx(s), e)),
        at_most_one_mouse_move(s.update(mouse_move_idx(s), e)),
        mouse_move_idx(s.update(mouse_move_idx(s), e)) == mouse_move_idx(s),
        has_resize(s.update(mouse_move_idx(s), e)) == has_resize(s),
        at_most_one_resize(s) ==> at_most_one_resize(s.update(mouse_move_idx(s), e)),
{
    let idx = mouse_move_idx(s);
    assert(0 <= idx < s.len() && is_mouse_move(s[idx]));
    let u = s.update(idx, e);
    assert(forall|i: int| 0 <= i < s.len() && i != idx ==> u[i] == s[i]);
    assert(is_mouse_move(u[idx]));
    assert(forall|i: int| 0 <= i < u.len() && is_mouse_move(u[i]) ==> i == idx);
    if has_resize(s) {
        let i0 = choose|i: int| 0 <= i < s.len() && is_resize(s[i]);
        assert(i0 != idx);
        assert(is_resize(u[i0]));
    }
    if has_resize(u) {
        let i0 = choose|i: int| 0 <= i < u.len() && is_resize(u[i]);
        assert(i0 != idx);
        assert(is_resize(s[i0]));
    }
}

impl WindowShared {
    /// Compressed recording of a resize: append when none is pending, else
    /// overwrite the single pending `Resize` in place.
    pub fn resize_event(&mut self, new_size: ISize)
        requires
            old(self).wf(),
        ensures
            final(self)@ == resize_step(old(self)@, new_size),
            final(self).wf(),
    {
        let ghost pre = self@;
        if self.event_comp & COMP_RESIZE == 0 {
            proof {
                lemma_events_view_push(self.event_buf@, Event::Resize(new_size));
                lemma_push_resize(pre.buf, new_size);
            }
            self.event_buf.push(Event::Resize(new_size));
            proof {
                lemma_comp_bits(self.event_comp);
            }
            self.event_comp = self.event_comp | COMP_RESIZE;
            proof {
                assert(self@ =~= resize_step(pre, new_size));
            }
        } else {
            let n = self.event_buf.len();
            let mut i: usize = 0;
            while i < n
                invariant
                    pre == old(self)@,
                    self@ == pre,
                    *self == *old(self),
                    n == self.event_buf@.len(),
                    pre.wf(),
                    pre.comp_resize,
                    0 <= i <= n,
                    forall|j: int| 0 <= j < i ==> !is_resize(pre.buf[j]),
                decreases n - i,
            {
                let hit = match &self.event_buf[i] {
                    Event::Resize(_) => true,
                    _ => false,
                };
                if hit {
                    proof {
                        assert(is_resize(pre.buf[i as int]));
                        lemma_update_resize(pre.buf, new_size);
                        assert(i as int == resize_idx(pre.buf));
                        lemma_events_view_update(
                            self.event_buf@,
                            i as int,
                            Event::Resize(new_size),
                        );
                    }
                    self.event_buf.set(i, Event::Resize(new_size));
                    proof {
                        assert(self@ =~= resize_step(pre, new_size));
                    }
                    return;
                }
                i = i + 1;
            }
            proof {
                assert(has_resize(pre.buf));
                let i0 = choose|k: int| 0 <= k < pre.buf.len() && is_resize(pre.buf[k]);
                assert(false);
            }
        }
    }

    /// Compressed recording of a mouse move, carrying the held buttons and
    /// modifiers recorded at this moment.
    pub fn mouse_move_event(&mut self, pos: IPoint)
        requires
            old(self).wf(),
        ensures
            final(self)@ == mouse_move_step(old(self)@, pos),
            final(self).wf(),
    {
        let ghost pre = self@;
        let ev = Event::MouseMove(pos, self.buts, self.mods);
        if self.event_comp & COMP_MOUSE_MOVE == 0 {
            proof {
                lemma_events_view_push(self.event_buf@, ev);
                lemma_push_mouse_move(pre.buf, ev@);
            }
            self.event_buf.push(ev);
            proof {
                lemma_comp_bits(self.event_comp);
            }
            self.event_comp = self.event_comp | COMP_MOUSE_MOVE;
            proof {
                assert(self@ =~= mouse_move_step(pre, pos));
            }
        } else {
            let n = self.event_buf.len();
            let mut i: usize = 0;
            while i < n
                invariant
                    pre == old(self)@,
                    self@ == pre,
                    *self == *old(self),
                    n == self.event_buf@.len(),
                    pre.wf(),
                    pre.comp_move,
                    0 <= i <= n,
                    forall|j: int| 0 <= j < i ==> !is_mouse_move(pre.buf[j]),
                decreases n - i,
            {
                let hit = match &self.event_buf[i] {
                    Event::MouseMove(_, _, _) => true,
                    _ => false,
                };
                if hit {
                    let ev2 = Event::MouseMove(pos, self.buts, self.mods);
                    proof {
                        assert(is_mouse_move(pre.buf[i as int]));
                        lemma_update_mouse_move(pre.buf, ev2@);
                        assert(i as int == mouse_move_idx(pre.buf));
                        lemma_events_view_update(self.event_buf@, i as int, ev2);
                    }
                    self.event_buf.set(i, ev2);
                    proof {
                        assert(self@ =~= mouse_move_step(pre, pos));
                    }
                    return;
                }
                i = i + 1;
            }
            proof {
                assert(has_mouse_move(pre.buf));
                let i0 = choose|k: int| 0 <= k < pre.buf.len() && is_mouse_move(pre.buf[k]);
                assert(false);
            }
        }
    }

    /// A native configure notification: records the new geometry and yields
    /// a compressed resize only for a changed, non-zero size.
    pub fn handle_configure(&mut self, size: ISize)
        requires
            old(self).wf(),
        ensures
            final(self)@ == configure_step(old(self)@, size),
            final(self).wf(),
    {
        if size.w != 0 && size.h != 0 && (size.w != self.rect.w || size.h != self.rect.h) {
            self.rect.w = size.w;
            self.rect.h = size.h;
            self.resize_event(size);
        }
    }

    /// A native state-change notification: yields a `State` event only when
    /// the state differs from the recorded one.
    pub fn state_change(&mut self, state: State)
        requires
            old(self).wf(),
        ensures
            final(self)@ == state_step(old(self)@, state),
            final(self).wf(),
    {
        if state != self.state {
            self.state = state;
            self.event(Event::State(state));
            proof {
                assert(self@ =~= state_step(old(self)@, state));
            }
        }
    }

    /// A native close request: always yields exactly one `Close` event.
    pub fn close_event(&mut self)
        requires
            old(self).wf(),
        ensures
            final(self)@ == close_step(old(self)@),
            final(self).wf(),
    {
        self.event(Event::Close);
    }

    /// One decoded mouse notification. The result says whether the driver
    /// must re-register for leave notifications (the pointer just entered).
    pub fn handle_mouse(&mut self, m: MouseMsg, pos: IPoint) -> (track: bool)
        requires
            old(self).wf(),
        ensures
            final(self)@ == mouse_step(old(self)@, m, pos),
            final(self).wf(),
            track == (m matches MouseMsg::Move && old(self)@.mouse_out),
    {
        let ghost pre = self@;
        match m {
            MouseMsg::Down(b) => {
                self.buts.insert(b);
                let ev = Event::MouseDown(pos, b, self.buts, self.mods);
                self.event(ev);
                proof {
                    assert(self@ =~= mouse_step(pre, m, pos));
                }
                false
            },
            MouseMsg::Up(b) => {
                self.buts.remove(b);
                let ev = Event::MouseUp(pos, b, self.buts, self.mods);
                self.event(ev);
                proof {
                    assert(self@ =~= mouse_step(pre, m, pos));
                }
                false
            },
            MouseMsg::Move => {
                let track = self.mouse_out;
                if self.mouse_out {
                    self.mouse_out = false;
                    let ev = Event::MouseEnter(pos, self.buts, self.mods);
                    self.event(ev);
                }
                self.mouse_pos = pos;
                self.mouse_move_event(pos);
                proof {
                    assert(self@ =~= mouse_step(pre, m, pos));
                }
                track
            },
            MouseMsg::Leave => {
                let ev = Event::MouseLeave(self.mouse_pos, self.buts, self.mods);
                self.event(ev);
                self.mouse_out = true;
                proof {
                    assert(self@ =~= mouse_step(pre, m, pos));
                }
                false
            },
        }
    }

    /// A key press with the text composed for this one press.
    pub fn key_down(&mut self, sym: Sym, code: Code, mods: Mods, text: String)
        requires
            old(self).wf(),
        ensures
            final(self)@ == key_down_step(old(self)@, sym, code, mods, text@),
            final(self).wf(),
    {
        let ghost t = text@;
        self.mods = mods;
        self.event(Event::KeyDown(sym, code, mods, text));
        proof {
            assert(self@ =~= key_down_step(old(self)@, sym, code, mods, t));
        }
    }

    /// A key release.
    pub fn key_up(&mut self, sym: Sym, code: Code, mods: Mods)
        requires
            old(self).wf(),
        ensures
            final(self)@ == key_up_step(old(self)@, sym, code, mods),
            final(self).wf(),
    {
        self.mods = mods;
        self.event(Event::KeyUp(sym, code, mods));
        proof {
            assert(self@ =~= key_up_step(old(self)@, sym, code, mods));
        }
    }

    /// Drain the pending events in arrival order; the buffer empties and
    /// the compression mask clears, so a fresh period begins.
    pub fn retrieve_events(&mut self) -> (evs: Vec<Event>)
        requires
            old(self).wf(),
        ensures
            events_view(evs@) == old(self)@.buf,
            final(self)@ == drain_step(old(self)@),
            final(self).wf(),
    {
        let mut evs: Vec<Event> = Vec::new();
        core::mem::swap(&mut evs, &mut self.event_buf);
        self.event_comp = 0;
        proof {
            lemma_comp_bits(0);
            assert(self@.buf =~= Seq::<EventV>::empty());
            assert(self@ =~= drain_step(old(self)@));
        }
        evs
    }

    /// The recorded client size.
    pub fn size(&self) -> (r: ISize)
        ensures
            r == (ISize { w: self@.rect.w, h: self@.rect.h }),
    {
        ISize { w: self.rect.w, h: self.rect.h }
    }

    /// The recorded geometry.
    pub fn rect(&self) -> (r: IRect)
        ensures
            r == self@.rect,
    {
        self.rect
    }

    /// The recorded window state.
    pub fn state(&self) -> (r: State)
        ensures
            r == self@.state,
    {
        self.state
    }

    /// Record a state reached by the adapter's own doing, with no event.
    pub fn record_state(&mut self, state: State)
        ensures
            final(self)@ == (SharedV { state, ..old(self)@ }),
            old(self).wf() ==> final(self).wf(),
    {
        self.state = state;
        proof {
            assert(self@ =~= (SharedV { state, ..old(self)@ }));
        }
    }

    /// Record a geometry reached by the adapter's own doing, with no event.
    pub fn record_rect(&mut self, rect: IRect)
        ensures
            final(self)@ == (SharedV { rect, ..old(self)@ }),
            old(self).wf() ==> final(self).wf(),
    {
        self.rect = rect;
        proof {
            assert(self@ =~= (SharedV { rect, ..old(self)@ }));
        }
    }
}

/// One notification delivered during a single drain period, as the
/// compression laws see it: a configure carrying a size, or any event of a
/// kind that is never compressed.
pub enum DeliveryV {
    Sized(ISize),
    Other(EventV),
}

pub open spec fn is_sized(d: DeliveryV) -> bool {
    d matches DeliveryV::Sized(_)
}

pub open spec fn sized_of(d: DeliveryV) -> ISize {
    match d {
        DeliveryV::Sized(s) => s,
        DeliveryV::Other(_) => ISize { w: 0, h: 0 },
    }
}

pub open spec fn delivery_step(v: SharedV, d: DeliveryV) -> SharedV {
    match d {
        DeliveryV::Sized(s) => configure_step(v, s),
        DeliveryV::Other(e) => push_step(v, e),
    }
}

pub open spec fn deliver_all(v: SharedV, ds: Seq<DeliveryV>) -> SharedV
    decreases ds.len(),
{
    if ds.len() == 0 {
        v
    } else {
        deliver_all(delivery_step(v, ds[0]), ds.subrange(1, ds.len() as int))
    }
}

/// A run in which every configure takes effect: each carries a non-zero
/// size that differs from the size recorded at its delivery point, and
/// every other notification is of a kind that is never compressed.
pub open spec fn effective_run(v: SharedV, ds: Seq<DeliveryV>) -> bool
    decreases ds.len(),
{
    ds.len() == 0 || {
        let ok = match ds[0] {
            DeliveryV::Sized(s) => s.w != 0 && s.h != 0 && (s.w != v.rect.w || s.h != v.rect.h),
            DeliveryV::Other(e) => !is_resize(e) && !is_mouse_move(e),
        };
        ok && effective_run(delivery_step(v, ds[0]), ds.subrange(1, ds.len() as int))
    }
}

pub open spec fn has_sized(ds: Seq<DeliveryV>) -> bool
    decreases ds.len(),
{
    ds.len() != 0 && (is_sized(ds[0]) || has_sized(ds.subrange(1, ds.len() as int)))
}

/// The index of the first configure in the run.
pub open spec fn first_sized(ds: Seq<DeliveryV>) -> int
    decreases ds.len(),
{
    if ds.len() == 0 {
        0
    } else if is_sized(ds[0]) {
        0
    } else {
        1 + first_sized(ds.subrange(1, ds.len() as int))
    }
}

/// The size carried by the last configure in the run.
pub open spec fn last_sized(ds: Seq<DeliveryV>) -> ISize
    decreases ds.len(),
{
    if ds.len() == 0 {
        ISize { w: 0, h: 0 }
    } else {
        let rest = ds.subrange(1, ds.len() as int);
        if has_sized(rest) {
            last_sized(rest)
        } else if is_sized(ds[0]) {
            sized_of(ds[0])
        } else {
            ISize { w: 0, h: 0 }
        }
    }
}

proof fn lemma_first_sized_bounds(ds: Seq<DeliveryV>)
    requires
        has_sized(ds),
    ensures
        0 <= first_sized(ds) < ds.len(),
        is_sized(ds[first_sized(ds)]),
    decreases ds.len(),
{
    if ds.len() > 0 && !is_sized(ds[0]) {
        lemma_first_sized_bounds(ds.subrange(1, ds.len() as int));
    }
}

proof fn lemma_deliver_take_step(v: SharedV, ds: Seq<DeliveryV>, m: int)
    requires
        1 <= m <= ds.len(),
    ensures
        deliver_all(v, ds.subrange(0, m)) == deliver_all(
            delivery_step(v, ds[0]),
            ds.subrange(1, ds.len() as int).subrange(0, m - 1),
        ),
{
    let pre = ds.subrange(0, m);
    assert(pre[0] == ds[0]);
    assert_seqs_equal!(pre.subrange(1, m), ds.subrange(1, ds.len() as int).subrange(0, m - 1));
}

/// A run of configure notifications interleaved with non-compressible
/// events, landing on a state that already holds the one pending `Resize`
/// at position `i`: the pending event stays at `i`, and its payload ends as
/// the last size of the run (or stays, if the run carries none).
proof fn lemma_run_pending(v: SharedV, ds: Seq<DeliveryV>, i: int)
    requires
        v.wf(),
        v.comp_resize,
        0 <= i < v.buf.len(),
        is_resize(v.buf[i]),
        effective_run(v, ds),
    ensures
        deliver_all(v, ds).wf(),
        deliver_all(v, ds).comp_resize,
        i < deliver_all(v, ds).buf.len(),
        is_resize(deliver_all(v, ds).buf[i]),
        resize_idx(deliver_all(v, ds).buf) == i,
        deliver_all(v, ds).buf[i] == if has_sized(ds) {
            EventV::Resize(last_sized(ds))
        } else {
            v.buf[i]
        },
    decreases ds.len(),
{
    assert(resize_idx(v.buf) == i);
    if ds.len() == 0 {
    } else {
        let rest = ds.subrange(1, ds.len() as int);
        match ds[0] {
            DeliveryV::Other(e) => {
                let v1 = push_step(v, e);
                lemma_push_non_comp(v.buf, e);
                assert(v1.wf());
                assert(v1.buf[i] == v.buf[i]);
                lemma_run_pending(v1, rest, i);
            },
            DeliveryV::Sized(s) => {
                let moved = SharedV { rect: IRect { w: s.w, h: s.h, ..v.rect }, ..v };
                let v1 = delivery_step(v, ds[0]);
                lemma_update_resize(moved.buf, s);
                assert(v1.buf == moved.buf.update(i, EventV::Resize(s)));
                assert(v1.wf());
                assert(is_resize(v1.buf[i]));
                lemma_run_pending(v1, rest, i);
            },
        }
    }
}

/// Resize compression: during one drain period starting with no pending
/// resize, a run of effective configure notifications interleaved with
/// non-compressible events leaves exactly one `Resize` event in the
/// buffer, its payload the last size of the run, at the queue position the
/// buffer had when the first configure of the run arrived.
pub proof fn lemma_resize_compression(v: SharedV, ds: Seq<DeliveryV>)
    requires
        v.wf(),
        !v.comp_resize,
        effective_run(v, ds),
        has_sized(ds),
    ensures
        deliver_all(v, ds).wf(),
        has_resize(deliver_all(v, ds).buf),
        at_most_one_resize(deliver_all(v, ds).buf),
        deliver_all(v, ds).buf[resize_idx(deliver_all(v, ds).buf)] == EventV::Resize(
            last_sized(ds),
        ),
        resize_idx(deliver_all(v, ds).buf) == deliver_all(
            v,
            ds.subrange(0, first_sized(ds)),
        ).buf.len(),
    decreases ds.len(),
{
    let rest = ds.subrange(1, ds.len() as int);
    match ds[0] {
        DeliveryV::Sized(s) => {
            let moved = SharedV { rect: IRect { w: s.w, h: s.h, ..v.rect }, ..v };
            let v1 = delivery_step(v, ds[0]);
            lemma_push_resize(moved.buf, s);
            assert(v1.buf == moved.buf.push(EventV::Resize(s)));
            assert(v1.wf());
            assert(is_resize(v1.buf[v.buf.len() as int]));
            lemma_run_pending(v1, rest, v.buf.len() as int);
            assert(first_sized(ds) == 0);
            assert_seqs_equal!(ds.subrange(0, 0), Seq::<DeliveryV>::empty());
            if !has_sized(rest) {
                assert(last_sized(ds) == s);
            }
        },
        DeliveryV::Other(e) => {
            let v1 = push_step(v, e);
            lemma_push_non_comp(v.buf, e);
            assert(v1.wf());
            assert(!v1.comp_resize);
            assert(has_sized(rest));
            lemma_resize_compression(v1, rest);
            lemma_first_sized_bounds(rest);
            let fs = first_sized(ds);
            assert(fs == 1 + first_sized(rest));
            lemma_deliver_take_step(v, ds, fs);
            assert(last_sized(ds) == last_sized(rest));
        },
    }
}

/// Zero-size suppression: a configure notification reporting a zero width
/// or height never yields a `Resize` event, and changes nothing at all.
pub proof fn lemma_zero_size_suppressed(v: SharedV, size: ISize)
    requires
        size.w == 0 || size.h == 0,
    ensures
        configure_step(v, size) == v,
{
}

/// Mouse-move compression follows the same rule as resize: a second move
/// in one drain period overwrites the pending move event's payload in
/// place, at its original queue position, and never adds a second event.
pub proof fn lemma_mouse_move_compression(v: SharedV, p1: IPoint, p2: IPoint)
    requires
        v.wf(),
        !v.comp_move,
    ensures
        ({
            let v1 = mouse_move_step(v, p1);
            let v2 = mouse_move_step(v1, p2);
            &&& v1.wf()
            &&& v2.wf()
            &&& v1.buf.len() == v.buf.len() + 1
            &&& v2.buf.len() == v1.buf.len()
            &&& v1.buf[v.buf.len() as int] == EventV::MouseMove(p1, v.buts, v.mods)
            &&& v2.buf[v.buf.len() as int] == EventV::MouseMove(p2, v.buts, v.mods)
            &&& at_most_one_mouse_move(v2.buf)
        }),
{
    let e1 = EventV::MouseMove(p1, v.buts, v.mods);
    lemma_push_mouse_move(v.buf, e1);
    let v1 = mouse_move_step(v, p1);
    assert(v1.wf());
    let e2 = EventV::MouseMove(p2, v1.buts, v1.mods);
    lemma_update_mouse_move(v1.buf, e2);
    assert(mouse_move_idx(v1.buf) == v.buf.len());
}

/// The buffer a run would leave had every configure been dropped: the
/// starting buffer with the non-compressible events appended in arrival
/// order.
pub open spec fn push_others(b: Seq<EventV>, ds: Seq<DeliveryV>) -> Seq<EventV>
    decreases ds.len(),
{
    if ds.len() == 0 {
        b
    } else {
        let rest = ds.subrange(1, ds.len() as int);
        match ds[0] {
            DeliveryV::Other(e) => push_others(b.push(e), rest),
            DeliveryV::Sized(_) => push_others(b, rest),
        }
    }
}

/// The buffer a run leaves: the non-compressible events in arrival order,
/// with one `Resize` carrying `last` standing where the run's first
/// configure arrived.
pub open spec fn compressed_replay(b: Seq<EventV>, ds: Seq<DeliveryV>, last: ISize) -> Seq<EventV>
    decreases ds.len(),
{
    if ds.len() == 0 {
        b
    } else {
        let rest = ds.subrange(1, ds.len() as int);
        match ds[0] {
            DeliveryV::Other(e) => compressed_replay(b.push(e), rest, last),
            DeliveryV::Sized(_) => push_others(b.push(EventV::Resize(last)), rest),
        }
    }
}

proof fn lemma_push_others_len(b: Seq<EventV>, ds: Seq<DeliveryV>)
    ensures
        push_others(b, ds).len() >= b.len(),
    decreases ds.len(),
{
    if ds.len() > 0 {
        let rest = ds.subrange(1, ds.len() as int);
        match ds[0] {
            DeliveryV::Other(e) => {
                lemma_push_others_len(b.push(e), rest);
            },
            DeliveryV::Sized(_) => {
                lemma_push_others_len(b, rest);
            },
        }
    }
}

proof fn lemma_push_others_update(b: Seq<EventV>, ds: Seq<DeliveryV>, i: int, x: EventV)
    requires
        0 <= i < b.len(),
    ensures
        push_others(b.update(i, x), ds) == push_others(b, ds).update(i, x),
    decreases ds.len(),
{
    if ds.len() == 0 {
    } else {
        let rest = ds.subrange(1, ds.len() as int);
        match ds[0] {
            DeliveryV::Other(e) => {
                assert_seqs_equal!(b.update(i, x).push(e), b.push(e).update(i, x));
                lemma_push_others_update(b.push(e), rest, i, x);
            },
            DeliveryV::Sized(_) => {
                lemma_push_others_update(b, rest, i, x);
            },
        }
    }
}

proof fn lemma_run_pending_full(v: SharedV, ds: Seq<DeliveryV>, i: int)
    requires
        v.wf(),
        v.comp_resize,
        0 <= i < v.buf.len(),
        is_resize(v.buf[i]),
        effective_run(v, ds),
    ensures
        deliver_all(v, ds).buf == if has_sized(ds) {
            push_others(v.buf, ds).update(i, EventV::Resize(last_sized(ds)))
        } else {
            push_others(v.buf, ds)
        },
    decreases ds.len(),
{
    assert(resize_idx(v.buf) == i);
    if ds.len() == 0 {
    } else {
        let rest = ds.subrange(1, ds.len() as int);
        match ds[0] {
            DeliveryV::Other(e) => {
                let v1 = push_step(v, e);
                lemma_push_non_comp(v.buf, e);
                lemma_run_pending_full(v1, rest, i);
            },
            DeliveryV::Sized(s) => {
                let moved = SharedV { rect: IRect { w: s.w, h: s.h, ..v.rect }, ..v };
                let v1 = delivery_step(v, ds[0]);
                lemma_update_resize(moved.buf, s);
                assert(v1.buf == v.buf.update(i, EventV::Resize(s)));
                assert(v1.wf());
                assert(is_resize(v1.buf[i]));
                lemma_run_pending_full(v1, rest, i);
                lemma_push_others_update(v.buf, rest, i, EventV::Resize(s));
                if has_sized(rest) {
                    lemma_push_others_len(v.buf, rest);
                    assert_seqs_equal!(
                        push_others(v.buf, rest).update(i, EventV::Resize(s)).update(
                            i,
                            EventV::Resize(last_sized(rest)),
                        ),
                        push_others(v.buf, rest).update(i, EventV::Resize(last_sized(rest)))
                    );
                }
            },
        }
    }
}

/// The complete shape of a drain period: an effective run leaves exactly
/// the non-compressible events in arrival order, with one `Resize` event
/// carrying the run's last size at the position where the run's first
/// configure arrived.
pub proof fn lemma_resize_compression_full(v: SharedV, ds: Seq<DeliveryV>)
    requires
        v.wf(),
        !v.comp_resize,
        effective_run(v, ds),
    ensures
        deliver_all(v, ds).buf == if has_sized(ds) {
            compressed_replay(v.buf, ds, last_sized(ds))
        } else {
            push_others(v.buf, ds)
        },
    decreases ds.len(),
{
    if ds.len() == 0 {
    } else {
        let rest = ds.subrange(1, ds.len() as int);
        match ds[0] {
            DeliveryV::Other(e) => {
                let v1 = push_step(v, e);
                lemma_push_non_comp(v.buf, e);
                lemma_resize_compression_full(v1, rest);
            },
            DeliveryV::Sized(s) => {
                let moved = SharedV { rect: IRect { w: s.w, h: s.h, ..v.rect }, ..v };
                let v1 = delivery_step(v, ds[0]);
                lemma_push_resize(moved.buf, s);
                assert(v1.buf == v.buf.push(EventV::Resize(s)));
                assert(v1.wf());
                let i = v.buf.len() as int;
                assert(is_resize(v1.buf[i]));
                lemma_run_pending_full(v1, rest, i);
                if has_sized(rest) {
                    assert_seqs_equal!(
                        v.buf.push(EventV::Resize(s)).update(
                            i,
                            EventV::Resize(last_sized(rest)),
                        ),
                        v.buf.push(EventV::Resize(last_sized(rest)))
                    );
                    lemma_push_others_update(v.buf.push(EventV::Resize(s)), rest, i, EventV::Resize(last_sized(rest)));
                }
            },
        }
    }
}

} // verus!
