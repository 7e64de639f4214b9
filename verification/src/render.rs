//! The render-thread bridge: the message protocol between the UI thread
//! and the render thread, the capacity-one admission rule of the channel
//! between them, and the renderer's per-window bookkeeping and frame
//! decisions.
//!
//! The GPU itself is an outside collaborator. The driver owning the real
//! device performs the returned [`RenderAction`]s and reports GPU outcomes
//! ([`AcquireOutcome`], [`PresentOutcome`]) back; every decision between
//! those calls is made here.

use vstd::prelude::*;
use vstd::assert_seqs_equal;

use crate::geometry::{IRect, ISize};
use crate::window::Token;

verus! {

/// An RGBA clear color, one byte per channel.
#[derive(Copy, Clone, PartialEq, Eq, Structural, Debug)]
pub struct Color {
    pub r: u8,
    pub g: u8,
    pub b: u8,
    pub a: u8,
}

/// A render request: target window, viewport, and an optional clear color.
/// Produced by the application once per loop iteration, consumed exactly
/// once by the render thread.
#[derive(Copy, Clone, PartialEq, Eq, Structural, Debug)]
pub struct Frame {
    pub window: Token,
    pub viewport: IRect,
    pub clear_color: Option<Color>,
}

impl Frame {
    pub fn new(window: Token, viewport: IRect, clear_color: Option<Color>) -> (r: Frame)
        ensures
            r == (Frame { window, viewport, clear_color }),
    {
        Frame { window, viewport, clear_color }
    }
}

/// Render-thread-side record of one window: its token, its last known
/// size, and the opaque GPU-surface handle the driver assigned at
/// window-open time.
#[derive(Copy, Clone, PartialEq, Eq, Structural, Debug)]
pub struct WindowInfo {
    pub token: Token,
    pub size: ISize,
    pub surface: u64,
}

/// One message across the UI-to-render channel.
#[derive(Clone, PartialEq, Debug)]
pub enum Msg {
    WindowAdd(WindowInfo),
    WindowRemove(Token),
    Frame(Frame),
    Frames(Vec<Frame>),
    Exit,
}

/// The admission rule of a capacity-one channel: at most one message is in
/// flight; a second one is refused until the first was received.
pub open spec fn mail_send(slot: Option<Msg>, m: Msg) -> (Option<Msg>, bool) {
    match slot {
        Some(_) => (slot, false),
        None => (Some(m), true),
    }
}

pub open spec fn mail_recv(slot: Option<Msg>) -> (Option<Msg>, Option<Msg>) {
    (None, slot)
}

/// The capacity-one mailbox between the UI thread and the render thread.
/// `try_send` returning `false` is the moment the real sender blocks: this
/// is deliberate admission control, so the UI thread can never run more
/// than one message ahead of the renderer.
pub struct Mailbox {
    slot: Option<Msg>,
}

impl View for Mailbox {
    type V = Option<Msg>;

    closed spec fn view(&self) -> Option<Msg> {
        self.slot
    }
}

impl Mailbox {
    pub fn new() -> (r: Mailbox)
        ensures
            r@ is None,
    {
        Mailbox { slot: None }
    }

    /// Offer a message. Refused, with nothing changed, while the previous
    /// message has not been consumed.
    pub fn try_send(&mut self, m: Msg) -> (ok: bool)
        ensures
            final(self)@ == mail_send(old(self)@, m).0,
            ok == mail_send(old(self)@, m).1,
    {
        if self.slot.is_some() {
            false
        } else {
            self.slot = Some(m);
            true
        }
    }

    /// Take the in-flight message, leaving the channel free.
    pub fn recv(&mut self) -> (r: Option<Msg>)
        ensures
            final(self)@ is None,
            r == old(self)@,
    {
        self.slot.take()
    }
}

/// Channel back-pressure: after one accepted `Frame` message, a second
/// send is refused until the first is received; receiving frees the slot
/// and hands the first message out, and then the second send is accepted.
pub proof fn lemma_channel_back_pressure(m1: Msg, m2: Msg)
    ensures
        ({
            let (s1, ok1) = mail_send(None, m1);
            let (s2, ok2) = mail_send(s1, m2);
            let (s3, got) = mail_recv(s2);
            let (s4, ok3) = mail_send(s3, m2);
            &&& ok1
            &&& !ok2
            &&& s2 == s1
            &&& got == Some(m1)
            &&& ok3
            &&& s4 == Some(m2)
        }),
{
}

/// Per-swapchain-image resources, by the opaque handles the driver
/// assigned: the image, its command buffer, and its fence.
#[derive(Copy, Clone, PartialEq, Eq, Structural, Debug)]
pub struct ImageData {
    pub image: u64,
    pub cmd: u64,
    pub fence: u64,
}

impl ImageData {
    pub fn new(image: u64, cmd: u64, fence: u64) -> (r: ImageData)
        ensures
            r == (ImageData { image, cmd, fence }),
    {
        ImageData { image, cmd, fence }
    }
}

/// Render-thread-side state for one open window.
#[derive(Clone, PartialEq, Debug)]
pub struct RenderWindow {
    pub info: WindowInfo,
    pub images: Vec<ImageData>,
    /// The swapchain went out of date; it must be rebuilt before the next
    /// frame proceeds.
    pub must_rebuild: bool,
}

/// What acquiring the next swapchain image reported. Any other error is
/// fatal in this design.
#[derive(Copy, Clone, PartialEq, Eq, Structural, Debug)]
pub enum AcquireOutcome {
    Image(usize),
    OutOfDate,
}

/// What presenting reported.
#[derive(Copy, Clone, PartialEq, Eq, Structural, Debug)]
pub enum PresentOutcome {
    Presented,
    OutOfDate,
}

/// One GPU action decided for a frame, in execution order: wait on the
/// image's previous fence, reset it, record (with or without a clear),
/// submit signalling the fence, present the image.
#[derive(Copy, Clone, PartialEq, Eq, Structural, Debug)]
pub enum RenderAction {
    WaitFence(u64),
    ResetFence(u64),
    RecordClear { cmd: u64, color: Color },
    RecordEmpty { cmd: u64 },
    Submit { cmd: u64, fence: u64 },
    Present { image_index: usize },
}

/// The index of the first render window holding this token, or the length
/// when none does.
pub open spec fn find_token(s: Seq<RenderWindow>, t: Token) -> int
    decreases s.len(),
{
    if s.len() == 0 {
        0
    } else if s[0].info.token == t {
        0
    } else {
        1 + find_token(s.subrange(1, s.len() as int), t)
    }
}

pub open spec fn has_token(s: Seq<RenderWindow>, t: Token) -> bool
    decreases s.len(),
{
    s.len() != 0 && (s[0].info.token == t || has_token(s.subrange(1, s.len() as int), t))
}

/// The actions a frame decides on once an image was acquired.
pub open spec fn frame_actions(w: RenderWindow, frame: Frame, idx: int) -> Seq<RenderAction> {
    let img = w.images[idx];
    let record = match frame.clear_color {
        Some(c) => RenderAction::RecordClear { cmd: img.cmd, color: c },
        None => RenderAction::RecordEmpty { cmd: img.cmd },
    };
    seq![
        RenderAction::WaitFence(img.fence),
        RenderAction::ResetFence(img.fence),
        record,
        RenderAction::Submit { cmd: img.cmd, fence: img.fence },
        RenderAction::Present { image_index: idx as usize },
    ]
}

/// The render thread's bookkeeping: every open window's record, owned
/// exclusively by that thread.
pub struct Renderer {
    windows: Vec<RenderWindow>,
}

impl View for Renderer {
    type V = Seq<RenderWindow>;

    closed spec fn view(&self) -> Seq<RenderWindow> {
        self.windows@
    }
}

impl Renderer {
    pub fn new() -> (r: Renderer)
        ensures
            r@ == Seq::<RenderWindow>::empty(),
    {
        Renderer { windows: Vec::new() }
    }

    /// A window announced itself: record it with the per-image resources
    /// the driver built for its swapchain.
    pub fn window_add(&mut self, info: WindowInfo, images: Vec<ImageData>)
        ensures
            final(self)@ == old(self)@.push(
                RenderWindow { info, images, must_rebuild: false },
            ),
    {
        self.windows.push(RenderWindow { info, images, must_rebuild: false });
    }

    /// A window closed: drop its record and hand it back, so the driver
    /// can fence and release the GPU resources before anything else runs.
    pub fn window_remove(&mut self, token: Token) -> (removed: Option<RenderWindow>)
        ensures
            has_token(old(self)@, token) ==> {
                &&& removed == Some(old(self)@[find_token(old(self)@, token)])
                &&& final(self)@ == old(self)@.remove(find_token(old(self)@, token))
            },
            !has_token(old(self)@, token) ==> {
                &&& removed is None
                &&& final(self)@ == old(self)@
            },
    {
        let n = self.windows.len();
        let mut i: usize = 0;
        proof {
            lemma_find_token_nonneg(self@, token);
        }
        while i < n
            invariant
                n == self.windows@.len(),
                0 <= i <= n,
                *self == *old(self),
                forall|j: int| 0 <= j < i ==> old(self)@[j].info.token != token,
                find_token(old(self)@, token) >= i || !has_token(old(self)@, token),
            decreases n - i,
        {
            let hit = {
                let w = &self.windows[i];
                w.info.token.id == token.id
            };
            if hit {
                proof {
                    lemma_find_token_at(old(self)@, token, i as int);
                }
                let w = self.windows.remove(i);
                return Some(w);
            }
            proof {
                lemma_find_token_skip(old(self)@, token, i as int);
            }
            i = i + 1;
        }
        proof {
            if has_token(old(self)@, token) {
                lemma_find_token_bounds(old(self)@, token);
            }
        }
        None
    }

    /// How many swapchain images the window with this token has, or
    /// nothing when no such window is on record.
    pub fn image_count(&self, token: Token) -> (r: Option<usize>)
        ensures
            (r is Some) == has_token(self@, token),
            r matches Some(c) ==> c == self@[find_token(self@, token)].images@.len(),
    {
        let n = self.windows.len();
        let mut i: usize = 0;
        proof {
            lemma_find_token_nonneg(self@, token);
        }
        while i < n
            invariant
                n == self.windows@.len(),
                0 <= i <= n,
                forall|j: int| 0 <= j < i ==> self@[j].info.token != token,
                find_token(self@, token) >= i || !has_token(self@, token),
            decreases n - i,
        {
            let hit = {
                let w = &self.windows[i];
                w.info.token.id == token.id
            };
            if hit {
                proof {
                    lemma_find_token_at(self@, token, i as int);
                }
                let w = &self.windows[i];
                return Some(w.images.len());
            }
            proof {
                lemma_find_token_skip(self@, token, i as int);
            }
            i = i + 1;
        }
        proof {
            if has_token(self@, token) {
                lemma_find_token_bounds(self@, token);
            }
        }
        None
    }

    /// How many windows are on record.
    pub fn window_count(&self) -> (r: usize)
        ensures
            r == self@.len(),
    {
        self.windows.len()
    }

    /// Decide one frame, given what acquiring the next swapchain image
    /// reported. Out-of-date flags the window for rebuild and decides
    /// nothing; otherwise the per-image wait, reset, record, submit and
    /// present sequence follows.
    pub fn frame(&mut self, frame: Frame, acquire: AcquireOutcome) -> (acts: Vec<RenderAction>)
        requires
            has_token(old(self)@, frame.window),
            acquire matches AcquireOutcome::Image(idx) ==> idx < old(self)@[find_token(
                old(self)@,
                frame.window,
            )].images@.len(),
        ensures
            ({
                let k = find_token(old(self)@, frame.window);
                match acquire {
                    AcquireOutcome::OutOfDate => {
                        &&& final(self)@ == old(self)@.update(
                            k,
                            RenderWindow { must_rebuild: true, ..old(self)@[k] },
                        )
                        &&& acts@ == Seq::<RenderAction>::empty()
                    },
                    AcquireOutcome::Image(idx) => {
                        &&& final(self)@ == old(self)@
                        &&& acts@ == frame_actions(old(self)@[k], frame, idx as int)
                    },
                }
            }),
    {
        let mut acts: Vec<RenderAction> = Vec::new();
        let n = self.windows.len();
        let mut i: usize = 0;
        proof {
            lemma_find_token_bounds(self@, frame.window);
        }
        while i < n
            invariant
                n == self.windows@.len(),
                0 <= i <= n,
                *self == *old(self),
                acts@ == Seq::<RenderAction>::empty(),
                forall|j: int| 0 <= j < i ==> old(self)@[j].info.token != frame.window,
                has_token(old(self)@, frame.window),
                0 <= find_token(old(self)@, frame.window) < n,
                find_token(old(self)@, frame.window) >= i,
                acquire matches AcquireOutcome::Image(idx) ==> idx < old(self)@[find_token(
                    old(self)@,
                    frame.window,
                )].images@.len(),
            decreases n - i,
        {
            let hit = {
                let w = &self.windows[i];
                w.info.token.id == frame.window.id
            };
            if hit {
                proof {
                    lemma_find_token_at(old(self)@, frame.window, i as int);
                }
                match acquire {
                    AcquireOutcome::OutOfDate => {
                        let mut w = self.windows.remove(i);
                        w.must_rebuild = true;
                        self.windows.insert(i, w);
                        proof {
                            assert_seqs_equal!(
                                self@,
                                old(self)@.update(
                                    i as int,
                                    RenderWindow { must_rebuild: true, ..old(self)@[i as int] },
                                )
                            );
                        }
                        return acts;
                    },
                    AcquireOutcome::Image(idx) => {
                        let img = {
                            let w = &self.windows[i];
                            w.images[idx]
                        };
                        acts.push(RenderAction::WaitFence(img.fence));
                        acts.push(RenderAction::ResetFence(img.fence));
                        match frame.clear_color {
                            Some(c) => acts.push(
                                RenderAction::RecordClear { cmd: img.cmd, color: c },
                            ),
                            None => acts.push(RenderAction::RecordEmpty { cmd: img.cmd }),
                        }
                        acts.push(RenderAction::Submit { cmd: img.cmd, fence: img.fence });
                        acts.push(RenderAction::Present { image_index: idx });
                        proof {
                            assert(acts@ =~= frame_actions(
                                old(self)@[i as int],
                                frame,
                                idx as int,
                            ));
                        }
                        return acts;
                    },
                }
            }
            proof {
                lemma_find_token_skip(old(self)@, frame.window, i as int);
            }
            i = i + 1;
        }
        proof {
            assert(false);
        }
        acts
    }

    /// What presenting reported, after the driver performed the actions:
    /// out-of-date flags the window for rebuild before its next frame.
    pub fn present_result(&mut self, token: Token, outcome: PresentOutcome)
        requires
            has_token(old(self)@, token),
        ensures
            ({
                let k = find_token(old(self)@, token);
                match outcome {
                    PresentOutcome::OutOfDate => final(self)@ == old(self)@.update(
                        k,
                        RenderWindow { must_rebuild: true, ..old(self)@[k] },
                    ),
                    PresentOutcome::Presented => final(self)@ == old(self)@,
                }
            }),
    {
        let n = self.windows.len();
        let mut i: usize = 0;
        proof {
            lemma_find_token_bounds(self@, token);
        }
        while i < n
            invariant
                n == self.windows@.len(),
                0 <= i <= n,
                *self == *old(self),
                forall|j: int| 0 <= j < i ==> old(self)@[j].info.token != token,
                has_token(old(self)@, token),
                0 <= find_token(old(self)@, token) < n,
                find_token(old(self)@, token) >= i,
            decreases n - i,
        {
            let hit = {
                let w = &self.windows[i];
                w.info.token.id == token.id
            };
            if hit {
                proof {
                    lemma_find_token_at(old(self)@, token, i as int);
                }
                match outcome {
                    PresentOutcome::OutOfDate => {
                        let mut w = self.windows.remove(i);
                        w.must_rebuild = true;
                        self.windows.insert(i, w);
                        proof {
                            assert_seqs_equal!(
                                self@,
                                old(self)@.update(
                                    i as int,
                                    RenderWindow { must_rebuild: true, ..old(self)@[i as int] },
                                )
                            );
                        }
                    },
                    PresentOutcome::Presented => {},
                }
                return ;
            }
            proof {
                lemma_find_token_skip(old(self)@, token, i as int);
            }
            i = i + 1;
        }
        proof {
            assert(false);
        }
    }
}

proof fn lemma_find_token_nonneg(s: Seq<RenderWindow>, t: Token)
    ensures
        find_token(s, t) >= 0,
    decreases s.len(),
{
    if s.len() > 0 && s[0].info.token != t {
        lemma_find_token_nonneg(s.subrange(1, s.len() as int), t);
    }
}

proof fn lemma_find_token_at(s: Seq<RenderWindow>, t: Token, i: int)
    requires
        0 <= i < s.len(),
        s[i].info.token == t,
        forall|j: int| 0 <= j < i ==> s[j].info.token != t,
    ensures
        has_token(s, t),
        find_token(s, t) == i,
    decreases s.len(),
{
    if i > 0 {
        let rest = s.subrange(1, s.len() as int);
        assert(rest[i - 1] == s[i]);
        assert(forall|j: int| 0 <= j < i - 1 ==> rest[j] == s[j + 1]);
        lemma_find_token_at(rest, t, i - 1);
    }
}

proof fn lemma_find_token_skip(s: Seq<RenderWindow>, t: Token, i: int)
    requires
        0 <= i < s.len(),
        forall|j: int| 0 <= j <= i ==> s[j].info.token != t,
    ensures
        find_token(s, t) > i || !has_token(s, t),
    decreases s.len(),
{
    if i > 0 {
        let rest = s.subrange(1, s.len() as int);
        assert(forall|j: int| 0 <= j <= i - 1 ==> rest[j] == s[j + 1]);
        lemma_find_token_skip(rest, t, i - 1);
    } else {
        lemma_find_token_nonneg(s.subrange(1, s.len() as int), t);
    }
}

proof fn lemma_find_token_bounds(s: Seq<RenderWindow>, t: Token)
    requires
        has_token(s, t),
    ensures
        0 <= find_token(s, t) < s.len(),
        s[find_token(s, t)].info.token == t,
    decreases s.len(),
{
    if s.len() > 0 && s[0].info.token != t {
        lemma_find_token_bounds(s.subrange(1, s.len() as int), t);
    }
}

/// A surface pixel format as the GPU backend reports it: the backend's
/// numeric code and whether its channels are unsigned-normalized.
#[derive(Copy, Clone, PartialEq, Eq, Structural, Debug)]
pub struct SurfaceFormat {
    pub code: u32,
    pub unorm: bool,
}

/// The backend's code for the 8-bit RGBA unsigned-normalized format, the
/// format preferred for every window surface.
pub const RGBA8_UNORM: u32 = 37;

/// The index of the first unsigned-normalized format, or the length when
/// none is.
pub open spec fn first_unorm(s: Seq<SurfaceFormat>) -> int
    decreases s.len(),
{
    if s.len() == 0 {
        0
    } else if s[0].unorm {
        0
    } else {
        1 + first_unorm(s.subrange(1, s.len() as int))
    }
}

pub open spec fn has_unorm(s: Seq<SurfaceFormat>) -> bool
    decreases s.len(),
{
    s.len() != 0 && (s[0].unorm || has_unorm(s.subrange(1, s.len() as int)))
}

pub open spec fn has_preferred(s: Seq<SurfaceFormat>) -> bool {
    s.contains(SurfaceFormat { code: RGBA8_UNORM, unorm: true })
}

/// The format the renderer settles on: the preferred RGBA format when the
/// surface offers it, else the first unsigned-normalized one, else the
/// first offered at all.
pub open spec fn chosen_format(s: Seq<SurfaceFormat>) -> SurfaceFormat {
    if has_preferred(s) {
        SurfaceFormat { code: RGBA8_UNORM, unorm: true }
    } else if has_unorm(s) {
        s[first_unorm(s)]
    } else {
        s[0]
    }
}

proof fn lemma_first_unorm(s: Seq<SurfaceFormat>)
    requires
        has_unorm(s),
    ensures
        0 <= first_unorm(s) < s.len(),
        s[first_unorm(s)].unorm,
    decreases s.len(),
{
    if s.len() > 0 && !s[0].unorm {
        lemma_first_unorm(s.subrange(1, s.len() as int));
    }
}

proof fn lemma_first_unorm_at(s: Seq<SurfaceFormat>, i: int)
    requires
        0 <= i < s.len(),
        s[i].unorm,
        forall|j: int| 0 <= j < i ==> !s[j].unorm,
    ensures
        has_unorm(s),
        first_unorm(s) == i,
    decreases s.len(),
{
    if i > 0 {
        let rest = s.subrange(1, s.len() as int);
        assert(rest[i - 1] == s[i]);
        assert(forall|j: int| 0 <= j < i - 1 ==> rest[j] == s[j + 1]);
        lemma_first_unorm_at(rest, i - 1);
    }
}

/// Settle the surface format, as [`chosen_format`] says. A backend that
/// reports no format list at all accepts any; the preferred one is taken.
/// A reported list must not be empty.
#[verifier::loop_isolation(false)]
pub fn find_surf_format(compat: Option<&Vec<SurfaceFormat>>) -> (r: SurfaceFormat)
    requires
        compat matches Some(v) ==> v@.len() > 0,
    ensures
        compat is None ==> r == (SurfaceFormat { code: RGBA8_UNORM, unorm: true }),
        compat matches Some(v) ==> r == chosen_format(v@),
{
    match compat {
        None => SurfaceFormat { code: RGBA8_UNORM, unorm: true },
        Some(v) => {
            let n = v.len();
            let mut i: usize = 0;
            while i < n
                invariant
                    n == v@.len(),
                    0 <= i <= n,
                    forall|j: int|
                        0 <= j < i ==> #[trigger] v@[j] != (SurfaceFormat {
                            code: RGBA8_UNORM,
                            unorm: true,
                        }),
                decreases n - i,
            {
                let f = v[i];
                if f.code == RGBA8_UNORM && f.unorm {
                    proof {
                        assert(v@.contains(SurfaceFormat { code: RGBA8_UNORM, unorm: true }));
                    }
                    return f;
                }
                i = i + 1;
            }
            proof {
                if has_preferred(v@) {
                    let k = choose|k: int|
                        0 <= k < v@.len() && v@[k] == (SurfaceFormat {
                            code: RGBA8_UNORM,
                            unorm: true,
                        });
                    assert(false);
                }
            }
            let mut i: usize = 0;
            while i < n
                invariant
                    n == v@.len(),
                    0 <= i <= n,
                    !has_preferred(v@),
                    forall|j: int| 0 <= j < i ==> !(#[trigger] v@[j]).unorm,
                decreases n - i,
            {
                let f = v[i];
                if f.unorm {
                    proof {
                        lemma_first_unorm_at(v@, i as int);
                    }
                    return f;
                }
                i = i + 1;
            }
            proof {
                if has_unorm(v@) {
                    lemma_first_unorm(v@);
                    assert(false);
                }
            }
            v[0]
        },
    }
}

/// How a surface may composite with what is behind it, in the renderer's
/// order of preference.
#[derive(Copy, Clone, PartialEq, Eq, Structural, Debug)]
pub enum CompositeAlpha {
    PreMultiplied,
    PostMultiplied,
    Inherit,
    Opaque,
}

/// The renderer's preference: lower rank is taken first.
pub open spec fn alpha_rank(a: CompositeAlpha) -> int {
    match a {
        CompositeAlpha::PreMultiplied => 0,
        CompositeAlpha::PostMultiplied => 1,
        CompositeAlpha::Inherit => 2,
        CompositeAlpha::Opaque => 3,
    }
}

fn contains_alpha(v: &Vec<CompositeAlpha>, a: CompositeAlpha) -> (r: bool)
    ensures
        r == v@.contains(a),
{
    let n = v.len();
    let mut i: usize = 0;
    while i < n
        invariant
            n == v@.len(),
            0 <= i <= n,
            forall|j: int| 0 <= j < i ==> v@[j] != a,
        decreases n - i,
    {
        if v[i] == a {
            proof {
                assert(v@.contains(a));
            }
            return true;
        }
        i = i + 1;
    }
    proof {
        if v@.contains(a) {
            let k = choose|k: int| 0 <= k < v@.len() && v@[k] == a;
            assert(false);
        }
    }
    false
}

/// Settle the composite-alpha mode: the most preferred one the surface
/// supports. The supported list must not be empty.
pub fn find_surf_comp_alpha(compat: &Vec<CompositeAlpha>) -> (r: CompositeAlpha)
    requires
        compat@.len() > 0,
    ensures
        compat@.contains(r),
        forall|x: CompositeAlpha| compat@.contains(x) ==> alpha_rank(r) <= alpha_rank(x),
{
    if contains_alpha(compat, CompositeAlpha::PreMultiplied) {
        return CompositeAlpha::PreMultiplied;
    }
    if contains_alpha(compat, CompositeAlpha::PostMultiplied) {
        return CompositeAlpha::PostMultiplied;
    }
    if contains_alpha(compat, CompositeAlpha::Inherit) {
        return CompositeAlpha::Inherit;
    }
    if contains_alpha(compat, CompositeAlpha::Opaque) {
        return CompositeAlpha::Opaque;
    }
    proof {
        assert(compat@.contains(compat@[0]));
        assert(false);
    }
    CompositeAlpha::Opaque
}

/// What the surface reports about itself before a swapchain is built.
#[derive(Copy, Clone, PartialEq, Eq, Structural, Debug)]
pub struct SurfaceCaps {
    pub min_image_count: u32,
    /// Transfer-destination and color-attachment usage is available.
    pub usage_ok: bool,
    /// First-in-first-out presentation is available.
    pub fifo_supported: bool,
}

/// The settled swapchain configuration. Presentation is always
/// first-in-first-out.
#[derive(Copy, Clone, PartialEq, Eq, Structural, Debug)]
pub struct SwapchainConfig {
    pub size: ISize,
    pub format: SurfaceFormat,
    pub image_count: u32,
    pub composite_alpha: CompositeAlpha,
}

/// Settle a swapchain configuration: double-buffered at least, the
/// preferred format and composite mode the surface offers. The required
/// usage and first-in-first-out presentation must be available.
pub fn build_swapchain_config(
    caps: SurfaceCaps,
    formats: Option<&Vec<SurfaceFormat>>,
    alphas: &Vec<CompositeAlpha>,
    size: ISize,
) -> (r: SwapchainConfig)
    requires
        caps.usage_ok,
        caps.fifo_supported,
        formats matches Some(v) ==> v@.len() > 0,
        alphas@.len() > 0,
    ensures
        r.size == size,
        r.image_count == if caps.min_image_count > 2 {
            caps.min_image_count
        } else {
            2u32
        },
        formats is None ==> r.format == (SurfaceFormat { code: RGBA8_UNORM, unorm: true }),
        formats matches Some(v) ==> r.format == chosen_format(v@),
        alphas@.contains(r.composite_alpha),
        forall|x: CompositeAlpha|
            alphas@.contains(x) ==> alpha_rank(r.composite_alpha) <= alpha_rank(x),
{
    let image_count = if caps.min_image_count > 2 {
        caps.min_image_count
    } else {
        2
    };
    let format = find_surf_format(formats);
    let composite_alpha = find_surf_comp_alpha(alphas);
    SwapchainConfig { size, format, image_count, composite_alpha }
}

/// What adapter selection sees of one GPU adapter: whether a queue family
/// supports graphics and transfer work and is compatible with every
/// registered window surface.
#[derive(Copy, Clone, PartialEq, Eq, Structural, Debug)]
pub struct AdapterInfo {
    pub supports_graphics: bool,
    pub supports_transfer: bool,
    pub all_surfaces_compatible: bool,
}

pub open spec fn adapter_ok(a: AdapterInfo) -> bool {
    a.supports_graphics && a.supports_transfer && a.all_surfaces_compatible
}

/// Pick the first adapter whose queue family supports graphics and
/// transfer and is compatible with every registered surface. `None` is
/// fatal to render-thread startup.
pub fn pick_adapter(adapters: &Vec<AdapterInfo>) -> (r: Option<usize>)
    ensures
        r matches Some(i) ==> i < adapters@.len() && adapter_ok(adapters@[i as int]) && (forall|
            j: int,
        |
            0 <= j < i ==> !adapter_ok(adapters@[j])),
        r is None ==> forall|j: int| 0 <= j < adapters@.len() ==> !adapter_ok(adapters@[j]),
{
    let n = adapters.len();
    let mut i: usize = 0;
    while i < n
        invariant
            n == adapters@.len(),
            0 <= i <= n,
            forall|j: int| 0 <= j < i ==> !adapter_ok(adapters@[j]),
        decreases n - i,
    {
        let a = adapters[i];
        if a.supports_graphics && a.supports_transfer && a.all_surfaces_compatible {
            return Some(i);
        }
        i = i + 1;
    }
    None
}

} // verus!
