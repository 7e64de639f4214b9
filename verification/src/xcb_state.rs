//! X11 window-manager state reconciliation: the decisions the XCB backend
//! makes around its native property calls. The driver interns the atoms,
//! fetches the property replies, and performs the returned commands; which
//! state a reply means and which client messages a state change needs is
//! decided here.

use vstd::prelude::*;
use vstd::assert_seqs_equal;

use crate::geometry::{IPoint, ISize};
use crate::window::State;

verus! {

/// The window-manager state bits, one per `_NET_WM_STATE` atom.
pub const NET_WM_STATE_NONE: u32 = 0x0000;

pub const NET_WM_STATE_MODAL: u32 = 0x0001;

pub const NET_WM_STATE_STICKY: u32 = 0x0002;

pub const NET_WM_STATE_MAXIMIZED_VERT: u32 = 0x0004;

pub const NET_WM_STATE_MAXIMIZED_HORZ: u32 = 0x0008;

pub const NET_WM_STATE_MAXIMIZED: u32 = 0x000C;

pub const NET_WM_STATE_SHADED: u32 = 0x0010;

pub const NET_WM_STATE_SKIP_TASKBAR: u32 = 0x0020;

pub const NET_WM_STATE_SKIP_PAGER: u32 = 0x0040;

pub const NET_WM_STATE_HIDDEN: u32 = 0x0080;

pub const NET_WM_STATE_FULLSCREEN: u32 = 0x0100;

pub const NET_WM_STATE_ABOVE: u32 = 0x0200;

pub const NET_WM_STATE_BELOW: u32 = 0x0400;

pub const NET_WM_STATE_DEMANDS_ATTENTION: u32 = 0x0800;

pub const NET_WM_STATE_FOCUSED: u32 = 0x1000;

/// The ICCCM `WM_STATE` property values.
pub const ICCCM_WM_STATE_WITHDRAWN: u32 = 0;

pub const ICCCM_WM_STATE_NORMAL: u32 = 1;

pub const ICCCM_WM_STATE_ICONIC: u32 = 3;

/// The X11 atom id of the ATOM type itself.
pub const ATOM_ATOM: u32 = 4;

/// The atom ids the connection interned at startup, one per protocol name
/// the adapter relies on.
#[derive(Copy, Clone, PartialEq, Eq, Structural, Debug)]
pub struct AtomTable {
    pub wm_protocols: u32,
    pub wm_delete_window: u32,
    pub wm_change_state: u32,
    pub wm_state: u32,
    pub net_wm_state: u32,
    pub modal: u32,
    pub sticky: u32,
    pub maximized_vert: u32,
    pub maximized_horz: u32,
    pub shaded: u32,
    pub skip_taskbar: u32,
    pub skip_pager: u32,
    pub hidden: u32,
    pub fullscreen: u32,
    pub above: u32,
    pub below: u32,
    pub demands_attention: u32,
    pub focused: u32,
}

/// The state bit one reported atom stands for; an atom the table does not
/// name contributes nothing. Where the table maps two names to one atom,
/// the first name in this order wins, as in the adapter's own chain.
pub open spec fn atom_bit(t: AtomTable, a: u32) -> u32 {
    if a == t.modal {
        NET_WM_STATE_MODAL
    } else if a == t.sticky {
        NET_WM_STATE_STICKY
    } else if a == t.maximized_vert {
        NET_WM_STATE_MAXIMIZED_VERT
    } else if a == t.maximized_horz {
        NET_WM_STATE_MAXIMIZED_HORZ
    } else if a == t.shaded {
        NET_WM_STATE_SHADED
    } else if a == t.skip_taskbar {
        NET_WM_STATE_SKIP_TASKBAR
    } else if a == t.skip_pager {
        NET_WM_STATE_SKIP_PAGER
    } else if a == t.hidden {
        NET_WM_STATE_HIDDEN
    } else if a == t.fullscreen {
        NET_WM_STATE_FULLSCREEN
    } else if a == t.above {
        NET_WM_STATE_ABOVE
    } else if a == t.below {
        NET_WM_STATE_BELOW
    } else if a == t.demands_attention {
        NET_WM_STATE_DEMANDS_ATTENTION
    } else if a == t.focused {
        NET_WM_STATE_FOCUSED
    } else {
        NET_WM_STATE_NONE
    }
}

/// The whole `_NET_WM_STATE` atom list folded into one bitmask.
pub open spec fn wm_states_of(t: AtomTable, atoms: Seq<u32>) -> u32
    decreases atoms.len(),
{
    if atoms.len() == 0 {
        NET_WM_STATE_NONE
    } else {
        atom_bit(t, atoms[0]) | wm_states_of(t, atoms.subrange(1, atoms.len() as int))
    }
}

/// One fetched X11 property, as the driver decoded it: the reported
/// format, the reported type atom, and the 32-bit values.
#[derive(Clone, PartialEq, Eq, Debug)]
pub struct PropertyReply {
    pub format: u8,
    pub type_atom: u32,
    pub values: Vec<u32>,
}

fn bit_of_atom(t: &AtomTable, a: u32) -> (r: u32)
    ensures
        r == atom_bit(*t, a),
{
    if a == t.modal {
        NET_WM_STATE_MODAL
    } else if a == t.sticky {
        NET_WM_STATE_STICKY
    } else if a == t.maximized_vert {
        NET_WM_STATE_MAXIMIZED_VERT
    } else if a == t.maximized_horz {
        NET_WM_STATE_MAXIMIZED_HORZ
    } else if a == t.shaded {
        NET_WM_STATE_SHADED
    } else if a == t.skip_taskbar {
        NET_WM_STATE_SKIP_TASKBAR
    } else if a == t.skip_pager {
        NET_WM_STATE_SKIP_PAGER
    } else if a == t.hidden {
        NET_WM_STATE_HIDDEN
    } else if a == t.fullscreen {
        NET_WM_STATE_FULLSCREEN
    } else if a == t.above {
        NET_WM_STATE_ABOVE
    } else if a == t.below {
        NET_WM_STATE_BELOW
    } else if a == t.demands_attention {
        NET_WM_STATE_DEMANDS_ATTENTION
    } else if a == t.focused {
        NET_WM_STATE_FOCUSED
    } else {
        NET_WM_STATE_NONE
    }
}

/// What the `_NET_WM_STATE` property means: the reply's atoms folded into
/// the state bitmask, provided the reply is well-formed 32-bit ATOM data;
/// anything else means no bits at all.
pub open spec fn wm_states_reply_spec(t: AtomTable, reply: Option<PropertyReply>) -> u32 {
    match reply {
        Some(r) => {
            if r.format == 32 && r.type_atom == ATOM_ATOM {
                wm_states_of(t, r.values@)
            } else {
                NET_WM_STATE_NONE
            }
        },
        None => NET_WM_STATE_NONE,
    }
}

/// Fold a fetched `_NET_WM_STATE` property into the state bitmask.
pub fn get_wm_states(t: &AtomTable, reply: Option<&PropertyReply>) -> (r: u32)
    ensures
        ({
            match reply {
                Some(pr) => r == wm_states_reply_spec(*t, Some(*pr)),
                None => r == NET_WM_STATE_NONE,
            }
        }),
{
    match reply {
        None => NET_WM_STATE_NONE,
        Some(pr) => {
            if pr.format != 32 || pr.type_atom != ATOM_ATOM {
                return NET_WM_STATE_NONE;
            }
            let n = pr.values.len();
            let mut i: usize = 0;
            let mut acc: u32 = NET_WM_STATE_NONE;
            proof {
                assert_seqs_equal!(pr.values@.subrange(0, n as int), pr.values@);
                let w = wm_states_of(*t, pr.values@);
                assert(0u32 | w == w) by (bit_vector);
            }
            while i < n
                invariant
                    n == pr.values@.len(),
                    0 <= i <= n,
                    acc | wm_states_of(*t, pr.values@.subrange(i as int, n as int))
                        == wm_states_of(*t, pr.values@),
                decreases n - i,
            {
                let ghost rem = pr.values@.subrange(i as int, n as int);
                let b = bit_of_atom(t, pr.values[i]);
                proof {
                    assert(rem[0] == pr.values@[i as int]);
                    assert_seqs_equal!(
                        rem.subrange(1, rem.len() as int),
                        pr.values@.subrange(i + 1, n as int)
                    );
                    lemma_or_assoc(acc, b, wm_states_of(*t, pr.values@.subrange(i + 1, n as int)));
                }
                acc = acc | b;
                i = i + 1;
            }
            proof {
                assert(pr.values@.subrange(n as int, n as int) =~= Seq::<u32>::empty());
                assert(acc | NET_WM_STATE_NONE == acc) by (bit_vector);
            }
            acc
        },
    }
}

proof fn lemma_or_assoc(a: u32, b: u32, c: u32)
    ensures
        a | (b | c) == (a | b) | c,
{
    assert(a | (b | c) == (a | b) | c) by (bit_vector);
}

/// What the fetched properties say the window's state is: `None` when the
/// window is withdrawn (not shown), otherwise the state. Minimized wins
/// over everything; fullscreen wins over maximized; maximized needs both
/// of its bits; everything else is plain normal.
pub open spec fn state_of_props_spec(
    t: AtomTable,
    wm_state: Option<PropertyReply>,
    net_states: u32,
) -> Option<State> {
    let icccm = match wm_state {
        Some(r) => {
            if r.format == 32 && r.type_atom == t.wm_state && r.values@.len() > 0 {
                Some(r.values@[0])
            } else {
                None
            }
        },
        None => None,
    };
    if icccm == Some(ICCCM_WM_STATE_WITHDRAWN) {
        None
    } else if icccm == Some(ICCCM_WM_STATE_ICONIC) {
        Some(State::Minimized)
    } else if net_states & NET_WM_STATE_FULLSCREEN != 0 {
        Some(State::Fullscreen)
    } else if net_states & NET_WM_STATE_MAXIMIZED == NET_WM_STATE_MAXIMIZED {
        Some(State::Maximized)
    } else {
        Some(State::Normal(None))
    }
}

/// Judge the window's state from the fetched `WM_STATE` property and the
/// already folded `_NET_WM_STATE` bitmask.
pub fn state_from_props(
    t: &AtomTable,
    wm_state: Option<&PropertyReply>,
    net_states: u32,
) -> (r: Option<State>)
    ensures
        ({
            match wm_state {
                Some(pr) => r == state_of_props_spec(*t, Some(*pr), net_states),
                None => r == state_of_props_spec(*t, None, net_states),
            }
        }),
{
    let mut icccm: Option<u32> = None;
    if let Some(pr) = wm_state {
        if pr.format == 32 && pr.type_atom == t.wm_state && pr.values.len() > 0 {
            icccm = Some(pr.values[0]);
        }
    }
    if icccm == Some(ICCCM_WM_STATE_WITHDRAWN) {
        None
    } else if icccm == Some(ICCCM_WM_STATE_ICONIC) {
        Some(State::Minimized)
    } else if net_states & NET_WM_STATE_FULLSCREEN != 0 {
        Some(State::Fullscreen)
    } else if net_states & NET_WM_STATE_MAXIMIZED == NET_WM_STATE_MAXIMIZED {
        Some(State::Maximized)
    } else {
        Some(State::Normal(None))
    }
}

/// One native X11 request the state reconciliation decides on. A window
/// state of `None` stands for an unmapped (hidden) window.
#[derive(Copy, Clone, PartialEq, Eq, Structural, Debug)]
pub enum XcbCmd {
    /// Send a `_NET_WM_STATE` client message switching up to two atoms on
    /// or off.
    SetWmState { on: bool, atom1: u32, atom2: u32 },
    /// Send a `WM_CHANGE_STATE` client message with this ICCCM value.
    ChangeState { value: u32 },
    MapWindow,
    UnmapWindow,
}

/// The requests that move a window from one recorded state to another:
/// first undo what made the old state special, then request the new one.
/// Equal states need nothing.
pub open spec fn update_state_spec(
    t: AtomTable,
    old_state: Option<State>,
    new_state: Option<State>,
) -> Seq<XcbCmd> {
    if new_state == old_state {
        Seq::empty()
    } else {
        let undo: Seq<XcbCmd> = match old_state {
            Some(State::Maximized) => seq![
                XcbCmd::SetWmState { on: false, atom1: t.maximized_horz, atom2: t.maximized_vert },
            ],
            Some(State::Fullscreen) => seq![
                XcbCmd::SetWmState { on: false, atom1: t.fullscreen, atom2: 0 },
            ],
            Some(State::Minimized) => seq![XcbCmd::MapWindow],
            None => seq![XcbCmd::MapWindow],
            _ => Seq::empty(),
        };
        let act: Seq<XcbCmd> = match new_state {
            Some(State::Minimized) => seq![XcbCmd::ChangeState { value: ICCCM_WM_STATE_ICONIC }],
            Some(State::Maximized) => seq![
                XcbCmd::SetWmState { on: true, atom1: t.maximized_horz, atom2: t.maximized_vert },
            ],
            Some(State::Fullscreen) => seq![
                XcbCmd::SetWmState { on: true, atom1: t.fullscreen, atom2: 0 },
            ],
            None => seq![XcbCmd::UnmapWindow],
            _ => Seq::empty(),
        };
        undo + act
    }
}

/// Decide the requests that reconcile the native window with a new state.
pub fn update_state_cmds(
    t: &AtomTable,
    old_state: Option<State>,
    new_state: Option<State>,
) -> (cmds: Vec<XcbCmd>)
    ensures
        cmds@ == update_state_spec(*t, old_state, new_state),
{
    let mut cmds: Vec<XcbCmd> = Vec::new();
    if new_state == old_state {
        proof {
            assert(cmds@ =~= update_state_spec(*t, old_state, new_state));
        }
        return cmds;
    }
    match old_state {
        Some(State::Maximized) => cmds.push(
            XcbCmd::SetWmState { on: false, atom1: t.maximized_horz, atom2: t.maximized_vert },
        ),
        Some(State::Fullscreen) => cmds.push(
            XcbCmd::SetWmState { on: false, atom1: t.fullscreen, atom2: 0 },
        ),
        Some(State::Minimized) => cmds.push(XcbCmd::MapWindow),
        None => cmds.push(XcbCmd::MapWindow),
        _ => {},
    }
    match new_state {
        Some(State::Minimized) => cmds.push(XcbCmd::ChangeState { value: ICCCM_WM_STATE_ICONIC }),
        Some(State::Maximized) => cmds.push(
            XcbCmd::SetWmState { on: true, atom1: t.maximized_horz, atom2: t.maximized_vert },
        ),
        Some(State::Fullscreen) => cmds.push(
            XcbCmd::SetWmState { on: true, atom1: t.fullscreen, atom2: 0 },
        ),
        None => cmds.push(XcbCmd::UnmapWindow),
        _ => {},
    }
    proof {
        assert(cmds@ =~= update_state_spec(*t, old_state, new_state));
    }
    cmds
}

/// Whether a client message is the window manager's delete-window request:
/// a 32-bit `WM_PROTOCOLS` message whose first datum is the
/// `WM_DELETE_WINDOW` atom. Such a request always becomes exactly one
/// `Close` event; the application decides what to do with it.
pub fn is_delete_request(t: &AtomTable, msg_type: u32, format: u8, data0: u32) -> (r: bool)
    ensures
        r == (msg_type == t.wm_protocols && format == 32 && data0 == t.wm_delete_window),
{
    msg_type == t.wm_protocols && format == 32 && data0 == t.wm_delete_window
}

/// How many atoms the connection interns at startup, in the fixed order
/// of the [`AtomTable`] fields.
pub const ATOM_COUNT: usize = 18;

/// Build the atom table from the interning replies, given in the fixed
/// field order. Any name the server could not intern makes the whole
/// connection unusable, so the table only exists when every reply came.
pub fn intern_atoms(replies: &Vec<Option<u32>>) -> (r: Option<AtomTable>)
    requires
        replies@.len() == ATOM_COUNT,
    ensures
        (r is Some) == (forall|i: int| 0 <= i < ATOM_COUNT ==> replies@[i] is Some),
        r matches Some(t) ==> {
            &&& Some(t.wm_protocols) == replies@[0]
            &&& Some(t.wm_delete_window) == replies@[1]
            &&& Some(t.wm_change_state) == replies@[2]
            &&& Some(t.wm_state) == replies@[3]
            &&& Some(t.net_wm_state) == replies@[4]
            &&& Some(t.modal) == replies@[5]
            &&& Some(t.sticky) == replies@[6]
            &&& Some(t.maximized_vert) == replies@[7]
            &&& Some(t.maximized_horz) == replies@[8]
            &&& Some(t.shaded) == replies@[9]
            &&& Some(t.skip_taskbar) == replies@[10]
            &&& Some(t.skip_pager) == replies@[11]
            &&& Some(t.hidden) == replies@[12]
            &&& Some(t.fullscreen) == replies@[13]
            &&& Some(t.above) == replies@[14]
            &&& Some(t.below) == replies@[15]
            &&& Some(t.demands_attention) == replies@[16]
            &&& Some(t.focused) == replies@[17]
        },
{
    let n = replies.len();
    let mut i: usize = 0;
    while i < n
        invariant
            n == replies@.len(),
            replies@.len() == ATOM_COUNT,
            0 <= i <= n,
            forall|j: int| 0 <= j < i ==> replies@[j] is Some,
        decreases n - i,
    {
        if replies[i].is_none() {
            return None;
        }
        i = i + 1;
    }
    Some(
        AtomTable {
            wm_protocols: replies[0].unwrap(),
            wm_delete_window: replies[1].unwrap(),
            wm_change_state: replies[2].unwrap(),
            wm_state: replies[3].unwrap(),
            net_wm_state: replies[4].unwrap(),
            modal: replies[5].unwrap(),
            sticky: replies[6].unwrap(),
            maximized_vert: replies[7].unwrap(),
            maximized_horz: replies[8].unwrap(),
            shaded: replies[9].unwrap(),
            skip_taskbar: replies[10].unwrap(),
            skip_pager: replies[11].unwrap(),
            hidden: replies[12].unwrap(),
            fullscreen: replies[13].unwrap(),
            above: replies[14].unwrap(),
            below: replies[15].unwrap(),
            demands_attention: replies[16].unwrap(),
            focused: replies[17].unwrap(),
        },
    )
}

/// The centered placement of a freshly created window on its screen. The
/// window must fit the screen, so both offsets are plain halves.
pub fn centered_position(screen: ISize, size: ISize) -> (p: IPoint)
    requires
        0 <= size.w <= screen.w,
        0 <= size.h <= screen.h,
    ensures
        p.x == (screen.w - size.w) / 2,
        p.y == (screen.h - size.h) / 2,
{
    IPoint { x: (screen.w - size.w) / 2, y: (screen.h - size.h) / 2 }
}

} // verus!
