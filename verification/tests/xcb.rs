use ows::geometry::{IPoint, ISize};
use ows::window::State;
use ows::xcb_state::{
    centered_position, get_wm_states, intern_atoms, is_delete_request, state_from_props,
    update_state_cmds, AtomTable,
    PropertyReply, XcbCmd, ATOM_ATOM, ICCCM_WM_STATE_ICONIC, ICCCM_WM_STATE_NORMAL,
    ICCCM_WM_STATE_WITHDRAWN, NET_WM_STATE_ABOVE, NET_WM_STATE_FULLSCREEN,
    NET_WM_STATE_MAXIMIZED, NET_WM_STATE_MAXIMIZED_HORZ, NET_WM_STATE_NONE,
};

fn atoms() -> AtomTable {
    AtomTable {
        wm_protocols: 310,
        wm_delete_window: 311,
        wm_change_state: 312,
        wm_state: 313,
        net_wm_state: 314,
        modal: 401,
        sticky: 402,
        maximized_vert: 403,
        maximized_horz: 404,
        shaded: 405,
        skip_taskbar: 406,
        skip_pager: 407,
        hidden: 408,
        fullscreen: 409,
        above: 410,
        below: 411,
        demands_attention: 412,
        focused: 413,
    }
}

#[test]
fn wm_states_fold_the_reported_atoms() {
    let t = atoms();
    let reply = PropertyReply { format: 32, type_atom: ATOM_ATOM, values: vec![409, 410, 999] };
    assert_eq!(
        get_wm_states(&t, Some(&reply)),
        NET_WM_STATE_FULLSCREEN | NET_WM_STATE_ABOVE
    );
    let bad = PropertyReply { format: 8, type_atom: ATOM_ATOM, values: vec![409] };
    assert_eq!(get_wm_states(&t, Some(&bad)), NET_WM_STATE_NONE);
    assert_eq!(get_wm_states(&t, None), NET_WM_STATE_NONE);
}

fn wm_state_reply(t: &AtomTable, value: u32) -> PropertyReply {
    PropertyReply { format: 32, type_atom: t.wm_state, values: vec![value] }
}

#[test]
fn state_judgement_prefers_iconic_then_fullscreen() {
    let t = atoms();
    let iconic = wm_state_reply(&t, ICCCM_WM_STATE_ICONIC);
    let withdrawn = wm_state_reply(&t, ICCCM_WM_STATE_WITHDRAWN);
    let normal = wm_state_reply(&t, ICCCM_WM_STATE_NORMAL);
    assert_eq!(
        state_from_props(&t, Some(&iconic), NET_WM_STATE_FULLSCREEN),
        Some(State::Minimized)
    );
    assert_eq!(state_from_props(&t, Some(&withdrawn), 0), None);
    assert_eq!(
        state_from_props(&t, Some(&normal), NET_WM_STATE_FULLSCREEN),
        Some(State::Fullscreen)
    );
    assert_eq!(
        state_from_props(&t, Some(&normal), NET_WM_STATE_MAXIMIZED),
        Some(State::Maximized)
    );
    // one maximized bit alone is not maximized
    assert_eq!(
        state_from_props(&t, Some(&normal), NET_WM_STATE_MAXIMIZED_HORZ),
        Some(State::Normal(None))
    );
    assert_eq!(state_from_props(&t, None, 0), Some(State::Normal(None)));
}

#[test]
fn state_updates_undo_then_request() {
    let t = atoms();
    assert!(update_state_cmds(&t, Some(State::Maximized), Some(State::Maximized)).is_empty());
    assert_eq!(
        update_state_cmds(&t, Some(State::Normal(None)), Some(State::Fullscreen)),
        vec![XcbCmd::SetWmState { on: true, atom1: t.fullscreen, atom2: 0 }]
    );
    assert_eq!(
        update_state_cmds(&t, Some(State::Fullscreen), Some(State::Maximized)),
        vec![
            XcbCmd::SetWmState { on: false, atom1: t.fullscreen, atom2: 0 },
            XcbCmd::SetWmState { on: true, atom1: t.maximized_horz, atom2: t.maximized_vert },
        ]
    );
    assert_eq!(
        update_state_cmds(&t, Some(State::Minimized), Some(State::Normal(None))),
        vec![XcbCmd::MapWindow]
    );
    assert_eq!(
        update_state_cmds(&t, None, Some(State::Minimized)),
        vec![
            XcbCmd::MapWindow,
            XcbCmd::ChangeState { value: ICCCM_WM_STATE_ICONIC },
        ]
    );
    assert_eq!(
        update_state_cmds(&t, Some(State::Normal(None)), None),
        vec![XcbCmd::UnmapWindow]
    );
}

#[test]
fn delete_request_needs_protocol_format_and_atom() {
    let t = atoms();
    assert!(is_delete_request(&t, t.wm_protocols, 32, t.wm_delete_window));
    assert!(!is_delete_request(&t, t.wm_protocols, 8, t.wm_delete_window));
    assert!(!is_delete_request(&t, t.net_wm_state, 32, t.wm_delete_window));
    assert!(!is_delete_request(&t, t.wm_protocols, 32, t.wm_change_state));
}

#[test]
fn atom_interning_needs_every_name() {
    let mut replies: Vec<Option<u32>> = (0..18).map(|i| Some(300 + i as u32)).collect();
    let t = intern_atoms(&replies).unwrap();
    assert_eq!(t.wm_protocols, 300);
    assert_eq!(t.wm_state, 303);
    assert_eq!(t.focused, 317);
    replies[7] = None;
    assert!(intern_atoms(&replies).is_none());
}

#[test]
fn new_windows_are_centered() {
    let p = centered_position(ISize::new(1920, 1080), ISize::new(640, 480));
    assert_eq!(p, IPoint::new(640, 300));
}
