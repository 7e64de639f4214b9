use ows::display::{seat_caps_actions, Display, HandshakeInfo, OpenError, PtrEvent};
use ows::geometry::{IPoint, IRect, ISize, Size};
use ows::key::{Code, Mods, Sym};
use ows::mouse::{But, Buts, BUTS_LEFT};
use ows::shared::MouseMsg;
use ows::window::{Event, NativeCmd, State, WinMsg, Window};

fn open_display() -> Display {
    Display::open(HandshakeInfo { connected: true, compositor: true, shell: true }).unwrap()
}

fn shown_window(d: &mut Display) -> Window {
    let mut w = d.create_window();
    w.show(State::Normal(None));
    w
}

#[test]
fn open_reports_each_failure() {
    assert_eq!(
        Display::open(HandshakeInfo { connected: false, compositor: false, shell: false }).err(),
        Some(OpenError::NoServer)
    );
    assert_eq!(
        Display::open(HandshakeInfo { connected: true, compositor: false, shell: true }).err(),
        Some(OpenError::MissingExtension)
    );
    assert_eq!(
        Display::open(HandshakeInfo { connected: true, compositor: true, shell: false }).err(),
        Some(OpenError::MissingExtension)
    );
    assert!(Display::open(HandshakeInfo { connected: true, compositor: true, shell: true }).is_ok());
}

#[test]
fn resize_run_compresses_to_one_event() {
    let mut d = open_display();
    let mut w = shown_window(&mut d);
    // a run of distinct non-zero sizes, with a key press in between
    let msgs = vec![
        WinMsg::Configure(ISize::new(100, 100)),
        WinMsg::CloseReq,
        WinMsg::Configure(ISize::new(200, 150)),
        WinMsg::Configure(ISize::new(300, 200)),
    ];
    w.dispatch(&msgs);
    let evs = w.retrieve_events();
    assert_eq!(evs.len(), 2);
    // the one resize sits where the first of the run arrived, with the
    // last size as its payload
    assert_eq!(evs[0], Event::Resize(ISize::new(300, 200)));
    assert_eq!(evs[1], Event::Close);
}

#[test]
fn drain_starts_a_fresh_compression_period() {
    let mut d = open_display();
    let mut w = shown_window(&mut d);
    w.dispatch(&vec![WinMsg::Configure(ISize::new(100, 100))]);
    assert_eq!(w.retrieve_events().len(), 1);
    assert_eq!(w.retrieve_events().len(), 0);
    w.dispatch(&vec![WinMsg::Configure(ISize::new(200, 100))]);
    let evs = w.retrieve_events();
    assert_eq!(evs, vec![Event::Resize(ISize::new(200, 100))]);
}

#[test]
fn zero_sized_configure_is_suppressed() {
    let mut d = open_display();
    let mut w = shown_window(&mut d);
    w.dispatch(&vec![
        WinMsg::Configure(ISize::new(0, 100)),
        WinMsg::Configure(ISize::new(100, 0)),
        WinMsg::Configure(ISize::new(0, 0)),
    ]);
    assert!(w.retrieve_events().is_empty());
}

#[test]
fn unchanged_size_yields_no_resize() {
    let mut d = open_display();
    let mut w = shown_window(&mut d);
    w.dispatch(&vec![WinMsg::Configure(ISize::new(100, 100))]);
    w.retrieve_events();
    w.dispatch(&vec![WinMsg::Configure(ISize::new(100, 100))]);
    assert!(w.retrieve_events().is_empty());
}

#[test]
fn state_event_only_on_change() {
    let mut d = open_display();
    let mut w = shown_window(&mut d);
    w.dispatch(&vec![
        WinMsg::StateChanged(State::Maximized),
        WinMsg::StateChanged(State::Maximized),
        WinMsg::StateChanged(State::Minimized),
    ]);
    let evs = w.retrieve_events();
    assert_eq!(
        evs,
        vec![Event::State(State::Maximized), Event::State(State::Minimized)]
    );
}

#[test]
fn every_close_request_is_delivered() {
    let mut d = open_display();
    let mut w = shown_window(&mut d);
    w.dispatch(&vec![WinMsg::CloseReq, WinMsg::CloseReq]);
    assert_eq!(w.retrieve_events(), vec![Event::Close, Event::Close]);
}

#[test]
fn mouse_moves_compress_and_enter_comes_first() {
    let mut d = open_display();
    let mut w = shown_window(&mut d);
    let mods = Mods::empty();
    let no_buts = Buts::empty();
    let cmds = w.dispatch(&vec![
        WinMsg::Mouse(MouseMsg::Move, IPoint::new(1, 1)),
        WinMsg::Mouse(MouseMsg::Move, IPoint::new(2, 2)),
        WinMsg::Mouse(MouseMsg::Down(But::Left), IPoint::new(2, 2)),
        WinMsg::Mouse(MouseMsg::Move, IPoint::new(3, 3)),
    ]);
    // the pointer entered: the adapter asks to be told when it leaves
    assert_eq!(cmds, vec![NativeCmd::TrackPointer]);
    let evs = w.retrieve_events();
    let held = Buts { bits: BUTS_LEFT };
    assert_eq!(
        evs,
        vec![
            Event::MouseEnter(IPoint::new(1, 1), no_buts, mods),
            Event::MouseMove(IPoint::new(3, 3), held, mods),
            Event::MouseDown(IPoint::new(2, 2), But::Left, held, mods),
        ]
    );
}

#[test]
fn mouse_leave_reports_last_position() {
    let mut d = open_display();
    let mut w = shown_window(&mut d);
    w.dispatch(&vec![
        WinMsg::Mouse(MouseMsg::Move, IPoint::new(5, 6)),
        WinMsg::Mouse(MouseMsg::Leave, IPoint::new(0, 0)),
    ]);
    let evs = w.retrieve_events();
    assert_eq!(evs.len(), 3);
    assert_eq!(
        evs[2],
        Event::MouseLeave(IPoint::new(5, 6), Buts::empty(), Mods::empty())
    );
}

#[test]
fn key_down_drains_its_repeat_text() {
    let mut d = open_display();
    let mut w = shown_window(&mut d);
    let mods = Mods::empty();
    // vkey 0x41 is the letter key, scancode 30 its physical position
    w.dispatch(&vec![
        WinMsg::KeyDown { vkey: 0x41, scancode: 30, mods },
        WinMsg::Char { ch: 'a', repeat: 3 },
        WinMsg::KeyUp { vkey: 0x41, scancode: 30, mods },
    ]);
    let evs = w.retrieve_events();
    assert_eq!(
        evs,
        vec![
            Event::KeyDown(Sym::A, Code::A, mods, "aaa".to_string()),
            Event::KeyUp(Sym::A, Code::A, mods),
        ]
    );
}

#[test]
fn stray_char_is_dropped() {
    let mut d = open_display();
    let mut w = shown_window(&mut d);
    w.dispatch(&vec![WinMsg::Char { ch: 'x', repeat: 2 }]);
    assert!(w.retrieve_events().is_empty());
}

#[test]
fn key_down_without_char_has_empty_text() {
    let mut d = open_display();
    let mut w = shown_window(&mut d);
    let mods = Mods::empty();
    w.dispatch(&vec![
        WinMsg::KeyDown { vkey: 0x1B, scancode: 1, mods },
        WinMsg::KeyUp { vkey: 0x1B, scancode: 1, mods },
    ]);
    let evs = w.retrieve_events();
    assert_eq!(
        evs,
        vec![
            Event::KeyDown(Sym::Escape, Code::Escape, mods, String::new()),
            Event::KeyUp(Sym::Escape, Code::Escape, mods),
        ]
    );
}

#[test]
fn first_show_creates_then_shows() {
    let mut d = open_display();
    let mut w = d.create_window();
    let cmds = w.show(State::Normal(Some(Size::new(640, 480))));
    assert_eq!(
        cmds,
        vec![
            NativeCmd::Create {
                state: State::Normal(Some(Size::new(640, 480))),
                size: Some(Size::new(640, 480)),
            },
            NativeCmd::ShowNormal,
        ]
    );
}

#[test]
fn show_is_idempotent() {
    let mut d = open_display();
    let mut w = d.create_window();
    w.show(State::Normal(None));
    let again = w.show(State::Normal(None));
    assert!(again.is_empty());
    assert_eq!(w.state(), State::Normal(None));
}

#[test]
fn fullscreen_round_trip_restores_rect() {
    let mut d = open_display();
    let mut w = d.create_window();
    w.show(State::Normal(Some(Size::new(800, 600))));
    w.dispatch(&vec![WinMsg::Configure(ISize::new(800, 600))]);
    let enter = w.show(State::Fullscreen);
    assert_eq!(enter, vec![NativeCmd::EnterFullscreen]);
    let leave = w.show(State::Normal(None));
    assert_eq!(
        leave,
        vec![
            NativeCmd::LeaveFullscreen(IRect::new(0, 0, 800, 600)),
            NativeCmd::ShowNormal,
        ]
    );
}

#[test]
fn close_is_terminal() {
    let mut d = open_display();
    let mut w = shown_window(&mut d);
    let cmds = w.close();
    assert_eq!(cmds, vec![NativeCmd::Destroy]);
    assert!(w.show(State::Maximized).is_empty());
    assert!(w.set_title("late".to_string()).is_none());
    assert!(w.close().is_empty());
}

#[test]
fn tokens_are_stable_and_unique() {
    let mut d = open_display();
    let mut w1 = d.create_window();
    let mut w2 = d.create_window();
    w1.show(State::Normal(None));
    w2.show(State::Normal(None));
    assert_eq!(w1.token(), w1.token());
    assert_ne!(w1.token(), w2.token());
}

#[test]
fn set_title_updates_only_created_windows() {
    let mut d = open_display();
    let mut w = d.create_window();
    assert_eq!(w.set_title("before".to_string()), None);
    assert_eq!(w.title(), "before");
    w.show(State::Normal(None));
    assert_eq!(
        w.set_title("after".to_string()),
        Some(NativeCmd::UpdateTitle)
    );
    assert_eq!(w.title(), "after");
}

#[test]
fn surface_params_carry_token_and_size() {
    let mut d = open_display();
    let mut w = shown_window(&mut d);
    w.dispatch(&vec![WinMsg::Configure(ISize::new(320, 200))]);
    let sp = w.create_surface();
    assert_eq!(sp.token, w.token());
    assert_eq!(sp.size, ISize::new(320, 200));
}

#[test]
fn pointer_routing_tracks_one_entered_window() {
    let mut d = open_display();
    let mut w1 = shown_window(&mut d);
    let w2 = shown_window(&mut d);
    let t1 = w1.token();
    let t2 = w2.token();
    // motion before any enter is dropped; after an enter it goes to the
    // entered window; an unknown button code is dropped silently
    let out = d.collect_events(&vec![
        PtrEvent::Motion { pos: IPoint::new(9, 9) },
        PtrEvent::Enter { token: t1, pos: IPoint::new(1, 1) },
        PtrEvent::Motion { pos: IPoint::new(2, 2) },
        PtrEvent::Button { code: 0x110, pressed: true },
        PtrEvent::Button { code: 0x999, pressed: true },
        PtrEvent::Leave { token: t1 },
        PtrEvent::Motion { pos: IPoint::new(7, 7) },
    ]);
    assert_eq!(
        out,
        vec![
            (t1, WinMsg::Mouse(MouseMsg::Move, IPoint::new(1, 1))),
            (t1, WinMsg::Mouse(MouseMsg::Move, IPoint::new(2, 2))),
            (t1, WinMsg::Mouse(MouseMsg::Down(But::Left), IPoint::new(2, 2))),
            (t1, WinMsg::Mouse(MouseMsg::Leave, IPoint::new(2, 2))),
        ]
    );
    assert_ne!(t1, t2);
    for (tok, msg) in out {
        if tok == t1 {
            w1.dispatch(&vec![msg]);
        }
    }
    let evs = w1.retrieve_events();
    assert_eq!(evs.len(), 4);
    assert!(matches!(evs[0], Event::MouseEnter(..)));
}

#[test]
fn seat_capabilities_bind_and_release() {
    let r = seat_caps_actions(true, true, false, false);
    assert!(r.get_pointer && r.get_keyboard && !r.release_pointer);
    let r = seat_caps_actions(true, true, true, true);
    assert!(!r.get_pointer && !r.get_keyboard && !r.release_pointer);
    let r = seat_caps_actions(false, false, true, false);
    assert!(r.release_pointer && !r.get_pointer && !r.get_keyboard);
}
