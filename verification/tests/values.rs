use ows::geometry::{IMargins, IPoint, IRect, ISize, Margins, Point, Rect, Size};
use ows::key::{
    mods_from_keys, Code, Mods, Sym, MODS_ALT, MODS_CTRL, MODS_LEFT_ALT, MODS_LEFT_CTRL,
    MODS_LEFT_SHIFT, MODS_RIGHT_CTRL, MODS_RIGHT_SHIFT, MODS_SHIFT, MODS_SUPER,
};
use ows::keymap::{code, sym};
use ows::mouse::{But, Buts, BUTS_LEFT, BUTS_MIDDLE, BUTS_RIGHT};
use ows::win32_rect::{client_rect, WinRect};

#[test]
fn geometry_constructors() {
    let p: IPoint = Point::new(3, 4);
    assert_eq!((p.x, p.y), (3, 4));
    let s: ISize = Size::new(10, 20);
    assert_eq!((s.w, s.h), (10, 20));
    let r: IRect = Rect::new(1, 2, 30, 40);
    assert_eq!((r.x, r.y, r.w, r.h), (1, 2, 30, 40));
    assert_eq!(Rect::new_s(1, 2, s), Rect::new(1, 2, 10, 20));
    assert_eq!(Rect::new_p(p, 30, 40), Rect::new(3, 4, 30, 40));
    assert_eq!(Rect::new_ps(p, s), Rect::new(3, 4, 10, 20));
    assert_eq!(r.point(), Point::new(1, 2));
    assert_eq!(r.size(), Size::new(30, 40));
    let m: IMargins = Margins::new(1, 2, 3, 4);
    assert_eq!((m.l, m.r, m.t, m.b), (1, 2, 3, 4));
}

#[test]
fn button_mask_operations() {
    let mut b = Buts::empty();
    assert_eq!(b, Buts::default());
    b.insert(But::Left);
    b.insert(But::Right);
    assert!(b.contains(But::Left));
    assert!(!b.contains(But::Middle));
    assert_eq!(b.bits, BUTS_LEFT | BUTS_RIGHT);
    b.remove(But::Left);
    assert!(!b.contains(But::Left));
    b.insert(But::Middle);
    assert_eq!(b.bits, BUTS_MIDDLE | BUTS_RIGHT);
}

#[test]
fn modifier_mask_operations() {
    let mut m = Mods::empty();
    assert_eq!(m, Mods::default());
    m.insert(MODS_LEFT_CTRL);
    assert!(m.intersects(MODS_CTRL));
    assert!(!m.intersects(MODS_RIGHT_CTRL));
    assert!(!m.intersects(MODS_LEFT_SHIFT));
    m.remove(MODS_LEFT_CTRL);
    assert_eq!(m.bits, 0);
    assert_eq!(Mods::from_bits(MODS_CTRL).bits, MODS_CTRL);
}

#[test]
fn keymap_translates_known_keys() {
    // scancodes, by physical position
    assert_eq!(code(1), Code::Escape);
    assert_eq!(code(30), Code::A);
    assert_eq!(code(57), Code::Space);
    assert_eq!(code(200), Code::Unknown);
    // native virtual keys
    assert_eq!(sym(0x1B), Sym::Escape);
    assert_eq!(sym(0x41), Sym::A);
    assert_eq!(sym(0x20), Sym::Space);
    assert_eq!(sym(0x07), Sym::Unknown);
}

#[test]
fn modifier_snapshot_folds_into_mask() {
    let m = mods_from_keys(false, false, true, true, true, false, false, false);
    assert_eq!(m.bits, MODS_LEFT_ALT | MODS_SUPER | MODS_RIGHT_SHIFT);
    assert!(m.intersects(MODS_ALT));
    assert!(m.intersects(MODS_SHIFT));
    // both logo keys land on the same bit
    let both = mods_from_keys(false, false, false, true, false, false, false, true);
    assert_eq!(both.bits, MODS_SUPER);
    assert_eq!(mods_from_keys(false, false, false, false, false, false, false, false).bits, 0);
}

#[test]
fn win32_rect_round_trip_and_frame_adjustment() {
    let r = Rect::new(10, 20, 300, 200);
    let wr = WinRect::from_rect(r);
    assert_eq!(wr, WinRect { left: 10, top: 20, right: 310, bottom: 220 });
    assert_eq!(wr.to_rect(), r);
    assert_eq!(wr.area(), 300 * 200);
    // the frame adjustment of an empty rectangle, backed off each edge
    let frame = WinRect { left: -3, top: -25, right: 3, bottom: 3 };
    let logical = client_rect(wr, frame);
    assert_eq!(logical, Rect::new(13, 45, 294, 172));
}
