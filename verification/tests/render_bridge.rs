use ows::geometry::{IRect, ISize};
use ows::render::{
    AcquireOutcome, AdapterInfo, Color, CompositeAlpha, Frame, ImageData, Mailbox, Msg,
    PresentOutcome, RenderAction, Renderer, SurfaceCaps, SurfaceFormat, WindowInfo,
    RGBA8_UNORM,
};
use ows::render::{build_swapchain_config, find_surf_comp_alpha, find_surf_format, pick_adapter};
use ows::window::Token;

fn info(id: u64) -> WindowInfo {
    WindowInfo { token: Token::new(id), size: ISize::new(640, 480), surface: 100 + id }
}

fn images() -> Vec<ImageData> {
    vec![ImageData::new(1, 11, 21), ImageData::new(2, 12, 22)]
}

#[test]
fn channel_back_pressure() {
    let mut mb = Mailbox::new();
    let f1 = Frame::new(Token::new(1), IRect::new(0, 0, 10, 10), None);
    let f2 = Frame::new(Token::new(1), IRect::new(0, 0, 20, 20), None);
    assert!(mb.try_send(Msg::Frame(f1)));
    // the second frame cannot go through before the first was consumed
    assert!(!mb.try_send(Msg::Frame(f2)));
    assert_eq!(mb.recv(), Some(Msg::Frame(f1)));
    assert!(mb.try_send(Msg::Frame(f2)));
    assert_eq!(mb.recv(), Some(Msg::Frame(f2)));
    assert_eq!(mb.recv(), None);
}

#[test]
fn frame_decides_the_gpu_sequence() {
    let mut r = Renderer::new();
    r.window_add(info(1), images());
    let frame = Frame::new(
        Token::new(1),
        IRect::new(0, 0, 640, 480),
        Some(Color { r: 204, g: 127, b: 153, a: 255 }),
    );
    let acts = r.frame(frame, AcquireOutcome::Image(1));
    assert_eq!(
        acts,
        vec![
            RenderAction::WaitFence(22),
            RenderAction::ResetFence(22),
            RenderAction::RecordClear { cmd: 12, color: Color { r: 204, g: 127, b: 153, a: 255 } },
            RenderAction::Submit { cmd: 12, fence: 22 },
            RenderAction::Present { image_index: 1 },
        ]
    );
}

#[test]
fn frame_without_clear_records_empty() {
    let mut r = Renderer::new();
    r.window_add(info(1), images());
    let frame = Frame::new(Token::new(1), IRect::new(0, 0, 640, 480), None);
    let acts = r.frame(frame, AcquireOutcome::Image(0));
    assert_eq!(acts[2], RenderAction::RecordEmpty { cmd: 11 });
}

#[test]
fn out_of_date_flags_rebuild_and_skips_the_frame() {
    let mut r = Renderer::new();
    r.window_add(info(1), images());
    let frame = Frame::new(Token::new(1), IRect::new(0, 0, 640, 480), None);
    let acts = r.frame(frame, AcquireOutcome::OutOfDate);
    assert!(acts.is_empty());
    let w = r.window_remove(Token::new(1)).unwrap();
    assert!(w.must_rebuild);
}

#[test]
fn present_out_of_date_flags_rebuild() {
    let mut r = Renderer::new();
    r.window_add(info(1), images());
    r.present_result(Token::new(1), PresentOutcome::Presented);
    let frame = Frame::new(Token::new(1), IRect::new(0, 0, 640, 480), None);
    r.frame(frame, AcquireOutcome::Image(0));
    r.present_result(Token::new(1), PresentOutcome::OutOfDate);
    let w = r.window_remove(Token::new(1)).unwrap();
    assert!(w.must_rebuild);
}

#[test]
fn window_close_releases_exactly_that_window() {
    let mut r = Renderer::new();
    r.window_add(info(1), images());
    r.window_add(info(2), images());
    assert_eq!(r.window_count(), 2);
    let gone = r.window_remove(Token::new(1)).unwrap();
    assert_eq!(gone.info.token, Token::new(1));
    assert_eq!(r.window_count(), 1);
    assert!(r.window_remove(Token::new(1)).is_none());
    assert_eq!(r.window_count(), 1);
}

#[test]
fn surface_format_preference_order() {
    let preferred = SurfaceFormat { code: RGBA8_UNORM, unorm: true };
    let other_unorm = SurfaceFormat { code: 44, unorm: true };
    let plain = SurfaceFormat { code: 50, unorm: false };
    assert_eq!(find_surf_format(None), preferred);
    assert_eq!(
        find_surf_format(Some(&vec![plain, other_unorm, preferred])),
        preferred
    );
    assert_eq!(find_surf_format(Some(&vec![plain, other_unorm])), other_unorm);
    assert_eq!(find_surf_format(Some(&vec![plain])), plain);
}

#[test]
fn composite_alpha_preference_order() {
    assert_eq!(
        find_surf_comp_alpha(&vec![CompositeAlpha::Opaque, CompositeAlpha::PreMultiplied]),
        CompositeAlpha::PreMultiplied
    );
    assert_eq!(
        find_surf_comp_alpha(&vec![CompositeAlpha::Opaque, CompositeAlpha::Inherit]),
        CompositeAlpha::Inherit
    );
    assert_eq!(
        find_surf_comp_alpha(&vec![CompositeAlpha::Opaque]),
        CompositeAlpha::Opaque
    );
}

#[test]
fn swapchain_config_is_at_least_double_buffered() {
    let caps = SurfaceCaps { min_image_count: 1, usage_ok: true, fifo_supported: true };
    let alphas = vec![CompositeAlpha::Opaque];
    let cfg = build_swapchain_config(caps, None, &alphas, ISize::new(640, 480));
    assert_eq!(cfg.image_count, 2);
    assert_eq!(cfg.size, ISize::new(640, 480));
    assert_eq!(cfg.format, SurfaceFormat { code: RGBA8_UNORM, unorm: true });
    assert_eq!(cfg.composite_alpha, CompositeAlpha::Opaque);

    let caps3 = SurfaceCaps { min_image_count: 3, usage_ok: true, fifo_supported: true };
    let cfg3 = build_swapchain_config(caps3, None, &alphas, ISize::new(640, 480));
    assert_eq!(cfg3.image_count, 3);
}

#[test]
fn first_fitting_adapter_wins() {
    let bad = AdapterInfo {
        supports_graphics: true,
        supports_transfer: false,
        all_surfaces_compatible: true,
    };
    let good = AdapterInfo {
        supports_graphics: true,
        supports_transfer: true,
        all_surfaces_compatible: true,
    };
    assert_eq!(pick_adapter(&vec![bad, good, good]), Some(1));
    assert_eq!(pick_adapter(&vec![bad]), None);
    assert_eq!(pick_adapter(&vec![]), None);
}
