use softbuffer::error::SoftBufferError;
use softbuffer::rect::Rect;
use softbuffer::web::total_len;
use softbuffer::web::CanvasLookup;
use softbuffer::web::WebDisplayImpl;
use softbuffer::web::WebImpl;

fn display() -> WebDisplayImpl {
    WebDisplayImpl::new(true, true).expect("both window and document are present")
}

fn surface() -> WebImpl {
    WebImpl::new(&display(), CanvasLookup::Acquired).expect("the 2D context was acquired")
}

#[test]
fn bind_starts_empty() {
    let surf = surface();
    assert_eq!(surf.width(), 0);
    assert_eq!(surf.height(), 0);
    let buf = surf.buffer_mut();
    assert_eq!(buf.pixels().len(), 0);
    assert_eq!(buf.age(), 0);
}

#[test]
fn resize_allocates_zeroed_buffer() {
    let mut surf = surface();
    surf.resize(4, 3).unwrap();
    assert_eq!(surf.width(), 4);
    assert_eq!(surf.height(), 3);
    let buf = surf.buffer_mut();
    assert_eq!(buf.pixels().len(), 12);
    assert!(buf.pixels().iter().all(|p| *p == 0));
    assert_eq!(buf.age(), 0);
}

#[test]
fn resize_same_dims_is_noop() {
    let mut surf = surface();
    surf.resize(4, 3).unwrap();
    let mut buf = surf.buffer_mut();
    buf.pixels_mut()[7] = 0xABCDEF;
    let (mut surf, res) = buf.present();
    res.unwrap();
    surf.resize(4, 3).unwrap();
    let buf = surf.buffer_mut();
    assert_eq!(buf.pixels()[7], 0xABCDEF);
    assert_eq!(buf.age(), 1);
}

#[test]
fn present_sets_age_until_resize() {
    let mut surf = surface();
    surf.resize(4, 3).unwrap();
    let buf = surf.buffer_mut();
    assert_eq!(buf.age(), 0);
    let (mut surf, res) = buf.present();
    res.unwrap();
    let mut buf = surf.buffer_mut();
    assert_eq!(buf.age(), 1);
    buf.pixels_mut()[0] = 0x123456;
    assert_eq!(buf.age(), 1, "pixel writes keep the previous frame available");
    surf = buf.into_surface();
    surf.resize(5, 3).unwrap();
    let buf = surf.buffer_mut();
    assert_eq!(buf.age(), 0, "a real resize makes the contents never-presented");
}

#[test]
fn present_emits_written_pixel() {
    let mut surf = surface();
    surf.resize(4, 3).unwrap();
    let mut buf = surf.buffer_mut();
    buf.pixels_mut()[5] = 0x00FF8040;
    let (_surf, res) = buf.present();
    let frame = res.unwrap();
    assert_eq!(&frame.bytes[20..24], &[0xFF, 0x80, 0x40, 255]);
}

#[test]
fn present_full_surface_rect() {
    let mut surf = surface();
    surf.resize(4, 3).unwrap();
    let buf = surf.buffer_mut();
    let (_surf, res) = buf.present();
    let frame = res.unwrap();
    assert_eq!(frame.paints.len(), 1, "a plain present paints exactly once");
    assert_eq!(frame.paints[0], Rect { x: 0, y: 0, width: 4, height: 3 });
    assert_eq!(frame.width, 4);
    assert_eq!(frame.height, 3);
    assert_eq!(frame.bytes.len(), 48);
}

#[test]
fn damage_rects_painted_in_order() {
    let mut surf = surface();
    surf.resize(8, 8).unwrap();
    let buf = surf.buffer_mut();
    let damage = [
        Rect { x: 0, y: 0, width: 2, height: 2 },
        Rect { x: 5, y: 6, width: 3, height: 1 },
    ];
    let (surf, frame) = buf.present_with_damage(&damage);
    assert_eq!(frame.paints.len(), 2, "one paint call per damage rectangle");
    assert_eq!(frame.paints[0], damage[0]);
    assert_eq!(frame.paints[1], damage[1]);
    assert_eq!(frame.bytes.len(), 4 * 64, "one shared conversion of the whole buffer");
    let buf = surf.buffer_mut();
    assert_eq!(buf.age(), 1);
}

#[test]
fn empty_damage_presents_nothing_but_marks_presented() {
    let mut surf = surface();
    surf.resize(2, 2).unwrap();
    let buf = surf.buffer_mut();
    let (surf, frame) = buf.present_with_damage(&[]);
    assert_eq!(frame.paints.len(), 0);
    assert_eq!(frame.bytes.len(), 16, "the conversion still covers the full buffer");
    assert_eq!(surf.buffer_mut().age(), 1);
}

#[test]
fn missing_canvas_reports_target_not_found() {
    let err = WebImpl::new(&display(), CanvasLookup::NoMatchingCanvas).unwrap_err();
    assert_eq!(err, SoftBufferError::TargetNotFound);
}

#[test]
fn claimed_context_reports_context_already_owned() {
    let err = WebImpl::new(&display(), CanvasLookup::ContextUnavailable).unwrap_err();
    assert_eq!(err, SoftBufferError::ContextAlreadyOwned);
}

#[test]
fn foreign_context_reports_unexpected_context_type() {
    let err = WebImpl::new(&display(), CanvasLookup::WrongContextType).unwrap_err();
    assert_eq!(err, SoftBufferError::UnexpectedContextType);
}

#[test]
fn missing_window_reports_platform_unavailable() {
    let err = WebDisplayImpl::new(false, false).unwrap_err();
    assert_eq!(err, SoftBufferError::PlatformUnavailable);
}

#[test]
fn missing_document_reports_platform_unavailable() {
    let err = WebDisplayImpl::new(true, false).unwrap_err();
    assert_eq!(err, SoftBufferError::PlatformUnavailable);
}

#[test]
fn zero_width_resize_rejected() {
    let mut surf = surface();
    let err = surf.resize(0, 5).unwrap_err();
    assert_eq!(err, SoftBufferError::SizeOutOfRange { width: 0, height: 5 });
    assert_eq!(surf.buffer_mut().pixels().len(), 0, "the rejected resize left no buffer behind");
}

#[test]
fn zero_height_resize_rejected() {
    let mut surf = surface();
    surf.resize(2, 2).unwrap();
    let err = surf.resize(7, 0).unwrap_err();
    assert_eq!(err, SoftBufferError::SizeOutOfRange { width: 7, height: 0 });
    assert_eq!(surf.width(), 2);
    assert_eq!(surf.height(), 2);
}

#[test]
fn alpha_always_opaque() {
    let mut surf = surface();
    surf.resize(1, 1).unwrap();
    let mut buf = surf.buffer_mut();
    buf.pixels_mut()[0] = 0xFF123456;
    let (_surf, res) = buf.present();
    let frame = res.unwrap();
    assert_eq!(
        frame.bytes,
        vec![0x12, 0x34, 0x56, 255],
        "bits outside the colour channels never reach the image"
    );
}

#[test]
fn discarded_handle_keeps_writes() {
    let mut surf = surface();
    surf.resize(2, 2).unwrap();
    let mut buf = surf.buffer_mut();
    buf.pixels_mut()[3] = 0x777777;
    let surf = buf.into_surface();
    let buf = surf.buffer_mut();
    assert_eq!(buf.pixels()[3], 0x777777);
    assert_eq!(buf.age(), 0, "discarding the handle presents nothing");
}

#[test]
fn resize_keeps_existing_pixels() {
    let mut surf = surface();
    surf.resize(2, 2).unwrap();
    let mut buf = surf.buffer_mut();
    for (i, p) in buf.pixels_mut().iter_mut().enumerate() {
        *p = i as u32 + 1;
    }
    let mut surf = buf.into_surface();
    surf.resize(3, 2).unwrap();
    let buf = surf.buffer_mut();
    assert_eq!(buf.pixels(), &vec![1, 2, 3, 4, 0, 0]);
}

#[test]
fn resize_shrinks_buffer() {
    let mut surf = surface();
    surf.resize(4, 3).unwrap();
    let mut buf = surf.buffer_mut();
    buf.pixels_mut()[0] = 9;
    let mut surf = buf.into_surface();
    surf.resize(2, 2).unwrap();
    let buf = surf.buffer_mut();
    assert_eq!(buf.pixels().len(), 4);
    assert_eq!(buf.pixels()[0], 9);
}

#[test]
fn total_len_matches_product() {
    assert_eq!(total_len(4, 3), 12);
    assert_eq!(total_len(1, 1), 1);
    assert_eq!(total_len(4096, 2160), 8847360);
}
