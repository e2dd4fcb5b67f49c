use activity_capture::capture::capture_screen;
use activity_capture::compose::composite;
use activity_capture::encode::{encode_image, text_safe};
use activity_capture::error::CaptureError;
use activity_capture::frame::MonitorFrame;

fn solid(x: i32, y: i32, w: u32, h: u32, rgba: [u8; 4]) -> MonitorFrame {
    let mut px = Vec::with_capacity((w * h * 4) as usize);
    for _ in 0..(w * h) {
        px.extend_from_slice(&rgba);
    }
    MonitorFrame::new(x, y, w, h, px).unwrap()
}

fn set_pixel(f: &mut MonitorFrame, x: u32, y: u32, rgba: [u8; 4]) {
    let i = ((y * f.width + x) * 4) as usize;
    f.pixels[i..i + 4].copy_from_slice(&rgba);
}

fn pixel(data: &[u8], width: u32, x: u32, y: u32) -> [u8; 4] {
    let i = ((y * width + x) * 4) as usize;
    [data[i], data[i + 1], data[i + 2], data[i + 3]]
}

fn decode(text: &str) -> (u32, u32, Vec<u8>) {
    let bytes = base64::Engine::decode(&base64::engine::general_purpose::STANDARD, text).unwrap();
    let img = image::load_from_memory_with_format(&bytes, image::ImageFormat::Png)
        .unwrap()
        .to_rgba8();
    (img.width(), img.height(), img.into_raw())
}

#[test]
fn frame_rejects_wrong_buffer_length() {
    assert!(MonitorFrame::new(0, 0, 2, 2, vec![0; 15]).is_none());
    assert!(MonitorFrame::new(0, 0, 2, 2, vec![0; 17]).is_none());
    assert!(MonitorFrame::new(0, 0, 2, 2, vec![0; 16]).is_some());
}

#[test]
fn side_by_side_monitors_compose() {
    let mut a = solid(0, 0, 800, 600, [10, 20, 30, 255]);
    let mut b = solid(800, 0, 800, 600, [40, 50, 60, 255]);
    set_pixel(&mut a, 10, 10, [255, 0, 0, 255]);
    set_pixel(&mut b, 10, 10, [0, 255, 0, 255]);
    let c = composite(&vec![a, b]).unwrap();
    assert_eq!((c.width, c.height), (1600, 600));
    assert_eq!(c.pixels.len(), 1600 * 600 * 4);
    assert_eq!(pixel(&c.pixels, 1600, 10, 10), [255, 0, 0, 255]);
    assert_eq!(pixel(&c.pixels, 1600, 810, 10), [0, 255, 0, 255]);
    assert_eq!(pixel(&c.pixels, 1600, 0, 0), [10, 20, 30, 255]);
    assert_eq!(pixel(&c.pixels, 1600, 1599, 599), [40, 50, 60, 255]);
}

#[test]
fn negative_origin_monitor_is_shifted() {
    let mut left = solid(-800, 0, 800, 600, [1, 2, 3, 255]);
    let mut primary = solid(0, 0, 800, 600, [4, 5, 6, 255]);
    set_pixel(&mut left, 0, 0, [200, 0, 0, 255]);
    set_pixel(&mut primary, 0, 0, [0, 200, 0, 255]);
    let c = composite(&vec![primary, left]).unwrap();
    assert_eq!((c.width, c.height), (1600, 600));
    assert_eq!(pixel(&c.pixels, 1600, 0, 0), [200, 0, 0, 255]);
    assert_eq!(pixel(&c.pixels, 1600, 800, 0), [0, 200, 0, 255]);
    assert_eq!(pixel(&c.pixels, 1600, 799, 599), [1, 2, 3, 255]);
}

#[test]
fn uncovered_canvas_is_transparent() {
    let a = solid(0, 0, 4, 4, [9, 9, 9, 255]);
    let b = solid(4, 2, 2, 2, [7, 7, 7, 255]);
    let c = composite(&vec![a, b]).unwrap();
    assert_eq!((c.width, c.height), (6, 4));
    assert_eq!(pixel(&c.pixels, 6, 4, 0), [0, 0, 0, 0]);
    assert_eq!(pixel(&c.pixels, 6, 5, 1), [0, 0, 0, 0]);
    assert_eq!(pixel(&c.pixels, 6, 5, 3), [7, 7, 7, 255]);
}

#[test]
fn later_frame_wins_where_frames_overlap() {
    let a = solid(0, 0, 4, 4, [1, 1, 1, 255]);
    let b = solid(2, 2, 4, 4, [2, 2, 2, 255]);
    let c = composite(&vec![a, b]).unwrap();
    assert_eq!((c.width, c.height), (6, 6));
    assert_eq!(pixel(&c.pixels, 6, 3, 3), [2, 2, 2, 255]);
    assert_eq!(pixel(&c.pixels, 6, 1, 1), [1, 1, 1, 255]);
}

#[test]
fn single_frame_is_returned_unchanged() {
    let mut f = solid(-5, 7, 3, 2, [1, 2, 3, 128]);
    set_pixel(&mut f, 2, 1, [9, 8, 7, 0]);
    let expected = f.pixels.clone();
    let c = composite(&vec![f]).unwrap();
    assert_eq!((c.width, c.height), (3, 2));
    assert_eq!(c.pixels, expected);
}

#[test]
fn no_monitors_is_an_error() {
    assert!(matches!(composite(&Vec::new()), Err(CaptureError::NoMonitors)));
    assert!(matches!(capture_screen(Vec::new()), Err(CaptureError::NoMonitors)));
}

#[test]
fn far_apart_monitors_are_too_large() {
    let a = solid(i32::MIN, 0, 1, 1, [1, 1, 1, 255]);
    let b = solid(i32::MAX, 0, 1, 1, [1, 1, 1, 255]);
    assert!(matches!(composite(&vec![a, b]), Err(CaptureError::CanvasTooLarge)));
    let a = solid(i32::MIN, 0, 1, 1, [1, 1, 1, 255]);
    let b = solid(i32::MAX, 0, 1, 1, [1, 1, 1, 255]);
    assert!(matches!(capture_screen(vec![a, b]), Err(CaptureError::CanvasTooLarge)));
}

#[test]
fn single_monitor_capture_matches_direct_encoding() {
    let mut f = solid(100, -50, 40, 30, [12, 34, 56, 255]);
    set_pixel(&mut f, 3, 4, [250, 1, 2, 255]);
    let direct = encode_image(f.width, f.height, &f.pixels).unwrap();
    let captured = capture_screen(vec![f]).unwrap();
    assert_eq!(captured, direct);
}

#[test]
fn encoding_round_trips_losslessly() {
    let mut f = solid(0, 0, 16, 9, [0, 0, 0, 255]);
    for y in 0..9u32 {
        for x in 0..16u32 {
            set_pixel(&mut f, x, y, [(x * 16) as u8, (y * 28) as u8, (x + y) as u8, 255]);
        }
    }
    set_pixel(&mut f, 5, 5, [1, 2, 3, 77]);
    let text = encode_image(16, 9, &f.pixels).unwrap();
    assert!(text.starts_with("iVBORw0KGgo"));
    let (w, h, px) = decode(&text);
    assert_eq!((w, h), (16, 9));
    assert_eq!(px, f.pixels);
}

#[test]
fn multi_monitor_capture_round_trips() {
    let mut a = solid(0, 0, 8, 6, [10, 20, 30, 255]);
    let b = solid(8, 0, 8, 6, [40, 50, 60, 255]);
    set_pixel(&mut a, 1, 1, [255, 0, 0, 255]);
    let expected = composite(&vec![
        solid(0, 0, 8, 6, [10, 20, 30, 255]),
        solid(8, 0, 8, 6, [40, 50, 60, 255]),
    ])
    .unwrap();
    let text = capture_screen(vec![a, b]).unwrap();
    let (w, h, px) = decode(&text);
    assert_eq!((w, h), (16, 6));
    assert_eq!(pixel(&px, 16, 1, 1), [255, 0, 0, 255]);
    assert_eq!(pixel(&px, 16, 9, 1), [40, 50, 60, 255]);
    assert_eq!(pixel(&px, 16, 2, 2), pixel(&expected.pixels, 16, 2, 2));
}

#[test]
fn png_bytes_become_base64_text() {
    let r = text_safe(Ok(b"hello".to_vec()));
    assert_eq!(r.unwrap(), "aGVsbG8=");
    let r = text_safe(Ok(Vec::new()));
    assert_eq!(r.unwrap(), "");
}

#[test]
fn empty_image_fails_to_encode() {
    let r = encode_image(0, 0, &Vec::new());
    assert!(matches!(r, Err(CaptureError::EncodeFailure(_))));
}

#[test]
fn equal_images_encode_alike() {
    let a = solid(0, 0, 5, 3, [7, 8, 9, 255]);
    let b = solid(0, 0, 5, 3, [7, 8, 9, 255]);
    let ta = encode_image(5, 3, &a.pixels).unwrap();
    let tb = encode_image(5, 3, &b.pixels).unwrap();
    assert_eq!(ta, tb);
    assert_eq!(a.pixels, b.pixels);
}

#[test]
fn zero_height_image_fails_to_encode() {
    let r = encode_image(4, 0, &Vec::new());
    assert!(matches!(r, Err(CaptureError::EncodeFailure(_))));
}
