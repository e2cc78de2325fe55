use flutter_qrcode_plugin::event::{Error, Handle};
use flutter_qrcode_plugin::scanner::QrCodeScanner;

fn scanner(columns: i32, rows: i32) -> QrCodeScanner {
    QrCodeScanner::new(Some((columns, rows))).unwrap()
}

#[test]
fn camera_that_did_not_open_is_an_error() {
    assert_eq!(QrCodeScanner::new(None).unwrap_err(), Error::OpenCamera);
}

#[test]
fn dimensions_are_those_of_the_first_frame() {
    let s = scanner(640, 480);
    assert_eq!(s.width(), 640);
    assert_eq!(s.height(), 480);
}

#[test]
fn handle_carries_texture_and_dimensions() {
    let s = scanner(640, 480);
    assert_eq!(s.handle(7), Handle { texture_id: 7, width: 640, height: 480 });
}

#[test]
fn handle_keeps_the_largest_dimensions() {
    let s = scanner(i32::MAX, 1);
    assert_eq!(s.handle(-1), Handle { texture_id: -1, width: 2147483647, height: 1 });
}

#[test]
fn picture_swaps_blue_and_red_and_is_opaque() {
    let s = scanner(2, 1);
    let scan = s.frame(Ok(String::new()), vec![1, 2, 3, 4, 5, 6]);
    assert_eq!(scan.picture, vec![3, 2, 1, 255, 6, 5, 4, 255]);
}

#[test]
fn picture_of_two_rows() {
    let s = scanner(1, 2);
    let scan = s.frame(Ok(String::new()), vec![10, 20, 30, 40, 50, 60]);
    assert_eq!(scan.picture, vec![30, 20, 10, 255, 60, 50, 40, 255]);
}

#[test]
fn picture_ignores_bytes_beyond_the_frame() {
    let s = scanner(1, 1);
    let scan = s.frame(Ok(String::new()), vec![9, 8, 7, 6, 5]);
    assert_eq!(scan.picture, vec![7, 8, 9, 255]);
}

#[test]
fn picture_of_a_single_pixel() {
    let s = scanner(1, 1);
    let scan = s.frame(Ok(String::new()), vec![0, 128, 255]);
    assert_eq!(scan.picture, vec![255, 128, 0, 255]);
}

#[test]
fn picture_does_not_depend_on_the_code() {
    let s = scanner(1, 1);
    let with = s.frame(Ok("ABC".to_string()), vec![1, 2, 3]);
    let without = s.frame(Err(Error::OpenCv("no code".to_string())), vec![1, 2, 3]);
    assert_eq!(with.picture, vec![3, 2, 1, 255]);
    assert_eq!(without.picture, vec![3, 2, 1, 255]);
}

#[test]
fn decoded_text_is_the_code() {
    let s = scanner(1, 1);
    let scan = s.frame(Ok("ABC".to_string()), vec![0, 0, 0]);
    assert_eq!(scan.code, Some("ABC".to_string()));
}

#[test]
fn empty_text_is_no_code() {
    let s = scanner(1, 1);
    let scan = s.frame(Ok(String::new()), vec![0, 0, 0]);
    assert_eq!(scan.code, None);
}

#[test]
fn failed_decoding_is_no_code() {
    let s = scanner(1, 1);
    let scan = s.frame(Err(Error::OpenCv("bad image (code: -5)".to_string())), vec![0, 0, 0]);
    assert_eq!(scan.code, None);
}

#[test]
fn accepts_a_whole_frame_and_more() {
    let s = scanner(4, 3);
    assert!(!s.accepts(0));
    assert!(!s.accepts(35));
    assert!(s.accepts(36));
    assert!(s.accepts(37));
}

#[test]
fn accepts_no_less_than_a_single_pixel() {
    let s = scanner(1, 1);
    assert!(!s.accepts(0));
    assert!(!s.accepts(2));
    assert!(s.accepts(3));
}

#[test]
fn rejects_dimensions_beyond_any_buffer() {
    let s = scanner(i32::MAX, i32::MAX);
    assert_eq!(s.width(), 2147483647);
    assert_eq!(s.height(), 2147483647);
    assert!(!s.accepts(usize::MAX));
}

#[test]
fn first_frame_without_pixels_is_an_error() {
    assert_eq!(QrCodeScanner::new(Some((0, 0))).unwrap_err(), Error::OpenCamera);
    assert_eq!(QrCodeScanner::new(Some((0, 5))).unwrap_err(), Error::OpenCamera);
    assert_eq!(QrCodeScanner::new(Some((5, 0))).unwrap_err(), Error::OpenCamera);
}

#[test]
fn first_frame_of_negative_size_is_an_error() {
    assert_eq!(QrCodeScanner::new(Some((-1, -1))).unwrap_err(), Error::OpenCamera);
    assert_eq!(QrCodeScanner::new(Some((-1, 480))).unwrap_err(), Error::OpenCamera);
    assert_eq!(QrCodeScanner::new(Some((640, i32::MIN))).unwrap_err(), Error::OpenCamera);
}

#[test]
fn smallest_and_largest_first_frame() {
    let small = scanner(1, 1);
    assert_eq!((small.width(), small.height()), (1, 1));
    let large = scanner(i32::MAX, 1);
    assert_eq!((large.width(), large.height()), (2147483647, 1));
}

#[test]
fn message_of_a_camera_that_did_not_open() {
    assert_eq!(Error::OpenCamera.message(), "unable to open default camera");
}

#[test]
fn message_of_a_capture_failure_is_its_description() {
    let error = Error::OpenCv("device lost (code: -2)".to_string());
    assert_eq!(error.message(), "device lost (code: -2)");
}
