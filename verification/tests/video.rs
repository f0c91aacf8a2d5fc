use std::sync::Arc;

use image::ImageDecoder;

use trueid::adapters::video::capture_burst;
use trueid::adapters::video::v4l_decode::{
    apply_optional_sensor_fix, check_payload_len, decode_payload, env_truthy, flip_vertical, grey8_to_rgb,
    matches_fourcc, pixel_fix_from_flags, rotate180, yuv_bt601_to_rgb, yuyv_to_rgb, V4lPixelFix,
    DecodedJpeg, JpegFailure, JpegStep, FOURCC_GREY, FOURCC_MJPG, FOURCC_Y800, FOURCC_YUYV,
};
use trueid::{
    CaptureError, Frame, MockVideoSource, ParallelRgbIrCameraCapture, PixelFormat,
    RgbOnlyCameraCapture, StreamLimits, StreamModality, VideoSource,
};

#[test]
fn mock_source_serves_fixed_gray_frame() {
    let src = MockVideoSource::with_modality(StreamModality::Rgb);
    assert_eq!(src.modality(), StreamModality::Rgb);
    let mut session = src.open_session().ok().unwrap();
    for _ in 0..3 {
        let f = session.next_frame().unwrap();
        assert_eq!((f.width(), f.height()), (2, 2));
        assert_eq!(f.format(), PixelFormat::Gray8);
        assert_eq!(f.bytes(), &[0, 255, 128, 64]);
    }
}

#[test]
fn burst_returns_max_frames_after_warmup() {
    let src = MockVideoSource::with_modality(StreamModality::Ir);
    let frames = capture_burst(&src, StreamLimits::new(2, 4)).ok().unwrap();
    assert_eq!(frames.len(), 4);
    let cap = RgbOnlyCameraCapture::new(Arc::new(MockVideoSource::with_modality(StreamModality::Rgb)));
    let burst = cap.capture(StreamLimits::new(1, 2)).ok().unwrap();
    assert_eq!(burst.rgb.len(), 2);
    assert!(burst.ir.is_none());
    assert!(cap.capture(StreamLimits::new(1, 0)).is_err());
}

#[test]
fn parallel_capture_joins_both_streams() {
    let rgb: Arc<dyn VideoSource> = Arc::new(MockVideoSource::with_modality(StreamModality::Rgb));
    let ir: Arc<dyn VideoSource> = Arc::new(MockVideoSource::with_modality(StreamModality::Ir));
    let cap = ParallelRgbIrCameraCapture::new(rgb, ir);
    assert_eq!(cap.ir().modality(), StreamModality::Ir);
    let a = capture_burst(&**cap.rgb(), StreamLimits::new(0, 1));
    let b = capture_burst(&**cap.ir(), StreamLimits::new(0, 1));
    let burst = ParallelRgbIrCameraCapture::<dyn VideoSource>::join_bursts(a, b).ok().unwrap();
    assert_eq!(burst.rgb.len(), 1);
    assert_eq!(burst.ir.unwrap()[0].modality(), StreamModality::Ir);
    let err = ParallelRgbIrCameraCapture::<dyn VideoSource>::join_bursts(
        Ok(vec![]),
        Err(CaptureError::Failed("ir".into())),
    );
    assert_eq!(err.err().unwrap(), CaptureError::Failed("ir".into()));
}

#[test]
fn gray_frame_widens_to_rgb() {
    let f = Frame::new(StreamModality::Rgb, 2, 1, PixelFormat::Gray8, vec![5, 9]).unwrap();
    assert_eq!(f.rgb_bytes(), vec![5, 5, 5, 9, 9, 9]);
    let f = Frame::new(StreamModality::Rgb, 1, 1, PixelFormat::Rgb8, vec![1, 2, 3]).unwrap();
    assert_eq!(f.rgb_bytes(), vec![1, 2, 3]);
    assert_eq!(f.clone().into_bytes(), vec![1, 2, 3]);
}

#[test]
fn bt601_known_values() {
    assert_eq!(yuv_bt601_to_rgb(16, 128, 128), (0, 0, 0));
    assert_eq!(yuv_bt601_to_rgb(235, 128, 128), (255, 255, 255));
    assert_eq!(yuv_bt601_to_rgb(126, 128, 128), (128, 128, 128));
    // red-ish: (298*65 + 409*112 + 128) >> 8 = 254
    assert_eq!(yuv_bt601_to_rgb(81, 90, 240), (255, 0, 0));
}

#[test]
fn yuyv_pairs_share_chroma() {
    let data = [16u8, 128, 235, 128, 126, 128, 16, 128];
    let rgb = yuyv_to_rgb(&data, 2, 2).unwrap();
    assert_eq!(rgb, vec![0, 0, 0, 255, 255, 255, 128, 128, 128, 0, 0, 0]);
    assert_eq!(
        yuyv_to_rgb(&data, 3, 1).unwrap_err(),
        CaptureError::Failed("YUYV requires even width, got 3".into())
    );
    assert_eq!(
        yuyv_to_rgb(&data[..6], 2, 2).unwrap_err(),
        CaptureError::Failed("yuyv buffer too short: 6 < 8".into())
    );
}

#[test]
fn grey_expands_and_checks_length() {
    assert_eq!(grey8_to_rgb(&[1, 2, 3], 2, 1).unwrap(), vec![1, 1, 1, 2, 2, 2]);
    assert_eq!(
        grey8_to_rgb(&[1], 2, 1).unwrap_err(),
        CaptureError::Failed("grey buffer too short: 1 < 2".into())
    );
}

#[test]
fn rotate_and_flip() {
    let rgb: Vec<u8> = (0..12).collect();
    assert_eq!(rotate180(&rgb, 4), vec![9, 10, 11, 6, 7, 8, 3, 4, 5, 0, 1, 2]);
    // 2x2: rows [0..6) and [6..12) swap
    assert_eq!(flip_vertical(&rgb, 2, 2), vec![6, 7, 8, 9, 10, 11, 0, 1, 2, 3, 4, 5]);
}

#[test]
fn sensor_fix_choices() {
    let rgb: Vec<u8> = (0..6).collect();
    assert_eq!(
        apply_optional_sensor_fix(rgb.clone(), 2, 1, false, V4lPixelFix::NoFix).unwrap(),
        (rgb.clone(), 2, 1)
    );
    assert_eq!(
        apply_optional_sensor_fix(rgb.clone(), 2, 1, true, V4lPixelFix::Rotate180).unwrap(),
        (rgb.clone(), 2, 1)
    );
    assert_eq!(
        apply_optional_sensor_fix(rgb.clone(), 2, 1, false, V4lPixelFix::Rotate180).unwrap(),
        (vec![3, 4, 5, 0, 1, 2], 2, 1)
    );
    assert_eq!(
        apply_optional_sensor_fix(rgb.clone(), 2, 2, false, V4lPixelFix::FlipVertical).unwrap_err(),
        CaptureError::Failed("sensor fix: invalid rgb dimensions".into())
    );
}

#[test]
fn env_flags_pick_the_fix() {
    assert!(env_truthy(Some("1")));
    assert!(env_truthy(Some("TrUe")));
    assert!(!env_truthy(Some("yes")));
    assert!(!env_truthy(Some("0")));
    assert!(!env_truthy(None));
    assert_eq!(pixel_fix_from_flags(true, true), V4lPixelFix::Rotate180);
    assert_eq!(pixel_fix_from_flags(false, true), V4lPixelFix::FlipVertical);
    assert_eq!(pixel_fix_from_flags(false, false), V4lPixelFix::NoFix);
}

/// A JPEG decoder for payloads that must not reach it.
fn no_jpeg(_payload: &[u8]) -> Result<DecodedJpeg, JpegFailure> {
    panic!("not an MJPEG payload")
}

/// JPEG decoding with `image`, EXIF orientation applied.
fn jpeg_with_image(payload: &[u8]) -> Result<DecodedJpeg, JpegFailure> {
    let fail = |step: JpegStep, e: image::ImageError| JpegFailure { step, detail: e.to_string() };
    let reader = image::ImageReader::with_format(std::io::Cursor::new(payload), image::ImageFormat::Jpeg);
    let mut decoder = reader.into_decoder().map_err(|e| fail(JpegStep::Decoder, e))?;
    let orientation = decoder.orientation().map_err(|e| fail(JpegStep::Orientation, e))?;
    let mut img = image::DynamicImage::from_decoder(decoder).map_err(|e| fail(JpegStep::Decode, e))?;
    img.apply_orientation(orientation);
    let rgb = img.to_rgb8();
    Ok(DecodedJpeg {
        width: rgb.width(),
        height: rgb.height(),
        oriented: orientation != image::metadata::Orientation::NoTransforms,
        rgb: rgb.into_raw(),
    })
}

#[test]
fn fourcc_dispatch() {
    assert!(matches_fourcc(b"MJPG", &FOURCC_MJPG));
    assert!(matches_fourcc(b"YUYV", &FOURCC_YUYV));
    assert!(matches_fourcc(b"GREY", &FOURCC_GREY));
    assert!(matches_fourcc(b"Y800", &FOURCC_Y800));
    assert!(!matches_fourcc(b"YUYV", &FOURCC_GREY));
    let (rgb, w, h) = decode_payload(b"GREY", &[7, 8], 2, 1, V4lPixelFix::Rotate180, no_jpeg).unwrap();
    assert_eq!((rgb, w, h), (vec![8, 8, 8, 7, 7, 7], 2, 1));
    let (rgb, _, _) =
        decode_payload(b"YUYV", &[235, 128, 16, 128], 2, 1, V4lPixelFix::NoFix, no_jpeg).unwrap();
    assert_eq!(rgb, vec![255, 255, 255, 0, 0, 0]);
    assert_eq!(
        decode_payload(b"ABCD", &[], 1, 1, V4lPixelFix::NoFix, no_jpeg).unwrap_err(),
        CaptureError::Failed("unsupported fourcc \"ABCD\" (want MJPG, YUYV, GREY, or Y800)".into())
    );
}

#[test]
fn mjpeg_payload_is_decoded() {
    let img = image::RgbImage::from_pixel(4, 2, image::Rgb([200, 200, 200]));
    let mut jpeg = Vec::new();
    image::codecs::jpeg::JpegEncoder::new_with_quality(&mut jpeg, 100)
        .encode_image(&img)
        .unwrap();
    let (rgb, w, h) = decode_payload(b"MJPG", &jpeg, 640, 480, V4lPixelFix::NoFix, jpeg_with_image).unwrap();
    assert_eq!((w, h), (4, 2));
    assert_eq!(rgb.len(), 4 * 2 * 3);
    assert!(rgb.iter().all(|&c| (195..=205).contains(&c)));
    let err = decode_payload(b"MJPG", &[1, 2, 3], 4, 2, V4lPixelFix::NoFix, jpeg_with_image).unwrap_err();
    let CaptureError::Failed(m) = err;
    assert!(m.starts_with("mjpeg decoder: "), "{m}");
}

#[test]
fn mjpeg_failure_and_orientation_are_handled_here() {
    let failing = |_: &[u8]| -> Result<DecodedJpeg, JpegFailure> {
        Err(JpegFailure { step: JpegStep::Orientation, detail: "bad exif".to_string() })
    };
    assert_eq!(
        decode_payload(b"MJPG", &[9], 1, 1, V4lPixelFix::NoFix, failing).unwrap_err(),
        CaptureError::Failed("mjpeg orientation: bad exif".into())
    );
    let two_pixels = |oriented: bool| {
        move |_: &[u8]| -> Result<DecodedJpeg, JpegFailure> {
            Ok(DecodedJpeg { rgb: vec![1, 2, 3, 4, 5, 6], width: 2, height: 1, oriented })
        }
    };
    // Not oriented by EXIF: the sensor fix applies.
    assert_eq!(
        decode_payload(b"MJPG", &[9], 2, 1, V4lPixelFix::Rotate180, two_pixels(false)).unwrap(),
        (vec![4, 5, 6, 1, 2, 3], 2, 1)
    );
    // Already oriented by EXIF: the sensor fix is skipped.
    assert_eq!(
        decode_payload(b"MJPG", &[9], 2, 1, V4lPixelFix::Rotate180, two_pixels(true)).unwrap(),
        (vec![1, 2, 3, 4, 5, 6], 2, 1)
    );
    let short = |_: &[u8]| -> Result<DecodedJpeg, JpegFailure> {
        Ok(DecodedJpeg { rgb: vec![1, 2], width: 2, height: 1, oriented: false })
    };
    assert_eq!(
        decode_payload(b"MJPG", &[9], 2, 1, V4lPixelFix::FlipVertical, short).unwrap_err(),
        CaptureError::Failed("sensor fix: invalid rgb dimensions".into())
    );
}

#[test]
fn non_utf8_fourcc_is_shown_as_question_mark() {
    assert_eq!(
        decode_payload(&[0xff, 0, 0, 0], &[], 1, 1, V4lPixelFix::NoFix, no_jpeg).unwrap_err(),
        CaptureError::Failed("unsupported fourcc \"?\" (want MJPG, YUYV, GREY, or Y800)".into())
    );
}

#[test]
fn payload_length_checks() {
    assert_eq!(check_payload_len(0, 10), Err(CaptureError::Failed("empty camera frame".into())));
    assert_eq!(
        check_payload_len(12, 10),
        Err(CaptureError::Failed("invalid frame length 12 > 10".into()))
    );
    assert_eq!(check_payload_len(10, 10), Ok(10));
}

/// A camera whose `i`-th read of a session is a 1×1 grey frame of value `i`, failing from
/// read `fail_at` on.
struct CountingSource {
    fail_at: u8,
}

struct CountingSession {
    next: u8,
    fail_at: u8,
}

impl trueid::VideoSession for CountingSession {
    fn next_frame(&mut self) -> Result<Frame, CaptureError> {
        let i = self.next;
        self.next += 1;
        if i >= self.fail_at {
            return Err(CaptureError::Failed(format!("read {i} failed")));
        }
        Ok(Frame::new(StreamModality::Rgb, 1, 1, PixelFormat::Gray8, vec![i]).unwrap())
    }
}

impl VideoSource for CountingSource {
    fn modality(&self) -> StreamModality {
        StreamModality::Rgb
    }

    fn open_session(&self) -> Result<Box<dyn trueid::VideoSession>, CaptureError> {
        Ok(Box::new(CountingSession { next: 0, fail_at: self.fail_at }))
    }
}

#[test]
fn burst_keeps_the_frames_after_the_warmup() {
    let src = CountingSource { fail_at: 100 };
    let frames = capture_burst(&src, StreamLimits::new(2, 3)).ok().unwrap();
    let values: Vec<u8> = frames.iter().map(|f| f.bytes()[0]).collect();
    assert_eq!(values, vec![2, 3, 4]);
    let (mut session, limits) =
        trueid::application::app::open_capture(&src, StreamLimits::new(3, 1)).ok().unwrap();
    assert_eq!(limits, StreamLimits::new(3, 1));
    assert_eq!(session.next_frame().unwrap().bytes()[0], 3);
}

#[test]
fn burst_passes_on_the_first_failed_read() {
    let warmup_fails = CountingSource { fail_at: 1 };
    assert_eq!(
        capture_burst(&warmup_fails, StreamLimits::new(2, 3)).err(),
        Some(CaptureError::Failed("read 1 failed".into()))
    );
    let keep_fails = CountingSource { fail_at: 3 };
    assert_eq!(
        capture_burst(&keep_fails, StreamLimits::new(2, 3)).err(),
        Some(CaptureError::Failed("read 3 failed".into()))
    );
}

#[test]
fn read_burst_makes_exactly_warmup_plus_count_reads() {
    let src = CountingSource { fail_at: 100 };
    let mut session = src.open_session().ok().unwrap();
    let frames = trueid::adapters::video::camera_capture::read_burst(&mut session, 2, 3)
        .ok()
        .unwrap();
    assert_eq!(frames.iter().map(|f| f.bytes()[0]).collect::<Vec<u8>>(), vec![2, 3, 4]);
    assert_eq!(session.next_frame().unwrap().bytes()[0], 5);
}

#[test]
fn read_burst_stops_at_the_failed_read() {
    let src = CountingSource { fail_at: 3 };
    let mut session = src.open_session().ok().unwrap();
    assert_eq!(
        trueid::adapters::video::camera_capture::read_burst(&mut session, 2, 3).err(),
        Some(CaptureError::Failed("read 3 failed".into()))
    );
    assert_eq!(session.next_frame().err(), Some(CaptureError::Failed("read 4 failed".into())));
}

#[test]
fn rgb_bytes_checked_widening() {
    let gray = Frame::new(StreamModality::Ir, 2, 1, PixelFormat::Gray8, vec![7, 9]).unwrap();
    assert_eq!(gray.try_rgb_bytes(), Some(vec![7, 7, 7, 9, 9, 9]));
    let rgb = Frame::new(StreamModality::Rgb, 1, 1, PixelFormat::Rgb8, vec![1, 2, 3]).unwrap();
    assert_eq!(rgb.try_rgb_bytes(), Some(vec![1, 2, 3]));
}
