use trueid::{Frame, FrameError, PixelFormat, StreamModality};

#[test]
fn gray8_accepts_matching_buffer() {
    let f = Frame::new(
        StreamModality::Rgb,
        2,
        2,
        PixelFormat::Gray8,
        vec![0, 255, 128, 64],
    )
    .unwrap();
    assert_eq!(f.width(), 2);
    assert_eq!(f.height(), 2);
    assert_eq!(f.bytes(), &[0, 255, 128, 64]);
}

#[test]
fn rgb8_rejects_wrong_length() {
    let err = Frame::new(StreamModality::Rgb, 1, 1, PixelFormat::Rgb8, vec![0, 1]).unwrap_err();
    assert_eq!(
        err,
        FrameError::LengthMismatch {
            width: 1,
            height: 1,
            format: PixelFormat::Rgb8,
            actual: 2,
            expected: 3,
        }
    );
}

#[test]
fn overflow_is_not_a_length_mismatch() {
    let err = Frame::new(
        StreamModality::Ir,
        u32::MAX,
        u32::MAX,
        PixelFormat::Rgb8,
        vec![],
    )
    .unwrap_err();
    assert!(matches!(err, FrameError::DimensionsOverflow { .. }));
}
