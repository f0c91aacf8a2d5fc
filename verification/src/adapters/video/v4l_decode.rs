//! Raw V4L2 payloads → RGB8 pixels: YUYV (BT.601) and 8-bit grey conversion, the optional
//! sensor orientation fix, and the dispatch on the negotiated FourCC.

use vstd::prelude::*;

use crate::domain::frame::{gray_prefix_to_rgb, gray_to_rgb_spec};
use crate::ports::CaptureError;
use crate::text::{decimal_string, spec_decimal};


verus! {

/// Saturates an integer into `0..=255`.
pub open spec fn clamp_u8(x: int) -> u8 {
    if x < 0 {
        0
    } else if x > 255 {
        255
    } else {
        x as u8
    }
}

/// Every intermediate value of the BT.601 conversion fits in `i32`.
pub open spec fn yuv_fits_i32(y: int, u: int, v: int) -> bool {
    let c = y - 16;
    let d = u - 128;
    let e = v - 128;
    &&& i32::MIN <= c && i32::MIN <= d && i32::MIN <= e
    &&& i32::MIN <= 298 * c <= i32::MAX
    &&& i32::MIN <= 409 * e <= i32::MAX
    &&& i32::MIN <= 298 * c + 409 * e <= i32::MAX
    &&& i32::MIN <= 298 * c + 409 * e + 128 <= i32::MAX
    &&& i32::MIN <= 100 * d <= i32::MAX
    &&& i32::MIN <= 298 * c - 100 * d <= i32::MAX
    &&& i32::MIN <= 208 * e <= i32::MAX
    &&& i32::MIN <= 298 * c - 100 * d - 208 * e <= i32::MAX
    &&& i32::MIN <= 298 * c - 100 * d - 208 * e + 128 <= i32::MAX
    &&& i32::MIN <= 516 * d <= i32::MAX
    &&& i32::MIN <= 298 * c + 516 * d <= i32::MAX
    &&& i32::MIN <= 298 * c + 516 * d + 128 <= i32::MAX
}

/// BT.601 studio-swing YUV → RGB with 8-bit fixed point, saturated to `0..=255`.
pub open spec fn spec_yuv_to_rgb(y: int, u: int, v: int) -> (u8, u8, u8) {
    let c = y - 16;
    let d = u - 128;
    let e = v - 128;
    (
        clamp_u8(((298 * c + 409 * e + 128) as i32 >> 8u32) as int),
        clamp_u8(((298 * c - 100 * d - 208 * e + 128) as i32 >> 8u32) as int),
        clamp_u8(((298 * c + 516 * d + 128) as i32 >> 8u32) as int),
    )
}

fn clamp_to_u8(x: i32) -> (r: u8)
    ensures
        r == clamp_u8(x as int),
{
    if x < 0 {
        0
    } else if x > 255 {
        255
    } else {
        x as u8
    }
}

/// One YUV sample → RGB (BT.601).
pub fn yuv_bt601_to_rgb(y: i32, u: i32, v: i32) -> (r: (u8, u8, u8))
    requires
        yuv_fits_i32(y as int, u as int, v as int),
    ensures
        r == spec_yuv_to_rgb(y as int, u as int, v as int),
{
    let c = y - 16;
    let d = u - 128;
    let e = v - 128;
    let r = (298 * c + 409 * e + 128) >> 8;
    let g = (298 * c - 100 * d - 208 * e + 128) >> 8;
    let b = (298 * c + 516 * d + 128) >> 8;
    (clamp_to_u8(r), clamp_to_u8(g), clamp_to_u8(b))
}

/// Message of the error for a grey payload shorter than the frame.
pub open spec fn short_buffer_message(kind: Seq<char>, actual: nat, expected: nat) -> Seq<char> {
    kind + " buffer too short: "@ + spec_decimal(actual) + " < "@ + spec_decimal(expected)
}

fn short_buffer_error(kind: &str, actual: usize, expected: usize) -> (r: CaptureError)
    ensures
        r == CaptureError::Failed(r->Failed_0),
        r->Failed_0@ == short_buffer_message(kind@, actual as nat, expected as nat),
{
    let m = String::from_str(kind).concat(" buffer too short: ").concat(
        decimal_string(actual as u64).as_str(),
    ).concat(" < ").concat(decimal_string(expected as u64).as_str());
    CaptureError::Failed(m)
}

/// 8-bit grey → RGB8: the first `width × height` bytes, each repeated for three channels.
pub fn grey8_to_rgb(data: &[u8], width: u32, height: u32) -> (r: Result<Vec<u8>, CaptureError>)
    requires
        width * height <= data@.len() ==> 3 * (width * height) <= usize::MAX,
    ensures
        width * height > usize::MAX ==> (r matches Err(CaptureError::Failed(m)) && m@
            == "grey frame dimensions overflow"@),
        width * height <= usize::MAX && data@.len() < width * height ==> (r matches Err(
            CaptureError::Failed(m),
        ) && m@ == short_buffer_message(
            "grey"@,
            data@.len(),
            (width * height) as nat,
        )),
        width * height <= data@.len() ==> (r matches Ok(rgb) && rgb@ == gray_to_rgb_spec(
            data@.take(width * height),
        )),
{
    let w = width as usize;
    let h = height as usize;
    let expected = match w.checked_mul(h) {
        Some(n) => n,
        None => {
            return Err(CaptureError::Failed(String::from_str("grey frame dimensions overflow")));
        },
    };
    if data.len() < expected {
        return Err(short_buffer_error("grey", data.len(), expected));
    }
    Ok(gray_prefix_to_rgb(data, expected))
}

/// Channel `k` (0 = red, 1 = green, 2 = blue) of an RGB triple.
pub open spec fn channel(rgb: (u8, u8, u8), k: int) -> u8 {
    if k == 0 {
        rgb.0
    } else if k == 1 {
        rgb.1
    } else {
        rgb.2
    }
}

/// YUYV (4:2:2) → RGB8 for `n_pixels` pixels: pixel `p` takes its luma from byte `2p` and the
/// chroma of its pair `q = p / 2` from bytes `4q + 1` (U) and `4q + 3` (V).
pub open spec fn spec_yuyv_to_rgb(data: Seq<u8>, n_pixels: nat) -> Seq<u8> {
    Seq::new(
        3 * n_pixels,
        |i: int|
            {
                let p = i / 3;
                let q = p / 2;
                channel(
                    spec_yuv_to_rgb(
                        data[2 * p] as int,
                        data[4 * q + 1] as int,
                        data[4 * q + 3] as int,
                    ),
                    i % 3,
                )
            },
    )
}

/// Message of the error for an odd YUYV width.
pub open spec fn odd_width_message(width: nat) -> Seq<char> {
    "YUYV requires even width, got "@ + spec_decimal(width)
}

proof fn lemma_u8_yuv_fits(y: u8, u: u8, v: u8)
    ensures
        yuv_fits_i32(y as int, u as int, v as int),
{
}

proof fn lemma_pair_indices(p: int, q: int)
    requires
        p >= 0,
        p % 2 == 0,
        q == p / 2,
    ensures
        4 * q == 2 * p,
        (p + 1) / 2 == q,
{
}

proof fn lemma_pixel_of_byte(p: int, j: int)
    requires
        p >= 0,
        3 * p <= j < 3 * p + 3,
    ensures
        j / 3 == p,
        j % 3 == j - 3 * p,
{
}

/// YUYV (4:2:2) → RGB8 for a `width × height` frame; `width` must be even and `data` must
/// hold at least `2 × width × height` bytes.
pub fn yuyv_to_rgb(data: &[u8], width: u32, height: u32) -> (r: Result<Vec<u8>, CaptureError>)
    requires
        width % 2 == 0 ==> 2 * width * height <= usize::MAX,
        width % 2 == 0 && 2 * width * height <= data@.len() ==> 3 * width * height <= usize::MAX,
    ensures
        width % 2 == 1 ==> (r matches Err(CaptureError::Failed(m)) && m@ == odd_width_message(
            width as nat,
        )),
        width % 2 == 0 && data@.len() < 2 * width * height ==> (r matches Err(
            CaptureError::Failed(m),
        ) && m@ == short_buffer_message(
            "yuyv"@,
            data@.len(),
            (2 * width * height) as nat,
        )),
        width % 2 == 0 && 2 * width * height <= data@.len() ==> (r matches Ok(rgb) && rgb@
            == spec_yuyv_to_rgb(data@, (width * height) as nat)),
{
    if width % 2 != 0 {
        let m = String::from_str("YUYV requires even width, got ").concat(
            decimal_string(width as u64).as_str(),
        );
        return Err(CaptureError::Failed(m));
    }
    let w = width as usize;
    let h = height as usize;
    assert(w * h * 2 == 2 * width * height) by (nonlinear_arith)
        requires
            w == width,
            h == height,
    ;
    let expected = w * h * 2;
    if data.len() < expected {
        return Err(short_buffer_error("yuyv", data.len(), expected));
    }
    assert(w * h * 3 == 3 * width * height) by (nonlinear_arith)
        requires
            w == width,
            h == height,
    ;
    let n = w * h * 3;
    let mut out: Vec<u8> = vec![0u8; n];
    let ghost spec = spec_yuyv_to_rgb(data@, (w * h) as nat);
    let mut row: usize = 0;
    while row < h
        invariant
            row <= h,
            w % 2 == 0,
            w * h * 2 <= data@.len(),
            w * h * 3 <= usize::MAX,
            n == w * h * 3,
            out@.len() == n,
            spec == spec_yuyv_to_rgb(data@, (w * h) as nat),
            forall|j: int| 0 <= j < 3 * (row * w) ==> #[trigger] out@[j] == spec[j],
        decreases h - row,
    {
        assert((row + 1) * w <= h * w) by (nonlinear_arith)
            requires
                row < h,
        ;
        assert(row * w + w == (row + 1) * w) by (nonlinear_arith);
        proof {
            let k = w / 2;
            assert(row * w == 2 * (row * k)) by (nonlinear_arith)
                requires
                    w == 2 * k,
            ;
        }
        let mut col: usize = 0;
        while col < w
            invariant
                row < h,
                col <= w,
                col % 2 == 0,
                w % 2 == 0,
                (row * w) % 2 == 0,
                row * w + w <= h * w,
                w * h * 2 <= data@.len(),
                w * h * 3 <= usize::MAX,
                h * w == w * h,
                n == w * h * 3,
                out@.len() == n,
                spec == spec_yuyv_to_rgb(data@, (w * h) as nat),
                forall|j: int| 0 <= j < 3 * (row * w + col) ==> #[trigger] out@[j] == spec[j],
            decreases w - col,
        {
            let ghost p: int = (row * w + col) as int;
            assert(p + 2 <= w * h);
            let i = row * w * 2 + col * 2;
            assert(i == 2 * p) by (nonlinear_arith)
                requires
                    i == row * w * 2 + col * 2,
                    p == row * w + col,
            ;
            let y0 = data[i] as i32;
            let u = data[i + 1] as i32;
            let y1 = data[i + 2] as i32;
            let v = data[i + 3] as i32;
            proof {
                lemma_u8_yuv_fits(data@[i as int], data@[i + 1], data@[i + 3]);
                lemma_u8_yuv_fits(data@[i + 2], data@[i + 1], data@[i + 3]);
            }
            let (r0, g0, b0) = yuv_bt601_to_rgb(y0, u, v);
            let (r1, g1, b1) = yuv_bt601_to_rgb(y1, u, v);

            let o0 = (row * w + col) * 3;
            out[o0] = r0;
            out[o0 + 1] = g0;
            out[o0 + 2] = b0;
            let o1 = (row * w + col + 1) * 3;
            out[o1] = r1;
            out[o1 + 1] = g1;
            out[o1 + 2] = b1;
            proof {
                assert(p % 2 == 0) by (nonlinear_arith)
                    requires
                        p == row * w + col,
                        (row * w) % 2 == 0,
                        col % 2 == 0,
                ;
                let q = p / 2;
                lemma_pair_indices(p, q);
                assert forall|j: int| 0 <= j < 3 * (row * w + col + 2) implies #[trigger] out@[j]
                    == spec[j] by {
                    if j >= 3 * p && j < 3 * p + 3 {
                        lemma_pixel_of_byte(p, j);
                    } else if j >= 3 * p + 3 {
                        lemma_pixel_of_byte(p + 1, j);
                    }
                }
            }
            col = col + 2;
        }
        row = row + 1;
    }
    assert(w * h * 3 == 3 * (w * h) && 3 * (row * w) == 3 * (w * h)) by (nonlinear_arith)
        requires
            row == h,
    ;
    assert forall|j: int| 0 <= j < out@.len() implies out@[j] == spec[j] by {
        assert(j < 3 * (row * w));
    }
    assert(out@ =~= spec);
    Ok(out)
}

/// Orientation correction some sensors need, chosen by the environment.
#[derive(Clone, Copy, Debug, PartialEq, Eq, Structural)]
pub enum V4lPixelFix {
    NoFix,
    Rotate180,
    FlipVertical,
}

/// `TRUEID_V4L_ROTATE_180` wins over `TRUEID_V4L_FLIP_VERTICAL`; neither set means no fix.
pub fn pixel_fix_from_flags(rotate_180: bool, flip_vertical: bool) -> (r: V4lPixelFix)
    ensures
        rotate_180 ==> r == V4lPixelFix::Rotate180,
        !rotate_180 && flip_vertical ==> r == V4lPixelFix::FlipVertical,
        !rotate_180 && !flip_vertical ==> r == V4lPixelFix::NoFix,
{
    if rotate_180 {
        V4lPixelFix::Rotate180
    } else if flip_vertical {
        V4lPixelFix::FlipVertical
    } else {
        V4lPixelFix::NoFix
    }
}

/// `c` equals `lower` ignoring ASCII case (`upper` is its upper-case form).
pub open spec fn ascii_case_eq(c: char, lower: char, upper: char) -> bool {
    c == lower || c == upper
}

/// An environment value switches a fix on when it is `1` or `true` in any ASCII case.
pub open spec fn spec_env_truthy(v: Seq<char>) -> bool {
    v =~= seq!['1'] || (v.len() == 4 && ascii_case_eq(v[0], 't', 'T') && ascii_case_eq(
        v[1],
        'r',
        'R',
    ) && ascii_case_eq(v[2], 'u', 'U') && ascii_case_eq(v[3], 'e', 'E'))
}

/// Whether an environment variable's value (`None` when unset) switches a fix on.
pub fn env_truthy(value: Option<&str>) -> (r: bool)
    ensures
        r == (value matches Some(v) && spec_env_truthy(v@)),
{
    match value {
        None => false,
        Some(v) => {
            let n = v.unicode_len();
            if n == 1 {
                let c = v.get_char(0);
                c == '1'
            } else if n == 4 {
                let c0 = v.get_char(0);
                let c1 = v.get_char(1);
                let c2 = v.get_char(2);
                let c3 = v.get_char(3);
                (c0 == 't' || c0 == 'T') && (c1 == 'r' || c1 == 'R') && (c2 == 'u' || c2 == 'U')
                    && (c3 == 'e' || c3 == 'E')
            } else {
                false
            }
        },
    }
}

/// RGB8 pixels of a `width × height` image turned by 180°: pixel `p` of `n` comes from pixel
/// `n - 1 - p`.
pub open spec fn spec_rotate180(rgb: Seq<u8>, n_pixels: nat) -> Seq<u8> {
    Seq::new(3 * n_pixels, |i: int| rgb[3 * (n_pixels - 1 - i / 3) + i % 3])
}

/// RGB8 pixels of a `width × height` image mirrored top to bottom: row `y` comes from row
/// `height - 1 - y`.
pub open spec fn spec_flip_vertical(rgb: Seq<u8>, width: nat, height: nat) -> Seq<u8> {
    Seq::new(
        3 * width * height,
        |i: int|
            {
                let p = i / 3;
                rgb[3 * ((height - 1 - p / (width as int)) * width + p % (width as int)) + i % 3]
            },
    )
}

/// Turns the first `n_pixels` RGB8 pixels by 180°.
pub fn rotate180(rgb: &[u8], n_pixels: usize) -> (r: Vec<u8>)
    requires
        3 * n_pixels <= rgb@.len(),
    ensures
        r@ == spec_rotate180(rgb@, n_pixels as nat),
{
    let total = rgb.len();
    let mut out: Vec<u8> = Vec::new();
    let mut p: usize = 0;
    while p < n_pixels
        invariant
            p <= n_pixels,
            total == rgb@.len(),
            3 * n_pixels <= rgb@.len(),
            out@.len() == 3 * p,
            forall|j: int|
                0 <= j < 3 * p ==> #[trigger] out@[j] == rgb@[3 * (n_pixels - 1 - j / 3) + j
                    % 3],
        decreases n_pixels - p,
    {
        let src = 3 * (n_pixels - 1 - p);
        out.push(rgb[src]);
        out.push(rgb[src + 1]);
        out.push(rgb[src + 2]);
        proof {
            assert forall|j: int|
                0 <= j < 3 * (p + 1) implies #[trigger] out@[j] == rgb@[3 * (n_pixels - 1 - j / 3)
                + j % 3] by {
                if j >= 3 * p {
                    lemma_pixel_of_byte(p as int, j);
                }
            }
        }
        p = p + 1;
    }
    assert(out@ =~= spec_rotate180(rgb@, n_pixels as nat));
    out
}

/// Mirrors the first `width × height` RGB8 pixels top to bottom.
pub fn flip_vertical(rgb: &[u8], width: usize, height: usize) -> (r: Vec<u8>)
    requires
        3 * width * height <= rgb@.len(),
    ensures
        r@ == spec_flip_vertical(rgb@, width as nat, height as nat),
{
    let ghost spec = spec_flip_vertical(rgb@, width as nat, height as nat);
    let total = rgb.len();
    let mut out: Vec<u8> = Vec::new();
    let mut y: usize = 0;
    while y < height
        invariant
            y <= height,
            total == rgb@.len(),
            3 * width * height <= rgb@.len(),
            spec == spec_flip_vertical(rgb@, width as nat, height as nat),
            out@.len() == 3 * width * y,
            forall|j: int| 0 <= j < 3 * width * y ==> #[trigger] out@[j] == spec[j],
        decreases height - y,
    {
        assert(3 * width * (y + 1) <= 3 * width * height) by (nonlinear_arith)
            requires
                y < height,
        ;
        assert(3 * width * (y + 1) == 3 * width * y + 3 * width) by (nonlinear_arith);
        let src_row = height - 1 - y;
        let mut x: usize = 0;
        while x < width
            invariant
                y < height,
                total == rgb@.len(),
                src_row == height - 1 - y,
                x <= width,
                3 * width * height <= rgb@.len(),
                3 * width * (y + 1) <= 3 * width * height,
                3 * width * (y + 1) == 3 * width * y + 3 * width,
                spec == spec_flip_vertical(rgb@, width as nat, height as nat),
                out@.len() == 3 * width * y + 3 * x,
                forall|j: int| 0 <= j < 3 * width * y + 3 * x ==> #[trigger] out@[j] == spec[j],
            decreases width - x,
        {
            assert(3 * (src_row * width + x) + 2 < 3 * width * height && src_row * width + x
                < width * height && src_row * width <= width * height) by (nonlinear_arith)
                requires
                    src_row < height,
                    x < width,
            ;
            let src = 3 * (src_row * width + x);
            out.push(rgb[src]);
            out.push(rgb[src + 1]);
            out.push(rgb[src + 2]);
            proof {
                let p = (y * width + x) as int;
                assert(3 * width * y + 3 * x == 3 * p) by (nonlinear_arith)
                    requires
                        p == y * width + x,
                ;
                assert(p / (width as int) == y && p % (width as int) == x) by (nonlinear_arith)
                    requires
                        p == y * width + x,
                        x < width,
                ;
                assert(3 * p + 3 <= 3 * width * height);
                assert forall|j: int| 0 <= j < 3 * width * y + 3 * (x + 1) implies #[trigger] out@[j]
                    == spec[j] by {
                    if j >= 3 * p {
                        lemma_pixel_of_byte(p, j);
                        assert(spec[j] == rgb@[3 * ((height - 1 - y) * width + x) + j % 3]);
                    }
                }
            }
            x = x + 1;
        }
        y = y + 1;
    }
    assert(out@ =~= spec);
    out
}

/// Result of the optional orientation fix; `Err` when the buffer is too short for the
/// dimensions (or their byte count overflows `usize`).
pub open spec fn spec_sensor_fix(
    rgb: Seq<u8>,
    width: u32,
    height: u32,
    skip_env_sensor_fix: bool,
    fix: V4lPixelFix,
) -> Result<Seq<u8>, ()> {
    if fix == V4lPixelFix::NoFix || skip_env_sensor_fix {
        Ok(rgb)
    } else if 3 * width * height > usize::MAX || rgb.len() < 3 * width * height {
        Err(())
    } else if fix == V4lPixelFix::Rotate180 {
        Ok(spec_rotate180(rgb, (width * height) as nat))
    } else {
        Ok(spec_flip_vertical(rgb, width as nat, height as nat))
    }
}

/// Applies the sensor fix unless the decoder already oriented the image.
pub fn apply_optional_sensor_fix(
    rgb: Vec<u8>,
    width: u32,
    height: u32,
    skip_env_sensor_fix: bool,
    fix: V4lPixelFix,
) -> (r: Result<(Vec<u8>, u32, u32), CaptureError>)
    ensures
        spec_sensor_fix(rgb@, width, height, skip_env_sensor_fix, fix) matches Ok(out) ==> (
        r matches Ok((b, w, h)) && b@ == out && w == width && h == height),
        spec_sensor_fix(rgb@, width, height, skip_env_sensor_fix, fix) is Err ==> (r matches Err(
            CaptureError::Failed(m),
        ) && m@ == "sensor fix: invalid rgb dimensions"@),
{
    if fix == V4lPixelFix::NoFix {
        return Ok((rgb, width, height));
    }
    if skip_env_sensor_fix {
        return Ok((rgb, width, height));
    }
    let w = width as usize;
    let h = height as usize;
    let needed = match w.checked_mul(h) {
        Some(n) => n.checked_mul(3),
        None => None,
    };
    proof {
        if w * h > usize::MAX {
            assert(w * h <= 3 * (w * h));
        }
        assert(3 * width * height == 3 * (w * h)) by (nonlinear_arith)
            requires
                w == width,
                h == height,
        ;
    }
    match needed {
        Some(n) if n <= rgb.len() => {
            let out = if fix == V4lPixelFix::Rotate180 {
                rotate180(rgb.as_slice(), w * h)
            } else {
                assert(3 * w * h == 3 * (w * h)) by (nonlinear_arith);
                flip_vertical(rgb.as_slice(), w, h)
            };
            Ok((out, width, height))
        },
        _ => Err(CaptureError::Failed(String::from_str("sensor fix: invalid rgb dimensions"))),
    }
}

/// The step of MJPEG decoding that failed.
#[derive(Clone, Copy, Debug, PartialEq, Eq, Structural)]
pub enum JpegStep {
    /// Reading the JPEG headers.
    Decoder,
    /// Reading the EXIF orientation.
    Orientation,
    /// Decoding the pixels.
    Decode,
}

pub open spec fn spec_jpeg_step_name(step: JpegStep) -> Seq<char> {
    match step {
        JpegStep::Decoder => "decoder"@,
        JpegStep::Orientation => "orientation"@,
        JpegStep::Decode => "decode"@,
    }
}

fn jpeg_step_name(step: JpegStep) -> (r: &'static str)
    ensures
        r@ == spec_jpeg_step_name(step),
{
    match step {
        JpegStep::Decoder => "decoder",
        JpegStep::Orientation => "orientation",
        JpegStep::Decode => "decode",
    }
}

/// A failed MJPEG decoding: the step, and the decoder's own description of the failure.
pub struct JpegFailure {
    pub step: JpegStep,
    pub detail: String,
}

/// A decoded MJPEG frame: RGB8 pixels with the JPEG's EXIF orientation applied, their size,
/// and whether that orientation was other than the identity.
pub struct DecodedJpeg {
    pub rgb: Vec<u8>,
    pub width: u32,
    pub height: u32,
    pub oriented: bool,
}

/// Message of the error for a failed MJPEG decoding step.
pub open spec fn mjpeg_error_message(step: JpegStep, detail: Seq<char>) -> Seq<char> {
    "mjpeg "@ + spec_jpeg_step_name(step) + ": "@ + detail
}

fn mjpeg_error(failure: JpegFailure) -> (r: CaptureError)
    ensures
        r matches CaptureError::Failed(m) && m@ == mjpeg_error_message(
            failure.step,
            failure.detail@,
        ),
{
    CaptureError::Failed(
        String::from_str("mjpeg ").concat(jpeg_step_name(failure.step)).concat(": ").concat(
            failure.detail.as_str(),
        ),
    )
}

/// What a payload decodes to once the JPEG decoder answered `decoded`: its failure as an
/// error, else the pixels with the sensor fix (skipped when EXIF already oriented them).
pub open spec fn mjpeg_outcome(
    decoded: Result<DecodedJpeg, JpegFailure>,
    fix: V4lPixelFix,
    r: Result<(Vec<u8>, u32, u32), CaptureError>,
) -> bool {
    match decoded {
        Err(f) => r matches Err(CaptureError::Failed(m)) && m@ == mjpeg_error_message(
            f.step,
            f.detail@,
        ),
        Ok(j) => match spec_sensor_fix(j.rgb@, j.width, j.height, j.oriented, fix) {
            Ok(out) => r matches Ok((rb, rw, rh)) && rb@ == out && rw == j.width && rh == j.height,
            Err(_) => r matches Err(CaptureError::Failed(m)) && m@
                == "sensor fix: invalid rgb dimensions"@,
        },
    }
}

pub const FOURCC_MJPG: [u8; 4] = [77u8, 74u8, 80u8, 71u8];
pub const FOURCC_YUYV: [u8; 4] = [89u8, 85u8, 89u8, 86u8];
pub const FOURCC_GREY: [u8; 4] = [71u8, 82u8, 69u8, 89u8];
pub const FOURCC_Y800: [u8; 4] = [89u8, 56u8, 48u8, 48u8];

/// Whether a negotiated FourCC is `tag`.
pub fn matches_fourcc(f: &[u8; 4], tag: &[u8; 4]) -> (r: bool)
    ensures
        r == (f@ == tag@),
{
    let r = f[0] == tag[0] && f[1] == tag[1] && f[2] == tag[2] && f[3] == tag[3];
    proof {
        if r {
            assert(f@ =~= tag@);
        }
    }
    r
}

/// What `str::from_utf8` gives for `bytes`: the text when they are valid UTF-8.
pub uninterp spec fn spec_utf8_text(bytes: Seq<u8>) -> Option<Seq<char>>;

/// `std::str::from_utf8`. Trusted: the text, when the bytes are valid UTF-8, is a function of
/// the bytes alone.
#[verifier::external_body]
fn utf8_text(bytes: &[u8]) -> (r: Option<String>)
    ensures
        r matches Some(t) ==> spec_utf8_text(bytes@) == Some(t@),
        r is None <==> spec_utf8_text(bytes@) is None,
{
    match std::str::from_utf8(bytes) {
        Ok(t) => Some(String::from(t)),
        Err(_) => None,
    }
}

/// What the `Debug` rendering of a string shows (quoted, with escapes).
pub uninterp spec fn spec_debug_str(s: Seq<char>) -> Seq<char>;

/// `format!("{:?}", s)`. Trusted: the rendering is a function of the text alone.
#[verifier::external_body]
fn debug_str(s: &str) -> (r: String)
    ensures
        r@ == spec_debug_str(s@),
{
    format!("{:?}", s)
}

/// How a FourCC is shown in messages: the debug rendering of its text, or of `"?"` when its
/// bytes are not UTF-8.
pub open spec fn spec_fourcc_debug(fourcc: Seq<u8>) -> Seq<char> {
    match spec_utf8_text(fourcc) {
        Some(t) => spec_debug_str(t),
        None => spec_debug_str("?"@),
    }
}

fn fourcc_debug(fourcc: &[u8; 4]) -> (r: String)
    ensures
        r@ == spec_fourcc_debug(fourcc@),
{
    match utf8_text(fourcc.as_slice()) {
        Some(t) => debug_str(t.as_str()),
        None => debug_str("?"),
    }
}

/// The bytes of a dequeued camera buffer holding `bytes_used` of `buffer_len` bytes: refused
/// when it is empty or claims more than the buffer holds.
pub fn check_payload_len(bytes_used: usize, buffer_len: usize) -> (r: Result<usize, CaptureError>)
    ensures
        bytes_used == 0 ==> (r matches Err(CaptureError::Failed(m)) && m@ == "empty camera frame"@),
        bytes_used > buffer_len && bytes_used > 0 ==> (r matches Err(CaptureError::Failed(m)) && m@
            == "invalid frame length "@ + spec_decimal(bytes_used as nat) + " > "@ + spec_decimal(
            buffer_len as nat,
        )),
        0 < bytes_used <= buffer_len ==> r == Ok::<usize, CaptureError>(bytes_used),
{
    if bytes_used == 0 {
        return Err(CaptureError::Failed(String::from_str("empty camera frame")));
    }
    if bytes_used > buffer_len {
        let m = String::from_str("invalid frame length ").concat(
            decimal_string(bytes_used as u64).as_str(),
        ).concat(" > ").concat(decimal_string(buffer_len as u64).as_str());
        return Err(CaptureError::Failed(m));
    }
    Ok(bytes_used)
}

/// Whether a payload of `fourcc`, `width × height`, stays within the machine's limits while
/// it is converted (the YUYV and grey conversions allocate three bytes per pixel).
pub open spec fn decode_fits(fourcc: Seq<u8>, payload_len: nat, width: u32, height: u32) -> bool {
    &&& fourcc == FOURCC_YUYV@ && width % 2 == 0 ==> 2 * width * height <= usize::MAX
    &&& fourcc == FOURCC_YUYV@ && width % 2 == 0 && 2 * width * height <= payload_len ==> 3 * width
        * height <= usize::MAX
    &&& (fourcc == FOURCC_GREY@ || fourcc == FOURCC_Y800@) && width * height <= payload_len ==> 3
        * (width * height) <= usize::MAX
}

/// Decodes one raw payload into RGB8 pixels with their dimensions, then applies the sensor
/// fix: MJPEG goes to `decode_jpeg` (and skips the fix when EXIF already oriented it), YUYV
/// and grey are converted here, any other FourCC is refused.
pub fn decode_payload<'a, J: FnOnce(&'a [u8]) -> Result<DecodedJpeg, JpegFailure>>(
    fourcc: &[u8; 4],
    payload: &'a [u8],
    width: u32,
    height: u32,
    fix: V4lPixelFix,
    decode_jpeg: J,
) -> (r: Result<(Vec<u8>, u32, u32), CaptureError>)
    requires
        decode_fits(fourcc@, payload@.len(), width, height),
        fourcc@ == FOURCC_MJPG@ ==> decode_jpeg.requires((payload,)),
    ensures
        fourcc@ == FOURCC_MJPG@ ==> exists|d: Result<DecodedJpeg, JpegFailure>|
            #[trigger] decode_jpeg.ensures((payload,), d) && mjpeg_outcome(d, fix, r),
        fourcc@ == FOURCC_YUYV@ ==> (width % 2 == 1 || payload@.len() < 2 * width * height ==> r
            is Err),
        fourcc@ == FOURCC_YUYV@ && width % 2 == 0 && 2 * width * height <= payload@.len() ==> match spec_sensor_fix(
            spec_yuyv_to_rgb(payload@, (width * height) as nat),
            width,
            height,
            false,
            fix,
        ) {
            Ok(out) => r matches Ok((rb, rw, rh)) && rb@ == out && rw == width && rh == height,
            Err(_) => r is Err,
        },
        (fourcc@ == FOURCC_GREY@ || fourcc@ == FOURCC_Y800@) ==> (payload@.len() < width * height
            ==> r is Err),
        (fourcc@ == FOURCC_GREY@ || fourcc@ == FOURCC_Y800@) && width * height <= payload@.len()
            ==> match spec_sensor_fix(
            gray_to_rgb_spec(payload@.take(width * height)),
            width,
            height,
            false,
            fix,
        ) {
            Ok(out) => r matches Ok((rb, rw, rh)) && rb@ == out && rw == width && rh == height,
            Err(_) => r is Err,
        },
        fourcc@ != FOURCC_MJPG@ && fourcc@ != FOURCC_YUYV@ && fourcc@ != FOURCC_GREY@ && fourcc@
            != FOURCC_Y800@ ==> (r matches Err(CaptureError::Failed(m)) && m@ == "unsupported fourcc "@
            + spec_fourcc_debug(fourcc@) + " (want MJPG, YUYV, GREY, or Y800)"@),
{
    if matches_fourcc(fourcc, &FOURCC_MJPG) {
        let decoded = decode_jpeg(payload);
        let ghost d = decoded;
        let r = match decoded {
            Ok(j) => apply_optional_sensor_fix(j.rgb, j.width, j.height, j.oriented, fix),
            Err(f) => Err(mjpeg_error(f)),
        };
        assert(mjpeg_outcome(d, fix, r));
        return r;
    }
    let bytes = if matches_fourcc(fourcc, &FOURCC_YUYV) {
        yuyv_to_rgb(payload, width, height)?
    } else if matches_fourcc(fourcc, &FOURCC_GREY) || matches_fourcc(fourcc, &FOURCC_Y800) {
        grey8_to_rgb(payload, width, height)?
    } else {
        let m = String::from_str("unsupported fourcc ").concat(fourcc_debug(fourcc).as_str()).concat(
            " (want MJPG, YUYV, GREY, or Y800)",
        );
        return Err(CaptureError::Failed(m));
    };
    apply_optional_sensor_fix(bytes, width, height, false, fix)
}

/// A conversion result saturated into `0..=255`.
pub open spec fn saturate(x: int) -> int {
    if x < 0 {
        0
    } else if x > 255 {
        255
    } else {
        x
    }
}

/// An arithmetic right shift by 8 is division by 256 rounded down.
proof fn lemma_shr8_is_floor_div(x: i32)
    ensures
        (x >> 8u32) as int == (x as int) / 256,
{
    let q = x >> 8u32;
    assert(q as i64 * 256i64 <= x as i64 && (x as i64) < q as i64 * 256i64 + 256i64)
        by (bit_vector)
        requires
            q == x >> 8u32,
    ;
}

/// The YUYV layout with BT.601 conversion: in a buffer of pixel pairs `Y0 U Y1 V`, pixel `p`
/// takes its luma from byte `2p` and the chroma of its pair, U from byte `4(p/2)+1` and V from
/// byte `4(p/2)+3`; red is luma plus V, blue luma plus U, green luma minus both (8-bit fixed
/// point, `(… + 128) / 256`, saturated).
pub proof fn lemma_yuyv_layout(data: Seq<u8>, n_pixels: nat, p: int)
    requires
        0 <= p < n_pixels,
        4 * (p / 2) + 3 < data.len(),
    ensures
        spec_yuyv_to_rgb(data, n_pixels).len() == 3 * n_pixels,
        ({
            let y = data[2 * p] as int;
            let u = data[4 * (p / 2) + 1] as int;
            let v = data[4 * (p / 2) + 3] as int;
            let out = spec_yuyv_to_rgb(data, n_pixels);
            &&& out[3 * p] as int == saturate((298 * (y - 16) + 409 * (v - 128) + 128) / 256)
            &&& out[3 * p + 1] as int == saturate(
                (298 * (y - 16) - 100 * (u - 128) - 208 * (v - 128) + 128) / 256,
            )
            &&& out[3 * p + 2] as int == saturate((298 * (y - 16) + 516 * (u - 128) + 128) / 256)
        }),
{
    let y = data[2 * p] as int;
    let u = data[4 * (p / 2) + 1] as int;
    let v = data[4 * (p / 2) + 3] as int;
    let c = y - 16;
    let d = u - 128;
    let e = v - 128;
    lemma_u8_yuv_fits(data[2 * p], data[4 * (p / 2) + 1], data[4 * (p / 2) + 3]);
    let r = (298 * c + 409 * e + 128) as i32;
    let g = (298 * c - 100 * d - 208 * e + 128) as i32;
    let b = (298 * c + 516 * d + 128) as i32;
    lemma_shr8_is_floor_div(r);
    lemma_shr8_is_floor_div(g);
    lemma_shr8_is_floor_div(b);
    let out = spec_yuyv_to_rgb(data, n_pixels);
    assert((3 * p) / 3 == p && (3 * p) % 3 == 0);
    assert((3 * p + 1) / 3 == p && (3 * p + 1) % 3 == 1);
    assert((3 * p + 2) / 3 == p && (3 * p + 2) % 3 == 2);
}

/// The sensor fixes as pixel moves on a `width × height` RGB8 image: the vertical flip puts
/// input pixel `(x, height-1-y)` at `(x, y)` (rows reversed, each row kept in order); the
/// 180° rotation puts input pixel `(width-1-x, height-1-y)` there. Without a fix, or when the
/// decoder already oriented the image, the pixels are returned unchanged.
pub proof fn lemma_sensor_fix_moves_pixels(
    rgb: Seq<u8>,
    width: u32,
    height: u32,
    x: int,
    y: int,
    k: int,
)
    requires
        0 <= x < width,
        0 <= y < height,
        0 <= k < 3,
        3 * width * height <= rgb.len(),
        3 * width * height <= usize::MAX,
    ensures
        spec_sensor_fix(rgb, width, height, false, V4lPixelFix::FlipVertical) matches Ok(out) && out.len()
            == 3 * width * height && out[3 * (y * width + x) + k] == rgb[3 * ((height - 1 - y)
            * width + x) + k],
        spec_sensor_fix(rgb, width, height, false, V4lPixelFix::Rotate180) matches Ok(out) && out.len()
            == 3 * width * height && out[3 * (y * width + x) + k] == rgb[3 * ((height - 1 - y)
            * width + (width - 1 - x)) + k],
        spec_sensor_fix(rgb, width, height, false, V4lPixelFix::NoFix) == Ok::<Seq<u8>, ()>(rgb),
        spec_sensor_fix(rgb, width, height, true, V4lPixelFix::FlipVertical) == Ok::<Seq<u8>, ()>(rgb),
        spec_sensor_fix(rgb, width, height, true, V4lPixelFix::Rotate180) == Ok::<Seq<u8>, ()>(rgb),
{
    let w = width as int;
    let h = height as int;
    let p = y * w + x;
    let i = 3 * p + k;
    assert(p / w == y && p % w == x && p < w * h && 0 <= p) by (nonlinear_arith)
        requires
            p == y * w + x,
            0 <= x < w,
            0 <= y < h,
    ;
    assert(w * h - 1 - p == (h - 1 - y) * w + (w - 1 - x)) by (nonlinear_arith)
        requires
            p == y * w + x,
    ;
    assert(3 * width * height == 3 * (w * h)) by (nonlinear_arith)
        requires
            w == width,
            h == height,
    ;
    assert(i / 3 == p && i % 3 == k);
    let flip = spec_flip_vertical(rgb, width as nat, height as nat);
    assert(flip[i] == rgb[3 * ((h - 1 - p / w) * w + p % w) + i % 3]);
    let rot = spec_rotate180(rgb, (width * height) as nat);
    assert(rot[i] == rgb[3 * ((width * height) as nat - 1 - i / 3) + i % 3]);
}

/// A fix is refused, not applied to part of the image, when the buffer holds fewer than
/// `width × height` RGB8 pixels.
pub proof fn lemma_sensor_fix_refuses_short_buffer(
    rgb: Seq<u8>,
    width: u32,
    height: u32,
    fix: V4lPixelFix,
)
    requires
        fix != V4lPixelFix::NoFix,
        rgb.len() < 3 * width * height,
    ensures
        spec_sensor_fix(rgb, width, height, false, fix) is Err,
{
}

/// ASCII lower-casing of one character (other characters are kept).
pub open spec fn ascii_lowercase(c: char) -> char {
    if 'A' <= c && c <= 'Z' {
        ((c as int) + 32) as char
    } else {
        c
    }
}

proof fn lemma_lowercase_is(c: char, lower: char, upper: char)
    requires
        'a' <= lower <= 'z',
        (upper as int) + 32 == lower as int,
    ensures
        ascii_lowercase(c) == lower <==> (c == lower || c == upper),
{
    if 'A' <= c && c <= 'Z' {
        assert(ascii_lowercase(c) as int == c as int + 32);
    }
}

/// A switch in the environment is on exactly when its value is `1`, or `true` in any ASCII
/// case (`true`, `True`, `TRUE`, `tRuE`, …).
pub proof fn lemma_env_truthy_is_one_or_true(v: Seq<char>)
    ensures
        spec_env_truthy(v) <==> (v == seq!['1'] || (v.len() == 4 && ascii_lowercase(v[0]) == 't'
            && ascii_lowercase(v[1]) == 'r' && ascii_lowercase(v[2]) == 'u' && ascii_lowercase(
            v[3],
        ) == 'e')),
{
    if v.len() == 4 {
        lemma_lowercase_is(v[0], 't', 'T');
        lemma_lowercase_is(v[1], 'r', 'R');
        lemma_lowercase_is(v[2], 'u', 'U');
        lemma_lowercase_is(v[3], 'e', 'E');
    }
}

} // verus!

