//! Video frames: a pixel buffer whose length always matches its dimensions.

use vstd::prelude::*;

verus! {

/// Which camera stream a frame came from.
#[derive(Debug, Clone, Copy, PartialEq, Eq, Structural)]
pub enum StreamModality {
    Rgb,
    Ir,
}

/// Pixel layout of a frame buffer.
#[derive(Debug, Clone, Copy, PartialEq, Eq, Structural)]
pub enum PixelFormat {
    Rgb8,
    Gray8,
}

impl PixelFormat {
    /// Bytes per pixel of the format, as a number.
    pub open spec fn spec_bytes_per_pixel(self) -> nat {
        match self {
            PixelFormat::Rgb8 => 3,
            PixelFormat::Gray8 => 1,
        }
    }

    pub fn bytes_per_pixel(self) -> (r: usize)
        ensures
            r == self.spec_bytes_per_pixel(),
    {
        match self {
            PixelFormat::Rgb8 => 3,
            PixelFormat::Gray8 => 1,
        }
    }
}

/// Buffer length that a `width × height` frame of `format` needs, as a mathematical integer.
pub open spec fn frame_len(width: u32, height: u32, format: PixelFormat) -> int {
    width * height * format.spec_bytes_per_pixel()
}

/// A gray buffer widened to RGB: every gray byte repeated for the three channels.
pub open spec fn gray_to_rgb_spec(gray: Seq<u8>) -> Seq<u8> {
    Seq::new(3 * gray.len(), |i: int| gray[i / 3])
}

/// Widens the first `count` gray bytes to RGB (`g` becomes `g, g, g`).
pub fn gray_prefix_to_rgb(gray: &[u8], count: usize) -> (r: Vec<u8>)
    requires
        count <= gray@.len(),
        3 * count <= usize::MAX,
    ensures
        r@ == gray_to_rgb_spec(gray@.take(count as int)),
{
    let mut out: Vec<u8> = Vec::new();
    let mut i: usize = 0;
    while i < count
        invariant
            i <= count,
            count <= gray@.len(),
            3 * count <= usize::MAX,
            out@.len() == 3 * i,
            forall|j: int| 0 <= j < 3 * i ==> #[trigger] out@[j] == gray@[j / 3],
        decreases count - i,
    {
        let g = gray[i];
        out.push(g);
        out.push(g);
        out.push(g);
        assert forall|j: int| 0 <= j < 3 * (i + 1) implies #[trigger] out@[j] == gray@[j / 3] by {
            if j >= 3 * i {
                assert(j / 3 == i) by (nonlinear_arith)
                    requires
                        3 * i <= j < 3 * i + 3,
                ;
            }
        }
        i = i + 1;
    }
    assert(out@ =~= gray_to_rgb_spec(gray@.take(count as int)));
    out
}

/// Why a buffer cannot become a [`Frame`].
#[derive(Debug, Clone, PartialEq, Eq)]
pub enum FrameError {
    DimensionsOverflow { width: u32, height: u32, format: PixelFormat },
    LengthMismatch {
        width: u32,
        height: u32,
        format: PixelFormat,
        actual: usize,
        expected: usize,
    },
}

/// What a frame holds, as plain values.
pub struct FrameView {
    pub modality: StreamModality,
    pub width: u32,
    pub height: u32,
    pub format: PixelFormat,
    pub bytes: Seq<u8>,
}

/// One video frame. Buffer length is always `width × height × bytes_per_pixel`.
#[derive(Debug)]
pub struct Frame {
    modality: StreamModality,
    width: u32,
    height: u32,
    format: PixelFormat,
    bytes: Vec<u8>,
}

impl View for Frame {
    type V = FrameView;

    closed spec fn view(&self) -> FrameView {
        FrameView {
            modality: self.modality,
            width: self.width,
            height: self.height,
            format: self.format,
            bytes: self.bytes@,
        }
    }
}

impl Frame {
    #[verifier::type_invariant]
    closed spec fn buffer_matches_dimensions(self) -> bool {
        self.bytes@.len() == frame_len(self.width, self.height, self.format)
    }

    /// `width × height × bytes_per_pixel`, or `None` when it does not fit in `usize`.
    pub fn expected_len(width: u32, height: u32, format: PixelFormat) -> (r: Option<usize>)
        ensures
            frame_len(width, height, format) <= usize::MAX ==> r == Some(
                frame_len(width, height, format) as usize,
            ),
            frame_len(width, height, format) > usize::MAX ==> r.is_none(),
    {
        let bpp = format.bytes_per_pixel();
        let w = width as usize;
        let h = height as usize;
        match w.checked_mul(h) {
            Some(n) => {
                let r = n.checked_mul(bpp);
                assert(frame_len(width, height, format) == n * bpp);
                r
            },
            None => {
                assert(w * h <= w * h * bpp) by (nonlinear_arith)
                    requires
                        bpp >= 1,
                ;
                None
            },
        }
    }

    /// Builds a frame, refusing a buffer whose length does not match the dimensions.
    pub fn new(
        modality: StreamModality,
        width: u32,
        height: u32,
        format: PixelFormat,
        bytes: Vec<u8>,
    ) -> (r: Result<Self, FrameError>)
        ensures
            frame_len(width, height, format) > usize::MAX ==> r == Err::<Frame, FrameError>(
                FrameError::DimensionsOverflow { width, height, format },
            ),
            frame_len(width, height, format) <= usize::MAX && bytes@.len() != frame_len(
                width,
                height,
                format,
            ) ==> r == Err::<Frame, FrameError>(
                FrameError::LengthMismatch {
                    width,
                    height,
                    format,
                    actual: bytes@.len() as usize,
                    expected: frame_len(width, height, format) as usize,
                },
            ),
            bytes@.len() == frame_len(width, height, format) ==> (r matches Ok(f) && f@ == (
            FrameView { modality, width, height, format, bytes: bytes@ })),
    {
        let actual = bytes.len();
        let expected = match Self::expected_len(width, height, format) {
            Some(e) => e,
            None => {
                return Err(FrameError::DimensionsOverflow { width, height, format });
            },
        };
        if actual != expected {
            return Err(
                FrameError::LengthMismatch {
                    width,
                    height,
                    format,
                    actual,
                    expected,
                },
            );
        }
        Ok(Frame { modality, width, height, format, bytes })
    }

    pub fn modality(&self) -> (r: StreamModality)
        ensures
            r == self@.modality,
    {
        self.modality
    }

    pub fn width(&self) -> (r: u32)
        ensures
            r == self@.width,
    {
        self.width
    }

    pub fn height(&self) -> (r: u32)
        ensures
            r == self@.height,
    {
        self.height
    }

    pub fn format(&self) -> (r: PixelFormat)
        ensures
            r == self@.format,
    {
        self.format
    }

    pub fn bytes(&self) -> (r: &[u8])
        ensures
            r@ == self@.bytes,
            r@.len() == frame_len(self@.width, self@.height, self@.format),
    {
        proof {
            use_type_invariant(self);
        }
        self.bytes.as_slice()
    }

    /// The frame's pixels as RGB8 bytes: RGB frames as they are, gray frames widened.
    pub fn rgb_bytes(&self) -> (r: Vec<u8>)
        requires
            frame_len(self@.width, self@.height, PixelFormat::Rgb8) <= usize::MAX,
        ensures
            self@.format == PixelFormat::Rgb8 ==> r@ == self@.bytes,
            self@.format == PixelFormat::Gray8 ==> r@ == gray_to_rgb_spec(self@.bytes),
            r@.len() == frame_len(self@.width, self@.height, PixelFormat::Rgb8),
    {
        proof {
            use_type_invariant(self);
        }
        match self.format {
            PixelFormat::Rgb8 => self.bytes.clone(),
            PixelFormat::Gray8 => {
                let n = self.bytes.len();
                let r = gray_prefix_to_rgb(self.bytes.as_slice(), n);
                assert(self.bytes@.take(n as int) =~= self.bytes@);
                r
            },
        }
    }

    /// The frame's pixels as RGB8 bytes, or `None` when an RGB8 buffer of its size would not
    /// fit in memory.
    pub fn try_rgb_bytes(&self) -> (r: Option<Vec<u8>>)
        ensures
            frame_len(self@.width, self@.height, PixelFormat::Rgb8) > usize::MAX ==> r is None,
            frame_len(self@.width, self@.height, PixelFormat::Rgb8) <= usize::MAX ==> (r matches Some(
                b,
            ) && (self@.format == PixelFormat::Rgb8 ==> b@ == self@.bytes) && (self@.format
                == PixelFormat::Gray8 ==> b@ == gray_to_rgb_spec(self@.bytes))),
    {
        match Self::expected_len(self.width, self.height, PixelFormat::Rgb8) {
            None => None,
            Some(_) => Some(self.rgb_bytes()),
        }
    }

    pub fn into_bytes(self) -> (r: Vec<u8>)
        ensures
            r@ == self@.bytes,
            r@.len() == frame_len(self@.width, self@.height, self@.format),
    {
        proof {
            use_type_invariant(&self);
        }
        self.bytes
    }
}

impl Clone for Frame {
    fn clone(&self) -> (r: Self)
        ensures
            r@ == self@,
    {
        proof {
            use_type_invariant(self);
        }
        Frame {
            modality: self.modality,
            width: self.width,
            height: self.height,
            format: self.format,
            bytes: self.bytes.clone(),
        }
    }
}

} // verus!
