//! Screenshots of the device.

use crate::adb::encoding::{
    base64_encode, base64_limit, base64_standard, black_png, black_png_bytes, fits_base64,
    read_picture_size,
};
use crate::text::{contains, contains_str, to_chars};
use vstd::prelude::*;

verus! {

/// A captured screen.
#[derive(Debug, Clone, PartialEq, Eq)]
pub struct Screenshot {
    /// The image as a PNG in base64.
    pub base64_data: String,
    /// The width of the screen in pixels.
    pub width: u32,
    /// The height of the screen in pixels.
    pub height: u32,
    /// Whether the screen refused to be captured.
    pub is_sensitive: bool,
}

/// What went wrong with a screenshot.
#[derive(Debug, Clone, PartialEq, Eq)]
pub enum ScreenshotError {
    CaptureFailed(String),
    PullFailed(String),
    ImageReadFailed(String),
    Timeout,
}

/// The text of an error, as it is shown to a reader.
pub open spec fn screenshot_error_text(e: ScreenshotError) -> Seq<char> {
    match e {
        ScreenshotError::CaptureFailed(t) => "Failed to capture screenshot: "@ + t@,
        ScreenshotError::PullFailed(t) => "Failed to pull screenshot: "@ + t@,
        ScreenshotError::ImageReadFailed(t) => "Failed to read image: "@ + t@,
        ScreenshotError::Timeout => "Screenshot timeout"@,
    }
}

impl ScreenshotError {
    /// The text of the error, as it is shown to a reader.
    pub fn message(&self) -> (r: String)
        ensures
            r@ == screenshot_error_text(*self),
    {
        let (head, tail) = match self {
            ScreenshotError::CaptureFailed(t) => ("Failed to capture screenshot: ", t.as_str()),
            ScreenshotError::PullFailed(t) => ("Failed to pull screenshot: ", t.as_str()),
            ScreenshotError::ImageReadFailed(t) => ("Failed to read image: ", t.as_str()),
            ScreenshotError::Timeout => ("Screenshot timeout", ""),
        };
        proof {
            reveal_strlit("");
            assert(""@ =~= Seq::<char>::empty());
        }
        let mut out = to_chars(head);
        crate::text::push_str(&mut out, tail);
        assert(out@ =~= screenshot_error_text(*self));
        crate::text::from_chars(&out)
    }
}

/// The width of the picture that stands in for a screen that could not be
/// captured.
pub const FALLBACK_WIDTH: u32 = 1080;

/// The height of the picture that stands in for a screen that could not be
/// captured.
pub const FALLBACK_HEIGHT: u32 = 2400;

/// The first eight bytes of every PNG.
pub open spec fn png_signature() -> Seq<u8> {
    seq![0x89u8, 0x50u8, 0x4eu8, 0x47u8, 0x0du8, 0x0au8, 0x1au8, 0x0au8]
}

/// Whether the words that came with a capture say that it failed.
pub open spec fn capture_refused(stderr: Seq<char>) -> bool {
    contains(stderr, "Status: -1"@) || contains(stderr, "Failed"@) || contains(stderr, "error"@)
}

/// What a capture is taken for.
pub enum CaptureView {
    /// The screen refused to be captured.
    Refused,
    /// What came is no picture.
    Broken,
    /// A picture of this size.
    Picture(u32, u32),
}

/// Whether `png` starts as every PNG does.
pub open spec fn starts_as_png(png: Seq<u8>) -> bool {
    png.len() >= 8 && png.subrange(0, 8) == png_signature()
}

/// What the bytes and the words of a capture are taken for, where `size`
/// is what was read from the bytes as a picture: a refusal where the words
/// say so; else broken where the bytes do not start as a PNG does or no
/// picture was read from them; else the picture.
pub open spec fn capture_kind(png: Seq<u8>, stderr: Seq<char>, size: Option<(u32, u32)>)
    -> CaptureView {
    if capture_refused(stderr) {
        CaptureView::Refused
    } else if !starts_as_png(png) {
        CaptureView::Broken
    } else {
        match size {
            Some((w, h)) => CaptureView::Picture(w, h),
            None => CaptureView::Broken,
        }
    }
}

/// The base64 text of `bytes`, or nothing where they are too many to be
/// encoded.
pub open spec fn encoded(bytes: Seq<u8>) -> Seq<char> {
    if bytes.len() <= base64_limit() {
        base64_standard(bytes)
    } else {
        Seq::empty()
    }
}

/// Whether `shot` is the screenshot that a capture of the kind `kind` with
/// the bytes `png` gives: the picture itself, or the black picture where
/// the capture was refused or broken. Only a refused capture counts as
/// sensitive.
pub open spec fn taken_as(shot: Screenshot, kind: CaptureView, png: Seq<u8>) -> bool {
    match kind {
        CaptureView::Refused => shot.is_sensitive && shot.width == FALLBACK_WIDTH && shot.height
            == FALLBACK_HEIGHT && shot.base64_data@ == encoded(
            black_png_bytes(FALLBACK_WIDTH, FALLBACK_HEIGHT),
        ),
        CaptureView::Broken => !shot.is_sensitive && shot.width == FALLBACK_WIDTH && shot.height
            == FALLBACK_HEIGHT && shot.base64_data@ == encoded(
            black_png_bytes(FALLBACK_WIDTH, FALLBACK_HEIGHT),
        ),
        CaptureView::Picture(w, h) => !shot.is_sensitive && shot.width == w && shot.height == h
            && shot.base64_data@ == encoded(png),
    }
}

impl Screenshot {
    /// A screenshot.
    pub fn new(base64_data: String, width: u32, height: u32, is_sensitive: bool) -> (r: Self)
        ensures
            r.base64_data == base64_data,
            r.width == width,
            r.height == height,
            r.is_sensitive == is_sensitive,
    {
        Screenshot { base64_data, width, height, is_sensitive }
    }

    /// The black picture that stands in for a screen that could not be
    /// captured.
    pub fn fallback(is_sensitive: bool) -> (r: Self)
        ensures
            r.width == FALLBACK_WIDTH,
            r.height == FALLBACK_HEIGHT,
            r.is_sensitive == is_sensitive,
            r.base64_data@ == encoded(black_png_bytes(FALLBACK_WIDTH, FALLBACK_HEIGHT)),
    {
        let png = black_png(FALLBACK_WIDTH, FALLBACK_HEIGHT);
        let base64_data = if fits_base64(png.len()) {
            base64_encode(png.as_slice())
        } else {
            String::new()
        };
        Screenshot { base64_data, width: FALLBACK_WIDTH, height: FALLBACK_HEIGHT, is_sensitive }
    }

    /// Whether `png` starts as every PNG does.
    fn has_signature(png: &Vec<u8>) -> (r: bool)
        ensures
            r == starts_as_png(png@),
    {
        if png.len() < 8 {
            return false;
        }
        let ok = png[0] == 0x89 && png[1] == 0x50 && png[2] == 0x4e && png[3] == 0x47 && png[4]
            == 0x0d && png[5] == 0x0a && png[6] == 0x1a && png[7] == 0x0a;
        if !ok {
            assert(png@.subrange(0, 8) != png_signature()) by {
                let head = png@.subrange(0, 8);
                if head == png_signature() {
                    assert(head[0] == png@[0] && head[1] == png@[1] && head[2] == png@[2]
                        && head[3] == png@[3] && head[4] == png@[4] && head[5] == png@[5]
                        && head[6] == png@[6] && head[7] == png@[7]);
                }
            }
        } else {
            assert(png@.subrange(0, 8) =~= png_signature());
        }
        ok
    }

    /// The screenshot that the bytes and the words of a capture stand for,
    /// where `size` is what was read from the bytes as a picture: the
    /// picture itself, or the black picture where the capture was refused
    /// or broken.
    pub fn from_reading(png: &Vec<u8>, stderr: &str, size: Option<(u32, u32)>) -> (r: Self)
        ensures
            taken_as(r, capture_kind(png@, stderr@, size), png@),
    {
        let words = to_chars(stderr);
        if contains_str(&words, "Status: -1") || contains_str(&words, "Failed") || contains_str(
            &words,
            "error",
        ) {
            return Self::fallback(true);
        }
        if !Self::has_signature(png) {
            return Self::fallback(false);
        }
        match size {
            Some((width, height)) => {
                let base64_data = if fits_base64(png.len()) {
                    base64_encode(png.as_slice())
                } else {
                    String::new()
                };
                Screenshot { base64_data, width, height, is_sensitive: false }
            },
            None => Self::fallback(false),
        }
    }

    /// The screenshot that the bytes and the words of a capture stand for.
    /// The bytes are read as a picture where they start as a PNG does; the
    /// screenshot is the one that this reading gives, whatever it is.
    pub fn from_capture(png: &Vec<u8>, stderr: &str) -> (r: Self)
        ensures
            exists|size: Option<(u32, u32)>| taken_as(r, capture_kind(png@, stderr@, size), png@),
            !starts_as_png(png@) || capture_refused(stderr@) ==> taken_as(
                r,
                capture_kind(png@, stderr@, None),
                png@,
            ),
    {
        let size = if Self::has_signature(png) {
            read_picture_size(png.as_slice())
        } else {
            None
        };
        Self::from_reading(png, stderr, size)
    }
}

} // verus!
