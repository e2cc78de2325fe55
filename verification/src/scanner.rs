//! One frame of the scan loop: which text counts as a code, and the picture
//! that goes to the texture.

use crate::event::{Error, Handle};
use image::buffer::ConvertBuffer;
use image::{Bgr, ImageBuffer, RgbaImage};
use vstd::prelude::*;

verus! {

/// The RGBA bytes of the first `pixels` pixels of a BGR byte sequence: each
/// pixel's three channels in reverse order, followed by full opacity.
pub open spec fn rgba_of(bgr: Seq<u8>, pixels: nat) -> Seq<u8> {
    Seq::new(
        4 * pixels,
        |i: int|
            if i % 4 == 3 {
                255u8
            } else {
                bgr[3 * (i / 4) + 2 - i % 4]
            },
    )
}

/// The code that a decoding attempt yields: its text, unless the attempt
/// failed or the text is empty.
pub open spec fn found(decoded: Result<String, Error>) -> Option<Seq<char>> {
    match decoded {
        Ok(text) => if text@.len() > 0 {
            Some(text@)
        } else {
            None
        },
        Err(_) => None,
    }
}

/// What a code is as a mathematical value.
pub open spec fn code_view(code: Option<String>) -> Option<Seq<char>> {
    match code {
        Some(text) => Some(text@),
        None => None,
    }
}

/// `image::ImageBuffer::from_raw` for BGR pixels, then
/// `image::ConvertBuffer::convert` to RGBA and `ImageBuffer::into_raw`.
/// The contract claims that the buffer is accepted exactly when it holds at
/// least three bytes for each of `width * height` pixels, and that the
/// conversion writes for each pixel its red, green and blue byte and then 255.
/// Both calls multiply the channels by the width first and then by the
/// height, in `usize`, and the second allocates the result: the bounds keep
/// the four bytes of a row's pixels within a `usize`, whatever the height,
/// and the new buffer within what a vector can hold.
#[verifier::external_body]
fn bgr_to_rgba(width: u32, height: u32, pixels: Vec<u8>) -> (picture: Option<Vec<u8>>)
    requires
        4 * width <= usize::MAX,
        4 * width * height <= isize::MAX,
    ensures
        picture.is_some() == (3 * width * height <= pixels@.len()),
        picture matches Some(bytes) ==> bytes@ == rgba_of(pixels@, (width * height) as nat),
{
    match ImageBuffer::<Bgr<u8>, Vec<u8>>::from_raw(width, height, pixels) {
        Some(frame) => {
            let picture: RgbaImage = frame.convert();
            Some(picture.into_raw())
        },
        None => None,
    }
}

/// What one frame gives: the code read from it, if any, and its picture as
/// RGBA bytes.
#[derive(Debug)]
pub struct Scan {
    pub code: Option<String>,
    pub picture: Vec<u8>,
}

/// The frame logic of one session. Its dimensions are those of the first
/// frame of the session; both are positive and never change.
#[derive(Debug)]
pub struct QrCodeScanner {
    width: u32,
    height: u32,
}

impl QrCodeScanner {
    #[verifier::type_invariant]
    spec fn positive(self) -> bool {
        self.width > 0 && self.height > 0
    }

    pub closed spec fn spec_width(&self) -> u32 {
        self.width
    }

    pub closed spec fn spec_height(&self) -> u32 {
        self.height
    }

    /// Whether `len` bytes of BGR data make a whole frame of this scanner that
    /// can be turned into a picture: three bytes for each pixel are there, and
    /// the four bytes for each pixel of the picture can be counted and held.
    pub open spec fn fits(&self, len: nat) -> bool {
        &&& 3 * self.width() * self.height() <= len
        &&& 4 * self.width() <= usize::MAX
        &&& 4 * self.width() * self.height() <= isize::MAX
    }

    /// The first frame of a camera that can serve a session: the camera has
    /// opened, and the frame has pixels.
    pub open spec fn usable(first_frame: Option<(i32, i32)>) -> bool {
        first_frame matches Some(size) && size.0 > 0 && size.1 > 0
    }

    /// A scanner for a camera whose first frame has the size `first_frame`
    /// (columns, rows); `None` stands for a camera that did not open. A
    /// camera that did not open, or whose first frame has no pixels, cannot
    /// serve a session.
    pub fn new(first_frame: Option<(i32, i32)>) -> (scanner: Result<Self, Error>)
        ensures
            scanner is Ok <==> Self::usable(first_frame),
            scanner matches Ok(s) ==> s.width() == first_frame.unwrap().0 && s.height()
                == first_frame.unwrap().1,
            scanner matches Err(error) ==> error == Error::OpenCamera,
    {
        match first_frame {
            Some(size) => {
                if size.0 > 0 && size.1 > 0 {
                    Ok(QrCodeScanner { width: size.0 as u32, height: size.1 as u32 })
                } else {
                    Err(Error::OpenCamera)
                }
            },
            None => Err(Error::OpenCamera),
        }
    }

    /// The handle under which a session of this scanner is announced when it
    /// publishes to the texture `texture_id`. Its dimensions are positive.
    pub fn handle(&self, texture_id: i64) -> (handle: Handle)
        ensures
            handle.texture_id == texture_id,
            handle.width == self.width(),
            handle.height == self.height(),
            handle.width > 0,
            handle.height > 0,
    {
        proof {
            use_type_invariant(self);
        }
        Handle { texture_id, width: self.width as i64, height: self.height as i64 }
    }

    /// Handles one captured frame: `decoded` is what the detector made of it,
    /// `pixels` its BGR bytes. An empty text is no code.
    pub fn frame(&self, decoded: Result<String, Error>, pixels: Vec<u8>) -> (scan: Scan)
        requires
            self.fits(pixels@.len()),
        ensures
            code_view(scan.code) == found(decoded),
            scan.picture@ == rgba_of(pixels@, (self.width() * self.height()) as nat),
    {
        let code = match decoded {
            Ok(text) => if text.as_str().is_empty() {
                None
            } else {
                Some(text)
            },
            Err(_) => None,
        };
        let picture = bgr_to_rgba(self.width, self.height, pixels).unwrap();
        Scan { code, picture }
    }

    /// Whether `frame` accepts `len` bytes of pixel data.
    pub fn accepts(&self, len: usize) -> (ok: bool)
        ensures
            ok == self.fits(len as nat),
    {
        proof {
            assert(self.width * self.height <= 0xFFFF_FFFF * 0xFFFF_FFFF) by (nonlinear_arith)
                requires
                    self.width <= 0xFFFF_FFFF,
                    self.height <= 0xFFFF_FFFF,
            ;
            assert(3 * self.width * self.height == self.width * self.height * 3 && 4 * self.width
                * self.height == self.width * self.height * 4) by (nonlinear_arith);
        }
        let area: u64 = self.width as u64 * self.height as u64;
        self.width as u64 <= usize::MAX as u64 / 4 && area <= isize::MAX as u64 / 4 && area * 3
            <= len as u64
    }

    /// The width of every frame of the session, in pixels.
    #[verifier::when_used_as_spec(spec_width)]
    pub fn width(&self) -> (width: u32)
        ensures
            width == self.spec_width(),
            width > 0,
    {
        proof {
            use_type_invariant(self);
        }
        self.width
    }

    /// The height of every frame of the session, in pixels.
    #[verifier::when_used_as_spec(spec_height)]
    pub fn height(&self) -> (height: u32)
        ensures
            height == self.spec_height(),
            height > 0,
    {
        proof {
            use_type_invariant(self);
        }
        self.height
    }
}

} // verus!
