//! Raster images held as plain pixel buffers.

use vstd::prelude::*;

verus! {

/// The pixel layouts a raster image may have: 8 bits per channel.
#[derive(Clone, Copy, Debug, PartialEq, Eq, Structural)]
pub enum PixelFormat {
    Rgb8,
    Rgba8,
}

/// Bytes per pixel of a format.
pub open spec fn bytes_per_pixel(format: PixelFormat) -> nat {
    match format {
        PixelFormat::Rgb8 => 3,
        PixelFormat::Rgba8 => 4,
    }
}

/// Length of a pixel buffer of `width` x `height` pixels with `bpp` bytes each.
pub open spec fn buffer_len(width: u32, height: u32, bpp: nat) -> int {
    width as int * height as int * bpp as int
}

impl PixelFormat {
    /// Bytes per pixel of this format.
    pub fn bytes_per_pixel(&self) -> (r: usize)
        ensures
            r as nat == bytes_per_pixel(*self),
    {
        match self {
            PixelFormat::Rgb8 => 3,
            PixelFormat::Rgba8 => 4,
        }
    }
}

/// An owned pixel buffer with its dimensions and format, rows top to bottom,
/// pixels left to right.
#[derive(Debug)]
pub struct RasterImage {
    pub width: u32,
    pub height: u32,
    pub format: PixelFormat,
    pub data: Vec<u8>,
}

/// The buffer length a well-formed image of these dimensions and format has.
pub open spec fn image_len(width: u32, height: u32, format: PixelFormat) -> int {
    buffer_len(width, height, bytes_per_pixel(format))
}

/// RGBA pixels of an RGB buffer: each pixel keeps its channels and gains an
/// opaque alpha channel.
pub open spec fn rgba_of_rgb(rgb: Seq<u8>) -> Seq<u8> {
    Seq::new(
        (rgb.len() / 3 * 4) as nat,
        |i: int| if i % 4 == 3 { 255u8 } else { rgb[i / 4 * 3 + i % 4] },
    )
}

/// An all-zero (transparent black) RGBA buffer of `n` bytes.
pub open spec fn zeros(n: nat) -> Seq<u8> {
    Seq::new(n, |i: int| 0u8)
}

impl RasterImage {
    /// The buffer holds exactly one pixel of the format for each position.
    pub open spec fn wf(&self) -> bool {
        self.data@.len() == image_len(self.width, self.height, self.format)
    }

    /// The image's pixels as 8-bit RGBA.
    pub open spec fn rgba8_view(&self) -> Seq<u8> {
        match self.format {
            PixelFormat::Rgb8 => rgba_of_rgb(self.data@),
            PixelFormat::Rgba8 => self.data@,
        }
    }

    /// Builds an image from a raw buffer. Fails exactly when the buffer is
    /// shorter than the dimensions and format declare; a longer buffer is cut
    /// to the declared length.
    pub fn from_raw(width: u32, height: u32, format: PixelFormat, data: Vec<u8>) -> (r: Option<
        RasterImage,
    >)
        ensures
            r.is_some() <==> image_len(width, height, format) <= data@.len(),
            r matches Some(img) ==> {
                &&& img.wf()
                &&& img.width == width
                &&& img.height == height
                &&& img.format == format
                &&& img.data@ == data@.subrange(0, image_len(width, height, format))
            },
    {
        let available = data.len();
        let needed = (width as usize).checked_mul(height as usize);
        let needed = match needed {
            Some(n) => n.checked_mul(format.bytes_per_pixel()),
            None => None,
        };
        proof {
            assert(width as int * height as int >= 0) by (nonlinear_arith);
            assert(width as int * height as int * bytes_per_pixel(format) as int >= width as int
                * height as int) by (nonlinear_arith)
                requires
                    bytes_per_pixel(format) >= 3,
                    width as int * height as int >= 0,
            ;
        }
        match needed {
            Some(len) => {
                if len <= available {
                    let mut buf = data;
                    buf.truncate(len);
                    Some(RasterImage { width, height, format, data: buf })
                } else {
                    None
                }
            },
            None => None,
        }
    }

    /// Number of bytes that the RGBA form of a `width` x `height` image takes,
    /// or `None` where that does not fit in `usize`.
    pub fn rgba8_len(width: u32, height: u32) -> (r: Option<usize>)
        ensures
            r.is_some() <==> buffer_len(width, height, 4) <= usize::MAX,
            r matches Some(n) ==> n as int == buffer_len(width, height, 4),
    {
        proof {
            assert(width as int * height as int >= 0) by (nonlinear_arith);
            assert(width as int * height as int * 4 >= width as int * height as int)
                by (nonlinear_arith)
                requires
                    width as int * height as int >= 0,
            ;
        }
        match (width as usize).checked_mul(height as usize) {
            Some(n) => n.checked_mul(4),
            None => None,
        }
    }

    /// A blank canvas: every pixel transparent black, in RGBA.
    pub fn blank(width: u32, height: u32) -> (r: RasterImage)
        requires
            buffer_len(width, height, 4) <= usize::MAX,
        ensures
            r.wf(),
            r.width == width,
            r.height == height,
            r.format == PixelFormat::Rgba8,
            r.data@ == zeros(buffer_len(width, height, 4) as nat),
    {
        proof {
            assert(width as int * height as int >= 0) by (nonlinear_arith);
        }
        let len = width as usize * height as usize * 4;
        let data: Vec<u8> = vec![0u8; len];
        proof {
            assert(data@ =~= zeros(len as nat));
        }
        RasterImage { width, height, format: PixelFormat::Rgba8, data }
    }

    /// The image's pixels as 8-bit RGBA, the form the similarity metric reads.
    pub fn to_rgba8(&self) -> (r: Vec<u8>)
        requires
            self.wf(),
            buffer_len(self.width, self.height, 4) <= usize::MAX,
        ensures
            r@ == self.rgba8_view(),
            r@.len() == buffer_len(self.width, self.height, 4),
    {
        match self.format {
            PixelFormat::Rgba8 => {
                let r = self.data.clone();
                proof {
                    assert(r@ =~= self.data@);
                }
                r
            },
            PixelFormat::Rgb8 => {
                proof {
                    lemma_rgb_len(self.width, self.height);
                }
                rgb8_to_rgba8(self.width, self.height, self.data.clone())
            },
        }
    }
}

proof fn lemma_rgb_len(width: u32, height: u32)
    ensures
        buffer_len(width, height, 3) / 3 * 4 == buffer_len(width, height, 4),
{
    let n = width as int * height as int;
    assert(n * 3 / 3 == n) by (nonlinear_arith);
    assert(n * 3 == buffer_len(width, height, 3));
    assert(n * 4 == buffer_len(width, height, 4));
}

/// Relies on `image::DynamicImage::to_rgba8`: an 8-bit RGB pixel becomes an
/// RGBA pixel with the same channels and alpha at its maximum.
#[verifier::external_body]
fn rgb8_to_rgba8(width: u32, height: u32, data: Vec<u8>) -> (r: Vec<u8>)
    requires
        data@.len() == buffer_len(width, height, 3),
        buffer_len(width, height, 4) <= usize::MAX,
    ensures
        r@ == rgba_of_rgb(data@),
{
    let buffer = image::RgbImage::from_raw(width, height, data).unwrap();
    image::DynamicImage::ImageRgb8(buffer).to_rgba8().into_raw()
}

} // verus!
