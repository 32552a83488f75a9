//! Tightly packed RGBA8 images for the fixed base-color texture path.

use vstd::prelude::*;
use vstd::string::StringExecFns;

use crate::debug_text::{decimal, push_decimal, text_of};

verus! {

/// Why an [`Rgba8Image`] could not be constructed.
#[derive(Clone, Debug, PartialEq, Eq, Structural)]
pub enum Rgba8ImageError {
    /// The image width is zero.
    ZeroWidth,
    /// The image height is zero.
    ZeroHeight,
    /// The requested tightly packed byte length cannot be represented locally.
    ByteLengthOverflow,
    /// The supplied payload is not exactly one full tightly packed image.
    IncorrectByteLength {
        /// Required byte count.
        expected: usize,
        /// Supplied byte count.
        actual: usize,
    },
}

/// The exact byte length of a tightly packed RGBA8 image of `extent`
/// texels, or why it has none.
pub open spec fn spec_rgba8_byte_len(extent: [u32; 2]) -> Result<usize, Rgba8ImageError> {
    if extent[0] == 0 {
        Err(Rgba8ImageError::ZeroWidth)
    } else if extent[1] == 0 {
        Err(Rgba8ImageError::ZeroHeight)
    } else if extent[0] * extent[1] * 4 > usize::MAX {
        Err(Rgba8ImageError::ByteLengthOverflow)
    } else {
        Ok((extent[0] * extent[1] * 4) as usize)
    }
}

/// Computes the tightly packed byte length of an RGBA8 image with checked
/// arithmetic: four bytes per texel, width times height texels.
pub fn rgba8_byte_len(extent: [u32; 2]) -> (result: Result<usize, Rgba8ImageError>)
    ensures
        result == spec_rgba8_byte_len(extent),
{
    let width = extent[0];
    let height = extent[1];
    if width == 0 {
        return Err(Rgba8ImageError::ZeroWidth);
    }
    if height == 0 {
        return Err(Rgba8ImageError::ZeroHeight);
    }
    let texels = match (width as u64).checked_mul(height as u64) {
        Some(texels) => texels,
        None => return Err(Rgba8ImageError::ByteLengthOverflow),
    };
    let bytes = match texels.checked_mul(4) {
        Some(bytes) => bytes,
        None => return Err(Rgba8ImageError::ByteLengthOverflow),
    };
    if bytes > usize::MAX as u64 {
        return Err(Rgba8ImageError::ByteLengthOverflow);
    }
    Ok(bytes as usize)
}

/// A tightly packed, immutable RGBA8 image for the fixed base-color path.
#[derive(Clone, Debug)]
pub struct Rgba8Image {
    extent: [u32; 2],
    pixels: Vec<u8>,
}

impl Rgba8Image {
    /// The image's texel extent.
    pub closed spec fn spec_extent(&self) -> [u32; 2] {
        self.extent
    }

    /// The image's row-major RGBA8 bytes.
    pub closed spec fn spec_pixels(&self) -> Seq<u8> {
        self.pixels@
    }

    /// Every image holds exactly one full tightly packed payload of its extent.
    pub closed spec fn well_formed(&self) -> bool {
        spec_rgba8_byte_len(self.extent) == Ok::<usize, Rgba8ImageError>(
            self.pixels@.len() as usize,
        )
    }

    /// Creates a full-image, tightly packed RGBA8 payload.
    ///
    /// Succeeds exactly when the extent is nonzero, its byte length is
    /// representable, and `pixels` holds exactly that many bytes.
    pub fn new(extent: [u32; 2], pixels: Vec<u8>) -> (result: Result<Self, Rgba8ImageError>)
        ensures
            match spec_rgba8_byte_len(extent) {
                Err(error) => result == Err::<Self, _>(error),
                Ok(expected) => if pixels@.len() == expected {
                    result matches Ok(image) && image.spec_extent() == extent
                        && image.spec_pixels() == pixels@ && image.well_formed()
                } else {
                    result == Err::<Self, _>(
                        Rgba8ImageError::IncorrectByteLength { expected, actual: pixels@.len() as usize },
                    )
                },
            },
    {
        let expected = match rgba8_byte_len(extent) {
            Ok(expected) => expected,
            Err(error) => return Err(error),
        };
        if pixels.len() != expected {
            return Err(Rgba8ImageError::IncorrectByteLength { expected, actual: pixels.len() });
        }
        Ok(Self { extent, pixels })
    }

    /// Returns the two-dimensional texel extent.
    pub fn extent(&self) -> (extent: [u32; 2])
        ensures
            extent == self.spec_extent(),
    {
        self.extent
    }

    /// Returns the tightly packed RGBA8 texels in row-major order.
    pub fn pixels(&self) -> (pixels: &[u8])
        ensures
            pixels@ == self.spec_pixels(),
    {
        self.pixels.as_slice()
    }
}

/// The message of an RGBA8 image construction error.
pub open spec fn rgba8_image_error_message(error: Rgba8ImageError) -> Seq<char> {
    match error {
        Rgba8ImageError::ZeroWidth => "RGBA8 image width is zero"@,
        Rgba8ImageError::ZeroHeight => "RGBA8 image height is zero"@,
        Rgba8ImageError::ByteLengthOverflow => "RGBA8 image byte length overflows"@,
        Rgba8ImageError::IncorrectByteLength { expected, actual } => "RGBA8 image has "@ + decimal(
            actual as nat,
        ) + " bytes; expected "@ + decimal(expected as nat),
    }
}

impl Rgba8ImageError {
    /// The human-readable description of this error.
    pub fn message(&self) -> (text: String)
        ensures
            text@ == rgba8_image_error_message(*self),
    {
        match self {
            Rgba8ImageError::ZeroWidth => text_of("RGBA8 image width is zero"),
            Rgba8ImageError::ZeroHeight => text_of("RGBA8 image height is zero"),
            Rgba8ImageError::ByteLengthOverflow => text_of("RGBA8 image byte length overflows"),
            Rgba8ImageError::IncorrectByteLength { expected, actual } => {
                let mut text = text_of("RGBA8 image has ");
                push_decimal(&mut text, *actual as u64);
                text.append(" bytes; expected ");
                push_decimal(&mut text, *expected as u64);
                text
            },
        }
    }
}

/// An RGBA8 image of `width x height` texels needs `4 * width * height`
/// bytes: a zero width, then a zero height, is rejected; otherwise the
/// length is that product when it fits `usize`.
pub proof fn lemma_rgba8_byte_len(extent: [u32; 2])
    ensures
        extent[0] == 0 ==> spec_rgba8_byte_len(extent) == Err::<usize, _>(Rgba8ImageError::ZeroWidth),
        extent[0] != 0 && extent[1] == 0 ==> spec_rgba8_byte_len(extent) == Err::<usize, _>(
            Rgba8ImageError::ZeroHeight,
        ),
        spec_rgba8_byte_len(extent) matches Ok(len) ==> len == 4 * extent[0] * extent[1]
            && extent[0] > 0 && extent[1] > 0,
        extent[0] != 0 && extent[1] != 0 && 4 * extent[0] * extent[1] <= usize::MAX
            ==> spec_rgba8_byte_len(extent) is Ok,
{
    assert(extent[0] * extent[1] * 4 == 4 * extent[0] * extent[1]) by (nonlinear_arith);
}

} // verus!
