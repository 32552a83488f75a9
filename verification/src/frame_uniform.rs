//! The closed camera/material uniform ABI: a column-major `mat4x4<f32>`
//! (projection times view) followed by a `vec4<f32>` base color, as exact
//! little-endian binary32 bit patterns.
//!
//! Input validation and serialization are exact bit-level operations. The
//! matrix product itself is binary32 arithmetic computed by the caller, which
//! hands its bit patterns in, or `None` when a product or accumulation was not
//! finite.

use vstd::prelude::*;

use crate::bits::{in_unit_interval, is_finite, spec_in_unit_interval, spec_is_finite};
use crate::scene::{BasicMaterial, Camera};
use crate::upload::payload::{encode_words, lemma_word_bytes_len, word_bytes};

verus! {

/// Exact byte length of the closed `mat4x4<f32> + vec4<f32>` ABI.
pub const FRAME_UNIFORM_BYTES: usize = 80;

/// Why a camera/material pair cannot become a fixed frame uniform.
#[derive(Clone, Copy, Debug, PartialEq, Eq, Structural)]
pub enum FrameUniformError {
    /// A view or projection matrix element was NaN or infinite.
    NonFiniteCamera,
    /// A material color component was NaN or infinite.
    NonFiniteColor,
    /// A finite material color component was outside the closed unit interval.
    ColorOutOfRange,
    /// A finite matrix input produced a non-finite product or accumulation.
    MatrixProductNonFinite,
}

/// Every element of a column-major matrix is finite.
pub open spec fn matrix_finite(matrix: [[u32; 4]; 4]) -> bool {
    forall|c: int, r: int| 0 <= c < 4 && 0 <= r < 4 ==> spec_is_finite(#[trigger] matrix[c][r])
}

/// Every color component is finite.
pub open spec fn color_finite(color: [u32; 4]) -> bool {
    forall|i: int| 0 <= i < 4 ==> spec_is_finite(#[trigger] color[i])
}

/// Every (finite) color component lies in `[0, 1]`.
pub open spec fn color_in_range(color: [u32; 4]) -> bool {
    forall|i: int| 0 <= i < 4 ==> spec_in_unit_interval(#[trigger] color[i])
}

/// Why the inputs cannot form a uniform, checked in order: camera
/// finiteness, color finiteness, color range.
pub open spec fn uniform_input_error(camera: Camera, material: BasicMaterial) -> Option<
    FrameUniformError,
> {
    if !matrix_finite(camera.spec_view()) || !matrix_finite(camera.spec_projection()) {
        Some(FrameUniformError::NonFiniteCamera)
    } else if !color_finite(material.spec_base_color()) {
        Some(FrameUniformError::NonFiniteColor)
    } else if !color_in_range(material.spec_base_color()) {
        Some(FrameUniformError::ColorOutOfRange)
    } else {
        None
    }
}

/// The twenty uniform words: the matrix column by column, then the color.
pub open spec fn uniform_words(matrix: [[u32; 4]; 4], color: [u32; 4]) -> Seq<u32> {
    Seq::new(
        20,
        |i: int|
            if i < 16 {
                matrix[i / 4][i % 4]
            } else {
                color[i - 16]
            },
    )
}

/// Reports whether every element of `matrix` is finite.
pub(crate) fn matrix_all_finite(matrix: &[[u32; 4]; 4]) -> (finite: bool)
    ensures
        finite == matrix_finite(*matrix),
{
    let mut c: usize = 0;
    while c < 4
        invariant
            c <= 4,
            forall|cc: int, r: int| 0 <= cc < c && 0 <= r < 4 ==> spec_is_finite(#[trigger] matrix[cc][r]),
        decreases 4 - c,
    {
        let column = matrix[c];
        let mut r: usize = 0;
        while r < 4
            invariant
                c < 4,
                r <= 4,
                column == matrix[c as int],
                forall|cc: int, rr: int|
                    0 <= cc < c && 0 <= rr < 4 ==> spec_is_finite(#[trigger] matrix[cc][rr]),
                forall|rr: int| 0 <= rr < r ==> spec_is_finite(#[trigger] matrix[c as int][rr]),
            decreases 4 - r,
        {
            if !is_finite(column[r]) {
                assert(!spec_is_finite(matrix[c as int][r as int]));
                return false;
            }
            r = r + 1;
        }
        c = c + 1;
    }
    true
}

/// Checks the camera and material in the uniform's validation order.
pub fn validate_uniform_inputs(camera: &Camera, material: &BasicMaterial) -> (result: Result<
    (),
    FrameUniformError,
>)
    ensures
        match uniform_input_error(*camera, *material) {
            Some(error) => result == Err::<(), _>(error),
            None => result is Ok,
        },
{
    if !matrix_all_finite(camera.view()) || !matrix_all_finite(camera.projection()) {
        return Err(FrameUniformError::NonFiniteCamera);
    }
    let color = material.base_color();
    let mut i: usize = 0;
    while i < 4
        invariant
            i <= 4,
            color == material.spec_base_color(),
            matrix_finite(camera.spec_view()),
            matrix_finite(camera.spec_projection()),
            forall|j: int| 0 <= j < i ==> spec_is_finite(#[trigger] color[j]),
        decreases 4 - i,
    {
        if !is_finite(color[i]) {
            assert(!spec_is_finite(color[i as int]));
            return Err(FrameUniformError::NonFiniteColor);
        }
        i = i + 1;
    }
    let mut i: usize = 0;
    while i < 4
        invariant
            i <= 4,
            color == material.spec_base_color(),
            matrix_finite(camera.spec_view()),
            matrix_finite(camera.spec_projection()),
            color_finite(color),
            forall|j: int| 0 <= j < i ==> spec_in_unit_interval(#[trigger] color[j]),
        decreases 4 - i,
    {
        if !in_unit_interval(color[i]) {
            assert(!spec_in_unit_interval(color[i as int]));
            return Err(FrameUniformError::ColorOutOfRange);
        }
        i = i + 1;
    }
    Ok(())
}

/// A validated, serialized fixed frame uniform.
#[derive(Clone, Debug, PartialEq)]
pub struct FrameUniform {
    bytes: Vec<u8>,
    view_projection: [[u32; 4]; 4],
}

impl FrameUniform {
    /// The serialized uniform bytes.
    pub closed spec fn spec_bytes(&self) -> Seq<u8> {
        self.bytes@
    }

    /// The column-major projection-times-view matrix.
    pub closed spec fn spec_view_projection(&self) -> [[u32; 4]; 4] {
        self.view_projection
    }

    /// Validates `camera` and `material` and serializes `view_projection`,
    /// the caller's binary32 product of projection and view (`None` when a
    /// product or accumulation was not finite), followed by the base color.
    /// A supplied product with a non-finite element is rejected like a
    /// missing one.
    pub fn new(
        camera: &Camera,
        material: &BasicMaterial,
        view_projection: Option<[[u32; 4]; 4]>,
    ) -> (result: Result<Self, FrameUniformError>)
        ensures
            match uniform_input_error(*camera, *material) {
                Some(error) => result == Err::<Self, _>(error),
                None => match view_projection {
                    None => result == Err::<Self, _>(FrameUniformError::MatrixProductNonFinite),
                    Some(matrix) => if !matrix_finite(matrix) {
                        result == Err::<Self, _>(FrameUniformError::MatrixProductNonFinite)
                    } else {
                        result matches Ok(uniform) && {
                        &&& uniform.spec_view_projection() == matrix
                        &&& uniform.spec_bytes() == word_bytes(
                            uniform_words(matrix, material.spec_base_color()),
                        )
                        &&& uniform.spec_bytes().len() == FRAME_UNIFORM_BYTES
                    }
                    },
                },
            },
    {
        validate_uniform_inputs(camera, material)?;
        let matrix = match view_projection {
            Some(matrix) => matrix,
            None => return Err(FrameUniformError::MatrixProductNonFinite),
        };
        if !matrix_all_finite(&matrix) {
            return Err(FrameUniformError::MatrixProductNonFinite);
        }
        let color = material.base_color();
        let mut words: Vec<u32> = Vec::new();
        let mut i: usize = 0;
        while i < 20
            invariant
                i <= 20,
                words@ == uniform_words(matrix, color).subrange(0, i as int),
            decreases 20 - i,
        {
            let word = if i < 16 {
                matrix[i / 4][i % 4]
            } else {
                color[i - 16]
            };
            words.push(word);
            i = i + 1;
            assert(words@ =~= uniform_words(matrix, color).subrange(0, i as int));
        }
        assert(uniform_words(matrix, color).subrange(0, 20) =~= uniform_words(matrix, color));
        let bytes = encode_words(words.as_slice());
        proof {
            lemma_word_bytes_len(words@);
        }
        Ok(Self { bytes, view_projection: matrix })
    }

    /// Returns the exact immutable-upload payload.
    pub fn bytes(&self) -> (bytes: &[u8])
        ensures
            bytes@ == self.spec_bytes(),
    {
        self.bytes.as_slice()
    }

    /// Returns the validated column-major projection-times-view matrix.
    pub fn view_projection(&self) -> (matrix: &[[u32; 4]; 4])
        ensures
            *matrix == self.spec_view_projection(),
    {
        &self.view_projection
    }
}

/// A uniform's inputs are checked in order: any non-finite element of the
/// view or projection matrix rejects the camera, then any non-finite color
/// component, then any finite component outside `[0, 1]`; inputs passing
/// all three are accepted.
pub proof fn lemma_uniform_input_order(camera: Camera, material: BasicMaterial, c: int, r: int)
    ensures
        0 <= c < 4 && 0 <= r < 4 && (!spec_is_finite(camera.spec_view()[c][r]) || !spec_is_finite(
            camera.spec_projection()[c][r],
        )) ==> uniform_input_error(camera, material) == Some(FrameUniformError::NonFiniteCamera),
        matrix_finite(camera.spec_view()) && matrix_finite(camera.spec_projection()) && 0 <= c < 4
            && !spec_is_finite(material.spec_base_color()[c]) ==> uniform_input_error(
            camera,
            material,
        ) == Some(FrameUniformError::NonFiniteColor),
        matrix_finite(camera.spec_view()) && matrix_finite(camera.spec_projection()) && color_finite(
            material.spec_base_color(),
        ) && 0 <= c < 4 && !spec_in_unit_interval(material.spec_base_color()[c])
            ==> uniform_input_error(camera, material) == Some(FrameUniformError::ColorOutOfRange),
        uniform_input_error(camera, material) is None ==> (forall|i: int, j: int|
            0 <= i < 4 && 0 <= j < 4 ==> spec_is_finite(#[trigger] camera.spec_view()[i][j])
                && spec_is_finite(camera.spec_projection()[i][j])) && (forall|i: int|
            0 <= i < 4 ==> spec_is_finite(#[trigger] material.spec_base_color()[i])
                && spec_in_unit_interval(material.spec_base_color()[i])),
{
    if 0 <= c < 4 && 0 <= r < 4 && (!spec_is_finite(camera.spec_view()[c][r]) || !spec_is_finite(
        camera.spec_projection()[c][r],
    )) {
        assert(!matrix_finite(camera.spec_view()) || !matrix_finite(camera.spec_projection()));
    }
}

/// The uniform words hold the matrix column by column, row `r` of column
/// `c` at word `4 * c + r`, followed by the four color components.
pub proof fn lemma_uniform_word_layout(matrix: [[u32; 4]; 4], color: [u32; 4], c: int, r: int)
    ensures
        uniform_words(matrix, color).len() == 20,
        0 <= c < 4 && 0 <= r < 4 ==> uniform_words(matrix, color)[4 * c + r] == matrix[c][r],
        0 <= c < 4 ==> uniform_words(matrix, color)[16 + c] == color[c],
{
    if 0 <= c < 4 && 0 <= r < 4 {
        let i = 4 * c + r;
        assert(i / 4 == c && i % 4 == r) by (nonlinear_arith)
            requires
                i == 4 * c + r,
                0 <= r < 4,
                0 <= c < 4,
        ;
    }
}

} // verus!
