//! Draw-start admission errors, capability checks, and transactional
//! acquisition of paired snapshot reservations.

use vstd::prelude::*;
use vstd::string::StringExecFns;

use crate::bits::{is_finite, spec_is_finite};
use crate::debug_text::text_of;

use crate::upload::gate::SnapshotUseError;
use crate::upload::snapshot::IndexedMeshSnapshot;

verus! {

/// A texel format named by the fixed-frame contracts.
#[derive(Clone, Copy, Debug, PartialEq, Eq, Structural)]
pub enum TextureFormat {
    /// Eight-bit linear RGBA.
    Rgba8Unorm,
    /// Eight-bit sRGB-encoded RGBA.
    Rgba8UnormSrgb,
    /// Eight-bit linear BGRA.
    Bgra8Unorm,
}

/// What a device reports for one texture format.
#[derive(Clone, Copy, Debug, PartialEq, Eq, Structural)]
pub struct TextureFormatCapabilities {
    /// The described format.
    pub format: TextureFormat,
    /// Whether shaders may sample the format.
    pub sampled: bool,
    /// Whether samplers may filter the format.
    pub filterable: bool,
}

/// Some reported format entry is `format`, sampled, and filterable.
pub open spec fn filterable_format(formats: Seq<TextureFormatCapabilities>, format: TextureFormat) -> bool {
    exists|i: int|
        0 <= i < formats.len() && (#[trigger] formats[i]).format == format && formats[i].sampled
            && formats[i].filterable
}

/// Reports whether some entry of `formats` is `format`, sampled, and filterable.
fn format_filterable(formats: &[TextureFormatCapabilities], format: TextureFormat) -> (found: bool)
    ensures
        found == filterable_format(formats@, format),
{
    let mut i: usize = 0;
    while i < formats.len()
        invariant
            i <= formats@.len(),
            forall|j: int|
                0 <= j < i ==> !((#[trigger] formats@[j]).format == format && formats@[j].sampled
                    && formats@[j].filterable),
        decreases formats@.len() - i,
    {
        let entry = formats[i];
        if entry.format == format && entry.sampled && entry.filterable {
            return true;
        }
        i = i + 1;
    }
    false
}

/// The device can sample and filter linear RGBA8 textures.
pub fn rgba8_unorm_filterable(formats: &[TextureFormatCapabilities]) -> (filterable: bool)
    ensures
        filterable == filterable_format(formats@, TextureFormat::Rgba8Unorm),
{
    format_filterable(formats, TextureFormat::Rgba8Unorm)
}

/// The device can sample and filter sRGB RGBA8 textures.
pub fn rgba8_unorm_srgb_filterable(formats: &[TextureFormatCapabilities]) -> (filterable: bool)
    ensures
        filterable == filterable_format(formats@, TextureFormat::Rgba8UnormSrgb),
{
    format_filterable(formats, TextureFormat::Rgba8UnormSrgb)
}

/// Why a fixed frame could not be accepted for submission.
#[derive(Clone, Debug, PartialEq, Eq)]
pub enum DrawStartError {
    /// The selected device cannot filter the fixed RGBA8 sampler texture.
    TextureFormatNotFilterable {
        /// The required fixed texture format.
        format: TextureFormat,
    },
    /// The requested target dimensions contain zero.
    InvalidExtent,
    /// The ready snapshot belongs to another native device.
    ForeignSnapshotDevice,
    /// This fixed triangle-list recipe requires a nonzero multiple of three indices.
    InvalidIndexCount,
    /// Another draw is active for this snapshot generation.
    SnapshotInFlight,
    /// A prior accepted draw did not prove its terminal state.
    SnapshotPoisoned,
    /// Another draw is active for the immutable base-color texture generation.
    TextureInFlight,
    /// A prior accepted texture draw did not prove its terminal state.
    TexturePoisoned,
    /// Camera/material values cannot produce the closed uniform ABI.
    InvalidCameraMaterial,
    /// A vertex position was NaN or infinite during CPU clip validation.
    NonFinitePosition,
    /// Matrix application produced a NaN or infinite clip coordinate.
    NonFiniteClipPosition,
    /// A clip-space vertex has a non-positive homogeneous w component.
    ClipWNonPositive,
    /// A clip-space vertex lies outside the closed D3D/WebGPU clip volume.
    ClipOutOfBounds,
    /// A referenced texture coordinate was NaN or infinite.
    NonFiniteTextureCoordinate,
    /// Graph compilation rejected the fixed declaration.
    Graph(String),
    /// The device could not create the closed raster artifact.
    Pipeline(String),
}

/// Maps a mesh-generation use failure to its draw-start error.
pub fn map_snapshot_use(error: SnapshotUseError) -> (mapped: DrawStartError)
    ensures
        mapped == match error {
            SnapshotUseError::InFlight => DrawStartError::SnapshotInFlight,
            SnapshotUseError::Poisoned => DrawStartError::SnapshotPoisoned,
        },
{
    match error {
        SnapshotUseError::InFlight => DrawStartError::SnapshotInFlight,
        SnapshotUseError::Poisoned => DrawStartError::SnapshotPoisoned,
    }
}

/// Maps a texture-generation use failure to its draw-start error.
pub fn map_texture_use(error: SnapshotUseError) -> (mapped: DrawStartError)
    ensures
        mapped == match error {
            SnapshotUseError::InFlight => DrawStartError::TextureInFlight,
            SnapshotUseError::Poisoned => DrawStartError::TexturePoisoned,
        },
{
    match error {
        SnapshotUseError::InFlight => DrawStartError::TextureInFlight,
        SnapshotUseError::Poisoned => DrawStartError::TexturePoisoned,
    }
}

/// Which of two paired acquisitions failed.
#[derive(Clone, Copy, Debug, PartialEq, Eq, Structural)]
pub enum PairReservationError<E> {
    /// The first acquisition failed; nothing was acquired.
    First(E),
    /// The second acquisition failed; the first was rolled back.
    Second(E),
}

/// Maps a paired mesh/texture reservation failure to its draw-start error:
/// the first gate is the mesh, the second the texture.
pub fn map_pair_error(error: PairReservationError<SnapshotUseError>) -> (mapped: DrawStartError)
    ensures
        mapped == match error {
            PairReservationError::First(SnapshotUseError::InFlight) => DrawStartError::SnapshotInFlight,
            PairReservationError::First(SnapshotUseError::Poisoned) => DrawStartError::SnapshotPoisoned,
            PairReservationError::Second(SnapshotUseError::InFlight) => DrawStartError::TextureInFlight,
            PairReservationError::Second(SnapshotUseError::Poisoned) => DrawStartError::TexturePoisoned,
        },
{
    match error {
        PairReservationError::First(error) => map_snapshot_use(error),
        PairReservationError::Second(error) => map_texture_use(error),
    }
}

/// Acquires two independent gates transactionally: a failed second
/// acquisition rolls the first one back before the error is returned, and a
/// failed first acquisition never attempts the second.
pub fn reserve_pair<A, B, E>(
    first: Result<A, E>,
    second: impl FnOnce() -> Result<B, E>,
    rollback: impl FnOnce(A),
) -> (result: Result<(A, B), PairReservationError<E>>)
    requires
        first is Ok ==> second.requires(()),
        forall|a: A| rollback.requires((a,)),
    ensures
        first matches Err(error) ==> result == Err::<(A, B), _>(PairReservationError::First(error)),
        first matches Ok(acquired) ==> match result {
            Ok((kept, b)) => kept == acquired && second.ensures((), Ok::<B, E>(b)),
            Err(PairReservationError::Second(error)) => second.ensures((), Err::<B, E>(error))
                && rollback.ensures((acquired,), ()),
            Err(PairReservationError::First(_)) => false,
        },
{
    let acquired = match first {
        Ok(acquired) => acquired,
        Err(error) => return Err(PairReservationError::First(error)),
    };
    match second() {
        Ok(b) => Ok((acquired, b)),
        Err(error) => {
            rollback(acquired);
            Err(PairReservationError::Second(error))
        },
    }
}

/// Admits an indexed snapshot for a fixed triangle-list draw: the target
/// extent must be nonzero, both of the snapshot's native buffers
/// (`buffer_devices`, positions then indices) must belong to `device`, and
/// the index count must be a nonzero multiple of three. The checks run in
/// that order.
pub fn validate_indexed_input(
    snapshot: &IndexedMeshSnapshot,
    buffer_devices: [u64; 2],
    device: u64,
    extent: [u32; 2],
) -> (result: Result<(), DrawStartError>)
    ensures
        result == (if extent[0] == 0 || extent[1] == 0 {
            Err(DrawStartError::InvalidExtent)
        } else if buffer_devices[0] != device || buffer_devices[1] != device {
            Err(DrawStartError::ForeignSnapshotDevice)
        } else if snapshot.spec_index_count() == 0 || snapshot.spec_index_count() % 3 != 0 {
            Err(DrawStartError::InvalidIndexCount)
        } else {
            Ok(())
        }),
{
    if extent[0] == 0 || extent[1] == 0 {
        return Err(DrawStartError::InvalidExtent);
    }
    if buffer_devices[0] != device || buffer_devices[1] != device {
        return Err(DrawStartError::ForeignSnapshotDevice);
    }
    let index_count = snapshot.index_count();
    if index_count == 0 || index_count % 3 != 0 {
        return Err(DrawStartError::InvalidIndexCount);
    }
    Ok(())
}

/// The debug name of a texture format.
pub open spec fn texture_format_name(format: TextureFormat) -> Seq<char> {
    match format {
        TextureFormat::Rgba8Unorm => "Rgba8Unorm"@,
        TextureFormat::Rgba8UnormSrgb => "Rgba8UnormSrgb"@,
        TextureFormat::Bgra8Unorm => "Bgra8Unorm"@,
    }
}

impl TextureFormat {
    /// The debug text of this format: its variant name.
    pub fn debug_name(&self) -> (name: &'static str)
        ensures
            name@ == texture_format_name(*self),
    {
        match self {
            TextureFormat::Rgba8Unorm => "Rgba8Unorm",
            TextureFormat::Rgba8UnormSrgb => "Rgba8UnormSrgb",
            TextureFormat::Bgra8Unorm => "Bgra8Unorm",
        }
    }
}

/// The message of a draw-start error.
pub open spec fn draw_start_error_message(error: DrawStartError) -> Seq<char> {
    match error {
        DrawStartError::TextureFormatNotFilterable { format } =>
            "fixed sampler texture format is not filterable: "@ + texture_format_name(format),
        DrawStartError::InvalidExtent => "fixed frame extent must be nonzero"@,
        DrawStartError::ForeignSnapshotDevice => "snapshot belongs to another device"@,
        DrawStartError::InvalidIndexCount => "fixed frame needs a nonzero triangle-list index count"@,
        DrawStartError::SnapshotInFlight => "snapshot draw is already in flight"@,
        DrawStartError::SnapshotPoisoned => "snapshot draw state is poisoned"@,
        DrawStartError::TextureInFlight => "base-color texture draw is already in flight"@,
        DrawStartError::TexturePoisoned => "base-color texture draw state is poisoned"@,
        DrawStartError::InvalidCameraMaterial => "invalid camera or material uniform input"@,
        DrawStartError::NonFinitePosition => "mesh position is not finite"@,
        DrawStartError::NonFiniteClipPosition => "clip position is not finite"@,
        DrawStartError::ClipWNonPositive => "clip position has non-positive w"@,
        DrawStartError::ClipOutOfBounds => "mesh is outside the fixed clip volume"@,
        DrawStartError::NonFiniteTextureCoordinate => "mesh texture coordinate is not finite"@,
        DrawStartError::Graph(reason) => "fixed frame graph rejected: "@ + reason@,
        DrawStartError::Pipeline(reason) => "fixed frame pipeline rejected: "@ + reason@,
    }
}

impl DrawStartError {
    /// The human-readable description of this error.
    pub fn message(&self) -> (text: String)
        ensures
            text@ == draw_start_error_message(*self),
    {
        match self {
            DrawStartError::TextureFormatNotFilterable { format } => {
                let mut text = text_of("fixed sampler texture format is not filterable: ");
                text.append(format.debug_name());
                text
            },
            DrawStartError::InvalidExtent => text_of("fixed frame extent must be nonzero"),
            DrawStartError::ForeignSnapshotDevice => text_of("snapshot belongs to another device"),
            DrawStartError::InvalidIndexCount => text_of("fixed frame needs a nonzero triangle-list index count"),
            DrawStartError::SnapshotInFlight => text_of("snapshot draw is already in flight"),
            DrawStartError::SnapshotPoisoned => text_of("snapshot draw state is poisoned"),
            DrawStartError::TextureInFlight => text_of("base-color texture draw is already in flight"),
            DrawStartError::TexturePoisoned => text_of("base-color texture draw state is poisoned"),
            DrawStartError::InvalidCameraMaterial => text_of("invalid camera or material uniform input"),
            DrawStartError::NonFinitePosition => text_of("mesh position is not finite"),
            DrawStartError::NonFiniteClipPosition => text_of("clip position is not finite"),
            DrawStartError::ClipWNonPositive => text_of("clip position has non-positive w"),
            DrawStartError::ClipOutOfBounds => text_of("mesh is outside the fixed clip volume"),
            DrawStartError::NonFiniteTextureCoordinate => text_of("mesh texture coordinate is not finite"),
            DrawStartError::Graph(reason) => {
                let mut text = text_of("fixed frame graph rejected: ");
                text.append(reason.as_str());
                text
            },
            DrawStartError::Pipeline(reason) => {
                let mut text = text_of("fixed frame pipeline rejected: ");
                text.append(reason.as_str());
                text
            },
        }
    }
}

/// Index `k` refers to an existing texture coordinate with finite components.
pub open spec fn coordinate_reference_ok(indices: Seq<u32>, coordinates: Seq<[u32; 2]>, k: int) -> bool {
    &&& indices[k] < coordinates.len()
    &&& spec_is_finite(coordinates[indices[k] as int][0])
    &&& spec_is_finite(coordinates[indices[k] as int][1])
}

/// The rejection of a failing reference: a missing coordinate is an invalid
/// index, an existing one is non-finite.
pub open spec fn coordinate_reference_error(indices: Seq<u32>, coordinates: Seq<[u32; 2]>, k: int) -> DrawStartError {
    if indices[k] >= coordinates.len() {
        DrawStartError::InvalidIndexCount
    } else {
        DrawStartError::NonFiniteTextureCoordinate
    }
}

/// Checks, in index order, that every referenced texture coordinate exists
/// and is finite; the first failing reference decides the error.
pub fn validate_texture_coordinate_references(indices: &[u32], coordinates: &[[u32; 2]]) -> (result:
    Result<(), DrawStartError>)
    ensures
        result is Ok <==> forall|k: int|
            0 <= k < indices@.len() ==> #[trigger] coordinate_reference_ok(
                indices@,
                coordinates@,
                k,
            ),
        result matches Err(error) ==> exists|k: int|
            0 <= k < indices@.len() && !#[trigger] coordinate_reference_ok(
                indices@,
                coordinates@,
                k,
            ) && (forall|j: int| 0 <= j < k ==> coordinate_reference_ok(indices@, coordinates@, j))
                && error == coordinate_reference_error(indices@, coordinates@, k),
{
    let mut k: usize = 0;
    while k < indices.len()
        invariant
            k <= indices@.len(),
            forall|j: int| 0 <= j < k ==> #[trigger] coordinate_reference_ok(indices@, coordinates@, j),
        decreases indices@.len() - k,
    {
        let index = indices[k];
        if index as usize >= coordinates.len() {
            assert(!coordinate_reference_ok(indices@, coordinates@, k as int));
            return Err(DrawStartError::InvalidIndexCount);
        }
        let coordinate = coordinates[index as usize];
        if !is_finite(coordinate[0]) || !is_finite(coordinate[1]) {
            assert(!coordinate_reference_ok(indices@, coordinates@, k as int));
            return Err(DrawStartError::NonFiniteTextureCoordinate);
        }
        assert(coordinate_reference_ok(indices@, coordinates@, k as int));
        k = k + 1;
    }
    Ok(())
}

/// Why a fixed draw cannot start, checked in the order every fixed draw
/// uses: a required texture format must be sampled and filterable, the
/// target extent must be nonzero, every resource must belong to `device`,
/// and the index count must be a nonzero multiple of three.
pub open spec fn draw_admission_error(
    required_texture: Option<TextureFormat>,
    capabilities: Seq<TextureFormatCapabilities>,
    device: u64,
    resource_devices: Seq<u64>,
    index_count: u32,
    extent: [u32; 2],
) -> Option<DrawStartError> {
    if required_texture matches Some(format) && !filterable_format(capabilities, format) {
        Some(DrawStartError::TextureFormatNotFilterable { format: required_texture->0 })
    } else if extent[0] == 0 || extent[1] == 0 {
        Some(DrawStartError::InvalidExtent)
    } else if exists|i: int| 0 <= i < resource_devices.len() && #[trigger] resource_devices[i] != device {
        Some(DrawStartError::ForeignSnapshotDevice)
    } else if index_count == 0 || index_count % 3 != 0 {
        Some(DrawStartError::InvalidIndexCount)
    } else {
        None
    }
}

/// Admits a fixed draw before its uniform, clip, graph, and reservation
/// stages: `required_texture` is the sampled format of a textured recipe,
/// `resource_devices` the devices of every snapshot resource the draw reads.
pub fn admit_draw(
    required_texture: Option<TextureFormat>,
    capabilities: &[TextureFormatCapabilities],
    device: u64,
    resource_devices: &[u64],
    index_count: u32,
    extent: [u32; 2],
) -> (result: Result<(), DrawStartError>)
    ensures
        match draw_admission_error(
            required_texture,
            capabilities@,
            device,
            resource_devices@,
            index_count,
            extent,
        ) {
            Some(error) => result == Err::<(), _>(error),
            None => result is Ok,
        },
{
    if let Some(format) = required_texture {
        if !format_filterable(capabilities, format) {
            return Err(DrawStartError::TextureFormatNotFilterable { format });
        }
    }
    if extent[0] == 0 || extent[1] == 0 {
        return Err(DrawStartError::InvalidExtent);
    }
    let mut i: usize = 0;
    while i < resource_devices.len()
        invariant
            i <= resource_devices@.len(),
            required_texture matches Some(format) ==> filterable_format(capabilities@, format),
            extent[0] != 0 && extent[1] != 0,
            forall|j: int| 0 <= j < i ==> #[trigger] resource_devices@[j] == device,
        decreases resource_devices@.len() - i,
    {
        if resource_devices[i] != device {
            assert(resource_devices@[i as int] != device);
            return Err(DrawStartError::ForeignSnapshotDevice);
        }
        i = i + 1;
    }
    if index_count == 0 || index_count % 3 != 0 {
        return Err(DrawStartError::InvalidIndexCount);
    }
    Ok(())
}

/// The positions referenced by `indices`, in index order, up to the first
/// index that refers to no position: the referenced prefix, and whether
/// every index was in range.
pub fn referenced_positions(positions: &[[u32; 3]], indices: &[u32]) -> (result: (
    Vec<[u32; 3]>,
    bool,
))
    ensures
        result.0@.len() <= indices@.len(),
        forall|j: int| 0 <= j < result.0@.len() ==> #[trigger] indices@[j] < positions@.len(),
        forall|j: int|
            0 <= j < result.0@.len() ==> #[trigger] result.0@[j] == positions@[indices@[j] as int],
        result.1 <==> result.0@.len() == indices@.len(),
        !result.1 ==> indices@[result.0@.len() as int] >= positions@.len(),
{
    let mut referenced: Vec<[u32; 3]> = Vec::new();
    let mut k: usize = 0;
    while k < indices.len()
        invariant
            k <= indices@.len(),
            referenced@.len() == k,
            forall|j: int| 0 <= j < k ==> #[trigger] indices@[j] < positions@.len(),
            forall|j: int|
                0 <= j < k ==> #[trigger] referenced@[j] == positions@[indices@[j] as int],
        decreases indices@.len() - k,
    {
        let index = indices[k] as usize;
        assert(index as int == indices@[k as int]);
        if index >= positions.len() {
            return (referenced, false);
        }
        referenced.push(positions[index]);
        assert(referenced@[k as int] == positions@[indices@[k as int] as int]);
        k = k + 1;
    }
    (referenced, true)
}

/// Admission checks a draw in a fixed order, each failure with its own
/// error: an unfilterable required texture format, then a zero extent, then
/// any resource on another device (whichever resource it is), then an index
/// count that is zero or not a multiple of three. A draw passing all four is
/// admitted.
pub proof fn lemma_admission_order(
    required_texture: Option<TextureFormat>,
    capabilities: Seq<TextureFormatCapabilities>,
    device: u64,
    resource_devices: Seq<u64>,
    index_count: u32,
    extent: [u32; 2],
    i: int,
)
    ensures
        required_texture matches Some(format) && !filterable_format(capabilities, format)
            ==> draw_admission_error(
            required_texture,
            capabilities,
            device,
            resource_devices,
            index_count,
            extent,
        ) == Some(DrawStartError::TextureFormatNotFilterable { format: required_texture->0 }),
        ({
            let format_ok = required_texture matches Some(format) ==> filterable_format(
                capabilities,
                format,
            );
            let extent_ok = extent[0] != 0 && extent[1] != 0;
            &&& format_ok && !extent_ok ==> draw_admission_error(
                required_texture,
                capabilities,
                device,
                resource_devices,
                index_count,
                extent,
            ) == Some(DrawStartError::InvalidExtent)
            &&& format_ok && extent_ok && 0 <= i < resource_devices.len() && resource_devices[i]
                != device ==> draw_admission_error(
                required_texture,
                capabilities,
                device,
                resource_devices,
                index_count,
                extent,
            ) == Some(DrawStartError::ForeignSnapshotDevice)
            &&& format_ok && extent_ok && (forall|j: int|
                0 <= j < resource_devices.len() ==> resource_devices[j] == device) && (index_count
                == 0 || index_count % 3 != 0) ==> draw_admission_error(
                required_texture,
                capabilities,
                device,
                resource_devices,
                index_count,
                extent,
            ) == Some(DrawStartError::InvalidIndexCount)
            &&& draw_admission_error(
                required_texture,
                capabilities,
                device,
                resource_devices,
                index_count,
                extent,
            ) is None <==> format_ok && extent_ok && (forall|j: int|
                0 <= j < resource_devices.len() ==> resource_devices[j] == device) && index_count
                != 0 && index_count % 3 == 0
        }),
{
}

/// A texture-coordinate reference is good exactly when it names an existing
/// coordinate whose two components are both finite; a reference past the
/// coordinates is an invalid index, and one naming a non-finite coordinate
/// is a non-finite coordinate.
pub proof fn lemma_coordinate_reference(indices: Seq<u32>, coordinates: Seq<[u32; 2]>, k: int)
    requires
        0 <= k < indices.len(),
    ensures
        coordinate_reference_ok(indices, coordinates, k) <==> (indices[k] < coordinates.len()
            && spec_is_finite(coordinates[indices[k] as int][0]) && spec_is_finite(
            coordinates[indices[k] as int][1],
        )),
        indices[k] >= coordinates.len() ==> coordinate_reference_error(indices, coordinates, k)
            == DrawStartError::InvalidIndexCount,
        indices[k] < coordinates.len() ==> coordinate_reference_error(indices, coordinates, k)
            == DrawStartError::NonFiniteTextureCoordinate,
{
}

/// A format is filterable exactly when some capability entry names it as
/// both sampled and filterable.
pub proof fn lemma_filterable_format(
    formats: Seq<TextureFormatCapabilities>,
    format: TextureFormat,
    i: int,
)
    ensures
        0 <= i < formats.len() && formats[i].format == format && formats[i].sampled
            && formats[i].filterable ==> filterable_format(formats, format),
        (forall|j: int|
            0 <= j < formats.len() ==> #[trigger] formats[j].format != format || !formats[j].sampled
                || !formats[j].filterable) ==> !filterable_format(formats, format),
{
}

} // verus!
