use fluxel_renderer::fixed_frame::packet::{
    PacketIdError, RenderPacketBuildError, RenderPacketDrawBuildError,
};
use fluxel_renderer::fixed_frame::validation::{DrawStartError, TextureFormat};
use fluxel_renderer::prepared_scene::{
    PreparedBasicDrawError, PreparedBasicGraphError, PreparedBasicSceneError,
};
use fluxel_renderer::scene::GeometryError;
use fluxel_renderer::upload::image::Rgba8ImageError;
use fluxel_renderer::upload::payload::IndexedMeshUploadStartError;
use fluxel_renderer::upload::textured::{TexturedGeometryError, TexturedGeometryStream};
use fluxel_renderer::upload::vertex_color::{
    VertexColorGeometryError, VertexColorGeometryStream, VertexColorMaterialError,
};

#[test]
fn geometry_error_names_index_and_vertex_count() {
    assert_eq!(
        GeometryError::IndexOutOfBounds {
            index: 7,
            vertex_count: 3
        }
        .message(),
        "geometry index 7 is outside its 3 vertex positions"
    );
}

#[test]
fn indexed_start_errors_describe_each_rejection() {
    assert_eq!(
        IndexedMeshUploadStartError::<()>::EmptyPositions.message(),
        "indexed mesh positions are empty"
    );
    assert_eq!(
        IndexedMeshUploadStartError::<()>::NonIndexedGeometry.message(),
        "indexed mesh geometry has no indices"
    );
    assert_eq!(
        IndexedMeshUploadStartError::<()>::PositionCountTooLarge.message(),
        "indexed mesh position count exceeds u32"
    );
    assert_eq!(
        IndexedMeshUploadStartError::<()>::IndexCountTooLarge.message(),
        "indexed mesh index count exceeds u32"
    );
}

#[test]
fn textured_geometry_errors_name_streams_and_counts() {
    assert_eq!(
        TexturedGeometryError::TextureCoordinateCountMismatch {
            positions: 4,
            texture_coordinates: 3
        }
        .message(),
        "textured geometry has 3 texture coordinates for 4 positions"
    );
    assert_eq!(
        TexturedGeometryError::NonFiniteTextureCoordinate {
            vertex: 12,
            component: 1
        }
        .message(),
        "textured geometry texture coordinate 1 at vertex 12 is non-finite"
    );
    assert_eq!(
        TexturedGeometryError::CountOutOfRange {
            stream: TexturedGeometryStream::TextureCoordinate,
            count: 4_294_967_296
        }
        .message(),
        "textured geometry TextureCoordinate count 4294967296 exceeds the closed upload ABI"
    );
    assert_eq!(
        TexturedGeometryError::ByteLengthOverflow {
            stream: TexturedGeometryStream::Index
        }
        .message(),
        "textured geometry Index payload length overflows"
    );
    assert_eq!(
        TexturedGeometryError::EmptyIndices.message(),
        "textured geometry indices are empty"
    );
}

#[test]
fn rgba8_image_errors_report_actual_then_expected() {
    assert_eq!(
        Rgba8ImageError::IncorrectByteLength {
            expected: 24,
            actual: 23
        }
        .message(),
        "RGBA8 image has 23 bytes; expected 24"
    );
    assert_eq!(Rgba8ImageError::ZeroHeight.message(), "RGBA8 image height is zero");
}

#[test]
fn vertex_color_errors_describe_streams_and_components() {
    assert_eq!(
        VertexColorGeometryError::NonTriangleIndexCount { index_count: 4 }.message(),
        "vertex-color geometry has 4 indices, not a whole number of triangles"
    );
    assert_eq!(
        VertexColorGeometryError::ColorCountMismatch {
            positions: 3,
            colors: 2
        }
        .message(),
        "vertex-color geometry has 2 colors for 3 positions"
    );
    assert_eq!(
        VertexColorGeometryError::ByteLengthOverflow {
            stream: VertexColorGeometryStream::Color
        }
        .message(),
        "vertex-color geometry Color payload length overflows"
    );
    assert_eq!(
        VertexColorMaterialError::OutOfRange { component: 3 }.message(),
        "vertex-color tint component 3 is outside [0, 1]"
    );
    assert_eq!(
        VertexColorMaterialError::NonFinite { component: 0 }.message(),
        "vertex-color tint component 0 is non-finite"
    );
}

#[test]
fn draw_start_errors_describe_admission_failures() {
    assert_eq!(
        DrawStartError::TextureFormatNotFilterable {
            format: TextureFormat::Rgba8UnormSrgb
        }
        .message(),
        "fixed sampler texture format is not filterable: Rgba8UnormSrgb"
    );
    assert_eq!(
        DrawStartError::ClipOutOfBounds.message(),
        "mesh is outside the fixed clip volume"
    );
    assert_eq!(
        DrawStartError::Graph("cycle".to_string()).message(),
        "fixed frame graph rejected: cycle"
    );
    assert_eq!(
        DrawStartError::Pipeline("no artifact".to_string()).message(),
        "fixed frame pipeline rejected: no artifact"
    );
}

#[test]
fn packet_and_preparation_errors_carry_their_debug_text() {
    assert_eq!(
        PacketIdError::Exhausted.message(),
        "packet buffer binding identities exhausted"
    );
    assert_eq!(
        RenderPacketBuildError::SnapshotCountMismatch {
            draws: 2,
            snapshots: 1
        }
        .message(),
        "packet build failed: SnapshotCountMismatch { draws: 2, snapshots: 1 }"
    );
    assert_eq!(
        RenderPacketBuildError::Draw {
            index: 0,
            reason: RenderPacketDrawBuildError::IndexMetadataMismatch
        }
        .message(),
        "packet build failed: Draw { index: 0, reason: IndexMetadataMismatch }"
    );
    assert_eq!(
        PreparedBasicSceneError::Draw {
            index: 4,
            reason: PreparedBasicDrawError::ClipWNonPositive
        }
        .message(),
        "prepared basic scene rejected: Draw { index: 4, reason: ClipWNonPositive }"
    );
    assert_eq!(
        PreparedBasicSceneError::Empty.message(),
        "prepared basic scene rejected: Empty"
    );
    assert_eq!(
        PreparedBasicGraphError::SizeOverflow.message(),
        "prepared basic graph rejected: SizeOverflow"
    );
}
