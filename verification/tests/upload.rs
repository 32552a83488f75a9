use fluxel_renderer::scene::Geometry;
use fluxel_renderer::upload::gate::{SnapshotUseError, UseGated};
use fluxel_renderer::upload::image::{rgba8_byte_len, Rgba8Image, Rgba8ImageError};
use fluxel_renderer::upload::payload::{IndexedMeshPayload, IndexedMeshUploadStartError};
use fluxel_renderer::upload::publication::{
    RetainedUploadState, SnapshotPublication, TexturedSnapshotPublication,
};
use fluxel_renderer::upload::snapshot::{
    BaseColorTextureSnapshot, BaseColorTextureSnapshotDebug, IndexedMeshSnapshot, IndexedMeshSnapshotDebug,
    TexturedIndexedMeshSnapshotDebugProbe,
};
use fluxel_renderer::upload::textured::{
    TexturedGeometry, TexturedGeometryError, TexturedMeshPayload,
};

fn bits3(v: [f32; 3]) -> [u32; 3] {
    v.map(f32::to_bits)
}

fn bits2(v: [f32; 2]) -> [u32; 2] {
    v.map(f32::to_bits)
}

fn textured_geometry() -> TexturedGeometry {
    TexturedGeometry::new(
        Geometry::from_positions(vec![bits3([0.0, 0.0, 0.0]), bits3([1.0, 0.0, 0.0])])
            .with_indices(vec![0, 1, 0])
            .unwrap(),
        vec![bits2([0.0, 1.0]), bits2([1.0, 0.0])],
    )
    .unwrap()
}

#[test]
fn textured_geometry_rejects_closed_stream_contract_violations() {
    assert_eq!(
        TexturedGeometry::new(Geometry::from_positions(Vec::new()), Vec::new()).unwrap_err(),
        TexturedGeometryError::EmptyPositions
    );
    assert_eq!(
        TexturedGeometry::new(
            Geometry::from_positions(vec![bits3([0.0; 3])]),
            vec![bits2([0.0, 0.0])],
        )
        .unwrap_err(),
        TexturedGeometryError::MissingIndices
    );
    assert_eq!(
        TexturedGeometry::new(
            Geometry::from_positions(vec![bits3([0.0; 3])])
                .with_indices(vec![0])
                .unwrap(),
            Vec::new(),
        )
        .unwrap_err(),
        TexturedGeometryError::TextureCoordinateCountMismatch {
            positions: 1,
            texture_coordinates: 0,
        }
    );
    assert_eq!(
        TexturedGeometry::new(
            Geometry::from_positions(vec![bits3([0.0; 3])])
                .with_indices(vec![0])
                .unwrap(),
            vec![bits2([f32::NAN, 0.0])],
        )
        .unwrap_err(),
        TexturedGeometryError::NonFiniteTextureCoordinate {
            vertex: 0,
            component: 0,
        }
    );
}

#[test]
fn textured_geometry_reports_the_second_component_of_a_later_vertex() {
    let error = TexturedGeometry::new(
        Geometry::from_positions(vec![bits3([0.0; 3]), bits3([1.0; 3])])
            .with_indices(vec![0, 1, 1])
            .unwrap(),
        vec![bits2([0.5, 0.5]), bits2([0.25, f32::INFINITY])],
    )
    .unwrap_err();
    assert_eq!(
        error,
        TexturedGeometryError::NonFiniteTextureCoordinate {
            vertex: 1,
            component: 1,
        }
    );
}

#[test]
fn textured_payload_has_exact_three_little_endian_streams() {
    let payload = TexturedMeshPayload::from_geometry(&textured_geometry()).unwrap();
    assert_eq!(payload.position_count, 2);
    assert_eq!(payload.index_count, 3);
    assert_eq!(payload.positions.len(), 24);
    assert_eq!(payload.indices, [0, 0, 0, 0, 1, 0, 0, 0, 0, 0, 0, 0]);
    assert_eq!(
        payload.texture_coordinates,
        [0, 0, 0, 0, 0, 0, 128, 63, 0, 0, 128, 63, 0, 0, 0, 0,]
    );
}

#[test]
fn textured_snapshot_debug_is_opaque_metadata_only() {
    let debug = TexturedIndexedMeshSnapshotDebugProbe {
        generation: 9,
        position_count: 2,
        index_count: 3,
    }
    .debug_string();
    assert_eq!(
        debug,
        "TexturedIndexedMeshSnapshot { generation: 9, position_count: 2, index_count: 3 }"
    );
    for forbidden in [
        "UploadedBuffer",
        "texture_coordinates",
        "metadata",
        "usage",
        "descriptor",
        "identity",
        "gate",
        "state",
    ] {
        assert!(
            !debug.contains(forbidden),
            "snapshot debug leaked {forbidden}"
        );
    }
}

#[test]
fn textured_three_stream_publication_never_exposes_partial_or_failed_output() {
    let (missing, pending, ready) = (
        RetainedUploadState::Missing,
        RetainedUploadState::Pending,
        RetainedUploadState::Ready,
    );
    for publication in [
        TexturedSnapshotPublication::new(pending, missing, missing, true),
        TexturedSnapshotPublication::new(pending, pending, missing, true),
        TexturedSnapshotPublication::new(ready, pending, pending, false),
        TexturedSnapshotPublication::new(ready, ready, pending, false),
        TexturedSnapshotPublication::new(ready, ready, ready, true),
    ] {
        assert!(
            !publication.can_publish(),
            "partial/failed upload published: {publication:?}"
        );
    }
    assert!(TexturedSnapshotPublication::new(ready, ready, ready, false).can_publish());
}

#[test]
fn serializes_positions_as_exact_little_endian_bits_and_indices_in_order() {
    let geometry = Geometry::from_positions(vec![bits3([f32::from_bits(0x8000_0000), 1.0, f32::NAN])])
        .with_indices(vec![0])
        .unwrap();
    let payload = IndexedMeshPayload::from_geometry::<()>(&geometry).unwrap();
    assert_eq!(
        payload.positions,
        [0x00, 0x00, 0x00, 0x80, 0x00, 0x00, 0x80, 0x3f, 0x00, 0x00, 0xc0, 0x7f,]
    );
    assert_eq!(payload.indices, [0, 0, 0, 0]);
}

#[test]
fn indices_serialize_each_byte_little_endian() {
    let geometry = Geometry::from_positions(vec![bits3([0.0; 3]); 2])
        .with_indices(vec![1, 0])
        .unwrap();
    let payload = IndexedMeshPayload::from_geometry::<()>(&geometry).unwrap();
    assert_eq!(payload.indices, [1, 0, 0, 0, 0, 0, 0, 0]);
    assert_eq!(payload.position_count, 2);
    assert_eq!(payload.index_count, 2);
    assert_eq!(payload.positions, vec![0; 24]);
}

#[test]
fn payload_rejects_empty_or_non_indexed_geometry_before_upload() {
    assert_eq!(
        IndexedMeshPayload::from_geometry::<()>(&Geometry::from_positions(Vec::new())).unwrap_err(),
        IndexedMeshUploadStartError::EmptyPositions
    );
    assert_eq!(
        IndexedMeshPayload::from_geometry::<()>(&Geometry::from_positions(vec![bits3([0.0; 3])]))
            .unwrap_err(),
        IndexedMeshUploadStartError::NonIndexedGeometry
    );
}

#[test]
fn publication_policy_never_exposes_a_partially_ready_or_failed_pair() {
    let pending = RetainedUploadState::Pending;
    let ready = RetainedUploadState::Ready;
    assert!(!SnapshotPublication::new(pending, pending, false).can_publish());
    assert!(!SnapshotPublication::new(ready, pending, false).can_publish());
    assert!(!SnapshotPublication::new(pending, ready, false).can_publish());
    assert!(SnapshotPublication::new(ready, ready, false).can_publish());
    assert!(!SnapshotPublication::new(ready, ready, true).can_publish());
}

#[test]
fn publication_policy_represents_partial_acceptance_without_ready_output() {
    assert_eq!(
        SnapshotPublication::new(
            RetainedUploadState::Pending,
            RetainedUploadState::Missing,
            true,
        ),
        SnapshotPublication {
            positions: RetainedUploadState::Pending,
            indices: RetainedUploadState::Missing,
            failed: true,
        }
    );
}

#[test]
fn generation_use_gate_serializes_clones_and_poison_is_monotonic() {
    let mut snapshot = IndexedMeshSnapshot::publish(7, 1, 3, &[bits3([0.0; 3])], &[0, 0, 0]);
    assert_eq!(snapshot.use_gate().generation(), 7);
    let reservation = snapshot.reserve_for_draw().unwrap();
    assert_eq!(reservation.generation(), 7);
    assert_eq!(snapshot.reserve_for_draw().unwrap_err(), SnapshotUseError::InFlight);
    snapshot.release_reservation(reservation);

    let accepted = snapshot.reserve_for_draw().unwrap();
    snapshot.release_reservation(accepted);
    let poisoned = snapshot.reserve_for_draw().unwrap();
    snapshot.poison_reservation(poisoned);
    assert_eq!(snapshot.reserve_for_draw().unwrap_err(), SnapshotUseError::Poisoned);
}

#[test]
fn poisoned_generation_stays_poisoned() {
    let mut texture = BaseColorTextureSnapshot::publish(8, [2, 2]);
    let first = texture.reserve_for_draw().unwrap();
    texture.poison_reservation(first);
    assert_eq!(texture.reserve_for_draw().unwrap_err(), SnapshotUseError::Poisoned);
    assert_eq!(texture.reserve_for_draw().unwrap_err(), SnapshotUseError::Poisoned);
    assert_eq!(texture.use_gate().generation(), 8);
}

#[test]
fn rgba8_image_requires_nonzero_extent_and_exact_tight_length() {
    assert_eq!(
        Rgba8Image::new([0, 1], vec![]).unwrap_err(),
        Rgba8ImageError::ZeroWidth
    );
    assert_eq!(
        Rgba8Image::new([1, 0], vec![]).unwrap_err(),
        Rgba8ImageError::ZeroHeight
    );
    assert_eq!(
        Rgba8Image::new([2, 3], vec![0; 23]).unwrap_err(),
        Rgba8ImageError::IncorrectByteLength {
            expected: 24,
            actual: 23,
        }
    );
    let image = Rgba8Image::new([2, 3], vec![7; 24]).unwrap();
    assert_eq!(image.extent(), [2, 3]);
    assert_eq!(image.pixels(), vec![7; 24]);
}

#[test]
fn rgba8_image_checked_length_handles_largest_constructible_dimensions() {
    assert_eq!(
        rgba8_byte_len([u32::MAX, u32::MAX]),
        Err(Rgba8ImageError::ByteLengthOverflow)
    );
}

#[test]
fn rgba8_byte_len_is_four_bytes_per_texel() {
    assert_eq!(rgba8_byte_len([3, 5]), Ok(60));
    assert_eq!(rgba8_byte_len([1, 1]), Ok(4));
    assert_eq!(rgba8_byte_len([0, 0]), Err(Rgba8ImageError::ZeroWidth));
}

#[test]
fn base_color_texture_snapshot_debug_is_exact_safe_metadata_only() {
    let debug = BaseColorTextureSnapshotDebug {
        generation: 17,
        extent: [3, 2],
    }
    .debug_string();
    assert_eq!(
        debug,
        "BaseColorTextureSnapshot { generation: 17, extent: [3, 2] }"
    );
    for forbidden in [
        "CopyDestination",
        "UploadedTexture",
        "usage",
        "Ready",
        "descriptor",
        "identity",
        "gate",
        "state",
    ] {
        assert!(
            !debug.contains(forbidden),
            "snapshot debug must not expose {forbidden}: {debug}"
        );
    }
}

#[test]
fn indexed_mesh_snapshot_debug_is_exact_safe_metadata_only() {
    let debug = IndexedMeshSnapshotDebug {
        generation: 23,
        position_count: 3,
        index_count: 3,
    }
    .debug_string();
    assert_eq!(
        debug,
        "IndexedMeshSnapshot { generation: 23, position_count: 3, index_count: 3 }"
    );
    for forbidden in [
        "UploadedBuffer",
        "positions:",
        "indices:",
        "metadata",
        "usage",
        "descriptor",
        "identity",
        "gate",
        "state",
    ] {
        assert!(
            !debug.contains(forbidden),
            "snapshot debug must not expose {forbidden}: {debug}"
        );
    }
}

#[test]
fn snapshot_debug_renders_large_and_zero_numbers() {
    let debug = IndexedMeshSnapshotDebug {
        generation: u64::MAX,
        position_count: 0,
        index_count: 4_294_967_295,
    }
    .debug_string();
    assert_eq!(
        debug,
        "IndexedMeshSnapshot { generation: 18446744073709551615, position_count: 0, index_count: 4294967295 }"
    );
}

#[test]
fn mesh_snapshot_retains_original_cpu_metadata() {
    let geometry = Geometry::from_positions(vec![bits3([1.0, 2.0, 3.0])])
        .with_indices(vec![0])
        .unwrap();
    let payload = IndexedMeshPayload::from_geometry::<()>(&geometry).unwrap();
    assert_eq!(geometry.positions(), &[bits3([1.0, 2.0, 3.0])]);
    assert_eq!(geometry.indices(), &[0]);
    assert_eq!(payload.position_count, 1);
    assert_eq!(payload.index_count, 1);
}

#[test]
fn published_snapshot_keeps_metadata_and_serializes_draws() {
    let mut snapshot = IndexedMeshSnapshot::publish(5, 1, 3, &[bits3([1.0, 2.0, 3.0])], &[0, 0, 0]);
    assert_eq!(snapshot.generation(), 5);
    assert_eq!(snapshot.position_count(), 1);
    assert_eq!(snapshot.index_count(), 3);
    assert_eq!(snapshot.position_metadata(), &[bits3([1.0, 2.0, 3.0])]);
    assert_eq!(snapshot.index_metadata(), &[0, 0, 0]);
    assert_eq!(snapshot.use_gate().generation(), 5);
    let reservation = snapshot.reserve_for_draw().unwrap();
    assert_eq!(reservation.generation(), 5);
    assert_eq!(snapshot.reserve_for_draw().unwrap_err(), SnapshotUseError::InFlight);
    snapshot.release_reservation(reservation);
    assert!(snapshot.reserve_for_draw().is_ok());
    let view = snapshot.debug_view();
    assert_eq!(
        view.debug_string(),
        "IndexedMeshSnapshot { generation: 5, position_count: 1, index_count: 3 }"
    );
}
