use std::cell::Cell;

use fluxel_renderer::fixed_frame::ids::{
    camera_bindings, camera_pipeline, normal_lambert_bindings, normal_lambert_pipeline,
    textured_bindings, textured_pipeline, BindingSetId, BufferBindingId, RasterPipelineId,
};
use fluxel_renderer::fixed_frame::packet::{
    check_lowering, check_packet_draw, map_preparation_error, positions_equal_by_bits,
    prepare_draws, PacketIdIssuer, RenderPacketBuildError, RenderPacketDrawBuildError,
};
use fluxel_renderer::frame_uniform::FrameUniform;
use fluxel_renderer::prepared_scene::{
    form_draw_uniform, prepare_scene, PreparedBasicDrawError, PreparedBasicSceneError,
};
use fluxel_renderer::scene::{BasicMaterial, Camera, Geometry};
use fluxel_renderer::fixed_frame::recipe::{
    BindingRecipe, ExportRecipe, FrameMeshKind, FrameTextureKind, MeshDomain, RasterKernel,
    RasterRecipe, ReservationRecipe, TextureDomain, TextureRecipe, VertexRecipe,
};
use fluxel_renderer::fixed_frame::validation::{
    admit_draw, map_pair_error, referenced_positions, reserve_pair, rgba8_unorm_filterable,
    validate_indexed_input,
    validate_texture_coordinate_references, DrawStartError,
    PairReservationError, TextureFormat, TextureFormatCapabilities,
};
use fluxel_renderer::fixed_frame::submission::{
    FixedFrameStatus, FixedFrameSubmission, FrameImage, FrameObservation,
};
use fluxel_renderer::fixed_frame::visible::{visible_camera_recipe, OneShotSurface};
use fluxel_renderer::upload::coordinator::CompletionStatus;
use fluxel_renderer::upload::gate::SnapshotUseError;
use fluxel_renderer::upload::snapshot::{BaseColorTextureSnapshot, IndexedMeshSnapshot};
use fluxel_renderer::fixed_frame::start::{
    abandon_start, abandon_textured_start, binding_stream, BindingStream, FrameStart,
    FrameStartAction, FrameStartStage, UniformBufferUsage, UniformMemory, UniformUploadDescriptor,
};

#[test]
fn six_closed_recipes_freeze_audited_kernel_and_topology() {
    let cases = [
        (
            RasterRecipe::legacy_unlit(),
            RasterKernel::IndexedPositionFloat32x3CameraMaterial,
            camera_pipeline(),
            camera_bindings(),
            VertexRecipe::Position,
            TextureRecipe::Untextured,
            BindingRecipe::Uniform,
            MeshDomain::Indexed,
            TextureDomain::Untextured,
            ReservationRecipe::Mesh,
            ExportRecipe::Camera,
        ),
        (
            RasterRecipe::position_texture_load(),
            RasterKernel::IndexedPositionFloat32x3CameraMaterialTexture,
            textured_pipeline(),
            textured_bindings(),
            VertexRecipe::Position,
            TextureRecipe::LinearLoadMip0,
            BindingRecipe::TextureLoad,
            MeshDomain::Indexed,
            TextureDomain::Linear,
            ReservationRecipe::MeshAndTexture,
            ExportRecipe::Texture,
        ),
        (
            RasterRecipe::uv_texture_load(),
            RasterKernel::IndexedPositionFloat32x3CameraMaterialTextureUv,
            RasterPipelineId::new(0x0240_0001),
            BindingSetId::new(0x0240_0001),
            VertexRecipe::PositionUv,
            TextureRecipe::LinearLoadMip0,
            BindingRecipe::UvTextureLoad,
            MeshDomain::TexturedIndexed,
            TextureDomain::Linear,
            ReservationRecipe::MeshAndTexture,
            ExportRecipe::UvTexture,
        ),
        (
            RasterRecipe::uv_linear_clamp_unorm(),
            RasterKernel::IndexedPositionFloat32x3CameraMaterialTextureUvLinearClamp,
            RasterPipelineId::new(0x0250_0001),
            BindingSetId::new(0x0250_0001),
            VertexRecipe::PositionUv,
            TextureRecipe::LinearClampMip0,
            BindingRecipe::UvLinearClamp,
            MeshDomain::TexturedIndexed,
            TextureDomain::Linear,
            ReservationRecipe::MeshAndTexture,
            ExportRecipe::UvTexture,
        ),
        (
            RasterRecipe::uv_linear_clamp_srgb(),
            RasterKernel::IndexedPositionFloat32x3CameraMaterialTextureUvLinearClampSrgb,
            RasterPipelineId::new(0x0260_0001),
            BindingSetId::new(0x0260_0001),
            VertexRecipe::PositionUv,
            TextureRecipe::SrgbLinearClampMip0,
            BindingRecipe::UvLinearClampSrgb,
            MeshDomain::TexturedIndexed,
            TextureDomain::Srgb,
            ReservationRecipe::MeshAndTexture,
            ExportRecipe::UvTexture,
        ),
        (
            RasterRecipe::normal_lambert(),
            RasterKernel::IndexedPositionFloat32x3CameraMaterialNormalLambert,
            normal_lambert_pipeline(),
            normal_lambert_bindings(),
            VertexRecipe::PositionNormal,
            TextureRecipe::Untextured,
            BindingRecipe::NormalLambert,
            MeshDomain::NormalIndexed,
            TextureDomain::Untextured,
            ReservationRecipe::Mesh,
            ExportRecipe::NormalLambert,
        ),
    ];
    for (
        recipe,
        kernel,
        pipeline,
        bindings,
        vertex,
        texture,
        binding,
        mesh,
        domain,
        reservation,
        export,
    ) in cases
    {
        assert_eq!(recipe.kernel(), kernel);
        assert_eq!((recipe.pipeline(), recipe.bindings()), (pipeline, bindings));
        assert_eq!(
            (recipe.vertex(), recipe.texture(), recipe.binding()),
            (vertex, texture, binding)
        );
        assert_eq!(
            (recipe.mesh_domain(), recipe.texture_domain()),
            (mesh, domain)
        );
        assert_eq!(
            (recipe.reservation(), recipe.export()),
            (reservation, export)
        );
    }
}

#[test]
fn recipes_accept_exactly_their_domains() {
    let unlit = RasterRecipe::legacy_unlit();
    assert!(unlit.accepts(FrameMeshKind::Indexed, None));
    assert!(!unlit.accepts(FrameMeshKind::Indexed, Some(FrameTextureKind::Linear)));
    assert!(!unlit.accepts(FrameMeshKind::TexturedUv, None));

    let srgb = RasterRecipe::uv_linear_clamp_srgb();
    assert!(srgb.accepts(FrameMeshKind::TexturedUv, Some(FrameTextureKind::Srgb)));
    assert!(!srgb.accepts(FrameMeshKind::TexturedUv, Some(FrameTextureKind::Linear)));
    assert!(!srgb.accepts(FrameMeshKind::Indexed, Some(FrameTextureKind::Srgb)));

    let lambert = RasterRecipe::normal_lambert();
    assert!(lambert.accepts(FrameMeshKind::Normal, None));
    assert!(!lambert.accepts(FrameMeshKind::Indexed, None));
}

#[test]
fn paired_gate_second_failure_rolls_back_the_first_gate_atomically() {
    let first_released = Cell::new(false);
    let result: Result<(u8, u8), PairReservationError<&'static str>> =
        reserve_pair(Ok(7), || Err("texture busy"), |_| first_released.set(true));
    assert!(matches!(
        result,
        Err(PairReservationError::Second("texture busy"))
    ));
    assert!(first_released.get());
    let first_error: Result<(u8, u8), PairReservationError<&'static str>> = reserve_pair(
        Err("mesh busy"),
        || Ok(9),
        |_| unreachable!("first failure cannot roll back"),
    );
    assert!(matches!(
        first_error,
        Err(PairReservationError::First("mesh busy"))
    ));
}

#[test]
fn paired_gate_success_keeps_both_acquisitions() {
    let rolled_back = Cell::new(false);
    let result: Result<(u8, u8), PairReservationError<&'static str>> =
        reserve_pair(Ok(3), || Ok(4), |_| rolled_back.set(true));
    assert_eq!(result, Ok((3, 4)));
    assert!(!rolled_back.get());
}

#[test]
fn pair_errors_map_to_mesh_then_texture_draw_errors() {
    assert_eq!(
        map_pair_error(PairReservationError::First(SnapshotUseError::InFlight)),
        DrawStartError::SnapshotInFlight
    );
    assert_eq!(
        map_pair_error(PairReservationError::First(SnapshotUseError::Poisoned)),
        DrawStartError::SnapshotPoisoned
    );
    assert_eq!(
        map_pair_error(PairReservationError::Second(SnapshotUseError::InFlight)),
        DrawStartError::TextureInFlight
    );
    assert_eq!(
        map_pair_error(PairReservationError::Second(SnapshotUseError::Poisoned)),
        DrawStartError::TexturePoisoned
    );
}

#[test]
fn packet_buffer_identities_are_monotonic_and_packet_private() {
    let mut issuer = PacketIdIssuer::new();
    let first = issuer.buffer().unwrap();
    let second = issuer.buffer().unwrap();

    assert_eq!(first, BufferBindingId::new(0x0290_0000_0000_0000));
    assert_eq!(second, BufferBindingId::new(0x0290_0000_0000_0001));
}

#[test]
fn positions_compare_by_exact_bits() {
    let nan = f32::NAN.to_bits();
    assert!(positions_equal_by_bits(&[[nan, 0, 1]], &[[nan, 0, 1]]));
    assert!(!positions_equal_by_bits(
        &[[0.0f32.to_bits(), 0, 0]],
        &[[(-0.0f32).to_bits(), 0, 0]]
    ));
    assert!(!positions_equal_by_bits(&[[0, 0, 0]], &[]));
}

#[test]
fn acquired_permission_is_consumed_once() {
    let mut surface = OneShotSurface::new("acquired-image");
    assert_eq!(surface.take(), Some("acquired-image"));
    assert_eq!(surface.take(), None);
}

#[test]
fn indexed_input_admission_checks_extent_device_then_index_count() {
    let triangle = IndexedMeshSnapshot::publish(1, 3, 3, &[[0; 3]; 3], &[0, 1, 2]);
    let line = IndexedMeshSnapshot::publish(2, 3, 2, &[[0; 3]; 3], &[0, 1]);
    assert_eq!(validate_indexed_input(&triangle, [7, 7], 7, [4, 4]), Ok(()));
    assert_eq!(
        validate_indexed_input(&triangle, [7, 7], 7, [0, 4]),
        Err(DrawStartError::InvalidExtent)
    );
    assert_eq!(
        validate_indexed_input(&triangle, [7, 8], 7, [4, 4]),
        Err(DrawStartError::ForeignSnapshotDevice)
    );
    assert_eq!(
        validate_indexed_input(&line, [7, 7], 7, [4, 4]),
        Err(DrawStartError::InvalidIndexCount)
    );
    assert_eq!(
        validate_indexed_input(&line, [7, 7], 9, [0, 0]),
        Err(DrawStartError::InvalidExtent)
    );
}

#[test]
fn rgba8_filterability_follows_the_reported_capabilities() {
    assert!(!rgba8_unorm_filterable(&[]));
    let linear = TextureFormatCapabilities {
        format: TextureFormat::Rgba8Unorm,
        sampled: true,
        filterable: true,
    };
    let unfiltered = TextureFormatCapabilities {
        filterable: false,
        ..linear
    };
    let srgb = TextureFormatCapabilities {
        format: TextureFormat::Rgba8UnormSrgb,
        ..linear
    };
    assert!(rgba8_unorm_filterable(&[srgb, linear]));
    assert!(!rgba8_unorm_filterable(&[unfiltered, srgb]));
}

#[derive(Clone, Copy, Debug, PartialEq, Eq)]
enum CompletionFailure {
    DeviceLost,
    Timeout,
}


fn reserved_snapshot(generation: u64) -> IndexedMeshSnapshot {
    IndexedMeshSnapshot::publish(generation, 1, 3, &[[0, 0, 0]], &[0, 0, 0])
}

#[test]
fn completed_frame_releases_its_generation_once() {
    let mut snapshot = reserved_snapshot(7);
    let reservation = snapshot.reserve_for_draw().unwrap();
    let target = FrameImage::new([4, 2], TextureFormat::Rgba8Unorm);
    let mut frame = FixedFrameSubmission::accepted(reservation, target, CompletionFailure::DeviceLost);
    assert_eq!(
        frame.poll(FrameObservation::ExecutorBusy, &mut snapshot),
        FixedFrameStatus::Busy
    );
    assert_eq!(
        frame.poll(FrameObservation::Status(CompletionStatus::Pending), &mut snapshot),
        FixedFrameStatus::Pending
    );
    assert_eq!(snapshot.reserve_for_draw().unwrap_err(), SnapshotUseError::InFlight);
    let status = frame.poll(FrameObservation::Status(CompletionStatus::Complete), &mut snapshot);
    assert_eq!(status, FixedFrameStatus::Complete(target));
    if let FixedFrameStatus::Complete(image) = status {
        assert_eq!(image.extent(), [4, 2]);
        assert_eq!(image.format(), TextureFormat::Rgba8Unorm);
    }
    assert_eq!(
        frame.poll(FrameObservation::Unobservable, &mut snapshot),
        FixedFrameStatus::Complete(target)
    );
    frame.drop(&mut snapshot);
    let again = snapshot.reserve_for_draw();
    assert!(again.is_ok());
}

#[test]
fn failed_or_abandoned_frames_poison_their_generation() {
    let target = FrameImage::new([1, 1], TextureFormat::Rgba8Unorm);

    let mut snapshot = reserved_snapshot(7);
    let mut frame = FixedFrameSubmission::accepted(
        snapshot.reserve_for_draw().unwrap(),
        target,
        CompletionFailure::DeviceLost,
    );
    assert_eq!(
        frame.poll(
            FrameObservation::Status(CompletionStatus::Failed(CompletionFailure::Timeout)),
            &mut snapshot
        ),
        FixedFrameStatus::Failed(CompletionFailure::Timeout)
    );
    assert_eq!(
        frame.poll(FrameObservation::Status(CompletionStatus::Complete), &mut snapshot),
        FixedFrameStatus::Failed(CompletionFailure::Timeout)
    );
    assert_eq!(snapshot.reserve_for_draw().unwrap_err(), SnapshotUseError::Poisoned);

    let mut lost_snapshot = reserved_snapshot(8);
    let mut lost = FixedFrameSubmission::accepted(
        lost_snapshot.reserve_for_draw().unwrap(),
        target,
        CompletionFailure::DeviceLost,
    );
    assert_eq!(
        lost.poll(FrameObservation::Status(CompletionStatus::Unrecognized), &mut lost_snapshot),
        FixedFrameStatus::Failed(CompletionFailure::DeviceLost)
    );
    assert_eq!(lost_snapshot.reserve_for_draw().unwrap_err(), SnapshotUseError::Poisoned);

    let mut abandoned_snapshot = reserved_snapshot(9);
    let abandoned = FixedFrameSubmission::accepted(
        abandoned_snapshot.reserve_for_draw().unwrap(),
        target,
        CompletionFailure::DeviceLost,
    );
    abandoned.drop(&mut abandoned_snapshot);
    assert_eq!(abandoned_snapshot.reserve_for_draw().unwrap_err(), SnapshotUseError::Poisoned);
}

#[test]
fn texture_coordinate_references_fail_at_the_first_bad_index() {
    let finite = [0.5f32.to_bits(), 0.25f32.to_bits()];
    let broken = [f32::NAN.to_bits(), 0];
    assert_eq!(
        validate_texture_coordinate_references(&[0, 1, 0], &[finite, finite]),
        Ok(())
    );
    assert_eq!(
        validate_texture_coordinate_references(&[0, 2, 1], &[finite, broken]),
        Err(DrawStartError::InvalidIndexCount)
    );
    assert_eq!(
        validate_texture_coordinate_references(&[1, 2], &[finite, broken]),
        Err(DrawStartError::NonFiniteTextureCoordinate)
    );
    assert_eq!(validate_texture_coordinate_references(&[], &[]), Ok(()));
}

#[test]
fn lowering_checks_list_snapshots_then_extent() {
    assert_eq!(
        check_lowering(0, 0, [0, 0]),
        Err(RenderPacketBuildError::EmptyDrawList)
    );
    assert_eq!(
        check_lowering(2, 1, [0, 0]),
        Err(RenderPacketBuildError::SnapshotCountMismatch {
            draws: 2,
            snapshots: 1
        })
    );
    assert_eq!(
        check_lowering(1, 1, [8, 0]),
        Err(RenderPacketBuildError::InvalidExtent)
    );
    assert_eq!(check_lowering(1, 1, [8, 8]), Ok(()));
}

#[test]
fn preparation_errors_keep_index_and_reason() {
    assert_eq!(
        map_preparation_error(PreparedBasicSceneError::Draw {
            index: 3,
            reason: PreparedBasicDrawError::ClipOutOfBounds
        }),
        RenderPacketBuildError::Draw {
            index: 3,
            reason: RenderPacketDrawBuildError::ClipOutOfBounds
        }
    );
    assert_eq!(
        map_preparation_error(PreparedBasicSceneError::Empty),
        RenderPacketBuildError::EmptyDrawList
    );
    assert_eq!(
        map_preparation_error(PreparedBasicSceneError::PreparationGraph),
        RenderPacketBuildError::PreparationGraph
    );
}

#[test]
fn packet_draws_match_snapshots_by_device_bits_and_indices() {
    let one = 1.0f32.to_bits();
    let draw = Geometry::from_positions(vec![[0, 0, 0], [one, 0, 0], [0, one, 0]])
        .with_indices(vec![0, 1, 2])
        .unwrap();
    let matching = IndexedMeshSnapshot::publish(
        1,
        3,
        3,
        &[[0, 0, 0], [one, 0, 0], [0, one, 0]],
        &[0, 1, 2],
    );
    let negative_zero = IndexedMeshSnapshot::publish(
        2,
        3,
        3,
        &[[(-0.0f32).to_bits(), 0, 0], [one, 0, 0], [0, one, 0]],
        &[0, 1, 2],
    );
    let reordered = IndexedMeshSnapshot::publish(
        3,
        3,
        3,
        &[[0, 0, 0], [one, 0, 0], [0, one, 0]],
        &[0, 2, 1],
    );
    assert_eq!(
        check_packet_draw(0, 5, [5, 5], &draw, &matching),
        Ok(())
    );
    assert_eq!(
        check_packet_draw(4, 5, [5, 6], &draw, &matching),
        Err(RenderPacketBuildError::Draw {
            index: 4,
            reason: RenderPacketDrawBuildError::ForeignSnapshotDevice
        })
    );
    assert_eq!(
        check_packet_draw(1, 5, [5, 5], &draw, &negative_zero),
        Err(RenderPacketBuildError::Draw {
            index: 1,
            reason: RenderPacketDrawBuildError::PositionMetadataMismatch
        })
    );
    let prepared = prepare_scene(vec![
        (draw.clone(), Ok(uniform_with_color(0.25))),
        (draw.clone(), Ok(uniform_with_color(0.75))),
    ])
    .unwrap();
    let mismatched = [(matching, [5, 5]), (reordered, [5, 5])];
    assert_eq!(
        prepare_draws(5, &prepared, &mismatched).err().unwrap(),
        RenderPacketBuildError::Draw {
            index: 1,
            reason: RenderPacketDrawBuildError::IndexMetadataMismatch
        }
    );
    let again = IndexedMeshSnapshot::publish(4, 3, 3, &[[0, 0, 0], [one, 0, 0], [0, one, 0]], &[0, 1, 2]);
    let short = [(again, [5, 5])];
    assert_eq!(
        prepare_draws(5, &prepared, &short).err().unwrap(),
        RenderPacketBuildError::SnapshotCountMismatch {
            draws: 2,
            snapshots: 1
        }
    );
}

fn uniform_with_color(red: f32) -> FrameUniform {
    let one = 1.0f32.to_bits();
    let identity = [[one, 0, 0, 0], [0, one, 0, 0], [0, 0, one, 0], [0, 0, 0, one]];
    let material = BasicMaterial::new([red.to_bits(), 0, 0, one]).unwrap();
    FrameUniform::new(&Camera::default(), &material, Some(identity)).unwrap()
}

fn triangle() -> Geometry {
    let one = 1.0f32.to_bits();
    Geometry::from_positions(vec![[0, 0, 0], [one, 0, 0], [0, one, 0]])
        .with_indices(vec![0, 1, 2])
        .unwrap()
}

#[test]
fn packet_draws_pair_each_snapshot_with_its_prepared_uniform() {
    let one = 1.0f32.to_bits();
    let prepared = prepare_scene(vec![
        (triangle(), Ok(uniform_with_color(0.25))),
        (triangle(), Ok(uniform_with_color(0.75))),
    ])
    .unwrap();
    let snapshots = [
        (IndexedMeshSnapshot::publish(8, 3, 3, &[[0, 0, 0], [one, 0, 0], [0, one, 0]], &[0, 1, 2]), [5, 5]),
        (IndexedMeshSnapshot::publish(9, 3, 3, &[[0, 0, 0], [one, 0, 0], [0, one, 0]], &[0, 1, 2]), [5, 5]),
    ];
    let packet = prepare_draws(5, &prepared, &snapshots).unwrap();
    assert_eq!(packet.len(), 2);
    assert_eq!(packet[0].snapshot.generation(), 8);
    assert_eq!(packet[1].snapshot.generation(), 9);
    assert_eq!(packet[0].uniform, &uniform_with_color(0.25));
    assert_eq!(packet[1].uniform, &uniform_with_color(0.75));
}

#[test]
fn scene_preparation_rejects_empty_then_reports_the_lowest_failing_draw() {
    assert_eq!(prepare_scene(Vec::new()).unwrap_err(), PreparedBasicSceneError::Empty);

    let one = 1.0f32.to_bits();
    let unindexed = Geometry::from_positions(vec![[0, 0, 0], [one, 0, 0], [0, one, 0]]);
    let partial = Geometry::from_positions(vec![[0, 0, 0], [one, 0, 0], [0, one, 0]])
        .with_indices(vec![0, 1])
        .unwrap();
    assert_eq!(
        prepare_scene(vec![
            (triangle(), Ok(uniform_with_color(0.5))),
            (unindexed, Ok(uniform_with_color(0.5))),
            (triangle(), Err(PreparedBasicDrawError::ClipOutOfBounds)),
        ])
        .unwrap_err(),
        PreparedBasicSceneError::Draw {
            index: 1,
            reason: PreparedBasicDrawError::InvalidIndexCount
        }
    );
    // The index count is checked before the uniform and clip outcome.
    assert_eq!(
        prepare_scene(vec![(partial, Err(PreparedBasicDrawError::NonFinitePosition))]).unwrap_err(),
        PreparedBasicSceneError::Draw {
            index: 0,
            reason: PreparedBasicDrawError::InvalidIndexCount
        }
    );
    assert_eq!(
        prepare_scene(vec![
            (triangle(), Err(PreparedBasicDrawError::ClipWNonPositive)),
            (triangle(), Err(PreparedBasicDrawError::ClipOutOfBounds)),
        ])
        .unwrap_err(),
        PreparedBasicSceneError::Draw {
            index: 0,
            reason: PreparedBasicDrawError::ClipWNonPositive
        }
    );

    let scene = prepare_scene(vec![
        (triangle(), Ok(uniform_with_color(0.25))),
        (triangle(), Ok(uniform_with_color(0.75))),
    ])
    .unwrap();
    let draws = scene.draws();
    assert_eq!(draws.len(), 2);
    assert_eq!(draws[0].insertion_index(), 0);
    assert_eq!(draws[1].insertion_index(), 1);
    assert_eq!(draws[1].indices(), &[0, 1, 2]);
    assert_eq!(draws[1].positions(), &[[0, 0, 0], [one, 0, 0], [0, one, 0]]);
    assert_eq!(draws[1].uniform(), &uniform_with_color(0.75));
}

#[test]
fn draw_admission_checks_format_extent_devices_then_indices() {
    let srgb = TextureFormatCapabilities {
        format: TextureFormat::Rgba8UnormSrgb,
        sampled: true,
        filterable: true,
    };
    assert_eq!(
        admit_draw(Some(TextureFormat::Rgba8Unorm), &[srgb], 1, &[2], 0, [0, 0]),
        Err(DrawStartError::TextureFormatNotFilterable {
            format: TextureFormat::Rgba8Unorm
        })
    );
    assert_eq!(
        admit_draw(Some(TextureFormat::Rgba8UnormSrgb), &[srgb], 1, &[2], 0, [0, 0]),
        Err(DrawStartError::InvalidExtent)
    );
    assert_eq!(
        admit_draw(None, &[], 1, &[1, 1, 2], 0, [4, 4]),
        Err(DrawStartError::ForeignSnapshotDevice)
    );
    assert_eq!(
        admit_draw(None, &[], 1, &[1, 1, 1], 4, [4, 4]),
        Err(DrawStartError::InvalidIndexCount)
    );
    assert_eq!(admit_draw(None, &[], 1, &[1, 1, 1], 6, [4, 4]), Ok(()));
}

#[test]
fn visible_recipe_keeps_the_camera_material_kernel() {
    assert_eq!(
        visible_camera_recipe().kernel(),
        RasterKernel::IndexedPositionFloat32x3CameraMaterial
    );
    assert_eq!(visible_camera_recipe(), RasterRecipe::legacy_unlit());
}

fn prepared_triangle_uniform(color: [f32; 4]) -> FrameUniform {
    // Default camera and identity placement: projection * view * model is the identity.
    let one = 1.0f32.to_bits();
    let identity = [[one, 0, 0, 0], [0, one, 0, 0], [0, 0, one, 0], [0, 0, 0, one]];
    let material = BasicMaterial::new(color.map(f32::to_bits)).expect("fixed color");
    FrameUniform::new(&Camera::default(), &material, Some(identity)).unwrap()
}

fn fixed_triangle() -> Geometry {
    Geometry::from_positions(
        [[-0.2f32, -0.2, 0.5], [0.2, -0.2, 0.5], [0.0, 0.2, 0.5]]
            .iter()
            .map(|position| position.map(f32::to_bits))
            .collect(),
    )
    .with_indices(vec![0, 1, 2])
    .expect("fixed indices")
}

fn color_words(uniform: &FrameUniform) -> Vec<f32> {
    uniform.bytes()[64..]
        .chunks_exact(4)
        .map(|word| f32::from_bits(u32::from_le_bytes(word.try_into().unwrap())))
        .collect()
}

#[test]
fn shared_preparation_preserves_order_and_exact_uniform_values() {
    let prepared = prepare_scene(vec![
        (fixed_triangle(), Ok(prepared_triangle_uniform([1.0, 0.0, 0.0, 1.0]))),
        (fixed_triangle(), Ok(prepared_triangle_uniform([0.0, 1.0, 0.0, 1.0]))),
    ])
    .expect("scene prepares");
    assert_eq!(prepared.draws().len(), 2);
    assert_eq!(prepared.draws()[0].insertion_index(), 0);
    assert_eq!(prepared.draws()[1].insertion_index(), 1);
    assert_eq!(color_words(prepared.draws()[0].uniform()), vec![1.0, 0.0, 0.0, 1.0]);
    assert_eq!(color_words(prepared.draws()[1].uniform()), vec![0.0, 1.0, 0.0, 1.0]);
}

#[test]
fn referenced_positions_stop_at_the_first_out_of_range_index() {
    let one = 1.0f32.to_bits();
    let positions = [[0, 0, 0], [one, 0, 0]];
    assert_eq!(
        referenced_positions(&positions, &[1, 0, 1]),
        (vec![[one, 0, 0], [0, 0, 0], [one, 0, 0]], true)
    );
    assert_eq!(
        referenced_positions(&positions, &[0, 2, 1]),
        (vec![[0, 0, 0]], false)
    );
    assert_eq!(referenced_positions(&positions, &[]), (vec![], true));
}

#[test]
fn draw_uniform_precedence_rejects_inputs_then_view_projection_then_placement() {
    let one = 1.0f32.to_bits();
    let identity = [[one, 0, 0, 0], [0, one, 0, 0], [0, 0, one, 0], [0, 0, 0, one]];
    let mut broken = identity;
    broken[1][1] = f32::INFINITY.to_bits();
    let camera = Camera::default();
    let material = BasicMaterial::default();
    let broken_camera = Camera::new(broken, identity);
    assert_eq!(
        form_draw_uniform(&broken_camera, &material, Some(identity), None),
        Err(PreparedBasicDrawError::InvalidCameraMaterial)
    );
    assert_eq!(
        form_draw_uniform(&camera, &material, None, None),
        Err(PreparedBasicDrawError::InvalidCameraMaterial)
    );
    assert_eq!(
        form_draw_uniform(&camera, &material, Some(broken), Some(identity)),
        Err(PreparedBasicDrawError::InvalidCameraMaterial)
    );
    assert_eq!(
        form_draw_uniform(&camera, &material, Some(identity), None),
        Err(PreparedBasicDrawError::ModelTransformProductNonFinite)
    );
    assert_eq!(
        form_draw_uniform(&camera, &material, Some(identity), Some(broken)),
        Err(PreparedBasicDrawError::ModelTransformProductNonFinite)
    );
    let mut translated = identity;
    translated[3][0] = 2.0f32.to_bits();
    let uniform = form_draw_uniform(&camera, &material, Some(identity), Some(translated)).unwrap();
    assert_eq!(uniform.view_projection(), &translated);
    assert_eq!(&uniform.bytes()[48..52], &2.0f32.to_le_bytes());
}

#[test]
fn frame_start_steps_in_order_and_releases_both_generations_on_failure() {
    let mut start = FrameStart::new(RasterRecipe::uv_linear_clamp_srgb());
    assert_eq!(
        start.action(),
        FrameStartAction::CreatePipeline(RasterKernel::IndexedPositionFloat32x3CameraMaterialTextureUvLinearClampSrgb)
    );
    start.step_succeeded();
    assert_eq!(start.action(), FrameStartAction::RegisterPipeline);
    start.step_succeeded();
    assert_eq!(
        start.action(),
        FrameStartAction::RegisterBindings {
            binding: BindingRecipe::UvLinearClampSrgb,
            stream: Some(BindingStream::TextureCoordinates),
        }
    );
    start.step_succeeded();
    assert_eq!(
        start.action(),
        FrameStartAction::UploadUniform(UniformUploadDescriptor {
            size: 80,
            usages: [UniformBufferUsage::CopyDestination, UniformBufferUsage::Uniform],
            memory: UniformMemory::DeviceOnly,
        })
    );

    // The uniform upload was refused: both generations become usable again.
    let mut mesh = IndexedMeshSnapshot::publish(3, 1, 3, &[[0, 0, 0]], &[0, 0, 0]);
    let mut texture = BaseColorTextureSnapshot::publish(4, [1, 1]);
    let reservation = mesh.reserve_for_draw().unwrap();
    let texture_reservation = texture.reserve_for_draw().unwrap();
    abandon_textured_start(start, &mut mesh, reservation, &mut texture, texture_reservation);
    assert!(mesh.reserve_for_draw().is_ok());
    assert!(texture.reserve_for_draw().is_ok());

    let mut accepted = FrameStart::new(RasterRecipe::legacy_unlit());
    for _ in 0..4 {
        accepted.step_succeeded();
    }
    assert_eq!(accepted.stage(), FrameStartStage::Accepted);
    assert_eq!(accepted.action(), FrameStartAction::Submit);
}

#[test]
fn binding_recipes_register_their_extra_vertex_stream() {
    assert_eq!(binding_stream(BindingRecipe::VertexColor), Some(BindingStream::Colors));
    assert_eq!(binding_stream(BindingRecipe::NormalLambert), Some(BindingStream::Normals));
    assert_eq!(binding_stream(BindingRecipe::UvTextureLoad), Some(BindingStream::TextureCoordinates));
    assert_eq!(binding_stream(BindingRecipe::UvLinearClamp), Some(BindingStream::TextureCoordinates));
    assert_eq!(binding_stream(BindingRecipe::TextureLoad), None);
    assert_eq!(binding_stream(BindingRecipe::Uniform), None);

    let mut mesh = IndexedMeshSnapshot::publish(5, 1, 3, &[[0, 0, 0]], &[0, 0, 0]);
    let reservation = mesh.reserve_for_draw().unwrap();
    abandon_start(FrameStart::new(RasterRecipe::legacy_unlit()), &mut mesh, reservation);
    assert!(mesh.reserve_for_draw().is_ok());
}
