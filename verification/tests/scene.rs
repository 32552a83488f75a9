use fluxel_renderer::prepared_scene::{
    assemble_in_insertion_order, byte_size, map_clip_error, presentable_graph_layout,
    record_first_error,
    PresentableDrawBuffers, PreparedBasicDrawError,
    PreparedBasicGraphError, PreparedBasicSceneError, PresentableFormat, PresentationProfile,
};
use fluxel_renderer::fixed_frame::validation::{DrawStartError, TextureFormat};
use fluxel_renderer::scene::{
    BasicMaterial, Camera, DrawList, Geometry, GeometryError, Mesh, ModelTransform, ModelTransformError,
};
use fluxel_renderer::shader::{basic_material_modules, ShaderStage};

fn bits3(v: [f32; 3]) -> [u32; 3] {
    v.map(f32::to_bits)
}

#[test]
fn lib_geometry_rejects_an_out_of_bounds_index() {
    let error = Geometry::from_positions(vec![bits3([0.0, 0.0, 0.0])])
        .with_indices(vec![1])
        .unwrap_err();
    assert_eq!(
        error,
        GeometryError::IndexOutOfBounds {
            index: 1,
            vertex_count: 1,
        }
    );
}

#[test]
fn mod_geometry_rejects_an_out_of_bounds_index() {
    let error = Geometry::from_positions(vec![bits3([0.0, 0.0, 0.0])])
        .with_indices(vec![1])
        .unwrap_err();
    assert_eq!(
        error,
        GeometryError::IndexOutOfBounds {
            index: 1,
            vertex_count: 1,
        }
    );
}

#[test]
fn geometry_reports_the_first_out_of_bounds_index() {
    let error = Geometry::from_positions(vec![bits3([0.0; 3]); 2])
        .with_indices(vec![0, 1, 5, 2])
        .unwrap_err();
    assert_eq!(
        error,
        GeometryError::IndexOutOfBounds {
            index: 5,
            vertex_count: 2,
        }
    );
    let geometry = Geometry::from_positions(vec![bits3([0.0; 3]); 2])
        .with_indices(vec![0, 1, 1])
        .unwrap();
    assert!(geometry.is_indexed());
    assert_eq!(geometry.indices(), &[0, 1, 1]);
    assert!(!Geometry::from_positions(vec![bits3([0.0; 3])]).is_indexed());
}

#[test]
fn lib_draw_list_preserves_submission_order() {
    let camera = Camera::default();
    let first = Mesh::new(
        Geometry::from_positions(vec![bits3([0.0, 0.0, 0.0])]),
        BasicMaterial::default(),
    );
    let second = Mesh::new(
        Geometry::from_positions(vec![bits3([1.0, 0.0, 0.0])]),
        BasicMaterial::default(),
    );
    let mut list = DrawList::new(&camera);
    list.push(&first);
    list.push(&second);

    assert_eq!(
        list.iter()
            .iter()
            .map(|item| item.mesh().geometry().positions()[0])
            .collect::<Vec<_>>(),
        vec![bits3([0.0, 0.0, 0.0]), bits3([1.0, 0.0, 0.0])]
    );
}

#[test]
fn mod_draw_list_preserves_submission_order() {
    let camera = Camera::default();
    let first = Mesh::new(
        Geometry::from_positions(vec![bits3([0.0, 0.0, 0.0])]),
        BasicMaterial::default(),
    );
    let second = Mesh::new(
        Geometry::from_positions(vec![bits3([1.0, 0.0, 0.0])]),
        BasicMaterial::default(),
    );
    let mut list = DrawList::new(&camera);
    list.push(&first);
    list.push(&second);

    assert_eq!(
        list.iter()
            .iter()
            .map(|item| item.mesh().geometry().positions()[0])
            .collect::<Vec<_>>(),
        vec![bits3([0.0, 0.0, 0.0]), bits3([1.0, 0.0, 0.0])]
    );
}

#[test]
fn default_camera_is_identity_and_draw_list_counts_pushes() {
    let camera = Camera::default();
    let one = 1.0f32.to_bits();
    let identity = [[one, 0, 0, 0], [0, one, 0, 0], [0, 0, one, 0], [0, 0, 0, one]];
    assert_eq!(camera.view(), &identity);
    assert_eq!(camera.projection(), &identity);
    assert_eq!(BasicMaterial::default().base_color(), [one; 4]);
    let mesh = Mesh::new(Geometry::from_positions(Vec::new()), BasicMaterial::new([0; 4]).unwrap());
    let mut list = DrawList::new(&camera);
    assert!(list.is_empty());
    list.push(&mesh);
    list.push(&mesh);
    assert_eq!(list.len(), 2);
    assert!(!list.is_empty());
}

#[test]
fn basic_material_keeps_stage_specific_source_boundaries() {
    let modules = basic_material_modules();
    assert_eq!(modules[0].stage(), ShaderStage::Vertex);
    assert_eq!(modules[1].stage(), ShaderStage::Fragment);
    assert!(modules.iter().all(|module| !module.source().is_empty()));
}

#[test]
fn presentation_profiles_select_their_texture_format() {
    let rgba = PresentationProfile::for_format(PresentableFormat::Rgba8Unorm);
    let bgra = PresentationProfile::for_format(PresentableFormat::Bgra8Unorm);
    assert_eq!(rgba.format(), PresentableFormat::Rgba8Unorm);
    assert_eq!(rgba.texture_format(), TextureFormat::Rgba8Unorm);
    assert_eq!(bgra.texture_format(), TextureFormat::Bgra8Unorm);
    assert_ne!(rgba, bgra);
}

#[test]
fn first_recorded_preparation_error_wins() {
    let mut slot = None;
    record_first_error(
        &mut slot,
        PreparedBasicSceneError::Draw {
            index: 2,
            reason: PreparedBasicDrawError::ClipOutOfBounds,
        },
    );
    record_first_error(&mut slot, PreparedBasicSceneError::Empty);
    assert_eq!(
        slot,
        Some(PreparedBasicSceneError::Draw {
            index: 2,
            reason: PreparedBasicDrawError::ClipOutOfBounds,
        })
    );
}

#[test]
fn clip_errors_map_to_preparation_errors() {
    assert_eq!(
        map_clip_error(DrawStartError::ClipWNonPositive),
        PreparedBasicDrawError::ClipWNonPositive
    );
    assert_eq!(
        map_clip_error(DrawStartError::NonFinitePosition),
        PreparedBasicDrawError::NonFinitePosition
    );
    assert_eq!(
        map_clip_error(DrawStartError::InvalidExtent),
        PreparedBasicDrawError::InvalidIndexCount
    );
}

#[test]
fn byte_size_checks_u64_overflow() {
    assert_eq!(byte_size(3, 12), Ok(36));
    assert_eq!(byte_size(0, 12), Ok(0));
    assert_eq!(
        byte_size(usize::MAX, u64::MAX),
        Err(PreparedBasicGraphError::SizeOverflow)
    );
}

#[test]
fn presentation_profile_reports_only_its_format_as_filterable() {
    let profile = PresentationProfile::for_format(PresentableFormat::Bgra8Unorm);
    let formats = profile.capabilities();
    assert_eq!(formats.len(), 1);
    assert_eq!(formats[0].format, TextureFormat::Bgra8Unorm);
    assert!(formats[0].sampled && formats[0].filterable);
    assert!(!fluxel_renderer::fixed_frame::validation::rgba8_unorm_filterable(&formats));
}

#[test]
fn presentable_layout_sizes_each_draw_in_insertion_order() {
    let first = Geometry::from_positions(vec![bits3([0.0; 3]); 3])
        .with_indices(vec![0, 1, 2])
        .unwrap();
    let second = Geometry::from_positions(vec![bits3([0.0; 3]); 4])
        .with_indices(vec![0, 1, 2, 2, 3, 0])
        .unwrap();
    let layout = presentable_graph_layout(&[first.clone(), second], [800, 600]).unwrap();
    assert_eq!(
        layout,
        vec![
            PresentableDrawBuffers {
                position_bytes: 36,
                index_bytes: 12,
                uniform_bytes: 80,
                index_count: 3
            },
            PresentableDrawBuffers {
                position_bytes: 48,
                index_bytes: 24,
                uniform_bytes: 80,
                index_count: 6
            },
        ]
    );
    assert_eq!(
        presentable_graph_layout(&[first], [0, 600]),
        Err(PreparedBasicGraphError::InvalidExtent)
    );
    assert_eq!(presentable_graph_layout(&[], [1, 1]), Ok(vec![]));
}

#[test]
fn assembly_restores_insertion_order_of_completed_branches() {
    let arrived = vec![(2usize, 9u32), (0, 7), (1, 3)];
    assert_eq!(
        assemble_in_insertion_order(arrived),
        vec![(0, 7), (1, 3), (2, 9)]
    );
    assert_eq!(assemble_in_insertion_order(Vec::<(usize, u8)>::new()), vec![]);
}

#[test]
fn closed_presentable_profiles_reject_zero_sized_targets() {
    let triangle = Geometry::from_positions(vec![
        bits3([0.0, 0.5, 0.0]),
        bits3([-0.5, -0.5, 0.0]),
        bits3([0.5, -0.5, 0.0]),
    ])
    .with_indices(vec![0, 1, 2])
    .unwrap();
    for profile in [
        PresentationProfile::for_format(PresentableFormat::Rgba8Unorm),
        PresentationProfile::for_format(PresentableFormat::Bgra8Unorm),
    ] {
        // The layout of the closed presentation graph does not depend on the profile's format.
        let _ = profile.texture_format();
        assert_eq!(
            presentable_graph_layout(&[triangle.clone()], [0, 600]),
            Err(PreparedBasicGraphError::InvalidExtent)
        );
    }
}

fn matrix(values: [[f32; 4]; 4]) -> [[u32; 4]; 4] {
    values.map(|column| column.map(f32::to_bits))
}

#[test]
fn model_transform_validates_affinity_and_draw_list_preserves_placements() {
    let camera = Camera::default();
    let mesh = Mesh::new(
        Geometry::from_positions(vec![bits3([0.0, 0.0, 0.0])]),
        BasicMaterial::default(),
    );
    let translation = ModelTransform::from_column_major(matrix([
        [1.0, 0.0, 0.0, 0.0],
        [0.0, 1.0, 0.0, 0.0],
        [0.0, 0.0, 1.0, 0.0],
        [2.0, 3.0, 4.0, 1.0],
    ]))
    .unwrap();
    assert_eq!(ModelTransform::default(), ModelTransform::identity());
    assert_eq!(
        translation.world_from_model()[3],
        [2.0f32, 3.0, 4.0, 1.0].map(f32::to_bits)
    );
    assert_eq!(
        ModelTransform::from_column_major(matrix([[f32::NAN; 4]; 4])),
        Err(ModelTransformError::NonFinite)
    );
    assert_eq!(
        ModelTransform::from_column_major(matrix([
            [1.0, 0.0, 0.0, 1.0],
            [0.0, 1.0, 0.0, 0.0],
            [0.0, 0.0, 1.0, 0.0],
            [0.0, 0.0, 0.0, 1.0],
        ])),
        Err(ModelTransformError::NonAffine)
    );

    let mut list = DrawList::new(&camera);
    list.push(&mesh);
    list.push_transformed(&mesh, translation);
    assert_eq!(list.len(), 2);
    assert_eq!(list.iter()[0].transform(), ModelTransform::identity());
    assert_eq!(list.iter()[1].transform(), translation);
}

#[test]
fn model_transform_accepts_signed_zero_bottom_row_and_checks_finiteness_first() {
    let mut columns = matrix([
        [1.0, 0.0, 0.0, -0.0],
        [0.0, 1.0, 0.0, 0.0],
        [0.0, 0.0, 1.0, -0.0],
        [0.0, 0.0, 0.0, 1.0],
    ]);
    assert_eq!(
        ModelTransform::from_column_major(columns).unwrap().world_from_model(),
        columns
    );
    columns[3][3] = 2.0f32.to_bits();
    assert_eq!(
        ModelTransform::from_column_major(columns),
        Err(ModelTransformError::NonAffine)
    );
    columns[1][2] = f32::INFINITY.to_bits();
    assert_eq!(
        ModelTransform::from_column_major(columns),
        Err(ModelTransformError::NonFinite)
    );
}
