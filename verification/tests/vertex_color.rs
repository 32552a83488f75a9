use fluxel_renderer::scene::Geometry;
use fluxel_renderer::upload::vertex_color::{
    VertexColorGeometry, VertexColorGeometryError, VertexColorMaterial, VertexColorMaterialError,
    VertexColorMeshPayload,
};

fn bits3(v: [f32; 3]) -> [u32; 3] {
    v.map(f32::to_bits)
}

fn bits4(v: [f32; 4]) -> [u32; 4] {
    v.map(f32::to_bits)
}

#[test]
fn vertex_color_geometry_material_and_payload_preserve_closed_contract() {
    assert_eq!(
        VertexColorGeometry::new(Geometry::from_positions(Vec::new()), Vec::new()).unwrap_err(),
        VertexColorGeometryError::EmptyPositions
    );
    let unindexed = Geometry::from_positions(vec![bits3([0.0; 3])]);
    assert_eq!(
        VertexColorGeometry::new(unindexed, vec![[0; 4]]).unwrap_err(),
        VertexColorGeometryError::MissingIndices
    );
    let non_triangle = Geometry::from_positions(vec![bits3([0.0; 3])])
        .with_indices(vec![0, 0])
        .unwrap();
    assert_eq!(
        VertexColorGeometry::new(non_triangle, vec![[0; 4]]).unwrap_err(),
        VertexColorGeometryError::NonTriangleIndexCount { index_count: 2 }
    );
    let geometry = Geometry::from_positions(vec![bits3([1.0, -0.0, 2.5]), bits3([0.0, 1.0, 0.0])])
        .with_indices(vec![0, 1, 0])
        .unwrap();
    assert_eq!(
        VertexColorGeometry::new(geometry.clone(), vec![[1, 2, 3, 4]]).unwrap_err(),
        VertexColorGeometryError::ColorCountMismatch {
            positions: 2,
            colors: 1
        }
    );
    let vertex_color =
        VertexColorGeometry::new(geometry, vec![[0, 127, 255, 1], [4, 3, 2, 1]]).unwrap();
    assert_eq!(vertex_color.colors(), &[[0, 127, 255, 1], [4, 3, 2, 1]]);
    let payload = VertexColorMeshPayload::from_geometry(&vertex_color).unwrap();
    assert_eq!(payload.positions.len(), 24);
    assert_eq!(&payload.positions[4..8], &(-0.0f32).to_le_bytes());
    assert_eq!(payload.colors, [0, 127, 255, 1, 4, 3, 2, 1]);
    assert_eq!(payload.indices, [0, 0, 0, 0, 1, 0, 0, 0, 0, 0, 0, 0]);
    assert_eq!(payload.position_count, 2);
    assert_eq!(payload.index_count, 3);
}

#[test]
fn vertex_color_tint_checks_finiteness_then_range_per_component() {
    assert_eq!(
        VertexColorMaterial::new(bits4([f32::NAN, 0.0, 0.0, 0.0])).unwrap_err(),
        VertexColorMaterialError::NonFinite { component: 0 }
    );
    assert_eq!(
        VertexColorMaterial::new(bits4([0.0, 1.1, f32::INFINITY, 0.0])).unwrap_err(),
        VertexColorMaterialError::OutOfRange { component: 1 }
    );
    assert_eq!(
        VertexColorMaterial::new(bits4([0.0, 0.0, 0.0, -f32::MIN_POSITIVE])).unwrap_err(),
        VertexColorMaterialError::OutOfRange { component: 3 }
    );
    assert_eq!(
        VertexColorMaterial::new(bits4([0.0, 1.0, 0.5, 1.0]))
            .unwrap()
            .tint(),
        &bits4([0.0, 1.0, 0.5, 1.0])
    );
    assert!(VertexColorMaterial::new(bits4([-0.0, 0.0, 1.0, 1.0])).is_ok());
}
