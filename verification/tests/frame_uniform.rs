use fluxel_renderer::frame_uniform::{validate_uniform_inputs, FrameUniform, FrameUniformError};
use fluxel_renderer::scene::{BasicMaterial, BasicMaterialError, Camera};

fn bits4(v: [f32; 4]) -> [u32; 4] {
    v.map(f32::to_bits)
}

fn matrix(values: [[f32; 4]; 4]) -> [[u32; 4]; 4] {
    values.map(bits4)
}

fn decoded_words(bytes: &[u8]) -> Vec<f32> {
    bytes
        .chunks_exact(4)
        .map(|word| f32::from_bits(u32::from_le_bytes(word.try_into().unwrap())))
        .collect()
}

#[test]
fn serializes_column_major_projection_times_view_and_color() {
    let view = matrix([
        [1.0, 2.0, 3.0, 4.0],
        [5.0, 6.0, 7.0, 8.0],
        [9.0, 10.0, 11.0, 12.0],
        [13.0, 14.0, 15.0, 16.0],
    ]);
    let projection = matrix([
        [2.0, 0.0, 0.0, 0.0],
        [0.0, 3.0, 0.0, 0.0],
        [0.0, 0.0, 5.0, 0.0],
        [7.0, 0.0, 0.0, 11.0],
    ]);
    // The binary32 product projection * view, computed outside the library.
    let product = matrix([
        [30.0, 6.0, 15.0, 44.0],
        [66.0, 18.0, 35.0, 88.0],
        [102.0, 30.0, 55.0, 132.0],
        [138.0, 42.0, 75.0, 176.0],
    ]);
    let material = BasicMaterial::new(bits4([0.0, 0.5, 1.0, 0.25])).unwrap();
    let uniform = FrameUniform::new(&Camera::new(view, projection), &material, Some(product)).unwrap();
    assert_eq!(
        decoded_words(uniform.bytes()),
        vec![
            30.0, 6.0, 15.0, 44.0, 66.0, 18.0, 35.0, 88.0, 102.0, 30.0, 55.0, 132.0, 138.0, 42.0,
            75.0, 176.0, 0.0, 0.5, 1.0, 0.25,
        ]
    );
    assert_eq!(uniform.view_projection(), &product);
}

#[test]
fn rejects_non_finite_out_of_range_and_overflowing_inputs() {
    assert_eq!(
        FrameUniform::new(
            &Camera::new(matrix([[f32::NAN; 4]; 4]), matrix([[0.0; 4]; 4])),
            &BasicMaterial::default(),
            None,
        ),
        Err(FrameUniformError::NonFiniteCamera)
    );
    // A non-finite or out-of-range color never becomes a material.
    assert_eq!(
        BasicMaterial::new(bits4([0.0, 0.0, 0.0, f32::INFINITY])),
        Err(BasicMaterialError::NonFinite { component: 3 })
    );
    assert_eq!(
        BasicMaterial::new(bits4([1.1, 0.0, 0.0, 1.0])),
        Err(BasicMaterialError::OutOfRange { component: 0 })
    );
    // MAX * MAX overflows binary32, so no product reaches the uniform.
    assert_eq!(
        FrameUniform::new(
            &Camera::new(matrix([[f32::MAX; 4]; 4]), matrix([[f32::MAX; 4]; 4])),
            &BasicMaterial::default(),
            None,
        ),
        Err(FrameUniformError::MatrixProductNonFinite)
    );
}

#[test]
fn uniform_serializes_column_major_matrix_then_color() {
    let camera = Camera::default();
    let material = BasicMaterial::new(bits4([0.25, 0.5, 0.75, 1.0])).unwrap();
    let product = matrix([
        [1.0, 2.0, 3.0, 4.0],
        [5.0, 6.0, 7.0, 8.0],
        [9.0, 10.0, 11.0, 12.0],
        [13.0, 14.0, 15.0, 16.0],
    ]);
    let uniform = FrameUniform::new(&camera, &material, Some(product)).unwrap();
    let bytes = uniform.bytes();
    assert_eq!(bytes.len(), 80);
    assert_eq!(&bytes[0..4], &1.0f32.to_le_bytes());
    assert_eq!(&bytes[4..8], &2.0f32.to_le_bytes());
    assert_eq!(&bytes[16..20], &5.0f32.to_le_bytes());
    assert_eq!(&bytes[60..64], &16.0f32.to_le_bytes());
    assert_eq!(&bytes[64..68], &0.25f32.to_le_bytes());
    assert_eq!(&bytes[76..80], &1.0f32.to_le_bytes());
}

#[test]
fn uniform_validation_accepts_signed_zero_and_rejects_a_broken_camera_first() {
    let mut view = matrix([[1.0, 0.0, 0.0, 0.0], [0.0, 1.0, 0.0, 0.0], [0.0, 0.0, 1.0, 0.0], [0.0, 0.0, 0.0, 1.0]]);
    let projection = view;
    let camera = Camera::new(view, projection);
    let signed_zero = BasicMaterial::new(bits4([-0.0, 1.0, 0.0, 1.0])).unwrap();
    assert_eq!(validate_uniform_inputs(&camera, &signed_zero), Ok(()));
    view[2][1] = f32::INFINITY.to_bits();
    let broken_camera = Camera::new(view, projection);
    assert_eq!(
        validate_uniform_inputs(&broken_camera, &signed_zero),
        Err(FrameUniformError::NonFiniteCamera)
    );
    assert_eq!(
        FrameUniform::new(&Camera::default(), &signed_zero, None),
        Err(FrameUniformError::MatrixProductNonFinite)
    );
}

#[test]
fn basic_material_rejects_each_invalid_component_and_keeps_unit_boundaries() {
    for component in 0..4 {
        let mut color = [0.0f32; 4];
        color[component] = f32::NAN;
        assert_eq!(
            BasicMaterial::new(bits4(color)),
            Err(BasicMaterialError::NonFinite { component })
        );

        color[component] = -f32::MIN_POSITIVE;
        assert_eq!(
            BasicMaterial::new(bits4(color)),
            Err(BasicMaterialError::OutOfRange { component })
        );
        color[component] = 1.0 + f32::EPSILON;
        assert_eq!(
            BasicMaterial::new(bits4(color)),
            Err(BasicMaterialError::OutOfRange { component })
        );
    }
    assert!(BasicMaterial::new(bits4([0.0, 1.0, 0.0, 1.0])).is_ok());
    assert_eq!(
        BasicMaterial::new(bits4([0.0, 1.0, 0.0, 1.0])).unwrap().base_color(),
        bits4([0.0, 1.0, 0.0, 1.0])
    );
}

#[test]
fn uniform_rejects_a_supplied_product_with_a_non_finite_element() {
    let mut product = matrix([[1.0, 0.0, 0.0, 0.0], [0.0, 1.0, 0.0, 0.0], [0.0, 0.0, 1.0, 0.0], [0.0, 0.0, 0.0, 1.0]]);
    product[3][2] = f32::NAN.to_bits();
    assert_eq!(
        FrameUniform::new(&Camera::default(), &BasicMaterial::default(), Some(product)),
        Err(FrameUniformError::MatrixProductNonFinite)
    );
}
