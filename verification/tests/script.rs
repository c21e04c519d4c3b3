use parametric_surface::script::{
    transform_from_values, ScriptError, Vertex, MATRIX_VALUES, VERTEX_VALUES,
};

#[test]
fn six_values_make_a_vertex() {
    assert_eq!(VERTEX_VALUES, 6);
    let vertex = Vertex::from_values(&[1.0f32, 2.0, 3.0, 0.1, 0.2, 0.3]).unwrap();
    assert_eq!(vertex.position, [1.0, 2.0, 3.0]);
    assert_eq!(vertex.color, [0.1, 0.2, 0.3]);
}

#[test]
fn other_counts_of_vertex_values_are_reported() {
    let values = [0.0f32; 8];
    for found in [0usize, 1, 5, 7, 8] {
        assert_eq!(
            Vertex::from_values(&values[..found]),
            Err(ScriptError::VertexValueCount { found })
        );
    }
}

#[test]
fn sixteen_values_make_a_transposed_matrix() {
    assert_eq!(MATRIX_VALUES, 16);
    let values: Vec<f32> = (0..16).map(|n| n as f32).collect();
    let transform = transform_from_values(&values).unwrap();
    assert_eq!(
        transform,
        [
            0.0, 4.0, 8.0, 12.0, 1.0, 5.0, 9.0, 13.0, 2.0, 6.0, 10.0, 14.0, 3.0, 7.0, 11.0, 15.0
        ]
    );
}

#[test]
fn transform_agrees_with_the_transpose_of_the_column_major_matrix() {
    let values: [f32; 16] = [
        1.0, 0.0, 0.0, 0.0, 0.0, 1.0, 0.0, 0.0, 0.0, 0.0, 1.0, 0.0, 2.0, 3.0, 4.0, 1.0,
    ];
    let expected = glam::Mat4::from_cols_array(&values).transpose();
    let transform = transform_from_values(&values).unwrap();
    assert_eq!(glam::Mat4::from_cols_array(&transform), expected);
}

#[test]
fn transposing_twice_gives_the_values_back() {
    let values: Vec<i32> = (0..16).map(|n| 3 * n - 7).collect();
    let once = transform_from_values(&values).unwrap();
    let twice = transform_from_values(&once).unwrap();
    assert_eq!(twice.to_vec(), values);
    assert_ne!(once.to_vec(), values);
}

#[test]
fn other_counts_of_matrix_values_are_reported() {
    let values = [0.0f32; 20];
    for found in [0usize, 6, 15, 17, 20] {
        assert_eq!(
            transform_from_values(&values[..found]),
            Err(ScriptError::MatrixValueCount { found })
        );
    }
}
