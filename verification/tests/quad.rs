use screen_zoom::geometry::WindowSize;
use screen_zoom::quad::{
    quad_indices, quad_vertices, Vertex, INDEX_COUNT, TEXTURE_OFFSET, VERTEX_STRIDE,
};

#[test]
fn quad_spans_the_window() {
    let size = WindowSize::new(1920, 1080).unwrap();
    assert_eq!(
        quad_vertices(size),
        [
            Vertex { x: 1920, y: 1080, u: 1, v: 1 },
            Vertex { x: 1920, y: 0, u: 1, v: 0 },
            Vertex { x: 0, y: 0, u: 0, v: 0 },
            Vertex { x: 0, y: 1080, u: 0, v: 1 },
        ]
    );
}

#[test]
fn quad_is_two_triangles_on_one_diagonal() {
    assert_eq!(quad_indices(), [0, 1, 3, 1, 2, 3]);
    assert_eq!(quad_indices().len(), INDEX_COUNT);
}

#[test]
fn vertex_layout() {
    assert_eq!(VERTEX_STRIDE, 4);
    assert_eq!(TEXTURE_OFFSET, 2);
}

#[test]
fn texture_coordinates_follow_positions() {
    for (width, height) in [(1, 1), (640, 480), (1920, 1080), (i32::MAX, i32::MAX)] {
        let size = WindowSize::new(width, height).unwrap();
        for vertex in quad_vertices(size) {
            assert_eq!(vertex.u as i64 * width as i64, vertex.x as i64);
            assert_eq!(vertex.v as i64 * height as i64, vertex.y as i64);
        }
    }
}
