//! The textured quad that carries the snapshot: one rectangle as large as the
//! window, in window pixels, drawn as two triangles.

use crate::geometry::WindowSize;
use vstd::prelude::*;

verus! {

/// A corner of the quad: a position in window pixels and the texture
/// coordinate that belongs to it. `u` and `v` are `0` or `1`.
#[derive(Clone, Copy, Debug, PartialEq, Eq, Structural)]
pub struct Vertex {
    pub x: i32,
    pub y: i32,
    pub u: i32,
    pub v: i32,
}

/// The number of indices that draw the quad.
pub const INDEX_COUNT: usize = 6;

/// The number of scalars per vertex in the vertex buffer: two of position,
/// two of texture coordinate.
pub const VERTEX_STRIDE: usize = 4;

/// Where the texture coordinate starts within a vertex, in scalars.
pub const TEXTURE_OFFSET: usize = 2;

/// The corner of a quad of `width` by `height` pixels that lies at the right
/// side if `right`, else at the left, and at the top if `top`, else at the
/// bottom. Its texture coordinate is `1` along an axis exactly where its
/// position is the far end of that axis, so the image is neither mirrored nor
/// turned.
pub open spec fn corner(width: i32, height: i32, right: bool, top: bool) -> Vertex {
    Vertex {
        x: if right { width } else { 0 },
        y: if top { height } else { 0 },
        u: if right { 1 } else { 0 },
        v: if top { 1 } else { 0 },
    }
}

/// The four corners of the quad in buffer order: top right, bottom right,
/// bottom left, top left.
pub open spec fn quad_corners(width: i32, height: i32) -> Seq<Vertex> {
    seq![
        corner(width, height, true, true),
        corner(width, height, true, false),
        corner(width, height, false, false),
        corner(width, height, false, true),
    ]
}

/// The two triangles of the quad as indices into its corners. They share the
/// diagonal from the bottom right to the top left.
pub open spec fn quad_triangles() -> Seq<u32> {
    seq![0u32, 1u32, 3u32, 1u32, 2u32, 3u32]
}

/// The corners of the quad for a window of the given size.
pub fn quad_vertices(size: WindowSize) -> (vertices: [Vertex; 4])
    ensures
        vertices@ == quad_corners(size.spec_width(), size.spec_height()),
    no_unwind
{
    let width: i32 = size.width();
    let height: i32 = size.height();
    let vertices = [
        Vertex { x: width, y: height, u: 1, v: 1 },
        Vertex { x: width, y: 0, u: 1, v: 0 },
        Vertex { x: 0, y: 0, u: 0, v: 0 },
        Vertex { x: 0, y: height, u: 0, v: 1 },
    ];
    assert(vertices@ =~= quad_corners(width, height));
    vertices
}

/// The indices that draw the quad as two triangles.
pub fn quad_indices() -> (indices: [u32; 6])
    ensures
        indices@ == quad_triangles(),
    no_unwind
{
    let indices: [u32; 6] = [0, 1, 3, 1, 2, 3];
    assert(indices@ =~= quad_triangles());
    indices
}

/// The quad covers the window and nothing else: its corners are the four
/// corners of the window, each once, every texture coordinate is `0` or `1`
/// and grows with the position, every index names a corner, and between them
/// the two triangles use all four corners.
pub proof fn lemma_quad_covers_window(width: i32, height: i32)
    requires
        width > 0,
        height > 0,
    ensures
        quad_corners(width, height).len() == 4,
        quad_triangles().len() == INDEX_COUNT,
        forall|i: int|
            0 <= i < 4 ==> {
                let vertex = #[trigger] quad_corners(width, height)[i];
                &&& (vertex.x == 0 || vertex.x == width)
                &&& (vertex.y == 0 || vertex.y == height)
                &&& vertex.u * width == vertex.x
                &&& vertex.v * height == vertex.y
            },
        forall|i: int, j: int|
            0 <= i < j < 4 ==> quad_corners(width, height)[i] != quad_corners(width, height)[j],
        forall|k: int| 0 <= k < 6 ==> 0 <= #[trigger] quad_triangles()[k] < 4,
        quad_triangles().contains(0) && quad_triangles().contains(1) && quad_triangles().contains(
            2,
        ) && quad_triangles().contains(3),
{
    let corners = quad_corners(width, height);
    assert(corners[0] == corner(width, height, true, true));
    assert(corners[1] == corner(width, height, true, false));
    assert(corners[2] == corner(width, height, false, false));
    assert(corners[3] == corner(width, height, false, true));
    assert(1 * width == width && 0 * width == 0 && 1 * height == height && 0 * height == 0);
    assert(quad_triangles()[0] == 0);
    assert(quad_triangles()[1] == 1);
    assert(quad_triangles()[4] == 2);
    assert(quad_triangles()[2] == 3);
}

} // verus!
