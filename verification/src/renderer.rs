//! The rectangle on which a texture is drawn upside down, as two triangles.
use vstd::prelude::*;

verus! {

/// A corner of a triangle: its place, and the place in the texture.
#[derive(Clone, Copy, Debug, PartialEq, Eq, Structural)]
pub struct Vertex {
    pub x: i8,
    pub y: i8,
    pub z: i8,
    pub u: i8,
    pub v: i8,
}

/// The bytes of one number of a vertex.
pub const NUMBER_BYTES: u32 = 4;

/// The bytes from one vertex to the next.
pub const VERTEX_STRIDE: u32 = 20;

/// The bytes before the place in the texture.
pub const TEXTURE_OFFSET: u32 = 12;

/// The corners of the two triangles.
pub open spec fn quad() -> Seq<Vertex> {
    seq![
        Vertex { x: -1i8, y: 1, z: 0, u: 0, v: 0 },
        Vertex { x: 1, y: 1, z: 0, u: 1, v: 0 },
        Vertex { x: -1i8, y: -1i8, z: 0, u: 0, v: 1 },
        Vertex { x: 1, y: 1, z: 0, u: 1, v: 0 },
        Vertex { x: 1, y: -1i8, z: 0, u: 1, v: 1 },
        Vertex { x: -1i8, y: -1i8, z: 0, u: 0, v: 1 },
    ]
}

/// The corners of the two triangles.
pub fn vertex_data() -> (res: Vec<Vertex>)
    ensures
        res@ == quad(),
{
    vec![
        Vertex { x: -1, y: 1, z: 0, u: 0, v: 0 },
        Vertex { x: 1, y: 1, z: 0, u: 1, v: 0 },
        Vertex { x: -1, y: -1, z: 0, u: 0, v: 1 },
        Vertex { x: 1, y: 1, z: 0, u: 1, v: 0 },
        Vertex { x: 1, y: -1, z: 0, u: 1, v: 1 },
        Vertex { x: -1, y: -1, z: 0, u: 0, v: 1 },
    ]
}

/// Every corner of the screen shows the corner of the texture on the same side, the upper edge of
/// the screen the first row of the texture. The numbers of a vertex fill its bytes.
pub proof fn corners_fit(i: int)
    requires
        0 <= i < quad().len(),
    ensures
        2 * quad()[i].u == quad()[i].x + 1,
        2 * quad()[i].v == 1 - quad()[i].y,
        quad()[i].z == 0,
        VERTEX_STRIDE == 5 * NUMBER_BYTES,
        TEXTURE_OFFSET == 3 * NUMBER_BYTES,
{
}

/// The two triangles lie side by side: they have the edge from the upper right to the lower left
/// corner in common, the first has the upper left corner besides, and the second the lower right
/// one. So they cover the whole rectangle once.
pub proof fn triangles_fill_the_rectangle(corners: Vec<Vertex>)
    requires
        call_ensures(vertex_data, (), corners),
    ensures
        corners@.len() == 6,
        corners@[0].x == -1 && corners@[0].y == 1,
        corners@[1].x == 1 && corners@[1].y == 1,
        corners@[2].x == -1 && corners@[2].y == -1,
        corners@[3] == corners@[1],
        corners@[4].x == 1 && corners@[4].y == -1,
        corners@[5] == corners@[2],
        forall|i: int|
            0 <= i < 6 ==> {
                &&& 2 * (#[trigger] corners@[i]).u == corners@[i].x + 1
                &&& 2 * corners@[i].v == 1 - corners@[i].y
                &&& corners@[i].z == 0
            },
{
}

} // verus!
