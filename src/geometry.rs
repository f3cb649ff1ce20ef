use vstd::prelude::*;

verus! {

/// The pixel size of a decoded image; its aspect ratio is `width / height`.
#[derive(Clone, Copy, Debug, PartialEq, Eq, Structural)]
pub struct ImageSize {
    pub width: u32,
    pub height: u32,
}

/// A corner of the quad. Its position is `(x_num / x_den, y)`, its texture
/// coordinates are `(u, v)`.
#[derive(Clone, Copy, Debug, PartialEq, Eq, Structural)]
pub struct Vertex {
    pub x_num: i64,
    pub x_den: u32,
    pub y: i8,
    pub u: u8,
    pub v: u8,
}

/// The horizontal sign of the `k`-th corner of the two triangles that cover the quad.
pub open spec fn corner_x(k: int) -> int {
    if k <= 1 || k == 5 { -1 } else { 1 }
}

/// The vertical sign of the `k`-th corner of the two triangles that cover the quad.
pub open spec fn corner_y(k: int) -> int {
    if k == 0 || k >= 4 { 1 } else { -1 }
}

/// The corner on the side given by the signs of `(sx, sy)` of a quad stretched horizontally by the aspect ratio of `size`.
pub open spec fn corner_vertex(size: ImageSize, sx: int, sy: int) -> Vertex {
    Vertex {
        x_num: (if sx > 0 { size.width as int } else { -size.width }) as i64,
        x_den: size.height,
        y: sy as i8,
        u: (if sx > 0 { 1int } else { 0 }) as u8,
        v: (if sy > 0 { 1int } else { 0 }) as u8,
    }
}

/// The six corners of the two triangles of the quad for an image of `size`.
pub open spec fn rectangle(size: ImageSize) -> Seq<Vertex> {
    Seq::new(6, |k: int| corner_vertex(size, corner_x(k), corner_y(k)))
}

/// Every corner of `vs` lies at a horizontal distance of `w / h` from the centre,
/// and corners lie on both sides.
pub open spec fn spans_ratio(vs: Seq<Vertex>, w: int, h: int) -> bool {
    &&& forall|k: int|
        0 <= k < vs.len() ==> (#[trigger] vs[k]).x_den == h && (vs[k].x_num == w || vs[k].x_num
            == -w)
    &&& exists|k: int| 0 <= k < vs.len() && (#[trigger] vs[k]).x_num == w
    &&& exists|k: int| 0 <= k < vs.len() && (#[trigger] vs[k]).x_num == -w
}

/// A textured quad, drawn as a list of triangles.
#[derive(Debug)]
pub struct Shape {
    vertices: Vec<Vertex>,
}

impl View for Shape {
    type V = Seq<Vertex>;

    closed spec fn view(&self) -> Seq<Vertex> {
        self.vertices@
    }
}

impl Shape {
    /// The quad for an image of `size`: as tall as the view, and as wide as the
    /// image's aspect ratio asks.
    pub fn new_rectangle(size: ImageSize) -> (r: Shape)
        ensures
            r@ == rectangle(size),
    {
        let mut vertices: Vec<Vertex> = Vec::new();
        let mut sign_x: i64 = -1;
        let mut sign_y: i8 = 1;
        let mut numbers: usize = 1;
        while numbers < 6
            invariant
                1 <= numbers <= 6,
                vertices@.len() == if numbers <= 3 { numbers - 1 } else { numbers as int },
                numbers < 6 ==> sign_x == corner_x(vertices@.len() as int),
                numbers < 6 ==> sign_y == corner_y(vertices@.len() as int),
                forall|k: int|
                    0 <= k < vertices@.len() ==> #[trigger] vertices@[k] == corner_vertex(
                        size,
                        corner_x(k),
                        corner_y(k),
                    ),
            decreases 6 - numbers,
        {
            let corner = Vertex {
                x_num: if sign_x > 0 { size.width as i64 } else { -(size.width as i64) },
                x_den: size.height,
                y: sign_y,
                u: if sign_x > 0 { 1 } else { 0 },
                v: if sign_y > 0 { 1 } else { 0 },
            };
            assert(corner == corner_vertex(size, sign_x as int, sign_y as int));
            vertices.push(corner);
            if numbers == 3 {
                vertices.push(corner);
            }
            if numbers % 2 == 1 {
                sign_y = -sign_y;
            } else {
                sign_x = -sign_x;
            }
            numbers = numbers + 1;
        }
        assert(vertices@ =~= rectangle(size));
        Shape { vertices }
    }

    /// The corners, in drawing order.
    pub fn vertices(&self) -> (r: &Vec<Vertex>)
        ensures
            r@ == self@,
    {
        &self.vertices
    }
}

/// The quad for an image spans, left and right of the centre, exactly the
/// image's width over its height.
pub proof fn lemma_rectangle_spans_ratio(size: ImageSize)
    ensures
        spans_ratio(rectangle(size), size.width as int, size.height as int),
{
    let vs = rectangle(size);
    assert(vs[2].x_num == size.width);
    assert(vs[0].x_num == -size.width);
}

} // verus!
