use vstd::prelude::*;

verus! {

/// Texture coordinates of a quad's edges, each 0 or 1.
#[derive(Clone, Copy, Debug, PartialEq, Eq, Structural)]
pub struct TexBounds {
    pub left: u8,
    pub right: u8,
    pub top: u8,
    pub bottom: u8,
}

/// The full texture, `left = 0, right = 1, top = 0, bottom = 1`, with left
/// and right swapped when `flip_x` holds and top and bottom when `flip_y`.
pub open spec fn tex_bounds_spec(flip_x: bool, flip_y: bool) -> TexBounds {
    TexBounds {
        left: if flip_x { 1 } else { 0 },
        right: if flip_x { 0 } else { 1 },
        top: if flip_y { 1 } else { 0 },
        bottom: if flip_y { 0 } else { 1 },
    }
}

/// The `(u, v)` pair of each corner, in the corner order top-left,
/// bottom-left, bottom-right, top-right.
pub open spec fn quad_uv_spec(flip_x: bool, flip_y: bool) -> Seq<(u8, u8)> {
    let b = tex_bounds_spec(flip_x, flip_y);
    seq![(b.left, b.top), (b.left, b.bottom), (b.right, b.bottom), (b.right, b.top)]
}

/// Where each corner lies relative to the rectangle's origin `(x, y)`: a
/// pair `(cx, cy)` stands for the point `(x + cx * w, y - cy * h)`, the
/// height extending downward. Order: top-left, bottom-left, bottom-right,
/// top-right.
pub open spec fn quad_corner_spec() -> Seq<(u8, u8)> {
    seq![(0u8, 0u8), (0u8, 1u8), (1u8, 1u8), (1u8, 0u8)]
}

/// The texture edges for the given flips.
pub fn tex_bounds(flip_x: bool, flip_y: bool) -> (r: TexBounds)
    ensures
        r == tex_bounds_spec(flip_x, flip_y),
{
    let mut b = TexBounds { left: 0, right: 1, top: 0, bottom: 1 };
    if flip_x {
        b.left = 1;
        b.right = 0;
    }
    if flip_y {
        b.top = 1;
        b.bottom = 0;
    }
    b
}

/// The texture coordinates of the four corners of a textured quad.
pub fn quad_tex_coords(flip_x: bool, flip_y: bool) -> (r: [(u8, u8); 4])
    ensures
        r@ == quad_uv_spec(flip_x, flip_y),
{
    let b = tex_bounds(flip_x, flip_y);
    let r: [(u8, u8); 4] = [(b.left, b.top), (b.left, b.bottom), (b.right, b.bottom), (b.right, b.top)];
    assert(r@ =~= quad_uv_spec(flip_x, flip_y));
    r
}

/// The unit offsets of the four corners of a quad.
pub fn quad_corners() -> (r: [(u8, u8); 4])
    ensures
        r@ == quad_corner_spec(),
{
    let r: [(u8, u8); 4] = [(0, 0), (0, 1), (1, 1), (1, 0)];
    assert(r@ =~= quad_corner_spec());
    r
}

/// The corner of the other vertical edge on the same horizontal edge.
pub open spec fn across_x(i: int) -> int {
    3 - i
}

/// The corner of the other horizontal edge on the same vertical edge.
pub open spec fn across_y(i: int) -> int {
    if i == 0 { 1 } else if i == 1 { 0 } else if i == 2 { 3 } else { 2 }
}

/// Flipping horizontally swaps `u` between the left pair of corners and the
/// right pair and keeps `v`; flipping vertically swaps `v` between the top
/// pair and the bottom pair and keeps `u`.
pub proof fn lemma_flip_swaps(flip_x: bool, flip_y: bool)
    ensures
        forall|i: int|
            0 <= i < 4 ==> (#[trigger] quad_uv_spec(true, flip_y)[i]).0 == quad_uv_spec(
                false,
                flip_y,
            )[across_x(i)].0 && quad_uv_spec(true, flip_y)[i].1 == quad_uv_spec(false, flip_y)[i].1,
        forall|i: int|
            0 <= i < 4 ==> (#[trigger] quad_uv_spec(flip_x, true)[i]).1 == quad_uv_spec(
                flip_x,
                false,
            )[across_y(i)].1 && quad_uv_spec(flip_x, true)[i].0 == quad_uv_spec(flip_x, false)[i].0,
{
}

} // verus!
