use vstd::prelude::*;

verus! {

/// The six corners, two triangles, that cover the rectangle
/// `[x, x + w] × [y, y + h]`: (x, y), (x + w, y), (x, y + h), then
/// (x, y + h), (x + w, y), (x + w, y + h).
pub open spec fn quad(x: int, y: int, w: int, h: int) -> Seq<(int, int)> {
    seq![(x, y), (x + w, y), (x, y + h), (x, y + h), (x + w, y), (x + w, y + h)]
}

pub open spec fn points_of(v: Seq<(i64, i64)>) -> Seq<(int, int)> {
    v.map_values(|p: (i64, i64)| (p.0 as int, p.1 as int))
}

/// Twice the signed area of the triangle (a, b, p): positive when p lies to
/// the left of the edge from a to b.
pub open spec fn cross(a: (int, int), b: (int, int), p: (int, int)) -> int {
    (b.0 - a.0) * (p.1 - a.1) - (b.1 - a.1) * (p.0 - a.0)
}

/// The triangle (a, b, c) is wound counter-clockwise and has a non-zero area.
pub open spec fn counter_clockwise(a: (int, int), b: (int, int), c: (int, int)) -> bool {
    cross(a, b, c) > 0
}

/// p lies in the closed counter-clockwise triangle (a, b, c).
pub open spec fn in_triangle(a: (int, int), b: (int, int), c: (int, int), p: (int, int)) -> bool {
    cross(a, b, p) >= 0 && cross(b, c, p) >= 0 && cross(c, a, p) >= 0
}

/// p lies strictly inside the counter-clockwise triangle (a, b, c).
pub open spec fn inside_triangle(a: (int, int), b: (int, int), c: (int, int), p: (int, int)) -> bool {
    cross(a, b, p) > 0 && cross(b, c, p) > 0 && cross(c, a, p) > 0
}

pub open spec fn in_rectangle(x: int, y: int, w: int, h: int, p: (int, int)) -> bool {
    x <= p.0 <= x + w && y <= p.1 <= y + h
}

/// The vertices of the rectangle with corner `(x, y)`, width `width` and
/// height `height`, as two triangles of three vertices each.
pub fn rectangle_vertices(x: i64, y: i64, width: i64, height: i64) -> (r: Vec<(i64, i64)>)
    requires
        i64::MIN <= x + width <= i64::MAX,
        i64::MIN <= y + height <= i64::MAX,
    ensures
        points_of(r@) == quad(x as int, y as int, width as int, height as int),
{
    let x2 = x + width;
    let y2 = y + height;
    let r = vec![(x, y), (x2, y), (x, y2), (x, y2), (x2, y), (x2, y2)];
    assert(points_of(r@) =~= quad(x as int, y as int, width as int, height as int));
    r
}

/// A quad has six vertices, all within the rectangle, and reaches each of
/// the rectangle's four sides.
pub proof fn lemma_quad_bounds(x: int, y: int, w: int, h: int)
    requires
        w >= 0,
        h >= 0,
    ensures
        quad(x, y, w, h).len() == 6,
        forall|i: int| 0 <= i < 6 ==> in_rectangle(x, y, w, h, #[trigger] quad(x, y, w, h)[i]),
        quad(x, y, w, h)[0].0 == x,
        quad(x, y, w, h)[0].1 == y,
        quad(x, y, w, h)[5].0 == x + w,
        quad(x, y, w, h)[5].1 == y + h,
{
}

proof fn lemma_scale_le(a: int, b: int, c: int)
    requires
        a > 0,
        b <= c,
    ensures
        a * b <= a * c,
{
    assert(a * b <= a * c) by (nonlinear_arith)
        requires
            a > 0,
            b <= c,
    ;
}

proof fn lemma_scale_lt(a: int, b: int, c: int)
    requires
        a > 0,
        b < c,
    ensures
        a * b < a * c,
{
    assert(a * b < a * c) by (nonlinear_arith)
        requires
            a > 0,
            b < c,
    ;
}

/// For a rectangle of positive size the two triangles of its quad are wound
/// counter-clockwise, together cover exactly the rectangle, and share no
/// interior point.
pub proof fn lemma_quad_tiles(x: int, y: int, w: int, h: int, p: (int, int))
    requires
        w > 0,
        h > 0,
    ensures
        ({
            let q = quad(x, y, w, h);
            &&& counter_clockwise(q[0], q[1], q[2])
            &&& counter_clockwise(q[3], q[4], q[5])
            &&& in_rectangle(x, y, w, h, p) <==> (in_triangle(q[0], q[1], q[2], p) || in_triangle(
                q[3],
                q[4],
                q[5],
                p,
            ))
            &&& !(inside_triangle(q[0], q[1], q[2], p) && inside_triangle(q[3], q[4], q[5], p))
        }),
{
    let q = quad(x, y, w, h);
    let dx = p.0 - x;
    let dy = p.1 - y;
    let s = w * dy + h * dx;
    let px = p.0;
    let py = p.1;
    assert(q[0] == (x, y) && q[1] == (x + w, y) && q[2] == (x, y + h));
    assert(q[3] == (x, y + h) && q[4] == (x + w, y) && q[5] == (x + w, y + h));
    assert((x + w - x) * (y + h - y) - (y - y) * (x - x) == w * h) by (nonlinear_arith);
    assert((x + w - x) * (y + h - (y + h)) - (y - (y + h)) * (x + w - x) == w * h)
        by (nonlinear_arith);
    lemma_scale_lt(w, 0, h);
    assert((x + w - x) * (py - y) - (y - y) * (px - x) == w * dy) by (nonlinear_arith)
        requires
            dy == py - y,
    ;
    assert((x - (x + w)) * (py - y) - (y + h - y) * (px - (x + w)) == w * h - s)
        by (nonlinear_arith)
        requires
            dx == px - x,
            dy == py - y,
            s == w * dy + h * dx,
    ;
    assert((x - x) * (py - (y + h)) - (y - (y + h)) * (px - x) == h * dx) by (nonlinear_arith)
        requires
            dx == px - x,
    ;
    assert((x + w - x) * (py - (y + h)) - (y - (y + h)) * (px - x) == s - w * h)
        by (nonlinear_arith)
        requires
            dx == px - x,
            dy == py - y,
            s == w * dy + h * dx,
    ;
    assert((x + w - (x + w)) * (py - y) - (y + h - y) * (px - (x + w)) == h * (w - dx))
        by (nonlinear_arith)
        requires
            dx == px - x,
    ;
    assert((x - (x + w)) * (py - (y + h)) - (y + h - (y + h)) * (px - (x + w)) == w * (h - dy))
        by (nonlinear_arith)
        requires
            dy == py - y,
    ;
    if in_rectangle(x, y, w, h, p) {
        if s <= w * h {
            lemma_scale_le(w, 0, dy);
            lemma_scale_le(h, 0, dx);
        } else {
            lemma_scale_le(h, dx, w);
            lemma_scale_le(w, dy, h);
        }
    }
    if in_triangle(q[0], q[1], q[2], p) {
        assert(dy >= 0 && dx >= 0) by (nonlinear_arith)
            requires
                w > 0,
                h > 0,
                w * dy >= 0,
                h * dx >= 0,
        ;
        assert(dx <= w && dy <= h) by (nonlinear_arith)
            requires
                w > 0,
                h > 0,
                dx >= 0,
                dy >= 0,
                w * dy + h * dx <= w * h,
        ;
    }
    if in_triangle(q[3], q[4], q[5], p) {
        assert(dx <= w && dy <= h) by (nonlinear_arith)
            requires
                w > 0,
                h > 0,
                h * (w - dx) >= 0,
                w * (h - dy) >= 0,
        ;
        assert(dx >= 0 && dy >= 0) by (nonlinear_arith)
            requires
                w > 0,
                h > 0,
                dx <= w,
                dy <= h,
                w * dy + h * dx >= w * h,
        ;
    }
}

} // verus!
