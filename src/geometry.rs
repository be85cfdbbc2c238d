use vstd::prelude::*;
use vstd::arithmetic::div_mod::{lemma_div_by_multiple, lemma_div_is_ordered};
use vstd::arithmetic::mul::lemma_mul_inequality;

verus! {

/// A position on the screen, in whole pixels.
#[derive(Clone, Copy, Debug, PartialEq, Eq, Structural)]
pub struct Point {
    pub x: i32,
    pub y: i32,
}

impl Point {
    pub fn new(x: i32, y: i32) -> (r: Point)
        ensures
            r.x == x,
            r.y == y,
    {
        Point { x, y }
    }
}

/// A displacement measured in half pixels, so that the vector between two
/// midpoints of whole-pixel segments is exact.
#[derive(Clone, Copy, Debug, PartialEq, Eq, Structural)]
pub struct Offset {
    pub x: i64,
    pub y: i64,
}

/// A directed segment from `start` to `end`.
#[derive(Clone, Copy, Debug, PartialEq, Eq, Structural)]
pub struct LineSegment {
    pub start: Point,
    pub end: Point,
}

/// Twice the signed area of the triangle `p1 p2 p3`: its sign tells on which
/// side of the line through `p2` and `p3` the point `p1` lies.
pub open spec fn cross(p1: Point, p2: Point, p3: Point) -> int {
    (p1.x - p3.x) * (p2.y - p3.y) - (p2.x - p3.x) * (p1.y - p3.y)
}

/// `p` is inside the triangle `v1 v2 v3` or on its boundary: the three
/// orientations never disagree in sign.
pub open spec fn in_triangle_spec(p: Point, v1: Point, v2: Point, v3: Point) -> bool {
    let d1 = cross(p, v1, v2);
    let d2 = cross(p, v2, v3);
    let d3 = cross(p, v3, v1);
    !((d1 < 0 || d2 < 0 || d3 < 0) && (d1 > 0 || d2 > 0 || d3 > 0))
}

/// The coordinate `k / n` of the way from `s` to `e`, rounded toward `s`.
pub open spec fn lerp_coord(s: int, e: int, k: int, n: int) -> int {
    if s <= e {
        s + k * (e - s) / n
    } else {
        s - k * (s - e) / n
    }
}

/// Squared distance between two points.
pub open spec fn dist2(p: Point, q: Point) -> int {
    (p.x - q.x) * (p.x - q.x) + (p.y - q.y) * (p.y - q.y)
}

impl LineSegment {
    /// The region between `self` and `other`: the union of the triangles
    /// `{self.start, self.end, other.start}`, `{other.start, other.end, self.start}`
    /// and `{other.start, other.end, self.end}`.
    pub open spec fn spans(self, other: LineSegment, p: Point) -> bool {
        in_triangle_spec(p, self.start, self.end, other.start) || in_triangle_spec(
            p,
            other.start,
            other.end,
            self.start,
        ) || in_triangle_spec(p, other.start, other.end, self.end)
    }

    /// The point `k / n` of the way along the segment, each coordinate
    /// rounded toward the start.
    pub open spec fn point_at(self, k: int, n: int) -> Point {
        Point {
            x: lerp_coord(self.start.x as int, self.end.x as int, k, n) as i32,
            y: lerp_coord(self.start.y as int, self.end.y as int, k, n) as i32,
        }
    }

    /// How many points `points_on(amount)` yields: none for no steps, the
    /// start alone when the segment is a single point, else one per step.
    pub open spec fn points_on_len(self, amount: nat) -> nat {
        if amount == 0 {
            0
        } else if self.start == self.end {
            1
        } else {
            amount
        }
    }

    /// The points `start + k * (end - start) / amount` for each step `k`
    /// that lies before `end`.
    pub open spec fn points_on_spec(self, amount: nat) -> Seq<Point> {
        Seq::new(self.points_on_len(amount), |k: int| self.point_at(k, amount as int))
    }

    pub fn new(start: Point, end: Point) -> (r: LineSegment)
        ensures
            r.start == start,
            r.end == end,
    {
        LineSegment { start, end }
    }

    /// The points along the segment, `amount` steps apart in all, from `start`
    /// toward `end`; `end` itself is never reached.
    pub fn points_on(&self, amount: usize) -> (r: Vec<Point>)
        ensures
            r@ == self.points_on_spec(amount as nat),
            amount > 0 && self.start != self.end ==> r@.len() == amount,
            amount > 0 && self.start == self.end ==> r@ == seq![self.start],
            r@.len() > 0 ==> r@[0] == self.start,
    {
        let len: usize = if amount == 0 {
            0
        } else if self.start == self.end {
            1
        } else {
            amount
        };
        let mut out: Vec<Point> = Vec::new();
        let mut k: usize = 0;
        while k < len
            invariant
                len == self.points_on_len(amount as nat),
                len <= amount,
                k <= len,
                out@ =~= self.points_on_spec(amount as nat).take(k as int),
            decreases len - k,
        {
            let x = coord_at(self.start.x, self.end.x, k, amount);
            let y = coord_at(self.start.y, self.end.y, k, amount);
            out.push(Point { x, y });
            k = k + 1;
        }
        proof {
            assert(out@ =~= self.points_on_spec(amount as nat));
            if len > 0 {
                lemma_point_at_zero(*self, amount as int);
            }
            if amount > 0 && self.start == self.end {
                assert(out@ =~= seq![self.start]);
            }
        }
        out
    }

    /// Whether `point` lies in the region between `self` and `other`.
    pub fn lies_between(&self, other: &LineSegment, point: Point) -> (r: bool)
        ensures
            r == self.spans(*other, point),
    {
        in_triangle(point, self.start, self.end, other.start) || in_triangle(
            point,
            other.start,
            other.end,
            self.start,
        ) || in_triangle(point, other.start, other.end, self.end)
    }
}

proof fn lemma_product_bound(a: int, b: int)
    by (nonlinear_arith)
    requires
        -0x1_0000_0000 <= a <= 0x1_0000_0000,
        -0x1_0000_0000 <= b <= 0x1_0000_0000,
    ensures
        -0x1_0000_0000_0000_0000 <= a * b <= 0x1_0000_0000_0000_0000,
{
}

fn sign(p1: Point, p2: Point, p3: Point) -> (r: i128)
    ensures
        r == cross(p1, p2, p3),
{
    let ax = p1.x as i128 - p3.x as i128;
    let ay = p1.y as i128 - p3.y as i128;
    let bx = p2.x as i128 - p3.x as i128;
    let by = p2.y as i128 - p3.y as i128;
    proof {
        lemma_product_bound(ax as int, by as int);
        lemma_product_bound(bx as int, ay as int);
    }
    ax * by - bx * ay
}

fn in_triangle(p: Point, v1: Point, v2: Point, v3: Point) -> (r: bool)
    ensures
        r == in_triangle_spec(p, v1, v2, v3),
{
    let d1 = sign(p, v1, v2);
    let d2 = sign(p, v2, v3);
    let d3 = sign(p, v3, v1);
    let has_neg = d1 < 0 || d2 < 0 || d3 < 0;
    let has_pos = d1 > 0 || d2 > 0 || d3 > 0;
    !(has_neg && has_pos)
}

/// A step `k` of `n` lands between the two ends, and no further from `s`
/// than the full distance.
pub proof fn lemma_lerp_between(s: int, e: int, k: int, n: int)
    requires
        0 <= k <= n,
        0 < n,
    ensures
        s <= e ==> s <= lerp_coord(s, e, k, n) <= e,
        s > e ==> e <= lerp_coord(s, e, k, n) <= s,
        k == 0 ==> lerp_coord(s, e, k, n) == s,
{
    let d = if s <= e {
        e - s
    } else {
        s - e
    };
    lemma_mul_inequality(k, n, d);
    lemma_mul_inequality(0, k, d);
    lemma_div_is_ordered(0, k * d, n);
    lemma_div_is_ordered(k * d, n * d, n);
    assert(n * d == d * n) by (nonlinear_arith);
    lemma_div_by_multiple(d, n);
    if k == 0 {
        assert(0 * d == 0);
    }
}

/// Moving one step further never moves back toward `s`.
pub proof fn lemma_lerp_monotone(s: int, e: int, k: int, n: int)
    requires
        0 <= k,
        k + 1 <= n,
        0 < n,
    ensures
        s <= e ==> lerp_coord(s, e, k, n) <= lerp_coord(s, e, k + 1, n),
        s > e ==> lerp_coord(s, e, k + 1, n) <= lerp_coord(s, e, k, n),
{
    let d = if s <= e {
        e - s
    } else {
        s - e
    };
    lemma_mul_inequality(k, k + 1, d);
    lemma_div_is_ordered(k * d, (k + 1) * d, n);
}

proof fn lemma_point_at_zero(seg: LineSegment, n: int)
    requires
        0 < n,
    ensures
        seg.point_at(0, n) == seg.start,
{
    lemma_lerp_between(seg.start.x as int, seg.end.x as int, 0, n);
    lemma_lerp_between(seg.start.y as int, seg.end.y as int, 0, n);
}

fn coord_at(s: i32, e: i32, k: usize, n: usize) -> (r: i32)
    requires
        k <= n,
        0 < n,
    ensures
        r == lerp_coord(s as int, e as int, k as int, n as int),
{
    proof {
        lemma_lerp_between(s as int, e as int, k as int, n as int);
    }
    let d: u128 = if s <= e {
        (e as i64 - s as i64) as u128
    } else {
        (s as i64 - e as i64) as u128
    };
    assert((k as int) * (d as int) < 0x1_0000_0000_0000_0000_0000_0000_0000) by (nonlinear_arith)
        requires
            k < 0x1_0000_0000_0000_0000,
            d < 0x1_0000_0000_0000,
    ;
    let q: u128 = (k as u128) * d / (n as u128);
    if s <= e {
        (s as i64 + q as i64) as i32
    } else {
        (s as i64 - q as i64) as i32
    }
}

/// Each point that `points_on` yields is no further from `end` than the one
/// before it.
pub proof fn lemma_points_on_approach_end(seg: LineSegment, amount: nat, k: int)
    requires
        0 <= k,
        k + 1 < seg.points_on_len(amount),
    ensures
        dist2(seg.points_on_spec(amount)[k + 1], seg.end) <= dist2(
            seg.points_on_spec(amount)[k],
            seg.end,
        ),
{
    let n = amount as int;
    let (sx, sy, ex, ey) = (
        seg.start.x as int,
        seg.start.y as int,
        seg.end.x as int,
        seg.end.y as int,
    );
    lemma_lerp_between(sx, ex, k, n);
    lemma_lerp_between(sx, ex, k + 1, n);
    lemma_lerp_between(sy, ey, k, n);
    lemma_lerp_between(sy, ey, k + 1, n);
    lemma_lerp_monotone(sx, ex, k, n);
    lemma_lerp_monotone(sy, ey, k, n);
    let a = seg.points_on_spec(amount)[k];
    let b = seg.points_on_spec(amount)[k + 1];
    lemma_square_le(b.x - ex, a.x - ex);
    lemma_square_le(b.y - ey, a.y - ey);
}

proof fn lemma_square_le(a: int, b: int)
    by (nonlinear_arith)
    requires
        (0 <= a <= b) || (b <= a <= 0),
    ensures
        a * a <= b * b,
{
}

} // verus!
