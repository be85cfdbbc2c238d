use vstd::prelude::*;
use vstd::arithmetic::div_mod::{lemma_add_mod_noop, lemma_div_by_multiple, lemma_div_is_ordered};

use crate::geometry::{lemma_lerp_between, lerp_coord, LineSegment, Offset, Point};
use crate::noise::{noise, noise_at, NOISE_SCALE};

verus! {

/// Below this value of `noise² × dirtiness` a creature is not shown.
pub const CULL_THRESHOLD: u64 = 63;

/// A creature runs the length of its path once every this many ticks.
pub const CYCLE_TICKS: u64 = 500;

/// One infested object: a dirtiness counter and the two boundary segments
/// that its creatures travel between.
#[derive(Clone, Copy, Debug, PartialEq, Eq, Structural)]
pub struct DirtyObj {
    pub dirtiness: u8,
    pub start: LineSegment,
    pub end: LineSegment,
    /// How many sample points each boundary carries.
    pub amount: usize,
    /// From the midpoint of `start` to the midpoint of `end`, in half pixels.
    pub distance: Offset,
    /// Out of 255: how likely a creature is to run from `end` to `start`.
    pub chance_bidir: u8,
}

/// From the midpoint of `start` to the midpoint of `end`, in half pixels.
pub open spec fn midpoint_offset(start: LineSegment, end: LineSegment) -> Offset {
    Offset {
        x: ((end.start.x + end.end.x) - (start.start.x + start.end.x)) as i64,
        y: ((end.start.y + end.end.y) - (start.start.y + start.end.y)) as i64,
    }
}

impl DirtyObj {
    /// `distance` is the one derived from the two boundaries.
    pub open spec fn wf(self) -> bool {
        self.distance == midpoint_offset(self.start, self.end)
    }

    /// Whether `distance` is the one derived from the two boundaries.
    pub fn is_wf(&self) -> (r: bool)
        ensures
            r == self.wf(),
    {
        let x = (self.end.start.x as i64 + self.end.end.x as i64) - (self.start.start.x as i64
            + self.start.end.x as i64);
        let y = (self.end.start.y as i64 + self.end.end.y as i64) - (self.start.start.y as i64
            + self.start.end.y as i64);
        self.distance.x == x && self.distance.y == y
    }

    pub fn new(dirtiness: u8, start: LineSegment, end: LineSegment, amount: usize, chance_bidir: u8) -> (r:
        DirtyObj)
        ensures
            r.wf(),
            r.dirtiness == dirtiness,
            r.start == start,
            r.end == end,
            r.amount == amount,
            r.chance_bidir == chance_bidir,
    {
        let distance = Offset {
            x: (end.start.x as i64 + end.end.x as i64) - (start.start.x as i64 + start.end.x as i64),
            y: (end.start.y as i64 + end.end.y as i64) - (start.start.y as i64 + start.end.y as i64),
        };
        DirtyObj { dirtiness, start, end, amount, distance, chance_bidir }
    }
}

/// The creature drawn from `seed` is hidden on an object this clean:
/// `noise(seed)² × dirtiness < 63`.
pub open spec fn culled(seed: int, dirtiness: int) -> bool {
    noise_at(seed) * noise_at(seed) * dirtiness < CULL_THRESHOLD * NOISE_SCALE * NOISE_SCALE
}

/// The creature drawn from `seed` runs backwards: `noise(seed + 1) × 255 < chance_bidir`.
pub open spec fn flips(seed: int, chance_bidir: int) -> bool {
    noise_at(seed + 1) * 255 < chance_bidir * NOISE_SCALE
}

/// `num / den`, rounded toward zero.
pub open spec fn div_toward_zero(num: int, den: int) -> int {
    if num >= 0 {
        num / den
    } else {
        -((-num) / den)
    }
}

/// How far a noise value `n` moves an end point along one axis:
/// `(2n - 1) × 0.3 × half_pixels / 2`, rounded toward zero.
pub open spec fn end_shift(n: int, half_pixels: int) -> int {
    div_toward_zero((2 * n - NOISE_SCALE) * 3 * half_pixels, 20 * (NOISE_SCALE as int))
}

/// How many ticks ahead of the clock the creature drawn from `seed` runs:
/// `noise(seed) × 20 × amount`, rounded down.
pub open spec fn tick_lead(seed: int, amount: int) -> int {
    noise_at(seed) * 20 * amount / (NOISE_SCALE as int)
}

/// Where in its cycle the creature drawn from `seed` is at `tick`.
pub open spec fn phase(tick: int, seed: int, amount: int) -> int {
    (tick + tick_lead(seed, amount)) % (CYCLE_TICKS as int)
}

/// The position of the creature drawn from `seed` at `tick`, between the
/// candidate points `start` and `end`, or `None` when it is not shown.
pub open spec fn lerp_ant_spec(
    tick: int,
    object: DirtyObj,
    start: Point,
    end: Point,
    seed: int,
    randomize_end: bool,
) -> Option<(i64, i64)> {
    if culled(seed, object.dirtiness as int) {
        None
    } else {
        let (s, e) = if flips(seed, object.chance_bidir as int) {
            (end, start)
        } else {
            (start, end)
        };
        let ex = if randomize_end {
            e.x + end_shift(noise_at(seed + 20), object.distance.y as int)
        } else {
            e.x as int
        };
        let ey = if randomize_end {
            e.y + end_shift(noise_at(seed + 30), object.distance.x as int)
        } else {
            e.y as int
        };
        let p = phase(tick, seed, object.amount as int);
        Some(
            (
                lerp_coord(s.x as int, ex, p, CYCLE_TICKS as int) as i64,
                lerp_coord(s.y as int, ey, p, CYCLE_TICKS as int) as i64,
            ),
        )
    }
}

/// Whether a creature is shown depends on its seed only through `seed % 100`
/// and on its object only through the dirtiness: two calls that agree on those
/// two agree on culling, whatever the tick, the points or the other fields.
pub proof fn lemma_cull_depends_on_seed_class_and_dirtiness(
    tick1: int,
    object1: DirtyObj,
    start1: Point,
    end1: Point,
    seed1: int,
    randomize_end1: bool,
    tick2: int,
    object2: DirtyObj,
    start2: Point,
    end2: Point,
    seed2: int,
    randomize_end2: bool,
)
    requires
        seed1 % 100 == seed2 % 100,
        object1.dirtiness == object2.dirtiness,
    ensures
        lerp_ant_spec(tick1, object1, start1, end1, seed1, randomize_end1).is_none()
            == lerp_ant_spec(tick2, object2, start2, end2, seed2, randomize_end2).is_none(),
        lerp_ant_spec(tick1, object1, start1, end1, seed1, randomize_end1).is_none() == culled(
            seed1 % 100,
            object1.dirtiness as int,
        ),
{
    assert((seed1 % 100) % 100 == seed1 % 100);
}

proof fn lemma_div_bound(a: int, b: int, d: int)
    requires
        0 <= a <= b * d,
        0 <= b,
        0 < d,
    ensures
        0 <= a / d <= b,
{
    lemma_div_is_ordered(0, a, d);
    lemma_div_is_ordered(a, b * d, d);
    lemma_div_by_multiple(b, d);
}

proof fn lemma_noise_shift(seed: int, k: int)
    requires
        0 <= seed,
        0 <= k < 100,
    ensures
        noise_at(seed % 100 + k) == noise_at(seed + k),
{
    lemma_add_mod_noop(seed, k, 100);
    assert(k % 100 == k);
    assert((seed % 100) % 100 == seed % 100);
}

fn end_shift_exec(n: u32, half_pixels: i64) -> (r: i64)
    requires
        (n as u64) < NOISE_SCALE,
        -0x4_0000_0000 <= half_pixels <= 0x4_0000_0000,
    ensures
        r == end_shift(n as int, half_pixels as int),
        -0x4_0000_0000 <= r <= 0x4_0000_0000,
{
    let w: i128 = 2 * (n as i128) - NOISE_SCALE as i128;
    let h: i128 = half_pixels as i128;
    let den: u128 = 20 * NOISE_SCALE as u128;
    proof {
        lemma_scaled_product_bound(w as int, h as int);
    }
    let num: i128 = w * 3 * h;
    let mag: u128 = if num >= 0 {
        num as u128
    } else {
        (-num) as u128
    };
    proof {
        lemma_div_bound(mag as int, 0x4_0000_0000, den as int);
    }
    let q: u128 = mag / den;
    if num >= 0 {
        q as i64
    } else {
        -(q as i64)
    }
}

proof fn lemma_scaled_product_bound(w: int, h: int)
    by (nonlinear_arith)
    requires
        -1_000_000_000 <= w <= 1_000_000_000,
        -0x4_0000_0000 <= h <= 0x4_0000_0000,
    ensures
        -0x4_0000_0000 * 20_000_000_000 <= w * 3 * h <= 0x4_0000_0000 * 20_000_000_000,
{
}

fn lerp64(s: i64, e: i64, k: u64, n: u64) -> (r: i64)
    requires
        k <= n,
        0 < n,
        -0x100_0000_0000 <= s <= 0x100_0000_0000,
        -0x100_0000_0000 <= e <= 0x100_0000_0000,
    ensures
        r == lerp_coord(s as int, e as int, k as int, n as int),
        -0x100_0000_0000 <= r <= 0x100_0000_0000,
{
    proof {
        lemma_lerp_between(s as int, e as int, k as int, n as int);
    }
    let d: u128 = if s <= e {
        (e - s) as u128
    } else {
        (s - e) as u128
    };
    assert((k as int) * (d as int) < 0x1_0000_0000_0000_0000_0000_0000_0000) by (nonlinear_arith)
        requires
            k < 0x1_0000_0000_0000_0000,
            d <= 0x200_0000_0000,
    ;
    let q: u128 = (k as u128) * d / (n as u128);
    if s <= e {
        s + q as i64
    } else {
        s - q as i64
    }
}

/// Where the creature with sample index `seed` on `object` is at `tick`, moving
/// between the candidate points `start` and `end`; `None` when the object is too
/// clean for it to show. With `randomize_end` the end point is moved by noise,
/// across the object's extent.
pub fn lerp_ant(
    tick: usize,
    object: &DirtyObj,
    start: Point,
    end: Point,
    seed: usize,
    randomize_end: bool,
) -> (r: Option<(i64, i64)>)
    requires
        object.wf(),
    ensures
        r == lerp_ant_spec(tick as int, *object, start, end, seed as int, randomize_end),
        r matches Some((x, y)) ==> -0x100_0000_0000 <= x <= 0x100_0000_0000 && -0x100_0000_0000 <= y
            <= 0x100_0000_0000,
{
    let n0 = noise(seed);
    let n0w = n0 as u128;
    let dirt = object.dirtiness as u128;
    assert(n0w * n0w < 0x1_0000_0000_0000_0000 && n0w * n0w * dirt < 0x1_0000_0000_0000_0000_0000)
        by (nonlinear_arith)
        requires
            n0w < 0x1_0000_0000,
            dirt < 0x100,
    ;
    if n0w * n0w * dirt < (CULL_THRESHOLD as u128) * (NOISE_SCALE as u128) * (
    NOISE_SCALE as u128) {
        return None;
    }
    let seed_class: usize = seed % 100;
    proof {
        lemma_noise_shift(seed as int, 1);
        lemma_noise_shift(seed as int, 20);
        lemma_noise_shift(seed as int, 30);
    }
    let n1 = noise(seed_class + 1);
    let (s, e) = if (n1 as u64) * 255 < (object.chance_bidir as u64) * NOISE_SCALE {
        (end, start)
    } else {
        (start, end)
    };
    let (ex, ey): (i64, i64) = if randomize_end {
        let dx = end_shift_exec(noise(seed_class + 20), object.distance.y);
        let dy = end_shift_exec(noise(seed_class + 30), object.distance.x);
        (e.x as i64 + dx, e.y as i64 + dy)
    } else {
        (e.x as i64, e.y as i64)
    };
    assert((n0 as int) * 20 * (object.amount as int) < 0x1_0000_0000_0000_0000_0000_0000_0000)
        by (nonlinear_arith)
        requires
            n0 < 0x1_0000_0000,
            object.amount < 0x1_0000_0000_0000_0000,
    ;
    let lead: u128 = (n0 as u128) * 20 * (object.amount as u128) / (NOISE_SCALE as u128);
    let p: u64 = (((tick % 500) as u64) + ((lead % 500) as u64)) % 500;
    proof {
        lemma_add_mod_noop(tick as int, lead as int, 500);
    }
    let x = lerp64(s.x as i64, ex, p, CYCLE_TICKS);
    let y = lerp64(s.y as i64, ey, p, CYCLE_TICKS);
    Some((x, y))
}

} // verus!
