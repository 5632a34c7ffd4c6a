//! Generators that produce riders and lines from high-level parameters.

use vstd::prelude::*;
use vstd::arithmetic::div_mod::lemma_div_is_ordered;
use vstd::arithmetic::div_mod::lemma_div_of0;
use vstd::arithmetic::div_mod::lemma_div_multiples_vanish;
use vstd::arithmetic::div_mod::lemma_div_multiples_vanish_fancy;
use vstd::arithmetic::div_mod::lemma_mod_multiples_vanish;
use vstd::arithmetic::div_mod::lemma_small_mod;
use vstd::arithmetic::div_mod::lemma_multiply_divide_lt;
use vstd::arithmetic::mul::lemma_mul_inequality;
use crate::coords::Coordinates;
use crate::coords::MAX_COORD;
use crate::entities::Line;
use crate::entities::Rider;
use crate::trig::spec_cos_micro;
use crate::trig::spec_sin_micro;
use crate::trig::cos_micro;
use crate::trig::sin_micro;

verus! {

/// Largest rotation magnitude (in micro-radians) the polygon generators
/// accept; keeps the angle arithmetic in range.
pub const MAX_ROT: i64 = 1_000_000_000_000;

/// A generator argument was outside its domain (a box with `max` below `min`
/// on some axis).
#[derive(Debug, Clone, Copy, PartialEq, Eq, Structural)]
pub struct PreconditionViolation;

/// Options for passing coordinates to functions.
#[derive(Clone, Copy)]
pub enum CoordOptions {
    /// Random coordinates in a default range
    Rand,
    /// Random coordinates over range
    RandRange(Coordinates, Coordinates),
    /// Specify exact coordinates (Some) or use default (None)
    Other(Option<Coordinates>),
    /// Evenly space out coordinates over range
    EvenlySpaced(Coordinates, Coordinates),
}

/// The boxes a mode carries are ordered: `min` at most `max` on both axes.
pub open spec fn coords_valid(c: CoordOptions) -> bool {
    match c {
        CoordOptions::Rand => true,
        CoordOptions::RandRange(min, max) => min.x <= max.x && min.y <= max.y,
        CoordOptions::EvenlySpaced(min, max) => min.x <= max.x && min.y <= max.y,
        CoordOptions::Other(_) => true,
    }
}

/// Every coordinate a mode carries is within `MAX_COORD`.
pub open spec fn coords_bounded(c: CoordOptions) -> bool {
    match c {
        CoordOptions::Rand => true,
        CoordOptions::RandRange(min, max) => min.bounded() && max.bounded(),
        CoordOptions::EvenlySpaced(min, max) => min.bounded() && max.bounded(),
        CoordOptions::Other(o) => match o {
            Some(p) => p.bounded(),
            None => true,
        },
    }
}

/// One axis of the evenly-spaced placement: rider `i` of `n` sits at
/// `lo + i * (hi - lo) / (n - 1)`; a single rider sits at `lo`.
pub open spec fn even_coord(lo: int, hi: int, i: int, n: int) -> int {
    if n <= 1 {
        lo
    } else {
        lo + (i * (hi - lo)) / (n - 1)
    }
}

/// What a generated coordinate must look like for mode `opt` at index `i` of
/// `n`: pinned exactly for the deterministic modes, a box for the random ones.
pub open spec fn pos_matches(opt: CoordOptions, i: int, n: int, c: Coordinates) -> bool {
    match opt {
        CoordOptions::Rand => -10_000_000 <= c.x <= 10_000_000 && -10_000_000 <= c.y
            <= 10_000_000,
        CoordOptions::RandRange(min, max) => min.x <= c.x <= max.x && min.y <= c.y <= max.y,
        CoordOptions::EvenlySpaced(min, max) => c.x == even_coord(min.x as int, max.x as int, i, n)
            && c.y == even_coord(min.y as int, max.y as int, i, n),
        CoordOptions::Other(o) => match o {
            Some(p) => c == p,
            None => c.x == 0 && c.y == 0,
        },
    }
}

/// The remountable flag a generated rider carries: the given value, or zero.
pub open spec fn eff_remountable(remountable: Option<usize>) -> usize {
    match remountable {
        Some(v) => v,
        None => 0,
    }
}

/// Relies on rand::random: draws a value of `T` from the thread-local
/// generator; nothing is promised of the result.
pub assume_specification<T>[ rand::random::<T> ]() -> (r: T)
    where rand::distributions::Standard: rand::distributions::Distribution<T>,
;

/// A value in `[lo, hi]`, drawn from the thread-local generator.
fn rand_between(lo: i64, hi: i64) -> (r: i64)
    requires
        -MAX_COORD <= lo <= hi <= MAX_COORD,
    ensures
        lo <= r <= hi,
{
    let span: u64 = ((hi - lo) as u64) + 1;
    let x: u64 = rand::random::<u64>();
    let off: u64 = x % span;
    lo + (off as i64)
}

/// One axis of the evenly-spaced placement, exactly `even_coord`.
fn even_axis(lo: i64, hi: i64, i: usize, n: usize) -> (r: i64)
    requires
        -MAX_COORD <= lo <= hi <= MAX_COORD,
        1 <= n,
        i < n,
    ensures
        r == even_coord(lo as int, hi as int, i as int, n as int),
        lo <= r <= hi,
{
    if n == 1 {
        lo
    } else {
        let d: u128 = (hi - lo) as u128;
        assert((i as u128) * d <= 340_000_000_000_000_000_000_000_000_000_000_000u128)
            by (nonlinear_arith)
            requires
                0 <= (i as u128) <= 18_446_744_073_709_551_615u128,
                0 <= d <= 2_000_000_000_000_000,
        ;
        let num: u128 = (i as u128) * d;
        let q: u128 = num / ((n - 1) as u128);
        proof {
            lemma_mul_inequality(i as int, (n - 1) as int, d as int);
            lemma_div_is_ordered((i as int) * (d as int), ((n - 1) as int) * (d as int), (n
                - 1) as int);
            lemma_div_multiples_vanish(d as int, (n - 1) as int);
        }
        lo + (q as i64)
    }
}

fn match_coords(coordinates: &CoordOptions, i: usize, n: usize) -> (r: Coordinates)
    requires
        coords_valid(*coordinates),
        coords_bounded(*coordinates),
        1 <= n,
        i < n,
    ensures
        pos_matches(*coordinates, i as int, n as int, r),
{
    match coordinates {
        CoordOptions::Rand => Coordinates {
            x: rand_between(-10_000_000, 10_000_000),
            y: rand_between(-10_000_000, 10_000_000),
        },
        CoordOptions::RandRange(min, max) => Coordinates {
            x: rand_between(min.x, max.x),
            y: rand_between(min.y, max.y),
        },
        CoordOptions::EvenlySpaced(min, max) => Coordinates {
            x: even_axis(min.x, max.x, i, n),
            y: even_axis(min.y, max.y, i, n),
        },
        CoordOptions::Other(o) => match o {
            Some(p) => *p,
            None => Coordinates { x: 0, y: 0 },
        },
    }
}

/// Creates `n` riders at some `start_position` and `speed_range`, all with
/// characteristic `remountable` (zero when unspecified).
///
/// An unordered box in either mode is reported as a `PreconditionViolation`
/// before any rider is produced; `n = 0` yields an empty sequence.
pub fn create_riders(
    n: usize,
    start_position: CoordOptions,
    speed_range: CoordOptions,
    remountable: Option<usize>,
) -> (r: Result<Vec<Rider>, PreconditionViolation>)
    requires
        coords_bounded(start_position),
        coords_bounded(speed_range),
    ensures
        r is Ok <==> (n == 0 || (coords_valid(start_position) && coords_valid(speed_range))),
        r matches Ok(v) ==> v@.len() == n && forall|i: int|
            0 <= i < n ==> {
                &&& pos_matches(start_position, i, n as int, (#[trigger] v@[i]).start_position)
                &&& pos_matches(speed_range, i, n as int, v@[i].start_velocity)
                &&& v@[i].remountable == eff_remountable(remountable)
            },
{
    if n >= 1 {
        if !coord_options_ok(&start_position) || !coord_options_ok(&speed_range) {
            return Err(PreconditionViolation);
        }
    }
    let rem: usize = match remountable {
        Some(v) => v,
        None => 0,
    };
    let mut riders: Vec<Rider> = Vec::new();
    let mut i: usize = 0;
    while i < n
        invariant
            i <= n,
            riders@.len() == i,
            rem == eff_remountable(remountable),
            n == 0 || (coords_valid(start_position) && coords_valid(speed_range)),
            coords_bounded(start_position),
            coords_bounded(speed_range),
            forall|k: int|
                0 <= k < i ==> {
                    &&& pos_matches(
                        start_position,
                        k,
                        n as int,
                        (#[trigger] riders@[k]).start_position,
                    )
                    &&& pos_matches(speed_range, k, n as int, riders@[k].start_velocity)
                    &&& riders@[k].remountable == eff_remountable(remountable)
                },
        decreases n - i,
    {
        let sp = match_coords(&start_position, i, n);
        let sv = match_coords(&speed_range, i, n);
        riders.push(Rider { start_position: sp, start_velocity: sv, remountable: rem });
        i += 1;
    }
    Ok(riders)
}

/// Evenly spaced riders interpolate from `lo` to `hi` inclusive on each
/// axis: rider 0 sits at `lo`, rider `n - 1` at `hi`, and the coordinate is
/// monotone in the rider index.
pub proof fn lemma_evenly_spaced_interpolates(lo: int, hi: int, n: int)
    requires
        lo <= hi,
        2 <= n,
    ensures
        even_coord(lo, hi, 0, n) == lo,
        even_coord(lo, hi, n - 1, n) == hi,
        forall|i: int, j: int|
            0 <= i <= j < n ==> even_coord(lo, hi, i, n) <= even_coord(lo, hi, j, n),
{
    let d = hi - lo;
    assert(0int * d == 0) by (nonlinear_arith);
    lemma_div_of0(n - 1);
    lemma_div_multiples_vanish(d, n - 1);
    assert forall|i: int, j: int| 0 <= i <= j < n implies even_coord(lo, hi, i, n) <= even_coord(
        lo,
        hi,
        j,
        n,
    ) by {
        lemma_mul_inequality(i, j, d);
        lemma_div_is_ordered(i * d, j * d, n - 1);
    }
}

fn coord_options_ok(c: &CoordOptions) -> (r: bool)
    ensures
        r == coords_valid(*c),
{
    match c {
        CoordOptions::Rand => true,
        CoordOptions::RandRange(min, max) => min.x <= max.x && min.y <= max.y,
        CoordOptions::EvenlySpaced(min, max) => min.x <= max.x && min.y <= max.y,
        CoordOptions::Other(_) => true,
    }
}

/// The angle step between consecutive polygon vertices, in micro-radians.
pub open spec fn polygon_step(sides: int) -> int {
    6_283_185int / sides
}

/// The angle of vertex `i`: half a step (so a flat edge faces up by default)
/// plus the caller's rotation, then `i` full steps.
pub open spec fn polygon_angle(sides: int, rot: int, i: int) -> int {
    polygon_step(sides) / 2 + rot + i * polygon_step(sides)
}

/// The x coordinate of vertex `i`, in micro-units: the radius counts whole
/// units, so the unit-circle value is the per-unit offset.
pub open spec fn vertex_x(sides: int, radius: int, cx: int, rot: int, i: int) -> int {
    cx + radius * spec_cos_micro(polygon_angle(sides, rot, i))
}

/// The y coordinate of vertex `i`, in micro-units.
pub open spec fn vertex_y(sides: int, radius: int, cy: int, rot: int, i: int) -> int {
    cy + radius * spec_sin_micro(polygon_angle(sides, rot, i))
}

/// The effective center: the given one, or the origin.
pub open spec fn coord_or_origin(o: Option<Coordinates>) -> Coordinates {
    match o {
        Some(c) => c,
        None => Coordinates { x: 0, y: 0 },
    }
}

/// The effective rotation: the given one, or zero.
pub open spec fn rot_or_zero(o: Option<i64>) -> int {
    match o {
        Some(r) => r as int,
        None => 0,
    }
}

/// Line `i` of a polygon: it runs from vertex `i` to vertex `i + 1` (wrapping
/// back to vertex `0` after the last), with every geometric flag set.
pub open spec fn is_polygon_edge(
    l: Line,
    sides: int,
    radius: int,
    c: Coordinates,
    rot: int,
    kind: usize,
    i: int,
) -> bool {
    let next = if i + 1 == sides {
        0
    } else {
        i + 1
    };
    &&& l.id is None
    &&& l.kind == kind
    &&& l.flipped
    &&& l.left_extended
    &&& l.right_extended
    &&& l.x1 == vertex_x(sides, radius, c.x as int, rot, i)
    &&& l.y1 == vertex_y(sides, radius, c.y as int, rot, i)
    &&& l.x2 == vertex_x(sides, radius, c.x as int, rot, next)
    &&& l.y2 == vertex_y(sides, radius, c.y as int, rot, next)
}

/// `radius * unit`: the micro-unit offset for a whole-unit radius and a
/// sine or cosine value scaled by `MICRO`.
fn scaled_offset(radius: u16, unit: i64) -> (r: i64)
    requires
        -1_000_000 <= unit <= 1_000_000,
    ensures
        r == radius as int * unit,
        -65_535_000_000 <= r <= 65_535_000_000,
{
    assert(-65_535_000_000 <= (radius as i64) * unit <= 65_535_000_000) by (nonlinear_arith)
        requires
            0 <= (radius as i64) <= 65_535,
            -1_000_000 <= unit <= 1_000_000,
    ;
    (radius as i64) * unit
}

fn polygon_vertex(sides: u16, radius: u16, c: Coordinates, rot: i64, i: u16) -> (r: Coordinates)
    requires
        1 <= sides,
        i <= sides,
        -MAX_ROT <= rot <= MAX_ROT,
        c.bounded(),
    ensures
        r.x == vertex_x(sides as int, radius as int, c.x as int, rot as int, i as int),
        r.y == vertex_y(sides as int, radius as int, c.y as int, rot as int, i as int),
{
    let step_u: u64 = 6_283_185u64 / (sides as u64);
    let half_u: u64 = step_u / 2;
    assert((i as u64) * step_u <= 411_866_231_775u64) by (nonlinear_arith)
        requires
            0 <= (i as u64) <= 65_535,
            0 <= step_u <= 6_283_185,
    ;
    let angle: i64 = (half_u as i64) + rot + ((i as u64) * step_u) as i64;
    let cv = cos_micro(angle);
    let sv = sin_micro(angle);
    Coordinates { x: c.x + scaled_offset(radius, cv), y: c.y + scaled_offset(radius, sv) }
}

/// Creates a polygon with given characteristics.
/// As sides grow, the polygon better approximates a circle of the given
/// radius around `start_position` (the origin when absent), rotated by
/// `rotation` micro-radians.
pub fn polygon_lines(
    sides: u16,
    radius: u16,
    start_position: Option<Coordinates>,
    rotation: Option<i64>,
    kind: usize,
) -> (r: Vec<Line>)
    requires
        1 <= sides,
        coord_or_origin(start_position).bounded(),
        -MAX_ROT <= rot_or_zero(rotation) <= MAX_ROT,
    ensures
        r@.len() == sides,
        forall|k: int|
            0 <= k < sides ==> is_polygon_edge(
                #[trigger] r@[k],
                sides as int,
                radius as int,
                coord_or_origin(start_position),
                rot_or_zero(rotation),
                kind,
                k,
            ),
{
    let center: Coordinates = match start_position {
        Some(c) => c,
        None => Coordinates { x: 0, y: 0 },
    };
    let rot: i64 = match rotation {
        Some(v) => v,
        None => 0,
    };
    let mut lines: Vec<Line> = Vec::new();
    let mut first_point: Coordinates = polygon_vertex(sides, radius, center, rot, 0);
    let mut i: u16 = 0;
    while i < sides
        invariant
            i <= sides,
            1 <= sides,
            -MAX_ROT <= rot <= MAX_ROT,
            center.bounded(),
            center == coord_or_origin(start_position),
            rot == rot_or_zero(rotation),
            lines@.len() == i,
            i < sides ==> first_point.x == vertex_x(
                sides as int,
                radius as int,
                center.x as int,
                rot as int,
                i as int,
            ),
            i < sides ==> first_point.y == vertex_y(
                sides as int,
                radius as int,
                center.y as int,
                rot as int,
                i as int,
            ),
            forall|k: int|
                0 <= k < i ==> is_polygon_edge(
                    #[trigger] lines@[k],
                    sides as int,
                    radius as int,
                    center,
                    rot as int,
                    kind,
                    k,
                ),
        decreases sides - i,
    {
        let next_index: u16 = if i + 1 == sides {
            0
        } else {
            i + 1
        };
        let second_point: Coordinates = polygon_vertex(sides, radius, center, rot, next_index);
        lines.push(
            Line {
                id: None,
                kind,
                x1: first_point.x,
                y1: first_point.y,
                x2: second_point.x,
                y2: second_point.y,
                flipped: true,
                left_extended: true,
                right_extended: true,
            },
        );
        first_point = second_point;
        i += 1;
    }
    lines
}

/// Segment `i`'s end is segment `i + 1`'s start (wrapping), so polygon lines
/// form a closed loop.
pub proof fn lemma_polygon_closed(
    lines: Seq<Line>,
    sides: int,
    radius: int,
    c: Coordinates,
    rot: int,
    kind: usize,
)
    requires
        lines.len() == sides,
        1 <= sides,
        forall|k: int| 0 <= k < sides ==> is_polygon_edge(#[trigger] lines[k], sides, radius, c, rot, kind, k),
    ensures
        forall|k: int|
            0 <= k < sides ==> {
                let next = if k + 1 == sides {
                    0int
                } else {
                    k + 1
                };
                (#[trigger] lines[k]).x2 == lines[next].x1 && lines[k].y2 == lines[next].y1
            },
{
}

/// Every polygon vertex lies within `radius` whole units of the center on
/// each axis: the circle functions are clamped to the unit range, so the
/// polygon stays inside the square circumscribing its circle.
pub proof fn lemma_polygon_vertices_near_center(
    sides: int,
    radius: int,
    c: Coordinates,
    rot: int,
    i: int,
)
    requires
        1 <= sides,
        0 <= radius <= 65_535,
    ensures
        c.x - radius * 1_000_000 <= vertex_x(sides, radius, c.x as int, rot, i) <= c.x + radius
            * 1_000_000,
        c.y - radius * 1_000_000 <= vertex_y(sides, radius, c.y as int, rot, i) <= c.y + radius
            * 1_000_000,
{
    let a = polygon_angle(sides, rot, i);
    crate::trig::lemma_cos_bounded(a);
    crate::trig::lemma_cos_bounded(a - 1_570_796);
    assert(-(radius * 1_000_000) <= radius * spec_cos_micro(a) <= radius * 1_000_000)
        by (nonlinear_arith)
        requires
            0 <= radius,
            -1_000_000 <= spec_cos_micro(a) <= 1_000_000,
    ;
    assert(-(radius * 1_000_000) <= radius * spec_sin_micro(a) <= radius * 1_000_000)
        by (nonlinear_arith)
        requires
            0 <= radius,
            -1_000_000 <= spec_sin_micro(a) <= 1_000_000,
    ;
}

/// Creates lines to sketch out a polygon with a given thickness: `thickness`
/// concentric polygons with radii `radius`, `radius + 1`, ... concatenated in
/// increasing-radius order (see `polygon_lines`).
pub fn thick_polygon_lines(
    sides: u16,
    radius: u16,
    start_position: Option<Coordinates>,
    rotation: Option<i64>,
    thickness: u16,
    kind: usize,
) -> (r: Vec<Line>)
    requires
        1 <= sides,
        radius as int + thickness as int <= 65_536,
        coord_or_origin(start_position).bounded(),
        -MAX_ROT <= rot_or_zero(rotation) <= MAX_ROT,
    ensures
        r@.len() == sides as int * thickness as int,
        forall|b: int, k: int|
            0 <= b < thickness && 0 <= k < sides ==> is_polygon_edge(
                #[trigger] r@[b * (sides as int) + k],
                sides as int,
                radius as int + b,
                coord_or_origin(start_position),
                rot_or_zero(rotation),
                kind,
                k,
            ),
{
    let mut all_lines: Vec<Line> = Vec::new();
    let mut t: u16 = 0;
    while t < thickness
        invariant
            t <= thickness,
            1 <= sides,
            radius as int + thickness as int <= 65_536,
            coord_or_origin(start_position).bounded(),
            -MAX_ROT <= rot_or_zero(rotation) <= MAX_ROT,
            all_lines@.len() == (sides as int) * (t as int),
            forall|b: int, k: int|
                0 <= b < t && 0 <= k < sides ==> is_polygon_edge(
                    #[trigger] all_lines@[b * (sides as int) + k],
                    sides as int,
                    radius as int + b,
                    coord_or_origin(start_position),
                    rot_or_zero(rotation),
                    kind,
                    k,
                ),
        decreases thickness - t,
    {
        let band: Vec<Line> = polygon_lines(sides, radius + t, start_position, rotation, kind);
        let ghost prefix = all_lines@;
        let mut j: usize = 0;
        while j < band.len()
            invariant
                j <= band@.len(),
                all_lines@ == prefix + band@.subrange(0, j as int),
            decreases band@.len() - j,
        {
            let l: Line = band[j];
            all_lines.push(l);
            proof {
                assert(band@.subrange(0, j + 1) == band@.subrange(0, j as int).push(band@[j as int]));
            }
            j += 1;
        }
        proof {
            assert(all_lines@ == prefix + band@);
            assert((sides as int) * (t as int) + (sides as int) == (sides as int) * (t as int
                + 1)) by (nonlinear_arith);
            assert forall|b: int, k: int| 0 <= b < t as int + 1 && 0 <= k < sides implies
                is_polygon_edge(
                    #[trigger] all_lines@[b * (sides as int) + k],
                    sides as int,
                    radius as int + b,
                    coord_or_origin(start_position),
                    rot_or_zero(rotation),
                    kind,
                    k,
                ) by {
                let s = sides as int;
                if b < t as int {
                    assert(0 <= b * s + k < (t as int) * s) by (nonlinear_arith)
                        requires
                            0 <= b <= (t as int) - 1,
                            0 <= k < s,
                            1 <= s,
                    ;
                    assert(all_lines@[b * s + k] == prefix[b * s + k]);
                } else {
                    assert(b * s + k == s * (t as int) + k) by (nonlinear_arith)
                        requires
                            b == t as int,
                    ;
                    assert(all_lines@[b * s + k] == band@[k]);
                }
            }
        }
        t += 1;
    }
    all_lines
}

/// Largest range endpoint magnitude (in units) the function generator
/// accepts; keeps `x` samples within the coordinate range.
pub const MAX_UNIT: i64 = 9_000_000_000_000;

/// The effective iteration count: the given one, or 10.
pub open spec fn eff_iterations(iterations: Option<u8>) -> int {
    match iterations {
        Some(v) => v as int,
        None => 10,
    }
}

/// The effective line kind: the given one, or 1.
pub open spec fn eff_kind(kind: Option<usize>) -> usize {
    match kind {
        Some(v) => v,
        None => 1,
    }
}

/// How many segments the function generator emits: `iters - 1` per unit step
/// of the half-open range, none when the range or the inner step is empty.
pub open spec fn fn_seg_count(start: int, end: int, iters: int) -> int {
    if end > start && iters >= 2 {
        (end - start) * (iters - 1)
    } else {
        0
    }
}

/// The x coordinate (in micro-units) of sample `k`: within each unit step the
/// fractional offsets `j / iters` are visited for `j` from `iters - 1` down
/// to `1`.
pub open spec fn sample_x(start: int, iters: int, k: int) -> int {
    (start + k / (iters - 1)) * 1_000_000 + ((iters - 1 - k % (iters - 1)) * 1_000_000) / iters
}

/// Segment `k` of a generated curve: its end sits at sample `k` with a height
/// the sampled function returned there, its start is the previous segment's
/// end (the range's start for the first segment), and every geometric flag is
/// off.
pub open spec fn function_segment_ok<F: Fn(i64) -> i64>(
    func: F,
    start: int,
    iters: int,
    knd: usize,
    s: Seq<Line>,
    k: int,
) -> bool {
    let l = s[k];
    &&& l.id is None
    &&& l.kind == knd
    &&& !l.flipped
    &&& !l.left_extended
    &&& !l.right_extended
    &&& l.x2 == sample_x(start, iters, k)
    &&& call_ensures(func, (l.x2,), l.y2)
    &&& if k == 0 {
        l.x1 == start * 1_000_000 && call_ensures(func, (l.x1,), l.y1)
    } else {
        l.x1 == s[k - 1].x2 && l.y1 == s[k - 1].y2
    }
}

/// Creates and returns lines to sketch out a function `func` over the
/// half-open range `start..end`, with `iterations` samples per integer step
/// (10 when unspecified). All lines created will be of type `kind` (1 when
/// unspecified).
///
/// An empty range, or fewer than two iterations, yields no lines.
pub fn function_lines<F: Fn(i64) -> i64>(
    func: F,
    start: i64,
    end: i64,
    iterations: Option<u8>,
    kind: Option<usize>,
) -> (r: Vec<Line>)
    requires
        -MAX_UNIT <= start <= MAX_UNIT,
        -MAX_UNIT <= end <= MAX_UNIT,
        forall|x: i64| call_requires(func, (x,)),
        fn_seg_count(start as int, end as int, eff_iterations(iterations)) <= usize::MAX as int,
    ensures
        r@.len() == fn_seg_count(start as int, end as int, eff_iterations(iterations)),
        forall|k: int|
            0 <= k < r@.len() ==> #[trigger] function_segment_ok(
                func,
                start as int,
                eff_iterations(iterations),
                eff_kind(kind),
                r@,
                k,
            ),
{
    let it: u8 = match iterations {
        Some(v) => v,
        None => 10,
    };
    let knd: usize = match kind {
        Some(v) => v,
        None => 1,
    };
    let mut out: Vec<Line> = Vec::new();
    if end <= start || it <= 1 {
        return out;
    }
    let mut last_x: i64 = start * 1_000_000;
    let mut last_y: i64 = func(last_x);
    let mut i: i64 = start;
    while i < end
        invariant
            it as int == eff_iterations(iterations),
            knd == eff_kind(kind),
            it >= 2,
            start < end,
            -MAX_UNIT <= start <= MAX_UNIT,
            -MAX_UNIT <= end <= MAX_UNIT,
            start <= i <= end,
            forall|x: i64| call_requires(func, (x,)),
            out@.len() == (i - start) * (it - 1),
            forall|k: int|
                0 <= k < out@.len() ==> #[trigger] function_segment_ok(
                    func,
                    start as int,
                    it as int,
                    knd,
                    out@,
                    k,
                ),
            out@.len() == 0 ==> last_x == start * 1_000_000 && call_ensures(
                func,
                (last_x,),
                last_y,
            ),
            out@.len() > 0 ==> last_x == out@[out@.len() - 1].x2 && last_y == out@[out@.len()
                - 1].y2,
        decreases end - i,
    {
        let mut j: u8 = it - 1;
        while j >= 1
            invariant
                it as int == eff_iterations(iterations),
                knd == eff_kind(kind),
                it >= 2,
                start < end,
                -MAX_UNIT <= start <= MAX_UNIT,
                -MAX_UNIT <= end <= MAX_UNIT,
                start <= i < end,
                0 <= j <= it - 1,
                forall|x: i64| call_requires(func, (x,)),
                out@.len() == (i - start) * (it - 1) + (it - 1 - j),
                forall|k: int|
                    0 <= k < out@.len() ==> #[trigger] function_segment_ok(
                        func,
                        start as int,
                        it as int,
                        knd,
                        out@,
                        k,
                    ),
                out@.len() == 0 ==> last_x == start * 1_000_000 && call_ensures(
                    func,
                    (last_x,),
                    last_y,
                ),
                out@.len() > 0 ==> last_x == out@[out@.len() - 1].x2 && last_y == out@[out@.len()
                    - 1].y2,
            decreases j,
        {
            let xfrac: u64 = ((j as u64) * 1_000_000) / (it as u64);
            proof {
                lemma_multiply_divide_lt((j as int) * 1_000_000, 1_000_000, it as int);
            }
            let x: i64 = i * 1_000_000 + (xfrac as i64);
            proof {
                let itn = it as int;
                let knum = out@.len() as int;
                let m = itn - 1 - j as int;
                assert(knum == (itn - 1) * (i as int - start as int) + m) by (nonlinear_arith)
                    requires
                        knum == (i as int - start as int) * (itn - 1) + m,
                ;
                lemma_div_multiples_vanish_fancy(i as int - start as int, m, itn - 1);
                lemma_mod_multiples_vanish(i as int - start as int, m, itn - 1);
                lemma_small_mod(m as nat, (itn - 1) as nat);
                assert(sample_x(start as int, itn, knum) == x);
            }
            let y: i64 = func(x);
            let ghost pre = out@;
            out.push(
                Line {
                    id: None,
                    kind: knd,
                    x1: last_x,
                    y1: last_y,
                    x2: x,
                    y2: y,
                    flipped: false,
                    left_extended: false,
                    right_extended: false,
                },
            );
            proof {
                assert forall|k: int| 0 <= k < out@.len() implies #[trigger] function_segment_ok(
                    func,
                    start as int,
                    it as int,
                    knd,
                    out@,
                    k,
                ) by {
                    if k < pre.len() {
                        assert(function_segment_ok(func, start as int, it as int, knd, pre, k));
                    } else {
                        assert(out@[k] == Line {
                            id: None,
                            kind: knd,
                            x1: last_x,
                            y1: last_y,
                            x2: x,
                            y2: y,
                            flipped: false,
                            left_extended: false,
                            right_extended: false,
                        });
                    }
                }
            }
            last_x = x;
            last_y = y;
            j -= 1;
        }
        proof {
            assert((i as int + 1 - start as int) * (it as int - 1) == (i as int - start as int) * (
            it as int - 1) + (it as int - 1)) by (nonlinear_arith);
        }
        i += 1;
    }
    out
}

} // verus!
