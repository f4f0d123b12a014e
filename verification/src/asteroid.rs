//! A polygonal obstacle. The polygon is a ring of vertices at fixed evenly
//! spaced angles; only each vertex's distance from the center is stored,
//! since angles never change and a rigid rotation does not change distances.
//! The mean of those distances is the circular hit-test threshold.

use vstd::prelude::*;
use crate::rng::rand_between;
use crate::util::{
    wrap_coord, wrap_add, wrap_angle, wrap_turn, lemma_wrap_in_range, lemma_wrap_bounded,
    SCALE, TWO_PI_MICRO, COORD_BOUND, DIM_MAX_PIXELS,
};

verus! {

/// Largest speed component an asteroid is created with: two pixels a frame.
pub const VEL_LIMIT: i64 = 2000;

/// Largest distance a polygon vertex may sit from the ring of its size:
/// ten pixels.
pub const PERTURB_LIMIT: i64 = 10000;

/// Largest rotational speed: two and a half degrees a frame, in
/// microradians.
pub const DROT_LIMIT: i64 = 43633;

/// Largest accepted asteroid size (also the vertex count of its polygon).
pub const SIZE_LIMIT: i32 = 100_000;

pub struct Asteroid {
    pub x: i64,
    pub y: i64,
    pub vx: i64,
    pub vy: i64,
    pub rot: i64,
    pub drot: i64,
    pub size: i32,
    pub shape: Vec<i64>,
    pub meanRadius: i64,
    pub valid: bool,
}

/// Sum of the magnitudes of a sequence of vertex distances.
pub open spec fn sum_abs(s: Seq<i64>) -> int
    decreases s.len(),
{
    if s.len() == 0 {
        0
    } else {
        sum_abs(s.drop_last()) + vstd::math::abs(s.last() as int)
    }
}

/// The circular hit test: a point strikes the asteroid exactly when its
/// distance from the center is strictly below the mean radius (stated on
/// squares, which is the same condition for nonnegative radii).
pub open spec fn hits_point(a: Asteroid, px: int, py: int) -> bool {
    (px - a.x) * (px - a.x) + (py - a.y) * (py - a.y) < a.meanRadius * a.meanRadius
}

/// Comparing squares is comparing lengths: for nonnegative values, the
/// squared distance falls strictly below the squared radius exactly when
/// the distance falls strictly below the radius. This is why `hits_point`,
/// stated on squares, is the strict distance test.
pub proof fn lemma_square_compare(d: int, r: int)
    requires
        0 <= d,
        0 <= r,
    ensures
        (d * d < r * r) <==> (d < r),
{
    assert((d * d < r * r) <==> (d < r)) by (nonlinear_arith)
        requires
            0 <= d,
            0 <= r,
    ;
}

impl Asteroid {
    /// The asteroid after one frame of motion on a screen of the given pixel
    /// dimensions: the position moves by the velocity and wraps at the
    /// edges; the rotation advances by the rotational speed and wraps past a
    /// full turn.
    pub open spec fn stepped(self, w: int, h: int) -> Asteroid {
        Asteroid {
            x: wrap_coord(self.x as int, self.vx as int, w * SCALE) as i64,
            y: wrap_coord(self.y as int, self.vy as int, h * SCALE) as i64,
            rot: wrap_angle(self.rot + self.drot) as i64,
            ..self
        }
    }

    /// The base ring radius for a given size: two pixels per size unit.
    pub open spec fn base_radius(size: int) -> int {
        2 * SCALE * size
    }

    /// Well-formed asteroid: everything on the screen scale, the polygon's
    /// vertex count equal to the size, every vertex within `PERTURB_LIMIT`
    /// of the base ring, and the mean radius the average vertex distance.
    pub open spec fn wf(self) -> bool {
        &&& -COORD_BOUND <= self.x <= COORD_BOUND
        &&& -COORD_BOUND <= self.y <= COORD_BOUND
        &&& -VEL_LIMIT <= self.vx <= VEL_LIMIT
        &&& -VEL_LIMIT <= self.vy <= VEL_LIMIT
        &&& 0 <= self.rot <= TWO_PI_MICRO
        &&& -DROT_LIMIT <= self.drot <= DROT_LIMIT
        &&& 1 <= self.size <= SIZE_LIMIT
        &&& self.shape@.len() == self.size
        &&& (forall|j: int|
            0 <= j < self.shape@.len() ==> Self::base_radius(self.size as int) - PERTURB_LIMIT
                <= #[trigger] self.shape@[j] <= Self::base_radius(self.size as int)
                + PERTURB_LIMIT)
        &&& self.meanRadius == sum_abs(self.shape@) / (self.size as int)
        &&& 0 <= self.meanRadius <= Self::base_radius(self.size as int) + PERTURB_LIMIT
    }

    /// What a freshly created asteroid of a given size looks like at a given
    /// position: the deterministic fields exactly, the randomly drawn fields
    /// by their ranges.
    pub open spec fn fresh_at(a: Asteroid, size: int, x: int, y: int) -> bool {
        &&& a.x == x
        &&& a.y == y
        &&& a.size == size
        &&& a.valid
        &&& 0 <= a.rot < TWO_PI_MICRO
        &&& a.wf()
    }

    /// Creates an asteroid at a fixed position; velocity, rotation, spin and
    /// shape are drawn at random within their ranges.
    pub fn new(_size: i32, x: i64, y: i64) -> (a: Asteroid)
        requires
            1 <= _size <= SIZE_LIMIT,
            -COORD_BOUND <= x <= COORD_BOUND,
            -COORD_BOUND <= y <= COORD_BOUND,
        ensures
            Self::fresh_at(a, _size as int, x as int, y as int),
    {
        let vx = rand_between(-VEL_LIMIT, VEL_LIMIT);
        let vy = rand_between(-VEL_LIMIT, VEL_LIMIT);

        let base: i64 = (_size as i64) * 2 * SCALE;
        proof {
            assert(base == 2 * SCALE * (_size as int)) by (nonlinear_arith)
                requires
                    base == (_size as i64) * 2 * SCALE,
            ;
        }
        let n: usize = _size as usize;
        let mut shape: Vec<i64> = Vec::new();
        let mut rsum: i64 = 0;
        let mut i: usize = 0;
        while i < n
            invariant
                0 <= i <= n,
                1 <= _size <= SIZE_LIMIT,
                n == _size,
                base == Self::base_radius(_size as int),
                shape@.len() == i,
                2 * SCALE <= base <= 200_000_000,
                forall|j: int|
                    0 <= j < i ==> base - PERTURB_LIMIT <= #[trigger] shape@[j] <= base
                        + PERTURB_LIMIT,
                rsum == sum_abs(shape@),
                0 <= rsum <= i * (base + PERTURB_LIMIT),
                rsum <= i * 200_010_000,
            decreases n - i,
        {
            let r = base + rand_between(-PERTURB_LIMIT, PERTURB_LIMIT);
            let rabs = if r < 0 {
                -r
            } else {
                r
            };
            let ghost prev = shape@;
            shape.push(r);
            proof {
                assert(shape@.drop_last() =~= prev);
                assert((i + 1) * (base + PERTURB_LIMIT) == i * (base + PERTURB_LIMIT) + (base
                    + PERTURB_LIMIT)) by (nonlinear_arith);
            }
            rsum = rsum + rabs;
            i = i + 1;
        }
        let meanRadius = rsum / (_size as i64);
        proof {
            lemma_mean_in_range(rsum as int, _size as int, (base + PERTURB_LIMIT) as int);
        }

        let rot = rand_between(0, TWO_PI_MICRO - 1);
        let drot = rand_between(-DROT_LIMIT, DROT_LIMIT);

        Asteroid {
            x,
            y,
            vx,
            vy,
            rot,
            drot,
            size: _size,
            shape,
            meanRadius,
            valid: true,
        }
    }

    /// Creates an asteroid with the position also drawn at random, uniformly
    /// over the screen.
    pub fn gen(_size: i32, _width: u32, _height: u32) -> (a: Asteroid)
        requires
            1 <= _size <= SIZE_LIMIT,
            1 <= _width <= DIM_MAX_PIXELS,
            1 <= _height <= DIM_MAX_PIXELS,
        ensures
            Self::fresh_at(a, _size as int, a.x as int, a.y as int),
            0 <= a.x < _width * SCALE,
            0 <= a.y < _height * SCALE,
    {
        let x = rand_between(0, (_width as i64) * SCALE - 1);
        let y = rand_between(0, (_height as i64) * SCALE - 1);
        Asteroid::new(_size, x, y)
    }

    pub fn getX(&self) -> (r: i64)
        ensures
            r == self.x,
    {
        self.x
    }

    pub fn getY(&self) -> (r: i64)
        ensures
            r == self.y,
    {
        self.y
    }

    pub fn getSize(&self) -> (r: i32)
        ensures
            r == self.size,
    {
        self.size
    }

    pub fn setSize(&mut self, v: i32)
        ensures
            final(self).size == v,
            final(self).x == old(self).x,
            final(self).y == old(self).y,
            final(self).vx == old(self).vx,
            final(self).vy == old(self).vy,
            final(self).rot == old(self).rot,
            final(self).drot == old(self).drot,
            final(self).shape == old(self).shape,
            final(self).meanRadius == old(self).meanRadius,
            final(self).valid == old(self).valid,
    {
        self.size = v;
    }

    pub fn getValid(&self) -> (r: bool)
        ensures
            r == self.valid,
    {
        self.valid
    }

    pub fn setValid(&mut self, v: bool)
        ensures
            final(self).valid == v,
            final(self).x == old(self).x,
            final(self).y == old(self).y,
            final(self).vx == old(self).vx,
            final(self).vy == old(self).vy,
            final(self).rot == old(self).rot,
            final(self).drot == old(self).drot,
            final(self).size == old(self).size,
            final(self).shape == old(self).shape,
            final(self).meanRadius == old(self).meanRadius,
    {
        self.valid = v;
    }

    pub fn getRot(&self) -> (r: i64)
        ensures
            r == self.rot,
    {
        self.rot
    }

    pub fn getMeanRadius(&self) -> (r: i64)
        ensures
            r == self.meanRadius,
    {
        self.meanRadius
    }

    pub fn getShape(&self) -> (r: &Vec<i64>)
        ensures
            r == self.shape,
    {
        &self.shape
    }

    /// One frame of motion: the position moves by the velocity and wraps at
    /// the screen edges; the rotation advances by the rotational speed and
    /// wraps past a full turn (strictly past, at the upper edge). A
    /// coordinate that starts on the screen ends on the screen.
    pub fn update(&mut self, width: u32, height: u32)
        requires
            old(self).wf(),
            2 <= width <= DIM_MAX_PIXELS,
            2 <= height <= DIM_MAX_PIXELS,
        ensures
            *final(self) == old(self).stepped(width as int, height as int),
            final(self).x == wrap_coord(old(self).x as int, old(self).vx as int, width * SCALE),
            final(self).y == wrap_coord(old(self).y as int, old(self).vy as int, height * SCALE),
            final(self).rot == wrap_angle(old(self).rot + old(self).drot),
            final(self).wf(),
            0 <= old(self).x < width * SCALE ==> 0 <= final(self).x < width * SCALE,
            0 <= old(self).y < height * SCALE ==> 0 <= final(self).y < height * SCALE,
    {
        let wm = (width as i64) * SCALE;
        let hm = (height as i64) * SCALE;
        proof {
            let wmi = width * SCALE as int;
            let hmi = height * SCALE as int;
            lemma_wrap_bounded(old(self).x as int, old(self).vx as int, wmi, COORD_BOUND as int);
            lemma_wrap_bounded(old(self).y as int, old(self).vy as int, hmi, COORD_BOUND as int);
            if 0 <= old(self).x < wmi {
                lemma_wrap_in_range(old(self).x as int, old(self).vx as int, wmi);
            }
            if 0 <= old(self).y < hmi {
                lemma_wrap_in_range(old(self).y as int, old(self).vy as int, hmi);
            }
        }
        self.x = wrap_add(self.x, self.vx, wm);
        self.y = wrap_add(self.y, self.vy, hm);
        self.rot = wrap_turn(self.rot + self.drot);
    }

    /// Hit test against a point: true exactly when the point's distance from
    /// the center is strictly below the mean radius.
    pub fn hitTest(&self, tx: i64, ty: i64) -> (r: bool)
        requires
            self.wf(),
            -COORD_BOUND <= tx <= COORD_BOUND,
            -COORD_BOUND <= ty <= COORD_BOUND,
        ensures
            r == hits_point(*self, tx as int, ty as int),
    {
        let tdx = tx - self.x;
        let tdy = ty - self.y;
        proof {
            let lim = 2 * COORD_BOUND as int;
            let rlim = Self::base_radius(self.size as int) + PERTURB_LIMIT;
            assert(0 <= rlim <= 300_000_000) by (nonlinear_arith)
                requires
                    1 <= self.size <= SIZE_LIMIT,
                    rlim == 2 * SCALE * (self.size as int) + PERTURB_LIMIT,
            ;
            assert(0 <= tdx * tdx <= lim * lim && 0 <= tdy * tdy <= lim * lim && 0
                <= self.meanRadius * self.meanRadius <= 300_000_000 * 300_000_000)
                by (nonlinear_arith)
                requires
                    -lim <= tdx <= lim,
                    -lim <= tdy <= lim,
                    0 <= self.meanRadius <= rlim,
                    0 <= rlim <= 300_000_000,
            ;
        }
        let dsq = tdx * tdx + tdy * tdy;
        dsq < self.meanRadius * self.meanRadius
    }
}

/// The average of a nonnegative total over `n` items, each of magnitude at
/// most `b`, lies between zero and `b`.
proof fn lemma_mean_in_range(total: int, n: int, b: int)
    requires
        1 <= n,
        0 <= b,
        0 <= total <= n * b,
    ensures
        0 <= total / n <= b,
{
    assert(0 <= total / n <= b) by (nonlinear_arith)
        requires
            1 <= n,
            0 <= b,
            0 <= total <= n * b,
    ;
}

} // verus!
