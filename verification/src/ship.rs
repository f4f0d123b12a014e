//! The player ship: position, a speed-capped velocity, rotation, and an
//! explosion-animation counter.
//!
//! The ship never computes trigonometry itself: thrust and fire take the
//! heading unit vector of the current rotation, scaled by `SCALE`, from the
//! caller. The speed cap, the wrap rule and the bullet's muzzle velocity are
//! all exact integer statements.

use vstd::prelude::*;
use crate::bullet::Bullet;
use crate::util::{
    wrap_coord, wrap_add, lemma_wrap_in_range, lemma_wrap_bounded, half_toward_zero, half_of,
    SCALE, COORD_BOUND, DIM_MAX_PIXELS,
};

verus! {

#[derive(Clone, Copy)]
pub struct MyShip {
    pub x: i64,
    pub y: i64,
    pub vx: i64,
    pub vy: i64,
    pub radius: i64,
    pub rotation: i64,
    pub maxSpeed: i64,
    pub explosionAnimCount: i32,
}

impl MyShip {
    /// The ship after one frame of motion on a screen of the given pixel
    /// dimensions: each coordinate moves by its velocity and wraps.
    pub open spec fn moved(self, w: int, h: int) -> MyShip {
        MyShip {
            x: wrap_coord(self.x as int, self.vx as int, w * SCALE) as i64,
            y: wrap_coord(self.y as int, self.vy as int, h * SCALE) as i64,
            ..self
        }
    }

    /// The ship after one thrust along a heading scaled by `SCALE`: the
    /// velocity gains half a heading unit unless that would push the speed
    /// to the cap or beyond, in which case nothing changes.
    pub open spec fn thrusted(self, hx: int, hy: int) -> MyShip {
        let cvx = self.vx + half_toward_zero(hx);
        let cvy = self.vy + half_toward_zero(hy);
        if cvx * cvx + cvy * cvy < self.maxSpeed * self.maxSpeed {
            MyShip { vx: cvx as i64, vy: cvy as i64, ..self }
        } else {
            self
        }
    }

    /// The bullet the ship fires along a heading scaled by `SCALE`: it
    /// starts at the ship's position with a muzzle speed of five pixels a
    /// frame, independent of the ship's velocity.
    pub open spec fn fired(self, hx: int, hy: int) -> Bullet {
        Bullet { x: self.x, y: self.y, vx: (5 * hx) as i64, vy: (5 * hy) as i64, valid: true }
    }

    /// Well-formed ship: coordinates and radius on the screen scale, and the
    /// speed strictly below the cap — the invariant every method preserves.
    pub open spec fn wf(self) -> bool {
        &&& -COORD_BOUND <= self.x <= COORD_BOUND
        &&& -COORD_BOUND <= self.y <= COORD_BOUND
        &&& 0 <= self.radius <= COORD_BOUND
        &&& 0 < self.maxSpeed <= COORD_BOUND
        &&& self.vx * self.vx + self.vy * self.vy < self.maxSpeed * self.maxSpeed
        &&& 0 <= self.explosionAnimCount
    }

    /// Speed cap: a ship whose speed is strictly below its cap can thrust
    /// any number of times, along any headings, and its speed stays
    /// strictly below the cap — a thrust that would reach it is discarded
    /// whole.
    pub proof fn lemma_thrust_keeps_speed_below_cap(self, hx: int, hy: int)
        requires
            -SCALE <= hx <= SCALE,
            -SCALE <= hy <= SCALE,
            0 < self.maxSpeed <= COORD_BOUND,
            self.vx * self.vx + self.vy * self.vy < self.maxSpeed * self.maxSpeed,
        ensures
            ({
                let t = self.thrusted(hx, hy);
                t.vx * t.vx + t.vy * t.vy < t.maxSpeed * t.maxSpeed
            }),
    {
        self.lemma_speed_bounds_components();
    }

    /// A speed strictly below the cap bounds each velocity component.
    pub proof fn lemma_speed_bounds_components(self)
        requires
            0 < self.maxSpeed,
            self.vx * self.vx + self.vy * self.vy < self.maxSpeed * self.maxSpeed,
        ensures
            -self.maxSpeed < self.vx < self.maxSpeed,
            -self.maxSpeed < self.vy < self.maxSpeed,
    {
        assert(-self.maxSpeed < self.vx < self.maxSpeed && -self.maxSpeed < self.vy
            < self.maxSpeed) by (nonlinear_arith)
            requires
                0 < self.maxSpeed,
                self.vx * self.vx + self.vy * self.vy < self.maxSpeed * self.maxSpeed,
        ;
    }

    /// A new ship starts at rest with a cleared explosion counter.
    pub fn new(_x: i64, _y: i64, _radius: i64, _rot: i64, _maxSpeed: i64) -> (s: MyShip)
        requires
            -COORD_BOUND <= _x <= COORD_BOUND,
            -COORD_BOUND <= _y <= COORD_BOUND,
            0 <= _radius <= COORD_BOUND,
            0 < _maxSpeed <= COORD_BOUND,
        ensures
            s == (MyShip {
                x: _x,
                y: _y,
                vx: 0,
                vy: 0,
                radius: _radius,
                rotation: _rot,
                maxSpeed: _maxSpeed,
                explosionAnimCount: 0,
            }),
            s.wf(),
    {
        let s = MyShip {
            x: _x,
            y: _y,
            vx: 0,
            vy: 0,
            radius: _radius,
            rotation: _rot,
            maxSpeed: _maxSpeed,
            explosionAnimCount: 0,
        };
        proof {
            assert(0 < _maxSpeed * _maxSpeed) by (nonlinear_arith)
                requires
                    0 < _maxSpeed,
            ;
        }
        s
    }

    pub fn getX(&self) -> (r: i64)
        ensures
            r == self.x,
    {
        self.x
    }

    pub fn getY(&self) -> (r: i64)
        ensures
            r == self.y,
    {
        self.y
    }

    pub fn getVx(&self) -> (r: i64)
        ensures
            r == self.vx,
    {
        self.vx
    }

    pub fn getVy(&self) -> (r: i64)
        ensures
            r == self.vy,
    {
        self.vy
    }

    pub fn getRotation(&self) -> (r: i64)
        ensures
            r == self.rotation,
    {
        self.rotation
    }

    pub fn getRadius(&self) -> (r: i64)
        ensures
            r == self.radius,
    {
        self.radius
    }

    pub fn getMaxSpeed(&self) -> (r: i64)
        ensures
            r == self.maxSpeed,
    {
        self.maxSpeed
    }

    pub fn getExplosionAnimCount(&self) -> (r: i32)
        ensures
            r == self.explosionAnimCount,
    {
        self.explosionAnimCount
    }

    pub fn clearExplosionAnimCount(&mut self)
        ensures
            *final(self) == (MyShip { explosionAnimCount: 0, ..*old(self) }),
    {
        self.explosionAnimCount = 0;
    }

    /// Advances the explosion animation by one frame and reports the count.
    pub fn updateExplosionAnimCount(&mut self) -> (c: i32)
        requires
            old(self).explosionAnimCount < i32::MAX,
        ensures
            *final(self) == (MyShip {
                explosionAnimCount: (old(self).explosionAnimCount + 1) as i32,
                ..*old(self)
            }),
            c == final(self).explosionAnimCount,
    {
        self.explosionAnimCount = self.explosionAnimCount + 1;
        self.explosionAnimCount
    }

    /// One frame of motion: each coordinate moves by its velocity and wraps
    /// at the screen edges. A coordinate that starts on the screen and moves
    /// by no more than one screen dimension ends on the screen.
    pub fn updatePos(&mut self, width: u32, height: u32)
        requires
            -COORD_BOUND <= old(self).x <= COORD_BOUND,
            -COORD_BOUND <= old(self).y <= COORD_BOUND,
            -COORD_BOUND <= old(self).vx <= COORD_BOUND,
            -COORD_BOUND <= old(self).vy <= COORD_BOUND,
            1 <= width <= DIM_MAX_PIXELS,
            1 <= height <= DIM_MAX_PIXELS,
        ensures
            *final(self) == old(self).moved(width as int, height as int),
            final(self).x == wrap_coord(old(self).x as int, old(self).vx as int, width * SCALE),
            final(self).y == wrap_coord(old(self).y as int, old(self).vy as int, height * SCALE),
            (0 <= old(self).x < width * SCALE && -(width * SCALE) <= old(self).vx <= width
                * SCALE) ==> 0 <= final(self).x < width * SCALE,
            (0 <= old(self).y < height * SCALE && -(height * SCALE) <= old(self).vy <= height
                * SCALE) ==> 0 <= final(self).y < height * SCALE,
            -(width * SCALE) <= old(self).vx <= width * SCALE ==> -COORD_BOUND <= final(self).x
                <= COORD_BOUND,
            -(height * SCALE) <= old(self).vy <= height * SCALE ==> -COORD_BOUND <= final(self).y
                <= COORD_BOUND,
        {
        let wm = (width as i64) * SCALE;
        let hm = (height as i64) * SCALE;
        proof {
            let wmi = width * SCALE as int;
            let hmi = height * SCALE as int;
            if 0 <= old(self).x < wmi && -wmi <= old(self).vx <= wmi {
                lemma_wrap_in_range(old(self).x as int, old(self).vx as int, wmi);
            }
            if 0 <= old(self).y < hmi && -hmi <= old(self).vy <= hmi {
                lemma_wrap_in_range(old(self).y as int, old(self).vy as int, hmi);
            }
            if -wmi <= old(self).vx && old(self).vx <= wmi {
                lemma_wrap_bounded(old(self).x as int, old(self).vx as int, wmi, COORD_BOUND as int);
            }
            if -hmi <= old(self).vy && old(self).vy <= hmi {
                lemma_wrap_bounded(old(self).y as int, old(self).vy as int, hmi, COORD_BOUND as int);
            }
        }
        self.x = wrap_add(self.x, self.vx, wm);
        self.y = wrap_add(self.y, self.vy, hm);
    }

    /// Thrust along the given heading: the velocity gains half a heading
    /// unit, but only if the new speed would stay strictly below the cap —
    /// otherwise the velocity is left unchanged. Repeated thrusts therefore
    /// never reach the cap.
    pub fn updateDir(&mut self, hx: i64, hy: i64)
        requires
            -SCALE <= hx <= SCALE,
            -SCALE <= hy <= SCALE,
            old(self).wf(),
        ensures
            *final(self) == old(self).thrusted(hx as int, hy as int),
            final(self).wf(),
            final(self).vx * final(self).vx + final(self).vy * final(self).vy
                < final(self).maxSpeed * final(self).maxSpeed,
    {
        proof {
            old(self).lemma_speed_bounds_components();
        }
        let ax = half_of(hx);
        let ay = half_of(hy);
        let vx1 = self.vx + ax;
        let vy1 = self.vy + ay;
        proof {
            let lim = COORD_BOUND + SCALE as int;
            assert(0 <= vx1 * vx1 <= lim * lim && 0 <= vy1 * vy1 <= lim * lim && self.maxSpeed
                * self.maxSpeed <= COORD_BOUND * COORD_BOUND) by (nonlinear_arith)
                requires
                    -lim <= vx1 <= lim,
                    -lim <= vy1 <= lim,
                    0 < self.maxSpeed <= COORD_BOUND,
            ;
        }
        let sq = vx1 * vx1 + vy1 * vy1;
        if sq < self.maxSpeed * self.maxSpeed {
            self.vx = vx1;
            self.vy = vy1;
        }
    }

    pub fn incrRotation(&mut self, d: i64)
        requires
            i64::MIN <= old(self).rotation + d <= i64::MAX,
        ensures
            *final(self) == (MyShip {
                rotation: (old(self).rotation + d) as i64,
                ..*old(self)
            }),
    {
        self.rotation = self.rotation + d;
    }

    /// Fires a bullet from the ship's position, with a muzzle speed of five
    /// pixels per frame along the given heading, independent of the ship's
    /// own velocity.
    pub fn fire(&self, hx: i64, hy: i64) -> (b: Bullet)
        requires
            -SCALE <= hx <= SCALE,
            -SCALE <= hy <= SCALE,
        ensures
            b == self.fired(hx as int, hy as int),
            b.x == self.x,
            b.y == self.y,
            b.vx == 5 * hx,
            b.vy == 5 * hy,
            b.valid,
    {
        Bullet::new(self.x, self.y, 5 * hx, 5 * hy)
    }
}

} // verus!
