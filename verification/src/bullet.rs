//! A point projectile: position, velocity and a validity flag. A bullet has
//! no knowledge of the screen; the game controller moves it and decides when
//! it leaves play.

use vstd::prelude::*;

verus! {

#[derive(Clone, Copy)]
pub struct Bullet {
    pub x: i64,
    pub y: i64,
    pub vx: i64,
    pub vy: i64,
    pub valid: bool,
}

impl Bullet {
    /// A freshly fired bullet is valid and keeps the velocity it was given
    /// for its whole life.
    pub fn new(_x: i64, _y: i64, _vx: i64, _vy: i64) -> (b: Bullet)
        ensures
            b.x == _x,
            b.y == _y,
            b.vx == _vx,
            b.vy == _vy,
            b.valid,
    {
        Bullet { x: _x, y: _y, vx: _vx, vy: _vy, valid: true }
    }

    pub fn getX(&self) -> (r: i64)
        ensures
            r == self.x,
    {
        self.x
    }

    pub fn setX(&mut self, v: i64)
        ensures
            *final(self) == (Bullet { x: v, ..*old(self) }),
    {
        self.x = v;
    }

    pub fn getY(&self) -> (r: i64)
        ensures
            r == self.y,
    {
        self.y
    }

    pub fn setY(&mut self, v: i64)
        ensures
            *final(self) == (Bullet { y: v, ..*old(self) }),
    {
        self.y = v;
    }

    pub fn getVx(&self) -> (r: i64)
        ensures
            r == self.vx,
    {
        self.vx
    }

    pub fn setVx(&mut self, v: i64)
        ensures
            *final(self) == (Bullet { vx: v, ..*old(self) }),
    {
        self.vx = v;
    }

    pub fn getVy(&self) -> (r: i64)
        ensures
            r == self.vy,
    {
        self.vy
    }

    pub fn setVy(&mut self, v: i64)
        ensures
            *final(self) == (Bullet { vy: v, ..*old(self) }),
    {
        self.vy = v;
    }

    pub fn getValid(&self) -> (r: bool)
        ensures
            r == self.valid,
    {
        self.valid
    }

    pub fn setValid(&mut self, v: bool)
        ensures
            *final(self) == (Bullet { valid: v, ..*old(self) }),
    {
        self.valid = v;
    }
}

} // verus!
