//! The game controller: one ship, a pool of bullets and a population of
//! asteroids, driven through a six-state machine. Each frame the host calls
//! `update` once with the screen dimensions; input events arrive as one
//! method call per action.

use vstd::prelude::*;
use crate::asteroid::{Asteroid, hits_point};
use crate::bullet::Bullet;
use crate::ship::MyShip;
use crate::rng::rand_between;
use crate::util::{deg2rad, SCALE, PI_MICRO, TWO_PI_MICRO, COORD_BOUND, DIM_MAX_PIXELS};

verus! {

/// Smallest asteroid size that still splits when destroyed.
pub const SPLIT_MIN_SIZE: i32 = 6;

/// Points awarded for each destroyed asteroid.
pub const SCORE_PER_HIT: i32 = 10;

/// Ships the player starts a session with.
pub const START_SHIPS: i32 = 3;

/// Asteroids placed on the board at the start of a game.
pub const START_ASTEROIDS: i32 = 10;

/// The explosion animation ends, and the ship counts as dead, when its
/// frame counter reaches this value.
pub const EXPLOSION_FRAMES: i32 = 50;

/// Frames the game-over screen is shown before returning to the title.
pub const GAMEOVER_FRAMES: i32 = 300;

/// The ship's visual radius: ten pixels.
pub const SHIP_RADIUS: i64 = 10 * SCALE;

/// The ship's speed cap: fifteen pixels per frame.
pub const GAME_MAX_SPEED: i64 = 15 * SCALE;

/// The score can never reach this value: destroying every asteroid a fresh
/// board can ever yield stays far below it.
pub const SCORE_ROOM: i32 = 1_000_000_000;

#[derive(Clone, Copy, PartialEq, Eq, Structural, Debug)]
pub enum GameState {
    TITLE,
    START,
    PLAY,
    EXPLODED,
    DEAD,
    GAMEOVER,
}

pub struct Game {
    pub state: GameState,
    pub score: i32,
    pub nShips: i32,
    pub nAsteroids: i32,
    pub D_ROT: i64,
    pub MAX_SPEED: i64,
    pub myShip: Option<MyShip>,
    pub bullets: Vec<Bullet>,
    pub asteroids: Vec<Asteroid>,
    pub gameOverDisplayCount: i32,
}

/// How many destructions one asteroid can still yield: itself, plus — if it
/// is big enough to split — the yields of its three half-size children.
/// Every destruction scores the same fixed amount, so this measures the
/// score a single asteroid is worth in total.
pub open spec fn split_yield(size: int) -> int
    decreases size,
{
    if size >= SPLIT_MIN_SIZE {
        1 + 3 * split_yield(size / 2)
    } else {
        1
    }
}

/// The yield an asteroid still counts for: destroyed asteroids count zero.
pub open spec fn yield_of(a: Asteroid) -> int {
    if a.valid {
        split_yield(a.size as int)
    } else {
        0
    }
}

/// Total yield of a board of asteroids.
pub open spec fn total_yield(s: Seq<Asteroid>) -> int
    decreases s.len(),
{
    if s.len() == 0 {
        0
    } else {
        total_yield(s.drop_last()) + yield_of(s.last())
    }
}

pub proof fn lemma_split_yield_pos(size: int)
    ensures
        split_yield(size) >= 1,
    decreases size,
{
    if size >= SPLIT_MIN_SIZE {
        lemma_split_yield_pos(size / 2);
    }
}

pub proof fn lemma_split_yield_mono(a: int, b: int)
    requires
        a <= b,
    ensures
        split_yield(a) <= split_yield(b),
    decreases b,
{
    if b >= SPLIT_MIN_SIZE {
        if a >= SPLIT_MIN_SIZE {
            lemma_split_yield_mono(a / 2, b / 2);
        } else {
            lemma_split_yield_pos(b / 2);
        }
    }
}

pub proof fn lemma_total_yield_nonneg(s: Seq<Asteroid>)
    ensures
        total_yield(s) >= 0,
    decreases s.len(),
{
    if s.len() > 0 {
        lemma_total_yield_nonneg(s.drop_last());
        if s.last().valid {
            lemma_split_yield_pos(s.last().size as int);
        }
    }
}

pub proof fn lemma_total_yield_push(s: Seq<Asteroid>, a: Asteroid)
    ensures
        total_yield(s.push(a)) == total_yield(s) + yield_of(a),
{
    assert(s.push(a).drop_last() =~= s);
    assert(s.push(a).last() == a);
}

pub proof fn lemma_total_yield_update(s: Seq<Asteroid>, k: int, a2: Asteroid)
    requires
        0 <= k < s.len(),
    ensures
        total_yield(s.update(k, a2)) == total_yield(s) - yield_of(s[k]) + yield_of(a2),
    decreases s.len(),
{
    let s2 = s.update(k, a2);
    if k == s.len() - 1 {
        assert(s2.drop_last() =~= s.drop_last());
        assert(s2.last() == a2);
    } else {
        assert(s2.drop_last() =~= s.drop_last().update(k, a2));
        lemma_total_yield_update(s.drop_last(), k, a2);
        assert(s2.last() == s.last());
    }
}

/// Two boards whose asteroids agree pointwise in validity and size have the
/// same total yield.
pub proof fn lemma_total_yield_pointwise(s: Seq<Asteroid>, s2: Seq<Asteroid>)
    requires
        s.len() == s2.len(),
        forall|i: int|
            0 <= i < s.len() ==> (#[trigger] s2[i]).valid == s[i].valid && s2[i].size == s[i].size,
    ensures
        total_yield(s2) == total_yield(s),
    decreases s.len(),
{
    if s.len() > 0 {
        assert(forall|i: int|
            0 <= i < s.len() - 1 ==> (#[trigger] s2.drop_last()[i]).valid == s.drop_last()[i].valid
                && s2.drop_last()[i].size == s.drop_last()[i].size);
        lemma_total_yield_pointwise(s.drop_last(), s2.drop_last());
        assert(s2.last() == s2[s.len() - 1]);
        assert(s.last() == s[s.len() - 1]);
    }
}

/// A bullet the controller owns: on the coordinate scale, no faster than
/// its muzzle speed of five pixels a frame.
pub open spec fn bullet_wf(b: Bullet) -> bool {
    &&& -COORD_BOUND <= b.x <= COORD_BOUND
    &&& -COORD_BOUND <= b.y <= COORD_BOUND
    &&& -5 * SCALE <= b.vx <= 5 * SCALE
    &&& -5 * SCALE <= b.vy <= 5 * SCALE
}

/// What an asteroid of the starting population looks like: a random even
/// size between six and twenty-four, freshly created, on the screen.
pub open spec fn initial_asteroid(a: Asteroid, w: int, h: int) -> bool {
    &&& 6 <= a.size <= 24
    &&& a.size % 2 == 0
    &&& Asteroid::fresh_at(a, a.size as int, a.x as int, a.y as int)
    &&& 0 <= a.x < w * SCALE
    &&& 0 <= a.y < h * SCALE
}

impl Game {
    /// The controller's invariant: the two tuning fields pinned, every owned
    /// entity well formed, the explosion and game-over counters inside their
    /// windows, and the score plus the score still obtainable from the board
    /// below `SCORE_ROOM`.
    pub open spec fn wf(self) -> bool {
        &&& self.MAX_SPEED == GAME_MAX_SPEED
        &&& self.D_ROT == 5 * PI_MICRO / 180
        &&& match self.myShip {
            Option::Some(s) => s.wf() && s.maxSpeed == GAME_MAX_SPEED,
            Option::None => true,
        }
        &&& (self.state == GameState::EXPLODED ==> self.myShip is Some
            && self.myShip->0.explosionAnimCount < EXPLOSION_FRAMES)
        &&& (forall|i: int| 0 <= i < self.bullets@.len() ==> bullet_wf(#[trigger] self.bullets@[i]))
        &&& (forall|i: int| 0 <= i < self.asteroids@.len() ==> (#[trigger] self.asteroids@[i]).wf())
        &&& 0 <= self.score
        &&& self.score + 10 * total_yield(self.asteroids@) <= SCORE_ROOM
        &&& 0 <= self.gameOverDisplayCount <= GAMEOVER_FRAMES
        &&& (self.state == GameState::GAMEOVER ==> self.gameOverDisplayCount < GAMEOVER_FRAMES)
    }

    /// A new controller sits on the title screen with three ships, no
    /// entities, and the fixed rotation step and speed cap.
    pub fn new() -> (g: Game)
        ensures
            g.state == GameState::TITLE,
            g.score == 0,
            g.nShips == START_SHIPS,
            g.nAsteroids == 0,
            g.D_ROT == 5 * PI_MICRO / 180,
            g.MAX_SPEED == GAME_MAX_SPEED,
            g.myShip is None,
            g.bullets@.len() == 0,
            g.asteroids@.len() == 0,
            g.gameOverDisplayCount == 0,
            g.wf(),
    {
        Game {
            state: GameState::TITLE,
            score: 0,
            nShips: START_SHIPS,
            nAsteroids: 0,
            MAX_SPEED: GAME_MAX_SPEED,
            D_ROT: deg2rad(5),
            myShip: Option::None,
            bullets: Vec::new(),
            asteroids: Vec::new(),
            gameOverDisplayCount: 0,
        }
    }

    /// Thrust input, honoured only while playing: the ship accelerates along
    /// the given heading (its current heading, scaled by `SCALE`), capped by
    /// the speed limit. In every other state the input is ignored.
    pub fn upPressed(&mut self, hx: i64, hy: i64)
        requires
            old(self).wf(),
            -SCALE <= hx <= SCALE,
            -SCALE <= hy <= SCALE,
        ensures
            final(self).wf(),
            (old(self).state == GameState::PLAY && old(self).myShip is Some) ==> *final(self)
                == (Game {
                myShip: Option::Some(old(self).myShip->0.thrusted(hx as int, hy as int)),
                ..*old(self)
            }),
            !(old(self).state == GameState::PLAY && old(self).myShip is Some) ==> *final(self)
                == *old(self),
    {
        match self.state {
            GameState::PLAY => {
                if let Option::Some(s) = self.myShip {
                    let mut sm = s;
                    sm.updateDir(hx, hy);
                    self.myShip = Option::Some(sm);
                }
            },
            _ => {},
        }
    }

    /// Rotate-left input, honoured only while playing: the ship's rotation
    /// decreases by the fixed rotation step.
    pub fn leftPressed(&mut self)
        requires
            old(self).wf(),
            match old(self).myShip {
                Option::Some(s) => i64::MIN + TWO_PI_MICRO <= s.rotation <= i64::MAX
                    - TWO_PI_MICRO,
                Option::None => true,
            },
        ensures
            final(self).wf(),
            (old(self).state == GameState::PLAY && old(self).myShip is Some) ==> *final(self)
                == (Game {
                myShip: Option::Some(MyShip {
                    rotation: (old(self).myShip->0.rotation - old(self).D_ROT) as i64,
                    ..old(self).myShip->0
                }),
                ..*old(self)
            }),
            !(old(self).state == GameState::PLAY && old(self).myShip is Some) ==> *final(self)
                == *old(self),
    {
        match self.state {
            GameState::PLAY => {
                if let Option::Some(s) = self.myShip {
                    let mut sm = s;
                    let d = self.D_ROT;
                    sm.incrRotation(-d);
                    self.myShip = Option::Some(sm);
                }
            },
            _ => {},
        }
    }

    /// Rotate-right input, honoured only while playing: the ship's rotation
    /// increases by the fixed rotation step.
    pub fn rightPressed(&mut self)
        requires
            old(self).wf(),
            match old(self).myShip {
                Option::Some(s) => i64::MIN + TWO_PI_MICRO <= s.rotation <= i64::MAX
                    - TWO_PI_MICRO,
                Option::None => true,
            },
        ensures
            final(self).wf(),
            (old(self).state == GameState::PLAY && old(self).myShip is Some) ==> *final(self)
                == (Game {
                myShip: Option::Some(MyShip {
                    rotation: (old(self).myShip->0.rotation + old(self).D_ROT) as i64,
                    ..old(self).myShip->0
                }),
                ..*old(self)
            }),
            !(old(self).state == GameState::PLAY && old(self).myShip is Some) ==> *final(self)
                == *old(self),
    {
        match self.state {
            GameState::PLAY => {
                if let Option::Some(s) = self.myShip {
                    let mut sm = s;
                    let d = self.D_ROT;
                    sm.incrRotation(d);
                    self.myShip = Option::Some(sm);
                }
            },
            _ => {},
        }
    }

    /// Fire input, honoured only while playing: a bullet leaves the ship's
    /// position at muzzle speed along the given heading (the ship's current
    /// heading, scaled by `SCALE`) and joins the pool.
    pub fn spacePressed(&mut self, hx: i64, hy: i64)
        requires
            old(self).wf(),
            -SCALE <= hx <= SCALE,
            -SCALE <= hy <= SCALE,
        ensures
            final(self).wf(),
            (old(self).state == GameState::PLAY && old(self).myShip is Some) ==> {
                &&& final(self).bullets@ == old(self).bullets@.push(
                    old(self).myShip->0.fired(hx as int, hy as int),
                )
                &&& eq_except_bullets(*old(self), *final(self))
            },
            !(old(self).state == GameState::PLAY && old(self).myShip is Some) ==> *final(self)
                == *old(self),
    {
        match self.state {
            GameState::PLAY => {
                if let Option::Some(s) = self.myShip {
                    let b = s.fire(hx, hy);
                    self.bullets.push(b);
                }
            },
            _ => {},
        }
    }

    /// Confirm input: on the title screen it starts a game; everywhere else
    /// it is ignored.
    pub fn enterPressed(&mut self)
        ensures
            old(self).state == GameState::TITLE ==> *final(self) == (Game {
                state: GameState::START,
                ..*old(self)
            }),
            old(self).state != GameState::TITLE ==> *final(self) == *old(self),
            old(self).wf() ==> final(self).wf(),
    {
        match self.state {
            GameState::TITLE => {
                self.state = GameState::START;
            },
            _ => {},
        }
    }

    /// The escape path is the host's: the controller ignores it.
    pub fn escapePressed(&mut self)
        ensures
            *final(self) == *old(self),
    {
    }

    /// Rebuilds the board for a fresh game: the ship centered and at rest,
    /// no bullets, and ten asteroids of random even sizes between six and
    /// twenty-four, scattered over the screen. The score is not touched
    /// here; the state machine clears it before calling this.
    pub fn init(&mut self, width: u32, height: u32)
        requires
            old(self).MAX_SPEED == GAME_MAX_SPEED,
            1 <= width <= DIM_MAX_PIXELS,
            1 <= height <= DIM_MAX_PIXELS,
        ensures
            final(self).myShip == Option::Some(MyShip {
                x: ((width as int / 2) * SCALE) as i64,
                y: ((height as int / 2) * SCALE) as i64,
                vx: 0,
                vy: 0,
                radius: SHIP_RADIUS,
                rotation: 0,
                maxSpeed: GAME_MAX_SPEED,
                explosionAnimCount: 0,
            }),
            final(self).bullets@.len() == 0,
            final(self).asteroids@.len() == START_ASTEROIDS,
            forall|i: int|
                0 <= i < final(self).asteroids@.len() ==> initial_asteroid(
                    #[trigger] final(self).asteroids@[i],
                    width as int,
                    height as int,
                ),
            total_yield(final(self).asteroids@) <= 40 * START_ASTEROIDS,
            final(self).nAsteroids == START_ASTEROIDS,
            final(self).state == old(self).state,
            final(self).score == old(self).score,
            final(self).nShips == old(self).nShips,
            final(self).D_ROT == old(self).D_ROT,
            final(self).MAX_SPEED == old(self).MAX_SPEED,
            final(self).gameOverDisplayCount == old(self).gameOverDisplayCount,
    {
        let cx = ((width / 2) as i64) * SCALE;
        let cy = ((height / 2) as i64) * SCALE;
        self.myShip = Option::Some(MyShip::new(cx, cy, SHIP_RADIUS, 0, self.MAX_SPEED));

        self.bullets = Vec::new();

        self.asteroids = Vec::new();

        self.nAsteroids = START_ASTEROIDS;
        let mut k: i32 = 0;
        while k < START_ASTEROIDS
            invariant
                0 <= k <= START_ASTEROIDS,
                1 <= width <= DIM_MAX_PIXELS,
                1 <= height <= DIM_MAX_PIXELS,
                self.myShip == Option::Some(MyShip {
                    x: ((width as int / 2) * SCALE) as i64,
                    y: ((height as int / 2) * SCALE) as i64,
                    vx: 0,
                    vy: 0,
                    radius: SHIP_RADIUS,
                    rotation: 0,
                    maxSpeed: GAME_MAX_SPEED,
                    explosionAnimCount: 0,
                }),
                self.bullets@.len() == 0,
                self.nAsteroids == START_ASTEROIDS,
                self.state == old(self).state,
                self.score == old(self).score,
                self.nShips == old(self).nShips,
                self.D_ROT == old(self).D_ROT,
                self.MAX_SPEED == old(self).MAX_SPEED,
                self.gameOverDisplayCount == old(self).gameOverDisplayCount,
                self.asteroids@.len() == k,
                forall|i: int|
                    0 <= i < self.asteroids@.len() ==> initial_asteroid(
                        #[trigger] self.asteroids@[i],
                        width as int,
                        height as int,
                    ),
                total_yield(self.asteroids@) <= 40 * k,
            decreases START_ASTEROIDS - k,
        {
            let draw = rand_between(3, 12);
            let sz: i32 = (2 * draw) as i32;
            let a = Asteroid::gen(sz, width, height);
            proof {
                lemma_total_yield_push(self.asteroids@, a);
                lemma_split_yield_mono(sz as int, 24);
                assert(split_yield(3) == 1);
                assert(split_yield(6) == 4);
                assert(split_yield(12) == 13);
                assert(split_yield(24) == 40);
            }
            self.asteroids.push(a);
            k = k + 1;
        }
    }

    /// One frame of the game: exactly one state's behaviour runs, as
    /// `frame_rel` lays it out, and the controller invariant is preserved.
    /// The screen dimensions come in on every call; a screen of at least
    /// fifteen pixels each way keeps a single wrap step on the screen even
    /// at the ship's top speed of fifteen pixels a frame.
    pub fn update(&mut self, width: u32, height: u32)
        requires
            old(self).wf(),
            15 <= width <= DIM_MAX_PIXELS,
            15 <= height <= DIM_MAX_PIXELS,
            old(self).nShips > i32::MIN,
        ensures
            frame_rel(*old(self), *final(self), width as int, height as int),
            final(self).wf(),
    {
        match self.state {
            GameState::TITLE => {},
            GameState::START => {
                self.score = 0;
                self.init(width, height);
                self.state = GameState::PLAY;
                proof {
                    lemma_total_yield_nonneg(self.asteroids@);
                }
            },
            GameState::PLAY => {
                match self.myShip {
                    Option::Some(s) => {
                        let mut sm = s;
                        proof {
                            s.lemma_speed_bounds_components();
                        }
                        sm.updatePos(width, height);
                        let sx = sm.getX();
                        let sy = sm.getY();
                        let hit = any_asteroid_hit(&self.asteroids, sx, sy);
                        if hit {
                            sm.clearExplosionAnimCount();
                            self.state = GameState::EXPLODED;
                        }
                        self.myShip = Option::Some(sm);
                    },
                    Option::None => {},
                }
                processBullets(
                    &mut self.bullets,
                    &mut self.asteroids,
                    &mut self.score,
                    width,
                    height,
                );
                let ghost amid = self.asteroids@;
                let ghost scmid = self.score as int;
                advance_asteroids(&mut self.asteroids, width, height);
                proof {
                    assert(bullets_rel(
                        old(self).bullets@,
                        old(self).asteroids@,
                        old(self).score as int,
                        width as int,
                        height as int,
                        self.bullets@,
                        amid,
                        self.score as int,
                    ));
                    assert(asteroids_stepped(
                        amid,
                        self.asteroids@,
                        width as int,
                        height as int,
                    ));
                }
            },
            GameState::EXPLODED => {
                match self.myShip {
                    Option::Some(s) => {
                        let mut sm = s;
                        let newAnimCount = sm.updateExplosionAnimCount();
                        if newAnimCount >= EXPLOSION_FRAMES {
                            self.state = GameState::DEAD;
                        }
                        self.myShip = Option::Some(sm);
                    },
                    Option::None => {},
                }
                advance_asteroids(&mut self.asteroids, width, height);
            },
            GameState::DEAD => {
                self.nShips = self.nShips - 1;
                if self.nShips <= 0 {
                    self.state = GameState::GAMEOVER;
                    self.gameOverDisplayCount = 0;
                } else {
                    self.state = GameState::PLAY;
                }
            },
            GameState::GAMEOVER => {
                advance_asteroids(&mut self.asteroids, width, height);
                self.gameOverDisplayCount = self.gameOverDisplayCount + 1;
                if self.gameOverDisplayCount >= GAMEOVER_FRAMES {
                    self.state = GameState::TITLE;
                }
            },
        }
    }

    /// Puts one more asteroid on the board. The board must still have room
    /// under the score measure for everything the newcomer can yield.
    pub fn placeAsteroid(&mut self, a: Asteroid)
        requires
            old(self).wf(),
            a.wf(),
            old(self).score + 10 * (total_yield(old(self).asteroids@) + split_yield(
                a.size as int,
            )) <= SCORE_ROOM,
        ensures
            final(self).asteroids@ == old(self).asteroids@.push(a),
            eq_except_asteroids(*old(self), *final(self)),
            final(self).wf(),
    {
        proof {
            lemma_total_yield_push(self.asteroids@, a);
        }
        self.asteroids.push(a);
    }

    pub fn getState(&self) -> (r: GameState)
        ensures
            r == self.state,
    {
        self.state
    }

    pub fn getScore(&self) -> (r: i32)
        ensures
            r == self.score,
    {
        self.score
    }

    pub fn getNShips(&self) -> (r: i32)
        ensures
            r == self.nShips,
    {
        self.nShips
    }

    pub fn getShip(&self) -> (r: Option<MyShip>)
        ensures
            r == self.myShip,
    {
        self.myShip
    }

    pub fn getBullets(&self) -> (r: &Vec<Bullet>)
        ensures
            r == self.bullets,
    {
        &self.bullets
    }

    pub fn getAsteroids(&self) -> (r: &Vec<Asteroid>)
        ensures
            r == self.asteroids,
    {
        &self.asteroids
    }

    pub fn getGameOverDisplayCount(&self) -> (r: i32)
        ensures
            r == self.gameOverDisplayCount,
    {
        self.gameOverDisplayCount
    }
}

/// A point the bullets may occupy: the screen area, edges included. A
/// bullet whose next position falls outside is taken out of play.
pub open spec fn in_bounds(px: int, py: int, w: int, h: int) -> bool {
    0 <= px && 0 <= py && px <= w * SCALE && py <= h * SCALE
}

/// One frame of bullet motion under the controller: an invalid bullet is
/// left alone; a valid one moves by its velocity, except that a move leading
/// off screen only invalidates it, leaving the position where it was.
pub open spec fn bullet_moved(b: Bullet, w: int, h: int) -> Bullet {
    if !b.valid {
        b
    } else {
        let nx = b.x + b.vx;
        let ny = b.y + b.vy;
        if !in_bounds(nx, ny, w, h) {
            Bullet { valid: false, ..b }
        } else {
            Bullet { x: nx as i64, y: ny as i64, ..b }
        }
    }
}

/// The bullet after `n` frames of motion with no asteroid in the way.
pub open spec fn bullet_flight(b: Bullet, w: int, h: int, n: nat) -> Bullet
    decreases n,
{
    if n == 0 {
        b
    } else {
        bullet_moved(bullet_flight(b, w, h, (n - 1) as nat), w, h)
    }
}

/// Bullet lifecycle, first half: while every position along the line stays
/// on the screen, a bullet travels in a straight line, its position after
/// `n` frames exactly its start plus `n` times its velocity, and it stays
/// in play.
pub proof fn lemma_bullet_travels(b: Bullet, w: int, h: int, n: nat)
    requires
        b.valid,
        forall|k: int| 1 <= k <= n ==> #[trigger] in_bounds(b.x + k * b.vx, b.y + k * b.vy, w, h),
        -COORD_BOUND <= b.x + n * b.vx <= COORD_BOUND,
        -COORD_BOUND <= b.y + n * b.vy <= COORD_BOUND,
        -COORD_BOUND <= b.x <= COORD_BOUND,
        -COORD_BOUND <= b.y <= COORD_BOUND,
        -5 * SCALE <= b.vx <= 5 * SCALE,
        -5 * SCALE <= b.vy <= 5 * SCALE,
    ensures
        bullet_flight(b, w, h, n) == (Bullet {
            x: (b.x + n * b.vx) as i64,
            y: (b.y + n * b.vy) as i64,
            ..b
        }),
    decreases n,
{
    if n > 0 {
        assert(forall|k: int|
            1 <= k <= n - 1 ==> #[trigger] in_bounds(b.x + k * b.vx, b.y + k * b.vy, w, h));
        assert((n - 1) * b.vx + b.vx == n * b.vx && (n - 1) * b.vy + b.vy == n * b.vy)
            by (nonlinear_arith);
        assert(-COORD_BOUND <= b.x + (n - 1) * b.vx <= COORD_BOUND && -COORD_BOUND <= b.y + (n
            - 1) * b.vy <= COORD_BOUND) by (nonlinear_arith)
            requires
                -COORD_BOUND <= b.x + n * b.vx <= COORD_BOUND,
                -COORD_BOUND <= b.x <= COORD_BOUND,
                -COORD_BOUND <= b.y + n * b.vy <= COORD_BOUND,
                -COORD_BOUND <= b.y <= COORD_BOUND,
                -5 * SCALE <= b.vx <= 5 * SCALE,
                -5 * SCALE <= b.vy <= 5 * SCALE,
                n >= 1,
        ;
        lemma_bullet_travels(b, w, h, (n - 1) as nat);
        let f = bullet_flight(b, w, h, (n - 1) as nat);
        assert(in_bounds(f.x + f.vx, f.y + f.vy, w, h));
    } else {
        assert(n * b.vx == 0 && n * b.vy == 0) by (nonlinear_arith)
            requires
                n == 0,
        ;
    }
}

/// Bullet lifecycle, second half: the first frame whose computed position
/// falls off the screen takes the bullet out of play, its position frozen
/// at the last on-screen point.
pub proof fn lemma_bullet_expires(b: Bullet, w: int, h: int, n: nat)
    requires
        b.valid,
        n >= 1,
        forall|k: int| 1 <= k < n ==> #[trigger] in_bounds(b.x + k * b.vx, b.y + k * b.vy, w, h),
        !in_bounds(b.x + n * b.vx, b.y + n * b.vy, w, h),
        -COORD_BOUND <= b.x + n * b.vx <= COORD_BOUND,
        -COORD_BOUND <= b.y + n * b.vy <= COORD_BOUND,
        -COORD_BOUND <= b.x <= COORD_BOUND,
        -COORD_BOUND <= b.y <= COORD_BOUND,
        -5 * SCALE <= b.vx <= 5 * SCALE,
        -5 * SCALE <= b.vy <= 5 * SCALE,
    ensures
        bullet_flight(b, w, h, n) == (Bullet {
            x: (b.x + (n - 1) * b.vx) as i64,
            y: (b.y + (n - 1) * b.vy) as i64,
            valid: false,
            ..b
        }),
{
    assert((n - 1) * b.vx + b.vx == n * b.vx && (n - 1) * b.vy + b.vy == n * b.vy)
        by (nonlinear_arith);
    assert(-COORD_BOUND <= b.x + (n - 1) * b.vx <= COORD_BOUND && -COORD_BOUND <= b.y + (n - 1)
        * b.vy <= COORD_BOUND) by (nonlinear_arith)
        requires
            -COORD_BOUND <= b.x + n * b.vx <= COORD_BOUND,
            -COORD_BOUND <= b.x <= COORD_BOUND,
            -COORD_BOUND <= b.y + n * b.vy <= COORD_BOUND,
            -COORD_BOUND <= b.y <= COORD_BOUND,
            -5 * SCALE <= b.vx <= 5 * SCALE,
            -5 * SCALE <= b.vy <= 5 * SCALE,
            n >= 1,
    ;
    lemma_bullet_travels(b, w, h, (n - 1) as nat);
}

/// An asteroid after a bullet lands at the given point: struck asteroids
/// are taken out of play, the rest are untouched.
pub open spec fn after_bullet(a: Asteroid, px: int, py: int) -> Asteroid {
    if a.valid && hits_point(a, px, py) {
        Asteroid { valid: false, ..a }
    } else {
        a
    }
}

/// The whole board after a bullet lands at the given point.
pub open spec fn hit_map(s: Seq<Asteroid>, px: int, py: int) -> Seq<Asteroid> {
    Seq::new(s.len(), |i: int| after_bullet(s[i], px, py))
}

/// How many asteroids of the board a bullet landing at the given point
/// strikes. One bullet can strike several overlapping asteroids at once,
/// and each one scores.
pub open spec fn hit_count(s: Seq<Asteroid>, px: int, py: int) -> int
    decreases s.len(),
{
    if s.len() == 0 {
        0
    } else {
        hit_count(s.drop_last(), px, py) + if s.last().valid && hits_point(s.last(), px, py) {
            1int
        } else {
            0int
        }
    }
}

pub proof fn lemma_hit_count_nonneg(s: Seq<Asteroid>, px: int, py: int)
    ensures
        hit_count(s, px, py) >= 0,
    decreases s.len(),
{
    if s.len() > 0 {
        lemma_hit_count_nonneg(s.drop_last(), px, py);
    }
}

/// A child fragment: a fresh asteroid of half the parent's size at the
/// parent's position.
pub open spec fn is_child_of(c: Asteroid, p: Asteroid) -> bool {
    Asteroid::fresh_at(c, p.size as int / 2, p.x as int, p.y as int)
}

/// The fragments one bullet strike leaves behind: scanning the board in
/// order, every struck asteroid of splittable size contributes exactly
/// three children, everything else contributes none.
pub open spec fn children_ok(s: Seq<Asteroid>, px: int, py: int, cs: Seq<Asteroid>) -> bool
    decreases s.len(),
{
    if s.len() == 0 {
        cs.len() == 0
    } else {
        let a = s.last();
        if a.valid && hits_point(a, px, py) && a.size >= SPLIT_MIN_SIZE {
            &&& cs.len() >= 3
            &&& is_child_of(cs[cs.len() - 3], a)
            &&& is_child_of(cs[cs.len() - 2], a)
            &&& is_child_of(cs[cs.len() - 1], a)
            &&& children_ok(s.drop_last(), px, py, cs.take(cs.len() - 3))
        } else {
            children_ok(s.drop_last(), px, py, cs)
        }
    }
}

/// What one bullet does to itself, the board and the score in one frame:
/// nothing if it is out of play; it leaves play (position frozen) if its
/// next point is off screen; otherwise it moves, every struck asteroid is
/// taken out of play and scores, the strikes' children are appended after
/// the board, and the bullet survives only if it struck nothing.
pub open spec fn bullet_step_rel(
    b: Bullet,
    a0: Seq<Asteroid>,
    sc0: int,
    w: int,
    h: int,
    b2: Bullet,
    a2: Seq<Asteroid>,
    sc2: int,
) -> bool {
    if !b.valid {
        b2 == b && a2 == a0 && sc2 == sc0
    } else {
        let nx = b.x + b.vx;
        let ny = b.y + b.vy;
        if !in_bounds(nx, ny, w, h) {
            b2 == (Bullet { valid: false, ..b }) && a2 == a0 && sc2 == sc0
        } else {
            &&& b2 == (Bullet {
                x: nx as i64,
                y: ny as i64,
                valid: hit_count(a0, nx, ny) == 0,
                ..b
            })
            &&& a2.len() >= a0.len()
            &&& a2.take(a0.len() as int) == hit_map(a0, nx, ny)
            &&& children_ok(a0, nx, ny, a2.skip(a0.len() as int))
            &&& sc2 == sc0 + 10 * hit_count(a0, nx, ny)
        }
    }
}

/// What the whole bullet pool does in one frame: the bullets act one after
/// the other, in storage order, each seeing the board and score the
/// previous one left behind.
pub open spec fn bullets_rel(
    bs: Seq<Bullet>,
    a0: Seq<Asteroid>,
    sc0: int,
    w: int,
    h: int,
    bs2: Seq<Bullet>,
    a2: Seq<Asteroid>,
    sc2: int,
) -> bool
    decreases bs.len(),
{
    if bs.len() == 0 {
        bs2.len() == 0 && a2 == a0 && sc2 == sc0
    } else {
        &&& bs2.len() == bs.len()
        &&& exists|amid: Seq<Asteroid>, scmid: int|
            {
                &&& bullets_rel(bs.drop_last(), a0, sc0, w, h, bs2.drop_last(), amid, scmid)
                &&& #[trigger] bullet_step_rel(bs.last(), amid, scmid, w, h, bs2.last(), a2, sc2)
            }
    }
}

/// Whether any live asteroid of the board covers the given point — the
/// ship-versus-board collision test.
pub open spec fn ship_hit_any(s: Seq<Asteroid>, px: int, py: int) -> bool {
    exists|i: int| 0 <= i < s.len() && (#[trigger] s[i]).valid && hits_point(s[i], px, py)
}

/// The whole board one frame of motion later: live asteroids move and turn,
/// dead ones are left alone.
pub open spec fn asteroids_stepped(s: Seq<Asteroid>, s2: Seq<Asteroid>, w: int, h: int) -> bool {
    &&& s2.len() == s.len()
    &&& forall|i: int|
        0 <= i < s.len() ==> #[trigger] s2[i] == (if s[i].valid {
            s[i].stepped(w, h)
        } else {
            s[i]
        })
}

/// A board's total yield covers each of its asteroids alone.
pub proof fn lemma_total_yield_ge_elem(s: Seq<Asteroid>, k: int)
    requires
        0 <= k < s.len(),
    ensures
        total_yield(s) >= yield_of(s[k]),
    decreases s.len(),
{
    if s.last().valid {
        lemma_split_yield_pos(s.last().size as int);
    }
    if k == s.len() - 1 {
        lemma_total_yield_nonneg(s.drop_last());
    } else {
        lemma_total_yield_ge_elem(s.drop_last(), k);
    }
}

/// Yield adds up over concatenation.
pub proof fn lemma_total_yield_concat(s: Seq<Asteroid>, t: Seq<Asteroid>)
    ensures
        total_yield(s + t) == total_yield(s) + total_yield(t),
    decreases t.len(),
{
    if t.len() == 0 {
        assert(s + t =~= s);
    } else {
        assert((s + t).drop_last() =~= s + t.drop_last());
        lemma_total_yield_concat(s, t.drop_last());
        assert((s + t).last() == t.last());
    }
}

/// Whether any live asteroid covers the given point.
fn any_asteroid_hit(asteroids: &Vec<Asteroid>, px: i64, py: i64) -> (r: bool)
    requires
        forall|i: int| 0 <= i < asteroids@.len() ==> (#[trigger] asteroids@[i]).wf(),
        -COORD_BOUND <= px <= COORD_BOUND,
        -COORD_BOUND <= py <= COORD_BOUND,
    ensures
        r == ship_hit_any(asteroids@, px as int, py as int),
{
    let n = asteroids.len();
    let mut k: usize = 0;
    while k < n
        invariant
            n == asteroids@.len(),
            0 <= k <= n,
            -COORD_BOUND <= px <= COORD_BOUND,
            -COORD_BOUND <= py <= COORD_BOUND,
            forall|i: int| 0 <= i < asteroids@.len() ==> (#[trigger] asteroids@[i]).wf(),
            forall|i: int|
                0 <= i < k ==> !((#[trigger] asteroids@[i]).valid && hits_point(
                    asteroids@[i],
                    px as int,
                    py as int,
                )),
        decreases n - k,
    {
        if asteroids[k].getValid() && asteroids[k].hitTest(px, py) {
            proof {
                assert((asteroids@[k as int]).valid);
            }
            return true;
        }
        k = k + 1;
    }
    false
}

/// Books one strike on asteroid `k`: it leaves play, the score grows by the
/// fixed amount, and — if it was big enough to split — exactly three fresh
/// half-size fragments at its position join the pending children. The score
/// plus ten times the total yield of board and children together does not
/// change: a strike converts yield into score one for one.
pub fn hitAsteroid(asteroids: &mut Vec<Asteroid>, k: usize, children: &mut Vec<Asteroid>, score: &mut i32)
    requires
        k < old(asteroids)@.len(),
        forall|i: int| 0 <= i < old(asteroids)@.len() ==> (#[trigger] old(asteroids)@[i]).wf(),
        forall|i: int| 0 <= i < old(children)@.len() ==> (#[trigger] old(children)@[i]).wf(),
        old(asteroids)@[k as int].valid,
        0 <= *old(score),
        *old(score) + 10 * (total_yield(old(asteroids)@) + total_yield(old(children)@))
            <= SCORE_ROOM,
    ensures
        final(asteroids)@ == old(asteroids)@.update(
            k as int,
            (Asteroid { valid: false, ..old(asteroids)@[k as int] }),
        ),
        *final(score) == *old(score) + SCORE_PER_HIT,
        old(asteroids)@[k as int].size >= SPLIT_MIN_SIZE ==> {
            &&& final(children)@.len() == old(children)@.len() + 3
            &&& final(children)@.take(old(children)@.len() as int) == old(children)@
            &&& is_child_of(
                final(children)@[old(children)@.len() as int],
                old(asteroids)@[k as int],
            )
            &&& is_child_of(
                final(children)@[old(children)@.len() as int + 1],
                old(asteroids)@[k as int],
            )
            &&& is_child_of(
                final(children)@[old(children)@.len() as int + 2],
                old(asteroids)@[k as int],
            )
        },
        old(asteroids)@[k as int].size < SPLIT_MIN_SIZE ==> final(children)@ == old(children)@,
        forall|i: int| 0 <= i < final(children)@.len() ==> (#[trigger] final(children)@[i]).wf(),
        forall|i: int| 0 <= i < final(asteroids)@.len() ==> (#[trigger] final(asteroids)@[i]).wf(),
        *final(score) + 10 * (total_yield(final(asteroids)@) + total_yield(final(children)@))
            == *old(score) + 10 * (total_yield(old(asteroids)@) + total_yield(old(children)@)),
        0 <= *final(score),
{
    let ghost a_orig = asteroids@[k as int];
    let ax = asteroids[k].getX();
    let ay = asteroids[k].getY();
    let asize = asteroids[k].getSize();
    proof {
        lemma_total_yield_ge_elem(asteroids@, k as int);
        lemma_total_yield_nonneg(children@);
        lemma_split_yield_pos(asize as int);
        lemma_total_yield_update(
            asteroids@,
            k as int,
            Asteroid { valid: false, ..asteroids@[k as int] },
        );
    }
    let a = &mut asteroids[k];
    a.setValid(false);
    *score = *score + SCORE_PER_HIT;
    if asize >= SPLIT_MIN_SIZE {
        let newSize = asize / 2;
        let c1 = Asteroid::new(newSize, ax, ay);
        proof {
            lemma_total_yield_push(children@, c1);
        }
        children.push(c1);
        let c2 = Asteroid::new(newSize, ax, ay);
        proof {
            lemma_total_yield_push(children@, c2);
        }
        children.push(c2);
        let c3 = Asteroid::new(newSize, ax, ay);
        proof {
            lemma_total_yield_push(children@, c3);
        }
        children.push(c3);
        proof {
            assert(final(children)@.take(old(children)@.len() as int) =~= old(children)@);
            assert(split_yield(a_orig.size as int) == 1 + 3 * split_yield(
                a_orig.size as int / 2,
            ));
        }
    }
}

/// Scans the whole board once for a bullet that landed at the given point:
/// every live asteroid covering the point is struck (the scan does not stop
/// at the first), and the children of all splits are returned in scan
/// order. Reports whether anything was struck at all.
fn bullet_scan(asteroids: &mut Vec<Asteroid>, nx: i64, ny: i64, score: &mut i32) -> (res: (
    Vec<Asteroid>,
    bool,
))
    requires
        forall|i: int| 0 <= i < old(asteroids)@.len() ==> (#[trigger] old(asteroids)@[i]).wf(),
        -COORD_BOUND <= nx <= COORD_BOUND,
        -COORD_BOUND <= ny <= COORD_BOUND,
        0 <= *old(score),
        *old(score) + 10 * total_yield(old(asteroids)@) <= SCORE_ROOM,
    ensures
        final(asteroids)@ == hit_map(old(asteroids)@, nx as int, ny as int),
        children_ok(old(asteroids)@, nx as int, ny as int, res.0@),
        res.1 == (hit_count(old(asteroids)@, nx as int, ny as int) > 0),
        *final(score) == *old(score) + SCORE_PER_HIT * hit_count(
            old(asteroids)@,
            nx as int,
            ny as int,
        ),
        forall|i: int| 0 <= i < final(asteroids)@.len() ==> (#[trigger] final(asteroids)@[i]).wf(),
        forall|i: int| 0 <= i < res.0@.len() ==> (#[trigger] res.0@[i]).wf(),
        *final(score) + 10 * (total_yield(final(asteroids)@) + total_yield(res.0@)) == *old(
            score,
        ) + 10 * total_yield(old(asteroids)@),
        0 <= *final(score),
{
    let mut children: Vec<Asteroid> = Vec::new();
    let mut hit: bool = false;
    let n = asteroids.len();
    let mut k: usize = 0;
    while k < n
        invariant
            n == old(asteroids)@.len(),
            asteroids@.len() == n,
            0 <= k <= n,
            -COORD_BOUND <= nx <= COORD_BOUND,
            -COORD_BOUND <= ny <= COORD_BOUND,
            forall|i: int| k <= i < n ==> #[trigger] asteroids@[i] == old(asteroids)@[i],
            forall|i: int|
                0 <= i < k ==> #[trigger] asteroids@[i] == after_bullet(
                    old(asteroids)@[i],
                    nx as int,
                    ny as int,
                ),
            forall|i: int| 0 <= i < asteroids@.len() ==> (#[trigger] asteroids@[i]).wf(),
            forall|i: int| 0 <= i < children@.len() ==> (#[trigger] children@[i]).wf(),
            children_ok(old(asteroids)@.take(k as int), nx as int, ny as int, children@),
            hit == (hit_count(old(asteroids)@.take(k as int), nx as int, ny as int) > 0),
            *score == *old(score) + SCORE_PER_HIT * hit_count(
                old(asteroids)@.take(k as int),
                nx as int,
                ny as int,
            ),
            *score + 10 * (total_yield(asteroids@) + total_yield(children@)) == *old(score) + 10
                * total_yield(old(asteroids)@),
            0 <= *score,
            *old(score) + 10 * total_yield(old(asteroids)@) <= SCORE_ROOM,
        decreases n - k,
    {
        let ghost prefix = old(asteroids)@.take(k as int);
        let ghost prefix1 = old(asteroids)@.take(k as int + 1);
        proof {
            assert(prefix1.drop_last() =~= prefix);
            assert(prefix1.last() == old(asteroids)@[k as int]);
            lemma_hit_count_nonneg(prefix, nx as int, ny as int);
        }
        let valid = asteroids[k].getValid();
        let struck = if valid {
            asteroids[k].hitTest(nx, ny)
        } else {
            false
        };
        if struck {
            let ghost children_before = children@;
            hitAsteroid(asteroids, k, &mut children, score);
            hit = true;
            proof {
                if old(asteroids)@[k as int].size >= SPLIT_MIN_SIZE {
                    assert(children@.take(children_before.len() as int) == children_before);
                }
            }
        }
        k = k + 1;
    }
    proof {
        assert(old(asteroids)@.take(n as int) =~= old(asteroids)@);
        assert(asteroids@ =~= hit_map(old(asteroids)@, nx as int, ny as int));
    }
    (children, hit)
}

/// One bullet's whole frame: move, invalidate off screen, strike the board,
/// append the split children after the board. Converts yield into score one
/// for one, so the combined measure is untouched.
fn step_bullet(b: &mut Bullet, asteroids: &mut Vec<Asteroid>, score: &mut i32, width: u32, height: u32)
    requires
        bullet_wf(*old(b)),
        forall|i: int| 0 <= i < old(asteroids)@.len() ==> (#[trigger] old(asteroids)@[i]).wf(),
        0 <= *old(score),
        *old(score) + 10 * total_yield(old(asteroids)@) <= SCORE_ROOM,
        1 <= width <= DIM_MAX_PIXELS,
        1 <= height <= DIM_MAX_PIXELS,
    ensures
        bullet_step_rel(
            *old(b),
            old(asteroids)@,
            *old(score) as int,
            width as int,
            height as int,
            *final(b),
            final(asteroids)@,
            *final(score) as int,
        ),
        bullet_wf(*final(b)),
        forall|i: int| 0 <= i < final(asteroids)@.len() ==> (#[trigger] final(asteroids)@[i]).wf(),
        *final(score) + 10 * total_yield(final(asteroids)@) == *old(score) + 10 * total_yield(
            old(asteroids)@,
        ),
        0 <= *final(score),
{
    if b.getValid() {
        let nx = b.getX() + b.getVx();
        let ny = b.getY() + b.getVy();
        let wm = (width as i64) * SCALE;
        let hm = (height as i64) * SCALE;
        if nx < 0 || ny < 0 || nx > wm || ny > hm {
            b.setValid(false);
        } else {
            b.setX(nx);
            b.setY(ny);
            let (mut children, hit) = bullet_scan(asteroids, nx, ny, score);
            proof {
                lemma_hit_count_nonneg(old(asteroids)@, nx as int, ny as int);
            }
            if hit {
                b.setValid(false);
            }
            let ghost struck_board = asteroids@;
            let ghost kids = children@;
            proof {
                lemma_total_yield_concat(struck_board, kids);
            }
            asteroids.append(&mut children);
            proof {
                assert(asteroids@.take(old(asteroids)@.len() as int) =~= struck_board);
                assert(asteroids@.skip(old(asteroids)@.len() as int) =~= kids);
            }
        }
    }
}

/// One frame of the whole bullet pool: the bullets act in storage order,
/// each against the board and score the previous one left behind. The
/// combined measure of score and remaining yield is untouched.
pub fn processBullets(
    bullets: &mut Vec<Bullet>,
    asteroids: &mut Vec<Asteroid>,
    score: &mut i32,
    width: u32,
    height: u32,
)
    requires
        forall|i: int| 0 <= i < old(bullets)@.len() ==> bullet_wf(#[trigger] old(bullets)@[i]),
        forall|i: int| 0 <= i < old(asteroids)@.len() ==> (#[trigger] old(asteroids)@[i]).wf(),
        0 <= *old(score),
        *old(score) + 10 * total_yield(old(asteroids)@) <= SCORE_ROOM,
        1 <= width <= DIM_MAX_PIXELS,
        1 <= height <= DIM_MAX_PIXELS,
    ensures
        bullets_rel(
            old(bullets)@,
            old(asteroids)@,
            *old(score) as int,
            width as int,
            height as int,
            final(bullets)@,
            final(asteroids)@,
            *final(score) as int,
        ),
        forall|i: int| 0 <= i < final(bullets)@.len() ==> bullet_wf(#[trigger] final(bullets)@[i]),
        forall|i: int| 0 <= i < final(asteroids)@.len() ==> (#[trigger] final(asteroids)@[i]).wf(),
        *final(score) + 10 * total_yield(final(asteroids)@) == *old(score) + 10 * total_yield(
            old(asteroids)@,
        ),
        0 <= *final(score),
        final(bullets)@.len() == old(bullets)@.len(),
{
    let n = bullets.len();
    let mut k: usize = 0;
    while k < n
        invariant
            n == old(bullets)@.len(),
            bullets@.len() == n,
            0 <= k <= n,
            1 <= width <= DIM_MAX_PIXELS,
            1 <= height <= DIM_MAX_PIXELS,
            forall|i: int| k <= i < n ==> #[trigger] bullets@[i] == old(bullets)@[i],
            forall|i: int| 0 <= i < bullets@.len() ==> bullet_wf(#[trigger] bullets@[i]),
            forall|i: int| 0 <= i < asteroids@.len() ==> (#[trigger] asteroids@[i]).wf(),
            bullets_rel(
                old(bullets)@.take(k as int),
                old(asteroids)@,
                *old(score) as int,
                width as int,
                height as int,
                bullets@.take(k as int),
                asteroids@,
                *score as int,
            ),
            *score + 10 * total_yield(asteroids@) == *old(score) + 10 * total_yield(
                old(asteroids)@,
            ),
            0 <= *score,
            *old(score) + 10 * total_yield(old(asteroids)@) <= SCORE_ROOM,
        decreases n - k,
    {
        let ghost amid = asteroids@;
        let ghost scmid = *score as int;
        let ghost bs_pre = bullets@.take(k as int);
        let mut bb = bullets[k];
        proof {
            lemma_total_yield_nonneg(asteroids@);
        }
        step_bullet(&mut bb, asteroids, score, width, height);
        bullets.set(k, bb);
        proof {
            let bs_old1 = old(bullets)@.take(k as int + 1);
            let bs_new1 = bullets@.take(k as int + 1);
            assert(bs_old1.drop_last() =~= old(bullets)@.take(k as int));
            assert(bs_new1.drop_last() =~= bs_pre);
            assert(bs_old1.last() == old(bullets)@[k as int]);
            assert(bs_new1.last() == bb);
            assert(bullets_rel(
                bs_old1.drop_last(),
                old(asteroids)@,
                *old(score) as int,
                width as int,
                height as int,
                bs_new1.drop_last(),
                amid,
                scmid,
            ));
            assert(bullet_step_rel(
                bs_old1.last(),
                amid,
                scmid,
                width as int,
                height as int,
                bs_new1.last(),
                asteroids@,
                *score as int,
            ));
            assert(bullets_rel(
                bs_old1,
                old(asteroids)@,
                *old(score) as int,
                width as int,
                height as int,
                bs_new1,
                asteroids@,
                *score as int,
            ));
        }
        k = k + 1;
    }
    proof {
        assert(old(bullets)@.take(n as int) =~= old(bullets)@);
        assert(bullets@.take(n as int) =~= bullets@);
    }
}

/// One frame of motion for the whole board: live asteroids move and turn,
/// dead ones are left alone. Yield is untouched: motion destroys nothing.
fn advance_asteroids(asteroids: &mut Vec<Asteroid>, width: u32, height: u32)
    requires
        forall|i: int| 0 <= i < old(asteroids)@.len() ==> (#[trigger] old(asteroids)@[i]).wf(),
        2 <= width <= DIM_MAX_PIXELS,
        2 <= height <= DIM_MAX_PIXELS,
    ensures
        asteroids_stepped(old(asteroids)@, final(asteroids)@, width as int, height as int),
        forall|i: int| 0 <= i < final(asteroids)@.len() ==> (#[trigger] final(asteroids)@[i]).wf(),
        total_yield(final(asteroids)@) == total_yield(old(asteroids)@),
{
    let n = asteroids.len();
    let mut k: usize = 0;
    while k < n
        invariant
            n == old(asteroids)@.len(),
            asteroids@.len() == n,
            0 <= k <= n,
            2 <= width <= DIM_MAX_PIXELS,
            2 <= height <= DIM_MAX_PIXELS,
            forall|i: int| k <= i < n ==> #[trigger] asteroids@[i] == old(asteroids)@[i],
            forall|i: int|
                0 <= i < k ==> #[trigger] asteroids@[i] == (if old(asteroids)@[i].valid {
                    old(asteroids)@[i].stepped(width as int, height as int)
                } else {
                    old(asteroids)@[i]
                }),
            forall|i: int| 0 <= i < asteroids@.len() ==> (#[trigger] asteroids@[i]).wf(),
        decreases n - k,
    {
        let valid = asteroids[k].getValid();
        if valid {
            let a = &mut asteroids[k];
            a.update(width, height);
        }
        k = k + 1;
    }
    proof {
        lemma_total_yield_pointwise(old(asteroids)@, asteroids@);
    }
}

/// The two games agree on every field but the bullet pool.
pub open spec fn eq_except_bullets(g: Game, g2: Game) -> bool {
    &&& g2.state == g.state
    &&& g2.score == g.score
    &&& g2.nShips == g.nShips
    &&& g2.nAsteroids == g.nAsteroids
    &&& g2.D_ROT == g.D_ROT
    &&& g2.MAX_SPEED == g.MAX_SPEED
    &&& g2.myShip == g.myShip
    &&& g2.asteroids@ == g.asteroids@
    &&& g2.gameOverDisplayCount == g.gameOverDisplayCount
}

/// The two games agree on every field but the asteroid board.
pub open spec fn eq_except_asteroids(g: Game, g2: Game) -> bool {
    &&& g2.state == g.state
    &&& g2.score == g.score
    &&& g2.nShips == g.nShips
    &&& g2.nAsteroids == g.nAsteroids
    &&& g2.D_ROT == g.D_ROT
    &&& g2.MAX_SPEED == g.MAX_SPEED
    &&& g2.myShip == g.myShip
    &&& g2.bullets@ == g.bullets@
    &&& g2.gameOverDisplayCount == g.gameOverDisplayCount
}

/// The ship a fresh game starts with: centered, at rest, pointing right.
pub open spec fn start_ship(w: int, h: int) -> MyShip {
    MyShip {
        x: ((w / 2) * SCALE) as i64,
        y: ((h / 2) * SCALE) as i64,
        vx: 0,
        vy: 0,
        radius: SHIP_RADIUS,
        rotation: 0,
        maxSpeed: GAME_MAX_SPEED,
        explosionAnimCount: 0,
    }
}

/// The frame that starts a game: the score cleared, the board rebuilt, and
/// play begins. Entities do not move this frame.
pub open spec fn start_rel(g: Game, g2: Game, w: int, h: int) -> bool {
    &&& g2.state == GameState::PLAY
    &&& g2.score == 0
    &&& g2.myShip == Option::Some(start_ship(w, h))
    &&& g2.bullets@.len() == 0
    &&& g2.asteroids@.len() == START_ASTEROIDS
    &&& (forall|i: int|
        0 <= i < g2.asteroids@.len() ==> initial_asteroid(#[trigger] g2.asteroids@[i], w, h))
    &&& g2.nAsteroids == START_ASTEROIDS
    &&& g2.nShips == g.nShips
    &&& g2.D_ROT == g.D_ROT
    &&& g2.MAX_SPEED == g.MAX_SPEED
    &&& g2.gameOverDisplayCount == g.gameOverDisplayCount
}

/// A playing frame: the ship moves first and is tested against the board —
/// a strike begins the explosion and the state change, though the rest of
/// the frame still runs. The bullets then act in order, and finally the
/// whole board moves. The state change takes effect next frame.
pub open spec fn play_rel(g: Game, g2: Game, w: int, h: int) -> bool {
    &&& match g.myShip {
        Option::Some(s) => {
            let sm = s.moved(w, h);
            let hit = ship_hit_any(g.asteroids@, sm.x as int, sm.y as int);
            &&& g2.myShip == Option::Some(
                if hit {
                    MyShip { explosionAnimCount: 0, ..sm }
                } else {
                    sm
                },
            )
            &&& g2.state == (if hit {
                GameState::EXPLODED
            } else {
                GameState::PLAY
            })
        },
        Option::None => g2.myShip is None && g2.state == GameState::PLAY,
    }
    &&& exists|amid: Seq<Asteroid>|
        {
            &&& #[trigger] bullets_rel(
                g.bullets@,
                g.asteroids@,
                g.score as int,
                w,
                h,
                g2.bullets@,
                amid,
                g2.score as int,
            )
            &&& asteroids_stepped(amid, g2.asteroids@, w, h)
        }
    &&& g2.nShips == g.nShips
    &&& g2.nAsteroids == g.nAsteroids
    &&& g2.D_ROT == g.D_ROT
    &&& g2.MAX_SPEED == g.MAX_SPEED
    &&& g2.gameOverDisplayCount == g.gameOverDisplayCount
}

/// An explosion frame: the ring animation advances and ends the ship's life
/// at its last frame; the board keeps moving around the wreck; the bullets
/// are frozen.
pub open spec fn exploded_rel(g: Game, g2: Game, w: int, h: int) -> bool {
    &&& match g.myShip {
        Option::Some(s) => {
            let c = s.explosionAnimCount + 1;
            &&& g2.myShip == Option::Some(MyShip { explosionAnimCount: c as i32, ..s })
            &&& g2.state == (if c >= EXPLOSION_FRAMES {
                GameState::DEAD
            } else {
                GameState::EXPLODED
            })
        },
        Option::None => g2.myShip is None && g2.state == GameState::EXPLODED,
    }
    &&& asteroids_stepped(g.asteroids@, g2.asteroids@, w, h)
    &&& g2.bullets@ == g.bullets@
    &&& g2.score == g.score
    &&& g2.nShips == g.nShips
    &&& g2.nAsteroids == g.nAsteroids
    &&& g2.D_ROT == g.D_ROT
    &&& g2.MAX_SPEED == g.MAX_SPEED
    &&& g2.gameOverDisplayCount == g.gameOverDisplayCount
}

/// The frame after a ship is lost: one ship fewer. With none left the game
/// ends and the game-over clock starts; otherwise play resumes at once —
/// ship and board persist exactly as they were, nothing is re-initialized.
pub open spec fn dead_rel(g: Game, g2: Game) -> bool {
    &&& g2.nShips == g.nShips - 1
    &&& (if g.nShips - 1 <= 0 {
        g2.state == GameState::GAMEOVER && g2.gameOverDisplayCount == 0
    } else {
        g2.state == GameState::PLAY && g2.gameOverDisplayCount == g.gameOverDisplayCount
    })
    &&& g2.myShip == g.myShip
    &&& g2.bullets@ == g.bullets@
    &&& g2.asteroids@ == g.asteroids@
    &&& g2.score == g.score
    &&& g2.nAsteroids == g.nAsteroids
    &&& g2.D_ROT == g.D_ROT
    &&& g2.MAX_SPEED == g.MAX_SPEED
}

/// A game-over frame: the board keeps drifting, the display clock ticks,
/// and after its window the controller returns to the title screen.
pub open spec fn gameover_rel(g: Game, g2: Game, w: int, h: int) -> bool {
    &&& asteroids_stepped(g.asteroids@, g2.asteroids@, w, h)
    &&& g2.gameOverDisplayCount == g.gameOverDisplayCount + 1
    &&& g2.state == (if g.gameOverDisplayCount + 1 >= GAMEOVER_FRAMES {
        GameState::TITLE
    } else {
        GameState::GAMEOVER
    })
    &&& g2.myShip == g.myShip
    &&& g2.bullets@ == g.bullets@
    &&& g2.score == g.score
    &&& g2.nShips == g.nShips
    &&& g2.nAsteroids == g.nAsteroids
    &&& g2.D_ROT == g.D_ROT
    &&& g2.MAX_SPEED == g.MAX_SPEED
}

/// What one call of `update` does, by the state it starts in. On the title
/// screen the controller only waits.
pub open spec fn frame_rel(g: Game, g2: Game, w: int, h: int) -> bool {
    match g.state {
        GameState::TITLE => g2 == g,
        GameState::START => start_rel(g, g2, w, h),
        GameState::PLAY => play_rel(g, g2, w, h),
        GameState::EXPLODED => exploded_rel(g, g2, w, h),
        GameState::DEAD => dead_rel(g, g2),
        GameState::GAMEOVER => gameover_rel(g, g2, w, h),
    }
}

} // verus!
