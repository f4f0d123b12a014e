use asteroid::asteroid::Asteroid;
use asteroid::bullet::Bullet;
use asteroid::game::processBullets;
use asteroid::ship::MyShip;
use asteroid::util::{deg2rad, half_of, wrap_add, wrap_turn, TWO_PI_MICRO};

fn still_asteroid(size: i32, x: i64, y: i64, radius: i64) -> Asteroid {
    Asteroid {
        x,
        y,
        vx: 0,
        vy: 0,
        rot: 0,
        drot: 0,
        size,
        shape: vec![radius; size as usize],
        meanRadius: radius,
        valid: true,
    }
}

#[test]
fn deg2rad_exact_values() {
    assert_eq!(deg2rad(0), 0);
    assert_eq!(deg2rad(5), 87266);
    assert_eq!(deg2rad(90), 1570796);
    assert_eq!(deg2rad(180), 3141593);
}

#[test]
fn half_of_rounds_toward_zero() {
    assert_eq!(half_of(1000), 500);
    assert_eq!(half_of(-1000), -500);
    assert_eq!(half_of(5), 2);
    assert_eq!(half_of(-5), -2);
    assert_eq!(half_of(0), 0);
}

#[test]
fn wrap_add_edges() {
    // crossing the lower edge adds one dimension
    assert_eq!(wrap_add(10, -20, 1000), 990);
    // crossing the upper edge subtracts one dimension
    assert_eq!(wrap_add(990, 20, 1000), 10);
    // exactly reaching the dimension wraps to zero
    assert_eq!(wrap_add(990, 10, 1000), 0);
    // staying inside changes nothing but the sum
    assert_eq!(wrap_add(500, 20, 1000), 520);
}

#[test]
fn wrap_turn_is_asymmetric_at_the_edges() {
    // below zero wraps immediately
    assert_eq!(wrap_turn(-5), TWO_PI_MICRO - 5);
    // above a full turn wraps only strictly past it
    assert_eq!(wrap_turn(TWO_PI_MICRO + 3), 3);
    assert_eq!(wrap_turn(TWO_PI_MICRO), TWO_PI_MICRO);
    assert_eq!(wrap_turn(0), 0);
}

#[test]
fn ship_starts_at_rest() {
    let s = MyShip::new(100, 200, 10_000, 7, 15_000);
    assert_eq!(s.getX(), 100);
    assert_eq!(s.getY(), 200);
    assert_eq!(s.getVx(), 0);
    assert_eq!(s.getVy(), 0);
    assert_eq!(s.getRadius(), 10_000);
    assert_eq!(s.getRotation(), 7);
    assert_eq!(s.getMaxSpeed(), 15_000);
    assert_eq!(s.getExplosionAnimCount(), 0);
}

#[test]
fn thrust_converges_just_below_the_cap() {
    let mut s = MyShip::new(0, 0, 10_000, 0, 15_000);
    for _ in 0..40 {
        s.updateDir(1000, 0);
        let vx = s.getVx();
        let vy = s.getVy();
        assert!(vx * vx + vy * vy < 15_000 * 15_000);
    }
    // half a heading unit per accepted thrust, stuck just below the cap
    assert_eq!(s.getVx(), 14_500);
    assert_eq!(s.getVy(), 0);
    // one more thrust is a no-op
    s.updateDir(1000, 0);
    assert_eq!(s.getVx(), 14_500);
}

#[test]
fn thrust_cap_holds_for_any_heading() {
    let mut s = MyShip::new(0, 0, 10_000, 0, 15_000);
    let angle: f64 = 0.7;
    let hx = (angle.cos() * 1000.0) as i64;
    let hy = (angle.sin() * 1000.0) as i64;
    for _ in 0..200 {
        s.updateDir(hx, hy);
        let vx = s.getVx();
        let vy = s.getVy();
        assert!(vx * vx + vy * vy < 15_000 * 15_000);
    }
}

#[test]
fn ship_wraps_both_edges() {
    let mut s = MyShip {
        x: 1_279_500,
        y: 100,
        vx: 1000,
        vy: -500,
        radius: 10_000,
        rotation: 0,
        maxSpeed: 15_000,
        explosionAnimCount: 0,
    };
    s.updatePos(1280, 900);
    assert_eq!(s.getX(), 500);
    assert_eq!(s.getY(), 899_600);
}

#[test]
fn ship_rotation_is_unbounded() {
    let mut s = MyShip::new(0, 0, 10_000, 0, 15_000);
    s.incrRotation(-87_266);
    assert_eq!(s.getRotation(), -87_266);
    for _ in 0..100 {
        s.incrRotation(87_266);
    }
    assert_eq!(s.getRotation(), 99 * 87_266);
}

#[test]
fn explosion_counter_ticks() {
    let mut s = MyShip::new(0, 0, 10_000, 0, 15_000);
    assert_eq!(s.updateExplosionAnimCount(), 1);
    assert_eq!(s.updateExplosionAnimCount(), 2);
    s.clearExplosionAnimCount();
    assert_eq!(s.getExplosionAnimCount(), 0);
}

#[test]
fn fire_gives_muzzle_speed_along_heading() {
    let s = MyShip::new(5000, 6000, 10_000, 0, 15_000);
    let b = s.fire(1000, 0);
    assert_eq!(b.getX(), 5000);
    assert_eq!(b.getY(), 6000);
    assert_eq!(b.getVx(), 5000);
    assert_eq!(b.getVy(), 0);
    assert!(b.getValid());

    let b2 = s.fire(-707, 707);
    assert_eq!(b2.getVx(), -3535);
    assert_eq!(b2.getVy(), 3535);
}

#[test]
fn bullet_setters_and_getters() {
    let mut b = Bullet::new(1, 2, 3, 4);
    assert!(b.getValid());
    b.setX(10);
    b.setY(20);
    b.setVx(30);
    b.setVy(40);
    b.setValid(false);
    assert_eq!(b.getX(), 10);
    assert_eq!(b.getY(), 20);
    assert_eq!(b.getVx(), 30);
    assert_eq!(b.getVy(), 40);
    assert!(!b.getValid());
}

#[test]
fn new_asteroid_respects_its_ranges() {
    let a = Asteroid::new(6, 100, 200);
    assert_eq!(a.getX(), 100);
    assert_eq!(a.getY(), 200);
    assert_eq!(a.getSize(), 6);
    assert!(a.getValid());
    let shape = a.getShape();
    assert_eq!(shape.len(), 6);
    let mut sum: i64 = 0;
    for &r in shape.iter() {
        assert!((2000..=22_000).contains(&r));
        sum += r.abs();
    }
    assert_eq!(a.getMeanRadius(), sum / 6);
    assert!((0..TWO_PI_MICRO).contains(&a.getRot()));
    assert!((-2000..=2000).contains(&a.vx));
    assert!((-2000..=2000).contains(&a.vy));
    assert!((-43_633..=43_633).contains(&a.drot));
}

#[test]
fn random_asteroid_lands_on_the_screen() {
    for _ in 0..20 {
        let a = Asteroid::gen(8, 1280, 900);
        assert!((0..1_280_000).contains(&a.getX()));
        assert!((0..900_000).contains(&a.getY()));
        assert_eq!(a.getSize(), 8);
    }
}

#[test]
fn asteroid_wraps_and_turns() {
    let mut a = still_asteroid(6, 1_279_500, 10, 12_000);
    a.vx = 1000;
    a.vy = -500;
    a.rot = 6_283_000;
    a.drot = 43_633;
    a.update(1280, 900);
    assert_eq!(a.getX(), 500);
    assert_eq!(a.getY(), 899_510);
    // 6_283_000 + 43_633 exceeds a full turn and wraps once
    assert_eq!(a.getRot(), 6_283_000 + 43_633 - TWO_PI_MICRO);
}

#[test]
fn hit_test_is_a_strict_distance_compare() {
    let a = still_asteroid(6, 100_000, 200_000, 5000);
    // one unit inside the mean radius
    assert!(a.hitTest(104_999, 200_000));
    // exactly the mean radius away: a miss
    assert!(!a.hitTest(105_000, 200_000));
    // the three-four-five triangle lands exactly on the edge: a miss
    assert!(!a.hitTest(103_000, 204_000));
    assert!(a.hitTest(103_000, 203_999));
    // dead center is always a strike
    assert!(a.hitTest(100_000, 200_000));
}

#[test]
fn invalid_asteroid_keeps_its_fields_on_setters() {
    let mut a = still_asteroid(6, 1, 2, 3000);
    a.setValid(false);
    assert!(!a.getValid());
    a.setSize(4);
    assert_eq!(a.getSize(), 4);
    assert_eq!(a.getX(), 1);
    assert_eq!(a.getY(), 2);
}

#[test]
fn bullet_travels_straight_and_expires_off_screen() {
    let mut bullets = vec![Bullet::new(10_000, 10_000, 5000, 0)];
    let mut asteroids: Vec<Asteroid> = Vec::new();
    let mut score: i32 = 0;
    for n in 1..=254i64 {
        processBullets(&mut bullets, &mut asteroids, &mut score, 1280, 900);
        assert!(bullets[0].getValid());
        assert_eq!(bullets[0].getX(), 10_000 + 5000 * n);
        assert_eq!(bullets[0].getY(), 10_000);
    }
    // the screen's right edge is 1_280_000 and inclusive: the bullet sits
    // exactly on it and is still in play; the next frame would leave, so the
    // bullet dies with its position frozen
    assert_eq!(bullets[0].getX(), 1_280_000);
    processBullets(&mut bullets, &mut asteroids, &mut score, 1280, 900);
    assert!(!bullets[0].getValid());
    assert_eq!(bullets[0].getX(), 1_280_000);
    assert_eq!(score, 0);
}

#[test]
fn spent_bullet_stays_put() {
    let mut bullets = vec![Bullet::new(10_000, 10_000, 5000, 0)];
    bullets[0].setValid(false);
    let mut asteroids: Vec<Asteroid> = Vec::new();
    let mut score: i32 = 0;
    processBullets(&mut bullets, &mut asteroids, &mut score, 1280, 900);
    assert_eq!(bullets[0].getX(), 10_000);
    assert!(!bullets[0].getValid());
}
