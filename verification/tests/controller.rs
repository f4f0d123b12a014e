use asteroid::asteroid::Asteroid;
use asteroid::bullet::Bullet;
use asteroid::game::{hitAsteroid, processBullets, Game, GameState};

fn still_asteroid(size: i32, x: i64, y: i64, radius: i64) -> Asteroid {
    Asteroid {
        x,
        y,
        vx: 0,
        vy: 0,
        rot: 0,
        drot: 0,
        size,
        shape: vec![radius; size as usize],
        meanRadius: radius,
        valid: true,
    }
}

#[test]
fn new_controller_waits_on_the_title_screen() {
    let g = Game::new();
    assert_eq!(g.getState(), GameState::TITLE);
    assert_eq!(g.getScore(), 0);
    assert_eq!(g.getNShips(), 3);
    assert!(g.getShip().is_none());
    assert_eq!(g.getBullets().len(), 0);
    assert_eq!(g.getAsteroids().len(), 0);
    assert_eq!(g.D_ROT, 87_266);
    assert_eq!(g.MAX_SPEED, 15_000);
}

#[test]
fn confirm_reaches_play_within_one_update() {
    let mut g = Game::new();
    g.enterPressed();
    assert_eq!(g.getState(), GameState::START);
    g.update(1280, 900);
    assert_eq!(g.getState(), GameState::PLAY);
    assert_eq!(g.getScore(), 0);
    let s = g.getShip().unwrap();
    assert_eq!(s.getX(), 640_000);
    assert_eq!(s.getY(), 450_000);
    assert_eq!(s.getVx(), 0);
    assert_eq!(s.getVy(), 0);
    assert_eq!(s.getRotation(), 0);
    assert_eq!(g.getBullets().len(), 0);
    assert_eq!(g.getAsteroids().len(), 10);
    for a in g.getAsteroids().iter() {
        assert!(a.getValid());
        let size = a.getSize();
        assert!((6..=24).contains(&size));
        assert_eq!(size % 2, 0);
        assert!((0..1_280_000).contains(&a.getX()));
        assert!((0..900_000).contains(&a.getY()));
    }
}

#[test]
fn starting_a_game_clears_the_score() {
    let mut g = Game::new();
    g.score = 770;
    g.enterPressed();
    g.update(1280, 900);
    assert_eq!(g.getScore(), 0);
}

#[test]
fn inputs_are_ignored_outside_play() {
    let mut g = Game::new();
    g.upPressed(1000, 0);
    g.leftPressed();
    g.rightPressed();
    g.spacePressed(1000, 0);
    g.escapePressed();
    assert_eq!(g.getState(), GameState::TITLE);
    assert!(g.getShip().is_none());
    assert_eq!(g.getBullets().len(), 0);
}

#[test]
fn confirm_is_ignored_outside_the_title() {
    let mut g = Game::new();
    g.enterPressed();
    g.update(1280, 900);
    assert_eq!(g.getState(), GameState::PLAY);
    g.enterPressed();
    assert_eq!(g.getState(), GameState::PLAY);
}

#[test]
fn play_inputs_drive_the_ship() {
    let mut g = Game::new();
    g.enterPressed();
    g.update(1280, 900);

    g.upPressed(1000, 0);
    assert_eq!(g.getShip().unwrap().getVx(), 500);
    assert_eq!(g.getShip().unwrap().getVy(), 0);

    g.leftPressed();
    assert_eq!(g.getShip().unwrap().getRotation(), -87_266);
    g.rightPressed();
    g.rightPressed();
    assert_eq!(g.getShip().unwrap().getRotation(), 87_266);

    g.spacePressed(0, 1000);
    assert_eq!(g.getBullets().len(), 1);
    let b = &g.getBullets()[0];
    assert_eq!(b.getX(), g.getShip().unwrap().getX());
    assert_eq!(b.getY(), g.getShip().unwrap().getY());
    assert_eq!(b.getVx(), 0);
    assert_eq!(b.getVy(), 5000);
}

#[test]
fn strike_books_score_and_splits_large_asteroids() {
    let mut asteroids = vec![still_asteroid(6, 100_000, 100_000, 12_000)];
    let mut children: Vec<Asteroid> = Vec::new();
    let mut score: i32 = 0;
    hitAsteroid(&mut asteroids, 0, &mut children, &mut score);
    assert_eq!(score, 10);
    assert!(!asteroids[0].getValid());
    assert_eq!(children.len(), 3);
    for c in children.iter() {
        assert_eq!(c.getSize(), 3);
        assert_eq!(c.getX(), 100_000);
        assert_eq!(c.getY(), 100_000);
        assert!(c.getValid());
    }
}

#[test]
fn strike_below_the_split_size_leaves_no_children() {
    let mut asteroids = vec![still_asteroid(4, 100_000, 100_000, 9000)];
    let mut children: Vec<Asteroid> = Vec::new();
    let mut score: i32 = 0;
    hitAsteroid(&mut asteroids, 0, &mut children, &mut score);
    assert_eq!(score, 10);
    assert!(!asteroids[0].getValid());
    assert_eq!(children.len(), 0);
}

#[test]
fn bullet_strike_appends_children_after_the_board() {
    let mut bullets = vec![Bullet::new(95_000, 100_000, 5000, 0)];
    let mut asteroids = vec![still_asteroid(6, 100_000, 100_000, 12_000)];
    let mut score: i32 = 0;
    processBullets(&mut bullets, &mut asteroids, &mut score, 1280, 900);
    assert_eq!(score, 10);
    assert!(!bullets[0].getValid());
    assert_eq!(bullets[0].getX(), 100_000);
    assert_eq!(asteroids.len(), 4);
    assert!(!asteroids[0].getValid());
    for c in asteroids.iter().skip(1) {
        assert_eq!(c.getSize(), 3);
        assert_eq!(c.getX(), 100_000);
        assert_eq!(c.getY(), 100_000);
        assert!(c.getValid());
    }
}

#[test]
fn bullet_missing_everything_scores_nothing() {
    let mut bullets = vec![Bullet::new(10_000, 10_000, 5000, 0)];
    let mut asteroids = vec![still_asteroid(6, 500_000, 500_000, 12_000)];
    let mut score: i32 = 0;
    processBullets(&mut bullets, &mut asteroids, &mut score, 1280, 900);
    assert_eq!(score, 0);
    assert!(bullets[0].getValid());
    assert!(asteroids[0].getValid());
    assert_eq!(asteroids.len(), 1);
}

#[test]
fn full_session_walks_the_state_machine() {
    let mut g = Game::new();
    g.enterPressed();
    g.update(1280, 900);
    assert_eq!(g.getState(), GameState::PLAY);

    // a large, stationary asteroid parked on the ship's position: the ship is
    // at rest, so every playing frame collides
    g.placeAsteroid(still_asteroid(24, 640_000, 450_000, 48_000));

    for death in 0..3 {
        assert_eq!(g.getState(), GameState::PLAY);
        assert_eq!(g.getNShips(), 3 - death);
        g.update(1280, 900);
        assert_eq!(g.getState(), GameState::EXPLODED);
        assert_eq!(g.getShip().unwrap().getExplosionAnimCount(), 0);

        // the explosion animation runs for its full window
        for k in 1..=50 {
            g.update(1280, 900);
            assert_eq!(g.getShip().unwrap().getExplosionAnimCount(), k);
            if k < 50 {
                assert_eq!(g.getState(), GameState::EXPLODED);
            }
        }
        assert_eq!(g.getState(), GameState::DEAD);

        g.update(1280, 900);
        if death < 2 {
            // ships remain: play resumes with the very same ship and board
            assert_eq!(g.getState(), GameState::PLAY);
            assert_eq!(g.getNShips(), 2 - death);
            assert_eq!(g.getShip().unwrap().getX(), 640_000);
            assert_eq!(g.getShip().unwrap().getY(), 450_000);
            assert_eq!(g.getAsteroids().len(), 11);
        }
    }

    // the last ship is gone: the death frame went straight to game over
    assert_eq!(g.getState(), GameState::GAMEOVER);
    assert_eq!(g.getNShips(), 0);
    assert_eq!(g.getGameOverDisplayCount(), 0);

    // the game-over screen holds for its full window, then the title returns
    for k in 1..=300 {
        g.update(1280, 900);
        assert_eq!(g.getGameOverDisplayCount(), k);
        if k < 300 {
            assert_eq!(g.getState(), GameState::GAMEOVER);
        }
    }
    assert_eq!(g.getState(), GameState::TITLE);

    // starting over rebuilds the board and the score, but the ship counter
    // is never replenished
    g.enterPressed();
    g.update(1280, 900);
    assert_eq!(g.getState(), GameState::PLAY);
    assert_eq!(g.getScore(), 0);
    assert_eq!(g.getAsteroids().len(), 10);
    assert_eq!(g.getNShips(), 0);
}

#[test]
fn one_bullet_strikes_every_overlapping_asteroid() {
    let mut bullets = vec![Bullet::new(95_000, 100_000, 5000, 0)];
    let mut asteroids = vec![
        still_asteroid(6, 100_000, 100_000, 12_000),
        still_asteroid(4, 101_000, 100_000, 9000),
    ];
    let mut score: i32 = 0;
    processBullets(&mut bullets, &mut asteroids, &mut score, 1280, 900);
    // the scan does not stop at the first strike: both asteroids die, both
    // score, and only the splittable one leaves children
    assert_eq!(score, 20);
    assert!(!bullets[0].getValid());
    assert!(!asteroids[0].getValid());
    assert!(!asteroids[1].getValid());
    assert_eq!(asteroids.len(), 5);
    for c in asteroids.iter().skip(2) {
        assert_eq!(c.getSize(), 3);
        assert!(c.getValid());
    }
}

#[test]
fn large_asteroids_have_one_vertex_per_size_unit() {
    let a = Asteroid::new(100, 500_000, 500_000);
    assert_eq!(a.getShape().len(), 100);
    assert_eq!(a.getSize(), 100);
    for &r in a.getShape().iter() {
        assert!((190_000..=210_000).contains(&r));
    }
}

#[test]
fn explosion_freezes_bullets_but_not_asteroids() {
    let mut g = Game::new();
    g.enterPressed();
    g.update(1280, 900);
    g.spacePressed(1000, 0);
    let bx = g.getBullets()[0].getX();
    // a small asteroid covering only the ship's center: the ship collides,
    // but the bullet's first step already lands outside the radius
    g.placeAsteroid(still_asteroid(6, 640_000, 450_000, 3000));
    g.update(1280, 900);
    // this frame still ran the bullets before the state change took effect
    assert_eq!(g.getState(), GameState::EXPLODED);
    let bx1 = g.getBullets()[0].getX();
    assert_eq!(bx1, bx + 5000);
    // from now on the wreck frames leave bullets alone
    g.update(1280, 900);
    assert_eq!(g.getBullets()[0].getX(), bx1);
}
