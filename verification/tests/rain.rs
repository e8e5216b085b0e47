use rainfall::droplet::{scaled_offset, Droplet};
use rainfall::rng::Rng;
use rainfall::session::AnimationSession;
use rainfall::{DROPLET_COUNT, MAX_DIM, SCALE};

fn shape_in_range(d: &Droplet) {
    assert!(0 <= d.length && d.length < SCALE);
    assert!(-2 * SCALE <= d.vx && d.vx < 2 * SCALE);
    assert!(10 * SCALE <= d.vy && d.vy < 20 * SCALE);
}

#[test]
fn spawn_ranges() {
    // Spawned droplets land in the documented ranges, for several seeds
    // and canvas sizes.
    for seed in [0u64, 1, 7, 0xDEAD_BEEF, u64::MAX] {
        let mut rng = Rng::new(seed);
        for (w, h) in [(1i64, 1i64), (800, 600), (1920, 1080), (MAX_DIM, MAX_DIM)] {
            for _ in 0..50 {
                let d = Droplet::spawn_random(&mut rng, w, h);
                assert!(0 <= d.x && d.x < w * SCALE);
                assert!(0 <= d.y && d.y < h * SCALE);
                shape_in_range(&d);
            }
        }
    }
}

#[test]
fn spawn_deterministic() {
    let mut a = Rng::new(42);
    let mut b = Rng::new(42);
    for _ in 0..20 {
        assert_eq!(
            Droplet::spawn_random(&mut a, 800, 600),
            Droplet::spawn_random(&mut b, 800, 600)
        );
    }
}

#[test]
fn advance_moves_exactly_when_inside() {
    // A droplet whose incremented position stays on the canvas moves by
    // exactly its velocity; nothing else changes and no draw is consumed.
    let mut rng = Rng::new(5);
    let before_state = rng.state;
    let mut d = Droplet { x: 70 * SCALE, y: 80 * SCALE, length: 4321, vx: 15000, vy: 123456 };
    d.advance(&mut rng, 800, 600);
    assert_eq!(d.x, 70 * SCALE + 15000);
    assert_eq!(d.y, 80 * SCALE + 123456);
    assert_eq!(d.length, 4321);
    assert_eq!(d.vx, 15000);
    assert_eq!(d.vy, 123456);
    assert_eq!(rng.state, before_state);
}

#[test]
fn advance_recycles_off_bottom() {
    // Falling past the bottom edge recycles: y goes to exactly -20 pixels,
    // x to [0, w), and the shape is untouched.
    let mut rng = Rng::new(9);
    let mut d = Droplet { x: 100 * SCALE, y: 600 * SCALE, length: 9999, vx: -15000, vy: 150000 };
    d.advance(&mut rng, 800, 600);
    assert_eq!(d.y, -20 * SCALE);
    assert!(0 <= d.x && d.x < 800 * SCALE);
    assert_eq!(d.length, 9999);
    assert_eq!(d.vx, -15000);
    assert_eq!(d.vy, 150000);
}

#[test]
fn advance_recycles_off_right_edge_alone() {
    // The x axis alone triggers a recycle, with the same reset.
    let mut rng = Rng::new(9);
    let mut d = Droplet { x: 800 * SCALE, y: 10 * SCALE, length: 1, vx: 19999, vy: 100000 };
    d.advance(&mut rng, 800, 600);
    assert_eq!(d.y, -20 * SCALE);
    assert!(0 <= d.x && d.x < 800 * SCALE);
    assert_eq!(d.vx, 19999);
}

#[test]
fn shape_fixed_across_many_recycles() {
    // However long a droplet runs, through recycle after recycle, length
    // and both speeds never change.
    let mut rng = Rng::new(1234);
    let mut d = Droplet::spawn_random(&mut rng, 320, 200);
    let (l, vx, vy) = (d.length, d.vx, d.vy);
    for _ in 0..10_000 {
        d.advance(&mut rng, 320, 200);
        assert_eq!(d.length, l);
        assert_eq!(d.vx, vx);
        assert_eq!(d.vy, vy);
    }
}

#[test]
fn draw_happens_before_advance() {
    // A droplet at (10, 10) with vx = 1, vy = 1, length = 0.5 is drawn as
    // the segment (10, 10)-(10.5, 10.5); only then does its position become
    // (11, 11).
    let mut d = Droplet {
        x: 10 * SCALE,
        y: 10 * SCALE,
        length: SCALE / 2,
        vx: SCALE,
        vy: SCALE,
    };
    let seg = d.segment();
    assert_eq!(seg.x1, 10 * SCALE);
    assert_eq!(seg.y1, 10 * SCALE);
    assert_eq!(seg.x2, 10 * SCALE + SCALE / 2);
    assert_eq!(seg.y2, 10 * SCALE + SCALE / 2);
    let mut rng = Rng::new(3);
    d.advance(&mut rng, 800, 600);
    assert_eq!(d.x, 11 * SCALE);
    assert_eq!(d.y, 11 * SCALE);
}

#[test]
fn tick_draws_pre_tick_positions_in_index_order() {
    let mut s = AnimationSession::start(77, 640, 480);
    let before: Vec<Droplet> = s.droplets.clone();
    let segs = s.tick();
    assert_eq!(segs.len(), before.len());
    for (i, d) in before.iter().enumerate() {
        assert_eq!(segs[i], d.segment());
    }
}

#[test]
fn one_tick_end_to_end() {
    // start(seed, 800, 600) and one tick: 500 segments drawn, and every
    // droplet's y either advanced by its vy or recycled to -20 pixels.
    let mut s = AnimationSession::start(2024, 800, 600);
    assert_eq!(s.droplets.len(), DROPLET_COUNT);
    let before: Vec<Droplet> = s.droplets.clone();
    let segs = s.tick();
    assert_eq!(segs.len(), DROPLET_COUNT);
    assert_eq!(s.droplets.len(), DROPLET_COUNT);
    for (i, old) in before.iter().enumerate() {
        let new = &s.droplets[i];
        if new.y == old.y + old.vy {
            assert_eq!(new.x, old.x + old.vx);
        } else {
            assert_eq!(new.y, -20 * SCALE);
            assert!(0 <= new.x && new.x < 800 * SCALE);
        }
        assert_eq!(new.length, old.length);
        assert_eq!(new.vx, old.vx);
        assert_eq!(new.vy, old.vy);
    }
}

#[test]
fn same_seed_same_frames() {
    // A run is a pure function of the seed and the canvas size.
    let mut a = AnimationSession::start(99, 800, 600);
    let mut b = AnimationSession::start(99, 800, 600);
    assert_eq!(a.droplets, b.droplets);
    for _ in 0..5 {
        assert_eq!(a.tick(), b.tick());
        assert_eq!(a.droplets, b.droplets);
    }
}

#[test]
fn boundary_droplet_recycles_on_next_tick() {
    // A droplet a ten-thousandth of a pixel above the bottom edge, falling
    // at 10 pixels per tick, recycles on the very next tick.
    let h: i64 = 600;
    let mut rng = Rng::new(11);
    let mut d = Droplet { x: 400 * SCALE, y: h * SCALE - 1, length: 5000, vx: 0, vy: 10 * SCALE };
    d.advance(&mut rng, 800, h);
    assert_eq!(d.y, -20 * SCALE);
}

#[test]
fn try_start_rejects_bad_sizes() {
    assert!(AnimationSession::try_start(1, 0, 600).is_none());
    assert!(AnimationSession::try_start(1, 800, 0).is_none());
    assert!(AnimationSession::try_start(1, -5, 600).is_none());
    assert!(AnimationSession::try_start(1, MAX_DIM + 1, 600).is_none());
    assert!(AnimationSession::try_start(1, 800, MAX_DIM + 1).is_none());
    assert!(AnimationSession::try_start(1, 800, 600).is_some());
    assert!(AnimationSession::try_start(1, 1, 1).is_some());
}

#[test]
fn stop_ends_the_run_and_keeps_state() {
    let mut s = AnimationSession::start(5, 800, 600);
    assert!(s.running);
    let before: Vec<Droplet> = s.droplets.clone();
    s.stop();
    assert!(!s.running);
    assert_eq!(s.droplets, before);
    assert_eq!(s.width, 800);
    assert_eq!(s.height, 600);
}

#[test]
fn scaled_offset_exact_values() {
    // length * v / SCALE, rounded toward zero.
    assert_eq!(scaled_offset(5000, 10000), 5000);
    assert_eq!(scaled_offset(5000, -10000), -5000);
    assert_eq!(scaled_offset(0, 19999), 0);
    assert_eq!(scaled_offset(3333, 3), 0);
    assert_eq!(scaled_offset(3333, -3), 0);
    assert_eq!(scaled_offset(9999, 19999), 19997);
    assert_eq!(scaled_offset(2500, 40), 10);
}

#[test]
fn rand_below_stays_below_and_is_deterministic() {
    let mut a = Rng::new(8);
    let mut b = Rng::new(8);
    for n in [1u64, 2, 3, 10, 10_000, u64::MAX] {
        let x = a.rand_below(n);
        assert!(x < n);
        assert_eq!(x, b.rand_below(n));
    }
    // A zero seed falls back to a nonzero state and still produces draws.
    let mut z = Rng::new(0);
    let first = z.next_u64();
    let second = z.next_u64();
    assert_ne!(first, 0);
    assert_ne!(first, second);
}
