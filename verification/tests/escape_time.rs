use fractal_explorer::escape::{EscapeTracker, Verdict};
use fractal_explorer::glyph::grid_to_string;
use fractal_explorer::grid::{HEIGHT, WIDTH};
use fractal_explorer::pipeline::grid_from_bytes;
use num_complex::Complex32;

/// Iterates the orbit of `c`, seeded with `c` itself, under the tracker.
fn is_member(c: Complex32, budget: usize) -> bool {
    let mut tracker = EscapeTracker::new(budget);
    let mut z = c;
    loop {
        match tracker.verdict() {
            Verdict::Member => return true,
            Verdict::Escaped => return false,
            Verdict::Undecided => {
                tracker.observe(z.norm_sqr() > 4.0);
                z = z * z + c;
            }
        }
    }
}

#[test]
fn origin_is_a_member_under_any_budget() {
    for budget in [1usize, 2, 3, 10, 1000] {
        assert!(is_member(Complex32::new(0.0, 0.0), budget));
    }
}

#[test]
fn two_plus_two_i_escapes_at_once() {
    assert!(!is_member(Complex32::new(2.0, 2.0), 1));
    assert!(!is_member(Complex32::new(2.0, 2.0), 1000));
}

#[test]
fn known_points_of_the_plane() {
    assert!(is_member(Complex32::new(-1.0, 0.0), 1000));
    assert!(is_member(Complex32::new(-0.5, 0.5), 1000));
    assert!(!is_member(Complex32::new(0.5, 0.0), 1000));
    assert!(!is_member(Complex32::new(1.0, 1.0), 1000));
    // 0.5 takes five steps to leave the disc: it passes for a member until then.
    assert!(is_member(Complex32::new(0.5, 0.0), 4));
    assert!(!is_member(Complex32::new(0.5, 0.0), 6));
}

#[test]
fn empty_budget_makes_every_point_a_member() {
    assert_eq!(EscapeTracker::new(0).verdict(), Verdict::Member);
    assert!(is_member(Complex32::new(2.0, 2.0), 0));
}

#[test]
fn fresh_tracker_is_undecided() {
    assert_eq!(EscapeTracker::new(1).verdict(), Verdict::Undecided);
    assert_eq!(EscapeTracker::new(1000).verdict(), Verdict::Undecided);
}

#[test]
fn budget_counts_the_tests() {
    let mut tracker = EscapeTracker::new(3);
    assert_eq!(tracker.observe(false), Verdict::Undecided);
    assert_eq!(tracker.observe(false), Verdict::Undecided);
    assert_eq!(tracker.observe(false), Verdict::Member);
    assert_eq!(tracker.verdict(), Verdict::Member);
}

#[test]
fn escape_on_the_last_test_still_counts() {
    let mut tracker = EscapeTracker::new(3);
    assert_eq!(tracker.observe(false), Verdict::Undecided);
    assert_eq!(tracker.observe(false), Verdict::Undecided);
    assert_eq!(tracker.observe(true), Verdict::Escaped);
}

#[test]
fn escape_stays_whatever_follows() {
    let mut tracker = EscapeTracker::new(5);
    assert_eq!(tracker.observe(false), Verdict::Undecided);
    assert_eq!(tracker.observe(true), Verdict::Escaped);
    for later in [false, false, true, false, false, false, true] {
        assert_eq!(tracker.observe(later), Verdict::Escaped);
    }
    assert_eq!(tracker.verdict(), Verdict::Escaped);
}

#[test]
fn membership_stays_whatever_follows() {
    let mut tracker = EscapeTracker::new(2);
    tracker.observe(false);
    assert_eq!(tracker.observe(false), Verdict::Member);
    assert_eq!(tracker.observe(true), Verdict::Member);
    assert_eq!(tracker.observe(false), Verdict::Member);
}

#[test]
fn reference_viewport_from_evaluation_to_text() {
    let (real_min, real_max, imag_min, imag_max) = (-2.0f32, 1.0f32, -1.5f32, 1.5f32);
    let real_step = (real_max - real_min) / WIDTH as f32;
    let imag_step = (imag_max - imag_min) / HEIGHT as f32;
    let mut bytes = vec![0u8; WIDTH * HEIGHT];
    for j in 0..HEIGHT {
        for i in 0..WIDTH {
            let c = Complex32::new(real_min + i as f32 * real_step, imag_min + j as f32 * imag_step);
            bytes[j * WIDTH + i] = is_member(c, 100) as u8;
        }
    }
    let grid = grid_from_bytes(&bytes).unwrap();
    // Column 64 is real part -0.5, row 64 is imaginary part 0: inside the cardioid.
    assert!(grid[64][64]);
    // The corners of the viewport lie outside the disc of radius two.
    assert!(!grid[0][0]);
    assert!(!grid[127][127]);
    // The set is symmetric about the real axis, which is row 64.
    for j in 1..64 {
        assert_eq!(grid[64 - j], grid[64 + j]);
    }
    let text = grid_to_string(grid);
    assert_eq!(text.chars().count(), 32 * 66);
    assert_eq!(text.chars().next(), Some('\u{2800}'));
    assert!(text.chars().any(|c| c == '\u{28FF}'));
}
