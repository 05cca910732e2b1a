use numanalytic_solver_lib::bisection::{Bisection, Bound};

fn target(x: f64) -> f64 {
    x * x - 2.0
}

/// Runs the method on `[a, b]` for `x^2 - 2`, doing the arithmetic here and
/// taking every decision from the solver.
fn solve(mut a: f64, mut b: f64, tolerance: f64, max_iterations: usize) -> (f64, usize) {
    let mut solver = Bisection::new(max_iterations);
    let mut root = a;
    while solver.should_continue((b - a) / 2.0 > tolerance) {
        root = (a + b) / 2.0;
        match solver.narrow(target(root) * target(a) > 0.0) {
            Bound::Lower => a = root,
            Bound::Upper => b = root,
        }
    }
    (root, solver.iterations())
}

#[test]
fn new_solver_has_made_no_step() {
    let solver = Bisection::new(5);
    assert_eq!(solver.iterations(), 0);
    assert_eq!(solver.max_iterations(), 5);
}

#[test]
fn continues_only_while_wide_and_within_budget() {
    let solver = Bisection::new(1);
    assert!(solver.should_continue(true));
    assert!(!solver.should_continue(false));
    let empty = Bisection::new(0);
    assert!(!empty.should_continue(true));
    assert!(!empty.should_continue(false));
}

#[test]
fn narrow_moves_lower_on_same_sign_and_upper_otherwise() {
    let mut solver = Bisection::new(2);
    assert_eq!(solver.narrow(true), Bound::Lower);
    assert_eq!(solver.iterations(), 1);
    assert_eq!(solver.narrow(false), Bound::Upper);
    assert_eq!(solver.iterations(), 2);
    assert_eq!(solver.max_iterations(), 2);
}

#[test]
fn budget_stops_the_run() {
    let mut solver = Bisection::new(3);
    let mut steps: usize = 0;
    while solver.should_continue(true) {
        solver.narrow(steps % 2 == 0);
        steps += 1;
    }
    assert_eq!(steps, 3);
    assert_eq!(solver.iterations(), 3);
}

#[test]
fn converges_to_square_root_of_two() {
    let (root, iterations) = solve(0.0, 2.0, 1e-9, 100);
    assert!((root - 1.41421356).abs() < 1e-6);
    assert!(iterations <= 100);
    assert!(iterations > 0);
}

#[test]
fn error_within_interval_width_over_two_to_the_steps() {
    let exact = 2.0f64.sqrt();
    for &max in &[1usize, 2, 5, 10, 20] {
        let (root, k) = solve(0.0, 2.0, 1e-12, max);
        assert_eq!(k, max);
        assert!((root - exact).abs() <= 2.0 / 2f64.powi(k as i32));
    }
}

#[test]
fn zero_budget_returns_lower_bound() {
    assert_eq!(solve(0.0, 2.0, 1e-9, 0), (0.0, 0));
    assert_eq!(solve(0.5, 3.0, 0.0, 0), (0.5, 0));
    assert_eq!(solve(0.5, 3.0, 10.0, 0), (0.5, 0));
}

#[test]
fn degenerate_interval_returns_its_point() {
    assert_eq!(solve(1.0, 1.0, 1e-9, 100), (1.0, 0));
}

#[test]
fn inverted_interval_returns_lower_bound_unchanged() {
    assert_eq!(solve(2.0, 0.0, 1e-9, 100), (2.0, 0));
}

#[test]
fn zero_at_midpoint_moves_upper_bound() {
    // The midpoint of [0, 4] is 2, where x^2 - 4 is zero.
    let mut solver = Bisection::new(1);
    let (a, b) = (0.0f64, 4.0f64);
    assert!(solver.should_continue((b - a) / 2.0 > 1e-9));
    let mid = (a + b) / 2.0;
    let f = |x: f64| x * x - 4.0;
    assert_eq!(solver.narrow(f(mid) * f(a) > 0.0), Bound::Upper);
}

#[test]
fn same_inputs_give_bit_identical_results() {
    let first = solve(0.0, 2.0, 1e-9, 100);
    let second = solve(0.0, 2.0, 1e-9, 100);
    assert_eq!(first.0.to_bits(), second.0.to_bits());
    assert_eq!(first.1, second.1);
}
