#[test]
fn it_works() {
    let result = numanalytic_solver_lib::add(2, 2);
    assert_eq!(result, 4);
}

#[test]
fn add_small_values() {
    assert_eq!(numanalytic_solver_lib::add(0, 0), 0);
    assert_eq!(numanalytic_solver_lib::add(40, 2), 42);
    assert_eq!(numanalytic_solver_lib::add(7, u64::MAX - 7), u64::MAX);
}

#[test]
fn add_wraps_at_the_largest_value() {
    assert_eq!(numanalytic_solver_lib::add(u64::MAX, 1), 0);
    assert_eq!(numanalytic_solver_lib::add(u64::MAX, u64::MAX), u64::MAX - 1);
    assert_eq!(numanalytic_solver_lib::add(1u64 << 63, 1u64 << 63), 0);
}
