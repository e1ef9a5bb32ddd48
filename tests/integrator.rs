use ray_tracer::path::{advance, start, Bounce, PathEnd, Step, MAX_DEPTH};

/// Follows the integrator's moves over a fixed list of query outcomes; the
/// list is long enough for every path tried here.
fn follow(depth: u8, outcomes: &[Bounce]) -> (usize, PathEnd) {
    let mut depth = depth;
    let mut scatters = 0;
    loop {
        if let Some(end) = start(depth) {
            return (scatters, end);
        }
        match advance(depth, outcomes[scatters]) {
            Step::Stop(end) => return (scatters, end),
            Step::Continue(d) => {
                depth = d;
                scatters += 1;
            }
        }
    }
}

#[test]
fn zero_depth_is_black_whatever_the_scene() {
    assert_eq!(start(0), Some(PathEnd::Black));
    for first in [Bounce::Miss, Bounce::Absorbed, Bounce::Scattered] {
        assert_eq!(follow(0, &[first, Bounce::Miss]), (0, PathEnd::Black));
    }
}

#[test]
fn budget_left_queries_the_scene() {
    assert_eq!(start(1), None);
    assert_eq!(start(MAX_DEPTH), None);
    assert_eq!(MAX_DEPTH, 50);
}

#[test]
fn each_outcome_moves_as_described() {
    assert_eq!(advance(5, Bounce::Miss), Step::Stop(PathEnd::Sky));
    assert_eq!(advance(5, Bounce::Absorbed), Step::Stop(PathEnd::Black));
    assert_eq!(advance(5, Bounce::Scattered), Step::Continue(4));
    assert_eq!(advance(1, Bounce::Scattered), Step::Continue(0));
}

#[test]
fn miss_after_scatters_ends_on_sky() {
    let outcomes = [Bounce::Scattered, Bounce::Scattered, Bounce::Miss];
    assert_eq!(follow(MAX_DEPTH, &outcomes), (2, PathEnd::Sky));
}

#[test]
fn absorption_ends_black() {
    let outcomes = [Bounce::Scattered, Bounce::Absorbed, Bounce::Miss];
    assert_eq!(follow(MAX_DEPTH, &outcomes), (1, PathEnd::Black));
}

#[test]
fn budget_runs_out_black() {
    let outcomes = [Bounce::Scattered; 60];
    assert_eq!(follow(3, &outcomes), (3, PathEnd::Black));
    assert_eq!(follow(MAX_DEPTH, &outcomes), (50, PathEnd::Black));
}

#[test]
fn miss_at_last_budget_is_sky() {
    let outcomes = [Bounce::Scattered, Bounce::Scattered, Bounce::Miss];
    assert_eq!(follow(3, &outcomes), (2, PathEnd::Sky));
    assert_eq!(follow(2, &outcomes), (2, PathEnd::Black));
}
