//! Control of the path-tracing integrator. Tracing one path alternates two
//! moves: query the scene for the nearest hit and let its material scatter, or
//! stop. The arithmetic on colors runs outside; this module decides, from the
//! remaining bounce budget and what each query gave, when the path goes on and
//! how it ends. The radiance of a path is the product of the attenuations of
//! its scatters times black or the sky gradient, as it ended.

use vstd::prelude::*;

verus! {

/// Default bounce budget of one path.
pub const MAX_DEPTH: u8 = 50;

/// What one scene query gave for the current ray.
#[derive(Clone, Copy, Debug, PartialEq, Eq, Structural)]
pub enum Bounce {
    /// No surface lies within the valid distances.
    Miss,
    /// The nearest surface's material absorbed the ray.
    Absorbed,
    /// The nearest surface's material scattered the ray.
    Scattered,
}

/// How a path ends: with no light, or with the background gradient.
#[derive(Clone, Copy, Debug, PartialEq, Eq, Structural)]
pub enum PathEnd {
    Black,
    Sky,
}

/// The move after a scene query.
#[derive(Clone, Copy, Debug, PartialEq, Eq, Structural)]
pub enum Step {
    /// The path ends here.
    Stop(PathEnd),
    /// Multiply in the scatter's attenuation and go on with this budget.
    Continue(u8),
}

pub open spec fn spec_start(depth: nat) -> Option<PathEnd> {
    if depth == 0 {
        Some(PathEnd::Black)
    } else {
        None
    }
}

pub open spec fn spec_advance(depth: nat, outcome: Bounce) -> Step {
    match outcome {
        Bounce::Miss => Step::Stop(PathEnd::Sky),
        Bounce::Absorbed => Step::Stop(PathEnd::Black),
        Bounce::Scattered => Step::Continue((depth - 1) as u8),
    }
}

/// Before a query: a path with no budget left ends black without consulting
/// the scene; otherwise (`None`) the scene is queried.
pub fn start(depth: u8) -> (r: Option<PathEnd>)
    ensures
        r == spec_start(depth as nat),
{
    if depth == 0 {
        Some(PathEnd::Black)
    } else {
        None
    }
}

/// After a query made with budget `depth`.
pub fn advance(depth: u8, outcome: Bounce) -> (r: Step)
    requires
        depth > 0,
    ensures
        r == spec_advance(depth as nat, outcome),
{
    match outcome {
        Bounce::Miss => Step::Stop(PathEnd::Sky),
        Bounce::Absorbed => Step::Stop(PathEnd::Black),
        Bounce::Scattered => Step::Continue(depth - 1),
    }
}

/// A whole path traced with budget `depth` from its `i`-th query on, where
/// `outcome(k)` is what the `k`-th query gives: the number of scatters
/// multiplied in up to its end, and how it ends.
pub open spec fn trace(depth: nat, outcome: spec_fn(nat) -> Bounce, i: nat) -> (nat, PathEnd)
    decreases depth,
{
    match spec_start(depth) {
        Some(end) => (i, end),
        None => match spec_advance(depth, outcome(i)) {
            Step::Stop(end) => (i, end),
            Step::Continue(d) => if d < depth {
                trace(d as nat, outcome, i + 1)
            } else {
                (i, PathEnd::Black)
            },
        },
    }
}

/// A path with no budget returns black with no scatter, whatever the scene.
pub proof fn lemma_exhausted_path_is_black(outcome: spec_fn(nat) -> Bounce, i: nat)
    ensures
        trace(0, outcome, i) == (i, PathEnd::Black),
{
}

/// A path scatters at most as many times as its budget allows; a path that
/// scatters that many times ends black.
pub proof fn lemma_trace_bounded(depth: nat, outcome: spec_fn(nat) -> Bounce, i: nat)
    requires
        depth <= u8::MAX,
    ensures
        i <= trace(depth, outcome, i).0 <= i + depth,
        trace(depth, outcome, i).0 == i + depth ==> trace(depth, outcome, i).1 == PathEnd::Black,
    decreases depth,
{
    if depth > 0 && outcome(i) == Bounce::Scattered {
        lemma_trace_bounded((depth - 1) as nat, outcome, i + 1);
    }
}

/// Every query from the `i`-th up to (not including) the `n`-th scattered.
pub open spec fn scattered_between(outcome: spec_fn(nat) -> Bounce, i: nat, n: nat) -> bool {
    forall|k: nat| i <= k < n ==> #[trigger] outcome(k) == Bounce::Scattered
}

/// A path ends on the sky exactly when some query misses before the budget
/// runs out and every earlier query scattered.
pub proof fn lemma_sky_iff_miss(depth: nat, outcome: spec_fn(nat) -> Bounce, i: nat)
    requires
        depth <= u8::MAX,
    ensures
        trace(depth, outcome, i).1 == PathEnd::Sky <==> exists|n: nat|
            i <= n < i + depth && #[trigger] outcome(n) == Bounce::Miss && scattered_between(
                outcome,
                i,
                n,
            ),
    decreases depth,
{
    if depth > 0 {
        if outcome(i) == Bounce::Scattered {
            lemma_sky_iff_miss((depth - 1) as nat, outcome, i + 1);
            if trace(depth, outcome, i).1 == PathEnd::Sky {
                let n = choose|n: nat|
                    i + 1 <= n < i + 1 + (depth - 1) && #[trigger] outcome(n) == Bounce::Miss
                        && scattered_between(outcome, i + 1, n);
                assert(scattered_between(outcome, i, n));
            } else {
                assert forall|n: nat|
                    i <= n < i + depth && #[trigger] outcome(n) == Bounce::Miss implies !scattered_between(
                    outcome,
                    i,
                    n,
                ) by {
                    if scattered_between(outcome, i, n) {
                        assert(scattered_between(outcome, i + 1, n));
                    }
                }
            }
        } else if outcome(i) == Bounce::Miss {
            assert(scattered_between(outcome, i, i));
        } else {
            assert forall|n: nat|
                i <= n < i + depth && #[trigger] outcome(n) == Bounce::Miss implies !scattered_between(
                outcome,
                i,
                n,
            ) by {
                if n > i {
                    assert(outcome(i) != Bounce::Scattered);
                }
            }
        }
    }
}

} // verus!
