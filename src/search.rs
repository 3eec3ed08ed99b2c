use vstd::prelude::*;
use crate::between::Betweenable;

verus! {

/// Whether a candidate transition point lies below or above the search
/// target, with a witness for that side.
pub enum Direction<A, B> {
    Low(A),
    High(B),
}

/// `f` is monotone on the open interval `(lo, hi)` with threshold `t`: every
/// candidate below `t` is classified `Low`, every other one `High`.
pub open spec fn splits_at<X: Betweenable, A, B, F: FnMut(X) -> Direction<A, B>>(
    f: F,
    lo: int,
    hi: int,
    t: int,
) -> bool {
    forall|x: X, d: Direction<A, B>|
        lo < x.as_int() < hi && #[trigger] call_ensures(f, (x,), d) ==> (d is Low
            <==> x.as_int() < t)
}

/// One narrowing step: the classification `d` of the candidate `mid`
/// replaces exactly one side of the bracket, and the bracket shrinks.
pub fn narrow<X: Betweenable, A, B>(low: (X, A), high: (X, B), mid: X, d: Direction<A, B>) -> (r: (
    (X, A),
    (X, B),
))
    requires
        low.0.as_int() < mid.as_int() < high.0.as_int(),
    ensures
        low.0.as_int() <= r.0.0.as_int() < r.1.0.as_int() <= high.0.as_int(),
        match d {
            Direction::Low(w) => r.0 == (mid, w) && r.1 == high,
            Direction::High(w) => r.0 == low && r.1 == (mid, w),
        },
{
    match d {
        Direction::Low(w) => ((mid, w), high),
        Direction::High(w) => (low, (mid, w)),
    }
}

/// Bisects the bracket `(low, high)` with the classification `f` until no
/// midpoint is left, and returns the final bracket with the witnesses that
/// were last attached to each side.
///
/// Given a monotone `f`, the result holds the largest value classified `Low`
/// and the smallest value classified `High`.
pub fn binary_search<X, A, B, F>(low: (X, A), high: (X, B), f: F) -> (r: ((X, A), (X, B))) where
    X: Betweenable,
    F: FnMut(X) -> Direction<A, B>,

    requires
        forall|x: X|
            low.0.as_int() < #[trigger] x.as_int() < high.0.as_int() ==> call_requires(f, (x,)),
    ensures
        low.0.as_int() <= r.0.0.as_int(),
        r.1.0.as_int() <= high.0.as_int(),
        r.1.0.as_int() <= r.0.0.as_int() + 1,
        low.0.as_int() < high.0.as_int() ==> r.0.0.as_int() < r.1.0.as_int(),
        high.0.as_int() <= low.0.as_int() + 1 ==> r.0 == low && r.1 == high,
        r.0.0.as_int() == low.0.as_int() ==> r.0 == low,
        r.0.0.as_int() != low.0.as_int() ==> call_ensures(f, (r.0.0,), Direction::Low(r.0.1)),
        r.1.0.as_int() == high.0.as_int() ==> r.1 == high,
        r.1.0.as_int() != high.0.as_int() ==> call_ensures(f, (r.1.0,), Direction::High(r.1.1)),
        forall|t: int|
            low.0.as_int() < t <= high.0.as_int() && #[trigger] splits_at(
                f,
                low.0.as_int(),
                high.0.as_int(),
                t,
            ) ==> r.0.0.as_int() == t - 1 && r.1.0.as_int() == t,
{
    let mut classify = f;
    let mut lo = low;
    let mut hi = high;
    loop
        invariant
            classify == f,
            forall|x: X|
                low.0.as_int() < #[trigger] x.as_int() < high.0.as_int() ==> call_requires(
                    f,
                    (x,),
                ),
            low.0.as_int() <= lo.0.as_int(),
            hi.0.as_int() <= high.0.as_int(),
            low.0.as_int() < high.0.as_int() ==> lo.0.as_int() < hi.0.as_int(),
            high.0.as_int() <= low.0.as_int() + 1 ==> lo == low && hi == high,
            lo.0.as_int() == low.0.as_int() ==> lo == low,
            lo.0.as_int() != low.0.as_int() ==> lo.0.as_int() < high.0.as_int() && call_ensures(
                f,
                (lo.0,),
                Direction::Low(lo.1),
            ),
            hi.0.as_int() == high.0.as_int() ==> hi == high,
            hi.0.as_int() != high.0.as_int() ==> low.0.as_int() < hi.0.as_int()
                && call_ensures(f, (hi.0,), Direction::High(hi.1)),
        decreases hi.0.as_int() - lo.0.as_int(),
    {
        match X::between(lo.0, hi.0) {
            None => {
                return (lo, hi);
            },
            Some(x) => {
                let d = classify(x);
                let (a, b) = narrow(lo, hi, x, d);
                lo = a;
                hi = b;
            },
        }
    }
}

} // verus!
