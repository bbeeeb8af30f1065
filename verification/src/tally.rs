//! The tally rule: a proposal's share of all votes, as a whole percentage
//! rounded half up, held against its threshold.

use vstd::prelude::*;
use vstd::arithmetic::div_mod::lemma_fundamental_div_mod;
use vstd::arithmetic::div_mod::lemma_mod_bound;
use crate::error::VotingError;

verus! {

/// The share `votes / total_votes` as a percentage, rounded to the nearest
/// whole number, a half rounding up.
pub open spec fn spec_percentage(votes: nat, total_votes: nat) -> nat
    recommends
        total_votes > 0,
{
    (200 * votes + total_votes) / (2 * total_votes)
}

/// Whether a proposal with `votes` out of `total_votes` reaches `threshold`.
pub open spec fn spec_wins(votes: nat, total_votes: nat, threshold: nat) -> bool
    recommends
        total_votes > 0,
{
    spec_percentage(votes, total_votes) >= threshold
}

/// The percentage is the whole number nearest to the exact ratio: it lies
/// within one half of `100 * votes / total_votes`, and an exact half goes up.
pub proof fn lemma_percentage_is_nearest(votes: nat, total_votes: nat)
    requires
        total_votes > 0,
    ensures
        (2 * spec_percentage(votes, total_votes) - 1) * total_votes <= 200 * votes,
        200 * votes < (2 * spec_percentage(votes, total_votes) + 1) * total_votes,
{
    let x: int = (200 * votes + total_votes) as int;
    let d: int = (2 * total_votes) as int;
    let p: int = x / d;
    lemma_fundamental_div_mod(x, d);
    lemma_mod_bound(x, d);
    assert(d * p == 2 * p * total_votes) by (nonlinear_arith)
        requires
            d == 2 * total_votes,
    ;
    assert((2 * p - 1) * total_votes == 2 * p * total_votes - total_votes) by (nonlinear_arith);
    assert((2 * p + 1) * total_votes == 2 * p * total_votes + total_votes) by (nonlinear_arith);
}

/// A proposal that received nothing stands at zero percent, and one that
/// received every vote at one hundred.
pub proof fn lemma_percentage_bounds(votes: nat, total_votes: nat)
    requires
        total_votes > 0,
        votes <= total_votes,
    ensures
        spec_percentage(votes, total_votes) <= 100,
        votes == 0 ==> spec_percentage(votes, total_votes) == 0,
        votes == total_votes ==> spec_percentage(votes, total_votes) == 100,
{
    lemma_percentage_is_nearest(votes, total_votes);
    let p: int = spec_percentage(votes, total_votes) as int;
    let t: int = total_votes as int;
    assert(p <= 100) by (nonlinear_arith)
        requires
            (2 * p - 1) * t <= 200 * t,
            t > 0,
    ;
    if votes == 0 {
        assert(p == 0) by (nonlinear_arith)
            requires
                (2 * p - 1) * t <= 0,
                t > 0,
                p >= 0,
        ;
    }
    if votes == total_votes {
        assert(p >= 100) by (nonlinear_arith)
            requires
                200 * t < (2 * p + 1) * t,
                t > 0,
        ;
    }
}

/// A threshold of zero is met by every proposal once any vote has been cast,
/// also by a proposal that received none.
pub proof fn lemma_zero_threshold_wins(votes: nat, total_votes: nat)
    requires
        total_votes > 0,
    ensures
        spec_wins(votes, total_votes, 0),
{
}

/// More votes out of the same total never lower the percentage.
pub proof fn lemma_percentage_monotonic(fewer: nat, more: nat, total_votes: nat)
    requires
        total_votes > 0,
        fewer <= more,
    ensures
        spec_percentage(fewer, total_votes) <= spec_percentage(more, total_votes),
{
    lemma_percentage_is_nearest(fewer, total_votes);
    lemma_percentage_is_nearest(more, total_votes);
    let p: int = spec_percentage(fewer, total_votes) as int;
    let q: int = spec_percentage(more, total_votes) as int;
    let t: int = total_votes as int;
    assert(p <= q) by (nonlinear_arith)
        requires
            (2 * p - 1) * t < (2 * q + 1) * t,
            t > 0,
    ;
}

/// Computes the rounded percentage of `votes` out of `total_votes`.
/// With no votes cast there is no ratio, and the call is rejected.
pub fn percentage(votes: u16, total_votes: u16) -> (r: Result<u32, VotingError>)
    ensures
        total_votes == 0 ==> r == Err::<u32, VotingError>(VotingError::NoVotesCast),
        total_votes > 0 ==> r == Ok::<u32, VotingError>(
            spec_percentage(votes as nat, total_votes as nat) as u32,
        ),
        total_votes > 0 ==> spec_percentage(votes as nat, total_votes as nat) <= 6553500,
        r matches Ok(p) ==> (2 * p - 1) * total_votes <= 200 * votes < (2 * p + 1)
            * total_votes,
{
    if total_votes == 0 {
        return Err(VotingError::NoVotesCast);
    }
    let v: u32 = votes as u32;
    let t: u32 = total_votes as u32;
    proof {
        lemma_percentage_is_nearest(votes as nat, total_votes as nat);
        let p: int = spec_percentage(votes as nat, total_votes as nat) as int;
        let ti: int = total_votes as int;
        assert(p <= 6553500) by (nonlinear_arith)
            requires
                (2 * p - 1) * ti <= 200 * 65535,
                ti >= 1,
        ;
    }
    Ok((200 * v + t) / (2 * t))
}

/// Decides whether a proposal with `votes` out of `total_votes` reaches its
/// `threshold`. With no votes cast the call is rejected.
pub fn meets_threshold(votes: u16, total_votes: u16, threshold: u8) -> (r: Result<
    bool,
    VotingError,
>)
    ensures
        total_votes == 0 ==> r == Err::<bool, VotingError>(VotingError::NoVotesCast),
        total_votes > 0 ==> r == Ok::<bool, VotingError>(
            spec_wins(votes as nat, total_votes as nat, threshold as nat),
        ),
{
    match percentage(votes, total_votes) {
        Ok(p) => Ok(p >= threshold as u32),
        Err(e) => Err(e),
    }
}

} // verus!
