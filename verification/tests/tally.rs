use proposal_voting::tally::{meets_threshold, percentage};
use proposal_voting::VotingError;

#[test]
fn percentage_rounds_to_the_nearest_whole() {
    assert_eq!(percentage(6, 10), Ok(60));
    assert_eq!(percentage(4, 10), Ok(40));
    assert_eq!(percentage(1, 3), Ok(33));
    assert_eq!(percentage(2, 3), Ok(67));
    assert_eq!(percentage(0, 5), Ok(0));
    assert_eq!(percentage(5, 5), Ok(100));
    assert_eq!(percentage(65535, 65535), Ok(100));
    assert_eq!(percentage(1, 65535), Ok(0));
}

#[test]
fn percentage_rounds_a_half_up() {
    assert_eq!(percentage(1, 8), Ok(13));
    assert_eq!(percentage(1, 200), Ok(1));
    assert_eq!(percentage(3, 200), Ok(2));
    assert_eq!(percentage(199, 200), Ok(100));
    assert_eq!(percentage(99, 200), Ok(50));
    assert_eq!(percentage(1, 1000), Ok(0));
    assert_eq!(percentage(4, 1000), Ok(0));
    assert_eq!(percentage(5, 1000), Ok(1));
}

#[test]
fn percentage_of_more_votes_than_the_total_is_not_cut_off() {
    assert_eq!(percentage(3, 1), Ok(300));
    assert_eq!(percentage(65535, 1), Ok(6553500));
    assert_eq!(meets_threshold(3, 1, 255), Ok(true));
}

#[test]
fn percentage_of_no_votes_is_rejected() {
    assert_eq!(percentage(0, 0), Err(VotingError::NoVotesCast));
    assert_eq!(percentage(5, 0), Err(VotingError::NoVotesCast));
    assert_eq!(meets_threshold(0, 0, 0), Err(VotingError::NoVotesCast));
    assert_eq!(meets_threshold(5, 0, 50), Err(VotingError::NoVotesCast));
}

#[test]
fn threshold_is_met_at_and_above_the_percentage() {
    assert_eq!(meets_threshold(6, 10, 50), Ok(true));
    assert_eq!(meets_threshold(4, 10, 50), Ok(false));
    assert_eq!(meets_threshold(6, 10, 60), Ok(true));
    assert_eq!(meets_threshold(6, 10, 61), Ok(false));
    assert_eq!(meets_threshold(0, 10, 0), Ok(true));
    assert_eq!(meets_threshold(0, 10, 1), Ok(false));
    assert_eq!(meets_threshold(10, 10, 100), Ok(true));
    assert_eq!(meets_threshold(10, 10, 101), Ok(false));
    // 12.5% counts as 13%
    assert_eq!(meets_threshold(1, 8, 13), Ok(true));
    assert_eq!(meets_threshold(1, 8, 14), Ok(false));
}

#[test]
fn percentage_agrees_with_rounding_the_exact_ratio() {
    for total in [1u16, 2, 3, 7, 8, 10, 200, 999, 65535] {
        for votes in [0u16, 1, 2, 3, 5, 7, 100, 999, 65535] {
            if votes > total {
                continue;
            }
            let exact = (f64::from(votes) * 100.0 / f64::from(total)).round();
            assert_eq!(percentage(votes, total), Ok(exact as u32));
        }
    }
}
