use voteinfo::outcome::{divide, MetricError, Outcome, Ratio};

fn outcome(yes: u32, no: u32, cast: u32, eligible: u32) -> Outcome {
    Outcome {
        count_completed: true,
        yes_votes: yes,
        no_votes: no,
        cast_ballot_papers: cast,
        eligible_voters: eligible,
    }
}

#[test]
fn valid_votes_adds_yes_and_no() {
    assert_eq!(outcome(60, 40, 105, 200).valid_votes(), 100);
    assert_eq!(outcome(0, 0, 0, 0).valid_votes(), 0);
}

#[test]
fn valid_votes_does_not_wrap() {
    assert_eq!(outcome(u32::MAX, u32::MAX, 0, 0).valid_votes(), 8_589_934_590);
}

#[test]
fn invalid_votes_is_the_rest_of_the_ballot_papers() {
    assert_eq!(outcome(60, 40, 105, 200).invalid_votes(), Ok(5));
    assert_eq!(outcome(60, 40, 100, 200).invalid_votes(), Ok(0));
}

#[test]
fn invalid_votes_underflow_is_an_error() {
    assert_eq!(
        outcome(60, 41, 100, 200).invalid_votes(),
        Err(MetricError::ArithmeticUnderflow { cast_ballot_papers: 100, valid_votes: 101 })
    );
    assert_eq!(
        outcome(2, 0, 1, 0).invalid_votes(),
        Err(MetricError::ArithmeticUnderflow { cast_ballot_papers: 1, valid_votes: 2 })
    );
}

#[test]
fn yes_and_no_ratio_are_exact() {
    let o = outcome(60, 40, 105, 200);
    assert_eq!(o.yes_ratio(), Ok(Ratio { numerator: 60, denominator: 100 }));
    assert_eq!(o.no_ratio(), Ok(Ratio { numerator: 40, denominator: 100 }));
}

#[test]
fn yes_and_no_ratio_add_up_to_one() {
    let o = outcome(1_234_567, 7_654_321, 9_000_000, 10_000_000);
    let yes = o.yes_ratio().unwrap();
    let no = o.no_ratio().unwrap();
    assert_eq!(yes.denominator, no.denominator);
    assert_eq!(yes.numerator + no.numerator, yes.denominator);
    let sum = yes.numerator as f64 / yes.denominator as f64
        + no.numerator as f64 / no.denominator as f64;
    assert!((sum - 1.0).abs() < 1e-12);
}

#[test]
fn ratios_without_valid_votes_are_undefined() {
    let o = outcome(0, 0, 10, 200);
    assert_eq!(o.yes_ratio(), Err(MetricError::UndefinedRatio));
    assert_eq!(o.no_ratio(), Err(MetricError::UndefinedRatio));
}

#[test]
fn zero_ratio_differs_from_undefined_ratio() {
    let o = outcome(0, 7, 10, 200);
    assert_eq!(o.yes_ratio(), Ok(Ratio { numerator: 0, denominator: 7 }));
    assert_ne!(o.yes_ratio(), outcome(0, 0, 10, 200).yes_ratio());
}

#[test]
fn valid_votes_ratio_without_ballot_papers_is_undefined() {
    assert_eq!(outcome(0, 0, 0, 200).valid_votes_ratio(), Err(MetricError::UndefinedRatio));
    assert_eq!(outcome(3, 4, 0, 200).valid_votes_ratio(), Err(MetricError::UndefinedRatio));
}

#[test]
fn valid_and_invalid_ratio_add_up_to_one() {
    let o = outcome(60, 40, 105, 200);
    let valid = o.valid_votes_ratio().unwrap();
    let invalid = o.invalid_votes_ratio().unwrap();
    assert_eq!(valid, Ratio { numerator: 100, denominator: 105 });
    assert_eq!(invalid, Ratio { numerator: 5, denominator: 105 });
    assert_eq!(valid.numerator + invalid.numerator, valid.denominator);
}

#[test]
fn invalid_votes_ratio_hands_on_the_underflow() {
    assert_eq!(
        outcome(2, 0, 1, 5).invalid_votes_ratio(),
        Err(MetricError::ArithmeticUnderflow { cast_ballot_papers: 1, valid_votes: 2 })
    );
    assert_eq!(
        outcome(2, 0, 0, 5).invalid_votes_ratio(),
        Err(MetricError::ArithmeticUnderflow { cast_ballot_papers: 0, valid_votes: 2 })
    );
}

#[test]
fn invalid_votes_ratio_without_ballot_papers_is_undefined() {
    assert_eq!(outcome(0, 0, 0, 5).invalid_votes_ratio(), Err(MetricError::UndefinedRatio));
}

#[test]
fn turnout_is_valid_votes_over_eligible_voters() {
    let o = outcome(60, 40, 105, 200);
    let turnout = o.turnout().unwrap();
    assert_eq!(turnout, Ratio { numerator: 100, denominator: 200 });
    assert!(turnout.numerator <= turnout.denominator);
}

#[test]
fn turnout_without_eligible_voters_is_undefined() {
    assert_eq!(outcome(60, 40, 105, 0).turnout(), Err(MetricError::UndefinedRatio));
}

#[test]
fn divide_keeps_both_counts() {
    assert_eq!(divide(3, 4), Ok(Ratio { numerator: 3, denominator: 4 }));
    assert_eq!(divide(3, 0), Err(MetricError::UndefinedRatio));
    assert_eq!(divide(0, 4), Ok(Ratio { numerator: 0, denominator: 4 }));
}
