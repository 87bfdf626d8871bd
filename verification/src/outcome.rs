//! The tally of one area on one issue, and the figures derived from it.

use crate::json::{lemma_object_view, members_view, put_member, Json, JsonView};
use crate::wire::{
    fail, required, required_member, Fault, FieldError, FieldErrorView, FromJson, ToJson,
};
use vstd::prelude::*;

verus! {

/// The counts reported for one area on one issue.
#[derive(Clone, Copy, Debug, PartialEq, Eq, Structural)]
pub struct Outcome {
    /// Whether counting has finished for this area.
    pub count_completed: bool,
    pub yes_votes: u32,
    pub no_votes: u32,
    pub cast_ballot_papers: u32,
    pub eligible_voters: u32,
}

impl View for Outcome {
    type V = Outcome;

    open spec fn view(&self) -> Outcome {
        *self
    }
}

impl DeepView for Outcome {
    type V = Outcome;

    open spec fn deep_view(&self) -> Outcome {
        *self
    }
}

impl FromJson for Outcome {
    open spec fn decoded(json: JsonView) -> Result<Outcome, FieldErrorView> {
        match json {
            JsonView::Object(m) => {
                let count_completed = required::<bool>(m, "gebietAusgezaehlt"@);
                let yes_votes = required::<u32>(m, "jaStimmenAbsolut"@);
                let no_votes = required::<u32>(m, "neinStimmenAbsolut"@);
                let cast_ballot_papers = required::<u32>(m, "eingelegteStimmzettel"@);
                let eligible_voters = required::<u32>(m, "anzahlStimmberechtigte"@);
                if count_completed is Err {
                    Err(count_completed->Err_0)
                } else if yes_votes is Err {
                    Err(yes_votes->Err_0)
                } else if no_votes is Err {
                    Err(no_votes->Err_0)
                } else if cast_ballot_papers is Err {
                    Err(cast_ballot_papers->Err_0)
                } else if eligible_voters is Err {
                    Err(eligible_voters->Err_0)
                } else {
                    Ok(
                        Outcome {
                            count_completed: count_completed->Ok_0,
                            yes_votes: yes_votes->Ok_0,
                            no_votes: no_votes->Ok_0,
                            cast_ballot_papers: cast_ballot_papers->Ok_0,
                            eligible_voters: eligible_voters->Ok_0,
                        },
                    )
                }
            },
            _ => Err(fail(Fault::Mismatch)),
        }
    }

    fn from_json(json: &Json) -> (read: Result<Outcome, FieldError>) {
        match json {
            Json::Object(m) => {
                proof {
                    lemma_object_view(*m);
                }
                let count_completed = required_member::<bool>(m, "gebietAusgezaehlt")?;
                let yes_votes = required_member::<u32>(m, "jaStimmenAbsolut")?;
                let no_votes = required_member::<u32>(m, "neinStimmenAbsolut")?;
                let cast_ballot_papers = required_member::<u32>(m, "eingelegteStimmzettel")?;
                let eligible_voters = required_member::<u32>(m, "anzahlStimmberechtigte")?;
                Ok(
                    Outcome {
                        count_completed,
                        yes_votes,
                        no_votes,
                        cast_ballot_papers,
                        eligible_voters,
                    },
                )
            },
            _ => Err(FieldError::new(Fault::Mismatch)),
        }
    }
}

impl ToJson for Outcome {
    open spec fn encoded(value: Outcome) -> JsonView {
        JsonView::Object(
            map![
                "gebietAusgezaehlt"@ => bool::encoded(value.count_completed),
                "jaStimmenAbsolut"@ => u32::encoded(value.yes_votes),
                "neinStimmenAbsolut"@ => u32::encoded(value.no_votes),
                "eingelegteStimmzettel"@ => u32::encoded(value.cast_ballot_papers),
                "anzahlStimmberechtigte"@ => u32::encoded(value.eligible_voters),
            ],
        )
    }

    fn to_json(&self) -> (json: Json) {
        let mut m: Vec<(String, Json)> = Vec::new();
        assert(members_view(m@) =~= Map::empty());
        put_member(&mut m, "gebietAusgezaehlt", self.count_completed.to_json());
        put_member(&mut m, "jaStimmenAbsolut", self.yes_votes.to_json());
        put_member(&mut m, "neinStimmenAbsolut", self.no_votes.to_json());
        put_member(&mut m, "eingelegteStimmzettel", self.cast_ballot_papers.to_json());
        put_member(&mut m, "anzahlStimmberechtigte", self.eligible_voters.to_json());
        proof {
            lemma_object_view(m);
        }
        Json::Object(m)
    }

    proof fn lemma_round_trip(value: Outcome) {
        // The names are told apart by their lengths.
        reveal_strlit("gebietAusgezaehlt");
        reveal_strlit("jaStimmenAbsolut");
        reveal_strlit("neinStimmenAbsolut");
        reveal_strlit("eingelegteStimmzettel");
        reveal_strlit("anzahlStimmberechtigte");
        assert("gebietAusgezaehlt"@.len() == 17);
        assert("jaStimmenAbsolut"@.len() == 16);
        assert("neinStimmenAbsolut"@.len() == 18);
        assert("eingelegteStimmzettel"@.len() == 21);
        assert("anzahlStimmberechtigte"@.len() == 22);
    }
}

/// An exact quotient of two counts. The denominator of every ratio that this
/// module hands out is positive.
#[derive(Clone, Copy, Debug, PartialEq, Eq, Structural)]
pub struct Ratio {
    pub numerator: u64,
    pub denominator: u64,
}

/// Why a figure cannot be derived from an outcome.
#[derive(Clone, Copy, Debug, PartialEq, Eq, Structural)]
pub enum MetricError {
    /// Fewer ballot papers were cast than valid votes were counted, so the
    /// number of invalid votes would be negative.
    ArithmeticUnderflow { cast_ballot_papers: u32, valid_votes: u64 },
    /// The denominator of the ratio is zero.
    UndefinedRatio,
}

/// `numerator / denominator`, or `UndefinedRatio` where the denominator is zero.
pub open spec fn quotient(numerator: int, denominator: int) -> Result<Ratio, MetricError> {
    if denominator == 0 {
        Err(MetricError::UndefinedRatio)
    } else {
        Ok(Ratio { numerator: numerator as u64, denominator: denominator as u64 })
    }
}

impl Ratio {
    /// The two ratios add up to exactly one.
    pub open spec fn sums_to_one_with(self, other: Ratio) -> bool {
        self.numerator * other.denominator + other.numerator * self.denominator
            == self.denominator * other.denominator
    }

    /// The ratio lies between zero and one, both included.
    pub open spec fn within_unit_interval(self) -> bool {
        0 <= self.numerator <= self.denominator
    }
}

impl Outcome {
    /// The number of valid votes: yes and no together.
    pub open spec fn spec_valid_votes(self) -> int {
        self.yes_votes + self.no_votes
    }

    /// The ballot papers cast less the valid votes, where that is not
    /// negative.
    pub open spec fn spec_invalid_votes(self) -> Result<u64, MetricError> {
        if self.cast_ballot_papers >= self.spec_valid_votes() {
            Ok((self.cast_ballot_papers - self.spec_valid_votes()) as u64)
        } else {
            Err(
                MetricError::ArithmeticUnderflow {
                    cast_ballot_papers: self.cast_ballot_papers,
                    valid_votes: self.spec_valid_votes() as u64,
                },
            )
        }
    }

    /// Yes votes over valid votes.
    pub open spec fn spec_yes_ratio(self) -> Result<Ratio, MetricError> {
        quotient(self.yes_votes as int, self.spec_valid_votes())
    }

    /// No votes over valid votes.
    pub open spec fn spec_no_ratio(self) -> Result<Ratio, MetricError> {
        quotient(self.no_votes as int, self.spec_valid_votes())
    }

    /// Valid votes over ballot papers cast.
    pub open spec fn spec_valid_votes_ratio(self) -> Result<Ratio, MetricError> {
        quotient(self.spec_valid_votes(), self.cast_ballot_papers as int)
    }

    /// Invalid votes over ballot papers cast.
    pub open spec fn spec_invalid_votes_ratio(self) -> Result<Ratio, MetricError> {
        match self.spec_invalid_votes() {
            Ok(invalid) => quotient(invalid as int, self.cast_ballot_papers as int),
            Err(e) => Err(e),
        }
    }

    /// Valid votes over eligible voters.
    pub open spec fn spec_turnout(self) -> Result<Ratio, MetricError> {
        quotient(self.spec_valid_votes(), self.eligible_voters as int)
    }

    /// The number of valid votes: yes and no together.
    pub fn valid_votes(&self) -> (valid: u64)
        ensures
            valid == self.yes_votes + self.no_votes,
    {
        self.yes_votes as u64 + self.no_votes as u64
    }

    /// The number of ballot papers that carried no valid vote. An outcome that
    /// reports more valid votes than ballot papers has no such number.
    pub fn invalid_votes(&self) -> (invalid: Result<u64, MetricError>)
        ensures
            invalid == self.spec_invalid_votes(),
            invalid is Ok <==> self.cast_ballot_papers >= self.yes_votes + self.no_votes,
            invalid is Ok ==> invalid->Ok_0 == self.cast_ballot_papers - (self.yes_votes
                + self.no_votes),
            invalid is Err ==> invalid->Err_0 is ArithmeticUnderflow,
    {
        let valid = self.valid_votes();
        let cast = self.cast_ballot_papers as u64;
        if cast >= valid {
            Ok(cast - valid)
        } else {
            Err(
                MetricError::ArithmeticUnderflow {
                    cast_ballot_papers: self.cast_ballot_papers,
                    valid_votes: valid,
                },
            )
        }
    }

    /// The share of yes among the valid votes. It is undefined where no valid
    /// vote was counted.
    pub fn yes_ratio(&self) -> (ratio: Result<Ratio, MetricError>)
        ensures
            ratio == self.spec_yes_ratio(),
            ratio is Ok <==> self.yes_votes + self.no_votes > 0,
            ratio is Err ==> ratio->Err_0 == MetricError::UndefinedRatio,
    {
        divide(self.yes_votes as u64, self.valid_votes())
    }

    /// The share of no among the valid votes. It is undefined where no valid
    /// vote was counted.
    pub fn no_ratio(&self) -> (ratio: Result<Ratio, MetricError>)
        ensures
            ratio == self.spec_no_ratio(),
            ratio is Ok <==> self.yes_votes + self.no_votes > 0,
            ratio is Err ==> ratio->Err_0 == MetricError::UndefinedRatio,
    {
        divide(self.no_votes as u64, self.valid_votes())
    }

    /// The share of valid votes among the ballot papers cast. It is undefined
    /// where no ballot paper was cast.
    pub fn valid_votes_ratio(&self) -> (ratio: Result<Ratio, MetricError>)
        ensures
            ratio == self.spec_valid_votes_ratio(),
            ratio is Ok <==> self.cast_ballot_papers > 0,
            ratio is Err ==> ratio->Err_0 == MetricError::UndefinedRatio,
    {
        divide(self.valid_votes(), self.cast_ballot_papers as u64)
    }

    /// The share of invalid votes among the ballot papers cast. It has no
    /// value where the number of invalid votes has none, and is undefined where
    /// no ballot paper was cast.
    pub fn invalid_votes_ratio(&self) -> (ratio: Result<Ratio, MetricError>)
        ensures
            ratio == self.spec_invalid_votes_ratio(),
            ratio is Ok <==> self.cast_ballot_papers > 0 && self.cast_ballot_papers
                >= self.yes_votes + self.no_votes,
            self.cast_ballot_papers < self.yes_votes + self.no_votes ==> ratio is Err
                && ratio->Err_0 is ArithmeticUnderflow,
            self.cast_ballot_papers == 0 && self.yes_votes + self.no_votes == 0 ==> ratio is Err
                && ratio->Err_0 == MetricError::UndefinedRatio,
    {
        match self.invalid_votes() {
            Ok(invalid) => divide(invalid, self.cast_ballot_papers as u64),
            Err(e) => Err(e),
        }
    }

    /// The share of the eligible voters who cast a valid vote. It is undefined
    /// where nobody is eligible.
    pub fn turnout(&self) -> (ratio: Result<Ratio, MetricError>)
        ensures
            ratio == self.spec_turnout(),
            ratio is Ok <==> self.eligible_voters > 0,
            ratio is Err ==> ratio->Err_0 == MetricError::UndefinedRatio,
    {
        divide(self.valid_votes(), self.eligible_voters as u64)
    }
}

/// Divides one count by another.
pub fn divide(numerator: u64, denominator: u64) -> (ratio: Result<Ratio, MetricError>)
    ensures
        ratio == quotient(numerator as int, denominator as int),
        ratio is Ok <==> denominator > 0,
        ratio is Ok ==> ratio->Ok_0.denominator > 0,
{
    if denominator == 0 {
        Err(MetricError::UndefinedRatio)
    } else {
        Ok(Ratio { numerator, denominator })
    }
}

/// Where valid votes were counted, and no more than ballot papers were cast,
/// the shares of yes and of no add up to one.
pub proof fn lemma_yes_and_no_add_up(outcome: Outcome)
    requires
        outcome.cast_ballot_papers >= outcome.yes_votes + outcome.no_votes,
        outcome.yes_votes + outcome.no_votes > 0,
    ensures
        outcome.spec_yes_ratio() is Ok,
        outcome.spec_no_ratio() is Ok,
        outcome.spec_yes_ratio()->Ok_0.sums_to_one_with(outcome.spec_no_ratio()->Ok_0),
{
    let yes = outcome.yes_votes as int;
    let no = outcome.no_votes as int;
    let valid = yes + no;
    assert(yes * valid + no * valid == valid * valid) by (nonlinear_arith)
        requires
            valid == yes + no,
    ;
}

/// Where ballot papers were cast, and no fewer than valid votes were counted,
/// the shares of valid and of invalid votes add up to one.
pub proof fn lemma_valid_and_invalid_add_up(outcome: Outcome)
    requires
        outcome.cast_ballot_papers > 0,
        outcome.cast_ballot_papers >= outcome.yes_votes + outcome.no_votes,
    ensures
        outcome.spec_valid_votes_ratio() is Ok,
        outcome.spec_invalid_votes_ratio() is Ok,
        outcome.spec_valid_votes_ratio()->Ok_0.sums_to_one_with(
            outcome.spec_invalid_votes_ratio()->Ok_0,
        ),
{
    let cast = outcome.cast_ballot_papers as int;
    let valid = outcome.yes_votes + outcome.no_votes;
    let invalid = cast - valid;
    assert(valid * cast + invalid * cast == cast * cast) by (nonlinear_arith)
        requires
            cast == valid + invalid,
    ;
}

/// Where valid votes were counted, and no more than voters are eligible, the
/// turnout lies between zero and one.
pub proof fn lemma_turnout_within_unit_interval(outcome: Outcome)
    requires
        outcome.eligible_voters >= outcome.yes_votes + outcome.no_votes,
        outcome.yes_votes + outcome.no_votes > 0,
    ensures
        outcome.spec_turnout() is Ok,
        outcome.spec_turnout()->Ok_0.within_unit_interval(),
{
}

} // verus!
