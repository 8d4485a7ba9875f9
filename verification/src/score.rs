//! Response classification and score keeping.
//!
//! Each scored trial yields one classification per modality. Correct
//! rejections are not counted; the other three outcomes feed six counters,
//! from which the percent score of the session is taken.

use vstd::prelude::*;

use crate::settings::FULL_SCALE;

verus! {

/// The modality a response belongs to, named after the button that gives it.
#[derive(Clone, Copy, Debug, PartialEq, Eq, Structural)]
pub enum StimuliButtonAction {
    MatchPosition,
    MatchAudio,
}

/// The response state of one modality during one trial.
#[derive(Clone, Copy, Debug, PartialEq, Eq, Structural)]
pub enum MatchState {
    /// The player has signalled a match in this trial.
    Match,
    /// The trial awaits a response; none has come yet.
    NonResponse,
    /// Responses are not taken: the session is still in its warm-up.
    Inactive,
}

/// How a response compares with the truth.
#[derive(Clone, Copy, Debug, PartialEq, Eq, Structural)]
pub enum Classification {
    /// A match, and the player signalled it.
    Correct,
    /// A match that the player missed.
    FalseNegative,
    /// No match, but the player signalled one.
    FalsePositive,
    /// No match and no signal. Not scored.
    TrueNegative,
}

/// The six counters of a session.
#[derive(Clone, Copy, Debug, PartialEq, Eq, Structural)]
pub struct Score {
    pub position_correct: u32,
    pub audio_correct: u32,
    pub position_false_positive: u32,
    pub audio_false_positive: u32,
    pub position_false_negative: u32,
    pub audio_false_negative: u32,
}

/// The score of a session as the exact ratio `100 * correct / considered`
/// percent. Where nothing was considered the score is 0 %.
#[derive(Clone, Copy, Debug, PartialEq, Eq, Structural)]
pub struct PercentScore {
    pub correct: u64,
    pub considered: u64,
}

/// The classification of a response: whether the stimulus matched the one
/// `level` trials back, against whether the player signalled a match.
pub open spec fn classification(is_match: bool, signaled: bool) -> Classification {
    if is_match {
        if signaled {
            Classification::Correct
        } else {
            Classification::FalseNegative
        }
    } else {
        if signaled {
            Classification::FalsePositive
        } else {
            Classification::TrueNegative
        }
    }
}

/// Classifies the response recorded for a completed trial.
pub fn classify(is_match: bool, response: MatchState) -> (outcome: Classification)
    ensures
        outcome == classification(is_match, response == MatchState::Match),
{
    let signaled = response == MatchState::Match;
    if is_match {
        if signaled {
            Classification::Correct
        } else {
            Classification::FalseNegative
        }
    } else {
        if signaled {
            Classification::FalsePositive
        } else {
            Classification::TrueNegative
        }
    }
}

/// A signalled match counts once: it is classified as correct, and counting
/// it raises the correct counter of its modality by exactly one and leaves
/// the other five counters as they were.
pub proof fn lemma_signaled_match_counts_once(score: Score, modality: StimuliButtonAction)
    requires
        score.has_room(modality, Classification::Correct),
    ensures
        classification(true, true) == Classification::Correct,
        ({
            let after = score.recorded(modality, classification(true, true));
            &&& after.position_false_positive == score.position_false_positive
            &&& after.position_false_negative == score.position_false_negative
            &&& after.audio_false_positive == score.audio_false_positive
            &&& after.audio_false_negative == score.audio_false_negative
            &&& match modality {
                StimuliButtonAction::MatchPosition => {
                    &&& after.position_correct == score.position_correct + 1
                    &&& after.audio_correct == score.audio_correct
                },
                StimuliButtonAction::MatchAudio => {
                    &&& after.audio_correct == score.audio_correct + 1
                    &&& after.position_correct == score.position_correct
                },
            }
        }),
{
}

/// Only a classification changes its own counter: counting an outcome of
/// one modality never touches a counter of the other, and a correct
/// rejection touches none.
pub proof fn lemma_counters_are_separate(score: Score, outcome: Classification)
    ensures
        score.recorded(StimuliButtonAction::MatchPosition, outcome).audio_total()
            == score.audio_total(),
        score.recorded(StimuliButtonAction::MatchAudio, outcome).position_total()
            == score.position_total(),
        score.recorded(StimuliButtonAction::MatchPosition, Classification::TrueNegative) == score,
        score.recorded(StimuliButtonAction::MatchAudio, Classification::TrueNegative) == score,
{
}

/// The product of a threshold and a count, in a type wide enough for it.
fn product(threshold: u32, count: u64) -> (product: u128)
    ensures
        product == threshold * count,
{
    assert(threshold * count <= u32::MAX * u64::MAX) by (nonlinear_arith)
        requires
            threshold <= u32::MAX,
            count <= u64::MAX,
    ;
    threshold as u128 * count as u128
}

impl MatchState {
    /// The state after a match signal: a modality that awaits a response
    /// takes it; in any other state the signal is ignored.
    pub open spec fn after_signal(self) -> MatchState {
        if self == MatchState::NonResponse {
            MatchState::Match
        } else {
            self
        }
    }

    /// Takes a match signal. The first signal of a trial wins; further ones
    /// and signals during the warm-up change nothing.
    pub fn signal(&mut self)
        ensures
            *final(self) == old(self).after_signal(),
    {
        if *self == MatchState::NonResponse {
            *self = MatchState::Match;
        }
    }

    /// Whether the host should offer the response button of this modality:
    /// only while a response is awaited.
    pub fn accepts_signal(self) -> (open: bool)
        ensures
            open == (self == MatchState::NonResponse),
    {
        self == MatchState::NonResponse
    }
}

impl Score {
    /// The score of a session in which nothing has been classified.
    pub open spec fn zero() -> Score {
        Score {
            position_correct: 0,
            audio_correct: 0,
            position_false_positive: 0,
            audio_false_positive: 0,
            position_false_negative: 0,
            audio_false_negative: 0,
        }
    }

    /// The counter that a classification of a modality feeds, or `None` for
    /// a correct rejection.
    pub open spec fn counter(self, modality: StimuliButtonAction, outcome: Classification) -> Option<
        u32,
    > {
        match (modality, outcome) {
            (_, Classification::TrueNegative) => None,
            (StimuliButtonAction::MatchPosition, Classification::Correct) => Some(
                self.position_correct,
            ),
            (StimuliButtonAction::MatchPosition, Classification::FalsePositive) => Some(
                self.position_false_positive,
            ),
            (StimuliButtonAction::MatchPosition, Classification::FalseNegative) => Some(
                self.position_false_negative,
            ),
            (StimuliButtonAction::MatchAudio, Classification::Correct) => Some(self.audio_correct),
            (StimuliButtonAction::MatchAudio, Classification::FalsePositive) => Some(
                self.audio_false_positive,
            ),
            (StimuliButtonAction::MatchAudio, Classification::FalseNegative) => Some(
                self.audio_false_negative,
            ),
        }
    }

    /// Whether the counter that the classification feeds has room for one
    /// more.
    pub open spec fn has_room(self, modality: StimuliButtonAction, outcome: Classification) -> bool {
        match self.counter(modality, outcome) {
            Some(count) => count < u32::MAX,
            None => true,
        }
    }

    /// The score with one more classification counted.
    pub open spec fn recorded(self, modality: StimuliButtonAction, outcome: Classification) -> Score {
        match (modality, outcome) {
            (_, Classification::TrueNegative) => self,
            (StimuliButtonAction::MatchPosition, Classification::Correct) => Score {
                position_correct: (self.position_correct + 1) as u32,
                ..self
            },
            (StimuliButtonAction::MatchPosition, Classification::FalsePositive) => Score {
                position_false_positive: (self.position_false_positive + 1) as u32,
                ..self
            },
            (StimuliButtonAction::MatchPosition, Classification::FalseNegative) => Score {
                position_false_negative: (self.position_false_negative + 1) as u32,
                ..self
            },
            (StimuliButtonAction::MatchAudio, Classification::Correct) => Score {
                audio_correct: (self.audio_correct + 1) as u32,
                ..self
            },
            (StimuliButtonAction::MatchAudio, Classification::FalsePositive) => Score {
                audio_false_positive: (self.audio_false_positive + 1) as u32,
                ..self
            },
            (StimuliButtonAction::MatchAudio, Classification::FalseNegative) => Score {
                audio_false_negative: (self.audio_false_negative + 1) as u32,
                ..self
            },
        }
    }

    /// Number of scored location responses.
    pub open spec fn position_total(self) -> int {
        self.position_correct + self.position_false_positive + self.position_false_negative
    }

    /// Number of scored audio responses.
    pub open spec fn audio_total(self) -> int {
        self.audio_correct + self.audio_false_positive + self.audio_false_negative
    }

    /// Number of correct responses of both modalities.
    pub open spec fn correct(self) -> int {
        self.position_correct + self.audio_correct
    }

    /// Number of scored responses of both modalities.
    pub open spec fn considered(self) -> int {
        self.position_total() + self.audio_total()
    }

    /// The percent score of the counters: `100 * correct / considered`
    /// percent, kept as the exact ratio.
    pub open spec fn percent(self) -> PercentScore {
        PercentScore { correct: self.correct() as u64, considered: self.considered() as u64 }
    }

    /// A score with all counters at zero.
    pub fn new() -> (score: Score)
        ensures
            score == Score::zero(),
    {
        Score {
            position_correct: 0,
            audio_correct: 0,
            position_false_positive: 0,
            audio_false_positive: 0,
            position_false_negative: 0,
            audio_false_negative: 0,
        }
    }

    /// Counts one classification: a correct response, a false positive or a
    /// false negative raises its counter by one, a correct rejection leaves
    /// the score as it is.
    pub fn record(&mut self, modality: StimuliButtonAction, outcome: Classification)
        requires
            old(self).has_room(modality, outcome),
        ensures
            *final(self) == old(self).recorded(modality, outcome),
    {
        match modality {
            StimuliButtonAction::MatchPosition => match outcome {
                Classification::Correct => {
                    self.position_correct = self.position_correct + 1;
                },
                Classification::FalsePositive => {
                    self.position_false_positive = self.position_false_positive + 1;
                },
                Classification::FalseNegative => {
                    self.position_false_negative = self.position_false_negative + 1;
                },
                Classification::TrueNegative => {},
            },
            StimuliButtonAction::MatchAudio => match outcome {
                Classification::Correct => {
                    self.audio_correct = self.audio_correct + 1;
                },
                Classification::FalsePositive => {
                    self.audio_false_positive = self.audio_false_positive + 1;
                },
                Classification::FalseNegative => {
                    self.audio_false_negative = self.audio_false_negative + 1;
                },
                Classification::TrueNegative => {},
            },
        }
    }

    /// The percent score of the counters: correct responses over scored
    /// responses.
    pub fn percent_score(&self) -> (percent: PercentScore)
        ensures
            percent == self.percent(),
            percent.wf(),
    {
        let correct = self.position_correct as u64 + self.audio_correct as u64;
        let wrong = self.position_false_positive as u64 + self.position_false_negative as u64
            + self.audio_false_positive as u64 + self.audio_false_negative as u64;
        PercentScore { correct, considered: correct + wrong }
    }
}

impl PercentScore {
    /// No more responses are correct than were considered, and the count is
    /// one that six counters can hold.
    pub open spec fn wf(self) -> bool {
        self.correct <= self.considered && self.considered <= 6 * u32::MAX
    }

    /// The score is strictly above `threshold` hundredths of a percent.
    pub open spec fn is_above(self, threshold: u32) -> bool {
        self.considered > 0 && FULL_SCALE * self.correct > threshold * self.considered
    }

    /// The score is strictly below `threshold` hundredths of a percent.
    pub open spec fn is_below(self, threshold: u32) -> bool {
        if self.considered == 0 {
            0 < threshold
        } else {
            FULL_SCALE * self.correct < threshold * self.considered
        }
    }

    /// The score is exactly `threshold` hundredths of a percent.
    pub open spec fn is_exactly(self, threshold: u32) -> bool {
        !self.is_above(threshold) && !self.is_below(threshold)
    }

    /// The score in whole percent, rounded down.
    pub open spec fn in_percent(self) -> int {
        if self.considered == 0 {
            0
        } else {
            100 * self.correct / self.considered as int
        }
    }

    /// The score in hundredths of a percent, rounded to the nearest, halves
    /// up.
    pub open spec fn in_hundredths(self) -> int {
        if self.considered == 0 {
            0
        } else {
            (2 * (FULL_SCALE * self.correct) + self.considered) / (2 * self.considered)
        }
    }

    /// Whether the two counts can come from the counters of a session.
    pub fn is_consistent(&self) -> (ok: bool)
        ensures
            ok == self.wf(),
    {
        self.correct <= self.considered && self.considered <= 6 * (u32::MAX as u64)
    }

    /// Whether the score is strictly above `threshold`.
    pub fn above(&self, threshold: u32) -> (yes: bool)
        ensures
            yes == self.is_above(threshold),
    {
        self.considered > 0 && product(FULL_SCALE, self.correct) > product(
            threshold,
            self.considered,
        )
    }

    /// Whether the score is strictly below `threshold`.
    pub fn below(&self, threshold: u32) -> (yes: bool)
        ensures
            yes == self.is_below(threshold),
    {
        if self.considered == 0 {
            0 < threshold
        } else {
            product(FULL_SCALE, self.correct) < product(threshold, self.considered)
        }
    }

    /// The score in whole percent, rounded down: 0 to 100.
    pub fn whole_percent(&self) -> (percent: u32)
        requires
            self.wf(),
        ensures
            percent == self.in_percent(),
            percent <= 100,
    {
        if self.considered == 0 {
            0
        } else {
            let scaled: u64 = 100 * self.correct;
            let percent: u64 = scaled / self.considered;
            assert(percent <= 100) by (nonlinear_arith)
                requires
                    percent == scaled / self.considered,
                    scaled <= 100 * self.considered,
                    self.considered > 0,
            ;
            percent as u32
        }
    }

    /// The score in hundredths of a percent, rounded to the nearest: 0 to
    /// 10 000.
    pub fn rounded_hundredths(&self) -> (value: u32)
        requires
            self.wf(),
        ensures
            value == self.in_hundredths(),
            value <= FULL_SCALE,
    {
        if self.considered == 0 {
            0
        } else {
            let scaled: u128 = product(FULL_SCALE, self.correct);
            assert(scaled <= FULL_SCALE * self.considered) by (nonlinear_arith)
                requires
                    scaled == FULL_SCALE * self.correct,
                    self.correct <= self.considered,
            ;
            let doubled: u128 = 2 * scaled + self.considered as u128;
            let divisor: u128 = 2 * self.considered as u128;
            let value: u128 = doubled / divisor;
            assert(value <= FULL_SCALE) by (nonlinear_arith)
                requires
                    value == doubled / divisor,
                    doubled <= FULL_SCALE * divisor + self.considered,
                    divisor == 2 * self.considered,
                    self.considered > 0,
            ;
            value as u32
        }
    }
}

} // verus!
