use dual_n_back::level::adjust_level;
use dual_n_back::score::{
    classify, Classification, MatchState, PercentScore, Score, StimuliButtonAction,
};

fn counters(
    position_correct: u32,
    audio_correct: u32,
    position_false_positive: u32,
    audio_false_positive: u32,
    position_false_negative: u32,
    audio_false_negative: u32,
) -> Score {
    Score {
        position_correct,
        audio_correct,
        position_false_positive,
        audio_false_positive,
        position_false_negative,
        audio_false_negative,
    }
}

#[test]
fn classification_table() {
    assert_eq!(classify(true, MatchState::Match), Classification::Correct);
    assert_eq!(classify(true, MatchState::NonResponse), Classification::FalseNegative);
    assert_eq!(classify(false, MatchState::Match), Classification::FalsePositive);
    assert_eq!(classify(false, MatchState::NonResponse), Classification::TrueNegative);
}

#[test]
fn a_modality_in_warm_up_has_not_signalled() {
    assert_eq!(classify(true, MatchState::Inactive), Classification::FalseNegative);
    assert_eq!(classify(false, MatchState::Inactive), Classification::TrueNegative);
}

#[test]
fn first_signal_wins() {
    let mut state = MatchState::NonResponse;
    assert!(state.accepts_signal());
    state.signal();
    assert_eq!(state, MatchState::Match);
    assert!(!state.accepts_signal());
    state.signal();
    assert_eq!(state, MatchState::Match);
}

#[test]
fn signal_in_warm_up_is_dropped() {
    let mut state = MatchState::Inactive;
    assert!(!state.accepts_signal());
    state.signal();
    assert_eq!(state, MatchState::Inactive);
}

#[test]
fn new_score_is_zero() {
    assert_eq!(Score::new(), counters(0, 0, 0, 0, 0, 0));
}

#[test]
fn each_classification_feeds_its_own_counter() {
    let mut score = Score::new();
    score.record(StimuliButtonAction::MatchPosition, Classification::Correct);
    assert_eq!(score, counters(1, 0, 0, 0, 0, 0));
    score.record(StimuliButtonAction::MatchAudio, Classification::Correct);
    assert_eq!(score, counters(1, 1, 0, 0, 0, 0));
    score.record(StimuliButtonAction::MatchPosition, Classification::FalsePositive);
    assert_eq!(score, counters(1, 1, 1, 0, 0, 0));
    score.record(StimuliButtonAction::MatchAudio, Classification::FalsePositive);
    assert_eq!(score, counters(1, 1, 1, 1, 0, 0));
    score.record(StimuliButtonAction::MatchPosition, Classification::FalseNegative);
    assert_eq!(score, counters(1, 1, 1, 1, 1, 0));
    score.record(StimuliButtonAction::MatchAudio, Classification::FalseNegative);
    assert_eq!(score, counters(1, 1, 1, 1, 1, 1));
}

#[test]
fn true_negatives_are_not_counted() {
    let mut score = counters(3, 1, 4, 1, 5, 9);
    score.record(StimuliButtonAction::MatchPosition, Classification::TrueNegative);
    score.record(StimuliButtonAction::MatchAudio, Classification::TrueNegative);
    assert_eq!(score, counters(3, 1, 4, 1, 5, 9));
}

#[test]
fn signalled_location_match_raises_position_correct_only() {
    let mut score = counters(2, 7, 1, 8, 2, 8);
    let outcome = classify(true, MatchState::Match);
    score.record(StimuliButtonAction::MatchPosition, outcome);
    assert_eq!(score, counters(3, 7, 1, 8, 2, 8));
}

#[test]
fn scenario_ten_correct_of_fourteen_keeps_the_level() {
    let score = counters(5, 5, 2, 0, 0, 2);
    let percent = score.percent_score();
    assert_eq!(percent, PercentScore { correct: 10, considered: 14 });
    assert_eq!(percent.whole_percent(), 71);
    assert_eq!(percent.rounded_hundredths(), 7_143);
    assert!(!percent.above(8_000));
    assert!(!percent.below(5_000));
    assert_eq!(adjust_level(2, percent, 8_000, 5_000), 2);
}

#[test]
fn scenario_nothing_considered_scores_zero_and_lowers_to_one() {
    let percent = Score::new().percent_score();
    assert_eq!(percent, PercentScore { correct: 0, considered: 0 });
    assert_eq!(percent.whole_percent(), 0);
    assert_eq!(percent.rounded_hundredths(), 0);
    assert!(percent.below(5_000));
    assert!(!percent.above(0));
    assert_eq!(adjust_level(2, percent, 8_000, 5_000), 1);
    assert_eq!(adjust_level(1, percent, 8_000, 5_000), 1);
}

#[test]
fn percent_score_counts_all_six_counters() {
    let percent = counters(1, 2, 3, 4, 5, 6).percent_score();
    assert_eq!(percent, PercentScore { correct: 3, considered: 21 });
    assert_eq!(percent.whole_percent(), 14);
    assert_eq!(percent.rounded_hundredths(), 1_429);
}

#[test]
fn percent_score_of_full_counters_does_not_overflow() {
    let max = u32::MAX;
    let percent = counters(max, max, max, max, max, max).percent_score();
    assert_eq!(percent.correct, 2 * max as u64);
    assert_eq!(percent.considered, 6 * max as u64);
    assert_eq!(percent.whole_percent(), 33);
    assert_eq!(percent.rounded_hundredths(), 3_333);
    assert!(percent.above(3_333));
    assert!(percent.below(3_334));
}

#[test]
fn percent_scores_of_counters_are_consistent() {
    assert!(counters(1, 2, 3, 4, 5, 6).percent_score().is_consistent());
    assert!(Score::new().percent_score().is_consistent());
    let max = u32::MAX;
    assert!(counters(max, max, max, max, max, max).percent_score().is_consistent());
    assert!(!PercentScore { correct: 3, considered: 2 }.is_consistent());
    assert!(!PercentScore { correct: 0, considered: 6 * max as u64 + 1 }.is_consistent());
}

#[test]
fn perfect_and_empty_scores() {
    let perfect = counters(4, 4, 0, 0, 0, 0).percent_score();
    assert_eq!(perfect.whole_percent(), 100);
    assert_eq!(perfect.rounded_hundredths(), 10_000);
    let none_right = counters(0, 0, 1, 1, 1, 1).percent_score();
    assert_eq!(none_right.whole_percent(), 0);
    assert_eq!(none_right.rounded_hundredths(), 0);
}

#[test]
fn hundredths_round_to_the_nearest() {
    // 1/3 = 33.333.. %, 2/3 = 66.666.. %, 1/8 = 12.5 %
    assert_eq!(PercentScore { correct: 1, considered: 3 }.rounded_hundredths(), 3_333);
    assert_eq!(PercentScore { correct: 2, considered: 3 }.rounded_hundredths(), 6_667);
    assert_eq!(PercentScore { correct: 1, considered: 8 }.rounded_hundredths(), 1_250);
    // 1/16 = 6.25 %, 1/32 = 3.125 %: the half rounds up
    assert_eq!(PercentScore { correct: 1, considered: 16 }.rounded_hundredths(), 625);
    assert_eq!(PercentScore { correct: 1, considered: 32 }.rounded_hundredths(), 313);
    assert_eq!(PercentScore { correct: 2, considered: 3 }.whole_percent(), 66);
}

#[test]
fn score_above_raise_threshold_raises_the_level() {
    let percent = PercentScore { correct: 9, considered: 10 };
    assert!(percent.above(8_000));
    assert_eq!(adjust_level(2, percent, 8_000, 5_000), 3);
    assert_eq!(adjust_level(1, percent, 8_000, 5_000), 2);
}

#[test]
fn score_below_lower_threshold_lowers_the_level() {
    let percent = PercentScore { correct: 4, considered: 10 };
    assert!(percent.below(5_000));
    assert_eq!(adjust_level(3, percent, 8_000, 5_000), 2);
    assert_eq!(adjust_level(2, percent, 8_000, 5_000), 1);
}

#[test]
fn score_between_the_thresholds_keeps_the_level() {
    let percent = PercentScore { correct: 6, considered: 10 };
    assert_eq!(adjust_level(3, percent, 8_000, 5_000), 3);
}

#[test]
fn score_exactly_on_the_raise_threshold_keeps_the_level() {
    let percent = PercentScore { correct: 8, considered: 10 };
    assert!(!percent.above(8_000));
    assert_eq!(adjust_level(4, percent, 8_000, 5_000), 4);
    // one hundredth of a percent less and the same score raises
    assert!(percent.above(7_999));
    assert_eq!(adjust_level(4, percent, 7_999, 5_000), 5);
}

#[test]
fn score_exactly_on_the_lower_threshold_keeps_the_level() {
    let percent = PercentScore { correct: 5, considered: 10 };
    assert!(!percent.below(5_000));
    assert_eq!(adjust_level(4, percent, 8_000, 5_000), 4);
    // one hundredth of a percent more and the same score lowers
    assert!(percent.below(5_001));
    assert_eq!(adjust_level(4, percent, 8_000, 5_001), 3);
}

#[test]
fn thresholds_compare_exactly_where_the_percent_is_no_whole_number() {
    // 2/3 is above 66.66 % and below 66.67 %
    let percent = PercentScore { correct: 2, considered: 3 };
    assert!(percent.above(6_666));
    assert!(percent.below(6_667));
    // 1/8 is exactly 12.5 %
    let eighth = PercentScore { correct: 1, considered: 8 };
    assert!(!eighth.above(1_250));
    assert!(!eighth.below(1_250));
}

#[test]
fn level_one_never_drops() {
    let percent = PercentScore { correct: 0, considered: 12 };
    assert_eq!(adjust_level(1, percent, 8_000, 5_000), 1);
    let empty = PercentScore { correct: 0, considered: 0 };
    assert_eq!(adjust_level(1, empty, 8_000, 5_000), 1);
}

#[test]
fn zero_score_with_zero_lower_threshold_keeps_the_level() {
    let empty = PercentScore { correct: 0, considered: 0 };
    assert!(!empty.below(0));
    assert_eq!(adjust_level(3, empty, 8_000, 0), 3);
}

#[test]
fn raise_is_checked_before_lower() {
    // thresholds out of order: 50 % is above the raise and below the lower
    let percent = PercentScore { correct: 5, considered: 10 };
    assert_eq!(adjust_level(1, percent, 2_000, 8_000), 2);
    // on the raise threshold the lower threshold still applies
    assert_eq!(adjust_level(3, percent, 5_000, 8_000), 2);
}
