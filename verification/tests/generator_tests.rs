use dual_n_back::generator::{
    copy_index, draw_batch, draw_roll, draw_stimulus, generate_initial, generate_next,
    generate_next_from, generate_stimulus, random_stimulus, Roll, StimulusDraw,
};
use dual_n_back::random::flip;
use dual_n_back::settings::FULL_SCALE;
use dual_n_back::stimulus::{Stimulus, TargetAudio, TargetLocation};
use rand::rngs::StdRng;
use rand::SeedableRng;

fn stimulus_number(i: u32) -> Stimulus {
    Stimulus {
        location: TargetLocation::from_index(i % 9).unwrap(),
        audio: TargetAudio::from_index(i % 8).unwrap(),
    }
}

fn roll(value: u32, toward_earlier: bool) -> Roll {
    Roll { value, toward_earlier }
}

fn fresh_draw(fresh: Stimulus) -> StimulusDraw {
    StimulusDraw { location: roll(FULL_SCALE, false), audio: roll(FULL_SCALE, false), fresh }
}

#[test]
fn initial_batch_has_level_elements() {
    let mut rng = StdRng::seed_from_u64(11);
    for level in 0..40u32 {
        assert_eq!(generate_initial(level, &mut rng).len(), level as usize);
    }
}

#[test]
fn next_batch_has_level_elements() {
    let mut rng = StdRng::seed_from_u64(12);
    for level in 1..40u32 {
        let first = generate_initial(level, &mut rng);
        let second = generate_next(&first, level, 1_250, 2_000, &mut rng);
        assert_eq!(second.len(), level as usize);
        let third = generate_next(&second, level, 1_250, 2_000, &mut rng);
        assert_eq!(third.len(), level as usize);
    }
}

#[test]
fn same_seed_gives_the_same_batches() {
    let mut one = StdRng::seed_from_u64(2024);
    let mut two = StdRng::seed_from_u64(2024);
    let first_one = generate_initial(6, &mut one);
    let first_two = generate_initial(6, &mut two);
    assert_eq!(first_one, first_two);
    let next_one = generate_next(&first_one, 6, 3_000, 3_000, &mut one);
    let next_two = generate_next(&first_two, 6, 3_000, 3_000, &mut two);
    assert_eq!(next_one, next_two);
}

#[test]
fn same_draws_give_the_same_batch() {
    let mut rng = StdRng::seed_from_u64(5);
    let previous = generate_initial(7, &mut rng);
    let draws = draw_batch(7, &mut rng);
    let one = generate_next_from(&previous, 7, 2_500, 2_500, &draws);
    let two = generate_next_from(&previous, 7, 2_500, 2_500, &draws);
    assert_eq!(one, two);
    assert_eq!(one.len(), 7);
}

#[test]
fn drawn_rolls_lie_below_full_scale() {
    let mut rng = StdRng::seed_from_u64(99);
    for _ in 0..2_000 {
        assert!(draw_roll(&mut rng).value < FULL_SCALE);
    }
    for _ in 0..500 {
        let draw = draw_stimulus(&mut rng);
        assert!(draw.location.value < FULL_SCALE);
        assert!(draw.audio.value < FULL_SCALE);
    }
    for draw in draw_batch(300, &mut rng) {
        assert!(draw.location.value < FULL_SCALE);
        assert!(draw.audio.value < FULL_SCALE);
    }
}

#[test]
fn random_coordinates_cover_every_value() {
    let mut rng = StdRng::seed_from_u64(3);
    let mut locations = [false; 9];
    let mut letters = [false; 8];
    let mut heads = 0;
    for _ in 0..2_000 {
        locations[TargetLocation::random(&mut rng).index() as usize] = true;
        letters[TargetAudio::random(&mut rng).index() as usize] = true;
        if flip(&mut rng) {
            heads += 1;
        }
    }
    assert!(locations.iter().all(|seen| *seen));
    assert!(letters.iter().all(|seen| *seen));
    assert!(heads > 0 && heads < 2_000);
}

#[test]
fn initial_batches_cover_every_stimulus_value() {
    let mut rng = StdRng::seed_from_u64(14);
    let mut locations = [false; 9];
    let mut letters = [false; 8];
    for stimulus in generate_initial(400, &mut rng) {
        locations[stimulus.location.index() as usize] = true;
        letters[stimulus.audio.index() as usize] = true;
    }
    let one = random_stimulus(&mut rng);
    locations[one.location.index() as usize] = true;
    assert!(locations.iter().all(|seen| *seen));
    assert!(letters.iter().all(|seen| *seen));
}

#[test]
fn roll_below_match_chance_repeats_the_same_index() {
    assert_eq!(copy_index(0, 3, roll(0, false), 1_250, 0), Some(0));
    assert_eq!(copy_index(1, 3, roll(1_249, true), 1_250, 0), Some(1));
    assert_eq!(copy_index(2, 3, roll(1_249, true), 1_250, 5_000), Some(2));
    assert_eq!(copy_index(0, 1, roll(0, true), 1, 0), Some(0));
}

#[test]
fn roll_at_match_chance_is_no_match() {
    assert_eq!(copy_index(1, 3, roll(1_250, true), 1_250, 0), None);
    assert_eq!(copy_index(1, 3, roll(0, true), 0, 0), None);
}

#[test]
fn lure_at_last_index_takes_the_index_before() {
    assert_eq!(copy_index(2, 3, roll(1_500, true), 1_000, 2_000), Some(1));
    assert_eq!(copy_index(2, 3, roll(1_500, false), 1_000, 2_000), Some(1));
    assert_eq!(copy_index(1, 2, roll(1_500, false), 1_000, 2_000), Some(0));
}

#[test]
fn lure_at_first_index_takes_the_index_after() {
    assert_eq!(copy_index(0, 3, roll(1_500, true), 1_000, 2_000), Some(1));
    assert_eq!(copy_index(0, 3, roll(1_500, false), 1_000, 2_000), Some(1));
    assert_eq!(copy_index(0, 2, roll(1_500, true), 1_000, 2_000), Some(1));
}

#[test]
fn lure_in_the_middle_follows_the_coin() {
    assert_eq!(copy_index(1, 3, roll(1_500, true), 1_000, 2_000), Some(0));
    assert_eq!(copy_index(1, 3, roll(1_500, false), 1_000, 2_000), Some(2));
    assert_eq!(copy_index(3, 6, roll(1_000, true), 1_000, 2_000), Some(2));
    assert_eq!(copy_index(3, 6, roll(2_999, false), 1_000, 2_000), Some(4));
}

#[test]
fn no_lure_in_a_batch_of_one() {
    assert_eq!(copy_index(0, 1, roll(1_500, true), 1_000, 2_000), None);
    assert_eq!(copy_index(0, 1, roll(1_500, false), 1_000, 2_000), None);
}

#[test]
fn roll_beyond_both_chances_draws_afresh() {
    assert_eq!(copy_index(1, 3, roll(3_000, true), 1_000, 2_000), None);
    assert_eq!(copy_index(1, 3, roll(9_999, false), 1_000, 2_000), None);
}

#[test]
fn chances_beyond_the_range_of_u32_do_not_wrap() {
    assert_eq!(copy_index(1, 3, roll(u32::MAX, true), u32::MAX, u32::MAX), Some(0));
    assert_eq!(copy_index(1, 3, roll(5, true), 4, u32::MAX), Some(0));
}

#[test]
fn coordinates_are_decided_independently() {
    let previous = vec![stimulus_number(0), stimulus_number(1), stimulus_number(2)];
    let fresh = Stimulus { location: TargetLocation::BottomRight, audio: TargetAudio::T };
    // location matches, the letter is drawn afresh
    let draw = StimulusDraw { location: roll(0, false), audio: roll(9_999, false), fresh };
    assert_eq!(
        generate_stimulus(&previous, 1, draw, 1_250, 0),
        Stimulus { location: TargetLocation::TopMiddle, audio: TargetAudio::T }
    );
    // the letter matches, the location is a lure of the index before
    let draw = StimulusDraw { location: roll(1_300, true), audio: roll(100, false), fresh };
    assert_eq!(
        generate_stimulus(&previous, 1, draw, 1_250, 100),
        Stimulus { location: TargetLocation::TopLeft, audio: TargetAudio::H }
    );
    // both drawn afresh
    let draw = StimulusDraw { location: roll(5_000, true), audio: roll(5_000, true), fresh };
    assert_eq!(generate_stimulus(&previous, 1, draw, 1_250, 100), fresh);
}

#[test]
fn next_batch_from_given_draws() {
    let a = Stimulus { location: TargetLocation::TopLeft, audio: TargetAudio::C };
    let b = Stimulus { location: TargetLocation::BottomRight, audio: TargetAudio::T };
    let fresh = Stimulus { location: TargetLocation::CenterMiddle, audio: TargetAudio::K };
    let previous = vec![a, b];
    let draws = vec![
        StimulusDraw { location: roll(0, true), audio: roll(9_999, true), fresh },
        StimulusDraw { location: roll(1_250, false), audio: roll(1_300, true), fresh },
    ];
    let batch = generate_next_from(&previous, 2, 1_250, 100, &draws);
    assert_eq!(
        batch,
        vec![
            Stimulus { location: TargetLocation::TopLeft, audio: TargetAudio::K },
            Stimulus { location: TargetLocation::TopLeft, audio: TargetAudio::C },
        ]
    );
}

#[test]
fn full_match_chance_repeats_the_previous_batch() {
    let mut rng = StdRng::seed_from_u64(8);
    let previous = generate_initial(9, &mut rng);
    let next = generate_next(&previous, 9, FULL_SCALE, 0, &mut rng);
    assert_eq!(next, previous);
}

#[test]
fn without_chances_every_stimulus_is_the_fresh_one() {
    let previous: Vec<Stimulus> = (0..5).map(stimulus_number).collect();
    let draws: Vec<StimulusDraw> = (10..15).map(|i| fresh_draw(stimulus_number(i))).collect();
    let batch = generate_next_from(&previous, 5, 0, 0, &draws);
    let expected: Vec<Stimulus> = (10..15).map(stimulus_number).collect();
    assert_eq!(batch, expected);
}
