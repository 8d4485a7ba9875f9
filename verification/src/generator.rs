//! The stimulus generator.
//!
//! The first batch of a session is drawn uniformly. Every later batch is
//! derived from the batch before it, index by index and separately for the
//! location and for the letter: with a configured chance a coordinate repeats
//! the one at the same index of the previous batch (a true match `level`
//! trials back), with another configured chance it repeats a neighbouring
//! index of the previous batch (a lure one trial off), and otherwise it is
//! drawn afresh.
//!
//! All randomness enters as a [`StimulusDraw`] per stimulus, so that the
//! batch is a function of the previous batch, the two chances and the draws.

use rand::rngs::StdRng;
use vstd::prelude::*;

use crate::random::{draw_below, flip};
use crate::settings::FULL_SCALE;
use crate::stimulus::{Stimulus, TargetAudio, TargetLocation};

verus! {

/// The random numbers that decide one coordinate of a stimulus.
#[derive(Clone, Copy, Debug, PartialEq, Eq, Structural)]
pub struct Roll {
    /// A number on the scale of chances; uniformly drawn below
    /// [`FULL_SCALE`] when it comes from the generator.
    pub value: u32,
    /// The coin that picks the side of a lure: `true` for the index before,
    /// `false` for the index after.
    pub toward_earlier: bool,
}

/// The random numbers that decide one stimulus of a batch.
#[derive(Clone, Copy, Debug, PartialEq, Eq, Structural)]
pub struct StimulusDraw {
    pub location: Roll,
    pub audio: Roll,
    /// The stimulus to show where a coordinate is neither a match nor a lure.
    pub fresh: Stimulus,
}

impl StimulusDraw {
    /// Both rolls lie below [`FULL_SCALE`], as rolls from the generator do.
    pub open spec fn in_range(&self) -> bool {
        self.location.value < FULL_SCALE && self.audio.value < FULL_SCALE
    }
}

/// Every draw of the sequence has its rolls below [`FULL_SCALE`].
pub open spec fn all_in_range(draws: Seq<StimulusDraw>) -> bool {
    forall|i: int| 0 <= i < draws.len() ==> (#[trigger] draws[i]).in_range()
}

/// The neighbour that a lure at index `i` of a batch of `level` stimuli
/// copies: the index before at the last index; elsewhere the side the coin
/// names, except that the first index has nothing before it and takes the
/// index after.
pub open spec fn lure_index(i: int, level: int, toward_earlier: bool) -> int {
    if i == level - 1 {
        i - 1
    } else if toward_earlier && i != 0 {
        i - 1
    } else {
        i + 1
    }
}

/// The index of the previous batch whose coordinate is repeated at index `i`,
/// or `None` where the coordinate is drawn afresh.
///
/// A roll below `match_chance` repeats index `i` itself. Failing that, when
/// the batch has more than one stimulus, a roll below
/// `match_chance + lure_chance` repeats the neighbour [`lure_index`] names.
pub open spec fn copied_index(
    i: int,
    level: int,
    roll: Roll,
    match_chance: u32,
    lure_chance: u32,
) -> Option<int> {
    if roll.value < match_chance {
        Some(i)
    } else if level > 1 && roll.value < match_chance + lure_chance {
        Some(lure_index(i, level, roll.toward_earlier))
    } else {
        None
    }
}

/// The stimulus at index `i` of the batch that follows `previous`.
pub open spec fn next_stimulus(
    previous: Seq<Stimulus>,
    i: int,
    draw: StimulusDraw,
    match_chance: u32,
    lure_chance: u32,
) -> Stimulus {
    Stimulus {
        location: match copied_index(
            i,
            previous.len() as int,
            draw.location,
            match_chance,
            lure_chance,
        ) {
            Some(j) => previous[j].location,
            None => draw.fresh.location,
        },
        audio: match copied_index(i, previous.len() as int, draw.audio, match_chance, lure_chance) {
            Some(j) => previous[j].audio,
            None => draw.fresh.audio,
        },
    }
}

/// The batch that follows `previous`, given one draw per index.
pub open spec fn next_batch(
    previous: Seq<Stimulus>,
    draws: Seq<StimulusDraw>,
    match_chance: u32,
    lure_chance: u32,
) -> Seq<Stimulus> {
    Seq::new(
        previous.len(),
        |i: int| next_stimulus(previous, i, draws[i], match_chance, lure_chance),
    )
}

/// Generation is deterministic: the next batch has as many stimuli as the
/// previous one and depends on nothing but the previous batch, the two
/// chances and the draws at the indices of the batch. Two runs that agree on
/// these give the same batch.
pub proof fn lemma_next_batch_is_determined(
    previous: Seq<Stimulus>,
    draws: Seq<StimulusDraw>,
    other: Seq<StimulusDraw>,
    match_chance: u32,
    lure_chance: u32,
)
    requires
        forall|i: int| 0 <= i < previous.len() ==> draws[i] == other[i],
    ensures
        next_batch(previous, draws, match_chance, lure_chance).len() == previous.len(),
        next_batch(previous, draws, match_chance, lure_chance) == next_batch(
            previous,
            other,
            match_chance,
            lure_chance,
        ),
{
    assert(next_batch(previous, draws, match_chance, lure_chance) =~= next_batch(
        previous,
        other,
        match_chance,
        lure_chance,
    ));
}

/// A roll below the match chance forces a true match: the coordinate equals
/// the one at the same index of the previous batch. A lure, when one is
/// made, repeats an index next to it.
pub proof fn lemma_roll_decides_the_source(
    previous: Seq<Stimulus>,
    i: int,
    draw: StimulusDraw,
    match_chance: u32,
    lure_chance: u32,
)
    requires
        0 <= i < previous.len(),
    ensures
        draw.location.value < match_chance ==> next_stimulus(
            previous,
            i,
            draw,
            match_chance,
            lure_chance,
        ).location == previous[i].location,
        draw.audio.value < match_chance ==> next_stimulus(
            previous,
            i,
            draw,
            match_chance,
            lure_chance,
        ).audio == previous[i].audio,
        copied_index(i, previous.len() as int, draw.location, match_chance, lure_chance)
            matches Some(j) ==> 0 <= j < previous.len() && -1 <= j - i <= 1,
        copied_index(i, previous.len() as int, draw.audio, match_chance, lure_chance) matches Some(
            j,
        ) ==> 0 <= j < previous.len() && -1 <= j - i <= 1,
{
}

/// Decides where the coordinate at index `i` comes from: `Some(j)` to repeat
/// index `j` of the previous batch, `None` to take the fresh coordinate.
pub fn copy_index(i: usize, level: usize, roll: Roll, match_chance: u32, lure_chance: u32) -> (source:
    Option<usize>)
    requires
        i < level,
    ensures
        match source {
            Some(j) => copied_index(i as int, level as int, roll, match_chance, lure_chance)
                == Some(j as int) && j < level,
            None => copied_index(i as int, level as int, roll, match_chance, lure_chance) is None,
        },
        source matches Some(j) ==> j == i || (level > 1 && (j + 1 == i || j == i + 1)),
{
    if roll.value < match_chance {
        Some(i)
    } else if level > 1 && (roll.value as u64) < match_chance as u64 + lure_chance as u64 {
        if i == level - 1 {
            Some(i - 1)
        } else if roll.toward_earlier && i != 0 {
            Some(i - 1)
        } else {
            Some(i + 1)
        }
    } else {
        None
    }
}

/// Builds the stimulus at index `i` of the batch that follows `previous`.
pub fn generate_stimulus(
    previous: &Vec<Stimulus>,
    i: usize,
    draw: StimulusDraw,
    match_chance: u32,
    lure_chance: u32,
) -> (stimulus: Stimulus)
    requires
        i < previous@.len(),
    ensures
        stimulus == next_stimulus(previous@, i as int, draw, match_chance, lure_chance),
{
    let level = previous.len();
    let location = match copy_index(i, level, draw.location, match_chance, lure_chance) {
        Some(j) => previous[j].location,
        None => draw.fresh.location,
    };
    let audio = match copy_index(i, level, draw.audio, match_chance, lure_chance) {
        Some(j) => previous[j].audio,
        None => draw.fresh.audio,
    };
    Stimulus { location, audio }
}

/// Builds the batch that follows `previous` from one draw per index.
///
/// The batch is a function of the arguments: the same previous batch, level,
/// chances and draws always give the same batch.
pub fn generate_next_from(
    previous: &Vec<Stimulus>,
    level: u32,
    match_chance: u32,
    lure_chance: u32,
    draws: &Vec<StimulusDraw>,
) -> (batch: Vec<Stimulus>)
    requires
        previous@.len() == level,
        draws@.len() == level,
    ensures
        batch@.len() == level,
        batch@ == next_batch(previous@, draws@, match_chance, lure_chance),
{
    let n = previous.len();
    let mut batch: Vec<Stimulus> = Vec::new();
    let mut i: usize = 0;
    while i < n
        invariant
            i <= n,
            n == previous@.len(),
            n == draws@.len(),
            batch@.len() == i,
            forall|k: int|
                0 <= k < i ==> batch@[k] == next_stimulus(
                    previous@,
                    k,
                    draws@[k],
                    match_chance,
                    lure_chance,
                ),
        decreases n - i,
    {
        let stimulus = generate_stimulus(previous, i, draws[i], match_chance, lure_chance);
        batch.push(stimulus);
        i = i + 1;
    }
    assert(batch@ =~= next_batch(previous@, draws@, match_chance, lure_chance));
    batch
}

/// Draws the random numbers for one coordinate.
pub fn draw_roll(rng: &mut StdRng) -> (roll: Roll)
    ensures
        roll.value < FULL_SCALE,
{
    let value = draw_below(rng, FULL_SCALE);
    let toward_earlier = flip(rng);
    Roll { value, toward_earlier }
}

/// Draws a stimulus, each coordinate with the same chance for every value.
pub fn random_stimulus(rng: &mut StdRng) -> Stimulus {
    Stimulus { location: TargetLocation::random(rng), audio: TargetAudio::random(rng) }
}

/// Draws the random numbers for one stimulus.
pub fn draw_stimulus(rng: &mut StdRng) -> (draw: StimulusDraw)
    ensures
        draw.in_range(),
{
    let fresh = random_stimulus(rng);
    let location = draw_roll(rng);
    let audio = draw_roll(rng);
    StimulusDraw { location, audio, fresh }
}

/// Draws the random numbers for a batch of `level` stimuli.
pub fn draw_batch(level: u32, rng: &mut StdRng) -> (draws: Vec<StimulusDraw>)
    ensures
        draws@.len() == level,
        all_in_range(draws@),
{
    let mut draws: Vec<StimulusDraw> = Vec::new();
    let mut i: u32 = 0;
    while i < level
        invariant
            i <= level,
            draws@.len() == i,
            all_in_range(draws@),
        decreases level - i,
    {
        let draw = draw_stimulus(rng);
        draws.push(draw);
        i = i + 1;
    }
    draws
}

/// Draws the first batch of a session: `level` stimuli, each coordinate
/// uniformly random. Nothing precedes this batch, so it is never scored.
pub fn generate_initial(level: u32, rng: &mut StdRng) -> (batch: Vec<Stimulus>)
    ensures
        batch@.len() == level,
{
    let mut batch: Vec<Stimulus> = Vec::new();
    let mut i: u32 = 0;
    while i < level
        invariant
            i <= level,
            batch@.len() == i,
        decreases level - i,
    {
        let stimulus = random_stimulus(rng);
        batch.push(stimulus);
        i = i + 1;
    }
    batch
}

/// Draws the batch that follows `previous`.
///
/// Whatever the generator returns, the batch has `level` stimuli and is the
/// one [`next_batch`] gives for some draws with their rolls in range. With a
/// match chance of 100 % that is the previous batch once more.
pub fn generate_next(
    previous: &Vec<Stimulus>,
    level: u32,
    match_chance: u32,
    lure_chance: u32,
    rng: &mut StdRng,
) -> (batch: Vec<Stimulus>)
    requires
        previous@.len() == level,
    ensures
        batch@.len() == level,
        exists|draws: Seq<StimulusDraw>|
            draws.len() == level && all_in_range(draws) && batch@ == #[trigger] next_batch(
                previous@,
                draws,
                match_chance,
                lure_chance,
            ),
        match_chance >= FULL_SCALE ==> batch@ == previous@,
{
    let draws = draw_batch(level, rng);
    let batch = generate_next_from(previous, level, match_chance, lure_chance, &draws);
    assert(match_chance >= FULL_SCALE ==> batch@ =~= previous@);
    batch
}

} // verus!
