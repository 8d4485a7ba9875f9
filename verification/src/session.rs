//! The trial session: the state machine that runs one play session.
//!
//! A session is created active, with its first batch of stimuli. Every clock
//! tick then scores the trial that just ended (once the warm-up of `level`
//! trials is over), opens the response window of the next trial, brings in a
//! new batch at each batch boundary, presents one stimulus and counts the
//! trial. The tick after the last trial scores that trial and closes the
//! session with its result. A session that is dropped before that tick has
//! no result.
//!
//! [`SessionView`] is the mathematical state of a session and
//! [`SessionView::step`] its transition function; the executable session is
//! proved to follow it.

use rand::rngs::StdRng;
use vstd::arithmetic::div_mod::lemma_mod_self_0;
use vstd::arithmetic::power::{lemma_pow_positive, pow};
use vstd::prelude::*;

use crate::generator::{
    all_in_range, draw_batch, generate_initial, generate_next_from, next_batch, StimulusDraw,
};
use crate::level::{adjust_level, adjusted_level};
use crate::score::{classification, classify, MatchState, PercentScore, Score, StimuliButtonAction};
use crate::settings::SettingValues;
use crate::stimulus::Stimulus;

verus! {

/// Whether a session still runs.
#[derive(Clone, Copy, Debug, PartialEq, Eq, Structural, Hash)]
pub enum SessionState {
    /// The session is closed: its result has been given out and further
    /// ticks are ignored.
    Exit,
    /// The session takes ticks and responses.
    Active,
}

impl Default for SessionState {
    fn default() -> (state: SessionState)
        ensures
            state == SessionState::Active,
    {
        SessionState::Active
    }
}

/// The trial counter of a session.
#[derive(Clone, Copy, Debug, PartialEq, Eq, Structural)]
pub struct TrialCount {
    /// Trials still to present.
    pub current_count: u32,
    /// Trials of the whole session.
    pub total_count: u32,
    /// Set once the last trial has been presented: the next tick closes the
    /// session.
    pub final_trial: bool,
}

/// The stimuli a session currently works with.
#[derive(Debug)]
pub struct StimuliGeneration {
    /// The batch being presented.
    pub stimuli: Vec<Stimulus>,
    /// The batch before it, against which responses are compared. Empty
    /// during the first batch.
    pub previous: Vec<Stimulus>,
    /// Index in `stimuli` of the stimulus presented last.
    pub index: usize,
}

/// What a completed session reports.
#[derive(Clone, Copy, Debug, PartialEq, Eq, Structural)]
pub struct SessionResult {
    pub level_at_completion: u32,
    pub percent_score: PercentScore,
    pub new_level: u32,
}

/// What a tick asks of the host.
#[derive(Clone, Copy, Debug, PartialEq, Eq, Structural)]
pub enum TickOutcome {
    /// Show the location and play the letter of this stimulus.
    Present(Stimulus),
    /// The session has just closed with this result.
    Finished(SessionResult),
    /// The session was closed before; the tick was ignored.
    Closed,
}

/// One play session.
pub struct TrialSession {
    level: u32,
    settings: SettingValues,
    trial_count: TrialCount,
    generation: StimuliGeneration,
    score: Score,
    position_state: MatchState,
    audio_state: MatchState,
    state: SessionState,
}

/// The state of a session as a mathematical value.
#[verifier::ext_equal]
pub struct SessionView {
    /// The level played, which is also how many trials back a match looks.
    pub level: u32,
    pub settings: SettingValues,
    /// Trials of the whole session.
    pub total: nat,
    /// Trials still to present.
    pub remaining: nat,
    pub final_trial: bool,
    /// The batch being presented.
    pub batch: Seq<Stimulus>,
    /// The batch before it.
    pub previous: Seq<Stimulus>,
    /// Index in `batch` of the stimulus presented last.
    pub index: nat,
    pub score: Score,
    /// Response state of the location modality.
    pub position: MatchState,
    /// Response state of the audio modality.
    pub audio: MatchState,
    pub state: SessionState,
}

/// Whether a session can be started at `level` with `settings`: the level is
/// at least 1 and has a successor, and the trial count fits in a `u32`.
pub open spec fn startable(level: u32, settings: SettingValues) -> bool {
    1 <= level < u32::MAX && settings.total_trials(level) <= u32::MAX
}

impl SessionView {
    /// The state a session starts in: all trials ahead, nothing scored, no
    /// responses taken yet.
    pub open spec fn initial(level: u32, settings: SettingValues, batch: Seq<Stimulus>) -> SessionView {
        SessionView {
            level,
            settings,
            total: settings.total_trials(level) as nat,
            remaining: settings.total_trials(level) as nat,
            final_trial: settings.total_trials(level) == 0,
            batch,
            previous: Seq::empty(),
            index: 0,
            score: Score::zero(),
            position: MatchState::Inactive,
            audio: MatchState::Inactive,
            state: SessionState::Active,
        }
    }

    /// Trials presented so far.
    pub open spec fn completed(self) -> int {
        self.total - self.remaining
    }

    /// Trials scored so far: every presented trial after the warm-up whose
    /// response window has closed.
    pub open spec fn scored_trials(self) -> int {
        let closed_windows = if self.state is Exit {
            self.completed()
        } else {
            self.completed() - 1
        };
        if closed_windows > self.level {
            closed_windows - self.level
        } else {
            0
        }
    }

    /// The invariant of a session.
    pub open spec fn wf(self) -> bool {
        &&& 1 <= self.level < u32::MAX
        &&& self.total == self.settings.total_trials(self.level)
        &&& self.remaining <= self.total <= u32::MAX
        &&& self.final_trial == (self.remaining == 0)
        &&& (self.state is Exit ==> self.final_trial)
        &&& self.batch.len() == self.level
        &&& (self.completed() > self.level ==> self.previous.len() == self.level)
        &&& self.index == if self.completed() == 0 {
            0
        } else {
            (self.completed() - 1) % (self.level as int)
        }
        &&& self.score.position_total() <= self.scored_trials()
        &&& self.score.audio_total() <= self.scored_trials()
        &&& (self.state is Active ==> (self.position is Inactive <==> self.in_warm_up()))
        &&& (self.state is Active ==> (self.audio is Inactive <==> self.in_warm_up()))
    }

    /// Whether the session is still in its warm-up: no trial presented so
    /// far has a stimulus `level` trials before it, so no response is taken.
    pub open spec fn in_warm_up(self) -> bool {
        self.completed() <= self.level
    }

    /// Whether the next tick scores the trial presented last: only once more
    /// than `level` trials have been presented is there a stimulus `level`
    /// trials back to compare with.
    pub open spec fn scores_last_trial(self) -> bool {
        self.completed() > self.level
    }

    /// Whether the stimulus presented last repeats the location shown
    /// `level` trials before it.
    pub open spec fn location_matches(self) -> bool {
        self.batch[self.index as int].location == self.previous[self.index as int].location
    }

    /// Whether the stimulus presented last repeats the letter played `level`
    /// trials before it.
    pub open spec fn audio_matches(self) -> bool {
        self.batch[self.index as int].audio == self.previous[self.index as int].audio
    }

    /// The score after the next tick.
    pub open spec fn score_after_tick(self) -> Score {
        if self.scores_last_trial() {
            self.score.recorded(
                StimuliButtonAction::MatchPosition,
                classification(self.location_matches(), self.position == MatchState::Match),
            ).recorded(
                StimuliButtonAction::MatchAudio,
                classification(self.audio_matches(), self.audio == MatchState::Match),
            )
        } else {
            self.score
        }
    }

    /// A response state after the next tick: once the warm-up is over each
    /// tick opens a new response window.
    pub open spec fn response_after_tick(self, response: MatchState) -> MatchState {
        if self.completed() >= self.level {
            MatchState::NonResponse
        } else {
            response
        }
    }

    /// Whether the next tick brings in a new batch: at every batch boundary
    /// but the very first tick, unless that tick closes the session.
    pub open spec fn rotates(self) -> bool {
        &&& self.state is Active
        &&& !self.final_trial
        &&& self.completed() != 0
        &&& self.completed() % (self.level as int) == 0
    }

    /// The percent score and the level change that the score of the session
    /// gives as it stands.
    pub open spec fn result(self) -> SessionResult {
        SessionResult {
            level_at_completion: self.level,
            percent_score: self.score.percent(),
            new_level: adjusted_level(
                self.level,
                self.score.percent(),
                self.settings.raise_threshold,
                self.settings.lower_threshold,
            ) as u32,
        }
    }

    /// The state after a match signal for a modality.
    pub open spec fn signaled(self, modality: StimuliButtonAction) -> SessionView {
        match modality {
            StimuliButtonAction::MatchPosition => SessionView {
                position: self.position.after_signal(),
                ..self
            },
            StimuliButtonAction::MatchAudio => SessionView {
                audio: self.audio.after_signal(),
                ..self
            },
        }
    }

    /// The state after one tick. `draws` are the random numbers for a new
    /// batch; they matter only on a tick that [`rotates`](Self::rotates).
    pub open spec fn step(self, draws: Seq<StimulusDraw>) -> SessionView {
        if self.state is Exit {
            self
        } else if self.final_trial {
            SessionView {
                score: self.score_after_tick(),
                position: self.response_after_tick(self.position),
                audio: self.response_after_tick(self.audio),
                state: SessionState::Exit,
                ..self
            }
        } else {
            SessionView {
                score: self.score_after_tick(),
                position: self.response_after_tick(self.position),
                audio: self.response_after_tick(self.audio),
                batch: if self.rotates() {
                    next_batch(
                        self.batch,
                        draws,
                        self.settings.chance_of_guaranteed_match,
                        self.settings.chance_of_interference,
                    )
                } else {
                    self.batch
                },
                previous: if self.rotates() {
                    self.batch
                } else {
                    self.previous
                },
                index: (self.completed() % (self.level as int)) as nat,
                remaining: (self.remaining - 1) as nat,
                final_trial: self.remaining == 1,
                ..self
            }
        }
    }

    /// What one tick asks of the host.
    pub open spec fn outcome(self, draws: Seq<StimulusDraw>) -> TickOutcome {
        if self.state is Exit {
            TickOutcome::Closed
        } else if self.final_trial {
            TickOutcome::Finished(self.step(draws).result())
        } else {
            TickOutcome::Present(self.step(draws).batch[self.step(draws).index as int])
        }
    }
}

/// The state after `n` ticks, where tick number `k` (counted from 0) brings
/// the draws `draws(k)`.
pub open spec fn after_ticks(
    s: SessionView,
    n: nat,
    draws: spec_fn(nat) -> Seq<StimulusDraw>,
) -> SessionView
    decreases n,
{
    if n == 0 {
        s
    } else {
        after_ticks(s, (n - 1) as nat, draws).step(draws((n - 1) as nat))
    }
}

/// A session that can be started starts well-formed.
pub proof fn lemma_initial_is_wf(level: u32, settings: SettingValues, batch: Seq<Stimulus>)
    requires
        startable(level, settings),
        batch.len() == level,
    ensures
        SessionView::initial(level, settings, batch).wf(),
        SessionView::initial(level, settings, batch).completed() == 0,
{
    let power = pow(level as int, settings.trial_exponent as nat);
    lemma_pow_positive(level as int, settings.trial_exponent as nat);
    assert(settings.trial_factor * power >= 0) by (nonlinear_arith)
        requires
            settings.trial_factor >= 0,
            power >= 0,
    ;
}

/// A session runs its course: from its start every tick presents one trial
/// until all trials of the session have been presented, nothing is scored
/// before the warm-up is over, and the tick after the last trial closes the
/// session with its result.
pub proof fn lemma_session_runs_its_course(
    level: u32,
    settings: SettingValues,
    batch: Seq<Stimulus>,
    draws: spec_fn(nat) -> Seq<StimulusDraw>,
    n: nat,
)
    requires
        startable(level, settings),
        batch.len() == level,
        forall|k: nat| (#[trigger] draws(k)).len() == level,
        n <= settings.total_trials(level),
    ensures
        ({
            let s = after_ticks(SessionView::initial(level, settings, batch), n, draws);
            &&& s.wf()
            &&& s.level == level
            &&& s.settings == settings
            &&& s.state is Active
            &&& s.completed() == n
            &&& s.remaining == settings.total_trials(level) - n
            &&& (n <= level + 1 ==> s.score == Score::zero())
            &&& (n < settings.total_trials(level) ==> s.outcome(draws(n)) is Present)
            &&& (n == settings.total_trials(level) ==> s.outcome(draws(n)) is Finished && s.step(
                draws(n),
            ).state is Exit)
        }),
    decreases n,
{
    lemma_initial_is_wf(level, settings, batch);
    if n > 0 {
        let before = after_ticks(
            SessionView::initial(level, settings, batch),
            (n - 1) as nat,
            draws,
        );
        lemma_session_runs_its_course(level, settings, batch, draws, (n - 1) as nat);
        lemma_step_keeps_invariant(before, draws((n - 1) as nat));
    }
}

/// Every tick keeps the invariant of a session: the batch has exactly
/// `level` stimuli, the trial total stays what the configuration gives for
/// the level, and the trials still to present never grow.
pub proof fn lemma_step_keeps_invariant(s: SessionView, draws: Seq<StimulusDraw>)
    requires
        s.wf(),
        s.rotates() ==> draws.len() == s.level,
    ensures
        s.step(draws).wf(),
        s.step(draws).batch.len() == s.level,
        s.step(draws).level == s.level,
        s.step(draws).total == s.settings.total_trials(s.level),
        s.step(draws).remaining <= s.remaining,
{
    lemma_mod_self_0(s.level as int);
}

/// A tick scores each modality at most once, and only after the warm-up.
pub proof fn lemma_one_classification_per_tick(s: SessionView, draws: Seq<StimulusDraw>)
    requires
        s.wf(),
    ensures
        s.score.position_total() <= s.step(draws).score.position_total()
            <= s.score.position_total() + 1,
        s.score.audio_total() <= s.step(draws).score.audio_total() <= s.score.audio_total() + 1,
        !s.scores_last_trial() ==> s.step(draws).score == s.score,
{
}

/// A signalled location match counts once: when the stimulus presented last
/// repeats the location shown `level` trials before it and the player
/// signalled a location match, the next tick of the running session scores
/// the trial, raises `position_correct` by exactly one and leaves the other
/// two location counters as they were.
pub proof fn lemma_signaled_location_match_counts_once(s: SessionView, draws: Seq<StimulusDraw>)
    requires
        s.wf(),
        s.state is Active,
        s.location_matches(),
        s.position == MatchState::Match,
    ensures
        s.scores_last_trial(),
        s.step(draws).score.position_correct == s.score.position_correct + 1,
        s.step(draws).score.position_false_positive == s.score.position_false_positive,
        s.step(draws).score.position_false_negative == s.score.position_false_negative,
{
}

/// A signalled audio match counts once, as a location match does.
pub proof fn lemma_signaled_audio_match_counts_once(s: SessionView, draws: Seq<StimulusDraw>)
    requires
        s.wf(),
        s.state is Active,
        s.audio_matches(),
        s.audio == MatchState::Match,
    ensures
        s.scores_last_trial(),
        s.step(draws).score.audio_correct == s.score.audio_correct + 1,
        s.step(draws).score.audio_false_positive == s.score.audio_false_positive,
        s.step(draws).score.audio_false_negative == s.score.audio_false_negative,
{
}

/// During the warm-up a match signal changes nothing.
pub proof fn lemma_warm_up_ignores_signals(s: SessionView, modality: StimuliButtonAction)
    requires
        s.wf(),
        s.state is Active,
        s.in_warm_up(),
    ensures
        s.signaled(modality) == s,
{
}

/// Within one trial only the first match signal of a modality counts.
pub proof fn lemma_first_signal_wins(s: SessionView, modality: StimuliButtonAction)
    ensures
        s.signaled(modality).signaled(modality) == s.signaled(modality),
{
}

/// A closed session is final: ticks leave it as it is and its result
/// stays the same.
pub proof fn lemma_closed_is_final(s: SessionView, draws: Seq<StimulusDraw>)
    requires
        s.state is Exit,
    ensures
        s.step(draws) == s,
        s.outcome(draws) == TickOutcome::Closed,
        s.step(draws).result() == s.result(),
{
}

/// A tick that brings in no new batch does not depend on the draws.
pub proof fn lemma_draws_matter_only_at_rotation(
    s: SessionView,
    draws: Seq<StimulusDraw>,
    other: Seq<StimulusDraw>,
)
    requires
        !s.rotates(),
    ensures
        s.step(draws) == s.step(other),
        s.outcome(draws) == s.outcome(other),
{
}

impl View for TrialSession {
    type V = SessionView;

    closed spec fn view(&self) -> SessionView {
        SessionView {
            level: self.level,
            settings: self.settings,
            total: self.trial_count.total_count as nat,
            remaining: self.trial_count.current_count as nat,
            final_trial: self.trial_count.final_trial,
            batch: self.generation.stimuli@,
            previous: self.generation.previous@,
            index: self.generation.index as nat,
            score: self.score,
            position: self.position_state,
            audio: self.audio_state,
            state: self.state,
        }
    }
}

impl TrialSession {
    /// The invariant of a session. Every session this module hands out
    /// satisfies it.
    pub open spec fn wf(&self) -> bool {
        self@.wf()
    }

    /// Starts a session at `level` with a given first batch.
    ///
    /// Returns `None` where no session can run: for level 0, for a level
    /// without a successor, for a trial count that does not fit in a `u32`,
    /// and for a batch that does not hold exactly `level` stimuli.
    pub fn with_batch(level: u32, settings: SettingValues, batch: Vec<Stimulus>) -> (session: Option<
        TrialSession,
    >)
        ensures
            session is Some <==> startable(level, settings) && batch@.len() == level,
            session matches Some(s) ==> s.wf() && s@ == SessionView::initial(
                level,
                settings,
                batch@,
            ),
    {
        if level == 0 || level == u32::MAX || batch.len() != level as usize {
            return None;
        }
        match settings.total_trial_count(level) {
            Some(total) => Some(
                TrialSession {
                    level,
                    settings,
                    trial_count: TrialCount {
                        current_count: total,
                        total_count: total,
                        final_trial: total == 0,
                    },
                    generation: StimuliGeneration {
                        stimuli: batch,
                        previous: Vec::new(),
                        index: 0,
                    },
                    score: Score::new(),
                    position_state: MatchState::Inactive,
                    audio_state: MatchState::Inactive,
                    state: SessionState::Active,
                },
            ),
            None => None,
        }
    }

    /// Starts a session at `level` with a first batch drawn from `rng`.
    ///
    /// Returns `None` where no session can run: for level 0, for a level
    /// without a successor and for a trial count that does not fit in a
    /// `u32`.
    pub fn new(level: u32, settings: SettingValues, rng: &mut StdRng) -> (session: Option<
        TrialSession,
    >)
        ensures
            session is Some <==> startable(level, settings),
            session matches Some(s) ==> s.wf() && s@.batch.len() == level && s@
                == SessionView::initial(level, settings, s@.batch),
    {
        if level == 0 || level == u32::MAX || settings.total_trial_count(level).is_none() {
            return None;
        }
        let batch = generate_initial(level, rng);
        TrialSession::with_batch(level, settings, batch)
    }

    /// Takes a match signal of the player for a modality. It counts only
    /// while that modality awaits a response: the first signal of a trial
    /// wins, and signals during the warm-up are dropped.
    pub fn signal(&mut self, modality: StimuliButtonAction)
        ensures
            final(self)@ == old(self)@.signaled(modality),
            old(self).wf() ==> final(self).wf(),
    {
        match modality {
            StimuliButtonAction::MatchPosition => {
                self.position_state.signal();
            },
            StimuliButtonAction::MatchAudio => {
                self.audio_state.signal();
            },
        }
    }

    /// Whether the next tick brings in a new batch and so needs draws.
    pub fn needs_draws(&self) -> (needed: bool)
        requires
            self.wf(),
        ensures
            needed == self@.rotates(),
    {
        let completed = self.trial_count.total_count - self.trial_count.current_count;
        self.state == SessionState::Active && !self.trial_count.final_trial && completed != 0
            && completed % self.level == 0
    }

    /// The result of the score as it stands.
    fn summary(&self) -> (result: SessionResult)
        requires
            self.wf(),
        ensures
            result == self@.result(),
            result.percent_score.wf(),
    {
        let percent_score = self.score.percent_score();
        SessionResult {
            level_at_completion: self.level,
            percent_score,
            new_level: adjust_level(
                self.level,
                percent_score,
                self.settings.raise_threshold,
                self.settings.lower_threshold,
            ),
        }
    }

    /// Advances the session by one tick, taking the random numbers for a new
    /// batch from `draws`.
    ///
    /// The tick scores the trial presented last, opens the next response
    /// window, and then either closes the session (when the last trial had
    /// been presented) or presents the next stimulus, from a new batch at a
    /// batch boundary. On a closed session it does nothing.
    pub fn tick_with(&mut self, draws: &Vec<StimulusDraw>) -> (outcome: TickOutcome)
        requires
            old(self).wf(),
            old(self)@.rotates() ==> draws@.len() == old(self)@.level,
        ensures
            final(self).wf(),
            final(self)@ == old(self)@.step(draws@),
            outcome == old(self)@.outcome(draws@),
            outcome matches TickOutcome::Finished(result) ==> result.percent_score.wf(),
    {
        if self.state == SessionState::Exit {
            return TickOutcome::Closed;
        }
        let completed = self.trial_count.total_count - self.trial_count.current_count;
        if completed > self.level {
            let index = self.generation.index;
            let shown = self.generation.stimuli[index];
            let target = self.generation.previous[index];
            let position = classify(shown.location == target.location, self.position_state);
            self.score.record(StimuliButtonAction::MatchPosition, position);
            let audio = classify(shown.audio == target.audio, self.audio_state);
            self.score.record(StimuliButtonAction::MatchAudio, audio);
        }
        if completed >= self.level {
            self.position_state = MatchState::NonResponse;
            self.audio_state = MatchState::NonResponse;
        }
        if self.trial_count.final_trial {
            self.state = SessionState::Exit;
            return TickOutcome::Finished(self.summary());
        }
        let index = (completed % self.level) as usize;
        proof {
            lemma_mod_self_0(self.level as int);
        }
        if index == 0 && completed != 0 {
            let mut batch = generate_next_from(
                &self.generation.stimuli,
                self.level,
                self.settings.chance_of_guaranteed_match,
                self.settings.chance_of_interference,
                draws,
            );
            std::mem::swap(&mut self.generation.stimuli, &mut batch);
            self.generation.previous = batch;
        }
        self.generation.index = index;
        let stimulus = self.generation.stimuli[index];
        self.trial_count.current_count = self.trial_count.current_count - 1;
        self.trial_count.final_trial = self.trial_count.current_count == 0;
        TickOutcome::Present(stimulus)
    }

    /// Advances the session by one tick, drawing a new batch from `rng`
    /// where one is due.
    ///
    /// Whatever the generator returns, the session moves as
    /// [`SessionView::step`] says for some draws with their rolls in range;
    /// on a tick that brings in no new batch the draws do not matter.
    pub fn tick(&mut self, rng: &mut StdRng) -> (outcome: TickOutcome)
        requires
            old(self).wf(),
        ensures
            final(self).wf(),
            exists|draws: Seq<StimulusDraw>|
                {
                    &&& all_in_range(draws)
                    &&& old(self)@.rotates() ==> draws.len() == old(self)@.level
                    &&& final(self)@ == #[trigger] old(self)@.step(draws)
                    &&& outcome == old(self)@.outcome(draws)
                },
            outcome matches TickOutcome::Finished(result) ==> result.percent_score.wf(),
    {
        let draws = if self.needs_draws() {
            draw_batch(self.level, rng)
        } else {
            Vec::new()
        };
        self.tick_with(&draws)
    }

    /// The level the session is played at.
    pub fn level(&self) -> (level: u32)
        ensures
            level == self@.level,
    {
        self.level
    }

    /// The configuration the session was started with.
    pub fn settings(&self) -> (settings: SettingValues)
        ensures
            settings == self@.settings,
    {
        self.settings
    }

    /// The trial counter.
    pub fn trial_count(&self) -> (count: TrialCount)
        ensures
            count.total_count == self@.total,
            count.current_count == self@.remaining,
            count.final_trial == self@.final_trial,
    {
        self.trial_count
    }

    /// Trials presented so far.
    pub fn trials_completed(&self) -> (completed: u32)
        requires
            self.wf(),
        ensures
            completed == self@.completed(),
    {
        self.trial_count.total_count - self.trial_count.current_count
    }

    /// The current and the previous batch and the index presented last.
    pub fn generation(&self) -> (generation: &StimuliGeneration)
        ensures
            generation.stimuli@ == self@.batch,
            generation.previous@ == self@.previous,
            generation.index == self@.index,
    {
        &self.generation
    }

    /// The counters as they stand.
    pub fn score(&self) -> (score: Score)
        ensures
            score == self@.score,
    {
        self.score
    }

    /// The response state of a modality.
    pub fn match_state(&self, modality: StimuliButtonAction) -> (response: MatchState)
        ensures
            response == match modality {
                StimuliButtonAction::MatchPosition => self@.position,
                StimuliButtonAction::MatchAudio => self@.audio,
            },
    {
        match modality {
            StimuliButtonAction::MatchPosition => self.position_state,
            StimuliButtonAction::MatchAudio => self.audio_state,
        }
    }

    /// Whether the session still runs.
    pub fn state(&self) -> (state: SessionState)
        ensures
            state == self@.state,
    {
        self.state
    }

    /// The result of the session: `Some` once it has closed, `None` while it
    /// runs.
    pub fn result(&self) -> (result: Option<SessionResult>)
        requires
            self.wf(),
        ensures
            result == if self@.state is Exit {
                Some(self@.result())
            } else {
                None
            },
            result matches Some(r) ==> r.percent_score.wf(),
    {
        if self.state == SessionState::Exit {
            Some(self.summary())
        } else {
            None
        }
    }
}

} // verus!
