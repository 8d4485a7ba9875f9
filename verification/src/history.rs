//! The statistics a host keeps across sessions: the running figures of the
//! player, one entry per calendar day, and the most recent sessions.
//!
//! A date is a day number, counting days of the proleptic Gregorian calendar
//! with 1 January of year 1 as day 1. An average level is a fixed-point
//! number in hundredths of a level.

use std::collections::HashMap;
use std::collections::VecDeque;
use vstd::prelude::*;

use crate::session::SessionResult;

verus! {

broadcast use {vstd::std_specs::hash::group_hash_axioms, vstd::std_specs::vecdeque::group_vec_dequeue_axioms};

/// How many of the most recent sessions are kept.
pub const RECENT_SESSIONS_KEPT: usize = 10;

/// The largest average a level of type `u32` can give, in hundredths.
pub const MAX_AVERAGE: u64 = 429_496_729_500;

/// One completed session, as the list of recent sessions remembers it.
#[derive(Clone, Copy, Debug, PartialEq, Eq, Structural)]
pub struct Session {
    pub date: i32,
    /// The level the player moved to.
    pub level: u32,
    /// The score in whole percent, rounded down.
    pub percent_score: u32,
}

/// The most recent sessions, oldest first.
pub struct RecentSessions {
    pub sessions: VecDeque<Session>,
}

/// The running figures of the player.
#[derive(Clone, Copy, Debug, PartialEq, Eq, Structural)]
pub struct StatValues {
    pub current_level: u32,
    /// Mean level of today's sessions, in hundredths.
    pub average_level_today: u64,
    pub sessions_today: u32,
    pub total_sessions: u32,
    /// The day `sessions_today` and `average_level_today` speak of.
    pub last_sync_date: i32,
}

/// What was played on one day.
#[derive(Clone, Copy, Debug, PartialEq, Eq, Structural)]
pub struct DayEntry {
    pub date: i32,
    /// Mean of the levels reached by the day's sessions, in hundredths.
    pub average_level: u64,
    pub sessions_completed: u32,
    pub max_level: u32,
}

/// The entries of all days played, by date.
pub struct EntryValues {
    pub day_entries: HashMap<i32, DayEntry>,
}

/// The mean, in hundredths, of `count + 1` levels: `count` levels with mean
/// `average` hundredths and one more `level`. Rounded to the nearest
/// hundredth, halves up.
pub open spec fn running_average(average: u64, count: u32, level: u32) -> int {
    (2 * (average * count + 100 * level) + (count + 1)) / (2 * (count + 1))
}

/// The history with only its last [`RECENT_SESSIONS_KEPT`] sessions.
pub open spec fn latest(history: Seq<Session>) -> Seq<Session> {
    if history.len() > RECENT_SESSIONS_KEPT {
        history.subrange(history.len() - RECENT_SESSIONS_KEPT, history.len() as int)
    } else {
        history
    }
}

/// The list of recent sessions after one more session: the session goes to
/// the end, and if the list then holds more than
/// [`RECENT_SESSIONS_KEPT`], its oldest session leaves.
pub open spec fn with_session(recent: Seq<Session>, session: Session) -> Seq<Session> {
    if recent.len() >= RECENT_SESSIONS_KEPT {
        recent.push(session).subrange(1, recent.len() as int + 1)
    } else {
        recent.push(session)
    }
}

/// The list of recent sessions after a whole history of sessions, recorded
/// one by one into an empty list.
pub open spec fn replayed(history: Seq<Session>) -> Seq<Session>
    decreases history.len(),
{
    if history.len() == 0 {
        Seq::empty()
    } else {
        with_session(replayed(history.drop_last()), history.last())
    }
}

/// The list of recent sessions is a ring of ten: after any number of
/// sessions it holds the last ten of them (all, while there are fewer) in
/// the order they came, the oldest having left first. After eleven sessions
/// these are the second to the eleventh.
pub proof fn lemma_recent_sessions_are_the_latest(history: Seq<Session>)
    ensures
        replayed(history) == latest(history),
        replayed(history).len() <= RECENT_SESSIONS_KEPT,
        history.len() >= RECENT_SESSIONS_KEPT ==> replayed(history).len() == RECENT_SESSIONS_KEPT,
        history.len() == RECENT_SESSIONS_KEPT + 1 ==> replayed(history) == history.subrange(1, 11),
    decreases history.len(),
{
    if history.len() > 0 {
        lemma_recent_sessions_are_the_latest(history.drop_last());
        assert(replayed(history) =~= latest(history));
    }
}

/// Computes the running mean of [`running_average`].
pub fn update_average(average: u64, count: u32, level: u32) -> (mean: u64)
    requires
        average <= MAX_AVERAGE,
    ensures
        mean == running_average(average, count, level),
        mean <= MAX_AVERAGE,
{
    assert(average * count <= MAX_AVERAGE * count) by (nonlinear_arith)
        requires
            average <= MAX_AVERAGE,
    ;
    assert(MAX_AVERAGE * count <= MAX_AVERAGE * u32::MAX) by (nonlinear_arith)
        requires
            count <= u32::MAX,
    ;
    let sum: u128 = average as u128 * count as u128 + 100 * level as u128;
    let divisor: u128 = 2 * (count as u128 + 1);
    let mean: u128 = (2 * sum + (count as u128 + 1)) / divisor;
    assert(mean <= MAX_AVERAGE) by (nonlinear_arith)
        requires
            mean == (2 * sum + (count + 1)) / (divisor as int),
            divisor == 2 * (count + 1),
            sum <= MAX_AVERAGE * count + MAX_AVERAGE,
            count >= 0,
    ;
    mean as u64
}

impl Session {
    /// The record of a session that ended on `date` with `result`: the level
    /// the player moved to and the score in whole percent.
    pub fn from_result(date: i32, result: &SessionResult) -> (session: Session)
        requires
            result.percent_score.wf(),
        ensures
            session.date == date,
            session.level == result.new_level,
            session.percent_score == result.percent_score.in_percent(),
    {
        Session {
            date,
            level: result.new_level,
            percent_score: result.percent_score.whole_percent(),
        }
    }
}

impl RecentSessions {
    /// An empty list.
    pub fn new() -> (recent: RecentSessions)
        ensures
            recent.sessions@ == Seq::<Session>::empty(),
    {
        RecentSessions { sessions: VecDeque::new() }
    }

    /// Adds a session at the end. If that makes more than
    /// [`RECENT_SESSIONS_KEPT`], the oldest session is evicted.
    pub fn record(&mut self, session: Session)
        ensures
            final(self).sessions@ == with_session(old(self).sessions@, session),
            old(self).sessions@.len() <= RECENT_SESSIONS_KEPT ==> final(self).sessions@ == latest(
                old(self).sessions@.push(session),
            ),
    {
        self.sessions.push_back(session);
        if self.sessions.len() > RECENT_SESSIONS_KEPT {
            self.sessions.pop_front();
        }
    }

    /// The sessions from the newest to the oldest, as a score board lists
    /// them.
    pub fn newest_first(&self) -> (listed: Vec<Session>)
        ensures
            listed@ == self.sessions@.reverse(),
    {
        let mut listed: Vec<Session> = Vec::new();
        let n = self.sessions.len();
        let mut i: usize = n;
        while i > 0
            invariant
                i <= n,
                n == self.sessions@.len(),
                listed@.len() == n - i,
                forall|k: int| 0 <= k < listed@.len() ==> listed@[k] == self.sessions@[n - 1 - k],
            decreases i,
        {
            i = i - 1;
            listed.push(self.sessions[i]);
        }
        assert(listed@ =~= self.sessions@.reverse());
        listed
    }
}

impl StatValues {
    /// The figures of a player who has not played yet: level 1, nothing
    /// played today or ever.
    pub open spec fn fresh(today: i32) -> StatValues {
        StatValues {
            current_level: 1,
            average_level_today: 0,
            sessions_today: 0,
            total_sessions: 0,
            last_sync_date: today,
        }
    }

    /// The figures brought to `today`: on a new day the count and the mean
    /// of the day start over.
    pub open spec fn synced(self, today: i32) -> StatValues {
        if self.last_sync_date != today {
            StatValues {
                sessions_today: 0,
                average_level_today: 0,
                last_sync_date: today,
                ..self
            }
        } else {
            self
        }
    }

    /// Whether one more session can be counted: both counters have room and
    /// the mean is one that levels can give.
    pub open spec fn has_room(self) -> bool {
        &&& self.sessions_today < u32::MAX
        &&& self.total_sessions < u32::MAX
        &&& self.average_level_today <= MAX_AVERAGE
    }

    /// The figures after a session with `result`: the level played enters
    /// the mean of the day, both counters go up by one, and the player
    /// moves to the new level.
    pub open spec fn after_session(self, result: SessionResult) -> StatValues {
        StatValues {
            current_level: result.new_level,
            average_level_today: running_average(
                self.average_level_today,
                self.sessions_today,
                result.level_at_completion,
            ) as u64,
            sessions_today: (self.sessions_today + 1) as u32,
            total_sessions: (self.total_sessions + 1) as u32,
            last_sync_date: self.last_sync_date,
        }
    }

    /// The figures of a player who has not played yet.
    pub fn new(today: i32) -> (stats: StatValues)
        ensures
            stats == StatValues::fresh(today),
    {
        StatValues {
            current_level: 1,
            average_level_today: 0,
            sessions_today: 0,
            total_sessions: 0,
            last_sync_date: today,
        }
    }

    /// Brings the figures to `today`.
    pub fn sync(&self, today: i32) -> (stats: StatValues)
        ensures
            stats == self.synced(today),
    {
        if self.last_sync_date != today {
            StatValues {
                current_level: self.current_level,
                average_level_today: 0,
                sessions_today: 0,
                total_sessions: self.total_sessions,
                last_sync_date: today,
            }
        } else {
            *self
        }
    }

    /// Whether one more session can be counted.
    pub fn can_record(&self) -> (ok: bool)
        ensures
            ok == self.has_room(),
    {
        self.sessions_today < u32::MAX && self.total_sessions < u32::MAX
            && self.average_level_today <= MAX_AVERAGE
    }

    /// Counts a session that ended with `result`.
    pub fn record_session(&mut self, result: &SessionResult)
        requires
            old(self).has_room(),
        ensures
            *final(self) == old(self).after_session(*result),
            final(self).average_level_today <= MAX_AVERAGE,
    {
        self.average_level_today = update_average(
            self.average_level_today,
            self.sessions_today,
            result.level_at_completion,
        );
        self.sessions_today = self.sessions_today + 1;
        self.total_sessions = self.total_sessions + 1;
        self.current_level = result.new_level;
    }
}

impl DayEntry {
    /// The entry of a day on which nothing has been played yet.
    pub open spec fn fresh(date: i32) -> DayEntry {
        DayEntry { date, average_level: 0, sessions_completed: 0, max_level: 1 }
    }

    /// Whether one more session can be counted.
    pub open spec fn has_room(self) -> bool {
        self.sessions_completed < u32::MAX && self.average_level <= MAX_AVERAGE
    }

    /// The entry after a session that took the player to `level`.
    pub open spec fn after_session(self, level: u32) -> DayEntry {
        DayEntry {
            date: self.date,
            average_level: running_average(self.average_level, self.sessions_completed, level) as u64,
            sessions_completed: (self.sessions_completed + 1) as u32,
            max_level: if level > self.max_level {
                level
            } else {
                self.max_level
            },
        }
    }

    /// The entry of a day on which nothing has been played yet.
    pub fn new(date: i32) -> (entry: DayEntry)
        ensures
            entry == DayEntry::fresh(date),
    {
        DayEntry { date, average_level: 0, sessions_completed: 0, max_level: 1 }
    }

    /// Whether one more session can be counted.
    pub fn can_record(&self) -> (ok: bool)
        ensures
            ok == self.has_room(),
    {
        self.sessions_completed < u32::MAX && self.average_level <= MAX_AVERAGE
    }

    /// Counts a session that took the player to `level`.
    pub fn record(&self, level: u32) -> (entry: DayEntry)
        requires
            self.has_room(),
        ensures
            entry == self.after_session(level),
            entry.average_level <= MAX_AVERAGE,
    {
        DayEntry {
            date: self.date,
            average_level: update_average(self.average_level, self.sessions_completed, level),
            sessions_completed: self.sessions_completed + 1,
            max_level: if level > self.max_level {
                level
            } else {
                self.max_level
            },
        }
    }
}

impl EntryValues {
    /// The entry of `date`, or a fresh one where the day has none yet.
    pub open spec fn entry_of(self, date: i32) -> DayEntry {
        if self.day_entries@.contains_key(date) {
            self.day_entries@[date]
        } else {
            DayEntry::fresh(date)
        }
    }

    /// No entries.
    pub fn new() -> (entries: EntryValues)
        ensures
            entries.day_entries@ == Map::<i32, DayEntry>::empty(),
    {
        EntryValues { day_entries: HashMap::new() }
    }

    /// The entry of `date`, or a fresh one where the day has none yet.
    pub fn entry(&self, date: i32) -> (entry: DayEntry)
        ensures
            entry == self.entry_of(date),
    {
        match self.day_entries.get(&date) {
            Some(entry) => *entry,
            None => DayEntry::new(date),
        }
    }

    /// Counts a session of `date` that took the player to `level`, starting
    /// the entry of the day if this is its first session.
    pub fn record(&mut self, date: i32, level: u32)
        requires
            old(self).entry_of(date).has_room(),
        ensures
            final(self).day_entries@ == old(self).day_entries@.insert(
                date,
                old(self).entry_of(date).after_session(level),
            ),
    {
        let updated = self.entry(date).record(level);
        self.day_entries.insert(date, updated);
    }
}

} // verus!
