//! Timed focus sessions, at most one per user: starting one, reading its
//! progress, completing it, and the step that drives it to its end.

use std::collections::HashMap;
use crate::text::{
    closing_prompt, closing_prompt_text, goals_view, progress_line, progress_text, start_reply,
    start_text, ALREADY_ACTIVE_TEXT, TOO_LONG_TEXT, ZERO_DURATION_TEXT,
};
use vstd::prelude::*;
use vstd::string::*;

verus! {

/// A chat-platform user, by the platform's numeric id.
pub type UserId = u64;

/// Length of a session whose request names none, in minutes.
pub const DEFAULT_SESSION_MINUTES: u64 = 60;

/// A timed focus session. Times are whole seconds on the caller's clock.
#[derive(Debug, PartialEq, Eq)]
pub struct Session {
    pub duration_secs: u64,
    pub start_secs: u64,
    /// What the user meant to get done, carried through to the closing message.
    pub goals: Option<String>,
}

/// The timing of a session that has just been started.
#[derive(Debug, Clone, Copy, PartialEq, Eq, Structural)]
pub struct SessionView {
    pub duration_secs: u64,
    pub start_secs: u64,
}

/// How far a session has run, in seconds.
#[derive(Debug, Clone, Copy, PartialEq, Eq, Structural)]
pub struct Progress {
    pub elapsed_secs: u64,
    pub remaining_secs: u64,
    pub total_secs: u64,
}

/// Why a session was not started.
#[derive(Debug, Clone, Copy, PartialEq, Eq, Structural)]
pub enum StartError {
    /// The user already has a session running; nothing was changed.
    AlreadyActive,
    /// The request asked for zero minutes.
    ZeroDuration,
    /// The request asked for more minutes than fit in 64 bits as seconds.
    TooLong,
}

/// The minutes a request asks for: the given number, or the default.
pub open spec fn requested_minutes(minutes: Option<u64>) -> nat {
    match minutes {
        Some(m) => m as nat,
        None => DEFAULT_SESSION_MINUTES as nat,
    }
}

/// What `try_start` does to the sessions `m` and what it returns.
pub open spec fn start_model(
    m: Map<UserId, Session>,
    user: UserId,
    minutes: Option<u64>,
    goals: Option<String>,
    now: u64,
) -> (Map<UserId, Session>, Result<SessionView, StartError>) {
    let mins = requested_minutes(minutes);
    if m.contains_key(user) {
        (m, Err(StartError::AlreadyActive))
    } else if mins == 0 {
        (m, Err(StartError::ZeroDuration))
    } else if mins * 60 > u64::MAX {
        (m, Err(StartError::TooLong))
    } else {
        let duration = (mins * 60) as u64;
        (
            m.insert(user, Session { duration_secs: duration, start_secs: now, goals }),
            Ok(SessionView { duration_secs: duration, start_secs: now }),
        )
    }
}

/// Seconds that `s` has run at time `now`; a reading before the start counts as none.
pub open spec fn elapsed_at(s: Session, now: u64) -> nat {
    if now >= s.start_secs {
        (now - s.start_secs) as nat
    } else {
        0
    }
}

/// Whether `s` has used up its time at `now`.
pub open spec fn expired_at(s: Session, now: u64) -> bool {
    elapsed_at(s, now) >= s.duration_secs
}

/// What `progress` returns for `user` at time `now`.
pub open spec fn progress_model(m: Map<UserId, Session>, user: UserId, now: u64) -> Option<Progress> {
    if m.contains_key(user) {
        let s = m[user];
        let elapsed = elapsed_at(s, now);
        Some(
            Progress {
                elapsed_secs: elapsed as u64,
                remaining_secs: if expired_at(s, now) {
                    0
                } else {
                    (s.duration_secs - elapsed) as u64
                },
                total_secs: s.duration_secs,
            },
        )
    } else {
        None
    }
}

/// What `complete` does to the sessions `m` and what it returns.
pub open spec fn complete_model(m: Map<UserId, Session>, user: UserId) -> (
    Map<UserId, Session>,
    Option<Session>,
) {
    if m.contains_key(user) {
        (m.remove(user), Some(m[user]))
    } else {
        (m, None)
    }
}

/// Every session has a positive length.
pub open spec fn sessions_valid(m: Map<UserId, Session>) -> bool {
    forall|u: UserId| #[trigger] m.contains_key(u) ==> m[u].duration_secs > 0
}

/// What one step of the loop that drives a session tells its caller to do.
#[derive(Debug, PartialEq, Eq)]
pub enum Tick {
    /// The session runs on: show this progress line, then wait one tick.
    Running(String),
    /// The session is over and has been removed: show the completed marker,
    /// then send this prompt to the AI and relay its reply.
    Finished(String),
    /// The user has no session.
    Idle,
}

/// The reply to a session request with outcome `r`.
pub open spec fn start_outcome_text(r: Result<SessionView, StartError>) -> Seq<char> {
    match r {
        Ok(v) => start_text(v.duration_secs as nat / 60),
        Err(StartError::AlreadyActive) => ALREADY_ACTIVE_TEXT@,
        Err(StartError::ZeroDuration) => ZERO_DURATION_TEXT@,
        Err(StartError::TooLong) => TOO_LONG_TEXT@,
    }
}

/// The reply to a session request with outcome `r`.
pub fn start_outcome_reply(r: &Result<SessionView, StartError>) -> (s: String)
    ensures
        s@ == start_outcome_text(*r),
{
    match r {
        Ok(v) => start_reply(v.duration_secs / 60),
        Err(StartError::AlreadyActive) => String::from_str(ALREADY_ACTIVE_TEXT),
        Err(StartError::ZeroDuration) => String::from_str(ZERO_DURATION_TEXT),
        Err(StartError::TooLong) => String::from_str(TOO_LONG_TEXT),
    }
}

/// A second start for a user whose session is running is refused and changes
/// nothing: the running session keeps its start time and its length.
pub proof fn lemma_second_start_refused(
    m: Map<UserId, Session>,
    user: UserId,
    minutes1: Option<u64>,
    goals1: Option<String>,
    now1: u64,
    minutes2: Option<u64>,
    goals2: Option<String>,
    now2: u64,
)
    requires
        start_model(m, user, minutes1, goals1, now1).1 is Ok,
    ensures
        ({
            let (m1, r1) = start_model(m, user, minutes1, goals1, now1);
            let (m2, r2) = start_model(m1, user, minutes2, goals2, now2);
            &&& r2 == Err::<SessionView, StartError>(StartError::AlreadyActive)
            &&& m2 == m1
            &&& m2[user].start_secs == now1
            &&& m2[user].duration_secs == r1->Ok_0.duration_secs
        }),
{
}

/// No progress is reported for a user without a session; right after a
/// session starts, no time has elapsed and its whole length remains.
pub proof fn lemma_progress_at_start(
    m: Map<UserId, Session>,
    user: UserId,
    minutes: Option<u64>,
    goals: Option<String>,
    now: u64,
)
    ensures
        !m.contains_key(user) ==> progress_model(m, user, now) is None,
        start_model(m, user, minutes, goals, now).1 is Ok ==> progress_model(
            start_model(m, user, minutes, goals, now).0,
            user,
            now,
        ) == Some(
            Progress {
                elapsed_secs: 0,
                remaining_secs: (requested_minutes(minutes) * 60) as u64,
                total_secs: (requested_minutes(minutes) * 60) as u64,
            },
        ),
{
}

/// Completing hands back the running session once; a second completion for
/// the same user finds nothing and changes nothing.
pub proof fn lemma_complete_twice(m: Map<UserId, Session>, user: UserId)
    ensures
        m.contains_key(user) ==> complete_model(m, user).1 == Some(m[user]),
        complete_model(complete_model(m, user).0, user) == (
            complete_model(m, user).0,
            None::<Session>,
        ),
{
}

/// At most one running session per user, each with a positive length.
pub struct SessionTracker {
    sessions: HashMap<UserId, Session>,
}

impl View for SessionTracker {
    type V = Map<UserId, Session>;

    closed spec fn view(&self) -> Map<UserId, Session> {
        self.sessions@
    }
}

impl SessionTracker {
    /// A tracker with no sessions.
    pub fn new() -> (r: Self)
        ensures
            r@ == Map::<UserId, Session>::empty(),
            sessions_valid(r@),
    {
        SessionTracker { sessions: HashMap::new() }
    }

    /// Starts a session for `user` at time `now` unless one is running: of
    /// `minutes` minutes, or of the default length when `minutes` is `None`.
    pub fn try_start(&mut self, user: UserId, minutes: Option<u64>, goals: Option<String>, now: u64) -> (r: Result<SessionView, StartError>)
        ensures
            (final(self)@, r) == start_model(old(self)@, user, minutes, goals, now),
            sessions_valid(old(self)@) ==> sessions_valid(final(self)@),
    {
        if self.sessions.contains_key(&user) {
            return Err(StartError::AlreadyActive);
        }
        let mins = match minutes {
            Some(m) => m,
            None => DEFAULT_SESSION_MINUTES,
        };
        if mins == 0 {
            return Err(StartError::ZeroDuration);
        }
        if mins > u64::MAX / 60 {
            return Err(StartError::TooLong);
        }
        let duration = mins * 60;
        self.sessions.insert(user, Session { duration_secs: duration, start_secs: now, goals });
        Ok(SessionView { duration_secs: duration, start_secs: now })
    }

    /// Elapsed, remaining and total time of `user`'s session at `now`, if one
    /// is running. Changes nothing, also past the end of the session.
    pub fn progress(&self, user: UserId, now: u64) -> (r: Option<Progress>)
        ensures
            r == progress_model(self@, user, now),
    {
        match self.sessions.get(&user) {
            Some(s) => {
                let elapsed = if now >= s.start_secs {
                    now - s.start_secs
                } else {
                    0
                };
                let remaining = if elapsed >= s.duration_secs {
                    0
                } else {
                    s.duration_secs - elapsed
                };
                Some(Progress { elapsed_secs: elapsed, remaining_secs: remaining, total_secs: s.duration_secs })
            },
            None => None,
        }
    }

    /// Removes `user`'s session and hands it back, if one is running.
    pub fn complete(&mut self, user: UserId) -> (r: Option<Session>)
        ensures
            (final(self)@, r) == complete_model(old(self)@, user),
            sessions_valid(old(self)@) ==> sessions_valid(final(self)@),
    {
        self.sessions.remove(&user)
    }

    /// One step of the loop that drives `user`'s session at time `now`: while
    /// time remains, the progress line to show; once it has run out, removes
    /// the session and gives the closing prompt for the AI.
    pub fn tick(&mut self, user: UserId, now: u64) -> (r: Tick)
        ensures
            sessions_valid(old(self)@) ==> sessions_valid(final(self)@),
            match r {
                Tick::Idle => !old(self)@.contains_key(user) && final(self)@ == old(self)@,
                Tick::Running(line) => {
                    let s = old(self)@[user];
                    &&& old(self)@.contains_key(user)
                    &&& !expired_at(s, now)
                    &&& final(self)@ == old(self)@
                    &&& line@ == progress_text(s.duration_secs as nat / 60, elapsed_at(s, now))
                },
                Tick::Finished(prompt) => {
                    let s = old(self)@[user];
                    &&& old(self)@.contains_key(user)
                    &&& expired_at(s, now)
                    &&& final(self)@ == old(self)@.remove(user)
                    &&& prompt@ == closing_prompt_text(s.duration_secs as nat / 60, goals_view(s.goals))
                },
            },
    {
        match self.progress(user, now) {
            None => Tick::Idle,
            Some(p) => {
                if p.elapsed_secs >= p.total_secs {
                    match self.complete(user) {
                        Some(s) => Tick::Finished(closing_prompt(s.duration_secs / 60, &s.goals)),
                        None => Tick::Idle,
                    }
                } else {
                    Tick::Running(progress_line(p.total_secs / 60, p.elapsed_secs))
                }
            },
        }
    }
}

} // verus!
