//! The session's three independent cadences — data refresh, redraw,
//! input drain — raced as deadlines in logical milliseconds, with
//! skip-missed-tick semantics and a cooperative quit flag checked at
//! the top of every pass. One pass runs one handler to completion:
//! there is no interleaving to get wrong, and the pass id counts the
//! passes.

use vstd::prelude::*;
use crate::process::sat_add_u64;
use crate::process::sat_add_u64_exec;

verus! {

/// What the next pass runs.
#[derive(Clone, Copy, Debug, PartialEq, Eq, Structural)]
pub enum PassAction {
    Exit,
    Redraw,
    Data,
    Input,
}

/// The scheduler's whole state: three deadlines, their periods, the
/// quit flag and the pass counter, all in logical milliseconds.
#[derive(Clone, Copy, Debug, PartialEq, Eq, Structural)]
pub struct SessionScheduler {
    pub now_ms: u64,
    pub redraw_deadline: u64,
    pub data_deadline: u64,
    pub input_deadline: u64,
    pub redraw_period_ms: u64,
    pub data_period_ms: u64,
    pub input_period_ms: u64,
    pub quit: bool,
    pub pass_id: u64,
}

/// Every period is at least a millisecond, and no deadline lies more
/// than one period ahead: each trigger is always at most one period
/// from firing.
pub open spec fn sched_wf(s: SessionScheduler) -> bool {
    &&& s.redraw_period_ms >= 1
    &&& s.data_period_ms >= 1
    &&& s.input_period_ms >= 1
    &&& s.redraw_deadline <= sat_add_u64(s.now_ms, s.redraw_period_ms)
    &&& s.data_deadline <= sat_add_u64(s.now_ms, s.data_period_ms)
    &&& s.input_deadline <= sat_add_u64(s.now_ms, s.input_period_ms)
}

/// The trigger of the next pass: the earliest deadline wins; on a tie
/// the redraw goes first, then the data refresh, then the input drain.
pub open spec fn next_trigger(s: SessionScheduler) -> PassAction {
    if s.redraw_deadline <= s.data_deadline && s.redraw_deadline <= s.input_deadline {
        PassAction::Redraw
    } else if s.data_deadline <= s.input_deadline {
        PassAction::Data
    } else {
        PassAction::Input
    }
}

/// When the next pass fires: at the earliest deadline, or right away
/// when that deadline has already gone by.
pub open spec fn fire_time(s: SessionScheduler) -> u64 {
    let d = if next_trigger(s) is Redraw {
        s.redraw_deadline
    } else if next_trigger(s) is Data {
        s.data_deadline
    } else {
        s.input_deadline
    };
    if d >= s.now_ms {
        d
    } else {
        s.now_ms
    }
}

/// One pass: with the quit flag up the loop exits untouched; otherwise
/// time advances to the winning trigger, which runs and is rescheduled
/// one full period from now — a late trigger accumulates no backlog.
pub open spec fn sched_step(s: SessionScheduler) -> (SessionScheduler, PassAction) {
    if s.quit {
        (s, PassAction::Exit)
    } else {
        let t = fire_time(s);
        let bumped = SessionScheduler {
            now_ms: t,
            pass_id: sat_add_u64(s.pass_id, 1),
            ..s
        };
        match next_trigger(s) {
            PassAction::Redraw => (
                SessionScheduler { redraw_deadline: sat_add_u64(t, s.redraw_period_ms), ..bumped },
                PassAction::Redraw,
            ),
            PassAction::Data => (
                SessionScheduler { data_deadline: sat_add_u64(t, s.data_period_ms), ..bumped },
                PassAction::Data,
            ),
            _ => (
                SessionScheduler { input_deadline: sat_add_u64(t, s.input_period_ms), ..bumped },
                PassAction::Input,
            ),
        }
    }
}

impl SessionScheduler {
    /// Fresh triggers, each due immediately, as the session starts.
    /// A zero period is raised to one millisecond.
    pub fn new(redraw_ms: u64, data_ms: u64, input_ms: u64, start_ms: u64) -> (s: SessionScheduler)
        ensures
            sched_wf(s),
            s.now_ms == start_ms,
            s.redraw_deadline == start_ms,
            s.data_deadline == start_ms,
            s.input_deadline == start_ms,
            s.redraw_period_ms == (if redraw_ms >= 1 { redraw_ms } else { 1 }),
            s.data_period_ms == (if data_ms >= 1 { data_ms } else { 1 }),
            s.input_period_ms == (if input_ms >= 1 { input_ms } else { 1 }),
            !s.quit,
            s.pass_id == 0,
    {
        SessionScheduler {
            now_ms: start_ms,
            redraw_deadline: start_ms,
            data_deadline: start_ms,
            input_deadline: start_ms,
            redraw_period_ms: if redraw_ms >= 1 {
                redraw_ms
            } else {
                1
            },
            data_period_ms: if data_ms >= 1 {
                data_ms
            } else {
                1
            },
            input_period_ms: if input_ms >= 1 {
                input_ms
            } else {
                1
            },
            quit: false,
            pass_id: 0,
        }
    }

    /// Run one pass of the race.
    pub fn next_pass(&mut self) -> (a: PassAction)
        ensures
            (*final(self), a) == sched_step(*old(self)),
            sched_wf(*old(self)) ==> sched_wf(*final(self)),
    {
        proof {
            lemma_step_preserves_wf(*self);
        }
        if self.quit {
            return PassAction::Exit;
        }
        let which = if self.redraw_deadline <= self.data_deadline && self.redraw_deadline
            <= self.input_deadline {
            PassAction::Redraw
        } else if self.data_deadline <= self.input_deadline {
            PassAction::Data
        } else {
            PassAction::Input
        };
        let d = match which {
            PassAction::Redraw => self.redraw_deadline,
            PassAction::Data => self.data_deadline,
            _ => self.input_deadline,
        };
        let t = if d >= self.now_ms {
            d
        } else {
            self.now_ms
        };
        self.now_ms = t;
        self.pass_id = sat_add_u64_exec(self.pass_id, 1);
        match which {
            PassAction::Redraw => {
                self.redraw_deadline = sat_add_u64_exec(t, self.redraw_period_ms);
            },
            PassAction::Data => {
                self.data_deadline = sat_add_u64_exec(t, self.data_period_ms);
            },
            _ => {
                self.input_deadline = sat_add_u64_exec(t, self.input_period_ms);
            },
        }
        which
    }

    /// Raise the cooperative quit flag.
    pub fn request_quit(&mut self)
        ensures
            *final(self) == (SessionScheduler { quit: true, ..*old(self) }),
    {
        self.quit = true;
    }
}

proof fn lemma_step_preserves_wf(s: SessionScheduler)
    ensures
        sched_wf(s) ==> sched_wf(sched_step(s).0),
{
}

/// Once quit is requested, the very next pass exits: no pending data or
/// redraw tick is waited for, and the state is left as it stands.
pub proof fn lemma_quit_exits_immediately(s: SessionScheduler)
    requires
        s.quit,
    ensures
        sched_step(s).1 == PassAction::Exit,
        sched_step(s).0 == s,
{
}

/// A pass begins at most one input-drain period after the previous one:
/// the earliest deadline is no later than the input deadline, which is
/// at most one input period ahead. A quit flag raised in any handler is
/// therefore honoured within one input-drain period.
pub proof fn lemma_pass_within_input_period(s: SessionScheduler)
    requires
        sched_wf(s),
        !s.quit,
    ensures
        sched_step(s).0.now_ms <= sat_add_u64(s.now_ms, s.input_period_ms),
{
}

/// Each pass has exactly one handler, and the pass id strictly
/// increases from pass to pass: no two passes overlap.
pub proof fn lemma_passes_sequential(s: SessionScheduler)
    requires
        !s.quit,
        s.pass_id < u64::MAX,
    ensures
        sched_step(s).0.pass_id == s.pass_id + 1,
{
}

} // verus!
