//! The decisions of the loops that drive a manager: how long to wait, what
//! to do after the wait, and what an operator's message leads to. The
//! loops themselves, which wait and send, belong to the caller.
use vstd::prelude::*;
use crate::manager::{TournamentError, TournamentManager};
use crate::model::ManagerModel;
use crate::schedule::{BeepTestPeriod, Levels, Schedule};
use crate::snapshot::{BeepTestSnapshot, Snapshot};
use crate::sound::{sound_cue, sound_cue_spec, SoundCue, SoundSettings};
use crate::time::Instant;

verus! {

/// How the updater waits before it brings the manager up to date again.
#[derive(Clone, Copy, Debug, PartialEq, Eq, Structural)]
pub enum Wait {
    /// Until the instant, or until the clock-running signal changes.
    Until(Instant),
    /// Not at all: only look whether the signal has changed.
    Poll,
    /// Until the signal changes, however long that takes.
    ForChange,
}

/// How to wait, given the next update time that was worked out last.
pub open spec fn plan_wait_spec(next_time: Option<Instant>, now: Instant) -> Wait {
    match next_time {
        Some(next) => if next@ > now@ {
            Wait::Until(next)
        } else {
            Wait::Poll
        },
        None => Wait::ForChange,
    }
}

/// How to wait, given the next update time that was worked out last.
pub fn plan_wait(next_time: Option<Instant>, now: Instant) -> (wait: Wait)
    ensures
        wait == plan_wait_spec(next_time, now),
{
    match next_time {
        Some(next) => {
            if next.millis > now.millis {
                Wait::Until(next)
            } else {
                Wait::Poll
            }
        },
        None => Wait::ForChange,
    }
}

/// What ended a wait.
#[derive(Clone, Copy, Debug, PartialEq, Eq, Structural)]
pub enum Wake {
    /// The instant waited for has come.
    Deadline,
    /// The clock-running signal changed, to the value given.
    Changed(bool),
    /// The signal was looked at and had not changed.
    Unchanged,
    /// The signal will never change again: its owner is gone.
    Closed,
}

impl Wake {
    /// Whether the clock counts as running after this wake: what the signal
    /// said where it changed, and yes otherwise.
    pub open spec fn clock_running(self) -> bool {
        match self {
            Wake::Changed(running) => running,
            _ => true,
        }
    }
}

/// What one round of the updater hands on: the snapshot to show, and the
/// instant to wait for next, if there is one.
#[derive(Clone, Copy, Debug, PartialEq, Eq)]
pub struct Refresh<P> {
    pub snapshot: Snapshot<P>,
    pub next_time: Option<Instant>,
}

/// One round of the updater after a wait that ended with `wake` at `now`.
///
/// Where the signal is closed the updater ends: nothing is done and nothing
/// is handed on. Otherwise the manager is brought up to `now`, and its
/// snapshot is handed on with the next update time, or with none where the
/// clock does not count as running.
pub fn refresh<S: Schedule>(tm: &mut TournamentManager<S>, wake: Wake, now: Instant) -> (out:
    Option<Refresh<S::Period>>)
    requires
        old(tm).wf(),
    ensures
        final(tm).wf(),
        final(tm)@ == if wake is Closed {
            old(tm)@
        } else {
            old(tm)@.update(now@)
        },
        out is None <==> wake is Closed,
        out matches Some(round) ==> round.snapshot == final(tm)@.snapshot() && match (
        if wake.clock_running() {
            final(tm)@.next_update_time(now@)
        } else {
            None
        }) {
            Some(at) => round.next_time matches Some(next) && next@ == at,
            None => round.next_time is None,
        },
{
    let clock_running: bool = match wake {
        Wake::Closed => {
            return None;
        },
        Wake::Changed(running) => running,
        Wake::Deadline | Wake::Unchanged => true,
    };
    tm.update(now);
    let snapshot: Snapshot<S::Period> = tm.generate_snapshot(now).unwrap();
    let next_time: Option<Instant> = if clock_running {
        tm.next_update_time(now)
    } else {
        None
    };
    Some(Refresh { snapshot, next_time })
}

/// What an operator of the beep test can ask for, and what the updater
/// reports.
#[derive(Clone, Copy, Debug, PartialEq, Eq)]
pub enum Message {
    Reset,
    Start,
    Stop,
    NewSnapshot(BeepTestSnapshot),
    NoAction,
}

impl Message {
    /// Whether the message is acted on again when it comes twice in a row.
    /// A command of the operator is not: a second one is a slip of the
    /// hand.
    pub open spec fn is_repeatable_spec(self) -> bool {
        self is NewSnapshot || self is NoAction
    }

    /// Whether the message is acted on again when it comes twice in a row.
    pub fn is_repeatable(&self) -> (yes: bool)
        ensures
            yes == self.is_repeatable_spec(),
    {
        match self {
            Message::NewSnapshot(_) | Message::NoAction => true,
            Message::Reset | Message::Start | Message::Stop => false,
        }
    }

    /// Whether `self` is a command and `last` is the same command.
    fn repeats(&self, last: &Message) -> (yes: bool)
        ensures
            yes == (!self.is_repeatable_spec() && *self == *last),
    {
        match (self, last) {
            (Message::Reset, Message::Reset) => true,
            (Message::Start, Message::Start) => true,
            (Message::Stop, Message::Stop) => true,
            _ => false,
        }
    }
}

/// What the console of the beep test shows and remembers.
#[derive(Clone, Copy, Debug, PartialEq, Eq)]
pub struct Console {
    /// The snapshot on display.
    pub snapshot: BeepTestSnapshot,
    /// The message that came last.
    pub last_message: Message,
    pub sound: SoundSettings,
}

/// What the caller has to do after a message: the sound to make, and the
/// snapshot to send to the displays, if any.
#[derive(Clone, Copy, Debug, PartialEq, Eq)]
pub struct Effects {
    pub cue: SoundCue,
    pub broadcast: Option<BeepTestSnapshot>,
}

impl Effects {
    /// Nothing to do.
    pub open spec fn nothing() -> Effects {
        Effects { cue: SoundCue::Silence, broadcast: None }
    }
}

impl Console {
    /// A console that shows a beep test that has not begun.
    pub fn new(sound: SoundSettings) -> (console: Console)
        ensures
            console == (Console {
                snapshot: Snapshot::<BeepTestPeriod>::waiting_spec(BeepTestPeriod::Pre),
                last_message: Message::NoAction,
                sound,
            }),
    {
        Console {
            snapshot: Snapshot::waiting(BeepTestPeriod::Pre),
            last_message: Message::NoAction,
            sound,
        }
    }

    /// The console once `new` is on display.
    pub open spec fn showing(self, new: BeepTestSnapshot, message: Message) -> Console {
        Console { snapshot: new, last_message: message, sound: self.sound }
    }

    /// What putting `new` on display asks of the caller.
    pub open spec fn effects_of(self, new: BeepTestSnapshot) -> Effects {
        Effects { cue: sound_cue_spec(self.sound, self.snapshot, new), broadcast: Some(new) }
    }

    /// The manager after `message` was handled at `now`.
    ///
    /// A command that repeats the one before is ignored. `Reset` puts the
    /// test back before its first level. `Start` starts the test where it
    /// waits to be started, and the clock where the test is under way.
    /// `Stop` stops the clock. The other messages leave the manager alone.
    pub open spec fn manager_after(
        self,
        tm: ManagerModel<Levels>,
        message: Message,
        now: Instant,
    ) -> ManagerModel<Levels> {
        if !message.is_repeatable_spec() && message == self.last_message {
            tm
        } else {
            match message {
                Message::Reset => tm.reset(now@),
                Message::Start => if tm.can_start() {
                    tm.start(now@)
                } else {
                    tm.start_clock(now@)
                },
                Message::Stop => tm.stop_clock(now@),
                _ => tm,
            }
        }
    }

    /// What handling `message` returns: the effects of the new snapshot
    /// after `Reset`, `Start` and `NewSnapshot`; `NotRunning` where `Stop`
    /// finds the clock stopped; nothing to do otherwise. A `Start` that
    /// finds the clock running is no fault: the snapshot is shown again.
    pub open spec fn outcome(self, tm: ManagerModel<Levels>, message: Message, now: Instant) -> Result<
        Effects,
        TournamentError,
    > {
        if !message.is_repeatable_spec() && message == self.last_message {
            Ok(Effects::nothing())
        } else {
            match message {
                Message::Reset | Message::Start => Ok(
                    self.effects_of(self.manager_after(tm, message, now).snapshot()),
                ),
                Message::Stop => if tm.clock.running {
                    Ok(Effects::nothing())
                } else {
                    Err(TournamentError::NotRunning)
                },
                Message::NewSnapshot(new) => Ok(self.effects_of(new)),
                Message::NoAction => Ok(Effects::nothing()),
            }
        }
    }

    /// Handles `message` at `now`: commands the manager, puts the snapshot
    /// that results on display, and says what the caller has to do. The
    /// message is remembered as the last one whatever comes of it.
    pub fn handle(&mut self, tm: &mut TournamentManager<Levels>, message: Message, now: Instant) -> (res:
        Result<Effects, TournamentError>)
        requires
            old(tm).wf(),
        ensures
            final(tm).wf(),
            final(tm)@ == old(self).manager_after(old(tm)@, message, now),
            res == old(self).outcome(old(tm)@, message, now),
            *final(self) == match res {
                Ok(effects) => match effects.broadcast {
                    Some(new) => old(self).showing(new, message),
                    None => old(self).showing(old(self).snapshot, message),
                },
                Err(_) => old(self).showing(old(self).snapshot, message),
            },
    {
        let repeats: bool = message.repeats(&self.last_message);
        self.last_message = message;
        if repeats {
            return Ok(Effects { cue: SoundCue::Silence, broadcast: None });
        }
        match message {
            Message::Reset => {
                tm.reset_beep_test_now(now);
                let snapshot: BeepTestSnapshot = tm.generate_snapshot(now).unwrap();
                Ok(self.apply_snapshot(snapshot))
            },
            Message::Start => {
                let _started: Result<(), TournamentError> = match tm.current_period() {
                    BeepTestPeriod::Pre => tm.start_beep_test_now(now),
                    BeepTestPeriod::Level0
                    | BeepTestPeriod::Level1
                    | BeepTestPeriod::Level2
                    | BeepTestPeriod::Level3
                    | BeepTestPeriod::Level4
                    | BeepTestPeriod::Level5
                    | BeepTestPeriod::Level6
                    | BeepTestPeriod::Level7
                    | BeepTestPeriod::Level8
                    | BeepTestPeriod::Level9
                    | BeepTestPeriod::Level10 => tm.start_clock(now),
                };
                let snapshot: BeepTestSnapshot = tm.generate_snapshot(now).unwrap();
                Ok(self.apply_snapshot(snapshot))
            },
            Message::Stop => match tm.stop_clock(now) {
                Ok(()) => Ok(Effects { cue: SoundCue::Silence, broadcast: None }),
                Err(refused) => Err(refused),
            },
            Message::NewSnapshot(snapshot) => Ok(self.apply_snapshot(snapshot)),
            Message::NoAction => Ok(Effects { cue: SoundCue::Silence, broadcast: None }),
        }
    }

    /// Puts `new` on display and says what that asks of the caller.
    pub fn apply_snapshot(&mut self, new: BeepTestSnapshot) -> (effects: Effects)
        ensures
            effects == old(self).effects_of(new),
            *final(self) == old(self).showing(new, old(self).last_message),
    {
        let cue: SoundCue = sound_cue(&self.sound, &self.snapshot, &new);
        self.snapshot = new;
        Effects { cue, broadcast: Some(new) }
    }
}

} // verus!
