//! What holds of every run of the tournament manager.
use vstd::prelude::*;
use crate::model::{
    lemma_commands_keep_wf, lemma_remaining_monotone, lemma_update_keeps_wf, ManagerModel,
};
use crate::schedule::Schedule;
use crate::sequencer::{
    lemma_advance_descends, lemma_advance_in_steps, lemma_advance_settles, SequencerModel,
};
use crate::time::later_of;
use crate::timeout::TimeoutKind;

verus! {

/// From one update to a later one, with no command in between, the seconds
/// left in the period never go up, unless a transition to a later period
/// lies in between.
pub proof fn law_countdown_never_increases<S: Schedule>(m: ManagerModel<S>, now1: int, now2: int)
    requires
        m.wf(),
        0 <= now1 <= now2,
    ensures
        ({
            let first = m.update(now1);
            let second = first.update(now2);
            ||| second.sequencer.state.secs_in_period <= first.sequencer.state.secs_in_period
            ||| S::steps_left(second.sequencer.state.current) < S::steps_left(
                first.sequencer.state.current,
            )
        }),
        ({
            let first = m.update(now1);
            let second = first.update(now2);
            second.sequencer.state.current == first.sequencer.state.current
                ==> second.sequencer.state.secs_in_period <= first.sequencer.state.secs_in_period
        }),
{
    let first = m.update(now1);
    lemma_update_keeps_wf(m, now1);
    let at = first.clock.advance(now2).accumulated;
    let length = SequencerModel::<S>::full(first.sequencer.length);
    if !first.timeout.is_active() {
        lemma_advance_descends(first.sequencer, first.config, at);
        lemma_remaining_monotone(
            length,
            first.clock.accumulated - first.sequencer.start,
            at - first.sequencer.start,
        );
    } else if first.timeout.expired(at) {
        let resumed = first.sequencer.shift(first.timeout.length * 1000);
        lemma_advance_descends(resumed, first.config, at);
        lemma_remaining_monotone(
            length,
            first.timeout.entered_at - first.sequencer.start,
            at - resumed.start,
        );
    }
}

/// While the clock runs, the countdown mirrors the time that passes
/// outside: from an update at `now1`, which is not before the latest instant
/// the clock has seen, to an update at `now2`, the clock advances by exactly
/// `now2 - now1`, and what counts down shows the whole seconds that are left
/// after that much more time: the period where no timeout is active and no
/// transition lies in between, the team timeout where it has not run down.
pub proof fn law_countdown_mirrors_wall_time<S: Schedule>(
    m: ManagerModel<S>,
    now1: int,
    now2: int,
)
    requires
        m.wf(),
        m.clock.running,
        m.clock.anchor <= now1 <= now2,
    ensures
        ({
            let first = m.update(now1);
            let second = first.update(now2);
            let at1 = first.clock.accumulated;
            &&& second.clock.accumulated == at1 + (now2 - now1)
            &&& !first.timeout.is_active() ==> first.sequencer.state.secs_in_period
                == first.sequencer.countdown(at1)
            &&& !first.timeout.is_active() && second.sequencer.state.current
                == first.sequencer.state.current ==> second.sequencer.state.secs_in_period
                == first.sequencer.countdown(at1 + (now2 - now1))
            &&& first.timeout.state.is_timed() && second.timeout.is_active()
                ==> second.timeout.state.remaining_spec() == Some(
                first.timeout.countdown(at1 + (now2 - now1)) as u32,
            )
        }),
{
    let first = m.update(now1);
    lemma_update_keeps_wf(m, now1);
    let at1 = first.clock.accumulated;
    let at2 = first.clock.advance(now2).accumulated;
    if !m.timeout.is_active() {
        lemma_advance_settles(m.sequencer, m.config, at1);
    } else if m.timeout.expired(at1) {
        lemma_advance_settles(m.sequencer.shift(m.timeout.length * 1000), m.config, at1);
    }
    if !first.timeout.is_active() {
        lemma_advance_descends(first.sequencer, first.config, at2);
    }
}

/// An update with a `now` that is not later than that of the update before
/// changes nothing.
pub proof fn law_update_is_idempotent<S: Schedule>(m: ManagerModel<S>, now: int, again: int)
    requires
        m.wf(),
        0 <= again <= now,
    ensures
        m.update(now).update(again) == m.update(now),
{
    let first = m.update(now);
    lemma_update_keeps_wf(m, now);
    let at = first.clock.accumulated;
    if !m.timeout.is_active() {
        lemma_advance_settles(m.sequencer, m.config, at);
    } else if m.timeout.expired(at) {
        lemma_advance_settles(m.sequencer.shift(m.timeout.length * 1000), m.config, at);
    }
}

/// Updates can be left out: with no command in between, an update at `now1`
/// followed by one at a later `now2` leaves the manager exactly where the
/// update at `now2` alone leaves it. Callers that update at different rates
/// see the same contest.
pub proof fn law_updates_can_be_skipped<S: Schedule>(m: ManagerModel<S>, now1: int, now2: int)
    requires
        m.wf(),
        0 <= now1 <= now2,
    ensures
        m.update(now1).update(now2) == m.update(now2),
{
    let first = m.update(now1);
    lemma_update_keeps_wf(m, now1);
    let at1 = first.clock.accumulated;
    let at2 = m.clock.advance(now2).accumulated;
    assert(first.clock.advance(now2) == m.clock.advance(now2));
    if !m.timeout.is_active() {
        lemma_advance_in_steps(m.sequencer, m.config, at1, at2);
    } else if m.timeout.expired(at1) {
        lemma_advance_in_steps(m.sequencer.shift(m.timeout.length * 1000), m.config, at1, at2);
    }
}

/// Stopping the clock and starting it again, with no update in between,
/// leaves what is displayed exactly as it was, and loses and gains no time:
/// the clock reads at the resumption what it read at the pause, so an update
/// at the resumption shows what an update at the pause would have shown.
pub proof fn law_pause_resume_preserves_countdown<S: Schedule>(
    m: ManagerModel<S>,
    pause: int,
    resume: int,
)
    requires
        m.wf(),
        m.clock.running,
        0 <= pause,
        0 <= resume,
    ensures
        ({
            let resumed = m.stop_clock(pause).start_clock(resume);
            &&& resumed.clock.running
            &&& resumed.sequencer == m.sequencer
            &&& resumed.timeout == m.timeout
            &&& resumed.snapshot() == m.snapshot()
            &&& resumed.clock.elapsed(resume) == m.clock.elapsed(pause)
            &&& resumed.update(resume).snapshot() == m.update(pause).snapshot()
        }),
{
}

/// Entering a timeout and cancelling it leaves the seconds left in the
/// period as they were, whatever time passed in the timeout, and the period
/// goes on from the reading at which the timeout began. Where no time passed
/// in between, nothing but the clock's note of the two instants has changed.
pub proof fn law_timeout_round_trip<S: Schedule>(
    m: ManagerModel<S>,
    kind: TimeoutKind,
    enter: int,
    cancel: int,
)
    requires
        m.wf(),
        !m.timeout.is_active(),
        0 <= enter,
        0 <= cancel,
    ensures
        ({
            let during = m.enter_timeout(kind, enter);
            let after = during.cancel_timeout(cancel);
            &&& during.sequencer == m.sequencer
            &&& after.sequencer.state == m.sequencer.state
            &&& !after.timeout.is_active()
            &&& after.clock.accumulated - after.sequencer.start == m.clock.elapsed(enter)
                - m.sequencer.start
            &&& during.clock.elapsed(cancel) == m.clock.elapsed(enter) ==> after == (ManagerModel {
                clock: m.clock.advance(enter).advance(cancel),
                ..m
            })
        }),
{
}

/// No change of the running clock goes unpublished: whenever a command
/// leaves the clock running where it stood, or standing where it ran, the
/// signal has moved on to another version, and it holds the new state. So a
/// reader that had seen the signal before the command finds it changed,
/// whenever it looks.
pub proof fn law_running_changes_are_published<S: Schedule>(
    m: ManagerModel<S>,
    after: ManagerModel<S>,
    kind: TimeoutKind,
    now: int,
)
    requires
        m.wf(),
        0 <= now,
        after == m.start_clock(now) || after == m.stop_clock(now) || after == m.reset(now) || after
            == m.start(now) || after == m.update(now) || after == m.enter_timeout(kind, now)
            || after == m.cancel_timeout(now),
    ensures
        after.signal.value == after.clock.running,
        after.clock.running != m.clock.running ==> after.signal.version != m.signal.version,
{
    lemma_commands_keep_wf(m, now);
}

/// While the clock runs and something counts down, the next update time is
/// later than `now`, and no more than a second later than the latest instant
/// the clock has seen. This is stated for every `now` from which that
/// instant can still be represented.
pub proof fn law_next_update_time_is_later<S: Schedule>(m: ManagerModel<S>, now: int)
    requires
        m.wf(),
        0 <= now,
        m.clock.running,
        m.counting(m.clock.elapsed(now)),
        later_of(now, m.clock.anchor) + 1000 <= u64::MAX,
    ensures
        m.next_update_time(now) matches Some(next) && now < next && next <= later_of(
            now,
            m.clock.anchor,
        ) + 1000,
{
}

/// The next update time is the earliest instant at which anything can
/// change: once the manager is up to date at `now`, an update at any instant
/// before the next update time leaves what is displayed as it is.
pub proof fn law_nothing_changes_before_next_update_time<S: Schedule>(
    m: ManagerModel<S>,
    now: int,
    before: int,
)
    requires
        m.wf(),
        0 <= now <= before,
        m.update(now).next_update_time(now) matches Some(next) && before < next,
    ensures
        m.update(now).update(before).snapshot() == m.update(now).snapshot(),
{
    let fresh = m.update(now);
    lemma_update_keeps_wf(m, now);
    let at = fresh.clock.accumulated;
    if !m.timeout.is_active() {
        lemma_advance_settles(m.sequencer, m.config, at);
    } else if m.timeout.expired(at) {
        lemma_advance_settles(m.sequencer.shift(m.timeout.length * 1000), m.config, at);
    }
}

/// While the clock stands, or nothing counts down, no update changes what
/// is displayed, however late it comes: there is nothing to wait for but a
/// command.
pub proof fn law_nothing_changes_while_nothing_counts<S: Schedule>(
    m: ManagerModel<S>,
    now: int,
    later: int,
)
    requires
        m.wf(),
        0 <= now <= later,
        !m.update(now).clock.running || !m.update(now).counting(m.update(now).clock.accumulated),
    ensures
        m.update(now).update(later).snapshot() == m.update(now).snapshot(),
{
    let fresh = m.update(now);
    lemma_update_keeps_wf(m, now);
    let at = fresh.clock.accumulated;
    if !m.timeout.is_active() {
        lemma_advance_settles(m.sequencer, m.config, at);
    } else if m.timeout.expired(at) {
        lemma_advance_settles(m.sequencer.shift(m.timeout.length * 1000), m.config, at);
    }
}

/// An update at exactly the next update time changes what is displayed: the
/// period, the timeout, or the seconds that are left of one of them.
pub proof fn law_update_at_next_time_changes_display<S: Schedule>(m: ManagerModel<S>, now: int)
    requires
        m.wf(),
        0 <= now,
        m.next_update_time(now) is Some,
    ensures
        m.update(m.next_update_time(now).unwrap()).snapshot() != m.snapshot(),
{
    let next = m.next_update_time(now).unwrap();
    let at = m.clock.advance(next).accumulated;
    if !m.timeout.is_active() {
        let length = SequencerModel::<S>::full(m.sequencer.length);
        lemma_advance_descends(m.sequencer, m.config, at);
        lemma_remaining_monotone(
            length,
            m.clock.accumulated - m.sequencer.start,
            m.clock.elapsed(now) - m.sequencer.start,
        );
    } else {
        lemma_remaining_monotone(
            m.timeout.length,
            m.clock.accumulated - m.timeout.entered_at,
            m.clock.elapsed(now) - m.timeout.entered_at,
        );
    }
}

} // verus!
