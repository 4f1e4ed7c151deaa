//! What the scoreboard shows during play: the texts, and where its moving
//! parts stand at a given instant.
use vstd::prelude::*;
use crate::schedule::GamePeriod;
use crate::snapshot::GameSnapshot;
use crate::time::Instant;
use crate::timeout::TimeoutState;

verus! {

/// A part that has moved or faded all the way, in thousandths.
pub const FULL: u32 = 1000;

/// The decimal digit for `d`.
pub open spec fn digit_char(d: int) -> char {
    if d == 0 {
        '0'
    } else if d == 1 {
        '1'
    } else if d == 2 {
        '2'
    } else if d == 3 {
        '3'
    } else if d == 4 {
        '4'
    } else if d == 5 {
        '5'
    } else if d == 6 {
        '6'
    } else if d == 7 {
        '7'
    } else if d == 8 {
        '8'
    } else {
        '9'
    }
}

/// `n` in decimal, without leading zeros.
pub open spec fn decimal(n: nat) -> Seq<char>
    decreases n,
{
    if n < 10 {
        seq![digit_char(n as int)]
    } else {
        decimal(n / 10).push(digit_char((n % 10) as int))
    }
}

/// `n` in decimal, with a leading zero where it is below ten.
pub open spec fn two_digits(n: nat) -> Seq<char> {
    if n < 10 {
        seq!['0', digit_char(n as int)]
    } else {
        decimal(n)
    }
}

/// `secs` seconds as minutes and seconds, each with at least two digits and
/// a colon between them.
pub open spec fn clock_text_spec(secs: u32) -> Seq<char> {
    two_digits((secs / 60) as nat) + seq![':'] + two_digits((secs % 60) as nat)
}

fn digit_str(d: u32) -> (text: &'static str)
    requires
        d < 10,
    ensures
        text@ == seq![digit_char(d as int)],
{
    proof {
        reveal_strlit("0");
        reveal_strlit("1");
        reveal_strlit("2");
        reveal_strlit("3");
        reveal_strlit("4");
        reveal_strlit("5");
        reveal_strlit("6");
        reveal_strlit("7");
        reveal_strlit("8");
        reveal_strlit("9");
    }
    let text: &'static str = match d {
        0 => "0",
        1 => "1",
        2 => "2",
        3 => "3",
        4 => "4",
        5 => "5",
        6 => "6",
        7 => "7",
        8 => "8",
        _ => "9",
    };
    assert(text@ =~= seq![digit_char(d as int)]);
    text
}

fn push_decimal(out: &mut String, n: u32)
    ensures
        final(out)@ == old(out)@ + decimal(n as nat),
    decreases n,
{
    if n >= 10 {
        push_decimal(out, n / 10);
    }
    out.append(digit_str(n % 10));
    assert(out@ =~= old(out)@ + decimal(n as nat));
}

fn push_two_digits(out: &mut String, n: u32)
    ensures
        final(out)@ == old(out)@ + two_digits(n as nat),
{
    if n < 10 {
        out.append(digit_str(0));
    }
    push_decimal(out, n);
    assert(out@ =~= old(out)@ + two_digits(n as nat));
}

/// The text of the game clock for `secs` seconds.
pub fn clock_text(secs: u32) -> (text: String)
    ensures
        text@ == clock_text_spec(secs),
{
    proof {
        reveal_strlit(":");
    }
    let mut text: String = String::new();
    push_two_digits(&mut text, secs / 60);
    text.append(":");
    push_two_digits(&mut text, secs % 60);
    assert(text@ =~= clock_text_spec(secs));
    text
}

/// The name under the game clock for `period`.
pub open spec fn period_label_spec(period: GamePeriod) -> Seq<char> {
    match period {
        GamePeriod::FirstHalf => "1ST HALF"@,
        GamePeriod::SecondHalf => "2ND HALF"@,
        _ => "HALF TIME"@,
    }
}

/// The name under the game clock for `period`.
pub fn period_label(period: GamePeriod) -> (label: &'static str)
    ensures
        label@ == period_label_spec(period),
{
    match period {
        GamePeriod::FirstHalf => "1ST HALF",
        GamePeriod::SecondHalf => "2ND HALF",
        _ => "HALF TIME",
    }
}

/// The two lines of the timeout banner, and the seconds beside them where
/// the timeout runs down.
pub struct TimeoutCaption {
    pub first: &'static str,
    pub second: &'static str,
    pub secs: Option<u32>,
}

/// The two lines of the banner for `timeout`.
pub open spec fn caption_lines(timeout: TimeoutState) -> (Seq<char>, Seq<char>) {
    match timeout {
        TimeoutState::Referee => ("REFEREE"@, "TIMEOUT"@),
        TimeoutState::White(_) => ("WHITE"@, "TIMEOUT"@),
        TimeoutState::Black(_) => ("BLACK"@, "TIMEOUT"@),
        _ => ("PENALTY"@, "SHOT"@),
    }
}

/// What the banner says for `timeout`, or `None` where no timeout is active.
pub fn timeout_caption(timeout: TimeoutState) -> (caption: Option<TimeoutCaption>)
    ensures
        caption is Some <==> timeout !is Inactive,
        caption matches Some(c) ==> (c.first@, c.second@) == caption_lines(timeout) && c.secs
            == timeout.remaining_spec(),
{
    match timeout {
        TimeoutState::Inactive => None,
        TimeoutState::Referee => Some(
            TimeoutCaption { first: "REFEREE", second: "TIMEOUT", secs: None },
        ),
        TimeoutState::White(secs) => Some(
            TimeoutCaption { first: "WHITE", second: "TIMEOUT", secs: Some(secs) },
        ),
        TimeoutState::Black(secs) => Some(
            TimeoutCaption { first: "BLACK", second: "TIMEOUT", secs: Some(secs) },
        ),
        TimeoutState::PenaltyShot => Some(
            TimeoutCaption { first: "PENALTY", second: "SHOT", secs: None },
        ),
    }
}

/// Milliseconds from `since` to `now`, and none where `now` is the earlier.
pub open spec fn millis_since(since: Instant, now: Instant) -> int {
    if now@ >= since@ {
        now@ - since@
    } else {
        0
    }
}

/// How far aside the graphic of time and state stands, in thousandths,
/// `elapsed` milliseconds after the period came on display.
///
/// In the last second of a period it stands aside. In the first half it is
/// in place for five seconds and moves aside during the sixth. In any other
/// period it first moves into place during one second.
pub open spec fn bar_shift_spec(snapshot: GameSnapshot, elapsed: int) -> int {
    if snapshot.secs_in_period < 1 {
        1000
    } else if elapsed <= 1000 && snapshot.current_period != GamePeriod::FirstHalf {
        1000 - elapsed
    } else if elapsed <= 5000 {
        0
    } else if elapsed <= 6000 {
        elapsed - 5000
    } else {
        1000
    }
}

/// Where the moving parts of the scoreboard stand in one frame.
#[derive(Clone, Copy, Debug, PartialEq, Eq, Structural)]
pub struct InGameFrame {
    /// How far aside the graphic of time and state stands, in thousandths.
    pub bar_shift: u32,
    /// The timeout that the banner shows, if any.
    pub banner: TimeoutState,
    /// How far the banner is from its place, in thousandths.
    pub banner_shift: u32,
    /// How far the banner has faded in, in thousandths.
    pub banner_fade: u32,
}

/// What the scoreboard remembers from frame to frame.
#[derive(Clone, Copy, Debug, PartialEq, Eq, Structural)]
pub struct InGameAnimation {
    /// When the graphic of time and state last stood aside at the end of a
    /// period.
    pub bar_since: Instant,
    /// When the banner last began to come or go.
    pub banner_since: Instant,
    /// Whether the banner is on its way out.
    pub banner_leaving: bool,
    /// The timeout that the banner shows.
    pub last_timeout: TimeoutState,
}

impl InGameAnimation {
    /// The memory with which the scoreboard comes on display at `now`.
    pub fn new(now: Instant) -> (animation: InGameAnimation)
        ensures
            animation == (InGameAnimation {
                bar_since: now,
                banner_since: now,
                banner_leaving: false,
                last_timeout: TimeoutState::Inactive,
            }),
    {
        InGameAnimation {
            bar_since: now,
            banner_since: now,
            banner_leaving: false,
            last_timeout: TimeoutState::Inactive,
        }
    }

    /// The memory after the frame at `now`, for `snapshot`.
    ///
    /// A timeout that begins puts its banner on the way in. One that has
    /// ended leaves its banner up for one more second, on the way out. The
    /// banner shows the timeout that was last seen, until it is gone.
    pub open spec fn after_frame(self, snapshot: GameSnapshot, now: Instant) -> InGameAnimation {
        let bar_since = if snapshot.secs_in_period < 1 {
            now
        } else {
            self.bar_since
        };
        if snapshot.timeout !is Inactive {
            InGameAnimation {
                bar_since,
                banner_since: if self.last_timeout is Inactive {
                    now
                } else {
                    self.banner_since
                },
                banner_leaving: self.banner_leaving,
                last_timeout: snapshot.timeout,
            }
        } else if self.last_timeout !is Inactive {
            if self.banner_leaving && millis_since(self.banner_since, now) > 1000 {
                InGameAnimation {
                    bar_since,
                    banner_since: now,
                    banner_leaving: false,
                    last_timeout: TimeoutState::Inactive,
                }
            } else {
                InGameAnimation {
                    bar_since,
                    banner_since: if self.banner_leaving {
                        self.banner_since
                    } else {
                        now
                    },
                    banner_leaving: true,
                    last_timeout: self.last_timeout,
                }
            }
        } else {
            InGameAnimation { bar_since, ..self }
        }
    }

    /// Where the moving parts stand in the frame at `now`, for `snapshot`.
    ///
    /// The banner of a timeout comes in during its first second. While it
    /// stays up, and while there is none, it counts as in place and faded
    /// in; once it is gone it counts as away and faded out.
    pub open spec fn frame_spec(self, snapshot: GameSnapshot, now: Instant) -> InGameFrame {
        let after = self.after_frame(snapshot, now);
        let coming = snapshot.timeout !is Inactive && millis_since(after.banner_since, now) < 1000;
        let gone = snapshot.timeout is Inactive && self.last_timeout !is Inactive
            && after.last_timeout is Inactive;
        InGameFrame {
            bar_shift: bar_shift_spec(snapshot, millis_since(self.bar_since, now)) as u32,
            banner: after.last_timeout,
            banner_shift: if coming {
                (1000 - millis_since(after.banner_since, now)) as u32
            } else if gone {
                1000
            } else {
                0
            },
            banner_fade: if coming {
                millis_since(after.banner_since, now) as u32
            } else if gone {
                0
            } else {
                1000
            },
        }
    }

    /// Works out the frame at `now` for `snapshot`, and remembers what the
    /// next frame needs.
    pub fn frame(&mut self, snapshot: &GameSnapshot, now: Instant) -> (frame: InGameFrame)
        ensures
            frame == old(self).frame_spec(*snapshot, now),
            *final(self) == old(self).after_frame(*snapshot, now),
    {
        let bar_shift: u32 = if snapshot.secs_in_period < 1 {
            self.bar_since = now;
            FULL
        } else {
            let time: u64 = elapsed_millis(self.bar_since, now);
            if snapshot.current_period == GamePeriod::FirstHalf {
                if time <= 5000 {
                    0
                } else if time <= 6000 {
                    (time - 5000) as u32
                } else {
                    FULL
                }
            } else {
                if time <= 1000 {
                    FULL - (time as u32)
                } else if time <= 5000 {
                    0
                } else if time <= 6000 {
                    (time - 5000) as u32
                } else {
                    FULL
                }
            }
        };
        let mut time: u64 = elapsed_millis(self.banner_since, now);
        let (banner_shift, banner_fade): (u32, u32) = if !is_inactive(snapshot.timeout) {
            if is_inactive(self.last_timeout) {
                self.banner_since = now;
                time = 0;
            }
            self.last_timeout = snapshot.timeout;
            if time < 1000 {
                (FULL - (time as u32), time as u32)
            } else {
                (0, FULL)
            }
        } else if !is_inactive(self.last_timeout) {
            if !self.banner_leaving {
                self.banner_leaving = true;
                self.banner_since = now;
                time = 0;
            }
            if time > 1000 {
                self.banner_leaving = false;
                self.banner_since = now;
                self.last_timeout = TimeoutState::Inactive;
                (FULL, 0)
            } else {
                (0, FULL)
            }
        } else {
            (0, FULL)
        };
        InGameFrame { bar_shift, banner: self.last_timeout, banner_shift, banner_fade }
    }
}

fn is_inactive(timeout: TimeoutState) -> (yes: bool)
    ensures
        yes == (timeout is Inactive),
{
    match timeout {
        TimeoutState::Inactive => true,
        _ => false,
    }
}

fn elapsed_millis(since: Instant, now: Instant) -> (ms: u64)
    ensures
        ms == millis_since(since, now),
{
    if now.millis >= since.millis {
        now.millis - since.millis
    } else {
        0
    }
}

} // verus!
