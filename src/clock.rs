//! Per-side countdown clocks, counted in whole milliseconds.
use vstd::prelude::*;
use crate::square::Side;

verus! {

/// Milliseconds in one second.
pub const MS_PER_SECOND: u64 = 1000;

/// Milliseconds in one minute.
pub const MS_PER_MINUTE: u64 = 60000;

/// Time each side starts with: ten minutes.
pub const INITIAL_ALLOTMENT_MS: u64 = 600000;

/// Remaining time of both sides.
///
/// Once either side's time is zero both clocks are frozen for good: the side
/// whose clock ran out has lost on time.
#[derive(Clone, Copy, Debug, PartialEq, Eq, Structural)]
pub struct ClockManager {
    pub white_ms: u64,
    pub black_ms: u64,
}

/// Remaining time of `side`.
pub open spec fn remaining_of(c: ClockManager, side: Side) -> u64 {
    match side {
        Side::White => c.white_ms,
        Side::Black => c.black_ms,
    }
}

/// Either side's time has run out.
pub open spec fn expired(c: ClockManager) -> bool {
    c.white_ms == 0 || c.black_ms == 0
}

/// The clocks after `dt` milliseconds with `to_move` to play.
pub open spec fn ticked(c: ClockManager, to_move: Side, dt: int) -> ClockManager {
    if expired(c) {
        c
    } else {
        match to_move {
            Side::White => ClockManager {
                white_ms: if c.white_ms > dt { (c.white_ms - dt) as u64 } else { 0 },
                ..c
            },
            Side::Black => ClockManager {
                black_ms: if c.black_ms > dt { (c.black_ms - dt) as u64 } else { 0 },
                ..c
            },
        }
    }
}

/// The winner on time, if a clock has run out: the side whose clock did not.
pub open spec fn timeout_winner_of(c: ClockManager) -> Option<Side> {
    if c.white_ms == 0 {
        Some(Side::Black)
    } else if c.black_ms == 0 {
        Some(Side::White)
    } else {
        None
    }
}

impl ClockManager {
    /// Both sides start with `INITIAL_ALLOTMENT_MS`.
    pub fn new() -> (r: ClockManager)
        ensures
            r.white_ms == INITIAL_ALLOTMENT_MS,
            r.black_ms == INITIAL_ALLOTMENT_MS,
    {
        ClockManager { white_ms: INITIAL_ALLOTMENT_MS, black_ms: INITIAL_ALLOTMENT_MS }
    }

    /// Remaining time of `side`.
    pub fn remaining(&self, side: Side) -> (r: u64)
        ensures
            r == remaining_of(*self, side),
    {
        match side {
            Side::White => self.white_ms,
            Side::Black => self.black_ms,
        }
    }

    /// Either side's time has run out.
    pub fn is_expired(&self) -> (r: bool)
        ensures
            r == expired(*self),
    {
        self.white_ms == 0 || self.black_ms == 0
    }

    /// The winner on time, if a clock has run out.
    pub fn timeout_winner(&self) -> (r: Option<Side>)
        ensures
            r == timeout_winner_of(*self),
    {
        if self.white_ms == 0 {
            Some(Side::Black)
        } else if self.black_ms == 0 {
            Some(Side::White)
        } else {
            None
        }
    }

    /// Advances the clock of `to_move` by `dt_ms`, stopping at zero; does
    /// nothing once either clock has run out.
    pub fn tick(&mut self, to_move: Side, dt_ms: u64)
        ensures
            *final(self) == ticked(*old(self), to_move, dt_ms as int),
    {
        if self.is_expired() {
            return;
        }
        match to_move {
            Side::White => {
                self.white_ms = if self.white_ms > dt_ms { self.white_ms - dt_ms } else { 0 };
            },
            Side::Black => {
                self.black_ms = if self.black_ms > dt_ms { self.black_ms - dt_ms } else { 0 };
            },
        }
    }

    /// Gives both sides the full allotment again.
    pub fn reset(&mut self)
        ensures
            final(self).white_ms == INITIAL_ALLOTMENT_MS,
            final(self).black_ms == INITIAL_ALLOTMENT_MS,
    {
        self.white_ms = INITIAL_ALLOTMENT_MS;
        self.black_ms = INITIAL_ALLOTMENT_MS;
    }
}

/// A tick never takes time from the side not to move, never raises a clock,
/// stops at zero, and changes nothing once a clock has run out.
pub proof fn lemma_tick_monotone(c: ClockManager, to_move: Side, dt: int)
    requires
        dt >= 0,
    ensures
        remaining_of(ticked(c, to_move, dt), crate::square::other_side(to_move)) == remaining_of(
            c,
            crate::square::other_side(to_move),
        ),
        remaining_of(ticked(c, to_move, dt), to_move) <= remaining_of(c, to_move),
        !expired(c) && remaining_of(c, to_move) <= dt ==> remaining_of(
            ticked(c, to_move, dt),
            to_move,
        ) == 0,
        expired(c) ==> ticked(c, to_move, dt) == c,
        expired(c) ==> expired(ticked(c, to_move, dt)),
{
}

/// A clock value split for display: whole minutes, seconds of the minute,
/// and the fraction of the second in sixtieths, rounded.
#[derive(Clone, Copy, Debug, PartialEq, Eq, Structural)]
pub struct ClockReading {
    pub minutes: u64,
    pub seconds: u64,
    pub ticks: u64,
}

/// The display split of `ms` milliseconds.
pub open spec fn reading_of(ms: int) -> ClockReading {
    ClockReading {
        minutes: (ms / 60000) as u64,
        seconds: ((ms / 1000) % 60) as u64,
        ticks: (((ms % 1000) * 60 + 500) / 1000) as u64,
    }
}

/// The decimal digit for `d`.
pub open spec fn digit_char(d: int) -> char {
    if d == 0 {
        '0'
    } else if d == 1 {
        '1'
    } else if d == 2 {
        '2'
    } else if d == 3 {
        '3'
    } else if d == 4 {
        '4'
    } else if d == 5 {
        '5'
    } else if d == 6 {
        '6'
    } else if d == 7 {
        '7'
    } else if d == 8 {
        '8'
    } else {
        '9'
    }
}

/// Decimal notation of `n`, without leading zeros.
pub open spec fn decimal(n: nat) -> Seq<char>
    decreases n,
{
    if n < 10 {
        seq![digit_char(n as int)]
    } else {
        decimal(n / 10) + seq![digit_char((n % 10) as int)]
    }
}

/// Two-digit decimal notation of `n < 100`, with a leading zero if needed.
pub open spec fn two_digits(n: int) -> Seq<char> {
    seq![digit_char(n / 10), digit_char(n % 10)]
}

/// `M:SS:TT`, minutes unpadded.
pub open spec fn reading_text(r: ClockReading) -> Seq<char> {
    decimal(r.minutes as nat) + seq![':'] + two_digits(r.seconds as int) + seq![':'] + two_digits(
        r.ticks as int,
    )
}

fn digit_str(d: u64) -> (r: &'static str)
    requires
        d < 10,
    ensures
        r@ == seq![digit_char(d as int)],
{
    proof {
        reveal_strlit("0");
        reveal_strlit("1");
        reveal_strlit("2");
        reveal_strlit("3");
        reveal_strlit("4");
        reveal_strlit("5");
        reveal_strlit("6");
        reveal_strlit("7");
        reveal_strlit("8");
        reveal_strlit("9");
    }
    let r = if d == 0 {
        "0"
    } else if d == 1 {
        "1"
    } else if d == 2 {
        "2"
    } else if d == 3 {
        "3"
    } else if d == 4 {
        "4"
    } else if d == 5 {
        "5"
    } else if d == 6 {
        "6"
    } else if d == 7 {
        "7"
    } else if d == 8 {
        "8"
    } else {
        "9"
    };
    assert(r@ =~= seq![digit_char(d as int)]);
    r
}

fn append_decimal(s: &mut String, n: u64)
    ensures
        final(s)@ == old(s)@ + decimal(n as nat),
    decreases n,
{
    if n >= 10 {
        append_decimal(s, n / 10);
    }
    s.append(digit_str(n % 10));
    proof {
        if n >= 10 {
            assert(final(s)@ =~= old(s)@ + decimal(n as nat));
        } else {
            assert(final(s)@ =~= old(s)@ + decimal(n as nat));
        }
    }
}

fn append_two_digits(s: &mut String, n: u64)
    requires
        n < 100,
    ensures
        final(s)@ == old(s)@ + two_digits(n as int),
{
    s.append(digit_str(n / 10));
    s.append(digit_str(n % 10));
    assert(final(s)@ =~= old(s)@ + two_digits(n as int));
}

impl ClockReading {
    /// Splits `ms` milliseconds for display.
    pub fn of(ms: u64) -> (r: ClockReading)
        ensures
            r == reading_of(ms as int),
    {
        ClockReading {
            minutes: ms / MS_PER_MINUTE,
            seconds: (ms / MS_PER_SECOND) % 60,
            ticks: ((ms % MS_PER_SECOND) * 60 + 500) / MS_PER_SECOND,
        }
    }

    /// `M:SS:TT`: minutes, then seconds and ticks padded to two digits.
    pub fn text(&self) -> (r: String)
        requires
            self.seconds < 100,
            self.ticks < 100,
        ensures
            r@ == reading_text(*self),
    {
        proof {
            reveal_strlit(":");
        }
        let mut s = String::new();
        append_decimal(&mut s, self.minutes);
        s.append(":");
        append_two_digits(&mut s, self.seconds);
        s.append(":");
        append_two_digits(&mut s, self.ticks);
        assert(s@ =~= reading_text(*self));
        s
    }
}

/// Display text of a clock showing `ms` milliseconds.
pub fn format_clock(ms: u64) -> (r: String)
    ensures
        r@ == reading_text(reading_of(ms as int)),
{
    let reading = ClockReading::of(ms);
    reading.text()
}

} // verus!
