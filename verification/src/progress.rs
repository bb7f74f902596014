//! Progress rendering.
//!
//! Each tick of the player produces a `ProgressSnapshot` (elapsed and total
//! playback time in whole seconds).  When the total duration is known
//! (non-zero), the snapshot renders as one line: a fixed-width bar whose
//! filled-cell count is `floor(elapsed / total * width)`, followed by the
//! elapsed and total times as MM:SS.  When the total is unknown (zero), no
//! line is rendered.  The spec functions below give the exact character
//! sequence of the line, and `render_progress` is proved to produce it.

use vstd::arithmetic::div_mod::lemma_div_is_ordered;
use vstd::arithmetic::div_mod::lemma_div_multiples_vanish;
use vstd::arithmetic::div_mod::lemma_div_pos_is_pos;
use vstd::prelude::*;

verus! {

/// Width of the progress bar in cells.
pub const BAR_WIDTH: usize = 50;

/// Elapsed and total playback time, in whole seconds.  A total of zero means
/// the duration of the track could not be determined.
#[derive(Clone, Copy, PartialEq, Eq, Structural, Debug)]
pub struct ProgressSnapshot {
    pub elapsed: u64,
    pub total: u64,
}

/// Number of filled cells for elapsed `e` of total `t`: floor(e/t * width).
pub open spec fn filled_cells(e: int, t: int) -> int {
    e * (BAR_WIDTH as int) / t
}

/// The decimal digit character for `d`.
pub open spec fn digit_char(d: int) -> char
    recommends
        0 <= d < 10,
{
    if d == 0 {
        '0'
    } else if d == 1 {
        '1'
    } else if d == 2 {
        '2'
    } else if d == 3 {
        '3'
    } else if d == 4 {
        '4'
    } else if d == 5 {
        '5'
    } else if d == 6 {
        '6'
    } else if d == 7 {
        '7'
    } else if d == 8 {
        '8'
    } else {
        '9'
    }
}

/// The decimal digits of `n`, most significant first.
pub open spec fn decimal_digits(n: int) -> Seq<char>
    recommends
        n >= 0,
    decreases n,
{
    if n < 10 {
        seq![digit_char(n)]
    } else {
        decimal_digits(n / 10).push(digit_char(n % 10))
    }
}

/// `n` in decimal, padded with a leading zero to at least two characters.
pub open spec fn padded2(n: int) -> Seq<char> {
    if n < 10 {
        seq!['0', digit_char(n)]
    } else {
        decimal_digits(n)
    }
}

/// `secs` formatted as MM:SS (minutes keep all their digits past 99).
pub open spec fn clock(secs: int) -> Seq<char> {
    padded2(secs / 60) + seq![':'] + padded2(secs % 60)
}

/// A run of `n` copies of `c`.
pub open spec fn char_run(c: char, n: int) -> Seq<char> {
    Seq::new(n as nat, |i: int| c)
}

/// The full rendered line for elapsed `e` of total `t`: the bar in brackets,
/// then the elapsed and total clocks separated by a slash.
pub open spec fn progress_line(e: int, t: int) -> Seq<char>
    recommends
        0 <= e <= t,
        0 < t,
{
    seq!['['] + char_run('=', filled_cells(e, t)) + char_run(
        '-',
        BAR_WIDTH as int - filled_cells(e, t),
    ) + seq![']', ' '] + clock(e) + seq!['/'] + clock(t)
}

/// For a fixed positive total `t`, the filled-cell count starts at zero,
/// never decreases as the elapsed time grows, and never exceeds the width.
pub proof fn lemma_filled_cells_monotone(e1: int, e2: int, t: int)
    requires
        0 <= e1 <= e2 <= t,
        0 < t,
    ensures
        filled_cells(e1, t) <= filled_cells(e2, t),
        0 <= filled_cells(e1, t),
        filled_cells(e2, t) <= BAR_WIDTH as int,
{
    lemma_div_is_ordered(e1 * (BAR_WIDTH as int), e2 * (BAR_WIDTH as int), t);
    lemma_div_pos_is_pos(e1 * (BAR_WIDTH as int), t);
    lemma_div_is_ordered(e2 * (BAR_WIDTH as int), t * (BAR_WIDTH as int), t);
    lemma_div_multiples_vanish(BAR_WIDTH as int, t);
}

/// The exec counterpart of `digit_char`.
fn digit_str(d: u64) -> (r: &'static str)
    requires
        d < 10,
    ensures
        r@ == seq![digit_char(d as int)],
{
    proof {
        reveal_strlit("0");
        reveal_strlit("1");
        reveal_strlit("2");
        reveal_strlit("3");
        reveal_strlit("4");
        reveal_strlit("5");
        reveal_strlit("6");
        reveal_strlit("7");
        reveal_strlit("8");
        reveal_strlit("9");
    }
    let r = match d {
        0 => "0",
        1 => "1",
        2 => "2",
        3 => "3",
        4 => "4",
        5 => "5",
        6 => "6",
        7 => "7",
        8 => "8",
        _ => "9",
    };
    proof {
        assert(r@ =~= seq![digit_char(d as int)]);
    }
    r
}

/// Appends the decimal digits of `n` to `out`.
fn push_decimal(out: &mut String, n: u64)
    ensures
        final (out)@ == old(out)@ + decimal_digits(n as int),
    decreases n,
{
    if n < 10 {
        out.append(digit_str(n));
        assert(out@ =~= old(out)@ + decimal_digits(n as int));
    } else {
        push_decimal(out, n / 10);
        out.append(digit_str(n % 10));
        assert(out@ =~= old(out)@ + decimal_digits(n as int));
    }
}

/// Appends `n` padded to at least two digits.
fn push_padded2(out: &mut String, n: u64)
    ensures
        final (out)@ == old(out)@ + padded2(n as int),
{
    if n < 10 {
        proof {
            reveal_strlit("0");
        }
        out.append("0");
        out.append(digit_str(n));
        assert(out@ =~= old(out)@ + padded2(n as int));
    } else {
        push_decimal(out, n);
    }
}

/// Appends `secs` as MM:SS.
fn push_clock(out: &mut String, secs: u64)
    ensures
        final (out)@ == old(out)@ + clock(secs as int),
{
    proof {
        reveal_strlit(":");
    }
    push_padded2(out, secs / 60);
    out.append(":");
    push_padded2(out, secs % 60);
    assert(out@ =~= old(out)@ + clock(secs as int));
}

/// Appends `n` copies of the one-character string `piece`.
fn push_run(out: &mut String, piece: &str, Ghost(c): Ghost<char>, n: usize)
    requires
        piece@ == seq![c],
    ensures
        final (out)@ == old(out)@ + char_run(c, n as int),
{
    let mut i: usize = 0;
    while i < n
        invariant
            i <= n,
            piece@ == seq![c],
            out@ == old(out)@ + char_run(c, i as int),
        decreases n - i,
    {
        out.append(piece);
        proof {
            assert(out@ =~= old(out)@ + char_run(c, (i + 1) as int));
        }
        i = i + 1;
    }
}

/// The filled-cell count as executable arithmetic.
fn compute_filled(e: u64, t: u64) -> (r: usize)
    requires
        0 < t,
        e <= t,
    ensures
        r as int == filled_cells(e as int, t as int),
        r <= BAR_WIDTH,
{
    proof {
        lemma_filled_cells_monotone(e as int, e as int, t as int);
    }
    let w = (e as u128) * (BAR_WIDTH as u128) / (t as u128);
    w as usize
}

/// Renders the line for a snapshot, or nothing when the total duration is
/// unknown (zero).  Elapsed time is clamped to the total before rendering,
/// so a wall clock that overshoots the end of the track shows a full bar
/// rather than one wider than the frame.
pub fn render_progress(snap: ProgressSnapshot) -> (r: Option<String>)
    ensures
        r is Some <==> snap.total > 0,
        snap.total > 0 ==> (r matches Some(line) && line@ == progress_line(
            if snap.elapsed <= snap.total {
                snap.elapsed as int
            } else {
                snap.total as int
            },
            snap.total as int,
        )),
{
    if snap.total == 0 {
        return None;
    }
    let e = if snap.elapsed <= snap.total {
        snap.elapsed
    } else {
        snap.total
    };
    let filled = compute_filled(e, snap.total);
    let mut out = String::new();
    proof {
        reveal_strlit("[");
        reveal_strlit("] ");
        reveal_strlit("/");
        reveal_strlit("=");
        reveal_strlit("-");
        assert("="@ =~= seq!['=']);
        assert("-"@ =~= seq!['-']);
    }
    out.append("[");
    push_run(&mut out, "=", Ghost('='), filled);
    push_run(&mut out, "-", Ghost('-'), BAR_WIDTH - filled);
    out.append("] ");
    push_clock(&mut out, e);
    out.append("/");
    push_clock(&mut out, snap.total);
    proof {
        assert(out@ =~= progress_line(e as int, snap.total as int));
    }
    Some(out)
}

} // verus!
