use vstd::prelude::*;
use vstd::string::StringExecFns;

verus! {

/// Upper bound, in whole seconds, on a time reading after normalization.
/// It is the largest value `v` such that `1000 * v` still fits in an `i64`,
/// so every product taken below stays in range.
pub const MAX_TIME_SECONDS: i64 = 9_223_372_036_854_775;

/// A position or duration reading normalized to a plain number of seconds:
/// an absent reading (the engine has not established timing yet) and a
/// negative reading count as zero, and readings above `MAX_TIME_SECONDS`
/// are capped there.
pub open spec fn clamp_time(reading: Option<i64>) -> int {
    match reading {
        Option::None => 0,
        Option::Some(v) => if v < 0 {
            0
        } else if v > MAX_TIME_SECONDS {
            MAX_TIME_SECONDS as int
        } else {
            v as int
        },
    }
}

/// Normalize an engine time reading; see `clamp_time`.
pub fn normalize_reading(reading: Option<i64>) -> (r: i64)
    ensures
        r == clamp_time(reading),
        0 <= r <= MAX_TIME_SECONDS,
{
    match reading {
        Option::None => 0,
        Option::Some(v) => {
            if v < 0 {
                0
            } else if v > MAX_TIME_SECONDS {
                MAX_TIME_SECONDS
            } else {
                v
            }
        },
    }
}

/// The decimal digit character for `d` in 0..=9.
pub open spec fn digit_char(d: nat) -> char {
    if d == 0 {
        '0'
    } else if d == 1 {
        '1'
    } else if d == 2 {
        '2'
    } else if d == 3 {
        '3'
    } else if d == 4 {
        '4'
    } else if d == 5 {
        '5'
    } else if d == 6 {
        '6'
    } else if d == 7 {
        '7'
    } else if d == 8 {
        '8'
    } else {
        '9'
    }
}

/// `c` is one of the ten decimal digit characters.
pub open spec fn is_digit_char(c: char) -> bool {
    ||| c == '0'
    ||| c == '1'
    ||| c == '2'
    ||| c == '3'
    ||| c == '4'
    ||| c == '5'
    ||| c == '6'
    ||| c == '7'
    ||| c == '8'
    ||| c == '9'
}

/// The plain decimal rendering of `n`, most significant digit first,
/// without leading zeros (except for `n == 0`).
pub open spec fn dec_chars(n: nat) -> Seq<char>
    decreases n,
{
    if n < 10 {
        seq![digit_char(n)]
    } else {
        dec_chars(n / 10) + seq![digit_char(n % 10)]
    }
}

/// Two decimal digits, for `n` in 0..=99.
pub open spec fn two_digit_chars(n: nat) -> Seq<char> {
    seq![digit_char(n / 10), digit_char(n % 10)]
}

/// The hour field: zero-padded to two digits, wider when the hour count
/// needs more than two digits.
pub open spec fn hours_chars(n: nat) -> Seq<char> {
    if n < 10 {
        seq!['0', digit_char(n)]
    } else {
        dec_chars(n)
    }
}

/// The `HH:MM:SS` rendering of a non-negative number of seconds.
pub open spec fn hhmmss_chars(s: nat) -> Seq<char> {
    hours_chars(s / 3600) + seq![':'] + two_digit_chars((s / 60) % 60) + seq![':']
        + two_digit_chars(s % 60)
}

/// The published timestamp text: elapsed position, a separator, and the
/// total duration, both rendered `HH:MM:SS`.
pub open spec fn ts_label_chars(position_seconds: nat, duration_seconds: nat) -> Seq<char> {
    hhmmss_chars(position_seconds) + seq![' ', '/', ' '] + hhmmss_chars(duration_seconds)
}

fn digit_str(d: u64) -> (r: &'static str)
    requires
        d < 10,
    ensures
        r@ == seq![digit_char(d as nat)],
{
    proof {
        reveal_strlit("0");
        reveal_strlit("1");
        reveal_strlit("2");
        reveal_strlit("3");
        reveal_strlit("4");
        reveal_strlit("5");
        reveal_strlit("6");
        reveal_strlit("7");
        reveal_strlit("8");
        reveal_strlit("9");
    }
    let r: &'static str = match d {
        0 => "0",
        1 => "1",
        2 => "2",
        3 => "3",
        4 => "4",
        5 => "5",
        6 => "6",
        7 => "7",
        8 => "8",
        _ => "9",
    };
    proof {
        assert(r@ =~= seq![digit_char(d as nat)]);
    }
    r
}

fn push_decimal(out: &mut String, n: u64)
    ensures
        final(out)@ == old(out)@ + dec_chars(n as nat),
    decreases n,
{
    if n >= 10 {
        push_decimal(out, n / 10);
    }
    out.append(digit_str(n % 10));
    proof {
        assert(final(out)@ =~= old(out)@ + dec_chars(n as nat));
    }
}

fn push_two_digits(out: &mut String, n: u64)
    requires
        n < 100,
    ensures
        final(out)@ == old(out)@ + two_digit_chars(n as nat),
{
    out.append(digit_str(n / 10));
    out.append(digit_str(n % 10));
    proof {
        assert(final(out)@ =~= old(out)@ + two_digit_chars(n as nat));
    }
}

fn push_hours(out: &mut String, n: u64)
    ensures
        final(out)@ == old(out)@ + hours_chars(n as nat),
{
    if n < 10 {
        proof {
            reveal_strlit("0");
        }
        out.append("0");
        out.append(digit_str(n));
    } else {
        push_decimal(out, n);
    }
    proof {
        assert(final(out)@ =~= old(out)@ + hours_chars(n as nat));
    }
}

/// Render a non-negative number of whole seconds as `HH:MM:SS`, with
/// minutes and seconds in 00..=59 and the hour field widening past two
/// digits when needed.
pub fn seconds_to_label(total_seconds: i64) -> (r: String)
    requires
        0 <= total_seconds,
    ensures
        r@ == hhmmss_chars(total_seconds as nat),
{
    let s: u64 = total_seconds as u64;
    let mut out = String::new();
    proof {
        reveal_strlit(":");
    }
    push_hours(&mut out, s / 3600);
    out.append(":");
    push_two_digits(&mut out, (s / 60) % 60);
    out.append(":");
    push_two_digits(&mut out, s % 60);
    proof {
        assert(out@ =~= hhmmss_chars(total_seconds as nat));
    }
    out
}

/// The timestamp text published to the UI each tick, from the raw engine
/// readings: `position / duration`, both `HH:MM:SS`, with unknown readings
/// rendered as zero.
pub fn get_ts_label(position: Option<i64>, duration: Option<i64>) -> (r: String)
    ensures
        r@ == ts_label_chars(clamp_time(position) as nat, clamp_time(duration) as nat),
{
    let p = normalize_reading(position);
    let d = normalize_reading(duration);
    let mut out = seconds_to_label(p);
    proof {
        reveal_strlit(" / ");
    }
    out.append(" / ");
    let tail = seconds_to_label(d);
    out.append(tail.as_str());
    proof {
        assert(out@ =~= ts_label_chars(clamp_time(position) as nat, clamp_time(duration) as nat));
    }
    out
}

/// The normalized seek-bar position, in thousandths of the whole bar:
/// `position / duration` capped to [0, 1], and zero whenever the duration
/// is unknown or zero (so an unknown-over-unknown tick publishes zero
/// rather than a fault).
pub open spec fn bar_permille_spec(position: Option<i64>, duration: Option<i64>) -> int {
    let p = clamp_time(position);
    let d = clamp_time(duration);
    if d == 0 {
        0
    } else if p >= d {
        1000
    } else {
        p * 1000 / d
    }
}

/// Compute the seek-bar position; see `bar_permille_spec`.
pub fn seek_bar_permille(position: Option<i64>, duration: Option<i64>) -> (r: u32)
    ensures
        r == bar_permille_spec(position, duration),
        r <= 1000,
{
    let p = normalize_reading(position);
    let d = normalize_reading(duration);
    if d == 0 {
        0
    } else if p >= d {
        1000
    } else {
        proof {
            assert(p as int * 1000 <= MAX_TIME_SECONDS as int * 1000) by (nonlinear_arith)
                requires
                    0 <= p <= MAX_TIME_SECONDS,
            ;
            assert(0 <= (p as int * 1000 / d as int) && (p as int * 1000 / d as int) < 1000)
                by (nonlinear_arith)
                requires
                    0 <= p < d,
            ;
        }
        (p * 1000 / d) as u32
    }
}

/// The absolute seek target, as an exact count of milliseconds: the
/// requested fraction (in thousandths, capped at one whole) times the
/// duration.  An unknown duration counts as zero, so such a request seeks
/// to the start of the stream.
pub open spec fn seek_target_milliseconds_spec(
    requested_permille: u32,
    duration: Option<i64>,
) -> int {
    let f: int = if requested_permille > 1000 {
        1000
    } else {
        requested_permille as int
    };
    f * clamp_time(duration)
}

/// Every character of `s` is a decimal digit.
pub open spec fn all_digit_chars(s: Seq<char>) -> bool {
    forall|k: int| 0 <= k < s.len() ==> is_digit_char(#[trigger] s[k])
}

/// The decimal rendering of any number is a non-empty run of digit
/// characters.
pub proof fn lemma_dec_chars_digits(n: nat)
    ensures
        dec_chars(n).len() >= 1,
        n >= 10 ==> dec_chars(n).len() >= 2,
        all_digit_chars(dec_chars(n)),
    decreases n,
{
    if n >= 10 {
        lemma_dec_chars_digits(n / 10);
        assert forall|k: int| 0 <= k < dec_chars(n).len() implies is_digit_char(
            dec_chars(n)[k],
        ) by {
            if k < dec_chars(n / 10).len() {
                assert(dec_chars(n)[k] == dec_chars(n / 10)[k]);
            } else {
                assert(dec_chars(n)[k] == digit_char(n % 10));
            }
        }
    }
}

/// Every rendered label matches the `HH:MM:SS` pattern: an hour field of at
/// least two digit characters, then a colon, then exactly two digits for
/// the minutes (a value in 0..=59), then a colon, then exactly two digits
/// for the seconds (a value in 0..=59).
pub proof fn lemma_label_format(s: nat)
    ensures
        hhmmss_chars(s) == hours_chars(s / 3600) + seq![':'] + two_digit_chars((s / 60) % 60)
            + seq![':'] + two_digit_chars(s % 60),
        hours_chars(s / 3600).len() >= 2,
        all_digit_chars(hours_chars(s / 3600)),
        two_digit_chars((s / 60) % 60).len() == 2,
        all_digit_chars(two_digit_chars((s / 60) % 60)),
        (s / 60) % 60 < 60,
        two_digit_chars(s % 60).len() == 2,
        all_digit_chars(two_digit_chars(s % 60)),
        s % 60 < 60,
{
    if s / 3600 >= 10 {
        lemma_dec_chars_digits(s / 3600);
    }
}

/// When both transport readings are unknown on a tick, the published
/// seek-bar position is zero — not a fault from a zero-over-zero ratio —
/// and the published timestamp text is `00:00:00 / 00:00:00`.
pub proof fn lemma_unknown_timing()
    ensures
        bar_permille_spec(Option::None, Option::None) == 0,
        ts_label_chars(
            clamp_time(Option::None) as nat,
            clamp_time(Option::None) as nat,
        ) == "00:00:00 / 00:00:00"@,
{
    reveal_strlit("00:00:00 / 00:00:00");
    assert(ts_label_chars(clamp_time(Option::None) as nat, clamp_time(Option::None) as nat)
        =~= "00:00:00 / 00:00:00"@);
}

/// Compute the absolute seek target; see `seek_target_milliseconds_spec`.
pub fn seek_target_milliseconds(requested_permille: u32, duration: Option<i64>) -> (r: i64)
    ensures
        r == seek_target_milliseconds_spec(requested_permille, duration),
        0 <= r,
{
    let f: i64 = if requested_permille > 1000 {
        1000
    } else {
        requested_permille as i64
    };
    let d = normalize_reading(duration);
    proof {
        assert(0 <= f as int * d as int <= 1000 * MAX_TIME_SECONDS as int) by (nonlinear_arith)
            requires
                0 <= f <= 1000,
                0 <= d <= MAX_TIME_SECONDS,
        ;
    }
    f * d
}

} // verus!
