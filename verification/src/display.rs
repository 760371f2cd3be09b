//! Rendering of remaining time as text: the `HH:MM:SS` display string the
//! presentation layer shows, and the simple countdown helpers that tick a
//! minutes/seconds pair down directly.

use vstd::prelude::*;

verus! {

/// The decimal digit character for a value below ten.
pub open spec fn digit_char(d: nat) -> char {
    if d == 0 {
        '0'
    } else if d == 1 {
        '1'
    } else if d == 2 {
        '2'
    } else if d == 3 {
        '3'
    } else if d == 4 {
        '4'
    } else if d == 5 {
        '5'
    } else if d == 6 {
        '6'
    } else if d == 7 {
        '7'
    } else if d == 8 {
        '8'
    } else {
        '9'
    }
}

/// The decimal digits of `n`, most significant first, without leading
/// zeroes.
pub open spec fn dec_digits(n: nat) -> Seq<char>
    decreases n,
{
    if n < 10 {
        seq![digit_char(n)]
    } else {
        dec_digits(n / 10).push(digit_char(n % 10))
    }
}

/// The decimal digits of `n`, zero-padded on the left to at least two
/// places.
pub open spec fn padded_decimal(n: nat) -> Seq<char> {
    if n < 10 {
        seq!['0', digit_char(n)]
    } else {
        dec_digits(n)
    }
}

/// A total number of seconds rendered as `HH:MM:SS`: hours, then minutes
/// and seconds below sixty, each field zero-padded to two places.
pub open spec fn hms_display(total: nat) -> Seq<char> {
    padded_decimal(total / 3600) + seq![':'] + padded_decimal((total % 3600) / 60) + seq![':']
        + padded_decimal(total % 60)
}

/// A minutes/seconds pair rendered as `MM:SS`, each field zero-padded to
/// two places.
pub open spec fn mm_ss_display(minutes: u32, seconds: u32) -> Seq<char> {
    padded_decimal(minutes as nat) + seq![':'] + padded_decimal(seconds as nat)
}

/// One digit as a string slice.
fn digit_str(d: usize) -> (r: &'static str)
    requires
        d < 10,
    ensures
        r@ == seq![digit_char(d as nat)],
{
    let r = match d {
        0 => "0",
        1 => "1",
        2 => "2",
        3 => "3",
        4 => "4",
        5 => "5",
        6 => "6",
        7 => "7",
        8 => "8",
        _ => "9",
    };
    proof {
        reveal_strlit("0");
        reveal_strlit("1");
        reveal_strlit("2");
        reveal_strlit("3");
        reveal_strlit("4");
        reveal_strlit("5");
        reveal_strlit("6");
        reveal_strlit("7");
        reveal_strlit("8");
        reveal_strlit("9");
        assert(r@ =~= seq![digit_char(d as nat)]);
    }
    r
}

/// Appends the decimal digits of `n` to `out`.
fn push_decimal(n: usize, out: &mut String)
    ensures
        final(out)@ == old(out)@ + dec_digits(n as nat),
    decreases n,
{
    if n >= 10 {
        push_decimal(n / 10, out);
    }
    out.append(digit_str(n % 10));
    proof {
        assert(final(out)@ =~= old(out)@ + dec_digits(n as nat));
    }
}

/// Appends the decimal digits of `n` to `out`, zero-padded on the left to
/// at least two places.
fn push_padded(n: usize, out: &mut String)
    ensures
        final(out)@ == old(out)@ + padded_decimal(n as nat),
{
    if n < 10 {
        out.append("0");
        proof {
            reveal_strlit("0");
        }
    }
    push_decimal(n, out);
    proof {
        assert(final(out)@ =~= old(out)@ + padded_decimal(n as nat));
    }
}

/// Renders a total number of seconds as a zero-padded `HH:MM:SS` display
/// string.
pub fn seconds_to_h_m_s_display_string(total_seconds: usize) -> (r: String)
    ensures
        r@ == hms_display(total_seconds as nat),
{
    let hours = total_seconds / 3600;
    let minutes = (total_seconds % 3600) / 60;
    let seconds = total_seconds % 60;
    let mut r = String::new();
    push_padded(hours, &mut r);
    r.append(":");
    push_padded(minutes, &mut r);
    r.append(":");
    push_padded(seconds, &mut r);
    proof {
        reveal_strlit(":");
        assert(r@ =~= hms_display(total_seconds as nat));
    }
    r
}

/// The decrement-with-clamping step of a direct countdown: at `min` the
/// value wraps to `max` and the wrap is reported; above `max` it is clamped
/// down to `max`; otherwise it goes down by one.
pub open spec fn dec_clamp(min: u32, max: u32, val: u32) -> (bool, u32) {
    if val == min {
        (true, max)
    } else if val > max {
        (false, max)
    } else {
        (false, (val - 1) as u32)
    }
}

/// Decrements a clamped counter field, reporting whether it wrapped from
/// `min` around to `max`.
pub fn decrement_clamp_and_report(min: u32, max: u32, val: u32) -> (r: (bool, u32))
    requires
        min <= val,
    ensures
        r == dec_clamp(min, max, val),
{
    if val == min {
        (true, max)
    } else if val > max {
        (false, max)
    } else {
        (false, val - 1)
    }
}

/// Ticks a minutes/seconds countdown down by one second and renders the
/// remaining time as `MM:SS`; when both fields are exhausted the pair is
/// cleared and the done message is returned instead.
pub fn decrement_seconds(seconds: &mut u32, minutes: &mut u32) -> (r: String)
    ensures
        ({
            let sec_step = dec_clamp(0, 59, *old(seconds));
            let min_step = dec_clamp(0, 59, *old(minutes));
            if sec_step.0 && min_step.0 {
                &&& *final(seconds) == 0
                &&& *final(minutes) == 0
                &&& r@ == "Timer Done"@
            } else if sec_step.0 {
                &&& *final(seconds) == sec_step.1
                &&& *final(minutes) == min_step.1
                &&& r@ == mm_ss_display(min_step.1, sec_step.1)
            } else {
                &&& *final(seconds) == sec_step.1
                &&& *final(minutes) == *old(minutes)
                &&& r@ == mm_ss_display(*old(minutes), sec_step.1)
            }
        }),
{
    let (sec_overflow, n_seconds) = decrement_clamp_and_report(0, 59, *seconds);
    *seconds = n_seconds;
    if sec_overflow {
        let (min_overflow, n_minutes) = decrement_clamp_and_report(0, 59, *minutes);
        *minutes = n_minutes;
        if min_overflow {
            *seconds = 0;
            *minutes = 0;
            return String::from_str("Timer Done");
        }
    }
    let mut r = String::new();
    push_padded(*minutes as usize, &mut r);
    r.append(":");
    push_padded(*seconds as usize, &mut r);
    proof {
        reveal_strlit(":");
        assert(r@ =~= mm_ss_display(*minutes, *seconds));
    }
    r
}

} // verus!
