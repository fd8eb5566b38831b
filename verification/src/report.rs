//! Rendering of counts and durations for the human-readable reports: a
//! non-negative integer as decimal digits, and a duration in nanoseconds as
//! seconds with the trailing zeros of the fractional part trimmed.

use vstd::prelude::*;

verus! {

/// The decimal digit character for `d`, which must be below ten.
pub open spec fn digit_char(d: nat) -> char {
    if d == 0 {
        '0'
    } else if d == 1 {
        '1'
    } else if d == 2 {
        '2'
    } else if d == 3 {
        '3'
    } else if d == 4 {
        '4'
    } else if d == 5 {
        '5'
    } else if d == 6 {
        '6'
    } else if d == 7 {
        '7'
    } else if d == 8 {
        '8'
    } else {
        '9'
    }
}

/// The decimal digits of `n`, most significant first, without leading
/// zeros (a single `'0'` for zero).
pub open spec fn dec_digits(n: nat) -> Seq<char>
    decreases n,
{
    if n < 10 {
        seq![digit_char(n)]
    } else {
        dec_digits(n / 10) + seq![digit_char(n % 10)]
    }
}

/// The last `width` decimal digits of `n`, most significant first, padded
/// with leading zeros to exactly `width` characters.
pub open spec fn pad_digits(n: nat, width: nat) -> Seq<char>
    decreases width,
{
    if width == 0 {
        Seq::empty()
    } else {
        pad_digits(n / 10, (width - 1) as nat) + seq![digit_char(n % 10)]
    }
}

/// `s` with every trailing `'0'` removed.
pub open spec fn trim_zeros(s: Seq<char>) -> Seq<char>
    decreases s.len(),
{
    if s.len() == 0 {
        s
    } else if s.last() == '0' {
        trim_zeros(s.drop_last())
    } else {
        s
    }
}

/// A duration of `ns` nanoseconds rendered as seconds: the whole seconds in
/// decimal and, if the duration is not a whole number of seconds, a point
/// followed by the fractional digits with trailing zeros trimmed.
pub open spec fn seconds_chars(ns: nat) -> Seq<char> {
    let whole = ns / 1_000_000_000;
    let frac = ns % 1_000_000_000;
    if frac == 0 {
        dec_digits(whole)
    } else {
        dec_digits(whole) + seq!['.'] + trim_zeros(pad_digits(frac, 9))
    }
}

/// The one-character string slice holding the decimal digit for `d`.
fn digit_str(d: u64) -> (r: &'static str)
    requires
        d < 10,
    ensures
        r@ == seq![digit_char(d as nat)],
{
    proof {
        reveal_strlit("0");
        reveal_strlit("1");
        reveal_strlit("2");
        reveal_strlit("3");
        reveal_strlit("4");
        reveal_strlit("5");
        reveal_strlit("6");
        reveal_strlit("7");
        reveal_strlit("8");
        reveal_strlit("9");
    }
    match d {
        0 => "0",
        1 => "1",
        2 => "2",
        3 => "3",
        4 => "4",
        5 => "5",
        6 => "6",
        7 => "7",
        8 => "8",
        _ => "9",
    }
}

/// Appends the decimal digits of `n`, without leading zeros, to `out`.
pub(crate) fn push_decimal(out: &mut String, n: u64)
    ensures
        final(out)@ == old(out)@ + dec_digits(n as nat),
    decreases n,
{
    if n < 10 {
        out.append(digit_str(n));
    } else {
        push_decimal(out, n / 10);
        out.append(digit_str(n % 10));
        proof {
            assert(out@ == old(out)@ + dec_digits(n as nat)) by {
                assert(old(out)@ + dec_digits(n as nat / 10) + seq![
                    digit_char(n as nat % 10),
                ] =~= old(out)@ + (dec_digits(n as nat / 10) + seq![digit_char(n as nat % 10)]));
            }
        }
    }
}

/// Appends the last `width` decimal digits of `n`, padded with leading
/// zeros to exactly `width` characters, to `out`.
fn push_padded(out: &mut String, n: u64, width: u64)
    ensures
        final(out)@ == old(out)@ + pad_digits(n as nat, width as nat),
    decreases width,
{
    if width == 0 {
        proof {
            assert(old(out)@ + pad_digits(n as nat, 0) =~= old(out)@);
        }
    } else {
        push_padded(out, n / 10, width - 1);
        out.append(digit_str(n % 10));
        proof {
            assert(out@ == old(out)@ + pad_digits(n as nat, width as nat)) by {
                assert(old(out)@ + pad_digits(n as nat / 10, (width - 1) as nat) + seq![
                    digit_char(n as nat % 10),
                ] =~= old(out)@ + (pad_digits(n as nat / 10, (width - 1) as nat) + seq![
                    digit_char(n as nat % 10),
                ]));
            }
        }
    }
}

/// Ten to the power `w`.
spec fn pow10(w: nat) -> nat
    decreases w,
{
    if w == 0 {
        1nat
    } else {
        10 * pow10((w - 1) as nat)
    }
}

/// A digit other than zero renders as a character other than `'0'`.
proof fn lemma_nonzero_digit_char(d: nat)
    requires
        0 < d < 10,
    ensures
        digit_char(d) != '0',
{
}

/// Trimming the trailing zeros of a padded rendering is unchanged by first
/// dropping one trailing zero digit numerically.
proof fn lemma_trim_step(n: nat, width: nat)
    requires
        width >= 1,
        n % 10 == 0,
    ensures
        trim_zeros(pad_digits(n, width)) == trim_zeros(pad_digits(n / 10, (width - 1) as nat)),
{
    let s = pad_digits(n, width);
    assert(s == pad_digits(n / 10, (width - 1) as nat) + seq![digit_char(0)]);
    assert(s.last() == '0');
    assert(s.drop_last() =~= pad_digits(n / 10, (width - 1) as nat));
}

/// A padded rendering whose last digit is not zero has nothing to trim.
proof fn lemma_trim_done(n: nat, width: nat)
    requires
        width >= 1,
        n % 10 != 0,
    ensures
        trim_zeros(pad_digits(n, width)) == pad_digits(n, width),
{
    let s = pad_digits(n, width);
    assert(s.last() == digit_char(n % 10));
    lemma_nonzero_digit_char(n % 10);
}

/// A value below `pow10(width)` that still has a digit to strip is at least
/// ten, so more than one digit of room remains.
proof fn lemma_pow10_width(n: nat, width: nat)
    requires
        0 < n,
        n % 10 == 0,
        n < pow10(width),
    ensures
        width >= 2,
        n / 10 < pow10((width - 1) as nat),
{
    assert(n >= 10) by {
        assert(n == 10 * (n / 10) + n % 10);
    };
    if width == 0 {
        assert(pow10(0) == 1);
        assert(false);
    } else if width == 1 {
        assert(pow10(1) == 10 * pow10(0));
        assert(pow10(0) == 1);
        assert(false);
    }
    assert(n / 10 < pow10((width - 1) as nat)) by {
        assert(pow10(width) == 10 * pow10((width - 1) as nat));
        assert(n == 10 * (n / 10) + n % 10);
    }
}

/// Appends a duration of `ns` nanoseconds rendered as seconds, as
/// [`seconds_chars`] describes, to `out`.
pub(crate) fn push_seconds(out: &mut String, ns: u64)
    ensures
        final(out)@ == old(out)@ + seconds_chars(ns as nat),
{
    let whole = ns / 1_000_000_000;
    let frac = ns % 1_000_000_000;
    push_decimal(out, whole);
    if frac > 0 {
        proof {
            reveal_strlit(".");
            assert(("."@) =~= seq!['.']);
        }
        out.append(".");
        let ghost full = trim_zeros(pad_digits(frac as nat, 9));
        let mut g = frac;
        let mut width: u64 = 9;
        proof {
            assert(frac < pow10(9)) by {
                reveal_with_fuel(pow10, 10);
            }
        }
        while g % 10 == 0
            invariant
                0 < g,
                1 <= width <= 9,
                (g as nat) < pow10(width as nat),
                trim_zeros(pad_digits(g as nat, width as nat)) == full,
            decreases g,
        {
            proof {
                lemma_pow10_width(g as nat, width as nat);
                lemma_trim_step(g as nat, width as nat);
            }
            g = g / 10;
            width = width - 1;
        }
        proof {
            lemma_trim_done(g as nat, width as nat);
        }
        push_padded(out, g, width);
        proof {
            assert(out@ == old(out)@ + seconds_chars(ns as nat)) by {
                assert(old(out)@ + dec_digits(whole as nat) + seq!['.'] + full =~= old(out)@ + (
                dec_digits(whole as nat) + seq!['.'] + full));
            }
        }
    }
}

} // verus!
