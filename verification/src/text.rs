//! Small verified text helpers: decimal rendering of counters, clock-style
//! timestamps from epoch milliseconds, and address shortening for log lines.

use vstd::prelude::*;

verus! {

/// The decimal digit character for `d` (meaningful for `0 <= d < 10`).
pub open spec fn dec_digit(d: int) -> char {
    if d == 0 {
        '0'
    } else if d == 1 {
        '1'
    } else if d == 2 {
        '2'
    } else if d == 3 {
        '3'
    } else if d == 4 {
        '4'
    } else if d == 5 {
        '5'
    } else if d == 6 {
        '6'
    } else if d == 7 {
        '7'
    } else if d == 8 {
        '8'
    } else {
        '9'
    }
}

/// The usual decimal rendering of `n`, without leading zeros.
pub open spec fn dec_str(n: nat) -> Seq<char>
    decreases n,
{
    if n < 10 {
        seq![dec_digit(n as int)]
    } else {
        dec_str(n / 10).push(dec_digit((n % 10) as int))
    }
}

/// `n` rendered with at least two digits (a leading zero below 10).
pub open spec fn two_digits(n: nat) -> Seq<char> {
    if n < 10 {
        seq!['0', dec_digit(n as int)]
    } else {
        dec_str(n)
    }
}

/// `n` rendered with at least three digits (for millisecond fractions).
pub open spec fn three_digits(n: nat) -> Seq<char> {
    if n < 10 {
        seq!['0', '0', dec_digit(n as int)]
    } else if n < 100 {
        seq!['0'] + dec_str(n)
    } else {
        dec_str(n)
    }
}

/// `HH:MM:SS` within the day that the epoch-millisecond instant `ms` falls in.
pub open spec fn clock_str(ms: nat) -> Seq<char> {
    two_digits((ms / 3600000) % 24) + seq![':'] + two_digits((ms / 60000) % 60) + seq![':']
        + two_digits((ms / 1000) % 60)
}

/// `HH:MM:SS.mmm` within the day that the epoch-millisecond instant `ms` falls in.
pub open spec fn clock_millis_str(ms: nat) -> Seq<char> {
    clock_str(ms) + seq!['.'] + three_digits(ms % 1000)
}

/// A shortened form of an address: first six characters, `..`, last four.
/// Addresses too short to shorten are kept whole.
pub open spec fn short_addr(s: Seq<char>) -> Seq<char> {
    if s.len() >= 10 {
        s.take(6) + seq!['.', '.'] + s.skip(s.len() - 4)
    } else {
        s
    }
}

fn digit_str(d: u64) -> (r: &'static str)
    requires
        d < 10,
    ensures
        r@ == seq![dec_digit(d as int)],
{
    proof {
        reveal_strlit("0");
        reveal_strlit("1");
        reveal_strlit("2");
        reveal_strlit("3");
        reveal_strlit("4");
        reveal_strlit("5");
        reveal_strlit("6");
        reveal_strlit("7");
        reveal_strlit("8");
        reveal_strlit("9");
    }
    let r = match d {
        0 => "0",
        1 => "1",
        2 => "2",
        3 => "3",
        4 => "4",
        5 => "5",
        6 => "6",
        7 => "7",
        8 => "8",
        _ => "9",
    };
    proof {
        assert(r@ =~= seq![dec_digit(d as int)]);
    }
    r
}

/// Renders `n` in decimal, matching `dec_str`.
pub fn u64_to_dec(n: u64) -> (s: String)
    ensures
        s@ == dec_str(n as nat),
    decreases n,
{
    if n < 10 {
        digit_str(n).to_owned()
    } else {
        let mut s = u64_to_dec(n / 10);
        s.append(digit_str(n % 10));
        proof {
            assert(s@ =~= dec_str(n as nat));
        }
        s
    }
}

fn u64_to_two_digits(n: u64) -> (s: String)
    ensures
        s@ == two_digits(n as nat),
{
    if n < 10 {
        proof {
            reveal_strlit("0");
        }
        let mut s: String = "0".to_owned();
        s.append(digit_str(n));
        proof {
            assert(s@ =~= two_digits(n as nat));
        }
        s
    } else {
        u64_to_dec(n)
    }
}

fn u64_to_three_digits(n: u64) -> (s: String)
    ensures
        s@ == three_digits(n as nat),
{
    if n < 10 {
        proof {
            reveal_strlit("00");
        }
        let mut s: String = "00".to_owned();
        s.append(digit_str(n));
        proof {
            assert(s@ =~= three_digits(n as nat));
        }
        s
    } else if n < 100 {
        proof {
            reveal_strlit("0");
        }
        let mut s: String = "0".to_owned();
        let rest = u64_to_dec(n);
        s.append(rest.as_str());
        proof {
            assert(s@ =~= three_digits(n as nat));
        }
        s
    } else {
        u64_to_dec(n)
    }
}

/// Formats an epoch-millisecond instant as `HH:MM:SS`, matching `clock_str`.
pub fn format_clock(ms: u64) -> (s: String)
    ensures
        s@ == clock_str(ms as nat),
{
    proof {
        reveal_strlit(":");
    }
    let mut s = u64_to_two_digits((ms / 3600000) % 24);
    s.append(":");
    let mins = u64_to_two_digits((ms / 60000) % 60);
    s.append(mins.as_str());
    s.append(":");
    let secs = u64_to_two_digits((ms / 1000) % 60);
    s.append(secs.as_str());
    proof {
        assert(s@ =~= clock_str(ms as nat));
    }
    s
}

/// Formats an epoch-millisecond instant as `HH:MM:SS.mmm`, matching
/// `clock_millis_str`.
pub fn format_clock_millis(ms: u64) -> (s: String)
    ensures
        s@ == clock_millis_str(ms as nat),
{
    proof {
        reveal_strlit(".");
    }
    let mut s = format_clock(ms);
    s.append(".");
    let frac = u64_to_three_digits(ms % 1000);
    s.append(frac.as_str());
    proof {
        assert(s@ =~= clock_millis_str(ms as nat));
    }
    s
}

/// `n` rendered in decimal, left-padded with zeros to at least `width`.
pub open spec fn zero_padded(n: nat, width: int) -> Seq<char> {
    if dec_str(n).len() >= width {
        dec_str(n)
    } else {
        Seq::new((width - dec_str(n).len()) as nat, |i: int| '0') + dec_str(n)
    }
}

/// A token price in nano-USD rendered as dollars: the whole dollars, a dot,
/// and the nine-digit nano fraction.
pub open spec fn price_str(nano: nat) -> Seq<char> {
    dec_str(nano / 1_000_000_000) + seq!['.'] + zero_padded(nano % 1_000_000_000, 9)
}

/// Renders `n` in decimal, left-padded with zeros to at least `width`,
/// matching `zero_padded`.
pub fn u64_zero_padded(n: u64, width: usize) -> (s: String)
    ensures
        s@ == zero_padded(n as nat, width as int),
{
    let d = u64_to_dec(n);
    let dlen = d.as_str().unicode_len();
    if dlen >= width {
        d
    } else {
        proof {
            reveal_strlit("0");
        }
        let mut s = String::new();
        let mut k: usize = dlen;
        while k < width
            invariant
                dlen <= k <= width,
                s@ =~= Seq::new((k - dlen) as nat, |i: int| '0'),
            decreases width - k,
        {
            s.append("0");
            k = k + 1;
            proof {
                reveal_strlit("0");
                assert(s@ =~= Seq::new((k - dlen) as nat, |i: int| '0'));
            }
        }
        s.append(d.as_str());
        proof {
            assert(s@ =~= zero_padded(n as nat, width as int));
        }
        s
    }
}

/// Formats a nano-USD price as dollars, matching `price_str`.
pub fn format_price_nano(nano: u64) -> (s: String)
    ensures
        s@ == price_str(nano as nat),
{
    proof {
        reveal_strlit(".");
    }
    let mut s = u64_to_dec(nano / 1_000_000_000);
    s.append(".");
    let frac = u64_zero_padded(nano % 1_000_000_000, 9);
    s.append(frac.as_str());
    proof {
        assert(s@ =~= price_str(nano as nat));
    }
    s
}

/// Shortens an address for display in log lines, matching `short_addr`.
pub fn shorten_address(s: &str) -> (r: String)
    ensures
        r@ == short_addr(s@),
{
    let n = s.unicode_len();
    if n >= 10 {
        proof {
            reveal_strlit("..");
        }
        let head = s.substring_char(0, 6);
        let tail = s.substring_char(n - 4, n);
        let mut r = head.to_owned();
        r.append("..");
        r.append(tail);
        proof {
            assert(r@ =~= short_addr(s@));
        }
        r
    } else {
        s.to_owned()
    }
}

} // verus!
