//! Number and duration formatting helpers shared by the renderer.

use vstd::prelude::*;

verus! {

/// The character for one decimal digit.
pub open spec fn digit_char(d: int) -> char {
    if d == 0 {
        '0'
    } else if d == 1 {
        '1'
    } else if d == 2 {
        '2'
    } else if d == 3 {
        '3'
    } else if d == 4 {
        '4'
    } else if d == 5 {
        '5'
    } else if d == 6 {
        '6'
    } else if d == 7 {
        '7'
    } else if d == 8 {
        '8'
    } else {
        '9'
    }
}

/// The decimal representation of `n`, most significant digit first,
/// with no leading zeros (`0` itself is the single digit `0`).
pub open spec fn spec_dec(n: nat) -> Seq<char>
    decreases n,
{
    if n < 10 {
        seq![digit_char(n as int)]
    } else {
        spec_dec(n / 10) + seq![digit_char((n % 10) as int)]
    }
}

fn digit_str(d: u64) -> (r: &'static str)
    requires
        d < 10,
    ensures
        r@ == seq![digit_char(d as int)],
{
    let r = match d {
        0 => "0",
        1 => "1",
        2 => "2",
        3 => "3",
        4 => "4",
        5 => "5",
        6 => "6",
        7 => "7",
        8 => "8",
        _ => "9",
    };
    proof {
        reveal_strlit("0");
        reveal_strlit("1");
        reveal_strlit("2");
        reveal_strlit("3");
        reveal_strlit("4");
        reveal_strlit("5");
        reveal_strlit("6");
        reveal_strlit("7");
        reveal_strlit("8");
        reveal_strlit("9");
        assert(r@ =~= seq![digit_char(d as int)]);
    }
    r
}

/// Renders `n` in decimal.
pub fn u64_to_string(n: u64) -> (s: String)
    ensures
        s@ == spec_dec(n as nat),
    decreases n,
{
    if n < 10 {
        digit_str(n).to_owned()
    } else {
        let mut s = u64_to_string(n / 10);
        s.append(digit_str(n % 10));
        s
    }
}

/// The number of digits of the decimal representation.
pub open spec fn spec_dec_len(n: nat) -> nat
    decreases n,
{
    if n < 10 {
        1
    } else {
        1 + spec_dec_len(n / 10)
    }
}

pub proof fn lemma_dec_len(n: nat)
    ensures
        spec_dec(n).len() == spec_dec_len(n),
    decreases n,
{
    if n >= 10 {
        lemma_dec_len(n / 10);
    }
}

/// A larger number never has a shorter decimal representation.
pub proof fn lemma_dec_len_monotone(a: nat, b: nat)
    requires
        a <= b,
    ensures
        spec_dec_len(a) <= spec_dec_len(b),
    decreases b,
{
    if b >= 10 && a >= 10 {
        lemma_dec_len_monotone(a / 10, b / 10);
    }
}

/// Numbers below `100000` have at most five digits.
pub proof fn lemma_dec_len_small(n: nat)
    requires
        n < 100000,
    ensures
        spec_dec_len(n) <= 5,
{
    let a = n / 10;
    let b = a / 10;
    let c = b / 10;
    let d = c / 10;
    assert(d < 10);
    assert(spec_dec_len(d) == 1);
    assert(spec_dec_len(c) <= 2);
    assert(spec_dec_len(b) <= 3);
    assert(spec_dec_len(a) <= 4);
    assert(spec_dec_len(n) <= 5);
}

/// Two-digit, zero-padded decimal representation of `n < 100`.
pub open spec fn spec_pad2(n: nat) -> Seq<char> {
    if n < 10 {
        seq!['0'] + spec_dec(n)
    } else {
        spec_dec(n)
    }
}

pub fn two_digit_string(n: u64) -> (s: String)
    requires
        n < 100,
    ensures
        s@ == spec_pad2(n as nat),
{
    if n < 10 {
        let mut s = "0".to_owned();
        s.append(digit_str(n));
        proof {
            reveal_strlit("0");
            assert(s@ =~= spec_pad2(n as nat));
        }
        s
    } else {
        u64_to_string(n)
    }
}

/// A value carrying two fixed decimal places, rendered as `whole.ff`.
/// The argument counts hundredths: `2550` is rendered `25.50`.
pub open spec fn spec_fixed2(v: nat) -> Seq<char> {
    spec_dec(v / 100) + seq!['.'] + spec_pad2(v % 100)
}

pub fn fixed2_string(v: u64) -> (s: String)
    ensures
        s@ == spec_fixed2(v as nat),
{
    let mut s = u64_to_string(v / 100);
    s.append(".");
    s.append(two_digit_string(v % 100).as_str());
    proof {
        reveal_strlit(".");
        assert(s@ =~= spec_fixed2(v as nat));
    }
    s
}

/// `n` spaces.
pub open spec fn spec_spaces(n: nat) -> Seq<char> {
    Seq::new(n, |i: int| ' ')
}

pub fn spaces(n: usize) -> (s: String)
    ensures
        s@ == spec_spaces(n as nat),
{
    let mut s = String::new();
    let mut i: usize = 0;
    proof {
        assert(s@ =~= spec_spaces(0));
    }
    while i < n
        invariant
            i <= n,
            s@ == spec_spaces(i as nat),
        decreases n - i,
    {
        s.append(" ");
        i = i + 1;
        proof {
            reveal_strlit(" ");
            assert(s@ =~= spec_spaces(i as nat));
        }
    }
    s
}

/// One segment of the uptime string: empty when the component is zero,
/// otherwise the value, its unit letter, and a trailing space.
pub open spec fn spec_time_seg(v: nat, unit: Seq<char>) -> Seq<char> {
    if v == 0 {
        Seq::empty()
    } else {
        spec_dec(v) + unit + seq![' ']
    }
}

/// A duration of `t` seconds broken into years, weeks, days, hours,
/// minutes and seconds; components that are zero are left out, and each
/// printed component is followed by its unit letter and a space.
pub open spec fn spec_parse_time(t: nat) -> Seq<char> {
    spec_time_seg(t / 31536000, "y"@) + spec_time_seg((t / 604800) % 52, "w"@) + spec_time_seg(
        (t / 86400) % 7,
        "d"@,
    ) + spec_time_seg((t / 3600) % 24, "h"@) + spec_time_seg((t / 60) % 60, "m"@) + spec_time_seg(
        t % 60,
        "s"@,
    )
}

fn time_seg(v: u64, unit: &str) -> (s: String)
    ensures
        s@ == spec_time_seg(v as nat, unit@),
{
    if v == 0 {
        let s = String::new();
        proof {
            assert(s@ =~= spec_time_seg(v as nat, unit@));
        }
        s
    } else {
        let mut s = u64_to_string(v);
        s.append(unit);
        s.append(" ");
        proof {
            reveal_strlit(" ");
            assert(s@ =~= spec_time_seg(v as nat, unit@));
        }
        s
    }
}

/// Formats a duration given in seconds as `1y 2w 3d 4h 5m 6s `,
/// leaving out every component that is zero.
pub fn parse_time(secs: u64) -> (s: String)
    ensures
        s@ == spec_parse_time(secs as nat),
{
    let mut s = time_seg(secs / 31536000, "y");
    s.append(time_seg((secs / 604800) % 52, "w").as_str());
    s.append(time_seg((secs / 86400) % 7, "d").as_str());
    s.append(time_seg((secs / 3600) % 24, "h").as_str());
    s.append(time_seg((secs / 60) % 60, "m").as_str());
    s.append(time_seg(secs % 60, "s").as_str());
    s
}

/// The index of the binary size unit used for `size` bytes: 0 while the
/// value is at most 1024, and one more for each further division by 1024.
pub open spec fn spec_unit_index(size: nat) -> int {
    if size <= 0x400 {
        0
    } else if size <= 0x100000 {
        1
    } else if size <= 0x40000000 {
        2
    } else if size <= 0x10000000000 {
        3
    } else if size <= 0x4000000000000 {
        4
    } else if size <= 0x1000000000000000 {
        5
    } else {
        6
    }
}

/// The divisor that belongs to a unit index.
pub open spec fn spec_unit_divisor(i: int) -> nat {
    if i == 0 {
        1
    } else if i == 1 {
        0x400
    } else if i == 2 {
        0x100000
    } else if i == 3 {
        0x40000000
    } else if i == 4 {
        0x10000000000
    } else if i == 5 {
        0x4000000000000
    } else {
        0x1000000000000000
    }
}

/// The suffix that belongs to a unit index.
pub open spec fn spec_unit_suffix(i: int) -> Seq<char> {
    if i == 0 {
        "B"@
    } else if i == 1 {
        "KB"@
    } else if i == 2 {
        "MB"@
    } else if i == 3 {
        "GB"@
    } else if i == 4 {
        "TB"@
    } else if i == 5 {
        "PB"@
    } else {
        "EB"@
    }
}

/// A byte count scaled into its size unit, with two decimal places
/// (truncated) and the unit's suffix: `1500` becomes `1.46KB`.
pub open spec fn spec_parse_size(size: nat) -> Seq<char> {
    spec_fixed2(size * 100 / spec_unit_divisor(spec_unit_index(size))) + spec_unit_suffix(
        spec_unit_index(size),
    )
}

/// Formats a byte count with the largest binary unit whose scaled value
/// still reads naturally, for the footer's memory figures.
pub fn parse_size(refsize: &u64) -> (s: String)
    ensures
        s@ == spec_parse_size(*refsize as nat),
{
    let size: u64 = *refsize;
    let divisor: u64 = if size <= 0x400 {
        1
    } else if size <= 0x100000 {
        0x400
    } else if size <= 0x40000000 {
        0x100000
    } else if size <= 0x10000000000 {
        0x40000000
    } else if size <= 0x4000000000000 {
        0x10000000000
    } else if size <= 0x1000000000000000 {
        0x4000000000000
    } else {
        0x1000000000000000
    };
    let suffix: &'static str = if size <= 0x400 {
        "B"
    } else if size <= 0x100000 {
        "KB"
    } else if size <= 0x40000000 {
        "MB"
    } else if size <= 0x10000000000 {
        "GB"
    } else if size <= 0x4000000000000 {
        "TB"
    } else if size <= 0x1000000000000000 {
        "PB"
    } else {
        "EB"
    };
    proof {
        assert(divisor == spec_unit_divisor(spec_unit_index(size as nat)));
        assert(suffix@ == spec_unit_suffix(spec_unit_index(size as nat)));
    }
    let scaled128: u128 = (size as u128) * 100 / (divisor as u128);
    proof {
        assert((size as int) * 100 / (divisor as int) <= 0x2000000) by {
            vstd::arithmetic::div_mod::lemma_div_is_ordered(
                (size as int) * 100,
                (divisor as int) * 0x2000000,
                divisor as int,
            );
            vstd::arithmetic::div_mod::lemma_div_multiples_vanish(
                0x2000000,
                divisor as int,
            );
        }
    }
    let scaled: u64 = scaled128 as u64;
    let mut s = fixed2_string(scaled);
    s.append(suffix);
    s
}

} // verus!
