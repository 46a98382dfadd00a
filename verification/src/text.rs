use vstd::prelude::*;
use vstd::string::*;

verus! {

/// The character for a single decimal digit.
pub open spec fn spec_digit(d: int) -> char {
    if d == 0 {
        '0'
    } else if d == 1 {
        '1'
    } else if d == 2 {
        '2'
    } else if d == 3 {
        '3'
    } else if d == 4 {
        '4'
    } else if d == 5 {
        '5'
    } else if d == 6 {
        '6'
    } else if d == 7 {
        '7'
    } else if d == 8 {
        '8'
    } else {
        '9'
    }
}

/// The decimal numeral of `n`, most significant digit first, without
/// leading zeros (except for `n == 0` itself).
pub open spec fn spec_dec(n: nat) -> Seq<char>
    decreases n,
{
    if n < 10 {
        seq![spec_digit(n as int)]
    } else {
        spec_dec(n / 10).push(spec_digit((n % 10) as int))
    }
}

/// The two-digit, zero-padded numeral of `n`, as in a clock face.
pub open spec fn spec_two_digits(n: nat) -> Seq<char>
    recommends
        n < 100,
{
    seq![spec_digit((n / 10) as int), spec_digit((n % 10) as int)]
}

/// The one-character string for a single decimal digit.
fn digit_str(d: u8) -> (s: &'static str)
    requires
        d < 10,
    ensures
        s@ =~= seq![spec_digit(d as int)],
{
    proof {
        reveal_strlit("0");
        reveal_strlit("1");
        reveal_strlit("2");
        reveal_strlit("3");
        reveal_strlit("4");
        reveal_strlit("5");
        reveal_strlit("6");
        reveal_strlit("7");
        reveal_strlit("8");
        reveal_strlit("9");
    }
    match d {
        0 => "0",
        1 => "1",
        2 => "2",
        3 => "3",
        4 => "4",
        5 => "5",
        6 => "6",
        7 => "7",
        8 => "8",
        _ => "9",
    }
}

/// Formats `n` as its decimal numeral.
pub fn u64_string(n: u64) -> (s: String)
    ensures
        s@ == spec_dec(n as nat),
{
    let mut s: String = digit_str((n % 10) as u8).to_owned();
    let mut m: u64 = n / 10;
    proof {
        assert(s@ =~= spec_dec((n % 10) as nat));
        if m > 0 {
            assert(spec_dec(n as nat) =~= spec_dec(m as nat) + s@);
        } else {
            assert(spec_dec(n as nat) =~= s@);
        }
    }
    while m > 0
        invariant
            m > 0 ==> spec_dec(n as nat) =~= spec_dec(m as nat) + s@,
            m == 0 ==> spec_dec(n as nat) =~= s@,
        decreases m,
    {
        let d: u8 = (m % 10) as u8;
        let next: u64 = m / 10;
        let digit: String = digit_str(d).to_owned();
        let appended: String = digit.concat(s.as_str());
        proof {
            assert(appended@ =~= seq![spec_digit(d as int)] + s@);
            if next > 0 {
                assert(spec_dec(m as nat) =~= spec_dec(next as nat) + seq![
                    spec_digit(d as int),
                ]);
                assert(spec_dec(n as nat) =~= spec_dec(next as nat) + appended@);
            } else {
                assert(spec_dec(m as nat) =~= seq![spec_digit(d as int)]);
                assert(spec_dec(n as nat) =~= appended@);
            }
        }
        s = appended;
        m = next;
    }
    proof {
        assert(s@ =~= spec_dec(n as nat));
    }
    s
}

/// Formats `n` as a two-digit, zero-padded numeral.
pub fn two_digit_string(n: u8) -> (s: String)
    requires
        n < 100,
    ensures
        s@ == spec_two_digits(n as nat),
{
    let high: String = digit_str(n / 10).to_owned();
    let s: String = high.concat(digit_str(n % 10));
    proof {
        assert(s@ =~= spec_two_digits(n as nat));
    }
    s
}

} // verus!
