use vstd::prelude::*;

verus! {

/// The decimal digit character for `d`, which must lie in `0 ..= 9`.
pub open spec fn spec_digit_char(d: int) -> char {
    if d == 0 {
        '0'
    } else if d == 1 {
        '1'
    } else if d == 2 {
        '2'
    } else if d == 3 {
        '3'
    } else if d == 4 {
        '4'
    } else if d == 5 {
        '5'
    } else if d == 6 {
        '6'
    } else if d == 7 {
        '7'
    } else if d == 8 {
        '8'
    } else {
        '9'
    }
}

/// The decimal digit sequence of a non-negative integer, without sign and
/// without leading zeros (`0` is written as one digit).
pub open spec fn spec_udec(n: int) -> Seq<char>
    decreases n,
{
    if n <= 9 {
        seq![spec_digit_char(n)]
    } else {
        spec_udec(n / 10) + seq![spec_digit_char(n % 10)]
    }
}

/// The decimal rendering of an integer: a `-` sign for negative values,
/// followed by the digits of the magnitude.
pub open spec fn spec_dec(v: int) -> Seq<char> {
    if v < 0 {
        seq!['-'] + spec_udec(-v)
    } else {
        spec_udec(v)
    }
}

fn digit_str(d: u8) -> (r: &'static str)
    requires
        d < 10,
    ensures
        r@ == seq![spec_digit_char(d as int)],
{
    proof {
        reveal_strlit("0");
        reveal_strlit("1");
        reveal_strlit("2");
        reveal_strlit("3");
        reveal_strlit("4");
        reveal_strlit("5");
        reveal_strlit("6");
        reveal_strlit("7");
        reveal_strlit("8");
        reveal_strlit("9");
    }
    match d {
        0 => "0",
        1 => "1",
        2 => "2",
        3 => "3",
        4 => "4",
        5 => "5",
        6 => "6",
        7 => "7",
        8 => "8",
        _ => "9",
    }
}

fn push_udec(s: &mut String, n: u64)
    ensures
        final(s)@ == old(s)@ + spec_udec(n as int),
    decreases n,
{
    if n > 9 {
        assert(n / 10 < n && n / 10 >= 0) by (nonlinear_arith)
            requires
                n > 9,
        ;
        push_udec(s, n / 10);
    }
    assert(n % 10 < 10) by (nonlinear_arith);
    let d: u8 = (n % 10) as u8;
    s.append(digit_str(d));
    proof {
        if n > 9 {
            assert(s@ =~= old(s)@ + spec_udec(n as int));
        } else {
            assert(spec_udec(n as int) == seq![spec_digit_char(n as int)]);
            assert(s@ =~= old(s)@ + spec_udec(n as int));
        }
    }
}

/// Renders an integer in decimal, exactly as `spec_dec` describes.
pub fn decimal_string(v: isize) -> (r: String)
    ensures
        r@ == spec_dec(v as int),
{
    let mut s = String::new();
    if v < 0 {
        proof {
            reveal_strlit("-");
        }
        s.append("-");
        let wide: i128 = -(v as i128);
        assert(0 <= wide <= u64::MAX);
        let m: u64 = wide as u64;
        push_udec(&mut s, m);
        proof {
            assert(s@ =~= spec_dec(v as int));
        }
    } else {
        push_udec(&mut s, v as u64);
        proof {
            assert(s@ =~= spec_dec(v as int));
        }
    }
    s
}

} // verus!
