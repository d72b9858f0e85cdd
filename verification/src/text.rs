use vstd::prelude::*;

verus! {

/// The character of the decimal digit `d`.
pub open spec fn digit_char(d: int) -> char
    recommends
        0 <= d < 10,
{
    ('0' as int + d) as char
}

/// The decimal notation of `n`, most significant digit first, with no leading zero.
pub open spec fn decimal(n: nat) -> Seq<char>
    decreases n,
{
    if n < 10 {
        seq![digit_char(n as int)]
    } else {
        decimal(n / 10) + seq![digit_char(n as int % 10)]
    }
}

/// How `{}` writes the integer `v`: a minus sign only for negative values.
pub open spec fn signed_decimal(v: int) -> Seq<char> {
    if v < 0 {
        seq!['-'] + decimal((-v) as nat)
    } else {
        decimal(v as nat)
    }
}

/// How `{:+}` writes the integer `v`: always a sign, `+` for zero too.
pub open spec fn forced_sign_decimal(v: int) -> Seq<char> {
    if v < 0 {
        seq!['-'] + decimal((-v) as nat)
    } else {
        seq!['+'] + decimal(v as nat)
    }
}

/// The text of a single decimal digit.
fn digit_str(d: u8) -> (s: &'static str)
    requires
        d < 10,
    ensures
        s@ == seq![digit_char(d as int)],
{
    proof {
        reveal_strlit("0");
        reveal_strlit("1");
        reveal_strlit("2");
        reveal_strlit("3");
        reveal_strlit("4");
        reveal_strlit("5");
        reveal_strlit("6");
        reveal_strlit("7");
        reveal_strlit("8");
        reveal_strlit("9");
    }
    if d == 0 {
        "0"
    } else if d == 1 {
        "1"
    } else if d == 2 {
        "2"
    } else if d == 3 {
        "3"
    } else if d == 4 {
        "4"
    } else if d == 5 {
        "5"
    } else if d == 6 {
        "6"
    } else if d == 7 {
        "7"
    } else if d == 8 {
        "8"
    } else {
        "9"
    }
}

/// Appends the decimal notation of `n` to `out`.
pub fn push_decimal(out: &mut String, n: u8)
    ensures
        final(out)@ == old(out)@ + decimal(n as nat),
{
    let ghost start = out@;
    if n >= 100 {
        out.append(digit_str(n / 100));
        out.append(digit_str((n / 10) % 10));
        out.append(digit_str(n % 10));
        proof {
            let m: nat = n as nat;
            assert(decimal(m / 10 / 10) == seq![digit_char((m / 100) as int)]);
            assert(decimal(m / 10) == decimal(m / 10 / 10) + seq![digit_char((m / 10) as int % 10)]);
            assert(out@ =~= start + decimal(m));
        }
    } else if n >= 10 {
        out.append(digit_str(n / 10));
        out.append(digit_str(n % 10));
        proof {
            let m: nat = n as nat;
            assert(decimal(m / 10) == seq![digit_char((m / 10) as int)]);
            assert(out@ =~= start + decimal(m));
        }
    } else {
        out.append(digit_str(n));
        assert(out@ =~= start + decimal(n as nat));
    }
}

/// Appends `v` as `{}` writes it.
pub fn push_signed(out: &mut String, v: i8)
    ensures
        final(out)@ == old(out)@ + signed_decimal(v as int),
{
    let ghost start = out@;
    if v < 0 {
        proof {
            reveal_strlit("-");
        }
        out.append("-");
        let magnitude: u8 = (0i16 - v as i16) as u8;
        push_decimal(out, magnitude);
        assert(out@ =~= start + signed_decimal(v as int));
    } else {
        push_decimal(out, v as u8);
    }
}

/// Appends `v` as `{:+}` writes it.
pub fn push_forced_sign(out: &mut String, v: i8)
    ensures
        final(out)@ == old(out)@ + forced_sign_decimal(v as int),
{
    let ghost start = out@;
    if v < 0 {
        proof {
            reveal_strlit("-");
        }
        out.append("-");
        let magnitude: u8 = (0i16 - v as i16) as u8;
        push_decimal(out, magnitude);
        assert(out@ =~= start + forced_sign_decimal(v as int));
    } else {
        proof {
            reveal_strlit("+");
        }
        out.append("+");
        push_decimal(out, v as u8);
        assert(out@ =~= start + forced_sign_decimal(v as int));
    }
}

} // verus!
