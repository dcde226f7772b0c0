use vstd::prelude::*;
use vstd::string::*;

verus! {

/// The decimal digit character for `d` in 0..10.
pub open spec fn digit_char(d: nat) -> char {
    if d == 0 { '0' }
    else if d == 1 { '1' }
    else if d == 2 { '2' }
    else if d == 3 { '3' }
    else if d == 4 { '4' }
    else if d == 5 { '5' }
    else if d == 6 { '6' }
    else if d == 7 { '7' }
    else if d == 8 { '8' }
    else { '9' }
}

/// The decimal digits of `n`, without leading zeros.
pub open spec fn decimal(n: nat) -> Seq<char>
    decreases n,
{
    if n < 10 {
        seq![digit_char(n)]
    } else {
        decimal(n / 10).push(digit_char(n % 10))
    }
}

/// The magnitude of `v` in hundredths, for `v` in thousandths, rounded to the
/// nearest hundredth with halves rounded away from zero.
pub open spec fn hundredths_of(v: int) -> nat {
    let m: nat = if v < 0 { (-v) as nat } else { v as nat };
    (m + 5) / 10
}

/// A value given in thousandths, written with two decimal places.
pub open spec fn fixed2_text(v: int) -> Seq<char> {
    let c = hundredths_of(v);
    (if v < 0 { seq!['-'] } else { Seq::<char>::empty() }) + decimal(c / 100) + seq![
        '.',
        digit_char((c / 10) % 10),
        digit_char(c % 10),
    ]
}

fn append_digit(s: &mut String, d: u64)
    requires
        d < 10,
    ensures
        final(s)@ == old(s)@.push(digit_char(d as nat)),
{
    let t: &str = if d == 0 { "0" }
        else if d == 1 { "1" }
        else if d == 2 { "2" }
        else if d == 3 { "3" }
        else if d == 4 { "4" }
        else if d == 5 { "5" }
        else if d == 6 { "6" }
        else if d == 7 { "7" }
        else if d == 8 { "8" }
        else { "9" };
    proof {
        reveal_strlit("0");
        reveal_strlit("1");
        reveal_strlit("2");
        reveal_strlit("3");
        reveal_strlit("4");
        reveal_strlit("5");
        reveal_strlit("6");
        reveal_strlit("7");
        reveal_strlit("8");
        reveal_strlit("9");
        assert(t@ =~= seq![digit_char(d as nat)]);
    }
    s.append(t);
}

fn append_decimal(s: &mut String, n: u64)
    ensures
        final(s)@ == old(s)@ + decimal(n as nat),
    decreases n,
{
    if n >= 10 {
        append_decimal(s, n / 10);
    }
    append_digit(s, n % 10);
    proof {
        if n >= 10 {
            assert(decimal(n as nat) == decimal((n / 10) as nat).push(digit_char((n % 10) as nat)));
        }
    }
}

/// Appends `v`, given in thousandths, with two decimal places.
pub fn append_fixed2(s: &mut String, v: i64)
    ensures
        final(s)@ == old(s)@ + fixed2_text(v as int),
{
    let m: u64 = if v < 0 { (-(v as i128)) as u64 } else { v as u64 };
    let c: u64 = (m + 5) / 10;
    let start = Ghost(s@);
    if v < 0 {
        s.append("-");
        proof {
            reveal_strlit("-");
        }
    }
    append_decimal(s, c / 100);
    s.append(".");
    proof {
        reveal_strlit(".");
    }
    append_digit(s, (c / 10) % 10);
    append_digit(s, c % 10);
    proof {
        assert(c as nat == hundredths_of(v as int));
        assert(s@ =~= start@ + fixed2_text(v as int));
    }
}

} // verus!
