use vstd::prelude::*;
use vstd::string::StringExecFns;

verus! {

/// The decimal digits of `n`, most significant first, without leading zeros.
pub open spec fn decimal_of(n: nat) -> Seq<char>
    decreases n,
{
    if n < 10 {
        seq![digit_char(n)]
    } else {
        decimal_of(n / 10).push(digit_char(n % 10))
    }
}

pub open spec fn digit_char(d: nat) -> char {
    if d == 0 { '0' }
    else if d == 1 { '1' }
    else if d == 2 { '2' }
    else if d == 3 { '3' }
    else if d == 4 { '4' }
    else if d == 5 { '5' }
    else if d == 6 { '6' }
    else if d == 7 { '7' }
    else if d == 8 { '8' }
    else { '9' }
}

fn digit_str(d: u8) -> (r: &'static str)
    requires
        d < 10,
    ensures
        r@ == seq![digit_char(d as nat)],
{
    proof {
        reveal_strlit("0");
        reveal_strlit("1");
        reveal_strlit("2");
        reveal_strlit("3");
        reveal_strlit("4");
        reveal_strlit("5");
        reveal_strlit("6");
        reveal_strlit("7");
        reveal_strlit("8");
        reveal_strlit("9");
    }
    if d == 0 { "0" }
    else if d == 1 { "1" }
    else if d == 2 { "2" }
    else if d == 3 { "3" }
    else if d == 4 { "4" }
    else if d == 5 { "5" }
    else if d == 6 { "6" }
    else if d == 7 { "7" }
    else if d == 8 { "8" }
    else { "9" }
}

/// Appends the decimal form of `n` to `s`.
pub fn push_decimal(s: &mut String, n: u8)
    ensures
        final(s)@ == old(s)@ + decimal_of(n as nat),
{
    let ghost s0 = s@;
    if n >= 100 {
        s.append(digit_str(n / 100));
        s.append(digit_str((n / 10) % 10));
        s.append(digit_str(n % 10));
        proof {
            let a = digit_char((n / 100) as nat);
            let b = digit_char(((n / 10) % 10) as nat);
            let c = digit_char((n % 10) as nat);
            assert((n / 10) / 10 == n / 100);
            assert(decimal_of((n / 100) as nat) == seq![a]);
            assert(decimal_of((n / 10) as nat) == seq![a].push(b));
            assert(decimal_of(n as nat) == seq![a].push(b).push(c));
            assert(s@ =~= s0 + seq![a].push(b).push(c));
        }
    } else if n >= 10 {
        s.append(digit_str(n / 10));
        s.append(digit_str(n % 10));
        proof {
            let a = digit_char((n / 10) as nat);
            let b = digit_char((n % 10) as nat);
            assert(decimal_of((n / 10) as nat) == seq![a]);
            assert(decimal_of(n as nat) == seq![a].push(b));
            assert(s@ =~= s0 + seq![a].push(b));
        }
    } else {
        s.append(digit_str(n));
    }
}

} // verus!
