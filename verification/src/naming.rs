//! Names of the exports that expose mutable globals: a prefix, an underscore
//! and a decimal number.

use vstd::prelude::*;
use vstd::string::*;

verus! {

/// The character that writes the decimal digit `d`.
pub open spec fn digit(d: nat) -> char
    recommends
        d < 10,
{
    if d == 0 {
        '0'
    } else if d == 1 {
        '1'
    } else if d == 2 {
        '2'
    } else if d == 3 {
        '3'
    } else if d == 4 {
        '4'
    } else if d == 5 {
        '5'
    } else if d == 6 {
        '6'
    } else if d == 7 {
        '7'
    } else if d == 8 {
        '8'
    } else {
        '9'
    }
}

/// `n` written in base ten, most significant digit first, without leading
/// zeros (zero itself is written `0`).
pub open spec fn decimal(n: nat) -> Seq<char>
    decreases n,
{
    if n < 10 {
        seq![digit(n)]
    } else {
        decimal(n / 10).push(digit(n % 10))
    }
}

/// The name under which the `k`-th exposed global is exported.
pub open spec fn exposed_name(prefix: Seq<char>, k: nat) -> Seq<char> {
    prefix + seq!['_'] + decimal(k)
}

/// Two digits that are written alike are the same digit.
pub proof fn lemma_digit_injective(c: nat, d: nat)
    requires
        c < 10,
        d < 10,
        digit(c) == digit(d),
    ensures
        c == d,
{
}

/// Every number is written with at least one digit.
pub proof fn lemma_decimal_nonempty(n: nat)
    ensures
        decimal(n).len() >= 1,
    decreases n,
{
    if n >= 10 {
        lemma_decimal_nonempty(n / 10);
    }
}

/// Two numbers that are written alike are the same number.
pub proof fn lemma_decimal_injective(a: nat, b: nat)
    requires
        decimal(a) == decimal(b),
    ensures
        a == b,
    decreases a,
{
    lemma_decimal_nonempty(a / 10);
    lemma_decimal_nonempty(b / 10);
    assert(decimal(a).len() == if a < 10 { 1nat } else { decimal(a / 10).len() + 1 });
    assert(decimal(b).len() == if b < 10 { 1nat } else { decimal(b / 10).len() + 1 });
    if a >= 10 {
        assert(decimal(a).last() == digit(a % 10));
        assert(decimal(b).last() == digit(b % 10));
        assert(decimal(a).drop_last() =~= decimal(a / 10));
        assert(decimal(b).drop_last() =~= decimal(b / 10));
        lemma_digit_injective(a % 10, b % 10);
        lemma_decimal_injective(a / 10, b / 10);
    } else {
        assert(decimal(a)[0] == digit(a));
        assert(decimal(b)[0] == digit(b));
        lemma_digit_injective(a, b);
    }
}

/// Under one prefix, two exposed names are equal only for the same number.
pub proof fn lemma_exposed_name_injective(prefix: Seq<char>, j: nat, k: nat)
    requires
        exposed_name(prefix, j) == exposed_name(prefix, k),
    ensures
        j == k,
{
    let head = prefix + seq!['_'];
    let a = exposed_name(prefix, j);
    let b = exposed_name(prefix, k);
    assert(a.subrange(head.len() as int, a.len() as int) =~= decimal(j));
    assert(b.subrange(head.len() as int, b.len() as int) =~= decimal(k));
    lemma_decimal_injective(j, k);
}

/// The one-character string of a decimal digit.
fn digit_str(d: usize) -> (s: &'static str)
    requires
        d < 10,
    ensures
        s@ == seq![digit(d as nat)],
{
    proof {
        reveal_strlit("0");
        reveal_strlit("1");
        reveal_strlit("2");
        reveal_strlit("3");
        reveal_strlit("4");
        reveal_strlit("5");
        reveal_strlit("6");
        reveal_strlit("7");
        reveal_strlit("8");
        reveal_strlit("9");
    }
    let s = if d == 0 {
        "0"
    } else if d == 1 {
        "1"
    } else if d == 2 {
        "2"
    } else if d == 3 {
        "3"
    } else if d == 4 {
        "4"
    } else if d == 5 {
        "5"
    } else if d == 6 {
        "6"
    } else if d == 7 {
        "7"
    } else if d == 8 {
        "8"
    } else {
        "9"
    };
    assert(s@ =~= seq![digit(d as nat)]);
    s
}

/// Writes `n` in base ten.
pub fn decimal_string(n: usize) -> (s: String)
    ensures
        s@ == decimal(n as nat),
    decreases n,
{
    if n < 10 {
        String::from_str(digit_str(n))
    } else {
        let s = decimal_string(n / 10).concat(digit_str(n % 10));
        assert(s@ =~= decimal(n as nat));
        s
    }
}

/// Builds the name under which the `k`-th exposed global is exported.
pub fn exposed_name_string(prefix: &str, k: usize) -> (name: String)
    ensures
        name@ == exposed_name(prefix@, k as nat),
{
    proof {
        reveal_strlit("_");
    }
    let digits = decimal_string(k);
    let name = String::from_str(prefix).concat("_").concat(digits.as_str());
    assert("_"@ =~= seq!['_']);
    name
}

} // verus!
