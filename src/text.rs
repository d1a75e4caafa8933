use vstd::prelude::*;

verus! {

/// The decimal digit for `d < 10`.
pub open spec fn digit_char(d: nat) -> char {
    if d == 0 { '0' }
    else if d == 1 { '1' }
    else if d == 2 { '2' }
    else if d == 3 { '3' }
    else if d == 4 { '4' }
    else if d == 5 { '5' }
    else if d == 6 { '6' }
    else if d == 7 { '7' }
    else if d == 8 { '8' }
    else { '9' }
}

/// Decimal digits of a natural number, most significant first, no leading zeros.
pub open spec fn decimal_nat(n: nat) -> Seq<char>
    decreases n,
{
    if n < 10 {
        seq![digit_char(n)]
    } else {
        decimal_nat(n / 10).push(digit_char(n % 10))
    }
}

/// Decimal form of an integer, with a leading '-' when negative.
pub open spec fn decimal(n: int) -> Seq<char> {
    if n < 0 {
        seq!['-'] + decimal_nat((-n) as nat)
    } else {
        decimal_nat(n as nat)
    }
}

pub open spec fn is_digit(c: char) -> bool {
    '0' <= c <= '9'
}

proof fn lemma_digit_char(d: nat)
    requires
        d < 10,
    ensures
        is_digit(digit_char(d)),
        forall|e: nat| e < 10 && #[trigger] digit_char(e) == digit_char(d) ==> e == d,
{
}

proof fn lemma_decimal_nat_digits(n: nat)
    ensures
        decimal_nat(n).len() >= 1,
        n >= 10 ==> decimal_nat(n).len() >= 2,
        forall|i: int| 0 <= i < decimal_nat(n).len() ==> is_digit(#[trigger] decimal_nat(n)[i]),
    decreases n,
{
    lemma_digit_char(n % 10);
    if n >= 10 {
        lemma_decimal_nat_digits(n / 10);
    }
}

proof fn lemma_decimal_nat_injective(n: nat, m: nat)
    requires
        decimal_nat(n) == decimal_nat(m),
    ensures
        n == m,
    decreases n,
{
    lemma_decimal_nat_digits(n);
    lemma_decimal_nat_digits(m);
    lemma_digit_char(n % 10);
    lemma_digit_char(m % 10);
    if n >= 10 && m >= 10 {
        let a = decimal_nat(n);
        assert(a.last() == digit_char(n % 10));
        assert(a.drop_last() =~= decimal_nat(n / 10));
        assert(decimal_nat(m).drop_last() =~= decimal_nat(m / 10));
        lemma_decimal_nat_injective(n / 10, m / 10);
    } else if n < 10 && m < 10 {
        assert(decimal_nat(n)[0] == digit_char(n));
    }
}

/// Every character of a decimal form is a digit or the leading minus sign,
/// and the form is never empty.
pub proof fn lemma_decimal_chars(n: int)
    ensures
        decimal(n).len() >= 1,
        forall|i: int| 0 <= i < decimal(n).len() ==> is_digit(#[trigger] decimal(n)[i]) || decimal(n)[i] == '-',
{
    if n < 0 {
        lemma_decimal_nat_digits((-n) as nat);
        assert forall|i: int| 0 <= i < decimal(n).len() implies is_digit(#[trigger] decimal(n)[i]) || decimal(n)[i] == '-' by {
            if i > 0 {
                assert(decimal(n)[i] == decimal_nat((-n) as nat)[i - 1]);
            }
        }
    } else {
        lemma_decimal_nat_digits(n as nat);
    }
}

/// Distinct integers have distinct decimal forms.
pub proof fn lemma_decimal_injective(n: int, m: int)
    requires
        decimal(n) == decimal(m),
    ensures
        n == m,
{
    lemma_decimal_nat_digits(if n < 0 { (-n) as nat } else { n as nat });
    lemma_decimal_nat_digits(if m < 0 { (-m) as nat } else { m as nat });
    if n < 0 && m < 0 {
        assert(decimal(n).drop_first() =~= decimal_nat((-n) as nat));
        assert(decimal(m).drop_first() =~= decimal_nat((-m) as nat));
        lemma_decimal_nat_injective((-n) as nat, (-m) as nat);
    } else if n >= 0 && m >= 0 {
        lemma_decimal_nat_injective(n as nat, m as nat);
    } else if n < 0 {
        assert(decimal(n)[0] == '-');
        assert(is_digit(decimal(m)[0]));
    } else {
        assert(decimal(m)[0] == '-');
        assert(is_digit(decimal(n)[0]));
    }
}

fn digit_str(d: u64) -> (r: &'static str)
    requires
        d < 10,
    ensures
        r@ == seq![digit_char(d as nat)],
{
    proof {
        reveal_strlit("0");
        reveal_strlit("1");
        reveal_strlit("2");
        reveal_strlit("3");
        reveal_strlit("4");
        reveal_strlit("5");
        reveal_strlit("6");
        reveal_strlit("7");
        reveal_strlit("8");
        reveal_strlit("9");
    }
    if d == 0 { "0" }
    else if d == 1 { "1" }
    else if d == 2 { "2" }
    else if d == 3 { "3" }
    else if d == 4 { "4" }
    else if d == 5 { "5" }
    else if d == 6 { "6" }
    else if d == 7 { "7" }
    else if d == 8 { "8" }
    else { "9" }
}

/// The decimal digits of `n`.
pub fn u64_to_decimal(n: u64) -> (r: String)
    ensures
        r@ == decimal_nat(n as nat),
    decreases n,
{
    if n < 10 {
        String::from_str(digit_str(n))
    } else {
        let r = u64_to_decimal(n / 10).concat(digit_str(n % 10));
        assert(r@ =~= decimal_nat(n as nat));
        r
    }
}

/// The decimal form of `n`, with a leading '-' when it is negative.
pub fn i64_to_decimal(n: i64) -> (r: String)
    ensures
        r@ == decimal(n as int),
{
    if n < 0 {
        let magnitude: u64 = ((-(n + 1)) as u64) + 1;
        let r = String::from_str("-").concat(u64_to_decimal(magnitude).as_str());
        proof {
            reveal_strlit("-");
        }
        assert(r@ =~= decimal(n as int));
        r
    } else {
        u64_to_decimal(n as u64)
    }
}

} // verus!
