//! Matriculation tokens: a fixed prefix followed by a sequence number written
//! in decimal and zero-padded to a minimum width.
use vstd::prelude::*;
use crate::chars::string_from_chars;

verus! {

/// Minimum number of digits in a token.
pub const MATRIC_WIDTH: usize = 5;

pub open spec fn digit_char(d: nat) -> char {
    if d == 0 { '0' } else if d == 1 { '1' } else if d == 2 { '2' } else if d == 3 { '3' }
    else if d == 4 { '4' } else if d == 5 { '5' } else if d == 6 { '6' } else if d == 7 { '7' }
    else if d == 8 { '8' } else { '9' }
}

pub open spec fn char_digit(c: char) -> nat {
    if c == '1' { 1 } else if c == '2' { 2 } else if c == '3' { 3 } else if c == '4' { 4 }
    else if c == '5' { 5 } else if c == '6' { 6 } else if c == '7' { 7 } else if c == '8' { 8 }
    else if c == '9' { 9 } else { 0 }
}

/// The decimal digits of `n`, most significant first, without leading zeros.
pub open spec fn decimal(n: nat) -> Seq<char>
    decreases n,
{
    if n < 10 {
        seq![digit_char(n)]
    } else {
        decimal(n / 10).push(digit_char(n % 10))
    }
}

/// `d` with zeros in front until it has at least `MATRIC_WIDTH` characters.
pub open spec fn zero_pad(d: Seq<char>) -> Seq<char> {
    if d.len() >= MATRIC_WIDTH {
        d
    } else {
        Seq::new((MATRIC_WIDTH - d.len()) as nat, |i: int| '0') + d
    }
}

/// The token for sequence number `n`: `MAT` then `n` zero-padded to five digits.
pub open spec fn matric_token_of(n: nat) -> Seq<char> {
    seq!['M', 'A', 'T'] + zero_pad(decimal(n))
}

/// The number that a string of decimal digits denotes.
pub open spec fn decimal_value(d: Seq<char>) -> nat
    decreases d.len(),
{
    if d.len() == 0 {
        0
    } else {
        10 * decimal_value(d.drop_last()) + char_digit(d.last())
    }
}

/// The sequence number a token carries: the digits after the three-letter prefix.
pub open spec fn token_number(t: Seq<char>) -> nat {
    decimal_value(t.subrange(3, t.len() as int))
}

proof fn lemma_decimal_value_of_decimal(n: nat)
    ensures
        decimal_value(decimal(n)) == n,
    decreases n,
{
    if n >= 10 {
        lemma_decimal_value_of_decimal(n / 10);
        assert(decimal(n).drop_last() =~= decimal(n / 10));
        assert(decimal(n).last() == digit_char(n % 10));
        assert(char_digit(digit_char(n % 10)) == n % 10);
        assert(decimal(n).len() > 0);
        assert(decimal_value(decimal(n)) == 10 * decimal_value(decimal(n / 10)) + char_digit(decimal(n).last()));
        assert(10 * (n / 10) + n % 10 == n) by (nonlinear_arith);
    } else {
        assert(char_digit(digit_char(n)) == n);
        assert(decimal_value(Seq::<char>::empty()) == 0);
        assert(seq![digit_char(n)].drop_last() =~= Seq::<char>::empty());
    }
}

proof fn lemma_zeros_value(k: nat)
    ensures
        decimal_value(Seq::new(k, |i: int| '0')) == 0,
    decreases k,
{
    if k > 0 {
        assert(Seq::new(k, |i: int| '0').drop_last() =~= Seq::new((k - 1) as nat, |i: int| '0'));
        lemma_zeros_value((k - 1) as nat);
    }
}

proof fn lemma_leading_zeros(k: nat, d: Seq<char>)
    ensures
        decimal_value(Seq::new(k, |i: int| '0') + d) == decimal_value(d),
    decreases d.len(),
{
    let z = Seq::new(k, |i: int| '0');
    if d.len() == 0 {
        assert(z + d =~= z);
        lemma_zeros_value(k);
    } else {
        assert((z + d).drop_last() =~= z + d.drop_last());
        assert((z + d).last() == d.last());
        lemma_leading_zeros(k, d.drop_last());
    }
}

/// A token reads back as the sequence number it was made from.
pub proof fn lemma_token_number(n: nat)
    ensures
        token_number(matric_token_of(n)) == n,
{
    let d = decimal(n);
    let t = matric_token_of(n);
    assert(t.subrange(3, t.len() as int) =~= zero_pad(d));
    lemma_decimal_value_of_decimal(n);
    if d.len() < MATRIC_WIDTH {
        lemma_leading_zeros((MATRIC_WIDTH - d.len()) as nat, d);
    }
}

/// Distinct sequence numbers give distinct tokens, and a larger number gives a
/// token that carries a larger number.
pub proof fn lemma_token_order(a: nat, b: nat)
    requires
        a < b,
    ensures
        matric_token_of(a) != matric_token_of(b),
        token_number(matric_token_of(a)) < token_number(matric_token_of(b)),
{
    lemma_token_number(a);
    lemma_token_number(b);
}

fn digit_of(d: usize) -> (c: char)
    requires
        d < 10,
    ensures
        c == digit_char(d as nat),
{
    if d == 0 { '0' } else if d == 1 { '1' } else if d == 2 { '2' } else if d == 3 { '3' }
    else if d == 4 { '4' } else if d == 5 { '5' } else if d == 6 { '6' } else if d == 7 { '7' }
    else if d == 8 { '8' } else { '9' }
}

fn push_decimal(n: usize, out: &mut Vec<char>)
    ensures
        final(out)@ == old(out)@ + decimal(n as nat),
    decreases n,
{
    if n >= 10 {
        push_decimal(n / 10, out);
    }
    out.push(digit_of(n % 10));
    proof {
        if n >= 10 {
            assert(decimal(n as nat) == decimal((n / 10) as nat).push(digit_char((n % 10) as nat)));
        }
    }
    assert(final(out)@ =~= old(out)@ + decimal(n as nat));
}

/// The token for sequence number `n`, for example `MAT00004` for 4.
pub fn matric_token(n: usize) -> (r: String)
    ensures
        r@ == matric_token_of(n as nat),
{
    let mut digits: Vec<char> = Vec::new();
    push_decimal(n, &mut digits);
    let mut out: Vec<char> = Vec::new();
    out.push('M');
    out.push('A');
    out.push('T');
    let mut pad: usize = 0;
    let missing: usize = if digits.len() >= MATRIC_WIDTH { 0 } else { MATRIC_WIDTH - digits.len() };
    while pad < missing
        invariant
            pad <= missing,
            missing <= MATRIC_WIDTH,
            out@ =~= seq!['M', 'A', 'T'] + Seq::new(pad as nat, |i: int| '0'),
        decreases missing - pad,
    {
        out.push('0');
        pad = pad + 1;
    }
    let mut i: usize = 0;
    while i < digits.len()
        invariant
            i <= digits.len(),
            out@ =~= seq!['M', 'A', 'T'] + Seq::new(missing as nat, |k: int| '0') + digits@.take(i as int),
        decreases digits.len() - i,
    {
        out.push(digits[i]);
        assert(digits@.take(i as int + 1) =~= digits@.take(i as int).push(digits@[i as int]));
        i = i + 1;
    }
    assert(digits@.take(i as int) =~= digits@);
    assert(out@ =~= matric_token_of(n as nat));
    string_from_chars(&out)
}

/// The token proposed when `matriculated` students already hold one.
pub fn next_matric_token(matriculated: usize) -> (r: String)
    requires
        matriculated < usize::MAX,
    ensures
        r@ == matric_token_of(matriculated as nat + 1),
{
    matric_token(matriculated + 1)
}

} // verus!
