//! Numeric verification codes: leading digits of a random number written in base
//! ten and padded with zeros to six digits.

use vstd::prelude::*;
use rand::Rng;

verus! {

/// The digit character for `d` in `0..10`.
pub open spec fn digit_char(d: int) -> char {
    (d + '0' as int) as char
}

/// `n` written in base ten, without leading zeros.
pub open spec fn decimal(n: nat) -> Seq<char>
    decreases n,
{
    if n < 10 {
        seq![digit_char(n as int)]
    } else {
        decimal(n / 10).push(digit_char((n % 10) as int))
    }
}

/// `n` in base ten, with zeros in front to make at least `width` digits.
pub open spec fn zero_padded(n: nat, width: nat) -> Seq<char> {
    let d = decimal(n);
    if d.len() >= width {
        d
    } else {
        Seq::new((width - d.len()) as nat, |i: int| '0') + d
    }
}

/// A one-character string holding the digit `c`.
fn digit_str(c: char) -> (r: &'static str)
    requires
        '0' <= c <= '9',
    ensures
        r@ == seq![c],
{
    proof {
        reveal_strlit("0");
        reveal_strlit("1");
        reveal_strlit("2");
        reveal_strlit("3");
        reveal_strlit("4");
        reveal_strlit("5");
        reveal_strlit("6");
        reveal_strlit("7");
        reveal_strlit("8");
        reveal_strlit("9");
    }
    match c {
        '0' => "0",
        '1' => "1",
        '2' => "2",
        '3' => "3",
        '4' => "4",
        '5' => "5",
        '6' => "6",
        '7' => "7",
        '8' => "8",
        _ => "9",
    }
}

/// Every character of `decimal(n)` is a digit.
proof fn lemma_decimal_digits(n: nat)
    ensures
        forall|i: int| 0 <= i < decimal(n).len() ==> '0' <= #[trigger] decimal(n)[i] <= '9',
        decimal(n).len() >= 1,
    decreases n,
{
    if n >= 10 {
        lemma_decimal_digits(n / 10);
    }
}

/// Appends the base-ten digits of `n` to `out`.
fn push_decimal(n: u32, out: &mut Vec<char>)
    ensures
        final(out)@ == old(out)@ + decimal(n as nat),
    decreases n,
{
    if n < 10 {
        out.push(((n as u8) + 48u8) as char);
        assert(final(out)@ =~= old(out)@ + decimal(n as nat));
    } else {
        push_decimal(n / 10, out);
        out.push((((n % 10) as u8) + 48u8) as char);
        assert(final(out)@ =~= old(out)@ + decimal(n as nat));
    }
}

/// The first `length` digits of `n` padded with zeros to six digits.
pub fn number_code(n: u32, length: usize) -> (r: String)
    requires
        length <= zero_padded(n as nat, 6).len(),
    ensures
        r@ == zero_padded(n as nat, 6).take(length as int),
{
    let mut digits: Vec<char> = Vec::new();
    push_decimal(n, &mut digits);
    assert(digits@ =~= decimal(n as nat));
    proof {
        lemma_decimal_digits(n as nat);
    }
    let mut padded: Vec<char> = Vec::new();
    let mut z: usize = 0;
    let len = digits.len();
    while len < 6 && z < 6 - len
        invariant
            padded@ == Seq::new(z as nat, |i: int| '0'),
            len == decimal(n as nat).len(),
            len >= 1,
            len < 6 ==> z <= 6 - len,
            len >= 6 ==> z == 0,
        decreases 6 - z,
    {
        padded.push('0');
        z += 1;
        assert(padded@ =~= Seq::new(z as nat, |i: int| '0'));
    }
    let mut k: usize = 0;
    while k < len
        invariant
            k <= len,
            len == digits@.len(),
            digits@ == decimal(n as nat),
            padded@ == Seq::new(z as nat, |i: int| '0') + digits@.take(k as int),
            len < 6 ==> z == 6 - len,
            len >= 6 ==> z == 0,
        decreases len - k,
    {
        padded.push(digits[k]);
        k += 1;
        assert(padded@ =~= Seq::new(z as nat, |i: int| '0') + digits@.take(k as int));
    }
    assert(digits@.take(len as int) =~= digits@);
    if len >= 6 {
        assert(padded@ =~= zero_padded(n as nat, 6));
    } else {
        assert(padded@ =~= zero_padded(n as nat, 6));
    }
    let mut r = String::new();
    let mut i: usize = 0;
    while i < length
        invariant
            i <= length,
            length <= padded@.len(),
            padded@ == zero_padded(n as nat, 6),
            forall|j: int| 0 <= j < padded@.len() ==> '0' <= #[trigger] padded@[j] <= '9',
            r@ == padded@.take(i as int),
        decreases length - i,
    {
        let s = digit_str(padded[i]);
        r.append(s);
        i += 1;
        assert(r@ =~= padded@.take(i as int));
    }
    r
}

/// Relies on `rand::thread_rng` and `Rng::gen::<u32>`: a number drawn from the
/// thread's generator. Nothing is promised of its value.
#[verifier::external_body]
fn random_u32() -> (r: u32) {
    rand::thread_rng().gen::<u32>()
}

/// A random numeric code of `length` digits: the leading digits of a random number,
/// padded with zeros to six digits. Six is the most that every draw provides.
pub fn gen_number_verification_code(length: usize) -> (r: String)
    requires
        length <= 6,
    ensures
        r@.len() == length,
        exists|n: u32| r@ == #[trigger] zero_padded(n as nat, 6).take(length as int),
{
    let n = random_u32();
    let r = number_code(n, length);
    r
}

} // verus!
