//! Numeric lot identifiers framed by two check digits.
//!
//! An identifier is built from a base number by writing one check digit in
//! front of its decimal digits and one behind them: base `49` becomes `7493`.
//! The digits are weighted by their position counted from the right, the
//! weighted sum is reduced modulo ten, and the two check digits add up to ten
//! (or are `9` and `0` where the sum is a multiple of ten).

use vstd::prelude::*;

verus! {

/// The decimal digits of `n`, most significant first; zero has the one digit `0`.
pub open spec fn decimal_digits(n: nat) -> Seq<u32>
    decreases n,
{
    if n < 10 {
        seq![n as u32]
    } else {
        decimal_digits(n / 10).push((n % 10) as u32)
    }
}

/// The number that a sequence of decimal digits, most significant first, writes.
pub open spec fn digits_value(digits: Seq<u32>) -> nat
    decreases digits.len(),
{
    if digits.len() == 0 {
        0
    } else {
        digits_value(digits.drop_last()) * 10 + digits.last() as nat
    }
}

/// Ten to the power `k`.
pub open spec fn pow10(k: nat) -> nat
    decreases k,
{
    if k == 0 {
        1
    } else {
        10 * pow10((k - 1) as nat)
    }
}

/// The sum of the digits, each multiplied by its position counted from the
/// right, the rightmost digit having position one.
pub open spec fn weighted_sum(digits: Seq<u32>) -> nat
    decreases digits.len(),
{
    if digits.len() == 0 {
        0
    } else {
        digits[0] as nat * digits.len() + weighted_sum(digits.skip(1))
    }
}

/// The pair of check digits that belongs to a weighted sum: the digit written
/// in front and the digit written behind.
pub open spec fn check_pair(sum: nat) -> (u32, u32) {
    if sum % 10 == 0 {
        (9u32, 0u32)
    } else {
        ((sum % 10) as u32, (10 - sum % 10) as u32)
    }
}

/// The check digits of a sequence of digits.
pub open spec fn spec_check_from_digits(digits: Seq<u32>) -> (u32, u32) {
    check_pair(weighted_sum(digits))
}

/// The check digits of the number `n`.
pub open spec fn spec_check(n: nat) -> (u32, u32) {
    spec_check_from_digits(decimal_digits(n))
}

/// Whether `n` is a base number framed by its own two check digits.
pub open spec fn spec_is_valid(n: nat) -> bool {
    let digits = decimal_digits(n);
    &&& digits.len() >= 2
    &&& spec_check_from_digits(digits.subrange(1, digits.len() - 1)) == (digits[0], digits.last())
}

/// The identifier of base `n` as a mathematical integer, however long it is.
pub open spec fn spec_framed(n: nat) -> nat {
    let (front, back) = spec_check(n);
    front as nat * pow10(decimal_digits(n).len() + 1) + n * 10 + back as nat
}

/// The identifier of base `n` as `UplId::new` returns it: the framed number
/// where it fits in 32 bits, and zero where it does not.
pub open spec fn spec_new(n: u32) -> u32 {
    if spec_framed(n as nat) <= u32::MAX {
        spec_framed(n as nat) as u32
    } else {
        0
    }
}


/// A digit sequence is rebuilt by the number it writes: a sequence one longer
/// than that of `a` ends in the digit `b`.
pub proof fn lemma_digits_step(a: nat, b: nat)
    requires
        a >= 1,
        b < 10,
    ensures
        decimal_digits(a * 10 + b) == decimal_digits(a).push(b as u32),
{
    assert((a * 10 + b) / 10 == a);
    assert((a * 10 + b) % 10 == b);
}

/// A number below `10^k` has at most `k` digits, and at least one.
pub proof fn lemma_digits_len(n: nat, k: nat)
    requires
        k >= 1,
        n < pow10(k),
    ensures
        1 <= decimal_digits(n).len() <= k,
    decreases n,
{
    if n >= 10 {
        assert(pow10(1) == 10) by {
            reveal_with_fuel(pow10, 2);
        }
        assert(k >= 2);
        lemma_digits_len(n / 10, (k - 1) as nat);
    }
}

/// Reading the digits of a number gives the number back.
pub proof fn lemma_digits_value(n: nat)
    ensures
        digits_value(decimal_digits(n)) == n,
    decreases n,
{
    let d = decimal_digits(n);
    if n < 10 {
        assert(d.drop_last() =~= Seq::<u32>::empty());
        assert(digits_value(d.drop_last()) == 0);
    } else {
        lemma_digits_value(n / 10);
        assert(d.drop_last() =~= decimal_digits(n / 10));
    }
}

/// Writing a non-zero digit in front of a number puts that digit in front of
/// the number's digits.
pub proof fn lemma_digits_with_front(front: nat, n: nat)
    requires
        1 <= front < 10,
    ensures
        decimal_digits(front * pow10(decimal_digits(n).len()) + n) == seq![front as u32]
            + decimal_digits(n),
    decreases n,
{
    reveal_with_fuel(pow10, 2);
    let k = decimal_digits(n).len();
    if n < 10 {
        assert(k == 1);
        lemma_digits_step(front, n);
        assert(decimal_digits(front) == seq![front as u32]);
        assert(seq![front as u32].push(n as u32) =~= seq![front as u32] + decimal_digits(n));
    } else {
        let m = n / 10;
        let km = decimal_digits(m).len();
        assert(k == km + 1);
        lemma_digits_with_front(front, m);
        let high = front * pow10(km) + m;
        assert(front * pow10(k) + n == high * 10 + n % 10) by (nonlinear_arith)
            requires
                pow10(k) == 10 * pow10(km),
                m == n / 10,
                high == front * pow10(km) + m,
        ;
        assert(high >= 1) by (nonlinear_arith)
            requires
                high == front * pow10(km) + m,
                front >= 1,
                pow10(km) >= 1,
        ;
        lemma_digits_step(high, n % 10);
        assert((seq![front as u32] + decimal_digits(m)).push((n % 10) as u32) =~= seq![
            front as u32,
        ] + decimal_digits(n));
    }
}

/// Ten to any power is at least one.
pub proof fn lemma_pow10_positive(k: nat)
    ensures
        pow10(k) >= 1,
    decreases k,
{
    if k > 0 {
        lemma_pow10_positive((k - 1) as nat);
    }
}

/// The check digits are decimal digits, and the one in front is never zero.
pub proof fn lemma_check_pair_digits(sum: nat)
    ensures
        1 <= check_pair(sum).0 < 10,
        check_pair(sum).1 < 10,
{
}

/// The digits of a framed identifier are the front check digit, the digits of
/// the base, and the back check digit.
pub proof fn lemma_digits_of_framed(n: nat)
    ensures
        decimal_digits(spec_framed(n)) == seq![spec_check(n).0] + decimal_digits(n) + seq![
            spec_check(n).1,
        ],
{
    let (front, back) = spec_check(n);
    let k = decimal_digits(n).len();
    lemma_check_pair_digits(weighted_sum(decimal_digits(n)));
    lemma_digits_with_front(front as nat, n);
    lemma_pow10_positive(k);
    let high = front as nat * pow10(k) + n;
    assert(high >= 1) by (nonlinear_arith)
        requires
            high == front as nat * pow10(k) + n,
            front >= 1,
            pow10(k) >= 1,
    ;
    assert(spec_framed(n) == high * 10 + back as nat) by (nonlinear_arith)
        requires
            spec_framed(n) == front as nat * pow10(k + 1) + n * 10 + back as nat,
            pow10(k + 1) == 10 * pow10(k),
            high == front as nat * pow10(k) + n,
    ;
    lemma_digits_step(high, back as nat);
    assert((seq![front] + decimal_digits(n)).push(back) =~= seq![front] + decimal_digits(n)
        + seq![back]);
}

/// Every framed identifier passes validation.
pub proof fn lemma_framed_is_valid(n: nat)
    ensures
        spec_is_valid(spec_framed(n)),
{
    lemma_digits_of_framed(n);
    let digits = decimal_digits(spec_framed(n));
    assert(digits.subrange(1, digits.len() - 1) =~= decimal_digits(n));
}

/// Two bases with the same framed identifier are the same base.
pub proof fn lemma_framed_injective(a: nat, b: nat)
    requires
        spec_framed(a) == spec_framed(b),
    ensures
        a == b,
{
    lemma_digits_of_framed(a);
    lemma_digits_of_framed(b);
    let digits = decimal_digits(spec_framed(a));
    assert(digits.subrange(1, digits.len() - 1) =~= decimal_digits(a));
    assert(digits.subrange(1, digits.len() - 1) =~= decimal_digits(b));
    lemma_digits_value(a);
    lemma_digits_value(b);
}

/// The framed identifier of a base below `10^k` is below `10^(k+2)`.
pub proof fn lemma_framed_bound(n: nat, k: nat)
    requires
        k >= 1,
        n < pow10(k),
    ensures
        spec_framed(n) < pow10(k + 2),
{
    let len = decimal_digits(n).len();
    lemma_digits_len(n, k);
    lemma_check_pair_digits(weighted_sum(decimal_digits(n)));
    lemma_pow10_monotonic(len + 1, k + 1);
    reveal_with_fuel(pow10, 2);
    let (front, back) = spec_check(n);
    assert(spec_framed(n) < pow10(k + 2)) by (nonlinear_arith)
        requires
            spec_framed(n) == front as nat * pow10(len + 1) + n * 10 + back as nat,
            front < 10,
            back < 10,
            n < pow10(k),
            pow10(len + 1) <= pow10(k + 1),
            pow10(k + 1) == 10 * pow10(k),
            pow10(k + 2) == 10 * pow10(k + 1),
            pow10(k) >= 1,
    ;
}

/// Ten to a larger power is not smaller.
pub proof fn lemma_pow10_monotonic(a: nat, b: nat)
    requires
        a <= b,
    ensures
        pow10(a) <= pow10(b),
    decreases b,
{
    if a < b {
        lemma_pow10_monotonic(a, (b - 1) as nat);
    }
}

/// Every base below one hundred thousand gets an identifier that passes
/// validation.
pub proof fn law_new_is_valid(n: u32)
    requires
        n < 100_000,
    ensures
        spec_is_valid(spec_new(n) as nat),
{
    assert(pow10(5) == 100_000 && pow10(7) == 10_000_000) by {
        reveal_with_fuel(pow10, 8);
    }
    lemma_framed_bound(n as nat, 5);
    lemma_framed_is_valid(n as nat);
}

/// Two different bases below one hundred thousand get different identifiers.
pub proof fn law_new_is_injective(a: u32, b: u32)
    requires
        a < 100_000,
        b < 100_000,
        a != b,
    ensures
        spec_new(a) != spec_new(b),
{
    assert(pow10(5) == 100_000 && pow10(7) == 10_000_000) by {
        reveal_with_fuel(pow10, 8);
    }
    lemma_framed_bound(a as nat, 5);
    lemma_framed_bound(b as nat, 5);
    if spec_new(a) == spec_new(b) {
        lemma_framed_injective(a as nat, b as nat);
    }
}

/// The weighted sum of a range is the weight of its first digit plus the
/// weighted sum of the rest.
proof fn lemma_weighted_sum_range(digits: Seq<u32>, i: int, hi: int)
    requires
        0 <= i < hi <= digits.len(),
    ensures
        weighted_sum(digits.subrange(i, hi)) == digits[i] as nat * ((hi - i) as nat)
            + weighted_sum(digits.subrange(i + 1, hi)),
{
    assert(digits.subrange(i, hi).skip(1) =~= digits.subrange(i + 1, hi));
}

/// The check digits of the digits from position `lo` up to, not including,
/// position `hi`.
fn check_of_range(digits: &Vec<u32>, lo: usize, hi: usize) -> (r: (u32, u32))
    requires
        lo <= hi <= digits.len(),
    ensures
        r == spec_check_from_digits(digits@.subrange(lo as int, hi as int)),
{
    let mut acc: u32 = 0;
    let mut i: usize = hi;
    assert(digits@.subrange(hi as int, hi as int) =~= Seq::<u32>::empty());
    while i > lo
        invariant
            lo <= i <= hi <= digits.len(),
            acc < 10,
            acc as nat == weighted_sum(digits@.subrange(i as int, hi as int)) % 10,
        decreases i,
    {
        i -= 1;
        let weight: u32 = ((hi - i) % 10) as u32;
        let digit: u32 = digits[i] % 10;
        proof {
            let rest = weighted_sum(digits@.subrange(i + 1, hi as int)) as int;
            let d = digits@[i as int] as int;
            let w = (hi - i) as int;
            lemma_weighted_sum_range(digits@, i as int, hi as int);
            vstd::arithmetic::div_mod::lemma_mul_mod_noop_general(d, w, 10);
            vstd::arithmetic::div_mod::lemma_add_mod_noop(rest, d * w, 10);
            vstd::arithmetic::div_mod::lemma_add_mod_noop(rest % 10, (d % 10) * (w % 10), 10);
            vstd::arithmetic::div_mod::lemma_mod_mod(rest, 10, 1);
            assert(digit * weight <= 81) by (nonlinear_arith)
                requires
                    digit < 10,
                    weight < 10,
            ;
        }
        acc = (acc + digit * weight) % 10;
    }
    if acc == 0 {
        (9, 0)
    } else {
        (acc, 10 - acc)
    }
}

/// The two check digits of a sequence of digits, the most significant first:
/// the digit to write in front and the digit to write behind.
pub fn calculate_check_from_vec(n: Vec<u32>) -> (r: (u32, u32))
    ensures
        r == spec_check_from_digits(n@),
{
    assert(n@.subrange(0, n@.len() as int) =~= n@);
    check_of_range(&n, 0, n.len())
}

/// The decimal digits of `n`, most significant first.
fn digits_of(n: u32) -> (digits: Vec<u32>)
    ensures
        digits@ == decimal_digits(n as nat),
    decreases n,
{
    if n < 10 {
        let mut digits: Vec<u32> = Vec::new();
        digits.push(n);
        assert(digits@ =~= seq![n]);
        digits
    } else {
        let mut digits = digits_of(n / 10);
        digits.push(n % 10);
        digits
    }
}

/// The two check digits of the number `n`.
pub fn calculate_check(n: u32) -> (r: (u32, u32))
    ensures
        r == spec_check(n as nat),
{
    calculate_check_from_vec(digits_of(n))
}

/// Whether `n` is some base number framed by its own check digits: the first
/// and the last digit of `n` are the check digits of the digits between them.
pub fn is_valid(n: u32) -> (valid: bool)
    ensures
        valid == spec_is_valid(n as nat),
{
    let digits = digits_of(n);
    let len = digits.len();
    if len < 2 {
        return false;
    }
    let (front, back) = check_of_range(&digits, 1, len - 1);
    front == digits[0] && back == digits[len - 1]
}

/// A lot identifier: a base number framed by its two check digits.
#[derive(Clone, Copy, Debug, Default)]
pub struct UplId(pub u32);

impl core::ops::Deref for UplId {
    type Target = u32;

    fn deref(&self) -> (value: &u32)
        ensures
            *value == self.0,
    {
        &self.0
    }
}

impl UplId {
    /// The identifier of base `n`: the front check digit, the digits of `n`,
    /// and the back check digit, read as one number. Where that number does
    /// not fit in 32 bits the result is zero, which is no valid identifier.
    pub fn new(n: u32) -> (id: u32)
        ensures
            id == spec_new(n),
            n < 100_000 ==> spec_is_valid(id as nat),
    {
        let digits = digits_of(n);
        let (front, back) = check_of_range(&digits, 0, digits.len());
        proof {
            assert(digits@.subrange(0, digits@.len() as int) =~= digits@);
            assert(pow10(10) == 10_000_000_000) by {
                reveal_with_fuel(pow10, 11);
            }
            lemma_digits_len(n as nat, 10);
            lemma_check_pair_digits(weighted_sum(digits@));
            if n < 100_000 {
                law_new_is_valid(n);
            }
        }
        let mut scale: u64 = 10;
        let mut k: usize = 0;
        proof {
            assert(pow10(1) == 10) by {
                reveal_with_fuel(pow10, 2);
            }
            assert(pow10(11) == 100_000_000_000) by {
                reveal_with_fuel(pow10, 12);
            }
        }
        while k < digits.len()
            invariant
                k <= digits.len() <= 10,
                scale as nat == pow10((k + 1) as nat),
                scale <= pow10(11),
            decreases digits.len() - k,
        {
            proof {
                assert(pow10((k + 2) as nat) == 10 * pow10((k + 1) as nat)) by {
                    reveal_with_fuel(pow10, 2);
                }
                lemma_pow10_monotonic((k + 2) as nat, 11);
                assert(pow10(11) == 100_000_000_000) by {
                    reveal_with_fuel(pow10, 12);
                }
            }
            scale = scale * 10;
            k += 1;
        }
        proof {
            assert(pow10(11) == 100_000_000_000) by {
                reveal_with_fuel(pow10, 12);
            }
            assert(front as u64 * scale <= 900_000_000_000) by (nonlinear_arith)
                requires
                    front < 10,
                    scale <= 100_000_000_000,
            ;
        }
        let framed: u64 = front as u64 * scale + n as u64 * 10 + back as u64;
        if framed <= u32::MAX as u64 {
            framed as u32
        } else {
            0
        }
    }
}

} // verus!
