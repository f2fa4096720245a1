//! Luhn check digits (modulo ten, every second digit doubled) and identifiers
//! that carry the check digit twice: once as it is and once as its complement
//! to nine.

use std::collections::HashSet;
use vstd::prelude::*;
use vstd::string::{StrSliceExecFns, StringExecFns};

verus! {

/// What one decimal digit adds to the Luhn sum: itself, or, where it is
/// doubled, twice itself with nine taken off a result above nine.
pub open spec fn luhn_digit(digit: nat, doubled: bool) -> nat {
    if !doubled {
        digit
    } else if 2 * digit > 9 {
        (2 * digit - 9) as nat
    } else {
        2 * digit
    }
}

/// The Luhn sum of the decimal digits of `n`, read from the right, where the
/// rightmost digit has position `i` and the digits at odd positions are
/// doubled.
pub open spec fn luhn_sum(n: nat, i: nat) -> nat
    decreases n,
{
    let digit = luhn_digit(n % 10, i % 2 != 0);
    if n / 10 > 0 {
        luhn_sum(n / 10, i + 1) + digit
    } else {
        digit
    }
}

/// The Luhn check digit of `u`: what its Luhn sum lacks to the next multiple
/// of ten.
pub open spec fn spec_check_digit(u: nat) -> nat {
    ((10 - luhn_sum(u, 1) % 10) % 10) as nat
}

/// The identifier of base `u`: the base, its check digit, and the complement
/// of the check digit to nine.
pub open spec fn spec_make_id(u: nat) -> nat {
    (u * 10 + spec_check_digit(u)) * 10 + (9 - spec_check_digit(u)) as nat
}

/// Whether the last two digits of `n` are the check digit of the digits
/// before them and the complement of that check digit to nine.
pub open spec fn spec_is_valid(n: nat) -> bool {
    let check = spec_check_digit(n / 100);
    n % 10 == 9 - check && (n % 100) / 10 == check
}

/// The largest base whose identifier fits in 64 bits.
pub const MAX_BASE: u64 = 184_467_440_737_095_515;

/// Whether no value occurs twice in the sequence.
pub open spec fn all_distinct(items: Seq<u64>) -> bool {
    forall|i: int, j: int| 0 <= i < j < items.len() ==> items[i] != items[j]
}

/// The Luhn sum of a number below `10^k` is at most `9 * k`.
proof fn lemma_luhn_sum_bound(n: nat, i: nat, k: nat)
    requires
        k >= 1,
        n < crate::id::pow10(k),
    ensures
        luhn_sum(n, i) <= 9 * k,
    decreases n,
{
    reveal_with_fuel(crate::id::pow10, 2);
    if n / 10 > 0 {
        assert(k >= 2);
        lemma_luhn_sum_bound(n / 10, i + 1, (k - 1) as nat);
    }
}

/// The Luhn sum depends on the position of the rightmost digit only by
/// whether it is odd or even.
proof fn lemma_luhn_sum_parity(n: nat, i: nat, j: nat)
    requires
        i % 2 == j % 2,
    ensures
        luhn_sum(n, i) == luhn_sum(n, j),
    decreases n,
{
    if n / 10 > 0 {
        lemma_luhn_sum_parity(n / 10, i + 1, j + 1);
    }
}

/// The Luhn sum of the digits of `n`, the rightmost digit having position
/// `i`: digits at odd positions are doubled.
pub fn calc(n: u64, i: u32) -> (sum: u8)
    ensures
        sum as nat == luhn_sum(n as nat, i as nat),
    decreases n,
{
    let digit: u64 = n % 10;
    let doubled: u64 = digit * 2;
    let res: u64 = if i % 2 == 0 {
        digit
    } else if doubled > 9 {
        doubled - 9
    } else {
        doubled
    };
    let left: u64 = n / 10;
    if left > 0 {
        let next: u32 = i % 2 + 1;
        proof {
            assert(crate::id::pow10(19) == 10_000_000_000_000_000_000) by {
                reveal_with_fuel(crate::id::pow10, 20);
            }
            lemma_luhn_sum_bound(left as nat, next as nat, 19);
            lemma_luhn_sum_parity(left as nat, next as nat, (i + 1) as nat);
        }
        return calc(left, next) + res as u8;
    }
    res as u8
}

/// The parts of an identifier: dividing by one hundred gives the base back,
/// the last digit is the complement of the check digit and the digit before
/// it is the check digit.
pub proof fn lemma_id_parts(u: nat)
    ensures
        spec_make_id(u) == u * 100 + spec_check_digit(u) * 9 + 9,
        spec_make_id(u) / 100 == u,
        spec_make_id(u) % 10 == 9 - spec_check_digit(u),
        (spec_make_id(u) % 100) / 10 == spec_check_digit(u),
        spec_is_valid(spec_make_id(u)),
{
    let c = spec_check_digit(u) as int;
    let id = spec_make_id(u) as int;
    let tail = 10 * c + (9 - c);
    assert(0 <= c <= 9);
    assert(id == (u * 10 + c) * 10 + (9 - c));
    assert(id == 100 * u + tail) by (nonlinear_arith)
        requires
            id == (u * 10 + c) * 10 + (9 - c),
            tail == 10 * c + (9 - c),
    ;
    vstd::arithmetic::div_mod::lemma_fundamental_div_mod_converse(id, 100, u as int, tail);
    vstd::arithmetic::div_mod::lemma_fundamental_div_mod_converse(tail, 10, c, 9 - c);
    vstd::arithmetic::div_mod::lemma_fundamental_div_mod_converse(id, 10, u * 10 + c, 9 - c);
}

/// The Luhn check digit of `u`.
pub fn calc_check(u: u64) -> (check: u8)
    ensures
        check as nat == spec_check_digit(u as nat),
        check <= 9,
{
    let rest: u8 = calc(u, 1) % 10;
    if rest == 0 {
        0
    } else {
        10 - rest
    }
}

/// The identifier of base `u`: the digits of `u`, then its check digit, then
/// the complement of the check digit to nine.
pub fn make_id(u: u64) -> (id: u64)
    requires
        u <= MAX_BASE,
    ensures
        id as nat == spec_make_id(u as nat),
        spec_is_valid(id as nat),
        id / 100 == u,
{
    let check: u64 = calc_check(u) as u64;
    proof {
        lemma_id_parts(u as nat);
    }
    (u * 10 + check) * 10 + (9 - check)
}

/// Whether `n` ends in the check digit of the digits before its last two,
/// followed by the complement of that check digit to nine.
pub fn is_valid(n: u64) -> (valid: bool)
    ensures
        valid == spec_is_valid(n as nat),
{
    let check: u64 = calc_check(n / 100) as u64;
    (n % 10) == 9 - check && (n % 100) / 10 == check
}

/// Whether no value occurs twice among the items.
pub fn has_unique_elements(items: Vec<u64>) -> (unique: bool)
    ensures
        unique == all_distinct(items@),
{
    broadcast use vstd::std_specs::hash::group_hash_axioms;

    let mut seen: HashSet<u64> = HashSet::new();
    let mut k: usize = 0;
    while k < items.len()
        invariant
            k <= items.len(),
            all_distinct(items@.take(k as int)),
            seen@ == items@.take(k as int).to_set(),
        decreases items.len() - k,
    {
        let fresh = seen.insert(items[k]);
        proof {
            let before = items@.take(k as int);
            let after = items@.take(k + 1);
            assert(after =~= before.push(items@[k as int]));
            assert(after.to_set() =~= before.to_set().insert(items@[k as int])) by {
                vstd::seq_lib::seq_to_set_is_finite(before);
                assert forall|x: u64| after.to_set().contains(x) implies before.to_set().insert(
                    items@[k as int],
                ).contains(x) by {
                    let i = choose|i: int| 0 <= i < after.len() && after[i] == x;
                    if i < k {
                        assert(before[i] == x);
                    }
                }
                assert forall|x: u64|
                    before.to_set().insert(items@[k as int]).contains(x) implies after.to_set().contains(
                    x,
                ) by {
                    if x == items@[k as int] {
                        assert(after[k as int] == x);
                    } else {
                        let i = choose|i: int| 0 <= i < before.len() && before[i] == x;
                        assert(after[i] == x);
                    }
                }
            }
        }
        if !fresh {
            proof {
                let i = choose|i: int|
                    0 <= i < items@.take(k as int).len() && items@.take(k as int)[i] == items@[k as int];
                assert(items@[i] == items@[k as int]);
            }
            return false;
        }
        proof {
            let before = items@.take(k as int);
            let after = items@.take(k + 1);
            assert forall|i: int, j: int| 0 <= i < j < after.len() implies #[trigger] after[i]
                != #[trigger] after[j] by {
                if j == k {
                    if after[i] == after[j] {
                        assert(before[i] == items@[k as int]);
                        assert(before.to_set().contains(items@[k as int]));
                    }
                } else {
                    assert(before[i] != before[j]);
                }
            }
        }
        k += 1;
    }
    assert(items@.take(k as int) =~= items@);
    true
}

/// Whether every character is one of the decimal digits `0` to `9`.
pub open spec fn all_decimal(s: Seq<char>) -> bool {
    forall|i: int| 0 <= i < s.len() ==> '0' <= #[trigger] s[i] <= '9'
}

/// The number that a string of decimal digits writes.
pub open spec fn decimal_value(s: Seq<char>) -> nat
    decreases s.len(),
{
    if s.len() == 0 {
        0
    } else {
        decimal_value(s.drop_last()) * 10 + (s.last() as nat - '0' as nat) as nat
    }
}

/// Whether a string is the identifier of a lot: decimal digits, at least one,
/// that write a number of at most 64 bits which passes the Luhn check.
pub open spec fn spec_valid_id(id: Seq<char>) -> bool {
    &&& id.len() > 0
    &&& all_decimal(id)
    &&& decimal_value(id) <= u64::MAX
    &&& spec_is_valid(decimal_value(id))
}

/// A string of digits writes no smaller a number than any of its beginnings.
proof fn lemma_decimal_value_grows(s: Seq<char>, k: int)
    requires
        0 <= k <= s.len(),
    ensures
        decimal_value(s.take(k)) <= decimal_value(s),
    decreases s.len() - k,
{
    if k == s.len() {
        assert(s.take(k) =~= s);
    } else {
        lemma_decimal_value_grows(s, k + 1);
        assert(s.take(k + 1).drop_last() =~= s.take(k));
    }
}

/// Whether `id` is the identifier of a lot: a string of decimal digits whose
/// last two are the Luhn check digit of the digits before them and the
/// complement of that check digit to nine.
pub fn is_valid_id(id: &str) -> (valid: bool)
    ensures
        valid == spec_valid_id(id@),
{
    if !id.is_ascii() {
        proof {
            let i = choose|i: int| 0 <= i < id@.len() && !('\0' <= #[trigger] id@[i] <= '\u{7f}');
            assert(!('0' <= id@[i] <= '9'));
        }
        return false;
    }
    let len = id.unicode_len();
    if len == 0 {
        return false;
    }
    let mut value: u64 = 0;
    let mut k: usize = 0;
    while k < len
        invariant
            k <= len == id@.len(),
            id.is_ascii(),
            all_decimal(id@.take(k as int)),
            value as nat == decimal_value(id@.take(k as int)),
        decreases len - k,
    {
        let byte: u8 = id.get_ascii(k);
        let ghost c = id@[k as int];
        proof {
            assert('\0' <= c <= '\u{7f}');
            assert(id@.take(k + 1).drop_last() =~= id@.take(k as int));
            assert(id@.take(k + 1).last() == c);
        }
        if byte < 48 || byte > 57 {
            assert(!('0' <= c <= '9'));
            return false;
        }
        let digit: u64 = (byte - 48) as u64;
        if value > (u64::MAX - digit) / 10 {
            proof {
                lemma_decimal_value_grows(id@, k + 1);
            }
            return false;
        }
        value = value * 10 + digit;
        proof {
            let before = id@.take(k as int);
            let after = id@.take(k + 1);
            assert forall|i: int| 0 <= i < after.len() implies '0' <= #[trigger] after[i]
                <= '9' by {
                if i < k {
                    assert(before[i] == after[i]);
                }
            }
        }
        k += 1;
    }
    assert(id@.take(k as int) =~= id@);
    is_valid(value)
}

/// The character that writes a decimal digit.
pub open spec fn digit_char(digit: nat) -> char
    recommends
        digit < 10,
{
    if digit == 0 {
        '0'
    } else if digit == 1 {
        '1'
    } else if digit == 2 {
        '2'
    } else if digit == 3 {
        '3'
    } else if digit == 4 {
        '4'
    } else if digit == 5 {
        '5'
    } else if digit == 6 {
        '6'
    } else if digit == 7 {
        '7'
    } else if digit == 8 {
        '8'
    } else {
        '9'
    }
}

/// The decimal digits that write `n`, without leading zeros.
pub open spec fn decimal_string(n: nat) -> Seq<char>
    decreases n,
{
    if n < 10 {
        seq![digit_char(n)]
    } else {
        decimal_string(n / 10).push(digit_char(n % 10))
    }
}

/// The digits that write a number are decimal digits, and they write that
/// number.
pub proof fn lemma_decimal_string_reads_back(n: nat)
    ensures
        decimal_string(n).len() > 0,
        all_decimal(decimal_string(n)),
        decimal_value(decimal_string(n)) == n,
    decreases n,
{
    let s = decimal_string(n);
    if n < 10 {
        assert(s.drop_last() =~= Seq::<char>::empty());
        assert(decimal_value(s.drop_last()) == 0);
    } else {
        lemma_decimal_string_reads_back(n / 10);
        assert(s.drop_last() =~= decimal_string(n / 10));
        assert forall|i: int| 0 <= i < s.len() implies '0' <= #[trigger] s[i] <= '9' by {
            if i < s.len() - 1 {
                assert(s[i] == decimal_string(n / 10)[i]);
            }
        }
    }
}

/// The string that writes one decimal digit.
fn digit_str(digit: u64) -> (s: &'static str)
    requires
        digit < 10,
    ensures
        s@ == seq![digit_char(digit as nat)],
{
    proof {
        reveal_strlit("0");
        reveal_strlit("1");
        reveal_strlit("2");
        reveal_strlit("3");
        reveal_strlit("4");
        reveal_strlit("5");
        reveal_strlit("6");
        reveal_strlit("7");
        reveal_strlit("8");
        reveal_strlit("9");
    }
    let s = if digit == 0 {
        "0"
    } else if digit == 1 {
        "1"
    } else if digit == 2 {
        "2"
    } else if digit == 3 {
        "3"
    } else if digit == 4 {
        "4"
    } else if digit == 5 {
        "5"
    } else if digit == 6 {
        "6"
    } else if digit == 7 {
        "7"
    } else if digit == 8 {
        "8"
    } else {
        "9"
    };
    assert(s@ =~= seq![digit_char(digit as nat)]);
    s
}

/// The decimal digits that write `n`.
pub fn to_decimal(n: u64) -> (s: String)
    ensures
        s@ == decimal_string(n as nat),
    decreases n,
{
    if n < 10 {
        String::from_str(digit_str(n))
    } else {
        let s = to_decimal(n / 10).concat(digit_str(n % 10));
        assert(s@ =~= decimal_string((n / 10) as nat).push(digit_char((n % 10) as nat)));
        s
    }
}

/// The identifier of a lot with the base number `base`, as the string that
/// the registry keeps.
pub fn new_upl_id(base: u64) -> (id: String)
    requires
        base <= MAX_BASE,
    ensures
        id@ == decimal_string(spec_make_id(base as nat)),
        spec_valid_id(id@),
{
    proof {
        lemma_decimal_string_reads_back(spec_make_id(base as nat));
    }
    to_decimal(make_id(base))
}

/// Two different bases get different identifier strings.
pub proof fn law_upl_ids_are_distinct(a: nat, b: nat)
    requires
        a != b,
    ensures
        decimal_string(spec_make_id(a)) != decimal_string(spec_make_id(b)),
{
    law_made_ids_are_distinct(a, b);
    lemma_decimal_string_reads_back(spec_make_id(a));
    lemma_decimal_string_reads_back(spec_make_id(b));
}

/// Every base whose identifier fits in 64 bits gets an identifier that passes
/// validation.
pub proof fn law_made_ids_are_valid(u: u64)
    requires
        u <= MAX_BASE,
    ensures
        spec_make_id(u as nat) <= u64::MAX,
        spec_is_valid(spec_make_id(u as nat)),
{
    lemma_id_parts(u as nat);
}

/// Two different bases never get the same identifier.
pub proof fn law_made_ids_are_distinct(a: nat, b: nat)
    requires
        a != b,
    ensures
        spec_make_id(a) != spec_make_id(b),
{
    lemma_id_parts(a);
    lemma_id_parts(b);
}

} // verus!
