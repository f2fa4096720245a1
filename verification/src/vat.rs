//! Value added tax and the rounding of prices to whole minor units.

use crate::text::str_eq;
use vstd::prelude::*;
use vstd::string::StringExecFns;

verus! {

/// The tax class of a product.
#[derive(Debug, Clone, Copy, PartialEq, Eq, Structural)]
pub enum VAT {
    AAM,
    FAD,
    TAM,
    _5,
    _18,
    _27,
}

/// `num / den` rounded to the nearest whole number, a half rounded up.
pub open spec fn round_div(num: nat, den: nat) -> nat
    recommends
        den > 0,
{
    (2 * num + den) / (2 * den)
}

/// The number itself where it fits in 32 bits, and the largest 32-bit number
/// where it does not.
pub open spec fn saturate(x: nat) -> u32 {
    if x > u32::MAX {
        u32::MAX
    } else {
        x as u32
    }
}

/// The part of `total` that belongs to `part` units out of `whole`, rounded to
/// a whole number and capped at the largest 32-bit number. With no units in
/// the whole the part is the cap, unless nothing is to be shared.
pub open spec fn spec_share(part: u32, whole: u32, total: u32) -> u32 {
    if whole == 0 {
        if part > 0 && total > 0 {
            u32::MAX
        } else {
            0
        }
    } else {
        saturate(round_div(part as nat * total as nat, whole as nat))
    }
}

/// The part of `total` that belongs to `part` units out of `whole`.
pub fn share(part: u32, whole: u32, total: u32) -> (r: u32)
    ensures
        r == spec_share(part, whole, total),
{
    if whole == 0 {
        if part > 0 && total > 0 {
            u32::MAX
        } else {
            0
        }
    } else {
        assert(part as u128 * total as u128 <= 0xFFFF_FFFF * 0xFFFF_FFFF) by (nonlinear_arith)
            requires
                part as u128 <= 0xFFFF_FFFF,
                total as u128 <= 0xFFFF_FFFF,
        ;
        let product: u128 = part as u128 * total as u128;
        let rounded: u128 = (2 * product + whole as u128) / (2 * whole as u128);
        if rounded > u32::MAX as u128 {
            u32::MAX
        } else {
            rounded as u32
        }
    }
}

/// The whole of a total belongs to all of its units.
pub proof fn lemma_share_of_all(whole: u32, total: u32)
    requires
        whole > 0,
    ensures
        spec_share(whole, whole, total) == total,
{
    let w = whole as nat;
    let t = total as nat;
    assert((2 * (w * t) + w) / (2 * w) == t) by (nonlinear_arith)
        requires
            w > 0,
    ;
}

/// A rounded share is within half a unit of the exact quotient, as long as it
/// fits in 32 bits: twice the distance, multiplied out, is at most the whole.
pub proof fn lemma_share_is_close(part: u32, whole: u32, total: u32)
    requires
        whole > 0,
        round_div(part as nat * total as nat, whole as nat) <= u32::MAX,
    ensures
        2 * (spec_share(part, whole, total) * whole - part * total) <= whole,
        2 * (part * total - spec_share(part, whole, total) * whole) <= whole,
{
    let w = whole as int;
    let n = part as int * total as int;
    let r = (2 * n + w) / (2 * w);
    assert(0 <= n) by (nonlinear_arith)
        requires
            n == part as int * total as int,
    ;
    assert(2 * (r * w - n) <= w && 2 * (n - r * w) <= w) by (nonlinear_arith)
        requires
            w > 0,
            n >= 0,
            r == (2 * n + w) / (2 * w),
    ;
}

impl VAT {
    /// The gross price of a net price of one hundred: one hundred and the
    /// rate of the tax in percent.
    pub open spec fn spec_percent(self) -> nat {
        match self {
            VAT::AAM => 100,
            VAT::FAD => 100,
            VAT::TAM => 100,
            VAT::_5 => 105,
            VAT::_18 => 118,
            VAT::_27 => 127,
        }
    }

    /// The gross price that belongs to a net price: the net price with the
    /// tax added, rounded to a whole number and capped at the largest 32-bit
    /// number.
    pub open spec fn spec_gross(self, net: u32) -> u32 {
        saturate(round_div(net as nat * self.spec_percent(), 100))
    }

    /// The gross price of a net price of one hundred.
    pub fn percent(self) -> (p: u64)
        ensures
            p == self.spec_percent(),
    {
        match self {
            VAT::AAM => 100,
            VAT::FAD => 100,
            VAT::TAM => 100,
            VAT::_5 => 105,
            VAT::_18 => 118,
            VAT::_27 => 127,
        }
    }

    /// The gross price that belongs to the net price `net`.
    pub fn gross(self, net: u32) -> (g: u32)
        ensures
            g == self.spec_gross(net),
    {
        let scaled: u64 = net as u64 * self.percent();
        let rounded: u64 = (2 * scaled + 100) / 200;
        if rounded > u32::MAX as u64 {
            u32::MAX
        } else {
            rounded as u32
        }
    }

    /// The tax class that a name stands for, if any.
    pub open spec fn spec_from_str(name: Seq<char>) -> Option<VAT> {
        if name == "AAM"@ || name == "aam"@ {
            Some(VAT::AAM)
        } else if name == "FAD"@ || name == "fad"@ {
            Some(VAT::FAD)
        } else if name == "TAM"@ || name == "tam"@ {
            Some(VAT::TAM)
        } else if name == "5"@ {
            Some(VAT::_5)
        } else if name == "18"@ {
            Some(VAT::_18)
        } else if name == "27"@ {
            Some(VAT::_27)
        } else {
            None
        }
    }

    /// The tax class that `name` stands for; an error message where it stands
    /// for none.
    pub fn from_str(name: &str) -> (r: Result<VAT, String>)
        ensures
            match VAT::spec_from_str(name@) {
                Some(vat) => r == Ok::<VAT, String>(vat),
                None => r matches Err(msg) && msg@
                    == "Nem megfelelő Áfa formátum! 5, 18, 27, AAM, TAM, FAD"@,
            },
    {
        if str_eq(name, "AAM") || str_eq(name, "aam") {
            Ok(VAT::AAM)
        } else if str_eq(name, "FAD") || str_eq(name, "fad") {
            Ok(VAT::FAD)
        } else if str_eq(name, "TAM") || str_eq(name, "tam") {
            Ok(VAT::TAM)
        } else if str_eq(name, "5") {
            Ok(VAT::_5)
        } else if str_eq(name, "18") {
            Ok(VAT::_18)
        } else if str_eq(name, "27") {
            Ok(VAT::_27)
        } else {
            Err(String::from_str("Nem megfelelő Áfa formátum! 5, 18, 27, AAM, TAM, FAD"))
        }
    }

    /// The name of the tax class.
    pub open spec fn spec_name(self) -> Seq<char> {
        match self {
            VAT::AAM => "AAM"@,
            VAT::FAD => "FAD"@,
            VAT::TAM => "TAM"@,
            VAT::_5 => "5"@,
            VAT::_18 => "18"@,
            VAT::_27 => "27"@,
        }
    }

    /// The name of the tax class, which `from_str` reads back.
    pub fn to_string(&self) -> (name: String)
        ensures
            name@ == self.spec_name(),
    {
        match self {
            VAT::AAM => String::from_str("AAM"),
            VAT::FAD => String::from_str("FAD"),
            VAT::TAM => String::from_str("TAM"),
            VAT::_5 => String::from_str("5"),
            VAT::_18 => String::from_str("18"),
            VAT::_27 => String::from_str("27"),
        }
    }
}

impl Default for VAT {
    fn default() -> (vat: Self)
        ensures
            vat == VAT::_27,
    {
        VAT::_27
    }
}

} // verus!
