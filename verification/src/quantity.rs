//! Units in which the amount of a product is counted.

use crate::prelude::{ServiceError, ServiceErrorView, ServiceResult};
use crate::text::{spec_trim, str_eq, trim};
use vstd::prelude::*;
use vstd::string::StringExecFns;

verus! {

/// The unit of a product's amount.
#[derive(Debug, Clone, Copy, PartialEq, Eq, Structural)]
pub enum Unit {
    Piece,
    Millimeter,
    Gram,
    Milliliter,
}

/// Whether an amount is shown in the larger unit: it is a thousand or more
/// and a whole number of thousands.
pub open spec fn spec_can_transform(amount: u32) -> bool {
    amount >= 1000 && amount % 1000 == 0
}

/// Whether an amount is shown in the larger unit.
pub fn can_transform(amount: u32) -> (can: bool)
    ensures
        can == spec_can_transform(amount),
{
    amount >= 1000 && amount % 1000 == 0
}

/// The amount in the larger unit, where it is shown in that unit.
pub fn transformed(amount: u32) -> (r: Option<u32>)
    ensures
        r == if spec_can_transform(amount) {
            Some((amount / 1000) as u32)
        } else {
            None
        },
{
    if can_transform(amount) {
        Some(amount / 1000)
    } else {
        None
    }
}

impl Unit {
    /// The unit that a name without surrounding white space stands for, if any.
    pub open spec fn spec_from_name(name: Seq<char>) -> Option<Unit> {
        if name == "piece"@ || name == "db"@ {
            Some(Unit::Piece)
        } else if name == "millimeter"@ || name == "mm"@ {
            Some(Unit::Millimeter)
        } else if name == "gram"@ || name == "gr"@ || name == "g"@ {
            Some(Unit::Gram)
        } else if name == "milliliter"@ || name == "ml"@ {
            Some(Unit::Milliliter)
        } else {
            None
        }
    }

    /// What parsing a name returns: the unit it stands for, or a bad request
    /// that quotes the name.
    pub open spec fn spec_parse_result(name: Seq<char>, r: ServiceResult<Unit>) -> bool {
        match Unit::spec_from_name(name) {
            Some(unit) => r == Ok::<Unit, ServiceError>(unit),
            None => r matches Err(e) && e@ == ServiceErrorView::BadRequest(
                "Wrong unit format: "@ + name,
            ),
        }
    }

    /// The unit that `name` stands for, where `name` has no white space
    /// around it.
    pub fn from_name(name: &str) -> (r: ServiceResult<Unit>)
        ensures
            Unit::spec_parse_result(name@, r),
    {
        if str_eq(name, "piece") || str_eq(name, "db") {
            Ok(Unit::Piece)
        } else if str_eq(name, "millimeter") || str_eq(name, "mm") {
            Ok(Unit::Millimeter)
        } else if str_eq(name, "gram") || str_eq(name, "gr") || str_eq(name, "g") {
            Ok(Unit::Gram)
        } else if str_eq(name, "milliliter") || str_eq(name, "ml") {
            Ok(Unit::Milliliter)
        } else {
            let msg = String::from_str("Wrong unit format: ").concat(name);
            Err(ServiceError::BadRequest(msg))
        }
    }

    /// The unit that `from` stands for once the white space around it is
    /// taken off.
    pub fn try_from_str(from: &str) -> (r: ServiceResult<Unit>)
        ensures
            Unit::spec_parse_result(spec_trim(from@), r),
    {
        Unit::from_name(trim(from))
    }

    /// The short name of the unit.
    pub open spec fn spec_name(self) -> Seq<char> {
        match self {
            Unit::Piece => "db"@,
            Unit::Milliliter => "ml"@,
            Unit::Gram => "g"@,
            Unit::Millimeter => "mm"@,
        }
    }

    /// The short name of the unit, as it is shown.
    pub fn to_string(&self) -> (name: String)
        ensures
            name@ == self.spec_name(),
    {
        match self {
            Unit::Piece => String::from_str("db"),
            Unit::Milliliter => String::from_str("ml"),
            Unit::Gram => String::from_str("g"),
            Unit::Millimeter => String::from_str("mm"),
        }
    }

    /// The name of the unit in which an amount is shown: the larger unit
    /// where the amount was transformed, else the unit itself. Pieces have no
    /// larger unit.
    pub open spec fn spec_display_unit(self, transformed: bool) -> Seq<char> {
        if !transformed {
            self.spec_name()
        } else {
            match self {
                Unit::Piece => "db"@,
                Unit::Millimeter => "m"@,
                Unit::Gram => "kg"@,
                Unit::Milliliter => "l"@,
            }
        }
    }

    /// The name of the unit in which an amount is shown.
    pub fn to_display_unit(&self, transformed: bool) -> (name: String)
        ensures
            name@ == self.spec_display_unit(transformed),
    {
        if !transformed {
            self.to_string()
        } else {
            match self {
                Unit::Piece => self.to_string(),
                Unit::Millimeter => String::from_str("m"),
                Unit::Gram => String::from_str("kg"),
                Unit::Milliliter => String::from_str("l"),
            }
        }
    }
}

} // verus!
