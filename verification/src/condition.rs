//! The eight conditions that qualify jumps, calls and returns.

use vstd::prelude::*;
use vstd::std_specs::convert::TryFromSpecImpl;
use vstd::string::*;

verus! {

/// A test over one flag bit.
#[derive(Copy, Clone, PartialEq, Eq, PartialOrd, Ord, Structural, Debug)]
pub enum Condition {
    /// Zero flag not set
    NZ,
    /// Zero flag set
    Z,
    /// Carry flag not set
    NC,
    /// Carry flag set
    C,
    /// Parity flag not set (odd)
    PO,
    /// Parity flag set (even)
    PE,
    /// Sign flag not set (positive)
    P,
    /// Sign flag set (minus)
    M,
}

impl Condition {
    /// The condition that a 3-bit selector names: 0=NZ, 1=Z, 2=NC, 3=C,
    /// 4=PO, 5=PE, 6=P, 7=M. No condition for any other number.
    pub open spec fn of_code(code: int) -> Option<Condition> {
        if code == 0 {
            Some(Condition::NZ)
        } else if code == 1 {
            Some(Condition::Z)
        } else if code == 2 {
            Some(Condition::NC)
        } else if code == 3 {
            Some(Condition::C)
        } else if code == 4 {
            Some(Condition::PO)
        } else if code == 5 {
            Some(Condition::PE)
        } else if code == 6 {
            Some(Condition::P)
        } else if code == 7 {
            Some(Condition::M)
        } else {
            None
        }
    }

    /// The condition's name in assembly text, as it follows the letter of a
    /// conditional mnemonic.
    pub open spec fn name(self) -> Seq<char> {
        match self {
            Condition::NZ => "NZ"@,
            Condition::Z => "Z"@,
            Condition::NC => "NC"@,
            Condition::C => "C"@,
            Condition::PO => "PO"@,
            Condition::PE => "PE"@,
            Condition::P => "P"@,
            Condition::M => "M"@,
        }
    }

    /// The condition's name as a static string slice.
    pub fn as_str(&self) -> (s: &'static str)
        ensures
            s@ == self.name(),
    {
        match self {
            Condition::NZ => "NZ",
            Condition::Z => "Z",
            Condition::NC => "NC",
            Condition::C => "C",
            Condition::PO => "PO",
            Condition::PE => "PE",
            Condition::P => "P",
            Condition::M => "M",
        }
    }

    /// The condition's name as an owned string.
    pub fn to_string(&self) -> (s: String)
        ensures
            s@ == self.name(),
    {
        String::from_str(self.as_str())
    }
}

impl TryFromSpecImpl<u8> for Condition {
    open spec fn obeys_try_from_spec() -> bool {
        true
    }

    open spec fn try_from_spec(value: u8) -> Result<Condition, &'static str> {
        match Condition::of_code(value as int) {
            Some(condition) => Ok(condition),
            None => Err("Invalid condition code"),
        }
    }
}

impl TryFrom<u8> for Condition {
    type Error = &'static str;

    /// Decodes a 3-bit condition selector; numbers above 7 are refused.
    fn try_from(value: u8) -> (r: Result<Condition, &'static str>)
        ensures
            r is Ok <==> value < 8,
            r matches Ok(condition) ==> Condition::of_code(value as int) == Some(condition),
    {
        match value {
            0 => Ok(Condition::NZ),
            1 => Ok(Condition::Z),
            2 => Ok(Condition::NC),
            3 => Ok(Condition::C),
            4 => Ok(Condition::PO),
            5 => Ok(Condition::PE),
            6 => Ok(Condition::P),
            7 => Ok(Condition::M),
            _ => Err("Invalid condition code"),
        }
    }
}

} // verus!
