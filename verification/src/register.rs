//! Names of the 8-bit registers and of the 16-bit register pairs.

use vstd::prelude::*;
use vstd::std_specs::convert::TryFromSpecImpl;
use vstd::string::*;

verus! {

/// An 8-bit operand selector: seven physical registers and `M`, which stands
/// for the byte in memory at the address held in `H:L`.
#[derive(Copy, Clone, PartialEq, Eq, PartialOrd, Ord, Structural, Debug)]
pub enum Register {
    A,
    B,
    C,
    D,
    E,
    H,
    L,
    M,
}

/// A 16-bit operand selector.
#[derive(Copy, Clone, PartialEq, Eq, PartialOrd, Ord, Structural, Debug)]
pub enum RegisterPair {
    /// B:C as 16 bit register
    BC,
    /// D:E as 16 bit register
    DE,
    /// H:L as 16 bit register
    HL,
    /// Stack pointer; as the operand of PUSH and POP it names the processor
    /// status word instead.
    SP,
}

impl Register {
    /// The register that a 3-bit selector names: 0=B, 1=C, 2=D, 3=E, 4=H,
    /// 5=L, 6=M, 7=A. No register for any other number.
    pub open spec fn of_code(code: int) -> Option<Register> {
        if code == 0 {
            Some(Register::B)
        } else if code == 1 {
            Some(Register::C)
        } else if code == 2 {
            Some(Register::D)
        } else if code == 3 {
            Some(Register::E)
        } else if code == 4 {
            Some(Register::H)
        } else if code == 5 {
            Some(Register::L)
        } else if code == 6 {
            Some(Register::M)
        } else if code == 7 {
            Some(Register::A)
        } else {
            None
        }
    }

    /// The register's name in assembly text.
    pub open spec fn name(self) -> Seq<char> {
        match self {
            Register::A => "A"@,
            Register::B => "B"@,
            Register::C => "C"@,
            Register::D => "D"@,
            Register::E => "E"@,
            Register::H => "H"@,
            Register::L => "L"@,
            Register::M => "M"@,
        }
    }

    /// The register's name as a static string slice.
    pub fn as_str(&self) -> (s: &'static str)
        ensures
            s@ == self.name(),
    {
        match self {
            Register::A => "A",
            Register::B => "B",
            Register::C => "C",
            Register::D => "D",
            Register::E => "E",
            Register::H => "H",
            Register::L => "L",
            Register::M => "M",
        }
    }

    /// The register's name as an owned string.
    pub fn to_string(&self) -> (s: String)
        ensures
            s@ == self.name(),
    {
        String::from_str(self.as_str())
    }
}

impl TryFromSpecImpl<u8> for Register {
    open spec fn obeys_try_from_spec() -> bool {
        true
    }

    open spec fn try_from_spec(value: u8) -> Result<Register, &'static str> {
        match Register::of_code(value as int) {
            Some(register) => Ok(register),
            None => Err("Invalid register reference"),
        }
    }
}

impl TryFrom<u8> for Register {
    type Error = &'static str;

    /// Decodes a 3-bit register selector; numbers above 7 are refused.
    fn try_from(value: u8) -> (r: Result<Register, &'static str>)
        ensures
            r is Ok <==> value < 8,
            r matches Ok(register) ==> Register::of_code(value as int) == Some(register),
    {
        match value {
            0 => Ok(Register::B),
            1 => Ok(Register::C),
            2 => Ok(Register::D),
            3 => Ok(Register::E),
            4 => Ok(Register::H),
            5 => Ok(Register::L),
            6 => Ok(Register::M),
            7 => Ok(Register::A),
            _ => Err("Invalid register reference"),
        }
    }
}

impl RegisterPair {
    /// The pair that a 2-bit selector names: 0=BC, 1=DE, 2=HL, 3=SP. No pair
    /// for any other number.
    pub open spec fn of_code(code: int) -> Option<RegisterPair> {
        if code == 0 {
            Some(RegisterPair::BC)
        } else if code == 1 {
            Some(RegisterPair::DE)
        } else if code == 2 {
            Some(RegisterPair::HL)
        } else if code == 3 {
            Some(RegisterPair::SP)
        } else {
            None
        }
    }

    /// The pair's name in assembly text: one letter for BC, DE and HL, the
    /// full name for SP.
    pub open spec fn name(self) -> Seq<char> {
        match self {
            RegisterPair::BC => "B"@,
            RegisterPair::DE => "D"@,
            RegisterPair::HL => "H"@,
            RegisterPair::SP => "SP"@,
        }
    }

    /// The pair's name as a static string slice.
    pub fn as_str(&self) -> (s: &'static str)
        ensures
            s@ == self.name(),
    {
        match self {
            RegisterPair::BC => "B",
            RegisterPair::DE => "D",
            RegisterPair::HL => "H",
            RegisterPair::SP => "SP",
        }
    }

    /// The pair's name as an owned string.
    pub fn to_string(&self) -> (s: String)
        ensures
            s@ == self.name(),
    {
        String::from_str(self.as_str())
    }
}

impl TryFromSpecImpl<u8> for RegisterPair {
    open spec fn obeys_try_from_spec() -> bool {
        true
    }

    open spec fn try_from_spec(value: u8) -> Result<RegisterPair, &'static str> {
        match RegisterPair::of_code(value as int) {
            Some(pair) => Ok(pair),
            None => Err("Invalid register pair reference"),
        }
    }
}

impl TryFrom<u8> for RegisterPair {
    type Error = &'static str;

    /// Decodes a 2-bit register pair selector; numbers above 3 are refused.
    fn try_from(value: u8) -> (r: Result<RegisterPair, &'static str>)
        ensures
            r is Ok <==> value < 4,
            r matches Ok(pair) ==> RegisterPair::of_code(value as int) == Some(pair),
    {
        match value {
            0 => Ok(RegisterPair::BC),
            1 => Ok(RegisterPair::DE),
            2 => Ok(RegisterPair::HL),
            3 => Ok(RegisterPair::SP),
            _ => Err("Invalid register pair reference"),
        }
    }
}

} // verus!
