//! The instruction model: every operation the decoder can produce, with the
//! operands its mnemonic takes.

use vstd::prelude::*;
use vstd::string::*;

use crate::condition::Condition;
use crate::register::{Register, RegisterPair};
use crate::text::{
    address_text, decimal, immediate_byte_text, immediate_word_text, push_address, push_decimal,
    push_immediate_byte, push_immediate_word,
};

verus! {

/// One decoded instruction.
#[derive(Copy, Clone, PartialEq, Eq, Structural, Debug)]
pub enum Instruction {
    /// Move register to register
    MOV(Register, Register),
    /// Move immediate to register
    MVI(Register, u8),
    /// Load register pair immediate
    LXI(RegisterPair, u16),
    /// Load A from memory
    LDA(u16),
    /// Store A to memory
    STA(u16),
    /// Load H:L from memory
    LHLD(u16),
    /// Store H:L to memory
    SHLD(u16),
    /// Load indirect through BC or DE
    LDAX(RegisterPair),
    /// Store indirect through BC or DE
    STAX(RegisterPair),
    /// Exchange DE and HL content
    XCHG,
    /// Add register to A
    ADD(Register),
    /// Add immediate to A
    ADI(u8),
    /// Add register to A with carry
    ADC(Register),
    /// Add immediate to A with carry
    ACI(u8),
    /// Subtract register from A
    SUB(Register),
    /// Subtract immediate from A
    SUI(u8),
    /// Subtract register from A with borrow
    SBB(Register),
    /// Subtract immediate from A with borrow
    SBI(u8),
    /// Increment register
    INR(Register),
    /// Decrement register
    DCR(Register),
    /// Increment register pair
    INX(RegisterPair),
    /// Decrement register pair
    DCX(RegisterPair),
    /// Add register pair to HL (16 bit add)
    DAD(RegisterPair),
    /// AND register with A
    ANA(Register),
    /// AND immediate with A
    ANI(u8),
    /// OR register with A
    ORA(Register),
    /// OR immediate with A
    ORI(u8),
    /// XOR register with A
    XRA(Register),
    /// XOR immediate with A
    XRI(u8),
    /// Compare register with A
    CMP(Register),
    /// Compare immediate with A
    CPI(u8),
    /// Decimal Adjust Accumulator
    DAA,
    /// Rotate A left
    RLC,
    /// Rotate A right
    RRC,
    /// Rotate A left through carry
    RAL,
    /// Rotate A right through carry
    RAR,
    /// Complement A
    CMA,
    /// Complement Carry flag
    CMC,
    /// Set Carry flag
    STC,
    /// Unconditional jump
    JMP(u16),
    /// Conditional jump
    J(Condition, u16),
    /// Unconditional subroutine call
    CALL(u16),
    /// Conditional subroutine call
    C(Condition, u16),
    /// Unconditional return from subroutine
    RET,
    /// Conditional return from subroutine
    R(Condition),
    /// Restart (Call n*8)
    RST(u8),
    /// Push register pair on the stack; `SP` names the processor status word
    PUSH(RegisterPair),
    /// Pop register pair from the stack; `SP` names the processor status word
    POP(RegisterPair),
    /// Jump to address in H:L
    PCHL,
    /// Swap H:L with top word on stack
    XTHL,
    /// Set SP to content of H:L
    SPHL,
    /// Read input port into A
    IN(u8),
    /// Write A to output port
    OUT(u8),
    /// Enable interrupts
    EI,
    /// Disable interrupts
    DI,
    /// Halt processor
    HLT,
    /// No operation
    NOP,
    /// A byte that encodes no instruction of this model
    Unknown,
}

/// The name of a pair as the operand of PUSH or POP, where `SP` stands for
/// the processor status word.
pub open spec fn stack_operand_name(pair: RegisterPair) -> Seq<char> {
    match pair {
        RegisterPair::SP => "PSW"@,
        _ => pair.name(),
    }
}

fn stack_operand_str(pair: RegisterPair) -> (name: &'static str)
    ensures
        name@ == stack_operand_name(pair),
{
    match pair {
        RegisterPair::SP => "PSW",
        _ => pair.as_str(),
    }
}

impl Instruction {
    /// The instruction in assembly text: the mnemonic, then the operands
    /// separated by commas. An immediate byte is written `#$xx`, an
    /// immediate word `#$xxxx`, an address `$xxxx`, in lower-case
    /// hexadecimal. A conditional mnemonic is the letter J, C or R followed
    /// by the condition's name.
    pub open spec fn mnemonic(self) -> Seq<char> {
        match self {
            Instruction::MOV(to, from) => "MOV "@ + to.name() + ","@ + from.name(),
            Instruction::MVI(to, value) => "MVI "@ + to.name() + ","@ + immediate_byte_text(value),
            Instruction::LXI(to, value) => "LXI "@ + to.name() + ","@ + immediate_word_text(value),
            Instruction::LDA(address) => "LDA "@ + address_text(address),
            Instruction::STA(address) => "STA "@ + address_text(address),
            Instruction::LHLD(address) => "LHLD "@ + address_text(address),
            Instruction::SHLD(address) => "SHLD "@ + address_text(address),
            Instruction::JMP(address) => "JMP "@ + address_text(address),
            Instruction::CALL(address) => "CALL "@ + address_text(address),
            Instruction::LDAX(pair) => "LDAX "@ + pair.name(),
            Instruction::STAX(pair) => "STAX "@ + pair.name(),
            Instruction::INX(pair) => "INX "@ + pair.name(),
            Instruction::DCX(pair) => "DCX "@ + pair.name(),
            Instruction::DAD(pair) => "DAD "@ + pair.name(),
            Instruction::ADD(register) => "ADD "@ + register.name(),
            Instruction::ADC(register) => "ADC "@ + register.name(),
            Instruction::SUB(register) => "SUB "@ + register.name(),
            Instruction::SBB(register) => "SBB "@ + register.name(),
            Instruction::INR(register) => "INR "@ + register.name(),
            Instruction::DCR(register) => "DCR "@ + register.name(),
            Instruction::ANA(register) => "ANA "@ + register.name(),
            Instruction::ORA(register) => "ORA "@ + register.name(),
            Instruction::XRA(register) => "XRA "@ + register.name(),
            Instruction::CMP(register) => "CMP "@ + register.name(),
            Instruction::ADI(value) => "ADI "@ + immediate_byte_text(value),
            Instruction::ACI(value) => "ACI "@ + immediate_byte_text(value),
            Instruction::SUI(value) => "SUI "@ + immediate_byte_text(value),
            Instruction::SBI(value) => "SBI "@ + immediate_byte_text(value),
            Instruction::ANI(value) => "ANI "@ + immediate_byte_text(value),
            Instruction::ORI(value) => "ORI "@ + immediate_byte_text(value),
            Instruction::XRI(value) => "XRI "@ + immediate_byte_text(value),
            Instruction::CPI(value) => "CPI "@ + immediate_byte_text(value),
            Instruction::IN(value) => "IN "@ + immediate_byte_text(value),
            Instruction::OUT(value) => "OUT "@ + immediate_byte_text(value),
            Instruction::J(condition, address) => "J"@ + condition.name() + " "@ + address_text(address),
            Instruction::C(condition, address) => "C"@ + condition.name() + " "@ + address_text(address),
            Instruction::R(condition) => "R"@ + condition.name(),
            Instruction::RST(vector) => "RST "@ + decimal(vector as nat),
            Instruction::PUSH(pair) => "PUSH "@ + stack_operand_name(pair),
            Instruction::POP(pair) => "POP "@ + stack_operand_name(pair),
            Instruction::XCHG => "XCHG"@,
            Instruction::DAA => "DAA"@,
            Instruction::RLC => "RLC"@,
            Instruction::RRC => "RRC"@,
            Instruction::RAL => "RAL"@,
            Instruction::RAR => "RAR"@,
            Instruction::CMA => "CMA"@,
            Instruction::CMC => "CMC"@,
            Instruction::STC => "STC"@,
            Instruction::RET => "RET"@,
            Instruction::PCHL => "PCHL"@,
            Instruction::XTHL => "XTHL"@,
            Instruction::SPHL => "SPHL"@,
            Instruction::EI => "EI"@,
            Instruction::DI => "DI"@,
            Instruction::HLT => "HLT"@,
            Instruction::NOP => "NOP"@,
            Instruction::Unknown => "Unknown"@,
        }
    }

    /// Renders the instruction as assembly text.
    pub fn to_string(&self) -> (text: String)
        ensures
            text@ == self.mnemonic(),
    {
        match self {
            Instruction::MOV(to, from) => {
                let mut text = String::from_str("MOV ");
                text.append(to.as_str());
                text.append(",");
                text.append(from.as_str());
                text
            },
            Instruction::MVI(to, value) => {
                let mut text = String::from_str("MVI ");
                text.append(to.as_str());
                text.append(",");
                push_immediate_byte(&mut text, *value);
                text
            },
            Instruction::LXI(to, value) => {
                let mut text = String::from_str("LXI ");
                text.append(to.as_str());
                text.append(",");
                push_immediate_word(&mut text, *value);
                text
            },
            Instruction::LDA(address) => {
                let mut text = String::from_str("LDA ");
                push_address(&mut text, *address);
                text
            },
            Instruction::STA(address) => {
                let mut text = String::from_str("STA ");
                push_address(&mut text, *address);
                text
            },
            Instruction::LHLD(address) => {
                let mut text = String::from_str("LHLD ");
                push_address(&mut text, *address);
                text
            },
            Instruction::SHLD(address) => {
                let mut text = String::from_str("SHLD ");
                push_address(&mut text, *address);
                text
            },
            Instruction::JMP(address) => {
                let mut text = String::from_str("JMP ");
                push_address(&mut text, *address);
                text
            },
            Instruction::CALL(address) => {
                let mut text = String::from_str("CALL ");
                push_address(&mut text, *address);
                text
            },
            Instruction::LDAX(pair) => {
                let mut text = String::from_str("LDAX ");
                text.append(pair.as_str());
                text
            },
            Instruction::STAX(pair) => {
                let mut text = String::from_str("STAX ");
                text.append(pair.as_str());
                text
            },
            Instruction::INX(pair) => {
                let mut text = String::from_str("INX ");
                text.append(pair.as_str());
                text
            },
            Instruction::DCX(pair) => {
                let mut text = String::from_str("DCX ");
                text.append(pair.as_str());
                text
            },
            Instruction::DAD(pair) => {
                let mut text = String::from_str("DAD ");
                text.append(pair.as_str());
                text
            },
            Instruction::ADD(register) => {
                let mut text = String::from_str("ADD ");
                text.append(register.as_str());
                text
            },
            Instruction::ADC(register) => {
                let mut text = String::from_str("ADC ");
                text.append(register.as_str());
                text
            },
            Instruction::SUB(register) => {
                let mut text = String::from_str("SUB ");
                text.append(register.as_str());
                text
            },
            Instruction::SBB(register) => {
                let mut text = String::from_str("SBB ");
                text.append(register.as_str());
                text
            },
            Instruction::INR(register) => {
                let mut text = String::from_str("INR ");
                text.append(register.as_str());
                text
            },
            Instruction::DCR(register) => {
                let mut text = String::from_str("DCR ");
                text.append(register.as_str());
                text
            },
            Instruction::ANA(register) => {
                let mut text = String::from_str("ANA ");
                text.append(register.as_str());
                text
            },
            Instruction::ORA(register) => {
                let mut text = String::from_str("ORA ");
                text.append(register.as_str());
                text
            },
            Instruction::XRA(register) => {
                let mut text = String::from_str("XRA ");
                text.append(register.as_str());
                text
            },
            Instruction::CMP(register) => {
                let mut text = String::from_str("CMP ");
                text.append(register.as_str());
                text
            },
            Instruction::ADI(value) => {
                let mut text = String::from_str("ADI ");
                push_immediate_byte(&mut text, *value);
                text
            },
            Instruction::ACI(value) => {
                let mut text = String::from_str("ACI ");
                push_immediate_byte(&mut text, *value);
                text
            },
            Instruction::SUI(value) => {
                let mut text = String::from_str("SUI ");
                push_immediate_byte(&mut text, *value);
                text
            },
            Instruction::SBI(value) => {
                let mut text = String::from_str("SBI ");
                push_immediate_byte(&mut text, *value);
                text
            },
            Instruction::ANI(value) => {
                let mut text = String::from_str("ANI ");
                push_immediate_byte(&mut text, *value);
                text
            },
            Instruction::ORI(value) => {
                let mut text = String::from_str("ORI ");
                push_immediate_byte(&mut text, *value);
                text
            },
            Instruction::XRI(value) => {
                let mut text = String::from_str("XRI ");
                push_immediate_byte(&mut text, *value);
                text
            },
            Instruction::CPI(value) => {
                let mut text = String::from_str("CPI ");
                push_immediate_byte(&mut text, *value);
                text
            },
            Instruction::IN(value) => {
                let mut text = String::from_str("IN ");
                push_immediate_byte(&mut text, *value);
                text
            },
            Instruction::OUT(value) => {
                let mut text = String::from_str("OUT ");
                push_immediate_byte(&mut text, *value);
                text
            },
            Instruction::J(condition, address) => {
                let mut text = String::from_str("J");
                text.append(condition.as_str());
                text.append(" ");
                push_address(&mut text, *address);
                text
            },
            Instruction::C(condition, address) => {
                let mut text = String::from_str("C");
                text.append(condition.as_str());
                text.append(" ");
                push_address(&mut text, *address);
                text
            },
            Instruction::R(condition) => {
                let mut text = String::from_str("R");
                text.append(condition.as_str());
                text
            },
            Instruction::RST(vector) => {
                let mut text = String::from_str("RST ");
                push_decimal(&mut text, *vector as usize);
                text
            },
            Instruction::PUSH(pair) => {
                let mut text = String::from_str("PUSH ");
                text.append(stack_operand_str(*pair));
                text
            },
            Instruction::POP(pair) => {
                let mut text = String::from_str("POP ");
                text.append(stack_operand_str(*pair));
                text
            },
            Instruction::XCHG => String::from_str("XCHG"),
            Instruction::DAA => String::from_str("DAA"),
            Instruction::RLC => String::from_str("RLC"),
            Instruction::RRC => String::from_str("RRC"),
            Instruction::RAL => String::from_str("RAL"),
            Instruction::RAR => String::from_str("RAR"),
            Instruction::CMA => String::from_str("CMA"),
            Instruction::CMC => String::from_str("CMC"),
            Instruction::STC => String::from_str("STC"),
            Instruction::RET => String::from_str("RET"),
            Instruction::PCHL => String::from_str("PCHL"),
            Instruction::XTHL => String::from_str("XTHL"),
            Instruction::SPHL => String::from_str("SPHL"),
            Instruction::EI => String::from_str("EI"),
            Instruction::DI => String::from_str("DI"),
            Instruction::HLT => String::from_str("HLT"),
            Instruction::NOP => String::from_str("NOP"),
            Instruction::Unknown => String::from_str("Unknown"),
        }
    }
}

} // verus!
