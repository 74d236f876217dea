//! The processor state as a mathematical value, and what each operation of
//! the processor means on it.

use vstd::prelude::*;
use vstd::string::*;

use crate::condition::Condition;
use crate::instruction::Instruction;
use crate::parser::{decode, lemma_decode_succeeds, operand_length, word};
use crate::register::{Register, RegisterPair};
use crate::text::{
    address_text, decimal, immediate_byte_text, push_address, push_decimal, push_immediate_byte,
};

verus! {

/// The size of the address space, in bytes.
pub const MEMORY_SIZE: usize = 0x10000;

/// `value` reduced to 8 bits.
pub open spec fn wrap8(value: int) -> u8 {
    (value % 0x100) as u8
}

/// `value` reduced to 16 bits.
pub open spec fn wrap16(value: int) -> u16 {
    (value % 0x10000) as u16
}

/// The lower eight bits of `value`.
pub open spec fn low_byte(value: u16) -> u8 {
    (value % 0x100) as u8
}

/// The upper eight bits of `value`.
pub open spec fn high_byte(value: u16) -> u8 {
    (value / 0x100) as u8
}

/// Whether bit `index` of `value` is set.
pub open spec fn bit_is_set(value: u8, index: nat) -> bool {
    (value >> index) & 1 == 1
}

/// The number of set bits among the lowest `count` bits of `value`.
pub open spec fn ones_below(value: u8, count: nat) -> nat
    decreases count,
{
    if count == 0 {
        0
    } else {
        ones_below(value, (count - 1) as nat) + if bit_is_set(value, (count - 1) as nat) {
            1nat
        } else {
            0nat
        }
    }
}

/// Whether the number of set bits of `value` is even.
pub open spec fn even_parity(value: u8) -> bool {
    ones_below(value, 8) % 2 == 0
}

/// One bit of the flag byte.
#[derive(Copy, Clone, PartialEq, Eq, PartialOrd, Ord, Structural, Debug)]
pub enum FlagMask {
    /// Sign, bit 7
    S,
    /// Zero, bit 6
    Z,
    /// Auxiliary carry, bit 4
    A,
    /// Parity, bit 2
    P,
    /// Carry, bit 0
    C,
}

impl FlagMask {
    /// The byte in which only this flag's bit is set.
    pub open spec fn bit(self) -> u8 {
        match self {
            FlagMask::S => 0x80,
            FlagMask::Z => 0x40,
            FlagMask::A => 0x10,
            FlagMask::P => 0x04,
            FlagMask::C => 0x01,
        }
    }

    /// The byte in which only this flag's bit is set.
    pub fn mask(self) -> (mask: u8)
        ensures
            mask == self.bit(),
    {
        match self {
            FlagMask::S => 0x80,
            FlagMask::Z => 0x40,
            FlagMask::A => 0x10,
            FlagMask::P => 0x04,
            FlagMask::C => 0x01,
        }
    }
}

/// Why a step of the processor did not take place. The processor state is
/// as it was before the step.
#[derive(Copy, Clone, PartialEq, Eq, Structural, Debug)]
pub enum ExecutionError {
    /// The operand-length table has no entry for the opcode at `address`.
    UnknownOpcode { address: u16, opcode: u8 },
    /// The operands of the opcode at `address` would lie beyond the end of
    /// memory.
    MemoryOverrun { address: u16, opcode: u8 },
    /// The bytes at `address` decode to no instruction.
    DecodeFailure { address: u16, opcode: u8 },
    /// The byte at `address` encodes no instruction of this model.
    UnknownInstruction { address: u16 },
    /// The instruction at `address` halts the processor.
    Halted { address: u16 },
    /// The instruction at `address` has no execution rule.
    Unimplemented { address: u16, instruction: Instruction },
}

impl ExecutionError {
    /// The error as a line of text that names the address and the opcode or
    /// instruction at fault.
    pub open spec fn message(self) -> Seq<char> {
        match self {
            ExecutionError::UnknownOpcode { address, opcode } => "unknown opcode "@
                + immediate_byte_text(opcode) + " at "@ + address_text(address),
            ExecutionError::MemoryOverrun { address, opcode } => "operands beyond the end of memory for opcode "@
                + immediate_byte_text(opcode) + " at "@ + address_text(address),
            ExecutionError::DecodeFailure { address, opcode } => "no instruction for opcode "@
                + immediate_byte_text(opcode) + " at "@ + address_text(address),
            ExecutionError::UnknownInstruction { address } => "unknown instruction at "@
                + address_text(address),
            ExecutionError::Halted { address } => "halted at "@ + address_text(address),
            ExecutionError::Unimplemented { address, instruction } => "unimplemented instruction at "@
                + address_text(address) + ": "@ + instruction.mnemonic(),
        }
    }

    /// Renders the error as a line of text.
    pub fn to_string(&self) -> (text: String)
        ensures
            text@ == self.message(),
    {
        match self {
            ExecutionError::UnknownOpcode { address, opcode } => {
                let mut text = String::from_str("unknown opcode ");
                push_immediate_byte(&mut text, *opcode);
                text.append(" at ");
                push_address(&mut text, *address);
                text
            },
            ExecutionError::MemoryOverrun { address, opcode } => {
                let mut text = String::from_str("operands beyond the end of memory for opcode ");
                push_immediate_byte(&mut text, *opcode);
                text.append(" at ");
                push_address(&mut text, *address);
                text
            },
            ExecutionError::DecodeFailure { address, opcode } => {
                let mut text = String::from_str("no instruction for opcode ");
                push_immediate_byte(&mut text, *opcode);
                text.append(" at ");
                push_address(&mut text, *address);
                text
            },
            ExecutionError::UnknownInstruction { address } => {
                let mut text = String::from_str("unknown instruction at ");
                push_address(&mut text, *address);
                text
            },
            ExecutionError::Halted { address } => {
                let mut text = String::from_str("halted at ");
                push_address(&mut text, *address);
                text
            },
            ExecutionError::Unimplemented { address, instruction } => {
                let mut text = String::from_str("unimplemented instruction at ");
                push_address(&mut text, *address);
                text.append(": ");
                text.append(instruction.to_string().as_str());
                text
            },
        }
    }
}

/// Why a program was not loaded. Memory is as it was.
#[derive(Copy, Clone, PartialEq, Eq, Structural, Debug)]
pub enum LoadError {
    /// The program has `length` bytes, more than memory holds.
    ProgramTooLarge { length: usize },
}

impl LoadError {
    /// The error as a line of text that names the program's length.
    pub open spec fn message(self) -> Seq<char> {
        match self {
            LoadError::ProgramTooLarge { length } => "program too large for memory: "@ + decimal(
                length as nat,
            ) + " bytes"@,
        }
    }

    /// Renders the error as a line of text.
    pub fn to_string(&self) -> (text: String)
        ensures
            text@ == self.message(),
    {
        match self {
            LoadError::ProgramTooLarge { length } => {
                let mut text = String::from_str("program too large for memory: ");
                push_decimal(&mut text, *length);
                text.append(" bytes");
                text
            },
        }
    }
}

/// The processor state: registers, flag byte, stack pointer, program counter
/// and memory.
pub struct MachineState {
    pub a: u8,
    pub b: u8,
    pub c: u8,
    pub d: u8,
    pub e: u8,
    pub h: u8,
    pub l: u8,
    /// Bit 7 sign, bit 6 zero, bit 4 auxiliary carry, bit 2 parity, bit 0
    /// carry.
    pub flags: u8,
    pub stack_pointer: u16,
    pub program_counter: u16,
    pub memory: Seq<u8>,
}

/// Whether `instruction` moves a register pair to or from the stack, so
/// that its operand `SP` names the processor status word.
pub open spec fn uses_status_word(instruction: Instruction) -> bool {
    instruction is PUSH || instruction is POP
}

impl MachineState {
    /// Memory holds exactly the address space.
    pub open spec fn well_formed(self) -> bool {
        self.memory.len() == MEMORY_SIZE
    }

    /// The state after reset: registers, flags and memory zero, the stack
    /// pointer at the top of memory, the program counter at address zero.
    pub open spec fn initial() -> MachineState {
        MachineState {
            a: 0,
            b: 0,
            c: 0,
            d: 0,
            e: 0,
            h: 0,
            l: 0,
            flags: 0,
            stack_pointer: 0xffff,
            program_counter: 0,
            memory: Seq::new(MEMORY_SIZE as nat, |i: int| 0u8),
        }
    }

    /// The address held in H:L.
    pub open spec fn hl(self) -> u16 {
        word(self.l, self.h)
    }

    /// The byte that `register` names; for `M`, the byte in memory at the
    /// address held in H:L.
    pub open spec fn register(self, register: Register) -> u8 {
        match register {
            Register::A => self.a,
            Register::B => self.b,
            Register::C => self.c,
            Register::D => self.d,
            Register::E => self.e,
            Register::H => self.h,
            Register::L => self.l,
            Register::M => self.memory[self.hl() as int],
        }
    }

    /// The state with `value` in `register`; for `M`, in memory at the
    /// address held in H:L.
    pub open spec fn with_register(self, register: Register, value: u8) -> MachineState {
        match register {
            Register::A => MachineState { a: value, ..self },
            Register::B => MachineState { b: value, ..self },
            Register::C => MachineState { c: value, ..self },
            Register::D => MachineState { d: value, ..self },
            Register::E => MachineState { e: value, ..self },
            Register::H => MachineState { h: value, ..self },
            Register::L => MachineState { l: value, ..self },
            Register::M => MachineState {
                memory: self.memory.update(self.hl() as int, value),
                ..self
            },
        }
    }

    /// The processor status word: the flag byte in the upper eight bits, the
    /// accumulator in the lower eight.
    pub open spec fn status_word(self) -> u16 {
        word(self.a, self.flags)
    }

    /// The 16-bit value that `pair` names while `instruction` executes. For
    /// BC, DE and HL the first register gives the upper eight bits. `SP` is
    /// the stack pointer, except under PUSH and POP, where it is the
    /// processor status word.
    pub open spec fn pair(self, pair: RegisterPair, instruction: Instruction) -> u16 {
        match pair {
            RegisterPair::BC => word(self.c, self.b),
            RegisterPair::DE => word(self.e, self.d),
            RegisterPair::HL => word(self.l, self.h),
            RegisterPair::SP => if uses_status_word(instruction) {
                self.status_word()
            } else {
                self.stack_pointer
            },
        }
    }

    /// The state with `value` in `pair`, read as `pair` reads it.
    pub open spec fn with_pair(
        self,
        pair: RegisterPair,
        value: u16,
        instruction: Instruction,
    ) -> MachineState {
        match pair {
            RegisterPair::BC => MachineState { b: high_byte(value), c: low_byte(value), ..self },
            RegisterPair::DE => MachineState { d: high_byte(value), e: low_byte(value), ..self },
            RegisterPair::HL => MachineState { h: high_byte(value), l: low_byte(value), ..self },
            RegisterPair::SP => if uses_status_word(instruction) {
                MachineState { flags: high_byte(value), a: low_byte(value), ..self }
            } else {
                MachineState { stack_pointer: value, ..self }
            },
        }
    }

    /// Whether the flag is set.
    pub open spec fn flag(self, flag: FlagMask) -> bool {
        self.flags & flag.bit() != 0
    }

    /// The state with the flag set and every other flag as it was.
    pub open spec fn with_flag(self, flag: FlagMask) -> MachineState {
        MachineState { flags: self.flags | flag.bit(), ..self }
    }

    /// The state with the flag cleared and every other flag as it was.
    pub open spec fn without_flag(self, flag: FlagMask) -> MachineState {
        MachineState { flags: self.flags & !flag.bit(), ..self }
    }

    /// The state with the flag set if `on`, cleared if not.
    pub open spec fn with_flag_value(self, flag: FlagMask, on: bool) -> MachineState {
        if on {
            self.with_flag(flag)
        } else {
            self.without_flag(flag)
        }
    }

    /// The state after an arithmetic result `value`: zero is set exactly if
    /// `value` is zero, sign exactly if bit 7 of `value` is set, parity
    /// exactly if `value` has an even number of set bits. Carry and
    /// auxiliary carry stay as they were: this model keeps the auxiliary
    /// carry bit but never computes it.
    pub open spec fn with_arithmetic_flags(self, value: u8) -> MachineState {
        self.with_flag_value(FlagMask::Z, value == 0).with_flag_value(
            FlagMask::S,
            value >= 0x80,
        ).with_flag_value(FlagMask::P, even_parity(value))
    }

    /// Whether `condition` holds of the flags.
    pub open spec fn condition_holds(self, condition: Condition) -> bool {
        match condition {
            Condition::NZ => !self.flag(FlagMask::Z),
            Condition::Z => self.flag(FlagMask::Z),
            Condition::NC => !self.flag(FlagMask::C),
            Condition::C => self.flag(FlagMask::C),
            Condition::PO => !self.flag(FlagMask::P),
            Condition::PE => self.flag(FlagMask::P),
            Condition::P => !self.flag(FlagMask::S),
            Condition::M => self.flag(FlagMask::S),
        }
    }

    /// The state after pushing `value`: the stack pointer is lower by two,
    /// the low byte of `value` lies at the new stack pointer and the high
    /// byte one above it. Addresses wrap around at the end of the 16-bit
    /// address space.
    pub open spec fn push16(self, value: u16) -> MachineState {
        let top = wrap16(self.stack_pointer - 2);
        MachineState {
            stack_pointer: top,
            memory: self.memory.update(top as int, low_byte(value)).update(
                wrap16(top + 1) as int,
                high_byte(value),
            ),
            ..self
        }
    }

    /// The 16-bit value on top of the stack: low byte at the stack pointer,
    /// high byte one above it.
    pub open spec fn top16(self) -> u16 {
        word(
            self.memory[self.stack_pointer as int],
            self.memory[wrap16(self.stack_pointer + 1) as int],
        )
    }

    /// The state after popping a 16-bit value: the stack pointer is higher
    /// by two, wrapping around at the end of the address space.
    pub open spec fn pop16(self) -> MachineState {
        MachineState { stack_pointer: wrap16(self.stack_pointer + 2), ..self }
    }

    /// The state with the program counter at `address`.
    pub open spec fn at(self, address: u16) -> MachineState {
        MachineState { program_counter: address, ..self }
    }

    /// The state with `program` in memory from address zero on and the rest
    /// of memory as it was.
    pub open spec fn with_program(self, program: Seq<u8>) -> MachineState
        recommends
            program.len() <= self.memory.len(),
    {
        MachineState {
            memory: program + self.memory.subrange(program.len() as int, self.memory.len() as int),
            ..self
        }
    }

    /// What executing `instruction` does to the state. The program counter
    /// is at the instruction; `next` is the address after it. A jump, a
    /// call or a return whose condition holds sets the program counter to
    /// its target, every other instruction to `next`.
    ///
    /// HLT stops the processor: it is reported as `Halted` and the program
    /// counter stays at it. An instruction without a rule here is reported
    /// as `Unimplemented`.
    pub open spec fn execute(self, instruction: Instruction, next: u16) -> Result<
        MachineState,
        ExecutionError,
    > {
        match instruction {
            Instruction::NOP => Ok(self.at(next)),
            Instruction::JMP(address) => Ok(self.at(address)),
            Instruction::LXI(pair, value) => Ok(self.with_pair(pair, value, instruction).at(next)),
            Instruction::MVI(register, value) => Ok(self.with_register(register, value).at(next)),
            Instruction::CPI(value) => Ok(
                self.with_arithmetic_flags(wrap8(self.a - value)).at(next),
            ),
            Instruction::J(condition, address) => Ok(
                self.at(
                    if self.condition_holds(condition) {
                        address
                    } else {
                        next
                    },
                ),
            ),
            Instruction::POP(pair) => Ok(
                self.pop16().with_pair(pair, self.top16(), instruction).at(next),
            ),
            Instruction::CALL(address) => Ok(self.push16(next).at(address)),
            Instruction::RET => Ok(self.pop16().at(self.top16())),
            Instruction::LDAX(RegisterPair::BC) | Instruction::LDAX(RegisterPair::DE) => Ok(
                self.with_register(
                    Register::A,
                    self.memory[self.pair(instruction->LDAX_0, instruction) as int],
                ).at(next),
            ),
            Instruction::MOV(to, from) => Ok(self.with_register(to, self.register(from)).at(next)),
            Instruction::INX(pair) => Ok(
                self.with_pair(pair, wrap16(self.pair(pair, instruction) + 1), instruction).at(
                    next,
                ),
            ),
            Instruction::DCR(register) => {
                let result = wrap8(self.register(register) - 1);
                Ok(self.with_arithmetic_flags(result).with_register(register, result).at(next))
            },
            Instruction::HLT => Err(ExecutionError::Halted { address: self.program_counter }),
            Instruction::Unknown => Err(
                ExecutionError::UnknownInstruction { address: self.program_counter },
            ),
            _ => Err(
                ExecutionError::Unimplemented { address: self.program_counter, instruction },
            ),
        }
    }

    /// One fetch-decode-execute cycle: the opcode at the program counter
    /// gives the number of operand bytes by the operand-length table, the
    /// opcode and its operands are decoded, and the instruction is executed.
    pub open spec fn step(self) -> Result<MachineState, ExecutionError> {
        let address = self.program_counter;
        let opcode = self.memory[address as int];
        match operand_length(opcode) {
            None => Err(ExecutionError::UnknownOpcode { address, opcode }),
            Some(count) => if address + count >= self.memory.len() {
                Err(ExecutionError::MemoryOverrun { address, opcode })
            } else {
                match decode(self.memory.subrange(address as int, address + 1 + count)) {
                    None => Err(ExecutionError::DecodeFailure { address, opcode }),
                    Some(instruction) => self.execute(instruction, wrap16(address + 1 + count)),
                }
            },
        }
    }
}

/// Setting or clearing one bit of a byte changes that bit and no other of
/// the five flag bits.
proof fn lemma_flag_bits(flags: u8, bit: u8, other: u8)
    by (bit_vector)
    requires
        bit == 0x80 || bit == 0x40 || bit == 0x10 || bit == 0x04 || bit == 0x01,
        other == 0x80 || other == 0x40 || other == 0x10 || other == 0x04 || other == 0x01,
    ensures
        (flags | bit) & bit != 0,
        (flags & !bit) & bit == 0,
        other != bit ==> (flags | bit) & other == flags & other,
        other != bit ==> (flags & !bit) & other == flags & other,
{
}

/// Setting a flag sets it, clearing a flag clears it, and either leaves
/// every other flag as it was.
pub proof fn lemma_flag_updates(state: MachineState, flag: FlagMask, other: FlagMask)
    ensures
        state.with_flag(flag).flag(flag),
        !state.without_flag(flag).flag(flag),
        other != flag ==> state.with_flag(flag).flag(other) == state.flag(other),
        other != flag ==> state.without_flag(flag).flag(other) == state.flag(other),
{
    lemma_flag_bits(state.flags, flag.bit(), other.bit());
}

/// After an arithmetic result, zero, sign and parity say what the result
/// is, and carry and auxiliary carry are as before. Nothing but the flag
/// byte changes.
pub proof fn lemma_arithmetic_flags(state: MachineState, value: u8)
    ensures
        state.with_arithmetic_flags(value).flag(FlagMask::Z) == (value == 0),
        state.with_arithmetic_flags(value).flag(FlagMask::S) == (value >= 0x80),
        state.with_arithmetic_flags(value).flag(FlagMask::P) == even_parity(value),
        state.with_arithmetic_flags(value).flag(FlagMask::C) == state.flag(FlagMask::C),
        state.with_arithmetic_flags(value).flag(FlagMask::A) == state.flag(FlagMask::A),
        state.with_arithmetic_flags(value) == (MachineState {
            flags: state.with_arithmetic_flags(value).flags,
            ..state
        }),
{
    let zero = state.with_flag_value(FlagMask::Z, value == 0);
    let sign = zero.with_flag_value(FlagMask::S, value >= 0x80);
    lemma_flag_updates(state, FlagMask::Z, FlagMask::S);
    lemma_flag_updates(state, FlagMask::Z, FlagMask::P);
    lemma_flag_updates(state, FlagMask::Z, FlagMask::C);
    lemma_flag_updates(state, FlagMask::Z, FlagMask::A);
    lemma_flag_updates(zero, FlagMask::S, FlagMask::Z);
    lemma_flag_updates(zero, FlagMask::S, FlagMask::P);
    lemma_flag_updates(zero, FlagMask::S, FlagMask::C);
    lemma_flag_updates(zero, FlagMask::S, FlagMask::A);
    lemma_flag_updates(sign, FlagMask::P, FlagMask::Z);
    lemma_flag_updates(sign, FlagMask::P, FlagMask::S);
    lemma_flag_updates(sign, FlagMask::P, FlagMask::C);
    lemma_flag_updates(sign, FlagMask::P, FlagMask::A);
}

/// Of the two conditions that test one flag, exactly one holds.
pub proof fn lemma_conditions_complement(state: MachineState)
    ensures
        state.condition_holds(Condition::NZ) != state.condition_holds(Condition::Z),
        state.condition_holds(Condition::NC) != state.condition_holds(Condition::C),
        state.condition_holds(Condition::PO) != state.condition_holds(Condition::PE),
        state.condition_holds(Condition::P) != state.condition_holds(Condition::M),
{
}

/// A value that was pushed is on top of the stack, and popping it brings
/// the stack pointer back to where it was before the push.
pub proof fn lemma_push_then_pop(state: MachineState, value: u16)
    requires
        state.well_formed(),
    ensures
        state.push16(value).top16() == value,
        state.push16(value).pop16().stack_pointer == state.stack_pointer,
        state.push16(value).well_formed(),
{
}

/// A register holds what was last written to it.
pub proof fn lemma_register_read_after_write(state: MachineState, register: Register, value: u8)
    requires
        state.well_formed(),
    ensures
        state.with_register(register, value).register(register) == value,
        state.with_register(register, value).well_formed(),
{
}

/// A register pair holds what was last written to it, seen by the same
/// instruction.
pub proof fn lemma_pair_read_after_write(
    state: MachineState,
    pair: RegisterPair,
    value: u16,
    instruction: Instruction,
)
    ensures
        state.with_pair(pair, value, instruction).pair(pair, instruction) == value,
{
}

/// A step never fails for want of an instruction: the bytes that the
/// operand-length table cuts out for an opcode always decode.
pub proof fn lemma_step_decodes(state: MachineState)
    requires
        state.well_formed(),
    ensures
        !(state.step() is Err && state.step()->Err_0 is DecodeFailure),
{
    let address = state.program_counter;
    let opcode = state.memory[address as int];
    if let Some(count) = operand_length(opcode) {
        if address + count < state.memory.len() {
            lemma_decode_succeeds(state.memory.subrange(address as int, address + 1 + count));
        }
    }
}

/// Memory keeps its size through every step of the processor.
pub proof fn lemma_step_keeps_memory_size(state: MachineState)
    requires
        state.well_formed(),
    ensures
        state.step() matches Ok(after) ==> after.well_formed(),
{
}

} // verus!