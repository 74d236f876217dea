//! The execution engine: the processor state in executable form, and the
//! fetch-decode-execute cycle on it.

use vstd::prelude::*;
use vstd::slice::slice_subrange;

use crate::condition::Condition;
use crate::instruction::Instruction;
use crate::machine::{
    even_parity, lemma_flag_updates, ones_below, wrap8, ExecutionError, FlagMask, LoadError,
    MachineState, MEMORY_SIZE,
};
use crate::parser::InstructionParser;
use crate::register::{Register, RegisterPair};

verus! {

/// The processor: registers, stack pointer, program counter and 64 KiB of
/// memory.
pub struct CPU {
    /// Registers stored in this order:
    ///
    /// `[Flags, A, C, B, E, D, L, H]`
    registers: [u8; 8],
    stack_pointer: u16,
    program_counter: u16,
    memory: Vec<u8>,
}

impl View for CPU {
    type V = MachineState;

    closed spec fn view(&self) -> MachineState {
        MachineState {
            flags: self.registers@[0],
            a: self.registers@[1],
            c: self.registers@[2],
            b: self.registers@[3],
            e: self.registers@[4],
            d: self.registers@[5],
            l: self.registers@[6],
            h: self.registers@[7],
            stack_pointer: self.stack_pointer,
            program_counter: self.program_counter,
            memory: self.memory@,
        }
    }
}

/// How shifts and masks on 16-bit values relate to their two bytes.
proof fn lemma_word_bytes(value: u16, low: u8, high: u8)
    by (bit_vector)
    ensures
        value & 0x00ff == value % 0x100,
        (value >> 8) & 0xff == value / 0x100,
        ((high as u16) << 8) | (low as u16) == (high as u16) * 256 + (low as u16),
{
}

/// How the moving mask of the parity count relates to the bits it tests.
proof fn lemma_mask_bit(value: u8, index: u8)
    by (bit_vector)
    requires
        index < 8,
    ensures
        (value & (1u8 << index) != 0) == ((value >> index) & 1 == 1),
        index < 7 ==> (1u8 << index) << 1u8 == 1u8 << ((index + 1) as u8),
        1u8 << 0u8 == 1u8,
        (value & 0x80 != 0) == (value >= 0x80),
{
}

impl CPU {
    #[verifier::type_invariant]
    spec fn memory_is_whole(self) -> bool {
        self.memory@.len() == MEMORY_SIZE
    }

    /// A processor after reset, with zeroed memory.
    pub fn new() -> (cpu: CPU)
        ensures
            cpu@ == MachineState::initial(),
            cpu@.well_formed(),
    {
        let mut memory: Vec<u8> = Vec::with_capacity(MEMORY_SIZE);
        memory.resize(MEMORY_SIZE, 0);
        let cpu = CPU { registers: [0;8], stack_pointer: 0xffff, program_counter: 0, memory };
        assert(cpu@.memory =~= MachineState::initial().memory);
        cpu
    }

    /// The slot of `register` in the register array; `M` has none.
    spec fn slot(register: Register) -> int {
        match register {
            Register::A => 1,
            Register::C => 2,
            Register::B => 3,
            Register::E => 4,
            Register::D => 5,
            Register::L => 6,
            Register::H => 7,
            Register::M => 8,
        }
    }

    /// The slot of a physical register in the register array. `M` has none.
    fn register_to_internal_index(&self, register: Register) -> (index: usize)
        requires
            register != Register::M,
        ensures
            index == Self::slot(register),
            1 <= index < 8,
    {
        match register {
            Register::A => 1,
            Register::C => 2,
            Register::B => 3,
            Register::E => 4,
            Register::D => 5,
            Register::L => 6,
            _ => 7,
        }
    }

    /// The address held in H:L.
    fn hl(&self) -> (address: u16)
        ensures
            address == self@.hl(),
    {
        proof {
            lemma_word_bytes(0, self.registers[6], self.registers[7]);
        }
        ((self.registers[7] as u16) << 8) | (self.registers[6] as u16)
    }

    /// Reads a register; `M` reads memory at the address held in H:L.
    pub fn register(&self, register: Register) -> (value: u8)
        ensures
            value == self@.register(register),
    {
        proof {
            use_type_invariant(self);
        }
        if register == Register::M {
            let addr = self.hl();
            return self.memory[addr as usize];
        }
        self.registers[self.register_to_internal_index(register)]
    }

    /// Writes a register; `M` writes memory at the address held in H:L.
    pub fn set_register(&mut self, register: Register, value: u8)
        ensures
            final(self)@ == old(self)@.with_register(register, value),
            final(self)@.well_formed(),
    {
        proof {
            use_type_invariant(&*self);
        }
        if register == Register::M {
            let addr = self.hl();
            self.memory[addr as usize] = value;
            return ;
        }
        let index = self.register_to_internal_index(register);
        self.registers[index] = value;
    }

    /// Reads a register pair as `insn` sees it: BC, DE and HL with the
    /// first register in the upper eight bits; `SP` as the stack pointer,
    /// or under PUSH and POP as the processor status word, flags in the
    /// upper eight bits and accumulator in the lower.
    pub fn get_register_pair(&self, pair: RegisterPair, insn: &Instruction) -> (value: u16)
        ensures
            value == self@.pair(pair, *insn),
    {
        let (high, low) = match pair {
            RegisterPair::SP => match insn {
                Instruction::POP(_) | Instruction::PUSH(_) => (self.registers[0], self.registers[1]),
                _ => {
                    return self.stack_pointer;
                },
            },
            RegisterPair::DE => (self.registers[5], self.registers[4]),
            RegisterPair::HL => (self.registers[7], self.registers[6]),
            RegisterPair::BC => (self.registers[3], self.registers[2]),
        };
        proof {
            lemma_word_bytes(0, low, high);
        }
        ((high as u16) << 8) | (low as u16)
    }

    /// Writes a register pair as `insn` sees it; the inverse of
    /// `get_register_pair`.
    pub fn set_register_pair(&mut self, pair: RegisterPair, value: u16, insn: &Instruction)
        ensures
            final(self)@ == old(self)@.with_pair(pair, value, *insn),
            final(self)@.well_formed(),
    {
        proof {
            use_type_invariant(&*self);
            lemma_word_bytes(value, 0, 0);
        }
        let low_byte = (value & 0x00ff) as u8;
        let high_byte = ((value >> 8) & 0xff) as u8;
        let (high_index, low_index): (usize, usize) = match pair {
            RegisterPair::SP => match insn {
                Instruction::POP(_) | Instruction::PUSH(_) => (0, 1),
                _ => {
                    self.stack_pointer = value;
                    return ;
                },
            },
            RegisterPair::DE => (5, 4),
            RegisterPair::HL => (7, 6),
            RegisterPair::BC => (3, 2),
        };
        self.registers[high_index] = high_byte;
        self.registers[low_index] = low_byte;
    }

    /// Whether the flag is set.
    pub fn get_flag(&self, flag_mask: FlagMask) -> (set: bool)
        ensures
            set == self@.flag(flag_mask),
    {
        (self.registers[0] & flag_mask.mask()) != 0
    }

    /// Whether `condition` holds of the flags: NZ and Z test the zero flag,
    /// NC and C the carry flag, PO and PE the parity flag, P and M the sign
    /// flag; the first of each two holds when the flag is clear.
    pub fn verify_condition(&self, condition: Condition) -> (holds: bool)
        ensures
            holds == self@.condition_holds(condition),
    {
        match condition {
            Condition::NZ => !self.get_flag(FlagMask::Z),
            Condition::Z => self.get_flag(FlagMask::Z),
            Condition::NC => !self.get_flag(FlagMask::C),
            Condition::C => self.get_flag(FlagMask::C),
            Condition::PO => !self.get_flag(FlagMask::P),
            Condition::PE => self.get_flag(FlagMask::P),
            Condition::P => !self.get_flag(FlagMask::S),
            Condition::M => self.get_flag(FlagMask::S),
        }
    }

    /// Sets the flag; the other flags stay.
    pub fn set_flag(&mut self, flag_mask: FlagMask)
        ensures
            final(self)@ == old(self)@.with_flag(flag_mask),
            final(self)@.well_formed(),
            final(self)@.flag(flag_mask),
            forall|other: FlagMask|
                other != flag_mask ==> final(self)@.flag(other) == old(self)@.flag(other),
    {
        proof {
            use_type_invariant(&*self);
            assert forall|other: FlagMask|
                other != flag_mask implies self@.with_flag(flag_mask).flag(other) == self@.flag(
                other,
            ) by {
                lemma_flag_updates(self@, flag_mask, other);
            }
            lemma_flag_updates(self@, flag_mask, flag_mask);
        }
        let flag_byte = self.registers[0];
        self.registers[0] = flag_byte | flag_mask.mask();
    }

    /// Clears the flag; the other flags stay.
    pub fn unset_flag(&mut self, flag_mask: FlagMask)
        ensures
            final(self)@ == old(self)@.without_flag(flag_mask),
            final(self)@.well_formed(),
            !final(self)@.flag(flag_mask),
            forall|other: FlagMask|
                other != flag_mask ==> final(self)@.flag(other) == old(self)@.flag(other),
    {
        proof {
            use_type_invariant(&*self);
            assert forall|other: FlagMask|
                other != flag_mask implies self@.without_flag(flag_mask).flag(other)
                == self@.flag(other) by {
                lemma_flag_updates(self@, flag_mask, other);
            }
            lemma_flag_updates(self@, flag_mask, flag_mask);
        }
        let flag_byte = self.registers[0];
        self.registers[0] = flag_byte & !flag_mask.mask();
    }

    /// Recomputes zero, sign and parity from an arithmetic result: zero is
    /// set exactly if `value` is zero, sign exactly if bit 7 of `value` is
    /// set, parity exactly if `value` has an even number of set bits. Carry
    /// and auxiliary carry are left as they are; auxiliary carry is never
    /// computed.
    pub fn update_flags(&mut self, value: u8)
        ensures
            final(self)@ == old(self)@.with_arithmetic_flags(value),
            final(self)@.flag(FlagMask::Z) == (value == 0),
            final(self)@.flag(FlagMask::S) == (value >= 0x80),
            final(self)@.flag(FlagMask::P) == even_parity(value),
            final(self)@.flag(FlagMask::C) == old(self)@.flag(FlagMask::C),
            final(self)@.flag(FlagMask::A) == old(self)@.flag(FlagMask::A),
            final(self)@.well_formed(),
    {
        proof {
            use_type_invariant(&*self);
        }
        // Zero flag
        if value == 0 {
            self.set_flag(FlagMask::Z);
        } else {
            self.unset_flag(FlagMask::Z);
        }

        // Sign flag
        proof {
            lemma_mask_bit(value, 0);
        }
        if (value & 0x80) != 0 {
            self.set_flag(FlagMask::S);
        } else {
            self.unset_flag(FlagMask::S);
        }

        // Parity flag
        let mut bits: u8 = 0;
        let mut mask: u8 = 0x01;
        for index in 0..8u8
            invariant
                bits == ones_below(value, index as nat),
                bits <= index,
                index < 8 ==> mask == 1u8 << index,
        {
            proof {
                lemma_mask_bit(value, index);
            }
            if value & mask != 0 {
                bits += 1;
            }
            mask = mask << 1;
        }

        if bits % 2 == 0 {
            self.set_flag(FlagMask::P);
        } else {
            self.unset_flag(FlagMask::P);
        }
    }

    /// Pushes a 16-bit value: the stack pointer goes down by two, the low
    /// byte is stored at the new stack pointer and the high byte one above.
    pub fn stack_push(&mut self, value: u16)
        ensures
            final(self)@ == old(self)@.push16(value),
            final(self)@.well_formed(),
    {
        proof {
            use_type_invariant(&*self);
            lemma_word_bytes(value, 0, 0);
        }
        let high_byte = ((value >> 8) & 0xff) as u8;
        let low_byte = (value & 0x00ff) as u8;
        let top = self.stack_pointer.wrapping_sub(2);
        self.memory[top as usize] = low_byte;
        self.memory[top.wrapping_add(1) as usize] = high_byte;
        self.stack_pointer = top;
    }

    /// Pops a 16-bit value: the low byte is read at the stack pointer, the
    /// high byte one above, and the stack pointer goes up by two.
    pub fn stack_pop(&mut self) -> (value: u16)
        ensures
            value == old(self)@.top16(),
            final(self)@ == old(self)@.pop16(),
            final(self)@.well_formed(),
    {
        proof {
            use_type_invariant(&*self);
        }
        let low_byte = self.memory[self.stack_pointer as usize];
        let high_byte = self.memory[self.stack_pointer.wrapping_add(1) as usize];
        proof {
            lemma_word_bytes(0, low_byte, high_byte);
        }
        let value: u16 = ((high_byte as u16) << 8) | (low_byte as u16);
        self.stack_pointer = self.stack_pointer.wrapping_add(2);
        value
    }

    /// Copies `program` into memory from address zero on. A program larger
    /// than memory is refused and memory stays as it is.
    pub fn load_program(&mut self, program: &Vec<u8>) -> (loaded: Result<(), LoadError>)
        ensures
            program@.len() <= MEMORY_SIZE ==> loaded is Ok && final(self)@ == old(
                self,
            )@.with_program(program@),
            program@.len() > MEMORY_SIZE ==> loaded == Err::<(), LoadError>(
                LoadError::ProgramTooLarge { length: program.len() },
            ) && final(self)@ == old(self)@,
            final(self)@.well_formed(),
    {
        proof {
            use_type_invariant(&*self);
        }
        if program.len() > MEMORY_SIZE {
            return Err(LoadError::ProgramTooLarge { length: program.len() });
        }
        let mut index: usize = 0;
        while index < program.len()
            invariant
                index <= program@.len() <= MEMORY_SIZE,
                self.memory@.len() == MEMORY_SIZE,
                old(self).memory@.len() == MEMORY_SIZE,
                self.memory@ == program@.subrange(0, index as int) + old(self).memory@.subrange(
                    index as int,
                    MEMORY_SIZE as int,
                ),
                self.registers == old(self).registers,
                self.stack_pointer == old(self).stack_pointer,
                self.program_counter == old(self).program_counter,
            decreases program@.len() - index,
        {
            self.memory[index] = program[index];
            index += 1;
            assert(self.memory@ =~= program@.subrange(0, index as int) + old(
                self,
            ).memory@.subrange(index as int, MEMORY_SIZE as int));
        }
        assert(program@.subrange(0, index as int) == program@);
        Ok(())
    }

    /// The address of the instruction to execute next.
    pub fn program_counter(&self) -> (address: u16)
        ensures
            address == self@.program_counter,
    {
        self.program_counter
    }

    /// The address of the top of the stack.
    pub fn stack_pointer(&self) -> (address: u16)
        ensures
            address == self@.stack_pointer,
    {
        self.stack_pointer
    }

    /// The whole of memory, one byte for each address.
    pub fn memory(&self) -> (bytes: &[u8])
        ensures
            bytes@ == self@.memory,
            self@.well_formed(),
    {
        proof {
            use_type_invariant(self);
        }
        self.memory.as_slice()
    }

    /// Sets the program counter.
    fn jump(&mut self, address: u16)
        ensures
            final(self)@ == old(self)@.at(address),
    {
        proof {
            use_type_invariant(&*self);
        }
        self.program_counter = address;
    }

    /// Sets the flags as they are after subtracting `immediate` from the
    /// accumulator; the accumulator stays.
    fn compare_immediate(&mut self, immediate: u8)
        ensures
            final(self)@ == old(self)@.with_arithmetic_flags(wrap8(old(self)@.a - immediate)),
    {
        let result = self.register(Register::A).wrapping_sub(immediate);
        self.update_flags(result);
    }

    /// Loads the accumulator from memory at the address held in `pair`.
    fn load_indirect(&mut self, pair: RegisterPair, insn: &Instruction)
        ensures
            final(self)@ == old(self)@.with_register(
                Register::A,
                old(self)@.memory[old(self)@.pair(pair, *insn) as int],
            ),
    {
        proof {
            use_type_invariant(&*self);
        }
        let address = self.get_register_pair(pair, insn);
        let value = self.memory[address as usize];
        self.set_register(Register::A, value);
    }

    /// Decrements a register and sets the flags from the result.
    fn decrement(&mut self, register: Register)
        ensures
            final(self)@ == old(self)@.with_arithmetic_flags(
                wrap8(old(self)@.register(register) - 1),
            ).with_register(register, wrap8(old(self)@.register(register) - 1)),
    {
        let value = self.register(register);
        let result = value.wrapping_sub(1);
        self.update_flags(result);
        self.set_register(register, result);
    }

    /// Executes one decoded instruction. The program counter is at the
    /// instruction and `next` is the address after it. Where the
    /// instruction cannot be executed, the error says why and the state is
    /// unchanged.
    pub fn execute(&mut self, insn: &Instruction, next: u16) -> (outcome: Result<
        (),
        ExecutionError,
    >)
        ensures
            match old(self)@.execute(*insn, next) {
                Ok(state) => outcome is Ok && final(self)@ == state,
                Err(error) => outcome == Err::<(), ExecutionError>(error) && final(self)@ == old(
                    self,
                )@,
            },
            final(self)@.well_formed(),
    {
        proof {
            use_type_invariant(&*self);
        }
        match insn {
            Instruction::NOP => {},
            Instruction::JMP(addr) => {
                self.jump(*addr);
                return Ok(());
            },
            Instruction::LXI(register_pair, immediate) => {
                self.set_register_pair(*register_pair, *immediate, insn);
            },
            Instruction::MVI(register, immediate) => {
                self.set_register(*register, *immediate);
            },
            Instruction::CPI(immediate) => {
                self.compare_immediate(*immediate);
            },
            Instruction::J(condition, addr) => {
                if self.verify_condition(*condition) {
                    self.jump(*addr);
                    return Ok(());
                }
            },
            Instruction::POP(pair) => {
                let value = self.stack_pop();
                self.set_register_pair(*pair, value, insn);
            },
            Instruction::CALL(addr) => {
                self.stack_push(next);
                self.jump(*addr);
                return Ok(());
            },
            Instruction::RET => {
                let target = self.stack_pop();
                self.jump(target);
                return Ok(());
            },
            Instruction::LDAX(RegisterPair::BC) => {
                self.load_indirect(RegisterPair::BC, insn);
            },
            Instruction::LDAX(RegisterPair::DE) => {
                self.load_indirect(RegisterPair::DE, insn);
            },
            Instruction::MOV(dest, src) => {
                let src_value = self.register(*src);
                self.set_register(*dest, src_value);
            },
            Instruction::INX(pair) => {
                let value = self.get_register_pair(*pair, insn);
                self.set_register_pair(*pair, value.wrapping_add(1), insn);
            },
            Instruction::DCR(register) => {
                self.decrement(*register);
            },
            Instruction::HLT => {
                return Err(ExecutionError::Halted { address: self.program_counter() });
            },
            Instruction::Unknown => {
                return Err(ExecutionError::UnknownInstruction { address: self.program_counter() });
            },
            _ => {
                return Err(
                    ExecutionError::Unimplemented {
                        address: self.program_counter(),
                        instruction: *insn,
                    },
                );
            },
        }
        self.jump(next);
        Ok(())
    }

    /// One fetch-decode-execute cycle: reads the opcode at the program
    /// counter, takes as many operand bytes as the operand-length table
    /// gives it, decodes the instruction and executes it. Where that does
    /// not succeed, the error says why and the state is unchanged.
    pub fn fetch_decode_execute(&mut self) -> (outcome: Result<(), ExecutionError>)
        ensures
            match old(self)@.step() {
                Ok(state) => outcome is Ok && final(self)@ == state,
                Err(error) => outcome == Err::<(), ExecutionError>(error) && final(self)@ == old(
                    self,
                )@,
            },
            final(self)@.well_formed(),
    {
        proof {
            use_type_invariant(&*self);
        }
        // Fetch
        let program_counter = self.program_counter as usize;
        let opcode = self.memory[program_counter];
        let bytes_to_read = match InstructionParser::bytes_to_read(opcode) {
            Some(count) => count,
            None => {
                return Err(
                    ExecutionError::UnknownOpcode { address: self.program_counter, opcode },
                );
            },
        };
        if program_counter + bytes_to_read >= MEMORY_SIZE {
            return Err(ExecutionError::MemoryOverrun { address: self.program_counter, opcode });
        }
        let slice = slice_subrange(
            self.memory.as_slice(),
            program_counter,
            program_counter + 1 + bytes_to_read,
        );

        // Decode
        let insn = match InstructionParser::parse_bytes(slice) {
            Some(insn) => insn,
            None => {
                return Err(
                    ExecutionError::DecodeFailure { address: self.program_counter, opcode },
                );
            },
        };

        // Execute
        let instruction_size = bytes_to_read + 1;
        let next = self.program_counter.wrapping_add(instruction_size as u16);
        self.execute(&insn, next)
    }
}

} // verus!