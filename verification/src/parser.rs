//! The decoder: from raw bytes to instructions.

use vstd::prelude::*;

use crate::condition::Condition;
use crate::instruction::Instruction;
use crate::register::{Register, RegisterPair};

verus! {

/// Bits 7-6 of an opcode.
pub open spec fn group_bits(opcode: u8) -> int {
    opcode as int / 64
}

/// Bits 7-3 of an opcode.
pub open spec fn family_bits(opcode: u8) -> int {
    opcode as int / 8
}

/// Bits 5-3 of an opcode: a destination register, a condition or a restart
/// vector.
pub open spec fn destination_bits(opcode: u8) -> int {
    (opcode as int / 8) % 8
}

/// Bits 2-0 of an opcode: a source register.
pub open spec fn source_bits(opcode: u8) -> int {
    opcode as int % 8
}

/// Bits 5-4 of an opcode: a register pair.
pub open spec fn pair_bits(opcode: u8) -> int {
    (opcode as int / 16) % 4
}

/// Bits 3-0 of an opcode.
pub open spec fn low_nibble(opcode: u8) -> int {
    opcode as int % 16
}

/// The 16-bit value whose low byte is `low` and whose high byte is `high`.
pub open spec fn word(low: u8, high: u8) -> u16 {
    (high as int * 256 + low as int) as u16
}

/// The opcodes that stand for an instruction by themselves, whatever their
/// bit fields would say.
pub open spec fn literal_instruction(opcode: u8) -> Option<Instruction> {
    match opcode {
        0x00 | 0x10 | 0x20 | 0x30 | 0x08 | 0x18 | 0x28 | 0x38 => Some(Instruction::NOP),
        0x07 => Some(Instruction::RLC),
        0x0f => Some(Instruction::RRC),
        0x17 => Some(Instruction::RAL),
        0x1f => Some(Instruction::RAR),
        0x27 => Some(Instruction::DAA),
        0x2f => Some(Instruction::CMA),
        0x37 => Some(Instruction::STC),
        0x3f => Some(Instruction::CMC),
        0x76 => Some(Instruction::HLT),
        0xc9 => Some(Instruction::RET),
        0xeb => Some(Instruction::XCHG),
        0xe3 => Some(Instruction::XTHL),
        0xe9 => Some(Instruction::PCHL),
        0xf9 => Some(Instruction::SPHL),
        0xfb => Some(Instruction::EI),
        0xf3 => Some(Instruction::DI),
        _ => None,
    }
}

/// An instruction whose one operand is the register that `code` selects.
pub open spec fn on_register(code: int, make: spec_fn(Register) -> Instruction) -> Option<
    Instruction,
> {
    match Register::of_code(code) {
        Some(register) => Some(make(register)),
        None => None,
    }
}

/// An instruction whose one operand is the register pair that `code` selects.
pub open spec fn on_pair(code: int, make: spec_fn(RegisterPair) -> Instruction) -> Option<
    Instruction,
> {
    match RegisterPair::of_code(code) {
        Some(pair) => Some(make(pair)),
        None => None,
    }
}

/// As `on_pair`, for the instructions that address memory through BC or DE
/// only.
pub open spec fn on_index_pair(code: int, make: spec_fn(RegisterPair) -> Instruction) -> Option<
    Instruction,
> {
    match RegisterPair::of_code(code) {
        Some(RegisterPair::BC) => Some(make(RegisterPair::BC)),
        Some(RegisterPair::DE) => Some(make(RegisterPair::DE)),
        _ => None,
    }
}

/// An instruction whose one operand is the condition that `code` selects.
pub open spec fn on_condition(code: int, make: spec_fn(Condition) -> Instruction) -> Option<
    Instruction,
> {
    match Condition::of_code(code) {
        Some(condition) => Some(make(condition)),
        None => None,
    }
}

/// An instruction whose operand is the byte after the opcode.
pub open spec fn on_byte(window: Seq<u8>, make: spec_fn(u8) -> Instruction) -> Option<
    Instruction,
> {
    if window.len() >= 2 {
        Some(make(window[1]))
    } else {
        None
    }
}

/// An instruction whose operand is the 16-bit value after the opcode, low
/// byte first.
pub open spec fn on_word(window: Seq<u8>, make: spec_fn(u16) -> Instruction) -> Option<
    Instruction,
> {
    if window.len() >= 3 {
        Some(make(word(window[1], window[2])))
    } else {
        None
    }
}

/// The register-to-accumulator operations, told apart by bits 7-3.
pub open spec fn accumulator_instruction(opcode: u8) -> Option<Instruction> {
    let source = source_bits(opcode);
    let family = family_bits(opcode);
    if family == 0x10 {
        on_register(source, |r: Register| Instruction::ADD(r))
    } else if family == 0x11 {
        on_register(source, |r: Register| Instruction::ADC(r))
    } else if family == 0x12 {
        on_register(source, |r: Register| Instruction::SUB(r))
    } else if family == 0x13 {
        on_register(source, |r: Register| Instruction::SBB(r))
    } else if family == 0x14 {
        on_register(source, |r: Register| Instruction::ANA(r))
    } else if family == 0x15 {
        on_register(source, |r: Register| Instruction::XRA(r))
    } else if family == 0x16 {
        on_register(source, |r: Register| Instruction::ORA(r))
    } else if family == 0x17 {
        on_register(source, |r: Register| Instruction::CMP(r))
    } else {
        None
    }
}

/// The immediate-to-accumulator operations.
pub open spec fn immediate_instruction(window: Seq<u8>) -> Option<Instruction>
    recommends
        window.len() > 0,
{
    match window[0] {
        0xc6 => on_byte(window, |b: u8| Instruction::ADI(b)),
        0xce => on_byte(window, |b: u8| Instruction::ACI(b)),
        0xd6 => on_byte(window, |b: u8| Instruction::SUI(b)),
        0xde => on_byte(window, |b: u8| Instruction::SBI(b)),
        0xe6 => on_byte(window, |b: u8| Instruction::ANI(b)),
        0xee => on_byte(window, |b: u8| Instruction::XRI(b)),
        0xf6 => on_byte(window, |b: u8| Instruction::ORI(b)),
        0xfe => on_byte(window, |b: u8| Instruction::CPI(b)),
        _ => None,
    }
}

/// Whether `opcode` is one of the eight immediate-to-accumulator opcodes.
pub open spec fn is_immediate_opcode(opcode: u8) -> bool {
    group_bits(opcode) == 3 && source_bits(opcode) == 6
}

/// The instruction that a window of bytes encodes. The window starts at the
/// opcode. There is none if the window is empty, if it is too short for the
/// operand that the opcode asks for, or if a bit field selects an operand
/// that the instruction does not take.
///
/// The patterns are tried in a fixed order, and the first that matches
/// decides: opcodes that are instructions by themselves; MOV; MVI; LXI;
/// LDA, STA, LHLD and SHLD; LDAX and STAX; the register-to-accumulator
/// operations; their immediate forms; INR and DCR; INX, DCX and DAD; JMP and
/// CALL; conditional jump and call; conditional return; RST; PUSH and POP;
/// IN and OUT. A byte that matches none of them is `Unknown`.
pub open spec fn decode(window: Seq<u8>) -> Option<Instruction> {
    if window.len() == 0 {
        None
    } else {
        let opcode = window[0];
        let group = group_bits(opcode);
        let destination = destination_bits(opcode);
        let source = source_bits(opcode);
        let pair = pair_bits(opcode);
        let low = low_nibble(opcode);
        if literal_instruction(opcode) is Some {
            literal_instruction(opcode)
        } else if group == 1 {
            match (Register::of_code(destination), Register::of_code(source)) {
                (Some(to), Some(from)) => Some(Instruction::MOV(to, from)),
                _ => None,
            }
        } else if group == 0 && source == 6 {
            match Register::of_code(destination) {
                Some(to) => on_byte(window, |b: u8| Instruction::MVI(to, b)),
                None => None,
            }
        } else if group == 0 && low == 1 {
            match RegisterPair::of_code(pair) {
                Some(to) => on_word(window, |w: u16| Instruction::LXI(to, w)),
                None => None,
            }
        } else if opcode == 0x3a {
            on_word(window, |w: u16| Instruction::LDA(w))
        } else if opcode == 0x32 {
            on_word(window, |w: u16| Instruction::STA(w))
        } else if opcode == 0x2a {
            on_word(window, |w: u16| Instruction::LHLD(w))
        } else if opcode == 0x22 {
            on_word(window, |w: u16| Instruction::SHLD(w))
        } else if group == 0 && low == 0x0a {
            on_index_pair(pair, |p: RegisterPair| Instruction::LDAX(p))
        } else if group == 0 && low == 0x02 {
            on_index_pair(pair, |p: RegisterPair| Instruction::STAX(p))
        } else if group == 2 {
            accumulator_instruction(opcode)
        } else if is_immediate_opcode(opcode) {
            immediate_instruction(window)
        } else if group == 0 && source == 4 {
            on_register(destination, |r: Register| Instruction::INR(r))
        } else if group == 0 && source == 5 {
            on_register(destination, |r: Register| Instruction::DCR(r))
        } else if group == 0 && low == 0x03 {
            on_pair(pair, |p: RegisterPair| Instruction::INX(p))
        } else if group == 0 && low == 0x0b {
            on_pair(pair, |p: RegisterPair| Instruction::DCX(p))
        } else if group == 0 && low == 0x09 {
            on_pair(pair, |p: RegisterPair| Instruction::DAD(p))
        } else if opcode == 0xc3 {
            on_word(window, |w: u16| Instruction::JMP(w))
        } else if opcode == 0xcd {
            on_word(window, |w: u16| Instruction::CALL(w))
        } else if group == 3 && source == 2 {
            match Condition::of_code(destination) {
                Some(condition) => on_word(window, |w: u16| Instruction::J(condition, w)),
                None => None,
            }
        } else if group == 3 && source == 4 {
            match Condition::of_code(destination) {
                Some(condition) => on_word(window, |w: u16| Instruction::C(condition, w)),
                None => None,
            }
        } else if group == 3 && source == 0 {
            on_condition(destination, |c: Condition| Instruction::R(c))
        } else if group == 3 && source == 7 {
            Some(Instruction::RST(destination as u8))
        } else if group == 3 && low == 0x05 {
            on_pair(pair, |p: RegisterPair| Instruction::PUSH(p))
        } else if group == 3 && low == 0x01 {
            on_pair(pair, |p: RegisterPair| Instruction::POP(p))
        } else if opcode == 0xdb {
            on_byte(window, |b: u8| Instruction::IN(b))
        } else if opcode == 0xd3 {
            on_byte(window, |b: u8| Instruction::OUT(b))
        } else {
            Some(Instruction::Unknown)
        }
    }
}

/// The number of operand bytes that follow `opcode` in the instruction
/// stream: one for an immediate byte or a port, two for an immediate word
/// or an address, none otherwise.
pub open spec fn operand_bytes(opcode: u8) -> nat {
    let group = group_bits(opcode);
    let source = source_bits(opcode);
    let low = low_nibble(opcode);
    if group == 0 && source == 6 {
        1
    } else if group == 0 && low == 1 {
        2
    } else if opcode == 0x3a || opcode == 0x32 || opcode == 0x2a || opcode == 0x22 {
        2
    } else if is_immediate_opcode(opcode) {
        1
    } else if opcode == 0xc3 || opcode == 0xcd {
        2
    } else if group == 3 && (source == 2 || source == 4) {
        2
    } else if opcode == 0xdb || opcode == 0xd3 {
        1
    } else {
        0
    }
}

/// The opcodes for which the operand-length table has no entry: DCR L, INX
/// SP and DCX SP; ACI; RST 0 to RST 6; the calls CC, CPO and CP; the jumps
/// JPE and JP; the return RPE; DI and SPHL; and the five bytes that encode
/// no instruction.
pub open spec fn lacks_length_entry(opcode: u8) -> bool {
    match opcode {
        0x2d | 0x33 | 0x3b => true,
        0xc7 | 0xcb | 0xce | 0xcf => true,
        0xd7 | 0xd9 | 0xdc | 0xdd | 0xdf => true,
        0xe4 | 0xe7 | 0xe8 | 0xea | 0xed | 0xef => true,
        0xf2 | 0xf3 | 0xf4 | 0xf7 | 0xf9 | 0xfd => true,
        _ => false,
    }
}

/// The operand-length table: for each opcode that has an entry, the number
/// of operand bytes that follow it.
pub open spec fn operand_length(opcode: u8) -> Option<nat> {
    if lacks_length_entry(opcode) {
        None
    } else {
        Some(operand_bytes(opcode))
    }
}

/// The bytes of the instruction that starts at `position` in `buffer`: the
/// opcode and as many operand bytes as the operand-length table gives it.
/// There is none at the end of the buffer, for an opcode without a table
/// entry, and where the buffer ends before the last operand byte.
pub open spec fn next_window(buffer: Seq<u8>, position: nat) -> Option<Seq<u8>> {
    if position >= buffer.len() {
        None
    } else {
        match operand_length(buffer[position as int]) {
            None => None,
            Some(count) => if position + 1 + count <= buffer.len() {
                Some(buffer.subrange(position as int, position + 1 + count as int))
            } else {
                None
            },
        }
    }
}

/// A window decodes to an instruction exactly when it holds the opcode and
/// all the operand bytes that the opcode asks for.
pub proof fn lemma_decode_succeeds(window: Seq<u8>)
    ensures
        decode(window) is Some <==> window.len() > 0 && window.len() >= 1 + operand_bytes(
            window[0],
        ),
{
}

/// Decoding reads the opcode and its operand bytes and nothing after them.
pub proof fn lemma_decode_reads_prefix(window: Seq<u8>)
    requires
        window.len() > 0,
        window.len() >= 1 + operand_bytes(window[0]),
    ensures
        decode(window) == decode(window.subrange(0, 1 + operand_bytes(window[0]) as int)),
{
}

/// The operands of a decoded instruction are among those that the
/// instruction takes: a restart vector is below 8, and LDAX and STAX go
/// through BC or DE.
pub proof fn lemma_decode_operands(window: Seq<u8>)
    ensures
        decode(window) matches Some(Instruction::RST(vector)) ==> vector < 8,
        decode(window) matches Some(Instruction::LDAX(pair)) ==> pair == RegisterPair::BC || pair
            == RegisterPair::DE,
        decode(window) matches Some(Instruction::STAX(pair)) ==> pair == RegisterPair::BC || pair
            == RegisterPair::DE,
{
}

/// Where the operand-length table has an entry, it agrees with the decoder:
/// a window cut by the table always decodes.
pub proof fn lemma_next_window_decodes(buffer: Seq<u8>, position: nat)
    ensures
        next_window(buffer, position) matches Some(window) ==> decode(window) is Some,
{
    if let Some(window) = next_window(buffer, position) {
        lemma_decode_succeeds(window);
    }
}

/// Every entry of the operand-length table is 0, 1 or 2, and the opcodes
/// from 0x40 to 0xbf all have the entry 0.
pub proof fn lemma_operand_length_range(opcode: u8)
    ensures
        operand_length(opcode) matches Some(count) ==> count <= 2,
        0x40 <= opcode <= 0xbf ==> operand_length(opcode) == Some(0nat),
{
}

/// A zero byte is a whole instruction wherever it stands in a buffer: NOP,
/// with no operand bytes after it.
pub proof fn lemma_zero_byte_is_nop(buffer: Seq<u8>, position: nat)
    requires
        position < buffer.len(),
        buffer[position as int] == 0x00,
    ensures
        next_window(buffer, position) == Some(seq![0x00u8]),
        decode(seq![0x00u8]) == Some(Instruction::NOP),
{
    assert(buffer.subrange(position as int, position as int + 1) =~= seq![0x00u8]);
}

/// Marks an opcode without an entry in `OPERAND_LENGTHS`.
pub const NO_ENTRY: u8 = 0xff;

/// The operand-length table, indexed by opcode.
pub const OPERAND_LENGTHS: [u8; 256] = [
    0, 2, 0, 0, 0, 0, 1, 0, 0, 0, 0, 0, 0, 0, 1, 0,
    0, 2, 0, 0, 0, 0, 1, 0, 0, 0, 0, 0, 0, 0, 1, 0,
    0, 2, 2, 0, 0, 0, 1, 0, 0, 0, 2, 0, 0, NO_ENTRY, 1, 0,
    0, 2, 2, NO_ENTRY, 0, 0, 1, 0, 0, 0, 2, NO_ENTRY, 0, 0, 1, 0,
    0, 0, 0, 0, 0, 0, 0, 0, 0, 0, 0, 0, 0, 0, 0, 0,
    0, 0, 0, 0, 0, 0, 0, 0, 0, 0, 0, 0, 0, 0, 0, 0,
    0, 0, 0, 0, 0, 0, 0, 0, 0, 0, 0, 0, 0, 0, 0, 0,
    0, 0, 0, 0, 0, 0, 0, 0, 0, 0, 0, 0, 0, 0, 0, 0,
    0, 0, 0, 0, 0, 0, 0, 0, 0, 0, 0, 0, 0, 0, 0, 0,
    0, 0, 0, 0, 0, 0, 0, 0, 0, 0, 0, 0, 0, 0, 0, 0,
    0, 0, 0, 0, 0, 0, 0, 0, 0, 0, 0, 0, 0, 0, 0, 0,
    0, 0, 0, 0, 0, 0, 0, 0, 0, 0, 0, 0, 0, 0, 0, 0,
    0, 0, 2, 2, 2, 0, 1, NO_ENTRY, 0, 0, 2, NO_ENTRY, 2, 2, NO_ENTRY, NO_ENTRY,
    0, 0, 2, 1, 2, 0, 1, NO_ENTRY, 0, NO_ENTRY, 2, 1, NO_ENTRY, NO_ENTRY, 1, NO_ENTRY,
    0, 0, 2, 0, NO_ENTRY, 0, 1, NO_ENTRY, NO_ENTRY, 0, NO_ENTRY, 0, 2, NO_ENTRY, 1, NO_ENTRY,
    0, 0, NO_ENTRY, NO_ENTRY, NO_ENTRY, 0, 1, NO_ENTRY, 0, NO_ENTRY, 2, 0, 2, NO_ENTRY, 1, 0,
];

/// How the bit masks of the decoder relate to the bit fields of an opcode.
proof fn lemma_opcode_fields(opcode: u8)
    by (bit_vector)
    ensures
        opcode & 0xc0 == (opcode / 64) * 64,
        opcode & 0xf8 == (opcode / 8) * 8,
        opcode & 0x07 == opcode % 8,
        opcode & 0x0f == opcode % 16,
        opcode & 0xc7 == (opcode / 64) * 64 + opcode % 8,
        opcode & 0xcf == (opcode / 64) * 64 + opcode % 16,
        (opcode & 0x38) >> 3 == (opcode / 8) % 8,
        (opcode & 0x30) >> 4 == (opcode / 16) % 4,
{
}


/// A decoder over a buffer of machine code, with a cursor that marks the
/// next opcode to read.
pub struct InstructionParser {
    buffer: Vec<u8>,
    cursor: usize,
}

/// What a decoder is, to its callers: the bytes it reads and how far it has
/// come.
pub struct ParserState {
    pub buffer: Seq<u8>,
    pub cursor: nat,
}

impl View for InstructionParser {
    type V = ParserState;

    closed spec fn view(&self) -> ParserState {
        ParserState { buffer: self.buffer@, cursor: self.cursor as nat }
    }
}

impl InstructionParser {
    #[verifier::type_invariant]
    spec fn cursor_in_buffer(self) -> bool {
        self.cursor <= self.buffer@.len()
    }

    /// A decoder at the start of `buffer`.
    pub fn new(buffer: Vec<u8>) -> (parser: InstructionParser)
        ensures
            parser@.buffer == buffer@,
            parser@.cursor == 0,
    {
        InstructionParser { buffer, cursor: 0 }
    }

    /// The position of the next opcode to read.
    pub fn cursor(&self) -> (position: usize)
        ensures
            position == self@.cursor,
            position <= self@.buffer.len(),
    {
        proof {
            use_type_invariant(self);
        }
        self.cursor
    }

    /// Decodes the instruction at the start of `window`.
    pub fn parse_bytes(window: &[u8]) -> (instruction: Option<Instruction>)
        ensures
            instruction == decode(window@),
            instruction is Some <==> window@.len() > 0 && window@.len() >= 1 + operand_bytes(
                window@[0],
            ),
    {
        proof {
            lemma_decode_succeeds(window@);
        }
        if window.len() == 0 {
            return None;
        }
        let opcode = window[0];
        proof {
            lemma_opcode_fields(opcode);
        }

        let parsed = match opcode {
            0x00 | 0x10 | 0x20 | 0x30 | 0x08 | 0x18 | 0x28 | 0x38 => Some(Instruction::NOP),
            0x07 => Some(Instruction::RLC),
            0x0f => Some(Instruction::RRC),
            0x17 => Some(Instruction::RAL),
            0x1f => Some(Instruction::RAR),
            0x27 => Some(Instruction::DAA),
            0x2f => Some(Instruction::CMA),
            0x37 => Some(Instruction::STC),
            0x3f => Some(Instruction::CMC),
            0x76 => Some(Instruction::HLT),
            0xc9 => Some(Instruction::RET),
            0xeb => Some(Instruction::XCHG),
            0xe3 => Some(Instruction::XTHL),
            0xe9 => Some(Instruction::PCHL),
            0xf9 => Some(Instruction::SPHL),
            0xfb => Some(Instruction::EI),
            0xf3 => Some(Instruction::DI),
            _ => None,
        };
        if parsed.is_some() {
            return parsed;
        }

        let dest: u8 = (opcode & 0x38) >> 3;
        let src: u8 = opcode & 0x07;
        let register_pair: u8 = (opcode & 0x30) >> 4;

        // MOV -> 01DDDSSS
        if (opcode & 0xc0) == 0x40 {
            let dest = Register::try_from(dest).unwrap();
            let src = Register::try_from(src).unwrap();
            return Some(Instruction::MOV(dest, src));
        }

        // MVI -> 00DDD110
        if (opcode & 0xc0) == 0x00 && (opcode & 0x07) == 0x06 {
            let dest = Register::try_from(dest).unwrap();
            return match Self::immediate_byte(window) {
                Some(immediate) => Some(Instruction::MVI(dest, immediate)),
                None => None,
            };
        }

        // LXI -> 00RP0001
        if (opcode & 0xc0) == 0x00 && (opcode & 0x0f) == 0x01 {
            let register_pair = match RegisterPair::try_from(register_pair) {
                Ok(pair) => pair,
                Err(_) => {
                    return None;
                },
            };
            return match Self::immediate_word(window) {
                Some(immediate) => Some(Instruction::LXI(register_pair, immediate)),
                None => None,
            };
        }

        // LDA -> 00111010
        if opcode == 0x3a {
            return match Self::immediate_word(window) {
                Some(address) => Some(Instruction::LDA(address)),
                None => None,
            };
        }

        // STA -> 00110010
        if opcode == 0x32 {
            return match Self::immediate_word(window) {
                Some(address) => Some(Instruction::STA(address)),
                None => None,
            };
        }

        // LHLD -> 00101010
        if opcode == 0x2a {
            return match Self::immediate_word(window) {
                Some(address) => Some(Instruction::LHLD(address)),
                None => None,
            };
        }

        // SHLD -> 00100010
        if opcode == 0x22 {
            return match Self::immediate_word(window) {
                Some(address) => Some(Instruction::SHLD(address)),
                None => None,
            };
        }

        // LDAX -> 00RP1010, through BC or DE only
        if (opcode & 0xc0) == 0x00 && (opcode & 0x0f) == 0x0a {
            return match RegisterPair::try_from(register_pair) {
                Ok(RegisterPair::BC) => Some(Instruction::LDAX(RegisterPair::BC)),
                Ok(RegisterPair::DE) => Some(Instruction::LDAX(RegisterPair::DE)),
                _ => None,
            };
        }

        // STAX -> 00RP0010, through BC or DE only
        if (opcode & 0xc0) == 0x00 && (opcode & 0x0f) == 0x02 {
            return match RegisterPair::try_from(register_pair) {
                Ok(RegisterPair::BC) => Some(Instruction::STAX(RegisterPair::BC)),
                Ok(RegisterPair::DE) => Some(Instruction::STAX(RegisterPair::DE)),
                _ => None,
            };
        }

        // ADD -> 10000SSS
        if (opcode & 0xf8) == 0x80 {
            let src = Register::try_from(src).unwrap();
            return Some(Instruction::ADD(src));
        }

        // ADC -> 10001SSS
        if (opcode & 0xf8) == 0x88 {
            let src = Register::try_from(src).unwrap();
            return Some(Instruction::ADC(src));
        }

        // SUB -> 10010SSS
        if (opcode & 0xf8) == 0x90 {
            let src = Register::try_from(src).unwrap();
            return Some(Instruction::SUB(src));
        }

        // SBB -> 10011SSS
        if (opcode & 0xf8) == 0x98 {
            let src = Register::try_from(src).unwrap();
            return Some(Instruction::SBB(src));
        }

        // ANA -> 10100SSS
        if (opcode & 0xf8) == 0xa0 {
            let src = Register::try_from(src).unwrap();
            return Some(Instruction::ANA(src));
        }

        // XRA -> 10101SSS
        if (opcode & 0xf8) == 0xa8 {
            let src = Register::try_from(src).unwrap();
            return Some(Instruction::XRA(src));
        }

        // ORA -> 10110SSS
        if (opcode & 0xf8) == 0xb0 {
            let src = Register::try_from(src).unwrap();
            return Some(Instruction::ORA(src));
        }

        // CMP -> 10111SSS
        if (opcode & 0xf8) == 0xb8 {
            let src = Register::try_from(src).unwrap();
            return Some(Instruction::CMP(src));
        }

        // ADI, ACI, SUI, SBI, ANI, XRI, ORI, CPI -> 11FFF110
        if (opcode & 0xc7) == 0xc6 {
            let immediate = match Self::immediate_byte(window) {
                Some(immediate) => immediate,
                None => {
                    return None;
                },
            };
            return match opcode {
                0xc6 => Some(Instruction::ADI(immediate)),
                0xce => Some(Instruction::ACI(immediate)),
                0xd6 => Some(Instruction::SUI(immediate)),
                0xde => Some(Instruction::SBI(immediate)),
                0xe6 => Some(Instruction::ANI(immediate)),
                0xee => Some(Instruction::XRI(immediate)),
                0xf6 => Some(Instruction::ORI(immediate)),
                _ => Some(Instruction::CPI(immediate)),
            };
        }

        // INR -> 00DDD100
        if (opcode & 0xc7) == 0x04 {
            let dest = Register::try_from(dest).unwrap();
            return Some(Instruction::INR(dest));
        }

        // DCR -> 00DDD101
        if (opcode & 0xc7) == 0x05 {
            let dest = Register::try_from(dest).unwrap();
            return Some(Instruction::DCR(dest));
        }

        // INX -> 00RP0011
        if (opcode & 0xcf) == 0x03 {
            return match RegisterPair::try_from(register_pair) {
                Ok(pair) => Some(Instruction::INX(pair)),
                Err(_) => None,
            };
        }

        // DCX -> 00RP1011
        if (opcode & 0xcf) == 0x0b {
            return match RegisterPair::try_from(register_pair) {
                Ok(pair) => Some(Instruction::DCX(pair)),
                Err(_) => None,
            };
        }

        // DAD -> 00RP1001
        if (opcode & 0xcf) == 0x09 {
            return match RegisterPair::try_from(register_pair) {
                Ok(pair) => Some(Instruction::DAD(pair)),
                Err(_) => None,
            };
        }

        // JMP -> 11000011
        if opcode == 0xc3 {
            return match Self::immediate_word(window) {
                Some(address) => Some(Instruction::JMP(address)),
                None => None,
            };
        }

        // CALL -> 11001101
        if opcode == 0xcd {
            return match Self::immediate_word(window) {
                Some(address) => Some(Instruction::CALL(address)),
                None => None,
            };
        }

        // Jccc -> 11CCC010
        if (opcode & 0xc7) == 0xc2 {
            let condition = match Condition::try_from(dest) {
                Ok(condition) => condition,
                Err(_) => {
                    return None;
                },
            };
            return match Self::immediate_word(window) {
                Some(address) => Some(Instruction::J(condition, address)),
                None => None,
            };
        }

        // Cccc -> 11CCC100
        if (opcode & 0xc7) == 0xc4 {
            let condition = match Condition::try_from(dest) {
                Ok(condition) => condition,
                Err(_) => {
                    return None;
                },
            };
            return match Self::immediate_word(window) {
                Some(address) => Some(Instruction::C(condition, address)),
                None => None,
            };
        }

        // Rccc -> 11CCC000
        if (opcode & 0xc7) == 0xc0 {
            return match Condition::try_from(dest) {
                Ok(condition) => Some(Instruction::R(condition)),
                Err(_) => None,
            };
        }

        // RST -> 11NNN111
        if (opcode & 0xc7) == 0xc7 {
            return Some(Instruction::RST(dest));
        }

        // PUSH -> 11RP0101
        if (opcode & 0xcf) == 0xc5 {
            return match RegisterPair::try_from(register_pair) {
                Ok(pair) => Some(Instruction::PUSH(pair)),
                Err(_) => None,
            };
        }

        // POP -> 11RP0001
        if (opcode & 0xcf) == 0xc1 {
            return match RegisterPair::try_from(register_pair) {
                Ok(pair) => Some(Instruction::POP(pair)),
                Err(_) => None,
            };
        }

        // IN -> 11011011
        if opcode == 0xdb {
            return match Self::immediate_byte(window) {
                Some(port) => Some(Instruction::IN(port)),
                None => None,
            };
        }

        // OUT -> 11010011
        if opcode == 0xd3 {
            return match Self::immediate_byte(window) {
                Some(port) => Some(Instruction::OUT(port)),
                None => None,
            };
        }

        Some(Instruction::Unknown)
    }

    /// Takes the bytes of the next instruction from the buffer and moves the
    /// cursor past them. Where there is no next instruction, the cursor
    /// stays.
    pub fn consume_next(&mut self) -> (bytes: Option<Vec<u8>>)
        ensures
            final(self)@.buffer == old(self)@.buffer,
            match next_window(old(self)@.buffer, old(self)@.cursor) {
                Some(window) => bytes matches Some(taken) && taken@ == window && final(self)@.cursor
                    == old(self)@.cursor + window.len(),
                None => bytes is None && final(self)@.cursor == old(self)@.cursor,
            },
    {
        proof {
            use_type_invariant(&*self);
        }
        if self.cursor == self.buffer.len() {
            return None;
        }
        let start = self.cursor;
        let opcode = self.buffer[start];
        let number_of_bytes_to_read = match Self::bytes_to_read(opcode) {
            Some(count) => count,
            None => {
                return None;
            },
        };
        if number_of_bytes_to_read > self.buffer.len() - start - 1 {
            return None;
        }
        let end = start + 1 + number_of_bytes_to_read;
        let mut bytes: Vec<u8> = Vec::new();
        let mut position = start;
        while position < end
            invariant
                start <= position <= end <= self.buffer@.len(),
                bytes@ == self.buffer@.subrange(start as int, position as int),
            decreases end - position,
        {
            bytes.push(self.buffer[position]);
            position += 1;
        }
        self.cursor = end;
        Some(bytes)
    }

    /// Decodes the next instruction of the buffer and moves the cursor past
    /// it. Returns `None`, and leaves the cursor, at the end of the buffer,
    /// at an opcode without an operand-length entry, and where the buffer
    /// ends before the last operand byte.
    pub fn parse(&mut self) -> (instruction: Option<Instruction>)
        ensures
            final(self)@.buffer == old(self)@.buffer,
            match next_window(old(self)@.buffer, old(self)@.cursor) {
                Some(window) => instruction is Some && instruction == decode(window)
                    && final(self)@.cursor == old(self)@.cursor + window.len(),
                None => instruction is None && final(self)@.cursor == old(self)@.cursor,
            },
    {
        proof {
            lemma_next_window_decodes(self@.buffer, self@.cursor);
        }
        match self.consume_next() {
            Some(bytes) => Self::parse_bytes(bytes.as_slice()),
            None => None,
        }
    }

    /// The number of bytes to read after `opcode`, from the operand-length
    /// table. Opcodes 0x40 to 0xbf never have operands. An opcode without
    /// an entry in the table is refused.
    pub fn bytes_to_read(opcode: u8) -> (count: Option<usize>)
        ensures
            count is Some <==> operand_length(opcode) is Some,
            count matches Some(n) ==> operand_length(opcode) == Some(n as nat) && n <= 2,
            0x40 <= opcode <= 0xbf ==> count == Some(0usize),
    {
        if opcode >= 0x40 && opcode <= 0xbf {
            return Some(0);
        }
        let entry = OPERAND_LENGTHS[opcode as usize];
        if entry == NO_ENTRY {
            None
        } else {
            Some(entry as usize)
        }
    }

    /// The byte after the opcode, if the window holds one.
    fn immediate_byte(window: &[u8]) -> (immediate: Option<u8>)
        ensures
            immediate == if window@.len() >= 2 {
                Some(window@[1])
            } else {
                None
            },
    {
        if window.len() >= 2 {
            Some(window[1])
        } else {
            None
        }
    }

    /// The two bytes after the opcode as one value, low byte first, if the
    /// window holds them.
    fn immediate_word(window: &[u8]) -> (immediate: Option<u16>)
        ensures
            immediate == if window@.len() >= 3 {
                Some(word(window@[1], window@[2]))
            } else {
                None
            },
    {
        if window.len() >= 3 {
            let low_byte = window[1] as u16;
            let high_byte = window[2] as u16;
            Some(high_byte * 256 + low_byte)
        } else {
            None
        }
    }
}

} // verus!
