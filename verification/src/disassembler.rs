//! Disassembly: a buffer of machine code as a listing of instructions.

use vstd::prelude::*;
use vstd::string::*;

use crate::instruction::Instruction;
use crate::parser::{decode, next_window, operand_length, InstructionParser};
use crate::text::{hex, push_hex};

verus! {

/// One entry of a listing: an instruction and the position of its opcode in
/// the buffer.
#[derive(Copy, Clone, PartialEq, Eq, Structural, Debug)]
pub struct InstructionAndAddress {
    pub address: usize,
    pub instruction: Instruction,
}

impl InstructionAndAddress {
    /// The entry as a line of a listing: the address in at least four
    /// hexadecimal digits, a space, and the instruction in assembly text.
    pub open spec fn line(self) -> Seq<char> {
        hex(self.address as nat, 4) + " "@ + self.instruction.mnemonic()
    }

    /// Renders the entry as a line of a listing, without a line break.
    pub fn to_string(&self) -> (text: String)
        ensures
            text@ == self.line(),
    {
        let mut text = String::new();
        push_hex(&mut text, self.address, 4);
        text.append(" ");
        text.append(self.instruction.to_string().as_str());
        assert(text@ =~= self.line());
        text
    }
}

/// The instructions of `buffer` from `position` on, each with the position
/// of its opcode, in the order in which they lie in the buffer. The listing
/// ends at the end of the buffer, at an opcode without an operand-length
/// entry, or at an instruction whose operands the buffer does not hold in
/// full; that last instruction is not part of it.
pub open spec fn listing(buffer: Seq<u8>, position: nat) -> Seq<InstructionAndAddress>
    decreases buffer.len() - position,
{
    match next_window(buffer, position) {
        Some(window) => match decode(window) {
            Some(instruction) => seq![
                InstructionAndAddress { address: position as usize, instruction },
            ] + listing(buffer, position + window.len()),
            None => seq![],
        },
        None => seq![],
    }
}

/// Every entry of a listing is a whole instruction of the buffer: its
/// opcode lies at the entry's address, the buffer holds all the operand
/// bytes that the opcode asks for, and the entry's instruction is what
/// these bytes decode to. No entry is made of an instruction that the end
/// of the buffer cuts short.
pub proof fn lemma_listing_entries_whole(buffer: Seq<u8>, position: nat, index: int)
    requires
        buffer.len() <= usize::MAX,
        0 <= index < listing(buffer, position).len(),
    ensures
        ({
            let entry = listing(buffer, position)[index];
            &&& position <= entry.address < buffer.len()
            &&& operand_length(buffer[entry.address as int]) matches Some(count)
            &&& entry.address + 1 + count <= buffer.len()
            &&& decode(buffer.subrange(entry.address as int, entry.address + 1 + count)) == Some(
                entry.instruction,
            )
        }),
    decreases buffer.len() - position,
{
    let window = next_window(buffer, position)->Some_0;
    if index > 0 {
        lemma_listing_entries_whole(buffer, position + window.len(), index - 1);
    }
}

/// The addresses of a listing increase from entry to entry.
pub proof fn lemma_listing_addresses_increase(
    buffer: Seq<u8>,
    position: nat,
    first: int,
    second: int,
)
    requires
        buffer.len() <= usize::MAX,
        0 <= first < second < listing(buffer, position).len(),
    ensures
        listing(buffer, position)[first].address < listing(buffer, position)[second].address,
    decreases buffer.len() - position,
{
    let window = next_window(buffer, position)->Some_0;
    let rest = position + window.len();
    if first > 0 {
        lemma_listing_addresses_increase(buffer, rest, first - 1, second - 1);
    } else {
        lemma_listing_entries_whole(buffer, rest, second - 1);
    }
}

/// Decodes the instructions of `buffer` one after the other, from its start
/// to the first place where none can be decoded.
pub fn disassemble(buffer: Vec<u8>) -> (instructions: Vec<InstructionAndAddress>)
    ensures
        instructions@ == listing(buffer@, 0),
{
    let ghost bytes = buffer@;
    let mut parser = InstructionParser::new(buffer);
    let mut instructions: Vec<InstructionAndAddress> = Vec::new();
    let mut cursor = parser.cursor();
    loop
        invariant
            parser@.buffer == bytes,
            parser@.cursor == cursor,
            listing(bytes, 0) == instructions@ + listing(bytes, cursor as nat),
        ensures
            instructions@ == listing(bytes, 0),
        decreases bytes.len() - cursor,
    {
        match parser.parse() {
            Some(instruction) => {
                instructions.push(InstructionAndAddress { address: cursor, instruction });
                assert(listing(bytes, 0) =~= instructions@ + listing(
                    bytes,
                    parser@.cursor,
                ));
                cursor = parser.cursor();
            },
            None => {
                assert(listing(bytes, 0) =~= instructions@);
                break ;
            },
        }
    }
    instructions
}

} // verus!
