use vstd::prelude::*;

use crate::decode::{parse_aarch64_instr, spec_parse_aarch64_instr};
use crate::inst::{AArch64Inst, DecodeError};
use crate::ir::BasicBlock;
use crate::lift::{lift, lifted};

verus! {

/// A machine instruction: its size, how it decodes, and how it lifts to IR.
pub trait Instruction: Sized {
    fn size(&self) -> u64;

    /// Decodes the instruction from its raw bytes.
    fn decode(raw_inst: &[u8; 4]) -> Result<Self, DecodeError>;

    /// Appends the IR of the instruction to `basic_block`.
    fn compile_to_ir(&self, basic_block: &mut BasicBlock);
}

/// The code word that `b` holds, least significant byte first.
pub open spec fn le_word(b: Seq<u8>) -> u32 {
    (b[0] as u32) | ((b[1] as u32) << 8u32) | ((b[2] as u32) << 16u32) | ((b[3] as u32) << 24u32)
}

/// Decodes the code word in `bytes`. Every word yields an instruction or an
/// error; an instruction re-encodes to the very word it came from.
pub fn decode(bytes: &[u8; 4]) -> (r: Result<AArch64Inst, DecodeError>)
    ensures
        r == spec_parse_aarch64_instr(le_word(bytes@)),
        r matches Ok(i) ==> i.spec_encode() == le_word(bytes@),
{
    let w = (bytes[0] as u32) | ((bytes[1] as u32) << 8u32) | ((bytes[2] as u32) << 16u32) | ((bytes[3] as u32)
        << 24u32);
    parse_aarch64_instr(w)
}

/// Decodes AArch64 instructions from a byte stream, four bytes each.
pub struct AArch64InstrParserRule;

impl AArch64InstrParserRule {
    /// The instruction whose bytes start at `offset` of `code`; `None` when
    /// fewer than four bytes remain there.
    pub fn parse(&self, code: &[u8], offset: usize) -> (r: Option<Result<AArch64Inst, DecodeError>>)
        ensures
            offset + 4 > code@.len() ==> r is None,
            offset + 4 <= code@.len() ==> r == Some(
                spec_parse_aarch64_instr(le_word(code@.subrange(offset as int, offset + 4))),
            ),
    {
        if offset > code.len() || code.len() - offset < 4 {
            return None;
        }
        let ghost b = code@.subrange(offset as int, offset + 4);
        assert(b[0] == code@[offset as int] && b[1] == code@[offset + 1] && b[2] == code@[offset + 2] && b[3]
            == code@[offset + 3]);
        let w = (code[offset] as u32) | ((code[offset + 1] as u32) << 8u32) | ((code[offset + 2] as u32) << 16u32)
            | ((code[offset + 3] as u32) << 24u32);
        Some(parse_aarch64_instr(w))
    }
}

impl Instruction for AArch64Inst {
    fn size(&self) -> u64 {
        4
    }

    fn decode(raw_inst: &[u8; 4]) -> (r: Result<Self, DecodeError>)
        ensures
            r == spec_parse_aarch64_instr(le_word(raw_inst@)),
            r matches Ok(i) ==> i.spec_encode() == le_word(raw_inst@),
    {
        decode(raw_inst)
    }

    fn compile_to_ir(&self, basic_block: &mut BasicBlock)
        ensures
            final(basic_block).stmts@ == old(basic_block).stmts@ + lifted(*self),
    {
        lift(self, basic_block)
    }
}

} // verus!
