use vstd::prelude::*;

use crate::inst::{
    AArch64Inst, AArch64RegisterId, DecodeError, AddSubImmWithTags, AddSubtractExtReg, B5B40Imm14Rt,
    Barriers, Bitfield, CompareAndSwapPair, CondCmpImm, CondCmpReg, DataProc2Src, DataProc3Src,
    ExceptionGen, ExtractImm, FloatingPointCompare, FloatingPointImmediate, HwImm16Rd, Imm19Cond,
    Imm19Rt, Imm26, LdStNoAllocPairOffset, LdStRegUnscaledImm, LoadStoreRegPair,
    LoadStoreRegRegOffset, LogicalImm, OpcSizeImm12RnRt, PcRelAddressing, RmCondRnRd, RmRaRnRd,
    RmRnRd, RnRd, RsRnRt, RsRt2RnRt, ShImm12RnRd, ShiftRmImm6RnRd, SysRegMov, SystemHint,
    UncondBranchReg, enc_pc_rel_addressing, enc_add_sub_immediate, enc_add_sub_imm_with_tags,
    enc_logical_imm, enc_move_wide_imm, enc_bitfield, enc_extract, enc_cond_branch_imm,
    enc_exception_gen, enc_hints, enc_uncond_branch_reg, enc_uncond_branch_imm,
    enc_cmp_and_branch_imm, enc_test_and_branch_imm, enc_load_store_reg_unsigned_imm,
    enc_load_store_reg_reg_offset, enc_load_store_reg_pair_offset, enc_load_store_reg_imm9,
    enc_data_proc_2src, enc_logical_shifted_register, enc_add_sub_shifted_reg, enc_add_sub_ext_reg,
    enc_cond_compare_reg, enc_cond_compare_imm, enc_cond_sel, enc_data_proccessing_3src,
    enc_fp_data_processing_3src, enc_barriers, enc_load_reg_literal, enc_load_store_exclusive,
    enc_load_store_ordered, enc_add_sub_with_carry, enc_data_proc_1src, enc_compare_and_swap,
    enc_compare_and_swap_pair, enc_load_store_no_alloc_pair, enc_system_register_move,
    enc_fp_compare, enc_fp_immediate,
};

verus! {

/// Variant and operands of a word in the pc rel addressing group.
pub open spec fn spec_parse_pc_rel_addressing(w: u32) -> Result<AArch64Inst, DecodeError> {
    let op = (w >> 31u32) & 0x1u32;
    let immlo = (w >> 29u32) & 0x3u32;
    let immhi = (w >> 5u32) & 0x7ffffu32;
    let rd = w & 0x1fu32;
    if op == 0u32 {
        Ok(AArch64Inst::Adr(PcRelAddressing { immlo: immlo as u8, immhi: immhi as u32, rd: AArch64RegisterId::spec_gpr_or_zr(rd) }))
    } else if op == 1u32 {
        Ok(AArch64Inst::Adrp(PcRelAddressing { immlo: immlo as u8, immhi: immhi as u32, rd: AArch64RegisterId::spec_gpr_or_zr(rd) }))
    } else {
        Err(DecodeError::UnknownInstruction { word: w })
    }
}

/// Decodes a word of the pc rel addressing group.
pub fn parse_pc_rel_addressing(w: u32) -> (r: Result<AArch64Inst, DecodeError>)
    ensures
        r == spec_parse_pc_rel_addressing(w),
{
    let op = (w >> 31u32) & 0x1u32;
    let immlo = (w >> 29u32) & 0x3u32;
    let immhi = (w >> 5u32) & 0x7ffffu32;
    let rd = w & 0x1fu32;
    if op == 0u32 {
        Ok(AArch64Inst::Adr(PcRelAddressing { immlo: immlo as u8, immhi: immhi as u32, rd: AArch64RegisterId::gpr_or_zr(rd) }))
    } else if op == 1u32 {
        Ok(AArch64Inst::Adrp(PcRelAddressing { immlo: immlo as u8, immhi: immhi as u32, rd: AArch64RegisterId::gpr_or_zr(rd) }))
    } else {
        Err(DecodeError::UnknownInstruction { word: w })
    }
}

proof fn lemma_split_pc_rel_addressing(w: u32)
    by (bit_vector)
    requires
        w & 0x1c000000u32 == 0x10000000u32,
        w & 0x1f000000u32 == 0x10000000u32,
    ensures
        w == enc_pc_rel_addressing((w >> 31u32) & 0x1u32, (w >> 29u32) & 0x3u32, (w >> 5u32) & 0x7ffffu32, w & 0x1fu32),
        (w >> 31u32) & 0x1u32 <= 0x1u32,
        (w >> 29u32) & 0x3u32 <= 0x3u32,
        (w >> 5u32) & 0x7ffffu32 <= 0x7ffffu32,
        w & 0x1fu32 <= 0x1fu32,
{
}

proof fn lemma_parse_pc_rel_addressing_sound(w: u32)
    requires
        w & 0x1c000000u32 == 0x10000000u32,
        w & 0x1f000000u32 == 0x10000000u32,
    ensures
        spec_parse_pc_rel_addressing(w) matches Ok(i) ==> i.spec_encode() == w,
{
    lemma_split_pc_rel_addressing(w);
}

/// Variant and operands of a word in the add sub immediate group.
pub open spec fn spec_parse_add_sub_immediate(w: u32) -> Result<AArch64Inst, DecodeError> {
    let sf_op_s = (w >> 29u32) & 0x7u32;
    let sh = (w >> 22u32) & 0x1u32;
    let imm12 = (w >> 10u32) & 0xfffu32;
    let rn = (w >> 5u32) & 0x1fu32;
    let rd = w & 0x1fu32;
    if sf_op_s == 0u32 {
        Ok(AArch64Inst::AddImm32(ShImm12RnRd { sh: sh as u8, imm12: imm12 as u16, rn: AArch64RegisterId::spec_gpr_or_sp(rn), rd: AArch64RegisterId::spec_gpr_or_sp(rd) }))
    } else if sf_op_s == 1u32 {
        Ok(AArch64Inst::AddsImm32(ShImm12RnRd { sh: sh as u8, imm12: imm12 as u16, rn: AArch64RegisterId::spec_gpr_or_sp(rn), rd: AArch64RegisterId::spec_gpr_or_zr(rd) }))
    } else if sf_op_s == 2u32 {
        Ok(AArch64Inst::SubImm32(ShImm12RnRd { sh: sh as u8, imm12: imm12 as u16, rn: AArch64RegisterId::spec_gpr_or_sp(rn), rd: AArch64RegisterId::spec_gpr_or_sp(rd) }))
    } else if sf_op_s == 3u32 {
        Ok(AArch64Inst::SubsImm32(ShImm12RnRd { sh: sh as u8, imm12: imm12 as u16, rn: AArch64RegisterId::spec_gpr_or_sp(rn), rd: AArch64RegisterId::spec_gpr_or_zr(rd) }))
    } else if sf_op_s == 4u32 {
        Ok(AArch64Inst::AddImm64(ShImm12RnRd { sh: sh as u8, imm12: imm12 as u16, rn: AArch64RegisterId::spec_gpr_or_sp(rn), rd: AArch64RegisterId::spec_gpr_or_sp(rd) }))
    } else if sf_op_s == 5u32 {
        Ok(AArch64Inst::AddsImm64(ShImm12RnRd { sh: sh as u8, imm12: imm12 as u16, rn: AArch64RegisterId::spec_gpr_or_sp(rn), rd: AArch64RegisterId::spec_gpr_or_zr(rd) }))
    } else if sf_op_s == 6u32 {
        Ok(AArch64Inst::SubImm64(ShImm12RnRd { sh: sh as u8, imm12: imm12 as u16, rn: AArch64RegisterId::spec_gpr_or_sp(rn), rd: AArch64RegisterId::spec_gpr_or_sp(rd) }))
    } else if sf_op_s == 7u32 {
        Ok(AArch64Inst::SubsImm64(ShImm12RnRd { sh: sh as u8, imm12: imm12 as u16, rn: AArch64RegisterId::spec_gpr_or_sp(rn), rd: AArch64RegisterId::spec_gpr_or_zr(rd) }))
    } else {
        Err(DecodeError::UnknownInstruction { word: w })
    }
}

/// Decodes a word of the add sub immediate group.
pub fn parse_add_sub_immediate(w: u32) -> (r: Result<AArch64Inst, DecodeError>)
    ensures
        r == spec_parse_add_sub_immediate(w),
{
    let sf_op_s = (w >> 29u32) & 0x7u32;
    let sh = (w >> 22u32) & 0x1u32;
    let imm12 = (w >> 10u32) & 0xfffu32;
    let rn = (w >> 5u32) & 0x1fu32;
    let rd = w & 0x1fu32;
    if sf_op_s == 0u32 {
        Ok(AArch64Inst::AddImm32(ShImm12RnRd { sh: sh as u8, imm12: imm12 as u16, rn: AArch64RegisterId::gpr_or_sp(rn), rd: AArch64RegisterId::gpr_or_sp(rd) }))
    } else if sf_op_s == 1u32 {
        Ok(AArch64Inst::AddsImm32(ShImm12RnRd { sh: sh as u8, imm12: imm12 as u16, rn: AArch64RegisterId::gpr_or_sp(rn), rd: AArch64RegisterId::gpr_or_zr(rd) }))
    } else if sf_op_s == 2u32 {
        Ok(AArch64Inst::SubImm32(ShImm12RnRd { sh: sh as u8, imm12: imm12 as u16, rn: AArch64RegisterId::gpr_or_sp(rn), rd: AArch64RegisterId::gpr_or_sp(rd) }))
    } else if sf_op_s == 3u32 {
        Ok(AArch64Inst::SubsImm32(ShImm12RnRd { sh: sh as u8, imm12: imm12 as u16, rn: AArch64RegisterId::gpr_or_sp(rn), rd: AArch64RegisterId::gpr_or_zr(rd) }))
    } else if sf_op_s == 4u32 {
        Ok(AArch64Inst::AddImm64(ShImm12RnRd { sh: sh as u8, imm12: imm12 as u16, rn: AArch64RegisterId::gpr_or_sp(rn), rd: AArch64RegisterId::gpr_or_sp(rd) }))
    } else if sf_op_s == 5u32 {
        Ok(AArch64Inst::AddsImm64(ShImm12RnRd { sh: sh as u8, imm12: imm12 as u16, rn: AArch64RegisterId::gpr_or_sp(rn), rd: AArch64RegisterId::gpr_or_zr(rd) }))
    } else if sf_op_s == 6u32 {
        Ok(AArch64Inst::SubImm64(ShImm12RnRd { sh: sh as u8, imm12: imm12 as u16, rn: AArch64RegisterId::gpr_or_sp(rn), rd: AArch64RegisterId::gpr_or_sp(rd) }))
    } else if sf_op_s == 7u32 {
        Ok(AArch64Inst::SubsImm64(ShImm12RnRd { sh: sh as u8, imm12: imm12 as u16, rn: AArch64RegisterId::gpr_or_sp(rn), rd: AArch64RegisterId::gpr_or_zr(rd) }))
    } else {
        Err(DecodeError::UnknownInstruction { word: w })
    }
}

proof fn lemma_split_add_sub_immediate(w: u32)
    by (bit_vector)
    requires
        w & 0x1c000000u32 == 0x10000000u32,
        w & 0x1f800000u32 == 0x11000000u32,
    ensures
        w == enc_add_sub_immediate((w >> 29u32) & 0x7u32, (w >> 22u32) & 0x1u32, (w >> 10u32) & 0xfffu32, (w >> 5u32) & 0x1fu32, w & 0x1fu32),
        (w >> 29u32) & 0x7u32 <= 0x7u32,
        (w >> 22u32) & 0x1u32 <= 0x1u32,
        (w >> 10u32) & 0xfffu32 <= 0xfffu32,
        (w >> 5u32) & 0x1fu32 <= 0x1fu32,
        w & 0x1fu32 <= 0x1fu32,
{
}

proof fn lemma_parse_add_sub_immediate_sound(w: u32)
    requires
        w & 0x1c000000u32 == 0x10000000u32,
        w & 0x1f800000u32 == 0x11000000u32,
    ensures
        spec_parse_add_sub_immediate(w) matches Ok(i) ==> i.spec_encode() == w,
{
    lemma_split_add_sub_immediate(w);
}

/// Variant and operands of a word in the add sub imm with tags group.
pub open spec fn spec_parse_add_sub_imm_with_tags(w: u32) -> Result<AArch64Inst, DecodeError> {
    let sf_op_s = (w >> 29u32) & 0x7u32;
    let o2 = (w >> 22u32) & 0x1u32;
    let uimm6 = (w >> 16u32) & 0x3fu32;
    let op3 = (w >> 14u32) & 0x3u32;
    let uimm4 = (w >> 10u32) & 0xfu32;
    let rn = (w >> 5u32) & 0x1fu32;
    let rd = w & 0x1fu32;
    if sf_op_s == 4u32 && o2 == 0u32 {
        Ok(AArch64Inst::Addg(AddSubImmWithTags { uimm6: uimm6 as u8, op3: op3 as u8, uimm4: uimm4 as u8, rn: AArch64RegisterId::spec_gpr_or_sp(rn), rd: AArch64RegisterId::spec_gpr_or_sp(rd) }))
    } else if sf_op_s == 6u32 && o2 == 0u32 {
        Ok(AArch64Inst::Subg(AddSubImmWithTags { uimm6: uimm6 as u8, op3: op3 as u8, uimm4: uimm4 as u8, rn: AArch64RegisterId::spec_gpr_or_sp(rn), rd: AArch64RegisterId::spec_gpr_or_sp(rd) }))
    } else {
        Err(DecodeError::UnknownInstruction { word: w })
    }
}

/// Decodes a word of the add sub imm with tags group.
pub fn parse_add_sub_imm_with_tags(w: u32) -> (r: Result<AArch64Inst, DecodeError>)
    ensures
        r == spec_parse_add_sub_imm_with_tags(w),
{
    let sf_op_s = (w >> 29u32) & 0x7u32;
    let o2 = (w >> 22u32) & 0x1u32;
    let uimm6 = (w >> 16u32) & 0x3fu32;
    let op3 = (w >> 14u32) & 0x3u32;
    let uimm4 = (w >> 10u32) & 0xfu32;
    let rn = (w >> 5u32) & 0x1fu32;
    let rd = w & 0x1fu32;
    if sf_op_s == 4u32 && o2 == 0u32 {
        Ok(AArch64Inst::Addg(AddSubImmWithTags { uimm6: uimm6 as u8, op3: op3 as u8, uimm4: uimm4 as u8, rn: AArch64RegisterId::gpr_or_sp(rn), rd: AArch64RegisterId::gpr_or_sp(rd) }))
    } else if sf_op_s == 6u32 && o2 == 0u32 {
        Ok(AArch64Inst::Subg(AddSubImmWithTags { uimm6: uimm6 as u8, op3: op3 as u8, uimm4: uimm4 as u8, rn: AArch64RegisterId::gpr_or_sp(rn), rd: AArch64RegisterId::gpr_or_sp(rd) }))
    } else {
        Err(DecodeError::UnknownInstruction { word: w })
    }
}

proof fn lemma_split_add_sub_imm_with_tags(w: u32)
    by (bit_vector)
    requires
        w & 0x1c000000u32 == 0x10000000u32,
        w & 0x1f800000u32 == 0x11800000u32,
    ensures
        w == enc_add_sub_imm_with_tags((w >> 29u32) & 0x7u32, (w >> 22u32) & 0x1u32, (w >> 16u32) & 0x3fu32, (w >> 14u32) & 0x3u32, (w >> 10u32) & 0xfu32, (w >> 5u32) & 0x1fu32, w & 0x1fu32),
        (w >> 29u32) & 0x7u32 <= 0x7u32,
        (w >> 22u32) & 0x1u32 <= 0x1u32,
        (w >> 16u32) & 0x3fu32 <= 0x3fu32,
        (w >> 14u32) & 0x3u32 <= 0x3u32,
        (w >> 10u32) & 0xfu32 <= 0xfu32,
        (w >> 5u32) & 0x1fu32 <= 0x1fu32,
        w & 0x1fu32 <= 0x1fu32,
{
}

proof fn lemma_parse_add_sub_imm_with_tags_sound(w: u32)
    requires
        w & 0x1c000000u32 == 0x10000000u32,
        w & 0x1f800000u32 == 0x11800000u32,
    ensures
        spec_parse_add_sub_imm_with_tags(w) matches Ok(i) ==> i.spec_encode() == w,
{
    lemma_split_add_sub_imm_with_tags(w);
}

/// Variant and operands of a word in the logical imm group.
pub open spec fn spec_parse_logical_imm(w: u32) -> Result<AArch64Inst, DecodeError> {
    let sf = (w >> 31u32) & 0x1u32;
    let opc = (w >> 29u32) & 0x3u32;
    let n = (w >> 22u32) & 0x1u32;
    let immr = (w >> 16u32) & 0x3fu32;
    let imms = (w >> 10u32) & 0x3fu32;
    let rn = (w >> 5u32) & 0x1fu32;
    let rd = w & 0x1fu32;
    if sf == 0u32 && opc == 0u32 && (n == 0u32) {
        Ok(AArch64Inst::AndImm32(LogicalImm { n: n as u8, immr: immr as u8, imms: imms as u8, rn: AArch64RegisterId::spec_gpr_or_zr(rn), rd: AArch64RegisterId::spec_gpr_or_sp(rd) }))
    } else if sf == 0u32 && opc == 1u32 && (n == 0u32) {
        Ok(AArch64Inst::OrrImm32(LogicalImm { n: n as u8, immr: immr as u8, imms: imms as u8, rn: AArch64RegisterId::spec_gpr_or_zr(rn), rd: AArch64RegisterId::spec_gpr_or_sp(rd) }))
    } else if sf == 0u32 && opc == 2u32 && (n == 0u32) {
        Ok(AArch64Inst::EorImm32(LogicalImm { n: n as u8, immr: immr as u8, imms: imms as u8, rn: AArch64RegisterId::spec_gpr_or_zr(rn), rd: AArch64RegisterId::spec_gpr_or_sp(rd) }))
    } else if sf == 0u32 && opc == 3u32 && (n == 0u32) {
        Ok(AArch64Inst::AndsImm32(LogicalImm { n: n as u8, immr: immr as u8, imms: imms as u8, rn: AArch64RegisterId::spec_gpr_or_zr(rn), rd: AArch64RegisterId::spec_gpr_or_zr(rd) }))
    } else if sf == 1u32 && opc == 0u32 {
        Ok(AArch64Inst::AndImm64(LogicalImm { n: n as u8, immr: immr as u8, imms: imms as u8, rn: AArch64RegisterId::spec_gpr_or_zr(rn), rd: AArch64RegisterId::spec_gpr_or_sp(rd) }))
    } else if sf == 1u32 && opc == 1u32 {
        Ok(AArch64Inst::OrrImm64(LogicalImm { n: n as u8, immr: immr as u8, imms: imms as u8, rn: AArch64RegisterId::spec_gpr_or_zr(rn), rd: AArch64RegisterId::spec_gpr_or_sp(rd) }))
    } else if sf == 1u32 && opc == 2u32 {
        Ok(AArch64Inst::EorImm64(LogicalImm { n: n as u8, immr: immr as u8, imms: imms as u8, rn: AArch64RegisterId::spec_gpr_or_zr(rn), rd: AArch64RegisterId::spec_gpr_or_sp(rd) }))
    } else if sf == 1u32 && opc == 3u32 {
        Ok(AArch64Inst::AndsImm64(LogicalImm { n: n as u8, immr: immr as u8, imms: imms as u8, rn: AArch64RegisterId::spec_gpr_or_zr(rn), rd: AArch64RegisterId::spec_gpr_or_zr(rd) }))
    } else {
        Err(DecodeError::UnknownInstruction { word: w })
    }
}

/// Decodes a word of the logical imm group.
pub fn parse_logical_imm(w: u32) -> (r: Result<AArch64Inst, DecodeError>)
    ensures
        r == spec_parse_logical_imm(w),
{
    let sf = (w >> 31u32) & 0x1u32;
    let opc = (w >> 29u32) & 0x3u32;
    let n = (w >> 22u32) & 0x1u32;
    let immr = (w >> 16u32) & 0x3fu32;
    let imms = (w >> 10u32) & 0x3fu32;
    let rn = (w >> 5u32) & 0x1fu32;
    let rd = w & 0x1fu32;
    if sf == 0u32 && opc == 0u32 && (n == 0u32) {
        Ok(AArch64Inst::AndImm32(LogicalImm { n: n as u8, immr: immr as u8, imms: imms as u8, rn: AArch64RegisterId::gpr_or_zr(rn), rd: AArch64RegisterId::gpr_or_sp(rd) }))
    } else if sf == 0u32 && opc == 1u32 && (n == 0u32) {
        Ok(AArch64Inst::OrrImm32(LogicalImm { n: n as u8, immr: immr as u8, imms: imms as u8, rn: AArch64RegisterId::gpr_or_zr(rn), rd: AArch64RegisterId::gpr_or_sp(rd) }))
    } else if sf == 0u32 && opc == 2u32 && (n == 0u32) {
        Ok(AArch64Inst::EorImm32(LogicalImm { n: n as u8, immr: immr as u8, imms: imms as u8, rn: AArch64RegisterId::gpr_or_zr(rn), rd: AArch64RegisterId::gpr_or_sp(rd) }))
    } else if sf == 0u32 && opc == 3u32 && (n == 0u32) {
        Ok(AArch64Inst::AndsImm32(LogicalImm { n: n as u8, immr: immr as u8, imms: imms as u8, rn: AArch64RegisterId::gpr_or_zr(rn), rd: AArch64RegisterId::gpr_or_zr(rd) }))
    } else if sf == 1u32 && opc == 0u32 {
        Ok(AArch64Inst::AndImm64(LogicalImm { n: n as u8, immr: immr as u8, imms: imms as u8, rn: AArch64RegisterId::gpr_or_zr(rn), rd: AArch64RegisterId::gpr_or_sp(rd) }))
    } else if sf == 1u32 && opc == 1u32 {
        Ok(AArch64Inst::OrrImm64(LogicalImm { n: n as u8, immr: immr as u8, imms: imms as u8, rn: AArch64RegisterId::gpr_or_zr(rn), rd: AArch64RegisterId::gpr_or_sp(rd) }))
    } else if sf == 1u32 && opc == 2u32 {
        Ok(AArch64Inst::EorImm64(LogicalImm { n: n as u8, immr: immr as u8, imms: imms as u8, rn: AArch64RegisterId::gpr_or_zr(rn), rd: AArch64RegisterId::gpr_or_sp(rd) }))
    } else if sf == 1u32 && opc == 3u32 {
        Ok(AArch64Inst::AndsImm64(LogicalImm { n: n as u8, immr: immr as u8, imms: imms as u8, rn: AArch64RegisterId::gpr_or_zr(rn), rd: AArch64RegisterId::gpr_or_zr(rd) }))
    } else {
        Err(DecodeError::UnknownInstruction { word: w })
    }
}

proof fn lemma_split_logical_imm(w: u32)
    by (bit_vector)
    requires
        w & 0x1c000000u32 == 0x10000000u32,
        w & 0x1f800000u32 == 0x12000000u32,
    ensures
        w == enc_logical_imm((w >> 31u32) & 0x1u32, (w >> 29u32) & 0x3u32, (w >> 22u32) & 0x1u32, (w >> 16u32) & 0x3fu32, (w >> 10u32) & 0x3fu32, (w >> 5u32) & 0x1fu32, w & 0x1fu32),
        (w >> 31u32) & 0x1u32 <= 0x1u32,
        (w >> 29u32) & 0x3u32 <= 0x3u32,
        (w >> 22u32) & 0x1u32 <= 0x1u32,
        (w >> 16u32) & 0x3fu32 <= 0x3fu32,
        (w >> 10u32) & 0x3fu32 <= 0x3fu32,
        (w >> 5u32) & 0x1fu32 <= 0x1fu32,
        w & 0x1fu32 <= 0x1fu32,
{
}

proof fn lemma_parse_logical_imm_sound(w: u32)
    requires
        w & 0x1c000000u32 == 0x10000000u32,
        w & 0x1f800000u32 == 0x12000000u32,
    ensures
        spec_parse_logical_imm(w) matches Ok(i) ==> i.spec_encode() == w,
{
    lemma_split_logical_imm(w);
}

/// Variant and operands of a word in the move wide imm group.
pub open spec fn spec_parse_move_wide_imm(w: u32) -> Result<AArch64Inst, DecodeError> {
    let sf_opc = (w >> 29u32) & 0x7u32;
    let hw = (w >> 21u32) & 0x3u32;
    let imm16 = (w >> 5u32) & 0xffffu32;
    let rd = w & 0x1fu32;
    if sf_opc == 0u32 && (hw < 2u32) {
        Ok(AArch64Inst::MovnVar32(HwImm16Rd { hw: hw as u8, imm16: imm16 as u16, rd: AArch64RegisterId::spec_gpr_or_zr(rd) }))
    } else if sf_opc == 2u32 && (hw < 2u32) {
        Ok(AArch64Inst::MovzVar32(HwImm16Rd { hw: hw as u8, imm16: imm16 as u16, rd: AArch64RegisterId::spec_gpr_or_zr(rd) }))
    } else if sf_opc == 3u32 && (hw < 2u32) {
        Ok(AArch64Inst::MovkVar32(HwImm16Rd { hw: hw as u8, imm16: imm16 as u16, rd: AArch64RegisterId::spec_gpr_or_zr(rd) }))
    } else if sf_opc == 4u32 {
        Ok(AArch64Inst::MovnVar64(HwImm16Rd { hw: hw as u8, imm16: imm16 as u16, rd: AArch64RegisterId::spec_gpr_or_zr(rd) }))
    } else if sf_opc == 6u32 {
        Ok(AArch64Inst::MovzVar64(HwImm16Rd { hw: hw as u8, imm16: imm16 as u16, rd: AArch64RegisterId::spec_gpr_or_zr(rd) }))
    } else if sf_opc == 7u32 {
        Ok(AArch64Inst::MovkVar64(HwImm16Rd { hw: hw as u8, imm16: imm16 as u16, rd: AArch64RegisterId::spec_gpr_or_zr(rd) }))
    } else {
        Err(DecodeError::UnknownInstruction { word: w })
    }
}

/// Decodes a word of the move wide imm group.
pub fn parse_move_wide_imm(w: u32) -> (r: Result<AArch64Inst, DecodeError>)
    ensures
        r == spec_parse_move_wide_imm(w),
{
    let sf_opc = (w >> 29u32) & 0x7u32;
    let hw = (w >> 21u32) & 0x3u32;
    let imm16 = (w >> 5u32) & 0xffffu32;
    let rd = w & 0x1fu32;
    if sf_opc == 0u32 && (hw < 2u32) {
        Ok(AArch64Inst::MovnVar32(HwImm16Rd { hw: hw as u8, imm16: imm16 as u16, rd: AArch64RegisterId::gpr_or_zr(rd) }))
    } else if sf_opc == 2u32 && (hw < 2u32) {
        Ok(AArch64Inst::MovzVar32(HwImm16Rd { hw: hw as u8, imm16: imm16 as u16, rd: AArch64RegisterId::gpr_or_zr(rd) }))
    } else if sf_opc == 3u32 && (hw < 2u32) {
        Ok(AArch64Inst::MovkVar32(HwImm16Rd { hw: hw as u8, imm16: imm16 as u16, rd: AArch64RegisterId::gpr_or_zr(rd) }))
    } else if sf_opc == 4u32 {
        Ok(AArch64Inst::MovnVar64(HwImm16Rd { hw: hw as u8, imm16: imm16 as u16, rd: AArch64RegisterId::gpr_or_zr(rd) }))
    } else if sf_opc == 6u32 {
        Ok(AArch64Inst::MovzVar64(HwImm16Rd { hw: hw as u8, imm16: imm16 as u16, rd: AArch64RegisterId::gpr_or_zr(rd) }))
    } else if sf_opc == 7u32 {
        Ok(AArch64Inst::MovkVar64(HwImm16Rd { hw: hw as u8, imm16: imm16 as u16, rd: AArch64RegisterId::gpr_or_zr(rd) }))
    } else {
        Err(DecodeError::UnknownInstruction { word: w })
    }
}

proof fn lemma_split_move_wide_imm(w: u32)
    by (bit_vector)
    requires
        w & 0x1c000000u32 == 0x10000000u32,
        w & 0x1f800000u32 == 0x12800000u32,
    ensures
        w == enc_move_wide_imm((w >> 29u32) & 0x7u32, (w >> 21u32) & 0x3u32, (w >> 5u32) & 0xffffu32, w & 0x1fu32),
        (w >> 29u32) & 0x7u32 <= 0x7u32,
        (w >> 21u32) & 0x3u32 <= 0x3u32,
        (w >> 5u32) & 0xffffu32 <= 0xffffu32,
        w & 0x1fu32 <= 0x1fu32,
{
}

proof fn lemma_parse_move_wide_imm_sound(w: u32)
    requires
        w & 0x1c000000u32 == 0x10000000u32,
        w & 0x1f800000u32 == 0x12800000u32,
    ensures
        spec_parse_move_wide_imm(w) matches Ok(i) ==> i.spec_encode() == w,
{
    lemma_split_move_wide_imm(w);
}

/// Variant and operands of a word in the bitfield group.
pub open spec fn spec_parse_bitfield(w: u32) -> Result<AArch64Inst, DecodeError> {
    let sf = (w >> 31u32) & 0x1u32;
    let opc = (w >> 29u32) & 0x3u32;
    let n = (w >> 22u32) & 0x1u32;
    let immr = (w >> 16u32) & 0x3fu32;
    let imms = (w >> 10u32) & 0x3fu32;
    let rn = (w >> 5u32) & 0x1fu32;
    let rd = w & 0x1fu32;
    if sf == 0u32 && opc == 0u32 && (n == 0u32 && immr < 32u32 && imms < 32u32) {
        Ok(AArch64Inst::Sbfm32(Bitfield { n: n as u8, immr: immr as u8, imms: imms as u8, rn: AArch64RegisterId::spec_gpr_or_zr(rn), rd: AArch64RegisterId::spec_gpr_or_zr(rd) }))
    } else if sf == 0u32 && opc == 1u32 && (n == 0u32 && immr < 32u32 && imms < 32u32) {
        Ok(AArch64Inst::Bfm32(Bitfield { n: n as u8, immr: immr as u8, imms: imms as u8, rn: AArch64RegisterId::spec_gpr_or_zr(rn), rd: AArch64RegisterId::spec_gpr_or_zr(rd) }))
    } else if sf == 0u32 && opc == 2u32 && (n == 0u32 && immr < 32u32 && imms < 32u32) {
        Ok(AArch64Inst::Ubfm32(Bitfield { n: n as u8, immr: immr as u8, imms: imms as u8, rn: AArch64RegisterId::spec_gpr_or_zr(rn), rd: AArch64RegisterId::spec_gpr_or_zr(rd) }))
    } else if sf == 1u32 && opc == 0u32 && (n == 1u32) {
        Ok(AArch64Inst::Sbfm64(Bitfield { n: n as u8, immr: immr as u8, imms: imms as u8, rn: AArch64RegisterId::spec_gpr_or_zr(rn), rd: AArch64RegisterId::spec_gpr_or_zr(rd) }))
    } else if sf == 1u32 && opc == 1u32 && (n == 1u32) {
        Ok(AArch64Inst::Bfm64(Bitfield { n: n as u8, immr: immr as u8, imms: imms as u8, rn: AArch64RegisterId::spec_gpr_or_zr(rn), rd: AArch64RegisterId::spec_gpr_or_zr(rd) }))
    } else if sf == 1u32 && opc == 2u32 && (n == 1u32) {
        Ok(AArch64Inst::Ubfm64(Bitfield { n: n as u8, immr: immr as u8, imms: imms as u8, rn: AArch64RegisterId::spec_gpr_or_zr(rn), rd: AArch64RegisterId::spec_gpr_or_zr(rd) }))
    } else {
        Err(DecodeError::UnknownInstruction { word: w })
    }
}

/// Decodes a word of the bitfield group.
pub fn parse_bitfield(w: u32) -> (r: Result<AArch64Inst, DecodeError>)
    ensures
        r == spec_parse_bitfield(w),
{
    let sf = (w >> 31u32) & 0x1u32;
    let opc = (w >> 29u32) & 0x3u32;
    let n = (w >> 22u32) & 0x1u32;
    let immr = (w >> 16u32) & 0x3fu32;
    let imms = (w >> 10u32) & 0x3fu32;
    let rn = (w >> 5u32) & 0x1fu32;
    let rd = w & 0x1fu32;
    if sf == 0u32 && opc == 0u32 && (n == 0u32 && immr < 32u32 && imms < 32u32) {
        Ok(AArch64Inst::Sbfm32(Bitfield { n: n as u8, immr: immr as u8, imms: imms as u8, rn: AArch64RegisterId::gpr_or_zr(rn), rd: AArch64RegisterId::gpr_or_zr(rd) }))
    } else if sf == 0u32 && opc == 1u32 && (n == 0u32 && immr < 32u32 && imms < 32u32) {
        Ok(AArch64Inst::Bfm32(Bitfield { n: n as u8, immr: immr as u8, imms: imms as u8, rn: AArch64RegisterId::gpr_or_zr(rn), rd: AArch64RegisterId::gpr_or_zr(rd) }))
    } else if sf == 0u32 && opc == 2u32 && (n == 0u32 && immr < 32u32 && imms < 32u32) {
        Ok(AArch64Inst::Ubfm32(Bitfield { n: n as u8, immr: immr as u8, imms: imms as u8, rn: AArch64RegisterId::gpr_or_zr(rn), rd: AArch64RegisterId::gpr_or_zr(rd) }))
    } else if sf == 1u32 && opc == 0u32 && (n == 1u32) {
        Ok(AArch64Inst::Sbfm64(Bitfield { n: n as u8, immr: immr as u8, imms: imms as u8, rn: AArch64RegisterId::gpr_or_zr(rn), rd: AArch64RegisterId::gpr_or_zr(rd) }))
    } else if sf == 1u32 && opc == 1u32 && (n == 1u32) {
        Ok(AArch64Inst::Bfm64(Bitfield { n: n as u8, immr: immr as u8, imms: imms as u8, rn: AArch64RegisterId::gpr_or_zr(rn), rd: AArch64RegisterId::gpr_or_zr(rd) }))
    } else if sf == 1u32 && opc == 2u32 && (n == 1u32) {
        Ok(AArch64Inst::Ubfm64(Bitfield { n: n as u8, immr: immr as u8, imms: imms as u8, rn: AArch64RegisterId::gpr_or_zr(rn), rd: AArch64RegisterId::gpr_or_zr(rd) }))
    } else {
        Err(DecodeError::UnknownInstruction { word: w })
    }
}

proof fn lemma_split_bitfield(w: u32)
    by (bit_vector)
    requires
        w & 0x1c000000u32 == 0x10000000u32,
        w & 0x1f800000u32 == 0x13000000u32,
    ensures
        w == enc_bitfield((w >> 31u32) & 0x1u32, (w >> 29u32) & 0x3u32, (w >> 22u32) & 0x1u32, (w >> 16u32) & 0x3fu32, (w >> 10u32) & 0x3fu32, (w >> 5u32) & 0x1fu32, w & 0x1fu32),
        (w >> 31u32) & 0x1u32 <= 0x1u32,
        (w >> 29u32) & 0x3u32 <= 0x3u32,
        (w >> 22u32) & 0x1u32 <= 0x1u32,
        (w >> 16u32) & 0x3fu32 <= 0x3fu32,
        (w >> 10u32) & 0x3fu32 <= 0x3fu32,
        (w >> 5u32) & 0x1fu32 <= 0x1fu32,
        w & 0x1fu32 <= 0x1fu32,
{
}

proof fn lemma_parse_bitfield_sound(w: u32)
    requires
        w & 0x1c000000u32 == 0x10000000u32,
        w & 0x1f800000u32 == 0x13000000u32,
    ensures
        spec_parse_bitfield(w) matches Ok(i) ==> i.spec_encode() == w,
{
    lemma_split_bitfield(w);
}

/// Variant and operands of a word in the extract group.
pub open spec fn spec_parse_extract(w: u32) -> Result<AArch64Inst, DecodeError> {
    let sf_op21 = (w >> 29u32) & 0x7u32;
    let n = (w >> 22u32) & 0x1u32;
    let o0 = (w >> 21u32) & 0x1u32;
    let rm = (w >> 16u32) & 0x1fu32;
    let imms = (w >> 10u32) & 0x3fu32;
    let rn = (w >> 5u32) & 0x1fu32;
    let rd = w & 0x1fu32;
    if sf_op21 == 0u32 && n == 0u32 && o0 == 0u32 && (imms < 32u32) {
        Ok(AArch64Inst::Extr32(ExtractImm { rm: AArch64RegisterId::spec_gpr_or_zr(rm), imms: imms as u8, rn: AArch64RegisterId::spec_gpr_or_zr(rn), rd: AArch64RegisterId::spec_gpr_or_zr(rd) }))
    } else if sf_op21 == 4u32 && n == 1u32 && o0 == 0u32 {
        Ok(AArch64Inst::Extr64(ExtractImm { rm: AArch64RegisterId::spec_gpr_or_zr(rm), imms: imms as u8, rn: AArch64RegisterId::spec_gpr_or_zr(rn), rd: AArch64RegisterId::spec_gpr_or_zr(rd) }))
    } else {
        Err(DecodeError::UnknownInstruction { word: w })
    }
}

/// Decodes a word of the extract group.
pub fn parse_extract(w: u32) -> (r: Result<AArch64Inst, DecodeError>)
    ensures
        r == spec_parse_extract(w),
{
    let sf_op21 = (w >> 29u32) & 0x7u32;
    let n = (w >> 22u32) & 0x1u32;
    let o0 = (w >> 21u32) & 0x1u32;
    let rm = (w >> 16u32) & 0x1fu32;
    let imms = (w >> 10u32) & 0x3fu32;
    let rn = (w >> 5u32) & 0x1fu32;
    let rd = w & 0x1fu32;
    if sf_op21 == 0u32 && n == 0u32 && o0 == 0u32 && (imms < 32u32) {
        Ok(AArch64Inst::Extr32(ExtractImm { rm: AArch64RegisterId::gpr_or_zr(rm), imms: imms as u8, rn: AArch64RegisterId::gpr_or_zr(rn), rd: AArch64RegisterId::gpr_or_zr(rd) }))
    } else if sf_op21 == 4u32 && n == 1u32 && o0 == 0u32 {
        Ok(AArch64Inst::Extr64(ExtractImm { rm: AArch64RegisterId::gpr_or_zr(rm), imms: imms as u8, rn: AArch64RegisterId::gpr_or_zr(rn), rd: AArch64RegisterId::gpr_or_zr(rd) }))
    } else {
        Err(DecodeError::UnknownInstruction { word: w })
    }
}

proof fn lemma_split_extract(w: u32)
    by (bit_vector)
    requires
        w & 0x1c000000u32 == 0x10000000u32,
        w & 0x1f800000u32 == 0x13800000u32,
    ensures
        w == enc_extract((w >> 29u32) & 0x7u32, (w >> 22u32) & 0x1u32, (w >> 21u32) & 0x1u32, (w >> 16u32) & 0x1fu32, (w >> 10u32) & 0x3fu32, (w >> 5u32) & 0x1fu32, w & 0x1fu32),
        (w >> 29u32) & 0x7u32 <= 0x7u32,
        (w >> 22u32) & 0x1u32 <= 0x1u32,
        (w >> 21u32) & 0x1u32 <= 0x1u32,
        (w >> 16u32) & 0x1fu32 <= 0x1fu32,
        (w >> 10u32) & 0x3fu32 <= 0x3fu32,
        (w >> 5u32) & 0x1fu32 <= 0x1fu32,
        w & 0x1fu32 <= 0x1fu32,
{
}

proof fn lemma_parse_extract_sound(w: u32)
    requires
        w & 0x1c000000u32 == 0x10000000u32,
        w & 0x1f800000u32 == 0x13800000u32,
    ensures
        spec_parse_extract(w) matches Ok(i) ==> i.spec_encode() == w,
{
    lemma_split_extract(w);
}

/// Variant and operands of a word in the cond branch imm group.
pub open spec fn spec_parse_cond_branch_imm(w: u32) -> Result<AArch64Inst, DecodeError> {
    let o1 = (w >> 24u32) & 0x1u32;
    let imm19 = (w >> 5u32) & 0x7ffffu32;
    let o0 = (w >> 4u32) & 0x1u32;
    let cond = w & 0xfu32;
    if o1 == 0u32 && o0 == 0u32 {
        Ok(AArch64Inst::BCond(Imm19Cond { imm19: imm19 as u32, cond: cond as u8 }))
    } else if o1 == 0u32 && o0 == 1u32 {
        Ok(AArch64Inst::BcCond(Imm19Cond { imm19: imm19 as u32, cond: cond as u8 }))
    } else {
        Err(DecodeError::UnknownInstruction { word: w })
    }
}

/// Decodes a word of the cond branch imm group.
pub fn parse_cond_branch_imm(w: u32) -> (r: Result<AArch64Inst, DecodeError>)
    ensures
        r == spec_parse_cond_branch_imm(w),
{
    let o1 = (w >> 24u32) & 0x1u32;
    let imm19 = (w >> 5u32) & 0x7ffffu32;
    let o0 = (w >> 4u32) & 0x1u32;
    let cond = w & 0xfu32;
    if o1 == 0u32 && o0 == 0u32 {
        Ok(AArch64Inst::BCond(Imm19Cond { imm19: imm19 as u32, cond: cond as u8 }))
    } else if o1 == 0u32 && o0 == 1u32 {
        Ok(AArch64Inst::BcCond(Imm19Cond { imm19: imm19 as u32, cond: cond as u8 }))
    } else {
        Err(DecodeError::UnknownInstruction { word: w })
    }
}

proof fn lemma_split_cond_branch_imm(w: u32)
    by (bit_vector)
    requires
        w & 0x1c000000u32 == 0x14000000u32,
        w & 0xfe000000u32 == 0x54000000u32,
    ensures
        w == enc_cond_branch_imm((w >> 24u32) & 0x1u32, (w >> 5u32) & 0x7ffffu32, (w >> 4u32) & 0x1u32, w & 0xfu32),
        (w >> 24u32) & 0x1u32 <= 0x1u32,
        (w >> 5u32) & 0x7ffffu32 <= 0x7ffffu32,
        (w >> 4u32) & 0x1u32 <= 0x1u32,
        w & 0xfu32 <= 0xfu32,
{
}

proof fn lemma_parse_cond_branch_imm_sound(w: u32)
    requires
        w & 0x1c000000u32 == 0x14000000u32,
        w & 0xfe000000u32 == 0x54000000u32,
    ensures
        spec_parse_cond_branch_imm(w) matches Ok(i) ==> i.spec_encode() == w,
{
    lemma_split_cond_branch_imm(w);
}

/// Variant and operands of a word in the exception gen group.
pub open spec fn spec_parse_exception_gen(w: u32) -> Result<AArch64Inst, DecodeError> {
    let opc = (w >> 21u32) & 0x7u32;
    let imm16 = (w >> 5u32) & 0xffffu32;
    let op2 = (w >> 2u32) & 0x7u32;
    let ll = w & 0x3u32;
    if opc == 0u32 && op2 == 0u32 && ll == 1u32 {
        Ok(AArch64Inst::Svc(ExceptionGen { imm16: imm16 as u16 }))
    } else if opc == 0u32 && op2 == 0u32 && ll == 2u32 {
        Ok(AArch64Inst::Hvc(ExceptionGen { imm16: imm16 as u16 }))
    } else if opc == 0u32 && op2 == 0u32 && ll == 3u32 {
        Ok(AArch64Inst::Smc(ExceptionGen { imm16: imm16 as u16 }))
    } else if opc == 1u32 && op2 == 0u32 && ll == 0u32 {
        Ok(AArch64Inst::Brk(ExceptionGen { imm16: imm16 as u16 }))
    } else if opc == 2u32 && op2 == 0u32 && ll == 0u32 {
        Ok(AArch64Inst::Hlt(ExceptionGen { imm16: imm16 as u16 }))
    } else if opc == 3u32 && op2 == 0u32 && ll == 0u32 {
        Ok(AArch64Inst::TCancle(ExceptionGen { imm16: imm16 as u16 }))
    } else if opc == 5u32 && op2 == 0u32 && ll == 1u32 {
        Ok(AArch64Inst::DcpS1(ExceptionGen { imm16: imm16 as u16 }))
    } else if opc == 5u32 && op2 == 0u32 && ll == 2u32 {
        Ok(AArch64Inst::DcpS2(ExceptionGen { imm16: imm16 as u16 }))
    } else if opc == 5u32 && op2 == 0u32 && ll == 3u32 {
        Ok(AArch64Inst::DcpS3(ExceptionGen { imm16: imm16 as u16 }))
    } else {
        Err(DecodeError::UnknownInstruction { word: w })
    }
}

/// Decodes a word of the exception gen group.
pub fn parse_exception_gen(w: u32) -> (r: Result<AArch64Inst, DecodeError>)
    ensures
        r == spec_parse_exception_gen(w),
{
    let opc = (w >> 21u32) & 0x7u32;
    let imm16 = (w >> 5u32) & 0xffffu32;
    let op2 = (w >> 2u32) & 0x7u32;
    let ll = w & 0x3u32;
    if opc == 0u32 && op2 == 0u32 && ll == 1u32 {
        Ok(AArch64Inst::Svc(ExceptionGen { imm16: imm16 as u16 }))
    } else if opc == 0u32 && op2 == 0u32 && ll == 2u32 {
        Ok(AArch64Inst::Hvc(ExceptionGen { imm16: imm16 as u16 }))
    } else if opc == 0u32 && op2 == 0u32 && ll == 3u32 {
        Ok(AArch64Inst::Smc(ExceptionGen { imm16: imm16 as u16 }))
    } else if opc == 1u32 && op2 == 0u32 && ll == 0u32 {
        Ok(AArch64Inst::Brk(ExceptionGen { imm16: imm16 as u16 }))
    } else if opc == 2u32 && op2 == 0u32 && ll == 0u32 {
        Ok(AArch64Inst::Hlt(ExceptionGen { imm16: imm16 as u16 }))
    } else if opc == 3u32 && op2 == 0u32 && ll == 0u32 {
        Ok(AArch64Inst::TCancle(ExceptionGen { imm16: imm16 as u16 }))
    } else if opc == 5u32 && op2 == 0u32 && ll == 1u32 {
        Ok(AArch64Inst::DcpS1(ExceptionGen { imm16: imm16 as u16 }))
    } else if opc == 5u32 && op2 == 0u32 && ll == 2u32 {
        Ok(AArch64Inst::DcpS2(ExceptionGen { imm16: imm16 as u16 }))
    } else if opc == 5u32 && op2 == 0u32 && ll == 3u32 {
        Ok(AArch64Inst::DcpS3(ExceptionGen { imm16: imm16 as u16 }))
    } else {
        Err(DecodeError::UnknownInstruction { word: w })
    }
}

proof fn lemma_split_exception_gen(w: u32)
    by (bit_vector)
    requires
        w & 0x1c000000u32 == 0x14000000u32,
        w & 0xff000000u32 == 0xd4000000u32,
    ensures
        w == enc_exception_gen((w >> 21u32) & 0x7u32, (w >> 5u32) & 0xffffu32, (w >> 2u32) & 0x7u32, w & 0x3u32),
        (w >> 21u32) & 0x7u32 <= 0x7u32,
        (w >> 5u32) & 0xffffu32 <= 0xffffu32,
        (w >> 2u32) & 0x7u32 <= 0x7u32,
        w & 0x3u32 <= 0x3u32,
{
}

proof fn lemma_parse_exception_gen_sound(w: u32)
    requires
        w & 0x1c000000u32 == 0x14000000u32,
        w & 0xff000000u32 == 0xd4000000u32,
    ensures
        spec_parse_exception_gen(w) matches Ok(i) ==> i.spec_encode() == w,
{
    lemma_split_exception_gen(w);
}

/// Variant and operands of a word in the hints group.
pub open spec fn spec_parse_hints(w: u32) -> Result<AArch64Inst, DecodeError> {
    let crm = (w >> 8u32) & 0xfu32;
    let op2 = (w >> 5u32) & 0x7u32;
    if crm == 0u32 && op2 == 0u32 {
        Ok(AArch64Inst::Nop)
    } else if crm == 0u32 && op2 == 1u32 {
        Ok(AArch64Inst::Yield)
    } else if crm == 0u32 && op2 == 2u32 {
        Ok(AArch64Inst::Wfe)
    } else if crm == 0u32 && op2 == 3u32 {
        Ok(AArch64Inst::Wfi)
    } else if crm == 0u32 && op2 == 4u32 {
        Ok(AArch64Inst::Sev)
    } else if crm == 0u32 && op2 == 5u32 {
        Ok(AArch64Inst::Sevl)
    } else if crm == 0u32 && op2 == 7u32 {
        Ok(AArch64Inst::Xpaclri)
    } else if crm == 1u32 && op2 == 0u32 {
        Ok(AArch64Inst::Pacia1716Var)
    } else if crm == 1u32 && op2 == 2u32 {
        Ok(AArch64Inst::Pacib1716Var)
    } else if crm == 1u32 && op2 == 4u32 {
        Ok(AArch64Inst::Autia1716Var)
    } else if crm == 1u32 && op2 == 6u32 {
        Ok(AArch64Inst::Autib1716Var)
    } else if crm == 3u32 && op2 == 0u32 {
        Ok(AArch64Inst::PaciazVar)
    } else if crm == 3u32 && op2 == 1u32 {
        Ok(AArch64Inst::PaciaspVar)
    } else if crm == 3u32 && op2 == 2u32 {
        Ok(AArch64Inst::PacibzVar)
    } else if crm == 3u32 && op2 == 3u32 {
        Ok(AArch64Inst::PacibspVar)
    } else if crm == 3u32 && op2 == 4u32 {
        Ok(AArch64Inst::AutiazVar)
    } else if crm == 3u32 && op2 == 5u32 {
        Ok(AArch64Inst::AutiaspVar)
    } else if crm == 3u32 && op2 == 6u32 {
        Ok(AArch64Inst::AutibzVar)
    } else if crm == 3u32 && op2 == 7u32 {
        Ok(AArch64Inst::AutibspVar)
    } else {
        Ok(AArch64Inst::Hint(SystemHint { crm: crm as u8, op2: op2 as u8 }))
    }
}

/// Decodes a word of the hints group.
pub fn parse_hints(w: u32) -> (r: Result<AArch64Inst, DecodeError>)
    ensures
        r == spec_parse_hints(w),
{
    let crm = (w >> 8u32) & 0xfu32;
    let op2 = (w >> 5u32) & 0x7u32;
    if crm == 0u32 && op2 == 0u32 {
        Ok(AArch64Inst::Nop)
    } else if crm == 0u32 && op2 == 1u32 {
        Ok(AArch64Inst::Yield)
    } else if crm == 0u32 && op2 == 2u32 {
        Ok(AArch64Inst::Wfe)
    } else if crm == 0u32 && op2 == 3u32 {
        Ok(AArch64Inst::Wfi)
    } else if crm == 0u32 && op2 == 4u32 {
        Ok(AArch64Inst::Sev)
    } else if crm == 0u32 && op2 == 5u32 {
        Ok(AArch64Inst::Sevl)
    } else if crm == 0u32 && op2 == 7u32 {
        Ok(AArch64Inst::Xpaclri)
    } else if crm == 1u32 && op2 == 0u32 {
        Ok(AArch64Inst::Pacia1716Var)
    } else if crm == 1u32 && op2 == 2u32 {
        Ok(AArch64Inst::Pacib1716Var)
    } else if crm == 1u32 && op2 == 4u32 {
        Ok(AArch64Inst::Autia1716Var)
    } else if crm == 1u32 && op2 == 6u32 {
        Ok(AArch64Inst::Autib1716Var)
    } else if crm == 3u32 && op2 == 0u32 {
        Ok(AArch64Inst::PaciazVar)
    } else if crm == 3u32 && op2 == 1u32 {
        Ok(AArch64Inst::PaciaspVar)
    } else if crm == 3u32 && op2 == 2u32 {
        Ok(AArch64Inst::PacibzVar)
    } else if crm == 3u32 && op2 == 3u32 {
        Ok(AArch64Inst::PacibspVar)
    } else if crm == 3u32 && op2 == 4u32 {
        Ok(AArch64Inst::AutiazVar)
    } else if crm == 3u32 && op2 == 5u32 {
        Ok(AArch64Inst::AutiaspVar)
    } else if crm == 3u32 && op2 == 6u32 {
        Ok(AArch64Inst::AutibzVar)
    } else if crm == 3u32 && op2 == 7u32 {
        Ok(AArch64Inst::AutibspVar)
    } else {
        Ok(AArch64Inst::Hint(SystemHint { crm: crm as u8, op2: op2 as u8 }))
    }
}

proof fn lemma_split_hints(w: u32)
    by (bit_vector)
    requires
        w & 0x1c000000u32 == 0x14000000u32,
        w & 0xfffff01fu32 == 0xd503201fu32,
    ensures
        w == enc_hints((w >> 8u32) & 0xfu32, (w >> 5u32) & 0x7u32),
        (w >> 8u32) & 0xfu32 <= 0xfu32,
        (w >> 5u32) & 0x7u32 <= 0x7u32,
{
}

proof fn lemma_parse_hints_sound(w: u32)
    requires
        w & 0x1c000000u32 == 0x14000000u32,
        w & 0xfffff01fu32 == 0xd503201fu32,
    ensures
        spec_parse_hints(w) matches Ok(i) ==> i.spec_encode() == w,
{
    lemma_split_hints(w);
}

/// Variant and operands of a word in the uncond branch reg group.
pub open spec fn spec_parse_uncond_branch_reg(w: u32) -> Result<AArch64Inst, DecodeError> {
    let opc = (w >> 21u32) & 0xfu32;
    let op2 = (w >> 16u32) & 0x1fu32;
    let op3 = (w >> 10u32) & 0x3fu32;
    let rn = (w >> 5u32) & 0x1fu32;
    let op4 = w & 0x1fu32;
    if op2 == 31u32 && op4 == 31u32 && (op3 == 2u32 || op3 == 3u32) && (opc == 0u32 || opc == 1u32) {
        Err(DecodeError::UnknownInstruction { word: w })
    } else if op2 == 31u32 && op4 == 31u32 && rn == 31u32 && (op3 == 2u32 || op3 == 3u32) && (opc == 2u32 || opc == 4u32) {
        Err(DecodeError::UnknownInstruction { word: w })
    } else if op2 == 31u32 && (op3 == 2u32 || op3 == 3u32) && (opc == 8u32 || opc == 9u32) {
        Err(DecodeError::UnknownInstruction { word: w })
    } else if opc == 0u32 && op2 == 31u32 && op3 == 0u32 && op4 == 0u32 {
        Ok(AArch64Inst::Br(UncondBranchReg { rn: AArch64RegisterId::spec_gpr_or_zr(rn) }))
    } else if opc == 1u32 && op2 == 31u32 && op3 == 0u32 && op4 == 0u32 {
        Ok(AArch64Inst::Blr(UncondBranchReg { rn: AArch64RegisterId::spec_gpr_or_zr(rn) }))
    } else if opc == 2u32 && op2 == 31u32 && op3 == 0u32 && op4 == 0u32 {
        Ok(AArch64Inst::Ret(UncondBranchReg { rn: AArch64RegisterId::spec_gpr_or_zr(rn) }))
    } else if opc == 4u32 && op2 == 31u32 && op3 == 0u32 && op4 == 0u32 && (rn == 31u32) {
        Ok(AArch64Inst::ERet(UncondBranchReg { rn: AArch64RegisterId::spec_gpr_or_zr(rn) }))
    } else if opc == 5u32 && op2 == 31u32 && op3 == 0u32 && op4 == 0u32 && (rn == 31u32) {
        Ok(AArch64Inst::Drps(UncondBranchReg { rn: AArch64RegisterId::spec_gpr_or_zr(rn) }))
    } else {
        Err(DecodeError::UnknownInstruction { word: w })
    }
}

/// Decodes a word of the uncond branch reg group.
pub fn parse_uncond_branch_reg(w: u32) -> (r: Result<AArch64Inst, DecodeError>)
    ensures
        r == spec_parse_uncond_branch_reg(w),
{
    let opc = (w >> 21u32) & 0xfu32;
    let op2 = (w >> 16u32) & 0x1fu32;
    let op3 = (w >> 10u32) & 0x3fu32;
    let rn = (w >> 5u32) & 0x1fu32;
    let op4 = w & 0x1fu32;
    if op2 == 31u32 && op4 == 31u32 && (op3 == 2u32 || op3 == 3u32) && (opc == 0u32 || opc == 1u32) {
        Err(DecodeError::UnknownInstruction { word: w })
    } else if op2 == 31u32 && op4 == 31u32 && rn == 31u32 && (op3 == 2u32 || op3 == 3u32) && (opc == 2u32 || opc == 4u32) {
        Err(DecodeError::UnknownInstruction { word: w })
    } else if op2 == 31u32 && (op3 == 2u32 || op3 == 3u32) && (opc == 8u32 || opc == 9u32) {
        Err(DecodeError::UnknownInstruction { word: w })
    } else if opc == 0u32 && op2 == 31u32 && op3 == 0u32 && op4 == 0u32 {
        Ok(AArch64Inst::Br(UncondBranchReg { rn: AArch64RegisterId::gpr_or_zr(rn) }))
    } else if opc == 1u32 && op2 == 31u32 && op3 == 0u32 && op4 == 0u32 {
        Ok(AArch64Inst::Blr(UncondBranchReg { rn: AArch64RegisterId::gpr_or_zr(rn) }))
    } else if opc == 2u32 && op2 == 31u32 && op3 == 0u32 && op4 == 0u32 {
        Ok(AArch64Inst::Ret(UncondBranchReg { rn: AArch64RegisterId::gpr_or_zr(rn) }))
    } else if opc == 4u32 && op2 == 31u32 && op3 == 0u32 && op4 == 0u32 && (rn == 31u32) {
        Ok(AArch64Inst::ERet(UncondBranchReg { rn: AArch64RegisterId::gpr_or_zr(rn) }))
    } else if opc == 5u32 && op2 == 31u32 && op3 == 0u32 && op4 == 0u32 && (rn == 31u32) {
        Ok(AArch64Inst::Drps(UncondBranchReg { rn: AArch64RegisterId::gpr_or_zr(rn) }))
    } else {
        Err(DecodeError::UnknownInstruction { word: w })
    }
}

proof fn lemma_split_uncond_branch_reg(w: u32)
    by (bit_vector)
    requires
        w & 0x1c000000u32 == 0x14000000u32,
        w & 0xfe000000u32 == 0xd6000000u32,
    ensures
        w == enc_uncond_branch_reg((w >> 21u32) & 0xfu32, (w >> 16u32) & 0x1fu32, (w >> 10u32) & 0x3fu32, (w >> 5u32) & 0x1fu32, w & 0x1fu32),
        (w >> 21u32) & 0xfu32 <= 0xfu32,
        (w >> 16u32) & 0x1fu32 <= 0x1fu32,
        (w >> 10u32) & 0x3fu32 <= 0x3fu32,
        (w >> 5u32) & 0x1fu32 <= 0x1fu32,
        w & 0x1fu32 <= 0x1fu32,
{
}

proof fn lemma_parse_uncond_branch_reg_sound(w: u32)
    requires
        w & 0x1c000000u32 == 0x14000000u32,
        w & 0xfe000000u32 == 0xd6000000u32,
    ensures
        spec_parse_uncond_branch_reg(w) matches Ok(i) ==> i.spec_encode() == w,
{
    lemma_split_uncond_branch_reg(w);
}

/// Variant and operands of a word in the uncond branch imm group.
pub open spec fn spec_parse_uncond_branch_imm(w: u32) -> Result<AArch64Inst, DecodeError> {
    let op = (w >> 31u32) & 0x1u32;
    let imm26 = w & 0x3ffffffu32;
    if op == 0u32 {
        Ok(AArch64Inst::BImm(Imm26 { imm26: imm26 as u32 }))
    } else if op == 1u32 {
        Ok(AArch64Inst::BlImm(Imm26 { imm26: imm26 as u32 }))
    } else {
        Err(DecodeError::UnknownInstruction { word: w })
    }
}

/// Decodes a word of the uncond branch imm group.
pub fn parse_uncond_branch_imm(w: u32) -> (r: Result<AArch64Inst, DecodeError>)
    ensures
        r == spec_parse_uncond_branch_imm(w),
{
    let op = (w >> 31u32) & 0x1u32;
    let imm26 = w & 0x3ffffffu32;
    if op == 0u32 {
        Ok(AArch64Inst::BImm(Imm26 { imm26: imm26 as u32 }))
    } else if op == 1u32 {
        Ok(AArch64Inst::BlImm(Imm26 { imm26: imm26 as u32 }))
    } else {
        Err(DecodeError::UnknownInstruction { word: w })
    }
}

proof fn lemma_split_uncond_branch_imm(w: u32)
    by (bit_vector)
    requires
        w & 0x1c000000u32 == 0x14000000u32,
        w & 0x7c000000u32 == 0x14000000u32,
    ensures
        w == enc_uncond_branch_imm((w >> 31u32) & 0x1u32, w & 0x3ffffffu32),
        (w >> 31u32) & 0x1u32 <= 0x1u32,
        w & 0x3ffffffu32 <= 0x3ffffffu32,
{
}

proof fn lemma_parse_uncond_branch_imm_sound(w: u32)
    requires
        w & 0x1c000000u32 == 0x14000000u32,
        w & 0x7c000000u32 == 0x14000000u32,
    ensures
        spec_parse_uncond_branch_imm(w) matches Ok(i) ==> i.spec_encode() == w,
{
    lemma_split_uncond_branch_imm(w);
}

/// Variant and operands of a word in the cmp and branch imm group.
pub open spec fn spec_parse_cmp_and_branch_imm(w: u32) -> Result<AArch64Inst, DecodeError> {
    let sf = (w >> 31u32) & 0x1u32;
    let op = (w >> 24u32) & 0x1u32;
    let imm19 = (w >> 5u32) & 0x7ffffu32;
    let rt = w & 0x1fu32;
    if sf == 0u32 && op == 0u32 {
        Ok(AArch64Inst::Cbz32(Imm19Rt { imm19: imm19 as u32, rt: AArch64RegisterId::spec_gpr_or_zr(rt) }))
    } else if sf == 0u32 && op == 1u32 {
        Ok(AArch64Inst::Cbnz32(Imm19Rt { imm19: imm19 as u32, rt: AArch64RegisterId::spec_gpr_or_zr(rt) }))
    } else if sf == 1u32 && op == 0u32 {
        Ok(AArch64Inst::Cbz64(Imm19Rt { imm19: imm19 as u32, rt: AArch64RegisterId::spec_gpr_or_zr(rt) }))
    } else if sf == 1u32 && op == 1u32 {
        Ok(AArch64Inst::Cbnz64(Imm19Rt { imm19: imm19 as u32, rt: AArch64RegisterId::spec_gpr_or_zr(rt) }))
    } else {
        Err(DecodeError::UnknownInstruction { word: w })
    }
}

/// Decodes a word of the cmp and branch imm group.
pub fn parse_cmp_and_branch_imm(w: u32) -> (r: Result<AArch64Inst, DecodeError>)
    ensures
        r == spec_parse_cmp_and_branch_imm(w),
{
    let sf = (w >> 31u32) & 0x1u32;
    let op = (w >> 24u32) & 0x1u32;
    let imm19 = (w >> 5u32) & 0x7ffffu32;
    let rt = w & 0x1fu32;
    if sf == 0u32 && op == 0u32 {
        Ok(AArch64Inst::Cbz32(Imm19Rt { imm19: imm19 as u32, rt: AArch64RegisterId::gpr_or_zr(rt) }))
    } else if sf == 0u32 && op == 1u32 {
        Ok(AArch64Inst::Cbnz32(Imm19Rt { imm19: imm19 as u32, rt: AArch64RegisterId::gpr_or_zr(rt) }))
    } else if sf == 1u32 && op == 0u32 {
        Ok(AArch64Inst::Cbz64(Imm19Rt { imm19: imm19 as u32, rt: AArch64RegisterId::gpr_or_zr(rt) }))
    } else if sf == 1u32 && op == 1u32 {
        Ok(AArch64Inst::Cbnz64(Imm19Rt { imm19: imm19 as u32, rt: AArch64RegisterId::gpr_or_zr(rt) }))
    } else {
        Err(DecodeError::UnknownInstruction { word: w })
    }
}

proof fn lemma_split_cmp_and_branch_imm(w: u32)
    by (bit_vector)
    requires
        w & 0x1c000000u32 == 0x14000000u32,
        w & 0x7e000000u32 == 0x34000000u32,
    ensures
        w == enc_cmp_and_branch_imm((w >> 31u32) & 0x1u32, (w >> 24u32) & 0x1u32, (w >> 5u32) & 0x7ffffu32, w & 0x1fu32),
        (w >> 31u32) & 0x1u32 <= 0x1u32,
        (w >> 24u32) & 0x1u32 <= 0x1u32,
        (w >> 5u32) & 0x7ffffu32 <= 0x7ffffu32,
        w & 0x1fu32 <= 0x1fu32,
{
}

proof fn lemma_parse_cmp_and_branch_imm_sound(w: u32)
    requires
        w & 0x1c000000u32 == 0x14000000u32,
        w & 0x7e000000u32 == 0x34000000u32,
    ensures
        spec_parse_cmp_and_branch_imm(w) matches Ok(i) ==> i.spec_encode() == w,
{
    lemma_split_cmp_and_branch_imm(w);
}

/// Variant and operands of a word in the test and branch imm group.
pub open spec fn spec_parse_test_and_branch_imm(w: u32) -> Result<AArch64Inst, DecodeError> {
    let b5 = (w >> 31u32) & 0x1u32;
    let op = (w >> 24u32) & 0x1u32;
    let b40 = (w >> 19u32) & 0x1fu32;
    let imm14 = (w >> 5u32) & 0x3fffu32;
    let rt = w & 0x1fu32;
    if op == 0u32 {
        Ok(AArch64Inst::Tbz(B5B40Imm14Rt { b5: b5 as u8, b40: b40 as u8, imm14: imm14 as u16, rt: AArch64RegisterId::spec_gpr_or_zr(rt) }))
    } else if op == 1u32 {
        Ok(AArch64Inst::Tbnz(B5B40Imm14Rt { b5: b5 as u8, b40: b40 as u8, imm14: imm14 as u16, rt: AArch64RegisterId::spec_gpr_or_zr(rt) }))
    } else {
        Err(DecodeError::UnknownInstruction { word: w })
    }
}

/// Decodes a word of the test and branch imm group.
pub fn parse_test_and_branch_imm(w: u32) -> (r: Result<AArch64Inst, DecodeError>)
    ensures
        r == spec_parse_test_and_branch_imm(w),
{
    let b5 = (w >> 31u32) & 0x1u32;
    let op = (w >> 24u32) & 0x1u32;
    let b40 = (w >> 19u32) & 0x1fu32;
    let imm14 = (w >> 5u32) & 0x3fffu32;
    let rt = w & 0x1fu32;
    if op == 0u32 {
        Ok(AArch64Inst::Tbz(B5B40Imm14Rt { b5: b5 as u8, b40: b40 as u8, imm14: imm14 as u16, rt: AArch64RegisterId::gpr_or_zr(rt) }))
    } else if op == 1u32 {
        Ok(AArch64Inst::Tbnz(B5B40Imm14Rt { b5: b5 as u8, b40: b40 as u8, imm14: imm14 as u16, rt: AArch64RegisterId::gpr_or_zr(rt) }))
    } else {
        Err(DecodeError::UnknownInstruction { word: w })
    }
}

proof fn lemma_split_test_and_branch_imm(w: u32)
    by (bit_vector)
    requires
        w & 0x1c000000u32 == 0x14000000u32,
        w & 0x7e000000u32 == 0x36000000u32,
    ensures
        w == enc_test_and_branch_imm((w >> 31u32) & 0x1u32, (w >> 24u32) & 0x1u32, (w >> 19u32) & 0x1fu32, (w >> 5u32) & 0x3fffu32, w & 0x1fu32),
        (w >> 31u32) & 0x1u32 <= 0x1u32,
        (w >> 24u32) & 0x1u32 <= 0x1u32,
        (w >> 19u32) & 0x1fu32 <= 0x1fu32,
        (w >> 5u32) & 0x3fffu32 <= 0x3fffu32,
        w & 0x1fu32 <= 0x1fu32,
{
}

proof fn lemma_parse_test_and_branch_imm_sound(w: u32)
    requires
        w & 0x1c000000u32 == 0x14000000u32,
        w & 0x7e000000u32 == 0x36000000u32,
    ensures
        spec_parse_test_and_branch_imm(w) matches Ok(i) ==> i.spec_encode() == w,
{
    lemma_split_test_and_branch_imm(w);
}

/// Variant and operands of a word in the load store reg unsigned imm group.
pub open spec fn spec_parse_load_store_reg_unsigned_imm(w: u32) -> Result<AArch64Inst, DecodeError> {
    let size = (w >> 30u32) & 0x3u32;
    let v = (w >> 26u32) & 0x1u32;
    let opc = (w >> 22u32) & 0x3u32;
    let imm12 = (w >> 10u32) & 0xfffu32;
    let rn = (w >> 5u32) & 0x1fu32;
    let rt = w & 0x1fu32;
    if size == 0u32 && v == 0u32 && opc == 0u32 {
        Ok(AArch64Inst::StrbImm(OpcSizeImm12RnRt { imm12: imm12 as u16, rn: AArch64RegisterId::spec_gpr_or_sp(rn), rt: AArch64RegisterId::spec_gpr_or_zr(rt) }))
    } else if size == 0u32 && v == 0u32 && opc == 1u32 {
        Ok(AArch64Inst::LdrbImm(OpcSizeImm12RnRt { imm12: imm12 as u16, rn: AArch64RegisterId::spec_gpr_or_sp(rn), rt: AArch64RegisterId::spec_gpr_or_zr(rt) }))
    } else if size == 0u32 && v == 0u32 && opc == 2u32 {
        Ok(AArch64Inst::LdrsbImm64(OpcSizeImm12RnRt { imm12: imm12 as u16, rn: AArch64RegisterId::spec_gpr_or_sp(rn), rt: AArch64RegisterId::spec_gpr_or_zr(rt) }))
    } else if size == 0u32 && v == 0u32 && opc == 3u32 {
        Ok(AArch64Inst::LdrsbImm32(OpcSizeImm12RnRt { imm12: imm12 as u16, rn: AArch64RegisterId::spec_gpr_or_sp(rn), rt: AArch64RegisterId::spec_gpr_or_zr(rt) }))
    } else if size == 0u32 && v == 1u32 && opc == 0u32 {
        Ok(AArch64Inst::StrImmSimdFP8(OpcSizeImm12RnRt { imm12: imm12 as u16, rn: AArch64RegisterId::spec_gpr_or_sp(rn), rt: AArch64RegisterId::spec_fpr(rt) }))
    } else if size == 0u32 && v == 1u32 && opc == 1u32 {
        Ok(AArch64Inst::LdrImmSimdFP8(OpcSizeImm12RnRt { imm12: imm12 as u16, rn: AArch64RegisterId::spec_gpr_or_sp(rn), rt: AArch64RegisterId::spec_fpr(rt) }))
    } else if size == 0u32 && v == 1u32 && opc == 2u32 {
        Ok(AArch64Inst::StrImmSimdFP128(OpcSizeImm12RnRt { imm12: imm12 as u16, rn: AArch64RegisterId::spec_gpr_or_sp(rn), rt: AArch64RegisterId::spec_fpr(rt) }))
    } else if size == 0u32 && v == 1u32 && opc == 3u32 {
        Ok(AArch64Inst::LdrImmSimdFP128(OpcSizeImm12RnRt { imm12: imm12 as u16, rn: AArch64RegisterId::spec_gpr_or_sp(rn), rt: AArch64RegisterId::spec_fpr(rt) }))
    } else if size == 1u32 && v == 0u32 && opc == 0u32 {
        Ok(AArch64Inst::StrhImm(OpcSizeImm12RnRt { imm12: imm12 as u16, rn: AArch64RegisterId::spec_gpr_or_sp(rn), rt: AArch64RegisterId::spec_gpr_or_zr(rt) }))
    } else if size == 1u32 && v == 0u32 && opc == 1u32 {
        Ok(AArch64Inst::LdrhImm(OpcSizeImm12RnRt { imm12: imm12 as u16, rn: AArch64RegisterId::spec_gpr_or_sp(rn), rt: AArch64RegisterId::spec_gpr_or_zr(rt) }))
    } else if size == 1u32 && v == 0u32 && opc == 2u32 {
        Ok(AArch64Inst::LdrshImm64(OpcSizeImm12RnRt { imm12: imm12 as u16, rn: AArch64RegisterId::spec_gpr_or_sp(rn), rt: AArch64RegisterId::spec_gpr_or_zr(rt) }))
    } else if size == 1u32 && v == 0u32 && opc == 3u32 {
        Ok(AArch64Inst::LdrshImm32(OpcSizeImm12RnRt { imm12: imm12 as u16, rn: AArch64RegisterId::spec_gpr_or_sp(rn), rt: AArch64RegisterId::spec_gpr_or_zr(rt) }))
    } else if size == 1u32 && v == 1u32 && opc == 0u32 {
        Ok(AArch64Inst::StrImmSimdFP16(OpcSizeImm12RnRt { imm12: imm12 as u16, rn: AArch64RegisterId::spec_gpr_or_sp(rn), rt: AArch64RegisterId::spec_fpr(rt) }))
    } else if size == 1u32 && v == 1u32 && opc == 1u32 {
        Ok(AArch64Inst::LdrImmSimdFP16(OpcSizeImm12RnRt { imm12: imm12 as u16, rn: AArch64RegisterId::spec_gpr_or_sp(rn), rt: AArch64RegisterId::spec_fpr(rt) }))
    } else if size == 2u32 && v == 0u32 && opc == 0u32 {
        Ok(AArch64Inst::StrImm32(OpcSizeImm12RnRt { imm12: imm12 as u16, rn: AArch64RegisterId::spec_gpr_or_sp(rn), rt: AArch64RegisterId::spec_gpr_or_zr(rt) }))
    } else if size == 2u32 && v == 0u32 && opc == 1u32 {
        Ok(AArch64Inst::LdrImm32(OpcSizeImm12RnRt { imm12: imm12 as u16, rn: AArch64RegisterId::spec_gpr_or_sp(rn), rt: AArch64RegisterId::spec_gpr_or_zr(rt) }))
    } else if size == 2u32 && v == 0u32 && opc == 2u32 {
        Ok(AArch64Inst::LdrswImm(OpcSizeImm12RnRt { imm12: imm12 as u16, rn: AArch64RegisterId::spec_gpr_or_sp(rn), rt: AArch64RegisterId::spec_gpr_or_zr(rt) }))
    } else if size == 2u32 && v == 1u32 && opc == 0u32 {
        Ok(AArch64Inst::StrImmSimdFP32(OpcSizeImm12RnRt { imm12: imm12 as u16, rn: AArch64RegisterId::spec_gpr_or_sp(rn), rt: AArch64RegisterId::spec_fpr(rt) }))
    } else if size == 2u32 && v == 1u32 && opc == 1u32 {
        Ok(AArch64Inst::LdrImmSimdFP32(OpcSizeImm12RnRt { imm12: imm12 as u16, rn: AArch64RegisterId::spec_gpr_or_sp(rn), rt: AArch64RegisterId::spec_fpr(rt) }))
    } else if size == 3u32 && v == 0u32 && opc == 0u32 {
        Ok(AArch64Inst::StrImm64(OpcSizeImm12RnRt { imm12: imm12 as u16, rn: AArch64RegisterId::spec_gpr_or_sp(rn), rt: AArch64RegisterId::spec_gpr_or_zr(rt) }))
    } else if size == 3u32 && v == 0u32 && opc == 1u32 {
        Ok(AArch64Inst::LdrImm64(OpcSizeImm12RnRt { imm12: imm12 as u16, rn: AArch64RegisterId::spec_gpr_or_sp(rn), rt: AArch64RegisterId::spec_gpr_or_zr(rt) }))
    } else if size == 3u32 && v == 0u32 && opc == 2u32 {
        Ok(AArch64Inst::PrfmImm(OpcSizeImm12RnRt { imm12: imm12 as u16, rn: AArch64RegisterId::spec_gpr_or_sp(rn), rt: AArch64RegisterId::spec_gpr_or_zr(rt) }))
    } else if size == 3u32 && v == 1u32 && opc == 0u32 {
        Ok(AArch64Inst::StrImmSimdFP64(OpcSizeImm12RnRt { imm12: imm12 as u16, rn: AArch64RegisterId::spec_gpr_or_sp(rn), rt: AArch64RegisterId::spec_fpr(rt) }))
    } else if size == 3u32 && v == 1u32 && opc == 1u32 {
        Ok(AArch64Inst::LdrImmSimdFP64(OpcSizeImm12RnRt { imm12: imm12 as u16, rn: AArch64RegisterId::spec_gpr_or_sp(rn), rt: AArch64RegisterId::spec_fpr(rt) }))
    } else {
        Err(DecodeError::UnknownInstruction { word: w })
    }
}

/// Decodes a word of the load store reg unsigned imm group.
pub fn parse_load_store_reg_unsigned_imm(w: u32) -> (r: Result<AArch64Inst, DecodeError>)
    ensures
        r == spec_parse_load_store_reg_unsigned_imm(w),
{
    let size = (w >> 30u32) & 0x3u32;
    let v = (w >> 26u32) & 0x1u32;
    let opc = (w >> 22u32) & 0x3u32;
    let imm12 = (w >> 10u32) & 0xfffu32;
    let rn = (w >> 5u32) & 0x1fu32;
    let rt = w & 0x1fu32;
    if size == 0u32 && v == 0u32 && opc == 0u32 {
        Ok(AArch64Inst::StrbImm(OpcSizeImm12RnRt { imm12: imm12 as u16, rn: AArch64RegisterId::gpr_or_sp(rn), rt: AArch64RegisterId::gpr_or_zr(rt) }))
    } else if size == 0u32 && v == 0u32 && opc == 1u32 {
        Ok(AArch64Inst::LdrbImm(OpcSizeImm12RnRt { imm12: imm12 as u16, rn: AArch64RegisterId::gpr_or_sp(rn), rt: AArch64RegisterId::gpr_or_zr(rt) }))
    } else if size == 0u32 && v == 0u32 && opc == 2u32 {
        Ok(AArch64Inst::LdrsbImm64(OpcSizeImm12RnRt { imm12: imm12 as u16, rn: AArch64RegisterId::gpr_or_sp(rn), rt: AArch64RegisterId::gpr_or_zr(rt) }))
    } else if size == 0u32 && v == 0u32 && opc == 3u32 {
        Ok(AArch64Inst::LdrsbImm32(OpcSizeImm12RnRt { imm12: imm12 as u16, rn: AArch64RegisterId::gpr_or_sp(rn), rt: AArch64RegisterId::gpr_or_zr(rt) }))
    } else if size == 0u32 && v == 1u32 && opc == 0u32 {
        Ok(AArch64Inst::StrImmSimdFP8(OpcSizeImm12RnRt { imm12: imm12 as u16, rn: AArch64RegisterId::gpr_or_sp(rn), rt: AArch64RegisterId::fpr(rt) }))
    } else if size == 0u32 && v == 1u32 && opc == 1u32 {
        Ok(AArch64Inst::LdrImmSimdFP8(OpcSizeImm12RnRt { imm12: imm12 as u16, rn: AArch64RegisterId::gpr_or_sp(rn), rt: AArch64RegisterId::fpr(rt) }))
    } else if size == 0u32 && v == 1u32 && opc == 2u32 {
        Ok(AArch64Inst::StrImmSimdFP128(OpcSizeImm12RnRt { imm12: imm12 as u16, rn: AArch64RegisterId::gpr_or_sp(rn), rt: AArch64RegisterId::fpr(rt) }))
    } else if size == 0u32 && v == 1u32 && opc == 3u32 {
        Ok(AArch64Inst::LdrImmSimdFP128(OpcSizeImm12RnRt { imm12: imm12 as u16, rn: AArch64RegisterId::gpr_or_sp(rn), rt: AArch64RegisterId::fpr(rt) }))
    } else if size == 1u32 && v == 0u32 && opc == 0u32 {
        Ok(AArch64Inst::StrhImm(OpcSizeImm12RnRt { imm12: imm12 as u16, rn: AArch64RegisterId::gpr_or_sp(rn), rt: AArch64RegisterId::gpr_or_zr(rt) }))
    } else if size == 1u32 && v == 0u32 && opc == 1u32 {
        Ok(AArch64Inst::LdrhImm(OpcSizeImm12RnRt { imm12: imm12 as u16, rn: AArch64RegisterId::gpr_or_sp(rn), rt: AArch64RegisterId::gpr_or_zr(rt) }))
    } else if size == 1u32 && v == 0u32 && opc == 2u32 {
        Ok(AArch64Inst::LdrshImm64(OpcSizeImm12RnRt { imm12: imm12 as u16, rn: AArch64RegisterId::gpr_or_sp(rn), rt: AArch64RegisterId::gpr_or_zr(rt) }))
    } else if size == 1u32 && v == 0u32 && opc == 3u32 {
        Ok(AArch64Inst::LdrshImm32(OpcSizeImm12RnRt { imm12: imm12 as u16, rn: AArch64RegisterId::gpr_or_sp(rn), rt: AArch64RegisterId::gpr_or_zr(rt) }))
    } else if size == 1u32 && v == 1u32 && opc == 0u32 {
        Ok(AArch64Inst::StrImmSimdFP16(OpcSizeImm12RnRt { imm12: imm12 as u16, rn: AArch64RegisterId::gpr_or_sp(rn), rt: AArch64RegisterId::fpr(rt) }))
    } else if size == 1u32 && v == 1u32 && opc == 1u32 {
        Ok(AArch64Inst::LdrImmSimdFP16(OpcSizeImm12RnRt { imm12: imm12 as u16, rn: AArch64RegisterId::gpr_or_sp(rn), rt: AArch64RegisterId::fpr(rt) }))
    } else if size == 2u32 && v == 0u32 && opc == 0u32 {
        Ok(AArch64Inst::StrImm32(OpcSizeImm12RnRt { imm12: imm12 as u16, rn: AArch64RegisterId::gpr_or_sp(rn), rt: AArch64RegisterId::gpr_or_zr(rt) }))
    } else if size == 2u32 && v == 0u32 && opc == 1u32 {
        Ok(AArch64Inst::LdrImm32(OpcSizeImm12RnRt { imm12: imm12 as u16, rn: AArch64RegisterId::gpr_or_sp(rn), rt: AArch64RegisterId::gpr_or_zr(rt) }))
    } else if size == 2u32 && v == 0u32 && opc == 2u32 {
        Ok(AArch64Inst::LdrswImm(OpcSizeImm12RnRt { imm12: imm12 as u16, rn: AArch64RegisterId::gpr_or_sp(rn), rt: AArch64RegisterId::gpr_or_zr(rt) }))
    } else if size == 2u32 && v == 1u32 && opc == 0u32 {
        Ok(AArch64Inst::StrImmSimdFP32(OpcSizeImm12RnRt { imm12: imm12 as u16, rn: AArch64RegisterId::gpr_or_sp(rn), rt: AArch64RegisterId::fpr(rt) }))
    } else if size == 2u32 && v == 1u32 && opc == 1u32 {
        Ok(AArch64Inst::LdrImmSimdFP32(OpcSizeImm12RnRt { imm12: imm12 as u16, rn: AArch64RegisterId::gpr_or_sp(rn), rt: AArch64RegisterId::fpr(rt) }))
    } else if size == 3u32 && v == 0u32 && opc == 0u32 {
        Ok(AArch64Inst::StrImm64(OpcSizeImm12RnRt { imm12: imm12 as u16, rn: AArch64RegisterId::gpr_or_sp(rn), rt: AArch64RegisterId::gpr_or_zr(rt) }))
    } else if size == 3u32 && v == 0u32 && opc == 1u32 {
        Ok(AArch64Inst::LdrImm64(OpcSizeImm12RnRt { imm12: imm12 as u16, rn: AArch64RegisterId::gpr_or_sp(rn), rt: AArch64RegisterId::gpr_or_zr(rt) }))
    } else if size == 3u32 && v == 0u32 && opc == 2u32 {
        Ok(AArch64Inst::PrfmImm(OpcSizeImm12RnRt { imm12: imm12 as u16, rn: AArch64RegisterId::gpr_or_sp(rn), rt: AArch64RegisterId::gpr_or_zr(rt) }))
    } else if size == 3u32 && v == 1u32 && opc == 0u32 {
        Ok(AArch64Inst::StrImmSimdFP64(OpcSizeImm12RnRt { imm12: imm12 as u16, rn: AArch64RegisterId::gpr_or_sp(rn), rt: AArch64RegisterId::fpr(rt) }))
    } else if size == 3u32 && v == 1u32 && opc == 1u32 {
        Ok(AArch64Inst::LdrImmSimdFP64(OpcSizeImm12RnRt { imm12: imm12 as u16, rn: AArch64RegisterId::gpr_or_sp(rn), rt: AArch64RegisterId::fpr(rt) }))
    } else {
        Err(DecodeError::UnknownInstruction { word: w })
    }
}

proof fn lemma_split_load_store_reg_unsigned_imm(w: u32)
    by (bit_vector)
    requires
        w & 0xa000000u32 == 0x8000000u32,
        w & 0x3b000000u32 == 0x39000000u32,
    ensures
        w == enc_load_store_reg_unsigned_imm((w >> 30u32) & 0x3u32, (w >> 26u32) & 0x1u32, (w >> 22u32) & 0x3u32, (w >> 10u32) & 0xfffu32, (w >> 5u32) & 0x1fu32, w & 0x1fu32),
        (w >> 30u32) & 0x3u32 <= 0x3u32,
        (w >> 26u32) & 0x1u32 <= 0x1u32,
        (w >> 22u32) & 0x3u32 <= 0x3u32,
        (w >> 10u32) & 0xfffu32 <= 0xfffu32,
        (w >> 5u32) & 0x1fu32 <= 0x1fu32,
        w & 0x1fu32 <= 0x1fu32,
{
}

proof fn lemma_parse_load_store_reg_unsigned_imm_sound(w: u32)
    requires
        w & 0xa000000u32 == 0x8000000u32,
        w & 0x3b000000u32 == 0x39000000u32,
    ensures
        spec_parse_load_store_reg_unsigned_imm(w) matches Ok(i) ==> i.spec_encode() == w,
{
    lemma_split_load_store_reg_unsigned_imm(w);
}

/// Variant and operands of a word in the load store reg reg offset group.
pub open spec fn spec_parse_load_store_reg_reg_offset(w: u32) -> Result<AArch64Inst, DecodeError> {
    let size = (w >> 30u32) & 0x3u32;
    let v = (w >> 26u32) & 0x1u32;
    let opc = (w >> 22u32) & 0x3u32;
    let rm = (w >> 16u32) & 0x1fu32;
    let option = (w >> 13u32) & 0x7u32;
    let s = (w >> 12u32) & 0x1u32;
    let rn = (w >> 5u32) & 0x1fu32;
    let rt = w & 0x1fu32;
    if option == 0u32 || option == 1u32 || option == 4u32 || option == 5u32 {
        Err(DecodeError::UnknownInstruction { word: w })
    } else if size == 0u32 && v == 0u32 && opc == 0u32 && (option != 3u32) {
        Ok(AArch64Inst::StrbRegExtReg(LoadStoreRegRegOffset { size: size as u8, opc: opc as u8, rm: AArch64RegisterId::spec_gpr_or_zr(rm), option: option as u8, s: s as u8, rn: AArch64RegisterId::spec_gpr_or_sp(rn), rt: AArch64RegisterId::spec_gpr_or_zr(rt) }))
    } else if size == 0u32 && v == 0u32 && opc == 0u32 && option == 3u32 {
        Ok(AArch64Inst::StrbRegShiftedReg(LoadStoreRegRegOffset { size: size as u8, opc: opc as u8, rm: AArch64RegisterId::spec_gpr_or_zr(rm), option: option as u8, s: s as u8, rn: AArch64RegisterId::spec_gpr_or_sp(rn), rt: AArch64RegisterId::spec_gpr_or_zr(rt) }))
    } else if size == 0u32 && v == 0u32 && opc == 1u32 && (option != 3u32) {
        Ok(AArch64Inst::LdrbRegExtReg(LoadStoreRegRegOffset { size: size as u8, opc: opc as u8, rm: AArch64RegisterId::spec_gpr_or_zr(rm), option: option as u8, s: s as u8, rn: AArch64RegisterId::spec_gpr_or_sp(rn), rt: AArch64RegisterId::spec_gpr_or_zr(rt) }))
    } else if size == 0u32 && v == 0u32 && opc == 1u32 && option == 3u32 {
        Ok(AArch64Inst::LdrbRegShiftedReg(LoadStoreRegRegOffset { size: size as u8, opc: opc as u8, rm: AArch64RegisterId::spec_gpr_or_zr(rm), option: option as u8, s: s as u8, rn: AArch64RegisterId::spec_gpr_or_sp(rn), rt: AArch64RegisterId::spec_gpr_or_zr(rt) }))
    } else if size == 0u32 && v == 0u32 && opc == 2u32 && (option != 3u32) {
        Ok(AArch64Inst::LdrsbRegExtReg64(LoadStoreRegRegOffset { size: size as u8, opc: opc as u8, rm: AArch64RegisterId::spec_gpr_or_zr(rm), option: option as u8, s: s as u8, rn: AArch64RegisterId::spec_gpr_or_sp(rn), rt: AArch64RegisterId::spec_gpr_or_zr(rt) }))
    } else if size == 0u32 && v == 0u32 && opc == 2u32 && option == 3u32 {
        Ok(AArch64Inst::LdrsbRegShiftedReg64(LoadStoreRegRegOffset { size: size as u8, opc: opc as u8, rm: AArch64RegisterId::spec_gpr_or_zr(rm), option: option as u8, s: s as u8, rn: AArch64RegisterId::spec_gpr_or_sp(rn), rt: AArch64RegisterId::spec_gpr_or_zr(rt) }))
    } else if size == 0u32 && v == 0u32 && opc == 3u32 && (option != 3u32) {
        Ok(AArch64Inst::LdrsbRegExtReg32(LoadStoreRegRegOffset { size: size as u8, opc: opc as u8, rm: AArch64RegisterId::spec_gpr_or_zr(rm), option: option as u8, s: s as u8, rn: AArch64RegisterId::spec_gpr_or_sp(rn), rt: AArch64RegisterId::spec_gpr_or_zr(rt) }))
    } else if size == 0u32 && v == 0u32 && opc == 3u32 && option == 3u32 {
        Ok(AArch64Inst::LdrsbRegShiftedReg32(LoadStoreRegRegOffset { size: size as u8, opc: opc as u8, rm: AArch64RegisterId::spec_gpr_or_zr(rm), option: option as u8, s: s as u8, rn: AArch64RegisterId::spec_gpr_or_sp(rn), rt: AArch64RegisterId::spec_gpr_or_zr(rt) }))
    } else if v == 1u32 && (opc == 0u32 || (size == 0u32 && opc == 2u32)) {
        Ok(AArch64Inst::StrRegSimdFP(LoadStoreRegRegOffset { size: size as u8, opc: opc as u8, rm: AArch64RegisterId::spec_gpr_or_zr(rm), option: option as u8, s: s as u8, rn: AArch64RegisterId::spec_gpr_or_sp(rn), rt: AArch64RegisterId::spec_fpr(rt) }))
    } else if v == 1u32 && (opc == 1u32 || (size == 0u32 && opc == 3u32)) {
        Ok(AArch64Inst::LdrRegSimdFP(LoadStoreRegRegOffset { size: size as u8, opc: opc as u8, rm: AArch64RegisterId::spec_gpr_or_zr(rm), option: option as u8, s: s as u8, rn: AArch64RegisterId::spec_gpr_or_sp(rn), rt: AArch64RegisterId::spec_fpr(rt) }))
    } else if size == 1u32 && v == 0u32 && opc == 0u32 {
        Ok(AArch64Inst::StrhReg(LoadStoreRegRegOffset { size: size as u8, opc: opc as u8, rm: AArch64RegisterId::spec_gpr_or_zr(rm), option: option as u8, s: s as u8, rn: AArch64RegisterId::spec_gpr_or_sp(rn), rt: AArch64RegisterId::spec_gpr_or_zr(rt) }))
    } else if size == 1u32 && v == 0u32 && opc == 1u32 {
        Ok(AArch64Inst::LdrhReg(LoadStoreRegRegOffset { size: size as u8, opc: opc as u8, rm: AArch64RegisterId::spec_gpr_or_zr(rm), option: option as u8, s: s as u8, rn: AArch64RegisterId::spec_gpr_or_sp(rn), rt: AArch64RegisterId::spec_gpr_or_zr(rt) }))
    } else if size == 1u32 && v == 0u32 && opc == 2u32 {
        Ok(AArch64Inst::LdrshReg64(LoadStoreRegRegOffset { size: size as u8, opc: opc as u8, rm: AArch64RegisterId::spec_gpr_or_zr(rm), option: option as u8, s: s as u8, rn: AArch64RegisterId::spec_gpr_or_sp(rn), rt: AArch64RegisterId::spec_gpr_or_zr(rt) }))
    } else if size == 1u32 && v == 0u32 && opc == 3u32 {
        Ok(AArch64Inst::LdrshReg32(LoadStoreRegRegOffset { size: size as u8, opc: opc as u8, rm: AArch64RegisterId::spec_gpr_or_zr(rm), option: option as u8, s: s as u8, rn: AArch64RegisterId::spec_gpr_or_sp(rn), rt: AArch64RegisterId::spec_gpr_or_zr(rt) }))
    } else if size == 2u32 && v == 0u32 && opc == 0u32 {
        Ok(AArch64Inst::StrReg32(LoadStoreRegRegOffset { size: size as u8, opc: opc as u8, rm: AArch64RegisterId::spec_gpr_or_zr(rm), option: option as u8, s: s as u8, rn: AArch64RegisterId::spec_gpr_or_sp(rn), rt: AArch64RegisterId::spec_gpr_or_zr(rt) }))
    } else if size == 2u32 && v == 0u32 && opc == 1u32 {
        Ok(AArch64Inst::LdrReg32(LoadStoreRegRegOffset { size: size as u8, opc: opc as u8, rm: AArch64RegisterId::spec_gpr_or_zr(rm), option: option as u8, s: s as u8, rn: AArch64RegisterId::spec_gpr_or_sp(rn), rt: AArch64RegisterId::spec_gpr_or_zr(rt) }))
    } else if size == 2u32 && v == 0u32 && opc == 2u32 {
        Ok(AArch64Inst::LdrswReg(LoadStoreRegRegOffset { size: size as u8, opc: opc as u8, rm: AArch64RegisterId::spec_gpr_or_zr(rm), option: option as u8, s: s as u8, rn: AArch64RegisterId::spec_gpr_or_sp(rn), rt: AArch64RegisterId::spec_gpr_or_zr(rt) }))
    } else if size == 3u32 && v == 0u32 && opc == 0u32 {
        Ok(AArch64Inst::StrReg64(LoadStoreRegRegOffset { size: size as u8, opc: opc as u8, rm: AArch64RegisterId::spec_gpr_or_zr(rm), option: option as u8, s: s as u8, rn: AArch64RegisterId::spec_gpr_or_sp(rn), rt: AArch64RegisterId::spec_gpr_or_zr(rt) }))
    } else if size == 3u32 && v == 0u32 && opc == 1u32 {
        Ok(AArch64Inst::LdrReg64(LoadStoreRegRegOffset { size: size as u8, opc: opc as u8, rm: AArch64RegisterId::spec_gpr_or_zr(rm), option: option as u8, s: s as u8, rn: AArch64RegisterId::spec_gpr_or_sp(rn), rt: AArch64RegisterId::spec_gpr_or_zr(rt) }))
    } else if size == 3u32 && v == 0u32 && opc == 2u32 {
        Ok(AArch64Inst::PrfmReg(LoadStoreRegRegOffset { size: size as u8, opc: opc as u8, rm: AArch64RegisterId::spec_gpr_or_zr(rm), option: option as u8, s: s as u8, rn: AArch64RegisterId::spec_gpr_or_sp(rn), rt: AArch64RegisterId::spec_gpr_or_zr(rt) }))
    } else {
        Err(DecodeError::UnknownInstruction { word: w })
    }
}

/// Decodes a word of the load store reg reg offset group.
pub fn parse_load_store_reg_reg_offset(w: u32) -> (r: Result<AArch64Inst, DecodeError>)
    ensures
        r == spec_parse_load_store_reg_reg_offset(w),
{
    let size = (w >> 30u32) & 0x3u32;
    let v = (w >> 26u32) & 0x1u32;
    let opc = (w >> 22u32) & 0x3u32;
    let rm = (w >> 16u32) & 0x1fu32;
    let option = (w >> 13u32) & 0x7u32;
    let s = (w >> 12u32) & 0x1u32;
    let rn = (w >> 5u32) & 0x1fu32;
    let rt = w & 0x1fu32;
    if option == 0u32 || option == 1u32 || option == 4u32 || option == 5u32 {
        Err(DecodeError::UnknownInstruction { word: w })
    } else if size == 0u32 && v == 0u32 && opc == 0u32 && (option != 3u32) {
        Ok(AArch64Inst::StrbRegExtReg(LoadStoreRegRegOffset { size: size as u8, opc: opc as u8, rm: AArch64RegisterId::gpr_or_zr(rm), option: option as u8, s: s as u8, rn: AArch64RegisterId::gpr_or_sp(rn), rt: AArch64RegisterId::gpr_or_zr(rt) }))
    } else if size == 0u32 && v == 0u32 && opc == 0u32 && option == 3u32 {
        Ok(AArch64Inst::StrbRegShiftedReg(LoadStoreRegRegOffset { size: size as u8, opc: opc as u8, rm: AArch64RegisterId::gpr_or_zr(rm), option: option as u8, s: s as u8, rn: AArch64RegisterId::gpr_or_sp(rn), rt: AArch64RegisterId::gpr_or_zr(rt) }))
    } else if size == 0u32 && v == 0u32 && opc == 1u32 && (option != 3u32) {
        Ok(AArch64Inst::LdrbRegExtReg(LoadStoreRegRegOffset { size: size as u8, opc: opc as u8, rm: AArch64RegisterId::gpr_or_zr(rm), option: option as u8, s: s as u8, rn: AArch64RegisterId::gpr_or_sp(rn), rt: AArch64RegisterId::gpr_or_zr(rt) }))
    } else if size == 0u32 && v == 0u32 && opc == 1u32 && option == 3u32 {
        Ok(AArch64Inst::LdrbRegShiftedReg(LoadStoreRegRegOffset { size: size as u8, opc: opc as u8, rm: AArch64RegisterId::gpr_or_zr(rm), option: option as u8, s: s as u8, rn: AArch64RegisterId::gpr_or_sp(rn), rt: AArch64RegisterId::gpr_or_zr(rt) }))
    } else if size == 0u32 && v == 0u32 && opc == 2u32 && (option != 3u32) {
        Ok(AArch64Inst::LdrsbRegExtReg64(LoadStoreRegRegOffset { size: size as u8, opc: opc as u8, rm: AArch64RegisterId::gpr_or_zr(rm), option: option as u8, s: s as u8, rn: AArch64RegisterId::gpr_or_sp(rn), rt: AArch64RegisterId::gpr_or_zr(rt) }))
    } else if size == 0u32 && v == 0u32 && opc == 2u32 && option == 3u32 {
        Ok(AArch64Inst::LdrsbRegShiftedReg64(LoadStoreRegRegOffset { size: size as u8, opc: opc as u8, rm: AArch64RegisterId::gpr_or_zr(rm), option: option as u8, s: s as u8, rn: AArch64RegisterId::gpr_or_sp(rn), rt: AArch64RegisterId::gpr_or_zr(rt) }))
    } else if size == 0u32 && v == 0u32 && opc == 3u32 && (option != 3u32) {
        Ok(AArch64Inst::LdrsbRegExtReg32(LoadStoreRegRegOffset { size: size as u8, opc: opc as u8, rm: AArch64RegisterId::gpr_or_zr(rm), option: option as u8, s: s as u8, rn: AArch64RegisterId::gpr_or_sp(rn), rt: AArch64RegisterId::gpr_or_zr(rt) }))
    } else if size == 0u32 && v == 0u32 && opc == 3u32 && option == 3u32 {
        Ok(AArch64Inst::LdrsbRegShiftedReg32(LoadStoreRegRegOffset { size: size as u8, opc: opc as u8, rm: AArch64RegisterId::gpr_or_zr(rm), option: option as u8, s: s as u8, rn: AArch64RegisterId::gpr_or_sp(rn), rt: AArch64RegisterId::gpr_or_zr(rt) }))
    } else if v == 1u32 && (opc == 0u32 || (size == 0u32 && opc == 2u32)) {
        Ok(AArch64Inst::StrRegSimdFP(LoadStoreRegRegOffset { size: size as u8, opc: opc as u8, rm: AArch64RegisterId::gpr_or_zr(rm), option: option as u8, s: s as u8, rn: AArch64RegisterId::gpr_or_sp(rn), rt: AArch64RegisterId::fpr(rt) }))
    } else if v == 1u32 && (opc == 1u32 || (size == 0u32 && opc == 3u32)) {
        Ok(AArch64Inst::LdrRegSimdFP(LoadStoreRegRegOffset { size: size as u8, opc: opc as u8, rm: AArch64RegisterId::gpr_or_zr(rm), option: option as u8, s: s as u8, rn: AArch64RegisterId::gpr_or_sp(rn), rt: AArch64RegisterId::fpr(rt) }))
    } else if size == 1u32 && v == 0u32 && opc == 0u32 {
        Ok(AArch64Inst::StrhReg(LoadStoreRegRegOffset { size: size as u8, opc: opc as u8, rm: AArch64RegisterId::gpr_or_zr(rm), option: option as u8, s: s as u8, rn: AArch64RegisterId::gpr_or_sp(rn), rt: AArch64RegisterId::gpr_or_zr(rt) }))
    } else if size == 1u32 && v == 0u32 && opc == 1u32 {
        Ok(AArch64Inst::LdrhReg(LoadStoreRegRegOffset { size: size as u8, opc: opc as u8, rm: AArch64RegisterId::gpr_or_zr(rm), option: option as u8, s: s as u8, rn: AArch64RegisterId::gpr_or_sp(rn), rt: AArch64RegisterId::gpr_or_zr(rt) }))
    } else if size == 1u32 && v == 0u32 && opc == 2u32 {
        Ok(AArch64Inst::LdrshReg64(LoadStoreRegRegOffset { size: size as u8, opc: opc as u8, rm: AArch64RegisterId::gpr_or_zr(rm), option: option as u8, s: s as u8, rn: AArch64RegisterId::gpr_or_sp(rn), rt: AArch64RegisterId::gpr_or_zr(rt) }))
    } else if size == 1u32 && v == 0u32 && opc == 3u32 {
        Ok(AArch64Inst::LdrshReg32(LoadStoreRegRegOffset { size: size as u8, opc: opc as u8, rm: AArch64RegisterId::gpr_or_zr(rm), option: option as u8, s: s as u8, rn: AArch64RegisterId::gpr_or_sp(rn), rt: AArch64RegisterId::gpr_or_zr(rt) }))
    } else if size == 2u32 && v == 0u32 && opc == 0u32 {
        Ok(AArch64Inst::StrReg32(LoadStoreRegRegOffset { size: size as u8, opc: opc as u8, rm: AArch64RegisterId::gpr_or_zr(rm), option: option as u8, s: s as u8, rn: AArch64RegisterId::gpr_or_sp(rn), rt: AArch64RegisterId::gpr_or_zr(rt) }))
    } else if size == 2u32 && v == 0u32 && opc == 1u32 {
        Ok(AArch64Inst::LdrReg32(LoadStoreRegRegOffset { size: size as u8, opc: opc as u8, rm: AArch64RegisterId::gpr_or_zr(rm), option: option as u8, s: s as u8, rn: AArch64RegisterId::gpr_or_sp(rn), rt: AArch64RegisterId::gpr_or_zr(rt) }))
    } else if size == 2u32 && v == 0u32 && opc == 2u32 {
        Ok(AArch64Inst::LdrswReg(LoadStoreRegRegOffset { size: size as u8, opc: opc as u8, rm: AArch64RegisterId::gpr_or_zr(rm), option: option as u8, s: s as u8, rn: AArch64RegisterId::gpr_or_sp(rn), rt: AArch64RegisterId::gpr_or_zr(rt) }))
    } else if size == 3u32 && v == 0u32 && opc == 0u32 {
        Ok(AArch64Inst::StrReg64(LoadStoreRegRegOffset { size: size as u8, opc: opc as u8, rm: AArch64RegisterId::gpr_or_zr(rm), option: option as u8, s: s as u8, rn: AArch64RegisterId::gpr_or_sp(rn), rt: AArch64RegisterId::gpr_or_zr(rt) }))
    } else if size == 3u32 && v == 0u32 && opc == 1u32 {
        Ok(AArch64Inst::LdrReg64(LoadStoreRegRegOffset { size: size as u8, opc: opc as u8, rm: AArch64RegisterId::gpr_or_zr(rm), option: option as u8, s: s as u8, rn: AArch64RegisterId::gpr_or_sp(rn), rt: AArch64RegisterId::gpr_or_zr(rt) }))
    } else if size == 3u32 && v == 0u32 && opc == 2u32 {
        Ok(AArch64Inst::PrfmReg(LoadStoreRegRegOffset { size: size as u8, opc: opc as u8, rm: AArch64RegisterId::gpr_or_zr(rm), option: option as u8, s: s as u8, rn: AArch64RegisterId::gpr_or_sp(rn), rt: AArch64RegisterId::gpr_or_zr(rt) }))
    } else {
        Err(DecodeError::UnknownInstruction { word: w })
    }
}

proof fn lemma_split_load_store_reg_reg_offset(w: u32)
    by (bit_vector)
    requires
        w & 0xa000000u32 == 0x8000000u32,
        w & 0x3b200c00u32 == 0x38200800u32,
    ensures
        w == enc_load_store_reg_reg_offset((w >> 30u32) & 0x3u32, (w >> 26u32) & 0x1u32, (w >> 22u32) & 0x3u32, (w >> 16u32) & 0x1fu32, (w >> 13u32) & 0x7u32, (w >> 12u32) & 0x1u32, (w >> 5u32) & 0x1fu32, w & 0x1fu32),
        (w >> 30u32) & 0x3u32 <= 0x3u32,
        (w >> 26u32) & 0x1u32 <= 0x1u32,
        (w >> 22u32) & 0x3u32 <= 0x3u32,
        (w >> 16u32) & 0x1fu32 <= 0x1fu32,
        (w >> 13u32) & 0x7u32 <= 0x7u32,
        (w >> 12u32) & 0x1u32 <= 0x1u32,
        (w >> 5u32) & 0x1fu32 <= 0x1fu32,
        w & 0x1fu32 <= 0x1fu32,
{
}

proof fn lemma_parse_load_store_reg_reg_offset_sound(w: u32)
    requires
        w & 0xa000000u32 == 0x8000000u32,
        w & 0x3b200c00u32 == 0x38200800u32,
    ensures
        spec_parse_load_store_reg_reg_offset(w) matches Ok(i) ==> i.spec_encode() == w,
{
    lemma_split_load_store_reg_reg_offset(w);
}

/// Variant and operands of a word in the load store reg pair offset group.
pub open spec fn spec_parse_load_store_reg_pair_offset(w: u32) -> Result<AArch64Inst, DecodeError> {
    let opc = (w >> 30u32) & 0x3u32;
    let v = (w >> 26u32) & 0x1u32;
    let idx = (w >> 23u32) & 0x3u32;
    let l = (w >> 22u32) & 0x1u32;
    let imm7 = (w >> 15u32) & 0x7fu32;
    let rt2 = (w >> 10u32) & 0x1fu32;
    let rn = (w >> 5u32) & 0x1fu32;
    let rt = w & 0x1fu32;
    if idx == 0u32 {
        Err(DecodeError::UnknownInstruction { word: w })
    } else if opc == 0u32 && v == 0u32 && l == 0u32 {
        Ok(AArch64Inst::StpVar32(LoadStoreRegPair { idx: idx as u8, imm7: imm7 as u8, rt2: AArch64RegisterId::spec_gpr_or_zr(rt2), rn: AArch64RegisterId::spec_gpr_or_sp(rn), rt: AArch64RegisterId::spec_gpr_or_zr(rt) }))
    } else if opc == 0u32 && v == 0u32 && l == 1u32 {
        Ok(AArch64Inst::LdpVar32(LoadStoreRegPair { idx: idx as u8, imm7: imm7 as u8, rt2: AArch64RegisterId::spec_gpr_or_zr(rt2), rn: AArch64RegisterId::spec_gpr_or_sp(rn), rt: AArch64RegisterId::spec_gpr_or_zr(rt) }))
    } else if opc == 0u32 && v == 1u32 && l == 0u32 {
        Ok(AArch64Inst::StpSimdFPVar32(LoadStoreRegPair { idx: idx as u8, imm7: imm7 as u8, rt2: AArch64RegisterId::spec_fpr(rt2), rn: AArch64RegisterId::spec_gpr_or_sp(rn), rt: AArch64RegisterId::spec_fpr(rt) }))
    } else if opc == 0u32 && v == 1u32 && l == 1u32 {
        Ok(AArch64Inst::LdpSimdFPVar32(LoadStoreRegPair { idx: idx as u8, imm7: imm7 as u8, rt2: AArch64RegisterId::spec_fpr(rt2), rn: AArch64RegisterId::spec_gpr_or_sp(rn), rt: AArch64RegisterId::spec_fpr(rt) }))
    } else if opc == 1u32 && v == 0u32 && l == 0u32 {
        Ok(AArch64Inst::Stgp(LoadStoreRegPair { idx: idx as u8, imm7: imm7 as u8, rt2: AArch64RegisterId::spec_gpr_or_zr(rt2), rn: AArch64RegisterId::spec_gpr_or_sp(rn), rt: AArch64RegisterId::spec_gpr_or_zr(rt) }))
    } else if opc == 1u32 && v == 0u32 && l == 1u32 {
        Ok(AArch64Inst::Ldpsw(LoadStoreRegPair { idx: idx as u8, imm7: imm7 as u8, rt2: AArch64RegisterId::spec_gpr_or_zr(rt2), rn: AArch64RegisterId::spec_gpr_or_sp(rn), rt: AArch64RegisterId::spec_gpr_or_zr(rt) }))
    } else if opc == 1u32 && v == 1u32 && l == 0u32 {
        Ok(AArch64Inst::StpSimdFPVar64(LoadStoreRegPair { idx: idx as u8, imm7: imm7 as u8, rt2: AArch64RegisterId::spec_fpr(rt2), rn: AArch64RegisterId::spec_gpr_or_sp(rn), rt: AArch64RegisterId::spec_fpr(rt) }))
    } else if opc == 1u32 && v == 1u32 && l == 1u32 {
        Ok(AArch64Inst::LdpSimdFPVar64(LoadStoreRegPair { idx: idx as u8, imm7: imm7 as u8, rt2: AArch64RegisterId::spec_fpr(rt2), rn: AArch64RegisterId::spec_gpr_or_sp(rn), rt: AArch64RegisterId::spec_fpr(rt) }))
    } else if opc == 2u32 && v == 0u32 && l == 0u32 {
        Ok(AArch64Inst::StpVar64(LoadStoreRegPair { idx: idx as u8, imm7: imm7 as u8, rt2: AArch64RegisterId::spec_gpr_or_zr(rt2), rn: AArch64RegisterId::spec_gpr_or_sp(rn), rt: AArch64RegisterId::spec_gpr_or_zr(rt) }))
    } else if opc == 2u32 && v == 0u32 && l == 1u32 {
        Ok(AArch64Inst::LdpVar64(LoadStoreRegPair { idx: idx as u8, imm7: imm7 as u8, rt2: AArch64RegisterId::spec_gpr_or_zr(rt2), rn: AArch64RegisterId::spec_gpr_or_sp(rn), rt: AArch64RegisterId::spec_gpr_or_zr(rt) }))
    } else if opc == 2u32 && v == 1u32 && l == 0u32 {
        Ok(AArch64Inst::StpSimdFpVar128(LoadStoreRegPair { idx: idx as u8, imm7: imm7 as u8, rt2: AArch64RegisterId::spec_fpr(rt2), rn: AArch64RegisterId::spec_gpr_or_sp(rn), rt: AArch64RegisterId::spec_fpr(rt) }))
    } else if opc == 2u32 && v == 1u32 && l == 1u32 {
        Ok(AArch64Inst::LdpSimdFpVar128(LoadStoreRegPair { idx: idx as u8, imm7: imm7 as u8, rt2: AArch64RegisterId::spec_fpr(rt2), rn: AArch64RegisterId::spec_gpr_or_sp(rn), rt: AArch64RegisterId::spec_fpr(rt) }))
    } else {
        Err(DecodeError::UnknownInstruction { word: w })
    }
}

/// Decodes a word of the load store reg pair offset group.
pub fn parse_load_store_reg_pair_offset(w: u32) -> (r: Result<AArch64Inst, DecodeError>)
    ensures
        r == spec_parse_load_store_reg_pair_offset(w),
{
    let opc = (w >> 30u32) & 0x3u32;
    let v = (w >> 26u32) & 0x1u32;
    let idx = (w >> 23u32) & 0x3u32;
    let l = (w >> 22u32) & 0x1u32;
    let imm7 = (w >> 15u32) & 0x7fu32;
    let rt2 = (w >> 10u32) & 0x1fu32;
    let rn = (w >> 5u32) & 0x1fu32;
    let rt = w & 0x1fu32;
    if idx == 0u32 {
        Err(DecodeError::UnknownInstruction { word: w })
    } else if opc == 0u32 && v == 0u32 && l == 0u32 {
        Ok(AArch64Inst::StpVar32(LoadStoreRegPair { idx: idx as u8, imm7: imm7 as u8, rt2: AArch64RegisterId::gpr_or_zr(rt2), rn: AArch64RegisterId::gpr_or_sp(rn), rt: AArch64RegisterId::gpr_or_zr(rt) }))
    } else if opc == 0u32 && v == 0u32 && l == 1u32 {
        Ok(AArch64Inst::LdpVar32(LoadStoreRegPair { idx: idx as u8, imm7: imm7 as u8, rt2: AArch64RegisterId::gpr_or_zr(rt2), rn: AArch64RegisterId::gpr_or_sp(rn), rt: AArch64RegisterId::gpr_or_zr(rt) }))
    } else if opc == 0u32 && v == 1u32 && l == 0u32 {
        Ok(AArch64Inst::StpSimdFPVar32(LoadStoreRegPair { idx: idx as u8, imm7: imm7 as u8, rt2: AArch64RegisterId::fpr(rt2), rn: AArch64RegisterId::gpr_or_sp(rn), rt: AArch64RegisterId::fpr(rt) }))
    } else if opc == 0u32 && v == 1u32 && l == 1u32 {
        Ok(AArch64Inst::LdpSimdFPVar32(LoadStoreRegPair { idx: idx as u8, imm7: imm7 as u8, rt2: AArch64RegisterId::fpr(rt2), rn: AArch64RegisterId::gpr_or_sp(rn), rt: AArch64RegisterId::fpr(rt) }))
    } else if opc == 1u32 && v == 0u32 && l == 0u32 {
        Ok(AArch64Inst::Stgp(LoadStoreRegPair { idx: idx as u8, imm7: imm7 as u8, rt2: AArch64RegisterId::gpr_or_zr(rt2), rn: AArch64RegisterId::gpr_or_sp(rn), rt: AArch64RegisterId::gpr_or_zr(rt) }))
    } else if opc == 1u32 && v == 0u32 && l == 1u32 {
        Ok(AArch64Inst::Ldpsw(LoadStoreRegPair { idx: idx as u8, imm7: imm7 as u8, rt2: AArch64RegisterId::gpr_or_zr(rt2), rn: AArch64RegisterId::gpr_or_sp(rn), rt: AArch64RegisterId::gpr_or_zr(rt) }))
    } else if opc == 1u32 && v == 1u32 && l == 0u32 {
        Ok(AArch64Inst::StpSimdFPVar64(LoadStoreRegPair { idx: idx as u8, imm7: imm7 as u8, rt2: AArch64RegisterId::fpr(rt2), rn: AArch64RegisterId::gpr_or_sp(rn), rt: AArch64RegisterId::fpr(rt) }))
    } else if opc == 1u32 && v == 1u32 && l == 1u32 {
        Ok(AArch64Inst::LdpSimdFPVar64(LoadStoreRegPair { idx: idx as u8, imm7: imm7 as u8, rt2: AArch64RegisterId::fpr(rt2), rn: AArch64RegisterId::gpr_or_sp(rn), rt: AArch64RegisterId::fpr(rt) }))
    } else if opc == 2u32 && v == 0u32 && l == 0u32 {
        Ok(AArch64Inst::StpVar64(LoadStoreRegPair { idx: idx as u8, imm7: imm7 as u8, rt2: AArch64RegisterId::gpr_or_zr(rt2), rn: AArch64RegisterId::gpr_or_sp(rn), rt: AArch64RegisterId::gpr_or_zr(rt) }))
    } else if opc == 2u32 && v == 0u32 && l == 1u32 {
        Ok(AArch64Inst::LdpVar64(LoadStoreRegPair { idx: idx as u8, imm7: imm7 as u8, rt2: AArch64RegisterId::gpr_or_zr(rt2), rn: AArch64RegisterId::gpr_or_sp(rn), rt: AArch64RegisterId::gpr_or_zr(rt) }))
    } else if opc == 2u32 && v == 1u32 && l == 0u32 {
        Ok(AArch64Inst::StpSimdFpVar128(LoadStoreRegPair { idx: idx as u8, imm7: imm7 as u8, rt2: AArch64RegisterId::fpr(rt2), rn: AArch64RegisterId::gpr_or_sp(rn), rt: AArch64RegisterId::fpr(rt) }))
    } else if opc == 2u32 && v == 1u32 && l == 1u32 {
        Ok(AArch64Inst::LdpSimdFpVar128(LoadStoreRegPair { idx: idx as u8, imm7: imm7 as u8, rt2: AArch64RegisterId::fpr(rt2), rn: AArch64RegisterId::gpr_or_sp(rn), rt: AArch64RegisterId::fpr(rt) }))
    } else {
        Err(DecodeError::UnknownInstruction { word: w })
    }
}

proof fn lemma_split_load_store_reg_pair_offset(w: u32)
    by (bit_vector)
    requires
        w & 0xa000000u32 == 0x8000000u32,
        w & 0x3a000000u32 == 0x28000000u32,
    ensures
        w == enc_load_store_reg_pair_offset((w >> 30u32) & 0x3u32, (w >> 26u32) & 0x1u32, (w >> 23u32) & 0x3u32, (w >> 22u32) & 0x1u32, (w >> 15u32) & 0x7fu32, (w >> 10u32) & 0x1fu32, (w >> 5u32) & 0x1fu32, w & 0x1fu32),
        (w >> 30u32) & 0x3u32 <= 0x3u32,
        (w >> 26u32) & 0x1u32 <= 0x1u32,
        (w >> 23u32) & 0x3u32 <= 0x3u32,
        (w >> 22u32) & 0x1u32 <= 0x1u32,
        (w >> 15u32) & 0x7fu32 <= 0x7fu32,
        (w >> 10u32) & 0x1fu32 <= 0x1fu32,
        (w >> 5u32) & 0x1fu32 <= 0x1fu32,
        w & 0x1fu32 <= 0x1fu32,
{
}

proof fn lemma_parse_load_store_reg_pair_offset_sound(w: u32)
    requires
        w & 0xa000000u32 == 0x8000000u32,
        w & 0x3a000000u32 == 0x28000000u32,
    ensures
        spec_parse_load_store_reg_pair_offset(w) matches Ok(i) ==> i.spec_encode() == w,
{
    lemma_split_load_store_reg_pair_offset(w);
}

/// Variant and operands of a word in the load store reg imm9 group.
pub open spec fn spec_parse_load_store_reg_imm9(w: u32) -> Result<AArch64Inst, DecodeError> {
    let size = (w >> 30u32) & 0x3u32;
    let v = (w >> 26u32) & 0x1u32;
    let opc = (w >> 22u32) & 0x3u32;
    let imm9 = (w >> 12u32) & 0x1ffu32;
    let idx = (w >> 10u32) & 0x3u32;
    let rn = (w >> 5u32) & 0x1fu32;
    let rt = w & 0x1fu32;
    if idx == 2u32 {
        Err(DecodeError::UnknownInstruction { word: w })
    } else if size == 0u32 && v == 0u32 && opc == 0u32 && (idx == 0u32) {
        Ok(AArch64Inst::Sturb(LdStRegUnscaledImm { imm9: imm9 as u16, idx: idx as u8, rn: AArch64RegisterId::spec_gpr_or_sp(rn), rt: AArch64RegisterId::spec_gpr_or_zr(rt) }))
    } else if size == 0u32 && v == 0u32 && opc == 0u32 && (idx == 1u32 || idx == 3u32) {
        Ok(AArch64Inst::StrbIdx(LdStRegUnscaledImm { imm9: imm9 as u16, idx: idx as u8, rn: AArch64RegisterId::spec_gpr_or_sp(rn), rt: AArch64RegisterId::spec_gpr_or_zr(rt) }))
    } else if size == 0u32 && v == 0u32 && opc == 1u32 && (idx == 0u32) {
        Ok(AArch64Inst::Ldurb(LdStRegUnscaledImm { imm9: imm9 as u16, idx: idx as u8, rn: AArch64RegisterId::spec_gpr_or_sp(rn), rt: AArch64RegisterId::spec_gpr_or_zr(rt) }))
    } else if size == 0u32 && v == 0u32 && opc == 1u32 && (idx == 1u32 || idx == 3u32) {
        Ok(AArch64Inst::LdrbIdx(LdStRegUnscaledImm { imm9: imm9 as u16, idx: idx as u8, rn: AArch64RegisterId::spec_gpr_or_sp(rn), rt: AArch64RegisterId::spec_gpr_or_zr(rt) }))
    } else if size == 0u32 && v == 0u32 && opc == 2u32 && (idx == 0u32) {
        Ok(AArch64Inst::Ldursb64(LdStRegUnscaledImm { imm9: imm9 as u16, idx: idx as u8, rn: AArch64RegisterId::spec_gpr_or_sp(rn), rt: AArch64RegisterId::spec_gpr_or_zr(rt) }))
    } else if size == 0u32 && v == 0u32 && opc == 2u32 && (idx == 1u32 || idx == 3u32) {
        Ok(AArch64Inst::LdrsbIdx64(LdStRegUnscaledImm { imm9: imm9 as u16, idx: idx as u8, rn: AArch64RegisterId::spec_gpr_or_sp(rn), rt: AArch64RegisterId::spec_gpr_or_zr(rt) }))
    } else if size == 0u32 && v == 0u32 && opc == 3u32 && (idx == 0u32) {
        Ok(AArch64Inst::Ldursb32(LdStRegUnscaledImm { imm9: imm9 as u16, idx: idx as u8, rn: AArch64RegisterId::spec_gpr_or_sp(rn), rt: AArch64RegisterId::spec_gpr_or_zr(rt) }))
    } else if size == 0u32 && v == 0u32 && opc == 3u32 && (idx == 1u32 || idx == 3u32) {
        Ok(AArch64Inst::LdrsbIdx32(LdStRegUnscaledImm { imm9: imm9 as u16, idx: idx as u8, rn: AArch64RegisterId::spec_gpr_or_sp(rn), rt: AArch64RegisterId::spec_gpr_or_zr(rt) }))
    } else if size == 0u32 && v == 1u32 && opc == 0u32 && (idx == 0u32) {
        Ok(AArch64Inst::SturSimdFP8(LdStRegUnscaledImm { imm9: imm9 as u16, idx: idx as u8, rn: AArch64RegisterId::spec_gpr_or_sp(rn), rt: AArch64RegisterId::spec_fpr(rt) }))
    } else if size == 0u32 && v == 1u32 && opc == 0u32 && (idx == 1u32 || idx == 3u32) {
        Ok(AArch64Inst::StrSimdFPIdx8(LdStRegUnscaledImm { imm9: imm9 as u16, idx: idx as u8, rn: AArch64RegisterId::spec_gpr_or_sp(rn), rt: AArch64RegisterId::spec_fpr(rt) }))
    } else if size == 0u32 && v == 1u32 && opc == 1u32 && (idx == 0u32) {
        Ok(AArch64Inst::LdurSimdFP8(LdStRegUnscaledImm { imm9: imm9 as u16, idx: idx as u8, rn: AArch64RegisterId::spec_gpr_or_sp(rn), rt: AArch64RegisterId::spec_fpr(rt) }))
    } else if size == 0u32 && v == 1u32 && opc == 1u32 && (idx == 1u32 || idx == 3u32) {
        Ok(AArch64Inst::LdrSimdFPIdx8(LdStRegUnscaledImm { imm9: imm9 as u16, idx: idx as u8, rn: AArch64RegisterId::spec_gpr_or_sp(rn), rt: AArch64RegisterId::spec_fpr(rt) }))
    } else if size == 0u32 && v == 1u32 && opc == 2u32 && (idx == 0u32) {
        Ok(AArch64Inst::SturSimdFP128(LdStRegUnscaledImm { imm9: imm9 as u16, idx: idx as u8, rn: AArch64RegisterId::spec_gpr_or_sp(rn), rt: AArch64RegisterId::spec_fpr(rt) }))
    } else if size == 0u32 && v == 1u32 && opc == 2u32 && (idx == 1u32 || idx == 3u32) {
        Ok(AArch64Inst::StrSimdFPIdx128(LdStRegUnscaledImm { imm9: imm9 as u16, idx: idx as u8, rn: AArch64RegisterId::spec_gpr_or_sp(rn), rt: AArch64RegisterId::spec_fpr(rt) }))
    } else if size == 0u32 && v == 1u32 && opc == 3u32 && (idx == 0u32) {
        Ok(AArch64Inst::LdurSimdFP128(LdStRegUnscaledImm { imm9: imm9 as u16, idx: idx as u8, rn: AArch64RegisterId::spec_gpr_or_sp(rn), rt: AArch64RegisterId::spec_fpr(rt) }))
    } else if size == 0u32 && v == 1u32 && opc == 3u32 && (idx == 1u32 || idx == 3u32) {
        Ok(AArch64Inst::LdrSimdFPIdx128(LdStRegUnscaledImm { imm9: imm9 as u16, idx: idx as u8, rn: AArch64RegisterId::spec_gpr_or_sp(rn), rt: AArch64RegisterId::spec_fpr(rt) }))
    } else if size == 1u32 && v == 0u32 && opc == 0u32 && (idx == 0u32) {
        Ok(AArch64Inst::Sturh(LdStRegUnscaledImm { imm9: imm9 as u16, idx: idx as u8, rn: AArch64RegisterId::spec_gpr_or_sp(rn), rt: AArch64RegisterId::spec_gpr_or_zr(rt) }))
    } else if size == 1u32 && v == 0u32 && opc == 0u32 && (idx == 1u32 || idx == 3u32) {
        Ok(AArch64Inst::StrhIdx(LdStRegUnscaledImm { imm9: imm9 as u16, idx: idx as u8, rn: AArch64RegisterId::spec_gpr_or_sp(rn), rt: AArch64RegisterId::spec_gpr_or_zr(rt) }))
    } else if size == 1u32 && v == 0u32 && opc == 1u32 && (idx == 0u32) {
        Ok(AArch64Inst::Ldurh(LdStRegUnscaledImm { imm9: imm9 as u16, idx: idx as u8, rn: AArch64RegisterId::spec_gpr_or_sp(rn), rt: AArch64RegisterId::spec_gpr_or_zr(rt) }))
    } else if size == 1u32 && v == 0u32 && opc == 1u32 && (idx == 1u32 || idx == 3u32) {
        Ok(AArch64Inst::LdrhIdx(LdStRegUnscaledImm { imm9: imm9 as u16, idx: idx as u8, rn: AArch64RegisterId::spec_gpr_or_sp(rn), rt: AArch64RegisterId::spec_gpr_or_zr(rt) }))
    } else if size == 1u32 && v == 0u32 && opc == 2u32 && (idx == 0u32) {
        Ok(AArch64Inst::Ldursh64(LdStRegUnscaledImm { imm9: imm9 as u16, idx: idx as u8, rn: AArch64RegisterId::spec_gpr_or_sp(rn), rt: AArch64RegisterId::spec_gpr_or_zr(rt) }))
    } else if size == 1u32 && v == 0u32 && opc == 2u32 && (idx == 1u32 || idx == 3u32) {
        Ok(AArch64Inst::LdrshIdx64(LdStRegUnscaledImm { imm9: imm9 as u16, idx: idx as u8, rn: AArch64RegisterId::spec_gpr_or_sp(rn), rt: AArch64RegisterId::spec_gpr_or_zr(rt) }))
    } else if size == 1u32 && v == 0u32 && opc == 3u32 && (idx == 0u32) {
        Ok(AArch64Inst::Ldursh32(LdStRegUnscaledImm { imm9: imm9 as u16, idx: idx as u8, rn: AArch64RegisterId::spec_gpr_or_sp(rn), rt: AArch64RegisterId::spec_gpr_or_zr(rt) }))
    } else if size == 1u32 && v == 0u32 && opc == 3u32 && (idx == 1u32 || idx == 3u32) {
        Ok(AArch64Inst::LdrshIdx32(LdStRegUnscaledImm { imm9: imm9 as u16, idx: idx as u8, rn: AArch64RegisterId::spec_gpr_or_sp(rn), rt: AArch64RegisterId::spec_gpr_or_zr(rt) }))
    } else if size == 1u32 && v == 1u32 && opc == 0u32 && (idx == 0u32) {
        Ok(AArch64Inst::SturSimdFP16(LdStRegUnscaledImm { imm9: imm9 as u16, idx: idx as u8, rn: AArch64RegisterId::spec_gpr_or_sp(rn), rt: AArch64RegisterId::spec_fpr(rt) }))
    } else if size == 1u32 && v == 1u32 && opc == 0u32 && (idx == 1u32 || idx == 3u32) {
        Ok(AArch64Inst::StrSimdFPIdx16(LdStRegUnscaledImm { imm9: imm9 as u16, idx: idx as u8, rn: AArch64RegisterId::spec_gpr_or_sp(rn), rt: AArch64RegisterId::spec_fpr(rt) }))
    } else if size == 1u32 && v == 1u32 && opc == 1u32 && (idx == 0u32) {
        Ok(AArch64Inst::LdurSimdFP16(LdStRegUnscaledImm { imm9: imm9 as u16, idx: idx as u8, rn: AArch64RegisterId::spec_gpr_or_sp(rn), rt: AArch64RegisterId::spec_fpr(rt) }))
    } else if size == 1u32 && v == 1u32 && opc == 1u32 && (idx == 1u32 || idx == 3u32) {
        Ok(AArch64Inst::LdrSimdFPIdx16(LdStRegUnscaledImm { imm9: imm9 as u16, idx: idx as u8, rn: AArch64RegisterId::spec_gpr_or_sp(rn), rt: AArch64RegisterId::spec_fpr(rt) }))
    } else if size == 2u32 && v == 0u32 && opc == 0u32 && (idx == 0u32) {
        Ok(AArch64Inst::Stur32(LdStRegUnscaledImm { imm9: imm9 as u16, idx: idx as u8, rn: AArch64RegisterId::spec_gpr_or_sp(rn), rt: AArch64RegisterId::spec_gpr_or_zr(rt) }))
    } else if size == 2u32 && v == 0u32 && opc == 0u32 && (idx == 1u32 || idx == 3u32) {
        Ok(AArch64Inst::StrIdx32(LdStRegUnscaledImm { imm9: imm9 as u16, idx: idx as u8, rn: AArch64RegisterId::spec_gpr_or_sp(rn), rt: AArch64RegisterId::spec_gpr_or_zr(rt) }))
    } else if size == 2u32 && v == 0u32 && opc == 1u32 && (idx == 0u32) {
        Ok(AArch64Inst::Ldur32(LdStRegUnscaledImm { imm9: imm9 as u16, idx: idx as u8, rn: AArch64RegisterId::spec_gpr_or_sp(rn), rt: AArch64RegisterId::spec_gpr_or_zr(rt) }))
    } else if size == 2u32 && v == 0u32 && opc == 1u32 && (idx == 1u32 || idx == 3u32) {
        Ok(AArch64Inst::LdrIdx32(LdStRegUnscaledImm { imm9: imm9 as u16, idx: idx as u8, rn: AArch64RegisterId::spec_gpr_or_sp(rn), rt: AArch64RegisterId::spec_gpr_or_zr(rt) }))
    } else if size == 2u32 && v == 0u32 && opc == 2u32 && (idx == 0u32) {
        Ok(AArch64Inst::Ldursw(LdStRegUnscaledImm { imm9: imm9 as u16, idx: idx as u8, rn: AArch64RegisterId::spec_gpr_or_sp(rn), rt: AArch64RegisterId::spec_gpr_or_zr(rt) }))
    } else if size == 2u32 && v == 0u32 && opc == 2u32 && (idx == 1u32 || idx == 3u32) {
        Ok(AArch64Inst::LdrswIdx(LdStRegUnscaledImm { imm9: imm9 as u16, idx: idx as u8, rn: AArch64RegisterId::spec_gpr_or_sp(rn), rt: AArch64RegisterId::spec_gpr_or_zr(rt) }))
    } else if size == 2u32 && v == 1u32 && opc == 0u32 && (idx == 0u32) {
        Ok(AArch64Inst::SturSimdFP32(LdStRegUnscaledImm { imm9: imm9 as u16, idx: idx as u8, rn: AArch64RegisterId::spec_gpr_or_sp(rn), rt: AArch64RegisterId::spec_fpr(rt) }))
    } else if size == 2u32 && v == 1u32 && opc == 0u32 && (idx == 1u32 || idx == 3u32) {
        Ok(AArch64Inst::StrSimdFPIdx32(LdStRegUnscaledImm { imm9: imm9 as u16, idx: idx as u8, rn: AArch64RegisterId::spec_gpr_or_sp(rn), rt: AArch64RegisterId::spec_fpr(rt) }))
    } else if size == 2u32 && v == 1u32 && opc == 1u32 && (idx == 0u32) {
        Ok(AArch64Inst::LdurSimdFP32(LdStRegUnscaledImm { imm9: imm9 as u16, idx: idx as u8, rn: AArch64RegisterId::spec_gpr_or_sp(rn), rt: AArch64RegisterId::spec_fpr(rt) }))
    } else if size == 2u32 && v == 1u32 && opc == 1u32 && (idx == 1u32 || idx == 3u32) {
        Ok(AArch64Inst::LdrSimdFPIdx32(LdStRegUnscaledImm { imm9: imm9 as u16, idx: idx as u8, rn: AArch64RegisterId::spec_gpr_or_sp(rn), rt: AArch64RegisterId::spec_fpr(rt) }))
    } else if size == 3u32 && v == 0u32 && opc == 0u32 && (idx == 0u32) {
        Ok(AArch64Inst::Stur64(LdStRegUnscaledImm { imm9: imm9 as u16, idx: idx as u8, rn: AArch64RegisterId::spec_gpr_or_sp(rn), rt: AArch64RegisterId::spec_gpr_or_zr(rt) }))
    } else if size == 3u32 && v == 0u32 && opc == 0u32 && (idx == 1u32 || idx == 3u32) {
        Ok(AArch64Inst::StrIdx64(LdStRegUnscaledImm { imm9: imm9 as u16, idx: idx as u8, rn: AArch64RegisterId::spec_gpr_or_sp(rn), rt: AArch64RegisterId::spec_gpr_or_zr(rt) }))
    } else if size == 3u32 && v == 0u32 && opc == 1u32 && (idx == 0u32) {
        Ok(AArch64Inst::Ldur64(LdStRegUnscaledImm { imm9: imm9 as u16, idx: idx as u8, rn: AArch64RegisterId::spec_gpr_or_sp(rn), rt: AArch64RegisterId::spec_gpr_or_zr(rt) }))
    } else if size == 3u32 && v == 0u32 && opc == 1u32 && (idx == 1u32 || idx == 3u32) {
        Ok(AArch64Inst::LdrIdx64(LdStRegUnscaledImm { imm9: imm9 as u16, idx: idx as u8, rn: AArch64RegisterId::spec_gpr_or_sp(rn), rt: AArch64RegisterId::spec_gpr_or_zr(rt) }))
    } else if size == 3u32 && v == 0u32 && opc == 2u32 && (idx == 0u32) {
        Ok(AArch64Inst::Prefum(LdStRegUnscaledImm { imm9: imm9 as u16, idx: idx as u8, rn: AArch64RegisterId::spec_gpr_or_sp(rn), rt: AArch64RegisterId::spec_gpr_or_zr(rt) }))
    } else if size == 3u32 && v == 1u32 && opc == 0u32 && (idx == 0u32) {
        Ok(AArch64Inst::SturSimdFP64(LdStRegUnscaledImm { imm9: imm9 as u16, idx: idx as u8, rn: AArch64RegisterId::spec_gpr_or_sp(rn), rt: AArch64RegisterId::spec_fpr(rt) }))
    } else if size == 3u32 && v == 1u32 && opc == 0u32 && (idx == 1u32 || idx == 3u32) {
        Ok(AArch64Inst::StrSimdFPIdx64(LdStRegUnscaledImm { imm9: imm9 as u16, idx: idx as u8, rn: AArch64RegisterId::spec_gpr_or_sp(rn), rt: AArch64RegisterId::spec_fpr(rt) }))
    } else if size == 3u32 && v == 1u32 && opc == 1u32 && (idx == 0u32) {
        Ok(AArch64Inst::LdurSimdFP64(LdStRegUnscaledImm { imm9: imm9 as u16, idx: idx as u8, rn: AArch64RegisterId::spec_gpr_or_sp(rn), rt: AArch64RegisterId::spec_fpr(rt) }))
    } else if size == 3u32 && v == 1u32 && opc == 1u32 && (idx == 1u32 || idx == 3u32) {
        Ok(AArch64Inst::LdrSimdFPIdx64(LdStRegUnscaledImm { imm9: imm9 as u16, idx: idx as u8, rn: AArch64RegisterId::spec_gpr_or_sp(rn), rt: AArch64RegisterId::spec_fpr(rt) }))
    } else {
        Err(DecodeError::UnknownInstruction { word: w })
    }
}

/// Decodes a word of the load store reg imm9 group.
pub fn parse_load_store_reg_imm9(w: u32) -> (r: Result<AArch64Inst, DecodeError>)
    ensures
        r == spec_parse_load_store_reg_imm9(w),
{
    let size = (w >> 30u32) & 0x3u32;
    let v = (w >> 26u32) & 0x1u32;
    let opc = (w >> 22u32) & 0x3u32;
    let imm9 = (w >> 12u32) & 0x1ffu32;
    let idx = (w >> 10u32) & 0x3u32;
    let rn = (w >> 5u32) & 0x1fu32;
    let rt = w & 0x1fu32;
    if idx == 2u32 {
        Err(DecodeError::UnknownInstruction { word: w })
    } else if size == 0u32 && v == 0u32 && opc == 0u32 && (idx == 0u32) {
        Ok(AArch64Inst::Sturb(LdStRegUnscaledImm { imm9: imm9 as u16, idx: idx as u8, rn: AArch64RegisterId::gpr_or_sp(rn), rt: AArch64RegisterId::gpr_or_zr(rt) }))
    } else if size == 0u32 && v == 0u32 && opc == 0u32 && (idx == 1u32 || idx == 3u32) {
        Ok(AArch64Inst::StrbIdx(LdStRegUnscaledImm { imm9: imm9 as u16, idx: idx as u8, rn: AArch64RegisterId::gpr_or_sp(rn), rt: AArch64RegisterId::gpr_or_zr(rt) }))
    } else if size == 0u32 && v == 0u32 && opc == 1u32 && (idx == 0u32) {
        Ok(AArch64Inst::Ldurb(LdStRegUnscaledImm { imm9: imm9 as u16, idx: idx as u8, rn: AArch64RegisterId::gpr_or_sp(rn), rt: AArch64RegisterId::gpr_or_zr(rt) }))
    } else if size == 0u32 && v == 0u32 && opc == 1u32 && (idx == 1u32 || idx == 3u32) {
        Ok(AArch64Inst::LdrbIdx(LdStRegUnscaledImm { imm9: imm9 as u16, idx: idx as u8, rn: AArch64RegisterId::gpr_or_sp(rn), rt: AArch64RegisterId::gpr_or_zr(rt) }))
    } else if size == 0u32 && v == 0u32 && opc == 2u32 && (idx == 0u32) {
        Ok(AArch64Inst::Ldursb64(LdStRegUnscaledImm { imm9: imm9 as u16, idx: idx as u8, rn: AArch64RegisterId::gpr_or_sp(rn), rt: AArch64RegisterId::gpr_or_zr(rt) }))
    } else if size == 0u32 && v == 0u32 && opc == 2u32 && (idx == 1u32 || idx == 3u32) {
        Ok(AArch64Inst::LdrsbIdx64(LdStRegUnscaledImm { imm9: imm9 as u16, idx: idx as u8, rn: AArch64RegisterId::gpr_or_sp(rn), rt: AArch64RegisterId::gpr_or_zr(rt) }))
    } else if size == 0u32 && v == 0u32 && opc == 3u32 && (idx == 0u32) {
        Ok(AArch64Inst::Ldursb32(LdStRegUnscaledImm { imm9: imm9 as u16, idx: idx as u8, rn: AArch64RegisterId::gpr_or_sp(rn), rt: AArch64RegisterId::gpr_or_zr(rt) }))
    } else if size == 0u32 && v == 0u32 && opc == 3u32 && (idx == 1u32 || idx == 3u32) {
        Ok(AArch64Inst::LdrsbIdx32(LdStRegUnscaledImm { imm9: imm9 as u16, idx: idx as u8, rn: AArch64RegisterId::gpr_or_sp(rn), rt: AArch64RegisterId::gpr_or_zr(rt) }))
    } else if size == 0u32 && v == 1u32 && opc == 0u32 && (idx == 0u32) {
        Ok(AArch64Inst::SturSimdFP8(LdStRegUnscaledImm { imm9: imm9 as u16, idx: idx as u8, rn: AArch64RegisterId::gpr_or_sp(rn), rt: AArch64RegisterId::fpr(rt) }))
    } else if size == 0u32 && v == 1u32 && opc == 0u32 && (idx == 1u32 || idx == 3u32) {
        Ok(AArch64Inst::StrSimdFPIdx8(LdStRegUnscaledImm { imm9: imm9 as u16, idx: idx as u8, rn: AArch64RegisterId::gpr_or_sp(rn), rt: AArch64RegisterId::fpr(rt) }))
    } else if size == 0u32 && v == 1u32 && opc == 1u32 && (idx == 0u32) {
        Ok(AArch64Inst::LdurSimdFP8(LdStRegUnscaledImm { imm9: imm9 as u16, idx: idx as u8, rn: AArch64RegisterId::gpr_or_sp(rn), rt: AArch64RegisterId::fpr(rt) }))
    } else if size == 0u32 && v == 1u32 && opc == 1u32 && (idx == 1u32 || idx == 3u32) {
        Ok(AArch64Inst::LdrSimdFPIdx8(LdStRegUnscaledImm { imm9: imm9 as u16, idx: idx as u8, rn: AArch64RegisterId::gpr_or_sp(rn), rt: AArch64RegisterId::fpr(rt) }))
    } else if size == 0u32 && v == 1u32 && opc == 2u32 && (idx == 0u32) {
        Ok(AArch64Inst::SturSimdFP128(LdStRegUnscaledImm { imm9: imm9 as u16, idx: idx as u8, rn: AArch64RegisterId::gpr_or_sp(rn), rt: AArch64RegisterId::fpr(rt) }))
    } else if size == 0u32 && v == 1u32 && opc == 2u32 && (idx == 1u32 || idx == 3u32) {
        Ok(AArch64Inst::StrSimdFPIdx128(LdStRegUnscaledImm { imm9: imm9 as u16, idx: idx as u8, rn: AArch64RegisterId::gpr_or_sp(rn), rt: AArch64RegisterId::fpr(rt) }))
    } else if size == 0u32 && v == 1u32 && opc == 3u32 && (idx == 0u32) {
        Ok(AArch64Inst::LdurSimdFP128(LdStRegUnscaledImm { imm9: imm9 as u16, idx: idx as u8, rn: AArch64RegisterId::gpr_or_sp(rn), rt: AArch64RegisterId::fpr(rt) }))
    } else if size == 0u32 && v == 1u32 && opc == 3u32 && (idx == 1u32 || idx == 3u32) {
        Ok(AArch64Inst::LdrSimdFPIdx128(LdStRegUnscaledImm { imm9: imm9 as u16, idx: idx as u8, rn: AArch64RegisterId::gpr_or_sp(rn), rt: AArch64RegisterId::fpr(rt) }))
    } else if size == 1u32 && v == 0u32 && opc == 0u32 && (idx == 0u32) {
        Ok(AArch64Inst::Sturh(LdStRegUnscaledImm { imm9: imm9 as u16, idx: idx as u8, rn: AArch64RegisterId::gpr_or_sp(rn), rt: AArch64RegisterId::gpr_or_zr(rt) }))
    } else if size == 1u32 && v == 0u32 && opc == 0u32 && (idx == 1u32 || idx == 3u32) {
        Ok(AArch64Inst::StrhIdx(LdStRegUnscaledImm { imm9: imm9 as u16, idx: idx as u8, rn: AArch64RegisterId::gpr_or_sp(rn), rt: AArch64RegisterId::gpr_or_zr(rt) }))
    } else if size == 1u32 && v == 0u32 && opc == 1u32 && (idx == 0u32) {
        Ok(AArch64Inst::Ldurh(LdStRegUnscaledImm { imm9: imm9 as u16, idx: idx as u8, rn: AArch64RegisterId::gpr_or_sp(rn), rt: AArch64RegisterId::gpr_or_zr(rt) }))
    } else if size == 1u32 && v == 0u32 && opc == 1u32 && (idx == 1u32 || idx == 3u32) {
        Ok(AArch64Inst::LdrhIdx(LdStRegUnscaledImm { imm9: imm9 as u16, idx: idx as u8, rn: AArch64RegisterId::gpr_or_sp(rn), rt: AArch64RegisterId::gpr_or_zr(rt) }))
    } else if size == 1u32 && v == 0u32 && opc == 2u32 && (idx == 0u32) {
        Ok(AArch64Inst::Ldursh64(LdStRegUnscaledImm { imm9: imm9 as u16, idx: idx as u8, rn: AArch64RegisterId::gpr_or_sp(rn), rt: AArch64RegisterId::gpr_or_zr(rt) }))
    } else if size == 1u32 && v == 0u32 && opc == 2u32 && (idx == 1u32 || idx == 3u32) {
        Ok(AArch64Inst::LdrshIdx64(LdStRegUnscaledImm { imm9: imm9 as u16, idx: idx as u8, rn: AArch64RegisterId::gpr_or_sp(rn), rt: AArch64RegisterId::gpr_or_zr(rt) }))
    } else if size == 1u32 && v == 0u32 && opc == 3u32 && (idx == 0u32) {
        Ok(AArch64Inst::Ldursh32(LdStRegUnscaledImm { imm9: imm9 as u16, idx: idx as u8, rn: AArch64RegisterId::gpr_or_sp(rn), rt: AArch64RegisterId::gpr_or_zr(rt) }))
    } else if size == 1u32 && v == 0u32 && opc == 3u32 && (idx == 1u32 || idx == 3u32) {
        Ok(AArch64Inst::LdrshIdx32(LdStRegUnscaledImm { imm9: imm9 as u16, idx: idx as u8, rn: AArch64RegisterId::gpr_or_sp(rn), rt: AArch64RegisterId::gpr_or_zr(rt) }))
    } else if size == 1u32 && v == 1u32 && opc == 0u32 && (idx == 0u32) {
        Ok(AArch64Inst::SturSimdFP16(LdStRegUnscaledImm { imm9: imm9 as u16, idx: idx as u8, rn: AArch64RegisterId::gpr_or_sp(rn), rt: AArch64RegisterId::fpr(rt) }))
    } else if size == 1u32 && v == 1u32 && opc == 0u32 && (idx == 1u32 || idx == 3u32) {
        Ok(AArch64Inst::StrSimdFPIdx16(LdStRegUnscaledImm { imm9: imm9 as u16, idx: idx as u8, rn: AArch64RegisterId::gpr_or_sp(rn), rt: AArch64RegisterId::fpr(rt) }))
    } else if size == 1u32 && v == 1u32 && opc == 1u32 && (idx == 0u32) {
        Ok(AArch64Inst::LdurSimdFP16(LdStRegUnscaledImm { imm9: imm9 as u16, idx: idx as u8, rn: AArch64RegisterId::gpr_or_sp(rn), rt: AArch64RegisterId::fpr(rt) }))
    } else if size == 1u32 && v == 1u32 && opc == 1u32 && (idx == 1u32 || idx == 3u32) {
        Ok(AArch64Inst::LdrSimdFPIdx16(LdStRegUnscaledImm { imm9: imm9 as u16, idx: idx as u8, rn: AArch64RegisterId::gpr_or_sp(rn), rt: AArch64RegisterId::fpr(rt) }))
    } else if size == 2u32 && v == 0u32 && opc == 0u32 && (idx == 0u32) {
        Ok(AArch64Inst::Stur32(LdStRegUnscaledImm { imm9: imm9 as u16, idx: idx as u8, rn: AArch64RegisterId::gpr_or_sp(rn), rt: AArch64RegisterId::gpr_or_zr(rt) }))
    } else if size == 2u32 && v == 0u32 && opc == 0u32 && (idx == 1u32 || idx == 3u32) {
        Ok(AArch64Inst::StrIdx32(LdStRegUnscaledImm { imm9: imm9 as u16, idx: idx as u8, rn: AArch64RegisterId::gpr_or_sp(rn), rt: AArch64RegisterId::gpr_or_zr(rt) }))
    } else if size == 2u32 && v == 0u32 && opc == 1u32 && (idx == 0u32) {
        Ok(AArch64Inst::Ldur32(LdStRegUnscaledImm { imm9: imm9 as u16, idx: idx as u8, rn: AArch64RegisterId::gpr_or_sp(rn), rt: AArch64RegisterId::gpr_or_zr(rt) }))
    } else if size == 2u32 && v == 0u32 && opc == 1u32 && (idx == 1u32 || idx == 3u32) {
        Ok(AArch64Inst::LdrIdx32(LdStRegUnscaledImm { imm9: imm9 as u16, idx: idx as u8, rn: AArch64RegisterId::gpr_or_sp(rn), rt: AArch64RegisterId::gpr_or_zr(rt) }))
    } else if size == 2u32 && v == 0u32 && opc == 2u32 && (idx == 0u32) {
        Ok(AArch64Inst::Ldursw(LdStRegUnscaledImm { imm9: imm9 as u16, idx: idx as u8, rn: AArch64RegisterId::gpr_or_sp(rn), rt: AArch64RegisterId::gpr_or_zr(rt) }))
    } else if size == 2u32 && v == 0u32 && opc == 2u32 && (idx == 1u32 || idx == 3u32) {
        Ok(AArch64Inst::LdrswIdx(LdStRegUnscaledImm { imm9: imm9 as u16, idx: idx as u8, rn: AArch64RegisterId::gpr_or_sp(rn), rt: AArch64RegisterId::gpr_or_zr(rt) }))
    } else if size == 2u32 && v == 1u32 && opc == 0u32 && (idx == 0u32) {
        Ok(AArch64Inst::SturSimdFP32(LdStRegUnscaledImm { imm9: imm9 as u16, idx: idx as u8, rn: AArch64RegisterId::gpr_or_sp(rn), rt: AArch64RegisterId::fpr(rt) }))
    } else if size == 2u32 && v == 1u32 && opc == 0u32 && (idx == 1u32 || idx == 3u32) {
        Ok(AArch64Inst::StrSimdFPIdx32(LdStRegUnscaledImm { imm9: imm9 as u16, idx: idx as u8, rn: AArch64RegisterId::gpr_or_sp(rn), rt: AArch64RegisterId::fpr(rt) }))
    } else if size == 2u32 && v == 1u32 && opc == 1u32 && (idx == 0u32) {
        Ok(AArch64Inst::LdurSimdFP32(LdStRegUnscaledImm { imm9: imm9 as u16, idx: idx as u8, rn: AArch64RegisterId::gpr_or_sp(rn), rt: AArch64RegisterId::fpr(rt) }))
    } else if size == 2u32 && v == 1u32 && opc == 1u32 && (idx == 1u32 || idx == 3u32) {
        Ok(AArch64Inst::LdrSimdFPIdx32(LdStRegUnscaledImm { imm9: imm9 as u16, idx: idx as u8, rn: AArch64RegisterId::gpr_or_sp(rn), rt: AArch64RegisterId::fpr(rt) }))
    } else if size == 3u32 && v == 0u32 && opc == 0u32 && (idx == 0u32) {
        Ok(AArch64Inst::Stur64(LdStRegUnscaledImm { imm9: imm9 as u16, idx: idx as u8, rn: AArch64RegisterId::gpr_or_sp(rn), rt: AArch64RegisterId::gpr_or_zr(rt) }))
    } else if size == 3u32 && v == 0u32 && opc == 0u32 && (idx == 1u32 || idx == 3u32) {
        Ok(AArch64Inst::StrIdx64(LdStRegUnscaledImm { imm9: imm9 as u16, idx: idx as u8, rn: AArch64RegisterId::gpr_or_sp(rn), rt: AArch64RegisterId::gpr_or_zr(rt) }))
    } else if size == 3u32 && v == 0u32 && opc == 1u32 && (idx == 0u32) {
        Ok(AArch64Inst::Ldur64(LdStRegUnscaledImm { imm9: imm9 as u16, idx: idx as u8, rn: AArch64RegisterId::gpr_or_sp(rn), rt: AArch64RegisterId::gpr_or_zr(rt) }))
    } else if size == 3u32 && v == 0u32 && opc == 1u32 && (idx == 1u32 || idx == 3u32) {
        Ok(AArch64Inst::LdrIdx64(LdStRegUnscaledImm { imm9: imm9 as u16, idx: idx as u8, rn: AArch64RegisterId::gpr_or_sp(rn), rt: AArch64RegisterId::gpr_or_zr(rt) }))
    } else if size == 3u32 && v == 0u32 && opc == 2u32 && (idx == 0u32) {
        Ok(AArch64Inst::Prefum(LdStRegUnscaledImm { imm9: imm9 as u16, idx: idx as u8, rn: AArch64RegisterId::gpr_or_sp(rn), rt: AArch64RegisterId::gpr_or_zr(rt) }))
    } else if size == 3u32 && v == 1u32 && opc == 0u32 && (idx == 0u32) {
        Ok(AArch64Inst::SturSimdFP64(LdStRegUnscaledImm { imm9: imm9 as u16, idx: idx as u8, rn: AArch64RegisterId::gpr_or_sp(rn), rt: AArch64RegisterId::fpr(rt) }))
    } else if size == 3u32 && v == 1u32 && opc == 0u32 && (idx == 1u32 || idx == 3u32) {
        Ok(AArch64Inst::StrSimdFPIdx64(LdStRegUnscaledImm { imm9: imm9 as u16, idx: idx as u8, rn: AArch64RegisterId::gpr_or_sp(rn), rt: AArch64RegisterId::fpr(rt) }))
    } else if size == 3u32 && v == 1u32 && opc == 1u32 && (idx == 0u32) {
        Ok(AArch64Inst::LdurSimdFP64(LdStRegUnscaledImm { imm9: imm9 as u16, idx: idx as u8, rn: AArch64RegisterId::gpr_or_sp(rn), rt: AArch64RegisterId::fpr(rt) }))
    } else if size == 3u32 && v == 1u32 && opc == 1u32 && (idx == 1u32 || idx == 3u32) {
        Ok(AArch64Inst::LdrSimdFPIdx64(LdStRegUnscaledImm { imm9: imm9 as u16, idx: idx as u8, rn: AArch64RegisterId::gpr_or_sp(rn), rt: AArch64RegisterId::fpr(rt) }))
    } else {
        Err(DecodeError::UnknownInstruction { word: w })
    }
}

proof fn lemma_split_load_store_reg_imm9(w: u32)
    by (bit_vector)
    requires
        w & 0xa000000u32 == 0x8000000u32,
        w & 0x3b200000u32 == 0x38000000u32,
    ensures
        w == enc_load_store_reg_imm9((w >> 30u32) & 0x3u32, (w >> 26u32) & 0x1u32, (w >> 22u32) & 0x3u32, (w >> 12u32) & 0x1ffu32, (w >> 10u32) & 0x3u32, (w >> 5u32) & 0x1fu32, w & 0x1fu32),
        (w >> 30u32) & 0x3u32 <= 0x3u32,
        (w >> 26u32) & 0x1u32 <= 0x1u32,
        (w >> 22u32) & 0x3u32 <= 0x3u32,
        (w >> 12u32) & 0x1ffu32 <= 0x1ffu32,
        (w >> 10u32) & 0x3u32 <= 0x3u32,
        (w >> 5u32) & 0x1fu32 <= 0x1fu32,
        w & 0x1fu32 <= 0x1fu32,
{
}

#[verifier::spinoff_prover]
#[verifier::rlimit(100)]
proof fn lemma_parse_load_store_reg_imm9_sound(w: u32)
    requires
        w & 0xa000000u32 == 0x8000000u32,
        w & 0x3b200000u32 == 0x38000000u32,
    ensures
        spec_parse_load_store_reg_imm9(w) matches Ok(i) ==> i.spec_encode() == w,
{
    lemma_split_load_store_reg_imm9(w);
}

/// Variant and operands of a word in the data proc 2src group.
pub open spec fn spec_parse_data_proc_2src(w: u32) -> Result<AArch64Inst, DecodeError> {
    let sf = (w >> 31u32) & 0x1u32;
    let s = (w >> 29u32) & 0x1u32;
    let rm = (w >> 16u32) & 0x1fu32;
    let opcode = (w >> 10u32) & 0x3fu32;
    let rn = (w >> 5u32) & 0x1fu32;
    let rd = w & 0x1fu32;
    if sf == 0u32 && s == 0u32 && opcode == 2u32 {
        Ok(AArch64Inst::UdivVar32(DataProc2Src { rm: AArch64RegisterId::spec_gpr_or_zr(rm), rn: AArch64RegisterId::spec_gpr_or_zr(rn), rd: AArch64RegisterId::spec_gpr_or_zr(rd) }))
    } else if sf == 0u32 && s == 0u32 && opcode == 3u32 {
        Ok(AArch64Inst::SdivVar32(DataProc2Src { rm: AArch64RegisterId::spec_gpr_or_zr(rm), rn: AArch64RegisterId::spec_gpr_or_zr(rn), rd: AArch64RegisterId::spec_gpr_or_zr(rd) }))
    } else if sf == 0u32 && s == 0u32 && opcode == 8u32 {
        Ok(AArch64Inst::LslvVar32(DataProc2Src { rm: AArch64RegisterId::spec_gpr_or_zr(rm), rn: AArch64RegisterId::spec_gpr_or_zr(rn), rd: AArch64RegisterId::spec_gpr_or_zr(rd) }))
    } else if sf == 0u32 && s == 0u32 && opcode == 9u32 {
        Ok(AArch64Inst::LsrvVar32(DataProc2Src { rm: AArch64RegisterId::spec_gpr_or_zr(rm), rn: AArch64RegisterId::spec_gpr_or_zr(rn), rd: AArch64RegisterId::spec_gpr_or_zr(rd) }))
    } else if sf == 0u32 && s == 0u32 && opcode == 10u32 {
        Ok(AArch64Inst::AsrvVar32(DataProc2Src { rm: AArch64RegisterId::spec_gpr_or_zr(rm), rn: AArch64RegisterId::spec_gpr_or_zr(rn), rd: AArch64RegisterId::spec_gpr_or_zr(rd) }))
    } else if sf == 0u32 && s == 0u32 && opcode == 11u32 {
        Ok(AArch64Inst::RorvVar32(DataProc2Src { rm: AArch64RegisterId::spec_gpr_or_zr(rm), rn: AArch64RegisterId::spec_gpr_or_zr(rn), rd: AArch64RegisterId::spec_gpr_or_zr(rd) }))
    } else if sf == 1u32 && s == 0u32 && opcode == 2u32 {
        Ok(AArch64Inst::UdivVar64(DataProc2Src { rm: AArch64RegisterId::spec_gpr_or_zr(rm), rn: AArch64RegisterId::spec_gpr_or_zr(rn), rd: AArch64RegisterId::spec_gpr_or_zr(rd) }))
    } else if sf == 1u32 && s == 0u32 && opcode == 3u32 {
        Ok(AArch64Inst::SdivVar64(DataProc2Src { rm: AArch64RegisterId::spec_gpr_or_zr(rm), rn: AArch64RegisterId::spec_gpr_or_zr(rn), rd: AArch64RegisterId::spec_gpr_or_zr(rd) }))
    } else if sf == 1u32 && s == 0u32 && opcode == 8u32 {
        Ok(AArch64Inst::LslvVar64(DataProc2Src { rm: AArch64RegisterId::spec_gpr_or_zr(rm), rn: AArch64RegisterId::spec_gpr_or_zr(rn), rd: AArch64RegisterId::spec_gpr_or_zr(rd) }))
    } else if sf == 1u32 && s == 0u32 && opcode == 9u32 {
        Ok(AArch64Inst::LsrvVar64(DataProc2Src { rm: AArch64RegisterId::spec_gpr_or_zr(rm), rn: AArch64RegisterId::spec_gpr_or_zr(rn), rd: AArch64RegisterId::spec_gpr_or_zr(rd) }))
    } else if sf == 1u32 && s == 0u32 && opcode == 10u32 {
        Ok(AArch64Inst::AsrvVar64(DataProc2Src { rm: AArch64RegisterId::spec_gpr_or_zr(rm), rn: AArch64RegisterId::spec_gpr_or_zr(rn), rd: AArch64RegisterId::spec_gpr_or_zr(rd) }))
    } else if sf == 1u32 && s == 0u32 && opcode == 11u32 {
        Ok(AArch64Inst::RorvVar64(DataProc2Src { rm: AArch64RegisterId::spec_gpr_or_zr(rm), rn: AArch64RegisterId::spec_gpr_or_zr(rn), rd: AArch64RegisterId::spec_gpr_or_zr(rd) }))
    } else {
        Err(DecodeError::UnknownInstruction { word: w })
    }
}

/// Decodes a word of the data proc 2src group.
pub fn parse_data_proc_2src(w: u32) -> (r: Result<AArch64Inst, DecodeError>)
    ensures
        r == spec_parse_data_proc_2src(w),
{
    let sf = (w >> 31u32) & 0x1u32;
    let s = (w >> 29u32) & 0x1u32;
    let rm = (w >> 16u32) & 0x1fu32;
    let opcode = (w >> 10u32) & 0x3fu32;
    let rn = (w >> 5u32) & 0x1fu32;
    let rd = w & 0x1fu32;
    if sf == 0u32 && s == 0u32 && opcode == 2u32 {
        Ok(AArch64Inst::UdivVar32(DataProc2Src { rm: AArch64RegisterId::gpr_or_zr(rm), rn: AArch64RegisterId::gpr_or_zr(rn), rd: AArch64RegisterId::gpr_or_zr(rd) }))
    } else if sf == 0u32 && s == 0u32 && opcode == 3u32 {
        Ok(AArch64Inst::SdivVar32(DataProc2Src { rm: AArch64RegisterId::gpr_or_zr(rm), rn: AArch64RegisterId::gpr_or_zr(rn), rd: AArch64RegisterId::gpr_or_zr(rd) }))
    } else if sf == 0u32 && s == 0u32 && opcode == 8u32 {
        Ok(AArch64Inst::LslvVar32(DataProc2Src { rm: AArch64RegisterId::gpr_or_zr(rm), rn: AArch64RegisterId::gpr_or_zr(rn), rd: AArch64RegisterId::gpr_or_zr(rd) }))
    } else if sf == 0u32 && s == 0u32 && opcode == 9u32 {
        Ok(AArch64Inst::LsrvVar32(DataProc2Src { rm: AArch64RegisterId::gpr_or_zr(rm), rn: AArch64RegisterId::gpr_or_zr(rn), rd: AArch64RegisterId::gpr_or_zr(rd) }))
    } else if sf == 0u32 && s == 0u32 && opcode == 10u32 {
        Ok(AArch64Inst::AsrvVar32(DataProc2Src { rm: AArch64RegisterId::gpr_or_zr(rm), rn: AArch64RegisterId::gpr_or_zr(rn), rd: AArch64RegisterId::gpr_or_zr(rd) }))
    } else if sf == 0u32 && s == 0u32 && opcode == 11u32 {
        Ok(AArch64Inst::RorvVar32(DataProc2Src { rm: AArch64RegisterId::gpr_or_zr(rm), rn: AArch64RegisterId::gpr_or_zr(rn), rd: AArch64RegisterId::gpr_or_zr(rd) }))
    } else if sf == 1u32 && s == 0u32 && opcode == 2u32 {
        Ok(AArch64Inst::UdivVar64(DataProc2Src { rm: AArch64RegisterId::gpr_or_zr(rm), rn: AArch64RegisterId::gpr_or_zr(rn), rd: AArch64RegisterId::gpr_or_zr(rd) }))
    } else if sf == 1u32 && s == 0u32 && opcode == 3u32 {
        Ok(AArch64Inst::SdivVar64(DataProc2Src { rm: AArch64RegisterId::gpr_or_zr(rm), rn: AArch64RegisterId::gpr_or_zr(rn), rd: AArch64RegisterId::gpr_or_zr(rd) }))
    } else if sf == 1u32 && s == 0u32 && opcode == 8u32 {
        Ok(AArch64Inst::LslvVar64(DataProc2Src { rm: AArch64RegisterId::gpr_or_zr(rm), rn: AArch64RegisterId::gpr_or_zr(rn), rd: AArch64RegisterId::gpr_or_zr(rd) }))
    } else if sf == 1u32 && s == 0u32 && opcode == 9u32 {
        Ok(AArch64Inst::LsrvVar64(DataProc2Src { rm: AArch64RegisterId::gpr_or_zr(rm), rn: AArch64RegisterId::gpr_or_zr(rn), rd: AArch64RegisterId::gpr_or_zr(rd) }))
    } else if sf == 1u32 && s == 0u32 && opcode == 10u32 {
        Ok(AArch64Inst::AsrvVar64(DataProc2Src { rm: AArch64RegisterId::gpr_or_zr(rm), rn: AArch64RegisterId::gpr_or_zr(rn), rd: AArch64RegisterId::gpr_or_zr(rd) }))
    } else if sf == 1u32 && s == 0u32 && opcode == 11u32 {
        Ok(AArch64Inst::RorvVar64(DataProc2Src { rm: AArch64RegisterId::gpr_or_zr(rm), rn: AArch64RegisterId::gpr_or_zr(rn), rd: AArch64RegisterId::gpr_or_zr(rd) }))
    } else {
        Err(DecodeError::UnknownInstruction { word: w })
    }
}

proof fn lemma_split_data_proc_2src(w: u32)
    by (bit_vector)
    requires
        w & 0xe000000u32 == 0xa000000u32,
        w & 0x5fe00000u32 == 0x1ac00000u32,
    ensures
        w == enc_data_proc_2src((w >> 31u32) & 0x1u32, (w >> 29u32) & 0x1u32, (w >> 16u32) & 0x1fu32, (w >> 10u32) & 0x3fu32, (w >> 5u32) & 0x1fu32, w & 0x1fu32),
        (w >> 31u32) & 0x1u32 <= 0x1u32,
        (w >> 29u32) & 0x1u32 <= 0x1u32,
        (w >> 16u32) & 0x1fu32 <= 0x1fu32,
        (w >> 10u32) & 0x3fu32 <= 0x3fu32,
        (w >> 5u32) & 0x1fu32 <= 0x1fu32,
        w & 0x1fu32 <= 0x1fu32,
{
}

proof fn lemma_parse_data_proc_2src_sound(w: u32)
    requires
        w & 0xe000000u32 == 0xa000000u32,
        w & 0x5fe00000u32 == 0x1ac00000u32,
    ensures
        spec_parse_data_proc_2src(w) matches Ok(i) ==> i.spec_encode() == w,
{
    lemma_split_data_proc_2src(w);
}

/// Variant and operands of a word in the logical shifted register group.
pub open spec fn spec_parse_logical_shifted_register(w: u32) -> Result<AArch64Inst, DecodeError> {
    let sf = (w >> 31u32) & 0x1u32;
    let opc = (w >> 29u32) & 0x3u32;
    let shift = (w >> 22u32) & 0x3u32;
    let n = (w >> 21u32) & 0x1u32;
    let rm = (w >> 16u32) & 0x1fu32;
    let imm6 = (w >> 10u32) & 0x3fu32;
    let rn = (w >> 5u32) & 0x1fu32;
    let rd = w & 0x1fu32;
    if sf == 0u32 && imm6 >= 32u32 {
        Err(DecodeError::ReservedEncoding { word: w })
    } else if sf == 0u32 && opc == 0u32 && n == 0u32 {
        Ok(AArch64Inst::AndShiftedReg32(ShiftRmImm6RnRd { shift: shift as u8, rm: AArch64RegisterId::spec_gpr_or_zr(rm), imm6: imm6 as u8, rn: AArch64RegisterId::spec_gpr_or_zr(rn), rd: AArch64RegisterId::spec_gpr_or_zr(rd) }))
    } else if sf == 0u32 && opc == 0u32 && n == 1u32 {
        Ok(AArch64Inst::BicShiftedReg32(ShiftRmImm6RnRd { shift: shift as u8, rm: AArch64RegisterId::spec_gpr_or_zr(rm), imm6: imm6 as u8, rn: AArch64RegisterId::spec_gpr_or_zr(rn), rd: AArch64RegisterId::spec_gpr_or_zr(rd) }))
    } else if sf == 0u32 && opc == 1u32 && n == 0u32 {
        Ok(AArch64Inst::OrrShiftedReg32(ShiftRmImm6RnRd { shift: shift as u8, rm: AArch64RegisterId::spec_gpr_or_zr(rm), imm6: imm6 as u8, rn: AArch64RegisterId::spec_gpr_or_zr(rn), rd: AArch64RegisterId::spec_gpr_or_zr(rd) }))
    } else if sf == 0u32 && opc == 1u32 && n == 1u32 {
        Ok(AArch64Inst::OrnShiftedReg32(ShiftRmImm6RnRd { shift: shift as u8, rm: AArch64RegisterId::spec_gpr_or_zr(rm), imm6: imm6 as u8, rn: AArch64RegisterId::spec_gpr_or_zr(rn), rd: AArch64RegisterId::spec_gpr_or_zr(rd) }))
    } else if sf == 0u32 && opc == 2u32 && n == 0u32 {
        Ok(AArch64Inst::EorShiftedReg32(ShiftRmImm6RnRd { shift: shift as u8, rm: AArch64RegisterId::spec_gpr_or_zr(rm), imm6: imm6 as u8, rn: AArch64RegisterId::spec_gpr_or_zr(rn), rd: AArch64RegisterId::spec_gpr_or_zr(rd) }))
    } else if sf == 0u32 && opc == 2u32 && n == 1u32 {
        Ok(AArch64Inst::EonShiftedReg32(ShiftRmImm6RnRd { shift: shift as u8, rm: AArch64RegisterId::spec_gpr_or_zr(rm), imm6: imm6 as u8, rn: AArch64RegisterId::spec_gpr_or_zr(rn), rd: AArch64RegisterId::spec_gpr_or_zr(rd) }))
    } else if sf == 0u32 && opc == 3u32 && n == 0u32 {
        Ok(AArch64Inst::AndsShiftedReg32(ShiftRmImm6RnRd { shift: shift as u8, rm: AArch64RegisterId::spec_gpr_or_zr(rm), imm6: imm6 as u8, rn: AArch64RegisterId::spec_gpr_or_zr(rn), rd: AArch64RegisterId::spec_gpr_or_zr(rd) }))
    } else if sf == 0u32 && opc == 3u32 && n == 1u32 {
        Ok(AArch64Inst::BicsShiftedReg32(ShiftRmImm6RnRd { shift: shift as u8, rm: AArch64RegisterId::spec_gpr_or_zr(rm), imm6: imm6 as u8, rn: AArch64RegisterId::spec_gpr_or_zr(rn), rd: AArch64RegisterId::spec_gpr_or_zr(rd) }))
    } else if sf == 1u32 && opc == 0u32 && n == 0u32 {
        Ok(AArch64Inst::AndShiftedReg64(ShiftRmImm6RnRd { shift: shift as u8, rm: AArch64RegisterId::spec_gpr_or_zr(rm), imm6: imm6 as u8, rn: AArch64RegisterId::spec_gpr_or_zr(rn), rd: AArch64RegisterId::spec_gpr_or_zr(rd) }))
    } else if sf == 1u32 && opc == 0u32 && n == 1u32 {
        Ok(AArch64Inst::BicShiftedReg64(ShiftRmImm6RnRd { shift: shift as u8, rm: AArch64RegisterId::spec_gpr_or_zr(rm), imm6: imm6 as u8, rn: AArch64RegisterId::spec_gpr_or_zr(rn), rd: AArch64RegisterId::spec_gpr_or_zr(rd) }))
    } else if sf == 1u32 && opc == 1u32 && n == 0u32 {
        Ok(AArch64Inst::OrrShiftedReg64(ShiftRmImm6RnRd { shift: shift as u8, rm: AArch64RegisterId::spec_gpr_or_zr(rm), imm6: imm6 as u8, rn: AArch64RegisterId::spec_gpr_or_zr(rn), rd: AArch64RegisterId::spec_gpr_or_zr(rd) }))
    } else if sf == 1u32 && opc == 1u32 && n == 1u32 {
        Ok(AArch64Inst::OrnShiftedReg64(ShiftRmImm6RnRd { shift: shift as u8, rm: AArch64RegisterId::spec_gpr_or_zr(rm), imm6: imm6 as u8, rn: AArch64RegisterId::spec_gpr_or_zr(rn), rd: AArch64RegisterId::spec_gpr_or_zr(rd) }))
    } else if sf == 1u32 && opc == 2u32 && n == 0u32 {
        Ok(AArch64Inst::EorShiftedReg64(ShiftRmImm6RnRd { shift: shift as u8, rm: AArch64RegisterId::spec_gpr_or_zr(rm), imm6: imm6 as u8, rn: AArch64RegisterId::spec_gpr_or_zr(rn), rd: AArch64RegisterId::spec_gpr_or_zr(rd) }))
    } else if sf == 1u32 && opc == 2u32 && n == 1u32 {
        Ok(AArch64Inst::EonShiftedReg64(ShiftRmImm6RnRd { shift: shift as u8, rm: AArch64RegisterId::spec_gpr_or_zr(rm), imm6: imm6 as u8, rn: AArch64RegisterId::spec_gpr_or_zr(rn), rd: AArch64RegisterId::spec_gpr_or_zr(rd) }))
    } else if sf == 1u32 && opc == 3u32 && n == 0u32 {
        Ok(AArch64Inst::AndsShiftedReg64(ShiftRmImm6RnRd { shift: shift as u8, rm: AArch64RegisterId::spec_gpr_or_zr(rm), imm6: imm6 as u8, rn: AArch64RegisterId::spec_gpr_or_zr(rn), rd: AArch64RegisterId::spec_gpr_or_zr(rd) }))
    } else if sf == 1u32 && opc == 3u32 && n == 1u32 {
        Ok(AArch64Inst::BicsShiftedReg64(ShiftRmImm6RnRd { shift: shift as u8, rm: AArch64RegisterId::spec_gpr_or_zr(rm), imm6: imm6 as u8, rn: AArch64RegisterId::spec_gpr_or_zr(rn), rd: AArch64RegisterId::spec_gpr_or_zr(rd) }))
    } else {
        Err(DecodeError::UnknownInstruction { word: w })
    }
}

/// Decodes a word of the logical shifted register group.
pub fn parse_logical_shifted_register(w: u32) -> (r: Result<AArch64Inst, DecodeError>)
    ensures
        r == spec_parse_logical_shifted_register(w),
{
    let sf = (w >> 31u32) & 0x1u32;
    let opc = (w >> 29u32) & 0x3u32;
    let shift = (w >> 22u32) & 0x3u32;
    let n = (w >> 21u32) & 0x1u32;
    let rm = (w >> 16u32) & 0x1fu32;
    let imm6 = (w >> 10u32) & 0x3fu32;
    let rn = (w >> 5u32) & 0x1fu32;
    let rd = w & 0x1fu32;
    if sf == 0u32 && imm6 >= 32u32 {
        Err(DecodeError::ReservedEncoding { word: w })
    } else if sf == 0u32 && opc == 0u32 && n == 0u32 {
        Ok(AArch64Inst::AndShiftedReg32(ShiftRmImm6RnRd { shift: shift as u8, rm: AArch64RegisterId::gpr_or_zr(rm), imm6: imm6 as u8, rn: AArch64RegisterId::gpr_or_zr(rn), rd: AArch64RegisterId::gpr_or_zr(rd) }))
    } else if sf == 0u32 && opc == 0u32 && n == 1u32 {
        Ok(AArch64Inst::BicShiftedReg32(ShiftRmImm6RnRd { shift: shift as u8, rm: AArch64RegisterId::gpr_or_zr(rm), imm6: imm6 as u8, rn: AArch64RegisterId::gpr_or_zr(rn), rd: AArch64RegisterId::gpr_or_zr(rd) }))
    } else if sf == 0u32 && opc == 1u32 && n == 0u32 {
        Ok(AArch64Inst::OrrShiftedReg32(ShiftRmImm6RnRd { shift: shift as u8, rm: AArch64RegisterId::gpr_or_zr(rm), imm6: imm6 as u8, rn: AArch64RegisterId::gpr_or_zr(rn), rd: AArch64RegisterId::gpr_or_zr(rd) }))
    } else if sf == 0u32 && opc == 1u32 && n == 1u32 {
        Ok(AArch64Inst::OrnShiftedReg32(ShiftRmImm6RnRd { shift: shift as u8, rm: AArch64RegisterId::gpr_or_zr(rm), imm6: imm6 as u8, rn: AArch64RegisterId::gpr_or_zr(rn), rd: AArch64RegisterId::gpr_or_zr(rd) }))
    } else if sf == 0u32 && opc == 2u32 && n == 0u32 {
        Ok(AArch64Inst::EorShiftedReg32(ShiftRmImm6RnRd { shift: shift as u8, rm: AArch64RegisterId::gpr_or_zr(rm), imm6: imm6 as u8, rn: AArch64RegisterId::gpr_or_zr(rn), rd: AArch64RegisterId::gpr_or_zr(rd) }))
    } else if sf == 0u32 && opc == 2u32 && n == 1u32 {
        Ok(AArch64Inst::EonShiftedReg32(ShiftRmImm6RnRd { shift: shift as u8, rm: AArch64RegisterId::gpr_or_zr(rm), imm6: imm6 as u8, rn: AArch64RegisterId::gpr_or_zr(rn), rd: AArch64RegisterId::gpr_or_zr(rd) }))
    } else if sf == 0u32 && opc == 3u32 && n == 0u32 {
        Ok(AArch64Inst::AndsShiftedReg32(ShiftRmImm6RnRd { shift: shift as u8, rm: AArch64RegisterId::gpr_or_zr(rm), imm6: imm6 as u8, rn: AArch64RegisterId::gpr_or_zr(rn), rd: AArch64RegisterId::gpr_or_zr(rd) }))
    } else if sf == 0u32 && opc == 3u32 && n == 1u32 {
        Ok(AArch64Inst::BicsShiftedReg32(ShiftRmImm6RnRd { shift: shift as u8, rm: AArch64RegisterId::gpr_or_zr(rm), imm6: imm6 as u8, rn: AArch64RegisterId::gpr_or_zr(rn), rd: AArch64RegisterId::gpr_or_zr(rd) }))
    } else if sf == 1u32 && opc == 0u32 && n == 0u32 {
        Ok(AArch64Inst::AndShiftedReg64(ShiftRmImm6RnRd { shift: shift as u8, rm: AArch64RegisterId::gpr_or_zr(rm), imm6: imm6 as u8, rn: AArch64RegisterId::gpr_or_zr(rn), rd: AArch64RegisterId::gpr_or_zr(rd) }))
    } else if sf == 1u32 && opc == 0u32 && n == 1u32 {
        Ok(AArch64Inst::BicShiftedReg64(ShiftRmImm6RnRd { shift: shift as u8, rm: AArch64RegisterId::gpr_or_zr(rm), imm6: imm6 as u8, rn: AArch64RegisterId::gpr_or_zr(rn), rd: AArch64RegisterId::gpr_or_zr(rd) }))
    } else if sf == 1u32 && opc == 1u32 && n == 0u32 {
        Ok(AArch64Inst::OrrShiftedReg64(ShiftRmImm6RnRd { shift: shift as u8, rm: AArch64RegisterId::gpr_or_zr(rm), imm6: imm6 as u8, rn: AArch64RegisterId::gpr_or_zr(rn), rd: AArch64RegisterId::gpr_or_zr(rd) }))
    } else if sf == 1u32 && opc == 1u32 && n == 1u32 {
        Ok(AArch64Inst::OrnShiftedReg64(ShiftRmImm6RnRd { shift: shift as u8, rm: AArch64RegisterId::gpr_or_zr(rm), imm6: imm6 as u8, rn: AArch64RegisterId::gpr_or_zr(rn), rd: AArch64RegisterId::gpr_or_zr(rd) }))
    } else if sf == 1u32 && opc == 2u32 && n == 0u32 {
        Ok(AArch64Inst::EorShiftedReg64(ShiftRmImm6RnRd { shift: shift as u8, rm: AArch64RegisterId::gpr_or_zr(rm), imm6: imm6 as u8, rn: AArch64RegisterId::gpr_or_zr(rn), rd: AArch64RegisterId::gpr_or_zr(rd) }))
    } else if sf == 1u32 && opc == 2u32 && n == 1u32 {
        Ok(AArch64Inst::EonShiftedReg64(ShiftRmImm6RnRd { shift: shift as u8, rm: AArch64RegisterId::gpr_or_zr(rm), imm6: imm6 as u8, rn: AArch64RegisterId::gpr_or_zr(rn), rd: AArch64RegisterId::gpr_or_zr(rd) }))
    } else if sf == 1u32 && opc == 3u32 && n == 0u32 {
        Ok(AArch64Inst::AndsShiftedReg64(ShiftRmImm6RnRd { shift: shift as u8, rm: AArch64RegisterId::gpr_or_zr(rm), imm6: imm6 as u8, rn: AArch64RegisterId::gpr_or_zr(rn), rd: AArch64RegisterId::gpr_or_zr(rd) }))
    } else if sf == 1u32 && opc == 3u32 && n == 1u32 {
        Ok(AArch64Inst::BicsShiftedReg64(ShiftRmImm6RnRd { shift: shift as u8, rm: AArch64RegisterId::gpr_or_zr(rm), imm6: imm6 as u8, rn: AArch64RegisterId::gpr_or_zr(rn), rd: AArch64RegisterId::gpr_or_zr(rd) }))
    } else {
        Err(DecodeError::UnknownInstruction { word: w })
    }
}

proof fn lemma_split_logical_shifted_register(w: u32)
    by (bit_vector)
    requires
        w & 0xe000000u32 == 0xa000000u32,
        w & 0x1f000000u32 == 0xa000000u32,
    ensures
        w == enc_logical_shifted_register((w >> 31u32) & 0x1u32, (w >> 29u32) & 0x3u32, (w >> 22u32) & 0x3u32, (w >> 21u32) & 0x1u32, (w >> 16u32) & 0x1fu32, (w >> 10u32) & 0x3fu32, (w >> 5u32) & 0x1fu32, w & 0x1fu32),
        (w >> 31u32) & 0x1u32 <= 0x1u32,
        (w >> 29u32) & 0x3u32 <= 0x3u32,
        (w >> 22u32) & 0x3u32 <= 0x3u32,
        (w >> 21u32) & 0x1u32 <= 0x1u32,
        (w >> 16u32) & 0x1fu32 <= 0x1fu32,
        (w >> 10u32) & 0x3fu32 <= 0x3fu32,
        (w >> 5u32) & 0x1fu32 <= 0x1fu32,
        w & 0x1fu32 <= 0x1fu32,
{
}

proof fn lemma_parse_logical_shifted_register_sound(w: u32)
    requires
        w & 0xe000000u32 == 0xa000000u32,
        w & 0x1f000000u32 == 0xa000000u32,
    ensures
        spec_parse_logical_shifted_register(w) matches Ok(i) ==> i.spec_encode() == w,
{
    lemma_split_logical_shifted_register(w);
}

/// Variant and operands of a word in the add sub shifted reg group.
pub open spec fn spec_parse_add_sub_shifted_reg(w: u32) -> Result<AArch64Inst, DecodeError> {
    let sf_op_s = (w >> 29u32) & 0x7u32;
    let shift = (w >> 22u32) & 0x3u32;
    let rm = (w >> 16u32) & 0x1fu32;
    let imm6 = (w >> 10u32) & 0x3fu32;
    let rn = (w >> 5u32) & 0x1fu32;
    let rd = w & 0x1fu32;
    if shift == 3u32 {
        Err(DecodeError::ReservedEncoding { word: w })
    } else if sf_op_s < 4u32 && imm6 >= 32u32 {
        Err(DecodeError::ReservedEncoding { word: w })
    } else if sf_op_s == 0u32 {
        Ok(AArch64Inst::AddShiftedReg32(ShiftRmImm6RnRd { shift: shift as u8, rm: AArch64RegisterId::spec_gpr_or_zr(rm), imm6: imm6 as u8, rn: AArch64RegisterId::spec_gpr_or_zr(rn), rd: AArch64RegisterId::spec_gpr_or_zr(rd) }))
    } else if sf_op_s == 1u32 {
        Ok(AArch64Inst::AddsShiftedReg32(ShiftRmImm6RnRd { shift: shift as u8, rm: AArch64RegisterId::spec_gpr_or_zr(rm), imm6: imm6 as u8, rn: AArch64RegisterId::spec_gpr_or_zr(rn), rd: AArch64RegisterId::spec_gpr_or_zr(rd) }))
    } else if sf_op_s == 2u32 {
        Ok(AArch64Inst::SubShiftedReg32(ShiftRmImm6RnRd { shift: shift as u8, rm: AArch64RegisterId::spec_gpr_or_zr(rm), imm6: imm6 as u8, rn: AArch64RegisterId::spec_gpr_or_zr(rn), rd: AArch64RegisterId::spec_gpr_or_zr(rd) }))
    } else if sf_op_s == 3u32 {
        Ok(AArch64Inst::SubsShiftedReg32(ShiftRmImm6RnRd { shift: shift as u8, rm: AArch64RegisterId::spec_gpr_or_zr(rm), imm6: imm6 as u8, rn: AArch64RegisterId::spec_gpr_or_zr(rn), rd: AArch64RegisterId::spec_gpr_or_zr(rd) }))
    } else if sf_op_s == 4u32 {
        Ok(AArch64Inst::AddShiftedReg64(ShiftRmImm6RnRd { shift: shift as u8, rm: AArch64RegisterId::spec_gpr_or_zr(rm), imm6: imm6 as u8, rn: AArch64RegisterId::spec_gpr_or_zr(rn), rd: AArch64RegisterId::spec_gpr_or_zr(rd) }))
    } else if sf_op_s == 5u32 {
        Ok(AArch64Inst::AddsShiftedReg64(ShiftRmImm6RnRd { shift: shift as u8, rm: AArch64RegisterId::spec_gpr_or_zr(rm), imm6: imm6 as u8, rn: AArch64RegisterId::spec_gpr_or_zr(rn), rd: AArch64RegisterId::spec_gpr_or_zr(rd) }))
    } else if sf_op_s == 6u32 {
        Ok(AArch64Inst::SubShiftedReg64(ShiftRmImm6RnRd { shift: shift as u8, rm: AArch64RegisterId::spec_gpr_or_zr(rm), imm6: imm6 as u8, rn: AArch64RegisterId::spec_gpr_or_zr(rn), rd: AArch64RegisterId::spec_gpr_or_zr(rd) }))
    } else if sf_op_s == 7u32 {
        Ok(AArch64Inst::SubsShiftedReg64(ShiftRmImm6RnRd { shift: shift as u8, rm: AArch64RegisterId::spec_gpr_or_zr(rm), imm6: imm6 as u8, rn: AArch64RegisterId::spec_gpr_or_zr(rn), rd: AArch64RegisterId::spec_gpr_or_zr(rd) }))
    } else {
        Err(DecodeError::UnknownInstruction { word: w })
    }
}

/// Decodes a word of the add sub shifted reg group.
pub fn parse_add_sub_shifted_reg(w: u32) -> (r: Result<AArch64Inst, DecodeError>)
    ensures
        r == spec_parse_add_sub_shifted_reg(w),
{
    let sf_op_s = (w >> 29u32) & 0x7u32;
    let shift = (w >> 22u32) & 0x3u32;
    let rm = (w >> 16u32) & 0x1fu32;
    let imm6 = (w >> 10u32) & 0x3fu32;
    let rn = (w >> 5u32) & 0x1fu32;
    let rd = w & 0x1fu32;
    if shift == 3u32 {
        Err(DecodeError::ReservedEncoding { word: w })
    } else if sf_op_s < 4u32 && imm6 >= 32u32 {
        Err(DecodeError::ReservedEncoding { word: w })
    } else if sf_op_s == 0u32 {
        Ok(AArch64Inst::AddShiftedReg32(ShiftRmImm6RnRd { shift: shift as u8, rm: AArch64RegisterId::gpr_or_zr(rm), imm6: imm6 as u8, rn: AArch64RegisterId::gpr_or_zr(rn), rd: AArch64RegisterId::gpr_or_zr(rd) }))
    } else if sf_op_s == 1u32 {
        Ok(AArch64Inst::AddsShiftedReg32(ShiftRmImm6RnRd { shift: shift as u8, rm: AArch64RegisterId::gpr_or_zr(rm), imm6: imm6 as u8, rn: AArch64RegisterId::gpr_or_zr(rn), rd: AArch64RegisterId::gpr_or_zr(rd) }))
    } else if sf_op_s == 2u32 {
        Ok(AArch64Inst::SubShiftedReg32(ShiftRmImm6RnRd { shift: shift as u8, rm: AArch64RegisterId::gpr_or_zr(rm), imm6: imm6 as u8, rn: AArch64RegisterId::gpr_or_zr(rn), rd: AArch64RegisterId::gpr_or_zr(rd) }))
    } else if sf_op_s == 3u32 {
        Ok(AArch64Inst::SubsShiftedReg32(ShiftRmImm6RnRd { shift: shift as u8, rm: AArch64RegisterId::gpr_or_zr(rm), imm6: imm6 as u8, rn: AArch64RegisterId::gpr_or_zr(rn), rd: AArch64RegisterId::gpr_or_zr(rd) }))
    } else if sf_op_s == 4u32 {
        Ok(AArch64Inst::AddShiftedReg64(ShiftRmImm6RnRd { shift: shift as u8, rm: AArch64RegisterId::gpr_or_zr(rm), imm6: imm6 as u8, rn: AArch64RegisterId::gpr_or_zr(rn), rd: AArch64RegisterId::gpr_or_zr(rd) }))
    } else if sf_op_s == 5u32 {
        Ok(AArch64Inst::AddsShiftedReg64(ShiftRmImm6RnRd { shift: shift as u8, rm: AArch64RegisterId::gpr_or_zr(rm), imm6: imm6 as u8, rn: AArch64RegisterId::gpr_or_zr(rn), rd: AArch64RegisterId::gpr_or_zr(rd) }))
    } else if sf_op_s == 6u32 {
        Ok(AArch64Inst::SubShiftedReg64(ShiftRmImm6RnRd { shift: shift as u8, rm: AArch64RegisterId::gpr_or_zr(rm), imm6: imm6 as u8, rn: AArch64RegisterId::gpr_or_zr(rn), rd: AArch64RegisterId::gpr_or_zr(rd) }))
    } else if sf_op_s == 7u32 {
        Ok(AArch64Inst::SubsShiftedReg64(ShiftRmImm6RnRd { shift: shift as u8, rm: AArch64RegisterId::gpr_or_zr(rm), imm6: imm6 as u8, rn: AArch64RegisterId::gpr_or_zr(rn), rd: AArch64RegisterId::gpr_or_zr(rd) }))
    } else {
        Err(DecodeError::UnknownInstruction { word: w })
    }
}

proof fn lemma_split_add_sub_shifted_reg(w: u32)
    by (bit_vector)
    requires
        w & 0xe000000u32 == 0xa000000u32,
        w & 0x1f200000u32 == 0xb000000u32,
    ensures
        w == enc_add_sub_shifted_reg((w >> 29u32) & 0x7u32, (w >> 22u32) & 0x3u32, (w >> 16u32) & 0x1fu32, (w >> 10u32) & 0x3fu32, (w >> 5u32) & 0x1fu32, w & 0x1fu32),
        (w >> 29u32) & 0x7u32 <= 0x7u32,
        (w >> 22u32) & 0x3u32 <= 0x3u32,
        (w >> 16u32) & 0x1fu32 <= 0x1fu32,
        (w >> 10u32) & 0x3fu32 <= 0x3fu32,
        (w >> 5u32) & 0x1fu32 <= 0x1fu32,
        w & 0x1fu32 <= 0x1fu32,
{
}

proof fn lemma_parse_add_sub_shifted_reg_sound(w: u32)
    requires
        w & 0xe000000u32 == 0xa000000u32,
        w & 0x1f200000u32 == 0xb000000u32,
    ensures
        spec_parse_add_sub_shifted_reg(w) matches Ok(i) ==> i.spec_encode() == w,
{
    lemma_split_add_sub_shifted_reg(w);
}

/// Variant and operands of a word in the add sub ext reg group.
pub open spec fn spec_parse_add_sub_ext_reg(w: u32) -> Result<AArch64Inst, DecodeError> {
    let sf_op_s = (w >> 29u32) & 0x7u32;
    let opt = (w >> 22u32) & 0x3u32;
    let rm = (w >> 16u32) & 0x1fu32;
    let option = (w >> 13u32) & 0x7u32;
    let imm3 = (w >> 10u32) & 0x7u32;
    let rn = (w >> 5u32) & 0x1fu32;
    let rd = w & 0x1fu32;
    if opt == 0u32 && imm3 > 4u32 {
        Err(DecodeError::ReservedEncoding { word: w })
    } else if sf_op_s == 0u32 && opt == 0u32 {
        Ok(AArch64Inst::AddExtReg32(AddSubtractExtReg { rm: AArch64RegisterId::spec_gpr_or_zr(rm), option: option as u8, imm3: imm3 as u8, rn: AArch64RegisterId::spec_gpr_or_sp(rn), rd: AArch64RegisterId::spec_gpr_or_sp(rd) }))
    } else if sf_op_s == 1u32 && opt == 0u32 {
        Ok(AArch64Inst::AddsExtReg32(AddSubtractExtReg { rm: AArch64RegisterId::spec_gpr_or_zr(rm), option: option as u8, imm3: imm3 as u8, rn: AArch64RegisterId::spec_gpr_or_sp(rn), rd: AArch64RegisterId::spec_gpr_or_zr(rd) }))
    } else if sf_op_s == 2u32 && opt == 0u32 {
        Ok(AArch64Inst::SubExtReg32(AddSubtractExtReg { rm: AArch64RegisterId::spec_gpr_or_zr(rm), option: option as u8, imm3: imm3 as u8, rn: AArch64RegisterId::spec_gpr_or_sp(rn), rd: AArch64RegisterId::spec_gpr_or_sp(rd) }))
    } else if sf_op_s == 3u32 && opt == 0u32 {
        Ok(AArch64Inst::SubsExtReg32(AddSubtractExtReg { rm: AArch64RegisterId::spec_gpr_or_zr(rm), option: option as u8, imm3: imm3 as u8, rn: AArch64RegisterId::spec_gpr_or_sp(rn), rd: AArch64RegisterId::spec_gpr_or_zr(rd) }))
    } else if sf_op_s == 4u32 && opt == 0u32 {
        Ok(AArch64Inst::AddExtReg64(AddSubtractExtReg { rm: AArch64RegisterId::spec_gpr_or_zr(rm), option: option as u8, imm3: imm3 as u8, rn: AArch64RegisterId::spec_gpr_or_sp(rn), rd: AArch64RegisterId::spec_gpr_or_sp(rd) }))
    } else if sf_op_s == 5u32 && opt == 0u32 {
        Ok(AArch64Inst::AddsExtReg64(AddSubtractExtReg { rm: AArch64RegisterId::spec_gpr_or_zr(rm), option: option as u8, imm3: imm3 as u8, rn: AArch64RegisterId::spec_gpr_or_sp(rn), rd: AArch64RegisterId::spec_gpr_or_zr(rd) }))
    } else if sf_op_s == 6u32 && opt == 0u32 {
        Ok(AArch64Inst::SubExtReg64(AddSubtractExtReg { rm: AArch64RegisterId::spec_gpr_or_zr(rm), option: option as u8, imm3: imm3 as u8, rn: AArch64RegisterId::spec_gpr_or_sp(rn), rd: AArch64RegisterId::spec_gpr_or_sp(rd) }))
    } else if sf_op_s == 7u32 && opt == 0u32 {
        Ok(AArch64Inst::SubsExtReg64(AddSubtractExtReg { rm: AArch64RegisterId::spec_gpr_or_zr(rm), option: option as u8, imm3: imm3 as u8, rn: AArch64RegisterId::spec_gpr_or_sp(rn), rd: AArch64RegisterId::spec_gpr_or_zr(rd) }))
    } else {
        Err(DecodeError::UnknownInstruction { word: w })
    }
}

/// Decodes a word of the add sub ext reg group.
pub fn parse_add_sub_ext_reg(w: u32) -> (r: Result<AArch64Inst, DecodeError>)
    ensures
        r == spec_parse_add_sub_ext_reg(w),
{
    let sf_op_s = (w >> 29u32) & 0x7u32;
    let opt = (w >> 22u32) & 0x3u32;
    let rm = (w >> 16u32) & 0x1fu32;
    let option = (w >> 13u32) & 0x7u32;
    let imm3 = (w >> 10u32) & 0x7u32;
    let rn = (w >> 5u32) & 0x1fu32;
    let rd = w & 0x1fu32;
    if opt == 0u32 && imm3 > 4u32 {
        Err(DecodeError::ReservedEncoding { word: w })
    } else if sf_op_s == 0u32 && opt == 0u32 {
        Ok(AArch64Inst::AddExtReg32(AddSubtractExtReg { rm: AArch64RegisterId::gpr_or_zr(rm), option: option as u8, imm3: imm3 as u8, rn: AArch64RegisterId::gpr_or_sp(rn), rd: AArch64RegisterId::gpr_or_sp(rd) }))
    } else if sf_op_s == 1u32 && opt == 0u32 {
        Ok(AArch64Inst::AddsExtReg32(AddSubtractExtReg { rm: AArch64RegisterId::gpr_or_zr(rm), option: option as u8, imm3: imm3 as u8, rn: AArch64RegisterId::gpr_or_sp(rn), rd: AArch64RegisterId::gpr_or_zr(rd) }))
    } else if sf_op_s == 2u32 && opt == 0u32 {
        Ok(AArch64Inst::SubExtReg32(AddSubtractExtReg { rm: AArch64RegisterId::gpr_or_zr(rm), option: option as u8, imm3: imm3 as u8, rn: AArch64RegisterId::gpr_or_sp(rn), rd: AArch64RegisterId::gpr_or_sp(rd) }))
    } else if sf_op_s == 3u32 && opt == 0u32 {
        Ok(AArch64Inst::SubsExtReg32(AddSubtractExtReg { rm: AArch64RegisterId::gpr_or_zr(rm), option: option as u8, imm3: imm3 as u8, rn: AArch64RegisterId::gpr_or_sp(rn), rd: AArch64RegisterId::gpr_or_zr(rd) }))
    } else if sf_op_s == 4u32 && opt == 0u32 {
        Ok(AArch64Inst::AddExtReg64(AddSubtractExtReg { rm: AArch64RegisterId::gpr_or_zr(rm), option: option as u8, imm3: imm3 as u8, rn: AArch64RegisterId::gpr_or_sp(rn), rd: AArch64RegisterId::gpr_or_sp(rd) }))
    } else if sf_op_s == 5u32 && opt == 0u32 {
        Ok(AArch64Inst::AddsExtReg64(AddSubtractExtReg { rm: AArch64RegisterId::gpr_or_zr(rm), option: option as u8, imm3: imm3 as u8, rn: AArch64RegisterId::gpr_or_sp(rn), rd: AArch64RegisterId::gpr_or_zr(rd) }))
    } else if sf_op_s == 6u32 && opt == 0u32 {
        Ok(AArch64Inst::SubExtReg64(AddSubtractExtReg { rm: AArch64RegisterId::gpr_or_zr(rm), option: option as u8, imm3: imm3 as u8, rn: AArch64RegisterId::gpr_or_sp(rn), rd: AArch64RegisterId::gpr_or_sp(rd) }))
    } else if sf_op_s == 7u32 && opt == 0u32 {
        Ok(AArch64Inst::SubsExtReg64(AddSubtractExtReg { rm: AArch64RegisterId::gpr_or_zr(rm), option: option as u8, imm3: imm3 as u8, rn: AArch64RegisterId::gpr_or_sp(rn), rd: AArch64RegisterId::gpr_or_zr(rd) }))
    } else {
        Err(DecodeError::UnknownInstruction { word: w })
    }
}

proof fn lemma_split_add_sub_ext_reg(w: u32)
    by (bit_vector)
    requires
        w & 0xe000000u32 == 0xa000000u32,
        w & 0x1f200000u32 == 0xb200000u32,
    ensures
        w == enc_add_sub_ext_reg((w >> 29u32) & 0x7u32, (w >> 22u32) & 0x3u32, (w >> 16u32) & 0x1fu32, (w >> 13u32) & 0x7u32, (w >> 10u32) & 0x7u32, (w >> 5u32) & 0x1fu32, w & 0x1fu32),
        (w >> 29u32) & 0x7u32 <= 0x7u32,
        (w >> 22u32) & 0x3u32 <= 0x3u32,
        (w >> 16u32) & 0x1fu32 <= 0x1fu32,
        (w >> 13u32) & 0x7u32 <= 0x7u32,
        (w >> 10u32) & 0x7u32 <= 0x7u32,
        (w >> 5u32) & 0x1fu32 <= 0x1fu32,
        w & 0x1fu32 <= 0x1fu32,
{
}

proof fn lemma_parse_add_sub_ext_reg_sound(w: u32)
    requires
        w & 0xe000000u32 == 0xa000000u32,
        w & 0x1f200000u32 == 0xb200000u32,
    ensures
        spec_parse_add_sub_ext_reg(w) matches Ok(i) ==> i.spec_encode() == w,
{
    lemma_split_add_sub_ext_reg(w);
}

/// Variant and operands of a word in the cond compare reg group.
pub open spec fn spec_parse_cond_compare_reg(w: u32) -> Result<AArch64Inst, DecodeError> {
    let sf = (w >> 31u32) & 0x1u32;
    let op = (w >> 30u32) & 0x1u32;
    let s = (w >> 29u32) & 0x1u32;
    let rm = (w >> 16u32) & 0x1fu32;
    let cond = (w >> 12u32) & 0xfu32;
    let o2 = (w >> 10u32) & 0x1u32;
    let rn = (w >> 5u32) & 0x1fu32;
    let o3 = (w >> 4u32) & 0x1u32;
    let nzcv = w & 0xfu32;
    if sf == 0u32 && op == 0u32 && s == 1u32 && o2 == 0u32 && o3 == 0u32 {
        Ok(AArch64Inst::CcmnRegVar32(CondCmpReg { rm: AArch64RegisterId::spec_gpr_or_zr(rm), cond: cond as u8, rn: AArch64RegisterId::spec_gpr_or_zr(rn), nzcv: nzcv as u8 }))
    } else if sf == 0u32 && op == 1u32 && s == 1u32 && o2 == 0u32 && o3 == 0u32 {
        Ok(AArch64Inst::CcmpRegVar32(CondCmpReg { rm: AArch64RegisterId::spec_gpr_or_zr(rm), cond: cond as u8, rn: AArch64RegisterId::spec_gpr_or_zr(rn), nzcv: nzcv as u8 }))
    } else if sf == 1u32 && op == 0u32 && s == 1u32 && o2 == 0u32 && o3 == 0u32 {
        Ok(AArch64Inst::CcmnRegVar64(CondCmpReg { rm: AArch64RegisterId::spec_gpr_or_zr(rm), cond: cond as u8, rn: AArch64RegisterId::spec_gpr_or_zr(rn), nzcv: nzcv as u8 }))
    } else if sf == 1u32 && op == 1u32 && s == 1u32 && o2 == 0u32 && o3 == 0u32 {
        Ok(AArch64Inst::CcmpRegVar64(CondCmpReg { rm: AArch64RegisterId::spec_gpr_or_zr(rm), cond: cond as u8, rn: AArch64RegisterId::spec_gpr_or_zr(rn), nzcv: nzcv as u8 }))
    } else {
        Err(DecodeError::UnknownInstruction { word: w })
    }
}

/// Decodes a word of the cond compare reg group.
pub fn parse_cond_compare_reg(w: u32) -> (r: Result<AArch64Inst, DecodeError>)
    ensures
        r == spec_parse_cond_compare_reg(w),
{
    let sf = (w >> 31u32) & 0x1u32;
    let op = (w >> 30u32) & 0x1u32;
    let s = (w >> 29u32) & 0x1u32;
    let rm = (w >> 16u32) & 0x1fu32;
    let cond = (w >> 12u32) & 0xfu32;
    let o2 = (w >> 10u32) & 0x1u32;
    let rn = (w >> 5u32) & 0x1fu32;
    let o3 = (w >> 4u32) & 0x1u32;
    let nzcv = w & 0xfu32;
    if sf == 0u32 && op == 0u32 && s == 1u32 && o2 == 0u32 && o3 == 0u32 {
        Ok(AArch64Inst::CcmnRegVar32(CondCmpReg { rm: AArch64RegisterId::gpr_or_zr(rm), cond: cond as u8, rn: AArch64RegisterId::gpr_or_zr(rn), nzcv: nzcv as u8 }))
    } else if sf == 0u32 && op == 1u32 && s == 1u32 && o2 == 0u32 && o3 == 0u32 {
        Ok(AArch64Inst::CcmpRegVar32(CondCmpReg { rm: AArch64RegisterId::gpr_or_zr(rm), cond: cond as u8, rn: AArch64RegisterId::gpr_or_zr(rn), nzcv: nzcv as u8 }))
    } else if sf == 1u32 && op == 0u32 && s == 1u32 && o2 == 0u32 && o3 == 0u32 {
        Ok(AArch64Inst::CcmnRegVar64(CondCmpReg { rm: AArch64RegisterId::gpr_or_zr(rm), cond: cond as u8, rn: AArch64RegisterId::gpr_or_zr(rn), nzcv: nzcv as u8 }))
    } else if sf == 1u32 && op == 1u32 && s == 1u32 && o2 == 0u32 && o3 == 0u32 {
        Ok(AArch64Inst::CcmpRegVar64(CondCmpReg { rm: AArch64RegisterId::gpr_or_zr(rm), cond: cond as u8, rn: AArch64RegisterId::gpr_or_zr(rn), nzcv: nzcv as u8 }))
    } else {
        Err(DecodeError::UnknownInstruction { word: w })
    }
}

proof fn lemma_split_cond_compare_reg(w: u32)
    by (bit_vector)
    requires
        w & 0xe000000u32 == 0xa000000u32,
        w & 0x1fe00800u32 == 0x1a400000u32,
    ensures
        w == enc_cond_compare_reg((w >> 31u32) & 0x1u32, (w >> 30u32) & 0x1u32, (w >> 29u32) & 0x1u32, (w >> 16u32) & 0x1fu32, (w >> 12u32) & 0xfu32, (w >> 10u32) & 0x1u32, (w >> 5u32) & 0x1fu32, (w >> 4u32) & 0x1u32, w & 0xfu32),
        (w >> 31u32) & 0x1u32 <= 0x1u32,
        (w >> 30u32) & 0x1u32 <= 0x1u32,
        (w >> 29u32) & 0x1u32 <= 0x1u32,
        (w >> 16u32) & 0x1fu32 <= 0x1fu32,
        (w >> 12u32) & 0xfu32 <= 0xfu32,
        (w >> 10u32) & 0x1u32 <= 0x1u32,
        (w >> 5u32) & 0x1fu32 <= 0x1fu32,
        (w >> 4u32) & 0x1u32 <= 0x1u32,
        w & 0xfu32 <= 0xfu32,
{
}

proof fn lemma_parse_cond_compare_reg_sound(w: u32)
    requires
        w & 0xe000000u32 == 0xa000000u32,
        w & 0x1fe00800u32 == 0x1a400000u32,
    ensures
        spec_parse_cond_compare_reg(w) matches Ok(i) ==> i.spec_encode() == w,
{
    lemma_split_cond_compare_reg(w);
}

/// Variant and operands of a word in the cond compare imm group.
pub open spec fn spec_parse_cond_compare_imm(w: u32) -> Result<AArch64Inst, DecodeError> {
    let sf = (w >> 31u32) & 0x1u32;
    let op = (w >> 30u32) & 0x1u32;
    let s = (w >> 29u32) & 0x1u32;
    let imm5 = (w >> 16u32) & 0x1fu32;
    let cond = (w >> 12u32) & 0xfu32;
    let o2 = (w >> 10u32) & 0x1u32;
    let rn = (w >> 5u32) & 0x1fu32;
    let o3 = (w >> 4u32) & 0x1u32;
    let nzcv = w & 0xfu32;
    if sf == 0u32 && op == 0u32 && s == 1u32 && o2 == 0u32 && o3 == 0u32 {
        Ok(AArch64Inst::CcmnImmVar32(CondCmpImm { imm5: imm5 as u8, cond: cond as u8, rn: AArch64RegisterId::spec_gpr_or_zr(rn), nzcv: nzcv as u8 }))
    } else if sf == 0u32 && op == 1u32 && s == 1u32 && o2 == 0u32 && o3 == 0u32 {
        Ok(AArch64Inst::CcmpImmVar32(CondCmpImm { imm5: imm5 as u8, cond: cond as u8, rn: AArch64RegisterId::spec_gpr_or_zr(rn), nzcv: nzcv as u8 }))
    } else if sf == 1u32 && op == 0u32 && s == 1u32 && o2 == 0u32 && o3 == 0u32 {
        Ok(AArch64Inst::CcmnImmVar64(CondCmpImm { imm5: imm5 as u8, cond: cond as u8, rn: AArch64RegisterId::spec_gpr_or_zr(rn), nzcv: nzcv as u8 }))
    } else if sf == 1u32 && op == 1u32 && s == 1u32 && o2 == 0u32 && o3 == 0u32 {
        Ok(AArch64Inst::CcmpImmVar64(CondCmpImm { imm5: imm5 as u8, cond: cond as u8, rn: AArch64RegisterId::spec_gpr_or_zr(rn), nzcv: nzcv as u8 }))
    } else {
        Err(DecodeError::UnknownInstruction { word: w })
    }
}

/// Decodes a word of the cond compare imm group.
pub fn parse_cond_compare_imm(w: u32) -> (r: Result<AArch64Inst, DecodeError>)
    ensures
        r == spec_parse_cond_compare_imm(w),
{
    let sf = (w >> 31u32) & 0x1u32;
    let op = (w >> 30u32) & 0x1u32;
    let s = (w >> 29u32) & 0x1u32;
    let imm5 = (w >> 16u32) & 0x1fu32;
    let cond = (w >> 12u32) & 0xfu32;
    let o2 = (w >> 10u32) & 0x1u32;
    let rn = (w >> 5u32) & 0x1fu32;
    let o3 = (w >> 4u32) & 0x1u32;
    let nzcv = w & 0xfu32;
    if sf == 0u32 && op == 0u32 && s == 1u32 && o2 == 0u32 && o3 == 0u32 {
        Ok(AArch64Inst::CcmnImmVar32(CondCmpImm { imm5: imm5 as u8, cond: cond as u8, rn: AArch64RegisterId::gpr_or_zr(rn), nzcv: nzcv as u8 }))
    } else if sf == 0u32 && op == 1u32 && s == 1u32 && o2 == 0u32 && o3 == 0u32 {
        Ok(AArch64Inst::CcmpImmVar32(CondCmpImm { imm5: imm5 as u8, cond: cond as u8, rn: AArch64RegisterId::gpr_or_zr(rn), nzcv: nzcv as u8 }))
    } else if sf == 1u32 && op == 0u32 && s == 1u32 && o2 == 0u32 && o3 == 0u32 {
        Ok(AArch64Inst::CcmnImmVar64(CondCmpImm { imm5: imm5 as u8, cond: cond as u8, rn: AArch64RegisterId::gpr_or_zr(rn), nzcv: nzcv as u8 }))
    } else if sf == 1u32 && op == 1u32 && s == 1u32 && o2 == 0u32 && o3 == 0u32 {
        Ok(AArch64Inst::CcmpImmVar64(CondCmpImm { imm5: imm5 as u8, cond: cond as u8, rn: AArch64RegisterId::gpr_or_zr(rn), nzcv: nzcv as u8 }))
    } else {
        Err(DecodeError::UnknownInstruction { word: w })
    }
}

proof fn lemma_split_cond_compare_imm(w: u32)
    by (bit_vector)
    requires
        w & 0xe000000u32 == 0xa000000u32,
        w & 0x1fe00800u32 == 0x1a400800u32,
    ensures
        w == enc_cond_compare_imm((w >> 31u32) & 0x1u32, (w >> 30u32) & 0x1u32, (w >> 29u32) & 0x1u32, (w >> 16u32) & 0x1fu32, (w >> 12u32) & 0xfu32, (w >> 10u32) & 0x1u32, (w >> 5u32) & 0x1fu32, (w >> 4u32) & 0x1u32, w & 0xfu32),
        (w >> 31u32) & 0x1u32 <= 0x1u32,
        (w >> 30u32) & 0x1u32 <= 0x1u32,
        (w >> 29u32) & 0x1u32 <= 0x1u32,
        (w >> 16u32) & 0x1fu32 <= 0x1fu32,
        (w >> 12u32) & 0xfu32 <= 0xfu32,
        (w >> 10u32) & 0x1u32 <= 0x1u32,
        (w >> 5u32) & 0x1fu32 <= 0x1fu32,
        (w >> 4u32) & 0x1u32 <= 0x1u32,
        w & 0xfu32 <= 0xfu32,
{
}

proof fn lemma_parse_cond_compare_imm_sound(w: u32)
    requires
        w & 0xe000000u32 == 0xa000000u32,
        w & 0x1fe00800u32 == 0x1a400800u32,
    ensures
        spec_parse_cond_compare_imm(w) matches Ok(i) ==> i.spec_encode() == w,
{
    lemma_split_cond_compare_imm(w);
}

/// Variant and operands of a word in the cond sel group.
pub open spec fn spec_parse_cond_sel(w: u32) -> Result<AArch64Inst, DecodeError> {
    let sf = (w >> 31u32) & 0x1u32;
    let op = (w >> 30u32) & 0x1u32;
    let s = (w >> 29u32) & 0x1u32;
    let rm = (w >> 16u32) & 0x1fu32;
    let cond = (w >> 12u32) & 0xfu32;
    let op2 = (w >> 10u32) & 0x3u32;
    let rn = (w >> 5u32) & 0x1fu32;
    let rd = w & 0x1fu32;
    if sf == 0u32 && op == 0u32 && s == 0u32 && op2 == 0u32 {
        Ok(AArch64Inst::Csel32(RmCondRnRd { rm: AArch64RegisterId::spec_gpr_or_zr(rm), cond: cond as u8, rn: AArch64RegisterId::spec_gpr_or_zr(rn), rd: AArch64RegisterId::spec_gpr_or_zr(rd) }))
    } else if sf == 0u32 && op == 0u32 && s == 0u32 && op2 == 1u32 {
        Ok(AArch64Inst::Csinc32(RmCondRnRd { rm: AArch64RegisterId::spec_gpr_or_zr(rm), cond: cond as u8, rn: AArch64RegisterId::spec_gpr_or_zr(rn), rd: AArch64RegisterId::spec_gpr_or_zr(rd) }))
    } else if sf == 0u32 && op == 1u32 && s == 0u32 && op2 == 0u32 {
        Ok(AArch64Inst::Csinv32(RmCondRnRd { rm: AArch64RegisterId::spec_gpr_or_zr(rm), cond: cond as u8, rn: AArch64RegisterId::spec_gpr_or_zr(rn), rd: AArch64RegisterId::spec_gpr_or_zr(rd) }))
    } else if sf == 0u32 && op == 1u32 && s == 0u32 && op2 == 1u32 {
        Ok(AArch64Inst::Csneg32(RmCondRnRd { rm: AArch64RegisterId::spec_gpr_or_zr(rm), cond: cond as u8, rn: AArch64RegisterId::spec_gpr_or_zr(rn), rd: AArch64RegisterId::spec_gpr_or_zr(rd) }))
    } else if sf == 1u32 && op == 0u32 && s == 0u32 && op2 == 0u32 {
        Ok(AArch64Inst::Csel64(RmCondRnRd { rm: AArch64RegisterId::spec_gpr_or_zr(rm), cond: cond as u8, rn: AArch64RegisterId::spec_gpr_or_zr(rn), rd: AArch64RegisterId::spec_gpr_or_zr(rd) }))
    } else if sf == 1u32 && op == 0u32 && s == 0u32 && op2 == 1u32 {
        Ok(AArch64Inst::Csinc64(RmCondRnRd { rm: AArch64RegisterId::spec_gpr_or_zr(rm), cond: cond as u8, rn: AArch64RegisterId::spec_gpr_or_zr(rn), rd: AArch64RegisterId::spec_gpr_or_zr(rd) }))
    } else if sf == 1u32 && op == 1u32 && s == 0u32 && op2 == 0u32 {
        Ok(AArch64Inst::Csinv64(RmCondRnRd { rm: AArch64RegisterId::spec_gpr_or_zr(rm), cond: cond as u8, rn: AArch64RegisterId::spec_gpr_or_zr(rn), rd: AArch64RegisterId::spec_gpr_or_zr(rd) }))
    } else if sf == 1u32 && op == 1u32 && s == 0u32 && op2 == 1u32 {
        Ok(AArch64Inst::Csneg64(RmCondRnRd { rm: AArch64RegisterId::spec_gpr_or_zr(rm), cond: cond as u8, rn: AArch64RegisterId::spec_gpr_or_zr(rn), rd: AArch64RegisterId::spec_gpr_or_zr(rd) }))
    } else {
        Err(DecodeError::UnknownInstruction { word: w })
    }
}

/// Decodes a word of the cond sel group.
pub fn parse_cond_sel(w: u32) -> (r: Result<AArch64Inst, DecodeError>)
    ensures
        r == spec_parse_cond_sel(w),
{
    let sf = (w >> 31u32) & 0x1u32;
    let op = (w >> 30u32) & 0x1u32;
    let s = (w >> 29u32) & 0x1u32;
    let rm = (w >> 16u32) & 0x1fu32;
    let cond = (w >> 12u32) & 0xfu32;
    let op2 = (w >> 10u32) & 0x3u32;
    let rn = (w >> 5u32) & 0x1fu32;
    let rd = w & 0x1fu32;
    if sf == 0u32 && op == 0u32 && s == 0u32 && op2 == 0u32 {
        Ok(AArch64Inst::Csel32(RmCondRnRd { rm: AArch64RegisterId::gpr_or_zr(rm), cond: cond as u8, rn: AArch64RegisterId::gpr_or_zr(rn), rd: AArch64RegisterId::gpr_or_zr(rd) }))
    } else if sf == 0u32 && op == 0u32 && s == 0u32 && op2 == 1u32 {
        Ok(AArch64Inst::Csinc32(RmCondRnRd { rm: AArch64RegisterId::gpr_or_zr(rm), cond: cond as u8, rn: AArch64RegisterId::gpr_or_zr(rn), rd: AArch64RegisterId::gpr_or_zr(rd) }))
    } else if sf == 0u32 && op == 1u32 && s == 0u32 && op2 == 0u32 {
        Ok(AArch64Inst::Csinv32(RmCondRnRd { rm: AArch64RegisterId::gpr_or_zr(rm), cond: cond as u8, rn: AArch64RegisterId::gpr_or_zr(rn), rd: AArch64RegisterId::gpr_or_zr(rd) }))
    } else if sf == 0u32 && op == 1u32 && s == 0u32 && op2 == 1u32 {
        Ok(AArch64Inst::Csneg32(RmCondRnRd { rm: AArch64RegisterId::gpr_or_zr(rm), cond: cond as u8, rn: AArch64RegisterId::gpr_or_zr(rn), rd: AArch64RegisterId::gpr_or_zr(rd) }))
    } else if sf == 1u32 && op == 0u32 && s == 0u32 && op2 == 0u32 {
        Ok(AArch64Inst::Csel64(RmCondRnRd { rm: AArch64RegisterId::gpr_or_zr(rm), cond: cond as u8, rn: AArch64RegisterId::gpr_or_zr(rn), rd: AArch64RegisterId::gpr_or_zr(rd) }))
    } else if sf == 1u32 && op == 0u32 && s == 0u32 && op2 == 1u32 {
        Ok(AArch64Inst::Csinc64(RmCondRnRd { rm: AArch64RegisterId::gpr_or_zr(rm), cond: cond as u8, rn: AArch64RegisterId::gpr_or_zr(rn), rd: AArch64RegisterId::gpr_or_zr(rd) }))
    } else if sf == 1u32 && op == 1u32 && s == 0u32 && op2 == 0u32 {
        Ok(AArch64Inst::Csinv64(RmCondRnRd { rm: AArch64RegisterId::gpr_or_zr(rm), cond: cond as u8, rn: AArch64RegisterId::gpr_or_zr(rn), rd: AArch64RegisterId::gpr_or_zr(rd) }))
    } else if sf == 1u32 && op == 1u32 && s == 0u32 && op2 == 1u32 {
        Ok(AArch64Inst::Csneg64(RmCondRnRd { rm: AArch64RegisterId::gpr_or_zr(rm), cond: cond as u8, rn: AArch64RegisterId::gpr_or_zr(rn), rd: AArch64RegisterId::gpr_or_zr(rd) }))
    } else {
        Err(DecodeError::UnknownInstruction { word: w })
    }
}

proof fn lemma_split_cond_sel(w: u32)
    by (bit_vector)
    requires
        w & 0xe000000u32 == 0xa000000u32,
        w & 0x1fe00000u32 == 0x1a800000u32,
    ensures
        w == enc_cond_sel((w >> 31u32) & 0x1u32, (w >> 30u32) & 0x1u32, (w >> 29u32) & 0x1u32, (w >> 16u32) & 0x1fu32, (w >> 12u32) & 0xfu32, (w >> 10u32) & 0x3u32, (w >> 5u32) & 0x1fu32, w & 0x1fu32),
        (w >> 31u32) & 0x1u32 <= 0x1u32,
        (w >> 30u32) & 0x1u32 <= 0x1u32,
        (w >> 29u32) & 0x1u32 <= 0x1u32,
        (w >> 16u32) & 0x1fu32 <= 0x1fu32,
        (w >> 12u32) & 0xfu32 <= 0xfu32,
        (w >> 10u32) & 0x3u32 <= 0x3u32,
        (w >> 5u32) & 0x1fu32 <= 0x1fu32,
        w & 0x1fu32 <= 0x1fu32,
{
}

proof fn lemma_parse_cond_sel_sound(w: u32)
    requires
        w & 0xe000000u32 == 0xa000000u32,
        w & 0x1fe00000u32 == 0x1a800000u32,
    ensures
        spec_parse_cond_sel(w) matches Ok(i) ==> i.spec_encode() == w,
{
    lemma_split_cond_sel(w);
}

/// Variant and operands of a word in the data proccessing 3src group.
pub open spec fn spec_parse_data_proccessing_3src(w: u32) -> Result<AArch64Inst, DecodeError> {
    let sf = (w >> 31u32) & 0x1u32;
    let op54 = (w >> 29u32) & 0x3u32;
    let op31 = (w >> 21u32) & 0x7u32;
    let rm = (w >> 16u32) & 0x1fu32;
    let o0 = (w >> 15u32) & 0x1u32;
    let ra = (w >> 10u32) & 0x1fu32;
    let rn = (w >> 5u32) & 0x1fu32;
    let rd = w & 0x1fu32;
    if sf == 0u32 && op54 == 0u32 && op31 == 0u32 && o0 == 0u32 {
        Ok(AArch64Inst::Madd32(DataProc3Src { rm: AArch64RegisterId::spec_gpr_or_zr(rm), ra: AArch64RegisterId::spec_gpr_or_zr(ra), rn: AArch64RegisterId::spec_gpr_or_zr(rn), rd: AArch64RegisterId::spec_gpr_or_zr(rd) }))
    } else if sf == 0u32 && op54 == 0u32 && op31 == 0u32 && o0 == 1u32 {
        Ok(AArch64Inst::Msub32(DataProc3Src { rm: AArch64RegisterId::spec_gpr_or_zr(rm), ra: AArch64RegisterId::spec_gpr_or_zr(ra), rn: AArch64RegisterId::spec_gpr_or_zr(rn), rd: AArch64RegisterId::spec_gpr_or_zr(rd) }))
    } else if sf == 1u32 && op54 == 0u32 && op31 == 0u32 && o0 == 0u32 {
        Ok(AArch64Inst::Madd64(DataProc3Src { rm: AArch64RegisterId::spec_gpr_or_zr(rm), ra: AArch64RegisterId::spec_gpr_or_zr(ra), rn: AArch64RegisterId::spec_gpr_or_zr(rn), rd: AArch64RegisterId::spec_gpr_or_zr(rd) }))
    } else if sf == 1u32 && op54 == 0u32 && op31 == 0u32 && o0 == 1u32 {
        Ok(AArch64Inst::Msub64(DataProc3Src { rm: AArch64RegisterId::spec_gpr_or_zr(rm), ra: AArch64RegisterId::spec_gpr_or_zr(ra), rn: AArch64RegisterId::spec_gpr_or_zr(rn), rd: AArch64RegisterId::spec_gpr_or_zr(rd) }))
    } else if sf == 1u32 && op54 == 0u32 && op31 == 1u32 && o0 == 0u32 {
        Ok(AArch64Inst::Smaddl(DataProc3Src { rm: AArch64RegisterId::spec_gpr_or_zr(rm), ra: AArch64RegisterId::spec_gpr_or_zr(ra), rn: AArch64RegisterId::spec_gpr_or_zr(rn), rd: AArch64RegisterId::spec_gpr_or_zr(rd) }))
    } else if sf == 1u32 && op54 == 0u32 && op31 == 1u32 && o0 == 1u32 {
        Ok(AArch64Inst::Smsubl(DataProc3Src { rm: AArch64RegisterId::spec_gpr_or_zr(rm), ra: AArch64RegisterId::spec_gpr_or_zr(ra), rn: AArch64RegisterId::spec_gpr_or_zr(rn), rd: AArch64RegisterId::spec_gpr_or_zr(rd) }))
    } else if sf == 1u32 && op54 == 0u32 && op31 == 2u32 && o0 == 0u32 {
        Ok(AArch64Inst::Smulh(DataProc3Src { rm: AArch64RegisterId::spec_gpr_or_zr(rm), ra: AArch64RegisterId::spec_gpr_or_zr(ra), rn: AArch64RegisterId::spec_gpr_or_zr(rn), rd: AArch64RegisterId::spec_gpr_or_zr(rd) }))
    } else if sf == 1u32 && op54 == 0u32 && op31 == 5u32 && o0 == 0u32 {
        Ok(AArch64Inst::Umaddl(DataProc3Src { rm: AArch64RegisterId::spec_gpr_or_zr(rm), ra: AArch64RegisterId::spec_gpr_or_zr(ra), rn: AArch64RegisterId::spec_gpr_or_zr(rn), rd: AArch64RegisterId::spec_gpr_or_zr(rd) }))
    } else if sf == 1u32 && op54 == 0u32 && op31 == 5u32 && o0 == 1u32 {
        Ok(AArch64Inst::Umsubl(DataProc3Src { rm: AArch64RegisterId::spec_gpr_or_zr(rm), ra: AArch64RegisterId::spec_gpr_or_zr(ra), rn: AArch64RegisterId::spec_gpr_or_zr(rn), rd: AArch64RegisterId::spec_gpr_or_zr(rd) }))
    } else if sf == 1u32 && op54 == 0u32 && op31 == 7u32 && o0 == 0u32 {
        Ok(AArch64Inst::Umulh(DataProc3Src { rm: AArch64RegisterId::spec_gpr_or_zr(rm), ra: AArch64RegisterId::spec_gpr_or_zr(ra), rn: AArch64RegisterId::spec_gpr_or_zr(rn), rd: AArch64RegisterId::spec_gpr_or_zr(rd) }))
    } else {
        Err(DecodeError::UnknownInstruction { word: w })
    }
}

/// Decodes a word of the data proccessing 3src group.
pub fn parse_data_proccessing_3src(w: u32) -> (r: Result<AArch64Inst, DecodeError>)
    ensures
        r == spec_parse_data_proccessing_3src(w),
{
    let sf = (w >> 31u32) & 0x1u32;
    let op54 = (w >> 29u32) & 0x3u32;
    let op31 = (w >> 21u32) & 0x7u32;
    let rm = (w >> 16u32) & 0x1fu32;
    let o0 = (w >> 15u32) & 0x1u32;
    let ra = (w >> 10u32) & 0x1fu32;
    let rn = (w >> 5u32) & 0x1fu32;
    let rd = w & 0x1fu32;
    if sf == 0u32 && op54 == 0u32 && op31 == 0u32 && o0 == 0u32 {
        Ok(AArch64Inst::Madd32(DataProc3Src { rm: AArch64RegisterId::gpr_or_zr(rm), ra: AArch64RegisterId::gpr_or_zr(ra), rn: AArch64RegisterId::gpr_or_zr(rn), rd: AArch64RegisterId::gpr_or_zr(rd) }))
    } else if sf == 0u32 && op54 == 0u32 && op31 == 0u32 && o0 == 1u32 {
        Ok(AArch64Inst::Msub32(DataProc3Src { rm: AArch64RegisterId::gpr_or_zr(rm), ra: AArch64RegisterId::gpr_or_zr(ra), rn: AArch64RegisterId::gpr_or_zr(rn), rd: AArch64RegisterId::gpr_or_zr(rd) }))
    } else if sf == 1u32 && op54 == 0u32 && op31 == 0u32 && o0 == 0u32 {
        Ok(AArch64Inst::Madd64(DataProc3Src { rm: AArch64RegisterId::gpr_or_zr(rm), ra: AArch64RegisterId::gpr_or_zr(ra), rn: AArch64RegisterId::gpr_or_zr(rn), rd: AArch64RegisterId::gpr_or_zr(rd) }))
    } else if sf == 1u32 && op54 == 0u32 && op31 == 0u32 && o0 == 1u32 {
        Ok(AArch64Inst::Msub64(DataProc3Src { rm: AArch64RegisterId::gpr_or_zr(rm), ra: AArch64RegisterId::gpr_or_zr(ra), rn: AArch64RegisterId::gpr_or_zr(rn), rd: AArch64RegisterId::gpr_or_zr(rd) }))
    } else if sf == 1u32 && op54 == 0u32 && op31 == 1u32 && o0 == 0u32 {
        Ok(AArch64Inst::Smaddl(DataProc3Src { rm: AArch64RegisterId::gpr_or_zr(rm), ra: AArch64RegisterId::gpr_or_zr(ra), rn: AArch64RegisterId::gpr_or_zr(rn), rd: AArch64RegisterId::gpr_or_zr(rd) }))
    } else if sf == 1u32 && op54 == 0u32 && op31 == 1u32 && o0 == 1u32 {
        Ok(AArch64Inst::Smsubl(DataProc3Src { rm: AArch64RegisterId::gpr_or_zr(rm), ra: AArch64RegisterId::gpr_or_zr(ra), rn: AArch64RegisterId::gpr_or_zr(rn), rd: AArch64RegisterId::gpr_or_zr(rd) }))
    } else if sf == 1u32 && op54 == 0u32 && op31 == 2u32 && o0 == 0u32 {
        Ok(AArch64Inst::Smulh(DataProc3Src { rm: AArch64RegisterId::gpr_or_zr(rm), ra: AArch64RegisterId::gpr_or_zr(ra), rn: AArch64RegisterId::gpr_or_zr(rn), rd: AArch64RegisterId::gpr_or_zr(rd) }))
    } else if sf == 1u32 && op54 == 0u32 && op31 == 5u32 && o0 == 0u32 {
        Ok(AArch64Inst::Umaddl(DataProc3Src { rm: AArch64RegisterId::gpr_or_zr(rm), ra: AArch64RegisterId::gpr_or_zr(ra), rn: AArch64RegisterId::gpr_or_zr(rn), rd: AArch64RegisterId::gpr_or_zr(rd) }))
    } else if sf == 1u32 && op54 == 0u32 && op31 == 5u32 && o0 == 1u32 {
        Ok(AArch64Inst::Umsubl(DataProc3Src { rm: AArch64RegisterId::gpr_or_zr(rm), ra: AArch64RegisterId::gpr_or_zr(ra), rn: AArch64RegisterId::gpr_or_zr(rn), rd: AArch64RegisterId::gpr_or_zr(rd) }))
    } else if sf == 1u32 && op54 == 0u32 && op31 == 7u32 && o0 == 0u32 {
        Ok(AArch64Inst::Umulh(DataProc3Src { rm: AArch64RegisterId::gpr_or_zr(rm), ra: AArch64RegisterId::gpr_or_zr(ra), rn: AArch64RegisterId::gpr_or_zr(rn), rd: AArch64RegisterId::gpr_or_zr(rd) }))
    } else {
        Err(DecodeError::UnknownInstruction { word: w })
    }
}

proof fn lemma_split_data_proccessing_3src(w: u32)
    by (bit_vector)
    requires
        w & 0xe000000u32 == 0xa000000u32,
        w & 0x1f000000u32 == 0x1b000000u32,
    ensures
        w == enc_data_proccessing_3src((w >> 31u32) & 0x1u32, (w >> 29u32) & 0x3u32, (w >> 21u32) & 0x7u32, (w >> 16u32) & 0x1fu32, (w >> 15u32) & 0x1u32, (w >> 10u32) & 0x1fu32, (w >> 5u32) & 0x1fu32, w & 0x1fu32),
        (w >> 31u32) & 0x1u32 <= 0x1u32,
        (w >> 29u32) & 0x3u32 <= 0x3u32,
        (w >> 21u32) & 0x7u32 <= 0x7u32,
        (w >> 16u32) & 0x1fu32 <= 0x1fu32,
        (w >> 15u32) & 0x1u32 <= 0x1u32,
        (w >> 10u32) & 0x1fu32 <= 0x1fu32,
        (w >> 5u32) & 0x1fu32 <= 0x1fu32,
        w & 0x1fu32 <= 0x1fu32,
{
}

proof fn lemma_parse_data_proccessing_3src_sound(w: u32)
    requires
        w & 0xe000000u32 == 0xa000000u32,
        w & 0x1f000000u32 == 0x1b000000u32,
    ensures
        spec_parse_data_proccessing_3src(w) matches Ok(i) ==> i.spec_encode() == w,
{
    lemma_split_data_proccessing_3src(w);
}

/// Variant and operands of a word in the fp data processing 3src group.
pub open spec fn spec_parse_fp_data_processing_3src(w: u32) -> Result<AArch64Inst, DecodeError> {
    let m = (w >> 31u32) & 0x1u32;
    let s = (w >> 29u32) & 0x1u32;
    let ptype = (w >> 22u32) & 0x3u32;
    let o1 = (w >> 21u32) & 0x1u32;
    let rm = (w >> 16u32) & 0x1fu32;
    let o0 = (w >> 15u32) & 0x1u32;
    let ra = (w >> 10u32) & 0x1fu32;
    let rn = (w >> 5u32) & 0x1fu32;
    let rd = w & 0x1fu32;
    if m == 0u32 && s == 0u32 && ptype == 0u32 && o1 == 0u32 && o0 == 0u32 {
        Ok(AArch64Inst::FmAddSinglePrecision(RmRaRnRd { rm: AArch64RegisterId::spec_fpr(rm), ra: AArch64RegisterId::spec_fpr(ra), rn: AArch64RegisterId::spec_fpr(rn), rd: AArch64RegisterId::spec_fpr(rd) }))
    } else if m == 0u32 && s == 0u32 && ptype == 0u32 && o1 == 0u32 && o0 == 1u32 {
        Ok(AArch64Inst::FmSubSinglePrecision(RmRaRnRd { rm: AArch64RegisterId::spec_fpr(rm), ra: AArch64RegisterId::spec_fpr(ra), rn: AArch64RegisterId::spec_fpr(rn), rd: AArch64RegisterId::spec_fpr(rd) }))
    } else if m == 0u32 && s == 0u32 && ptype == 0u32 && o1 == 1u32 && o0 == 0u32 {
        Ok(AArch64Inst::FnmAddSinglePrecision(RmRaRnRd { rm: AArch64RegisterId::spec_fpr(rm), ra: AArch64RegisterId::spec_fpr(ra), rn: AArch64RegisterId::spec_fpr(rn), rd: AArch64RegisterId::spec_fpr(rd) }))
    } else if m == 0u32 && s == 0u32 && ptype == 0u32 && o1 == 1u32 && o0 == 1u32 {
        Ok(AArch64Inst::FnmSubSinglePrecision(RmRaRnRd { rm: AArch64RegisterId::spec_fpr(rm), ra: AArch64RegisterId::spec_fpr(ra), rn: AArch64RegisterId::spec_fpr(rn), rd: AArch64RegisterId::spec_fpr(rd) }))
    } else if m == 0u32 && s == 0u32 && ptype == 1u32 && o1 == 0u32 && o0 == 0u32 {
        Ok(AArch64Inst::FmAddDoublePrecision(RmRaRnRd { rm: AArch64RegisterId::spec_fpr(rm), ra: AArch64RegisterId::spec_fpr(ra), rn: AArch64RegisterId::spec_fpr(rn), rd: AArch64RegisterId::spec_fpr(rd) }))
    } else if m == 0u32 && s == 0u32 && ptype == 1u32 && o1 == 0u32 && o0 == 1u32 {
        Ok(AArch64Inst::FmSubDoublePrecision(RmRaRnRd { rm: AArch64RegisterId::spec_fpr(rm), ra: AArch64RegisterId::spec_fpr(ra), rn: AArch64RegisterId::spec_fpr(rn), rd: AArch64RegisterId::spec_fpr(rd) }))
    } else if m == 0u32 && s == 0u32 && ptype == 1u32 && o1 == 1u32 && o0 == 0u32 {
        Ok(AArch64Inst::FnmAddDoublePrecision(RmRaRnRd { rm: AArch64RegisterId::spec_fpr(rm), ra: AArch64RegisterId::spec_fpr(ra), rn: AArch64RegisterId::spec_fpr(rn), rd: AArch64RegisterId::spec_fpr(rd) }))
    } else if m == 0u32 && s == 0u32 && ptype == 1u32 && o1 == 1u32 && o0 == 1u32 {
        Ok(AArch64Inst::FnmSubDoublePrecision(RmRaRnRd { rm: AArch64RegisterId::spec_fpr(rm), ra: AArch64RegisterId::spec_fpr(ra), rn: AArch64RegisterId::spec_fpr(rn), rd: AArch64RegisterId::spec_fpr(rd) }))
    } else if m == 0u32 && s == 0u32 && ptype == 3u32 && o1 == 0u32 && o0 == 0u32 {
        Ok(AArch64Inst::FmAddHalfPrecision(RmRaRnRd { rm: AArch64RegisterId::spec_fpr(rm), ra: AArch64RegisterId::spec_fpr(ra), rn: AArch64RegisterId::spec_fpr(rn), rd: AArch64RegisterId::spec_fpr(rd) }))
    } else if m == 0u32 && s == 0u32 && ptype == 3u32 && o1 == 0u32 && o0 == 1u32 {
        Ok(AArch64Inst::FmSubHalfPrecision(RmRaRnRd { rm: AArch64RegisterId::spec_fpr(rm), ra: AArch64RegisterId::spec_fpr(ra), rn: AArch64RegisterId::spec_fpr(rn), rd: AArch64RegisterId::spec_fpr(rd) }))
    } else if m == 0u32 && s == 0u32 && ptype == 3u32 && o1 == 1u32 && o0 == 0u32 {
        Ok(AArch64Inst::FnmAddHalfPrecision(RmRaRnRd { rm: AArch64RegisterId::spec_fpr(rm), ra: AArch64RegisterId::spec_fpr(ra), rn: AArch64RegisterId::spec_fpr(rn), rd: AArch64RegisterId::spec_fpr(rd) }))
    } else if m == 0u32 && s == 0u32 && ptype == 3u32 && o1 == 1u32 && o0 == 1u32 {
        Ok(AArch64Inst::FnmSubHalfPrecision(RmRaRnRd { rm: AArch64RegisterId::spec_fpr(rm), ra: AArch64RegisterId::spec_fpr(ra), rn: AArch64RegisterId::spec_fpr(rn), rd: AArch64RegisterId::spec_fpr(rd) }))
    } else {
        Err(DecodeError::UnknownInstruction { word: w })
    }
}

/// Decodes a word of the fp data processing 3src group.
pub fn parse_fp_data_processing_3src(w: u32) -> (r: Result<AArch64Inst, DecodeError>)
    ensures
        r == spec_parse_fp_data_processing_3src(w),
{
    let m = (w >> 31u32) & 0x1u32;
    let s = (w >> 29u32) & 0x1u32;
    let ptype = (w >> 22u32) & 0x3u32;
    let o1 = (w >> 21u32) & 0x1u32;
    let rm = (w >> 16u32) & 0x1fu32;
    let o0 = (w >> 15u32) & 0x1u32;
    let ra = (w >> 10u32) & 0x1fu32;
    let rn = (w >> 5u32) & 0x1fu32;
    let rd = w & 0x1fu32;
    if m == 0u32 && s == 0u32 && ptype == 0u32 && o1 == 0u32 && o0 == 0u32 {
        Ok(AArch64Inst::FmAddSinglePrecision(RmRaRnRd { rm: AArch64RegisterId::fpr(rm), ra: AArch64RegisterId::fpr(ra), rn: AArch64RegisterId::fpr(rn), rd: AArch64RegisterId::fpr(rd) }))
    } else if m == 0u32 && s == 0u32 && ptype == 0u32 && o1 == 0u32 && o0 == 1u32 {
        Ok(AArch64Inst::FmSubSinglePrecision(RmRaRnRd { rm: AArch64RegisterId::fpr(rm), ra: AArch64RegisterId::fpr(ra), rn: AArch64RegisterId::fpr(rn), rd: AArch64RegisterId::fpr(rd) }))
    } else if m == 0u32 && s == 0u32 && ptype == 0u32 && o1 == 1u32 && o0 == 0u32 {
        Ok(AArch64Inst::FnmAddSinglePrecision(RmRaRnRd { rm: AArch64RegisterId::fpr(rm), ra: AArch64RegisterId::fpr(ra), rn: AArch64RegisterId::fpr(rn), rd: AArch64RegisterId::fpr(rd) }))
    } else if m == 0u32 && s == 0u32 && ptype == 0u32 && o1 == 1u32 && o0 == 1u32 {
        Ok(AArch64Inst::FnmSubSinglePrecision(RmRaRnRd { rm: AArch64RegisterId::fpr(rm), ra: AArch64RegisterId::fpr(ra), rn: AArch64RegisterId::fpr(rn), rd: AArch64RegisterId::fpr(rd) }))
    } else if m == 0u32 && s == 0u32 && ptype == 1u32 && o1 == 0u32 && o0 == 0u32 {
        Ok(AArch64Inst::FmAddDoublePrecision(RmRaRnRd { rm: AArch64RegisterId::fpr(rm), ra: AArch64RegisterId::fpr(ra), rn: AArch64RegisterId::fpr(rn), rd: AArch64RegisterId::fpr(rd) }))
    } else if m == 0u32 && s == 0u32 && ptype == 1u32 && o1 == 0u32 && o0 == 1u32 {
        Ok(AArch64Inst::FmSubDoublePrecision(RmRaRnRd { rm: AArch64RegisterId::fpr(rm), ra: AArch64RegisterId::fpr(ra), rn: AArch64RegisterId::fpr(rn), rd: AArch64RegisterId::fpr(rd) }))
    } else if m == 0u32 && s == 0u32 && ptype == 1u32 && o1 == 1u32 && o0 == 0u32 {
        Ok(AArch64Inst::FnmAddDoublePrecision(RmRaRnRd { rm: AArch64RegisterId::fpr(rm), ra: AArch64RegisterId::fpr(ra), rn: AArch64RegisterId::fpr(rn), rd: AArch64RegisterId::fpr(rd) }))
    } else if m == 0u32 && s == 0u32 && ptype == 1u32 && o1 == 1u32 && o0 == 1u32 {
        Ok(AArch64Inst::FnmSubDoublePrecision(RmRaRnRd { rm: AArch64RegisterId::fpr(rm), ra: AArch64RegisterId::fpr(ra), rn: AArch64RegisterId::fpr(rn), rd: AArch64RegisterId::fpr(rd) }))
    } else if m == 0u32 && s == 0u32 && ptype == 3u32 && o1 == 0u32 && o0 == 0u32 {
        Ok(AArch64Inst::FmAddHalfPrecision(RmRaRnRd { rm: AArch64RegisterId::fpr(rm), ra: AArch64RegisterId::fpr(ra), rn: AArch64RegisterId::fpr(rn), rd: AArch64RegisterId::fpr(rd) }))
    } else if m == 0u32 && s == 0u32 && ptype == 3u32 && o1 == 0u32 && o0 == 1u32 {
        Ok(AArch64Inst::FmSubHalfPrecision(RmRaRnRd { rm: AArch64RegisterId::fpr(rm), ra: AArch64RegisterId::fpr(ra), rn: AArch64RegisterId::fpr(rn), rd: AArch64RegisterId::fpr(rd) }))
    } else if m == 0u32 && s == 0u32 && ptype == 3u32 && o1 == 1u32 && o0 == 0u32 {
        Ok(AArch64Inst::FnmAddHalfPrecision(RmRaRnRd { rm: AArch64RegisterId::fpr(rm), ra: AArch64RegisterId::fpr(ra), rn: AArch64RegisterId::fpr(rn), rd: AArch64RegisterId::fpr(rd) }))
    } else if m == 0u32 && s == 0u32 && ptype == 3u32 && o1 == 1u32 && o0 == 1u32 {
        Ok(AArch64Inst::FnmSubHalfPrecision(RmRaRnRd { rm: AArch64RegisterId::fpr(rm), ra: AArch64RegisterId::fpr(ra), rn: AArch64RegisterId::fpr(rn), rd: AArch64RegisterId::fpr(rd) }))
    } else {
        Err(DecodeError::UnknownInstruction { word: w })
    }
}

proof fn lemma_split_fp_data_processing_3src(w: u32)
    by (bit_vector)
    requires
        w & 0xe000000u32 == 0xe000000u32,
        w & 0x51000000u32 == 0x11000000u32,
    ensures
        w == enc_fp_data_processing_3src((w >> 31u32) & 0x1u32, (w >> 29u32) & 0x1u32, (w >> 22u32) & 0x3u32, (w >> 21u32) & 0x1u32, (w >> 16u32) & 0x1fu32, (w >> 15u32) & 0x1u32, (w >> 10u32) & 0x1fu32, (w >> 5u32) & 0x1fu32, w & 0x1fu32),
        (w >> 31u32) & 0x1u32 <= 0x1u32,
        (w >> 29u32) & 0x1u32 <= 0x1u32,
        (w >> 22u32) & 0x3u32 <= 0x3u32,
        (w >> 21u32) & 0x1u32 <= 0x1u32,
        (w >> 16u32) & 0x1fu32 <= 0x1fu32,
        (w >> 15u32) & 0x1u32 <= 0x1u32,
        (w >> 10u32) & 0x1fu32 <= 0x1fu32,
        (w >> 5u32) & 0x1fu32 <= 0x1fu32,
        w & 0x1fu32 <= 0x1fu32,
{
}

proof fn lemma_parse_fp_data_processing_3src_sound(w: u32)
    requires
        w & 0xe000000u32 == 0xe000000u32,
        w & 0x51000000u32 == 0x11000000u32,
    ensures
        spec_parse_fp_data_processing_3src(w) matches Ok(i) ==> i.spec_encode() == w,
{
    lemma_split_fp_data_processing_3src(w);
}

/// Variant and operands of a word in the barriers group.
pub open spec fn spec_parse_barriers(w: u32) -> Result<AArch64Inst, DecodeError> {
    let crm = (w >> 8u32) & 0xfu32;
    let op2 = (w >> 5u32) & 0x7u32;
    let rt = w & 0x1fu32;
    if op2 == 2u32 && rt == 31u32 {
        Ok(AArch64Inst::Clrex(Barriers { crm: crm as u8 }))
    } else if op2 == 4u32 && rt == 31u32 {
        Ok(AArch64Inst::DsbEncoding(Barriers { crm: crm as u8 }))
    } else if op2 == 5u32 && rt == 31u32 {
        Ok(AArch64Inst::Dmb(Barriers { crm: crm as u8 }))
    } else if op2 == 6u32 && rt == 31u32 {
        Ok(AArch64Inst::Isb(Barriers { crm: crm as u8 }))
    } else {
        Err(DecodeError::UnknownInstruction { word: w })
    }
}

/// Decodes a word of the barriers group.
pub fn parse_barriers(w: u32) -> (r: Result<AArch64Inst, DecodeError>)
    ensures
        r == spec_parse_barriers(w),
{
    let crm = (w >> 8u32) & 0xfu32;
    let op2 = (w >> 5u32) & 0x7u32;
    let rt = w & 0x1fu32;
    if op2 == 2u32 && rt == 31u32 {
        Ok(AArch64Inst::Clrex(Barriers { crm: crm as u8 }))
    } else if op2 == 4u32 && rt == 31u32 {
        Ok(AArch64Inst::DsbEncoding(Barriers { crm: crm as u8 }))
    } else if op2 == 5u32 && rt == 31u32 {
        Ok(AArch64Inst::Dmb(Barriers { crm: crm as u8 }))
    } else if op2 == 6u32 && rt == 31u32 {
        Ok(AArch64Inst::Isb(Barriers { crm: crm as u8 }))
    } else {
        Err(DecodeError::UnknownInstruction { word: w })
    }
}

proof fn lemma_split_barriers(w: u32)
    by (bit_vector)
    requires
        w & 0x1c000000u32 == 0x14000000u32,
        w & 0xfffff000u32 == 0xd5033000u32,
    ensures
        w == enc_barriers((w >> 8u32) & 0xfu32, (w >> 5u32) & 0x7u32, w & 0x1fu32),
        (w >> 8u32) & 0xfu32 <= 0xfu32,
        (w >> 5u32) & 0x7u32 <= 0x7u32,
        w & 0x1fu32 <= 0x1fu32,
{
}

proof fn lemma_parse_barriers_sound(w: u32)
    requires
        w & 0x1c000000u32 == 0x14000000u32,
        w & 0xfffff000u32 == 0xd5033000u32,
    ensures
        spec_parse_barriers(w) matches Ok(i) ==> i.spec_encode() == w,
{
    lemma_split_barriers(w);
}

/// Variant and operands of a word in the load reg literal group.
pub open spec fn spec_parse_load_reg_literal(w: u32) -> Result<AArch64Inst, DecodeError> {
    let opc = (w >> 30u32) & 0x3u32;
    let v = (w >> 26u32) & 0x1u32;
    let imm19 = (w >> 5u32) & 0x7ffffu32;
    let rt = w & 0x1fu32;
    if opc == 0u32 && v == 0u32 {
        Ok(AArch64Inst::LdrLitVar32(Imm19Rt { imm19: imm19 as u32, rt: AArch64RegisterId::spec_gpr_or_zr(rt) }))
    } else if opc == 0u32 && v == 1u32 {
        Ok(AArch64Inst::LdrLitSimdFPVar32(Imm19Rt { imm19: imm19 as u32, rt: AArch64RegisterId::spec_fpr(rt) }))
    } else if opc == 1u32 && v == 0u32 {
        Ok(AArch64Inst::LdrLitVar64(Imm19Rt { imm19: imm19 as u32, rt: AArch64RegisterId::spec_gpr_or_zr(rt) }))
    } else if opc == 1u32 && v == 1u32 {
        Ok(AArch64Inst::LdrLitSimdFPVar64(Imm19Rt { imm19: imm19 as u32, rt: AArch64RegisterId::spec_fpr(rt) }))
    } else if opc == 2u32 && v == 0u32 {
        Ok(AArch64Inst::LdrswLit(Imm19Rt { imm19: imm19 as u32, rt: AArch64RegisterId::spec_gpr_or_zr(rt) }))
    } else if opc == 2u32 && v == 1u32 {
        Ok(AArch64Inst::LdrLitSimdFPVar128(Imm19Rt { imm19: imm19 as u32, rt: AArch64RegisterId::spec_fpr(rt) }))
    } else if opc == 3u32 && v == 0u32 {
        Ok(AArch64Inst::PrfmLit(Imm19Rt { imm19: imm19 as u32, rt: AArch64RegisterId::spec_gpr_or_zr(rt) }))
    } else {
        Err(DecodeError::UnknownInstruction { word: w })
    }
}

/// Decodes a word of the load reg literal group.
pub fn parse_load_reg_literal(w: u32) -> (r: Result<AArch64Inst, DecodeError>)
    ensures
        r == spec_parse_load_reg_literal(w),
{
    let opc = (w >> 30u32) & 0x3u32;
    let v = (w >> 26u32) & 0x1u32;
    let imm19 = (w >> 5u32) & 0x7ffffu32;
    let rt = w & 0x1fu32;
    if opc == 0u32 && v == 0u32 {
        Ok(AArch64Inst::LdrLitVar32(Imm19Rt { imm19: imm19 as u32, rt: AArch64RegisterId::gpr_or_zr(rt) }))
    } else if opc == 0u32 && v == 1u32 {
        Ok(AArch64Inst::LdrLitSimdFPVar32(Imm19Rt { imm19: imm19 as u32, rt: AArch64RegisterId::fpr(rt) }))
    } else if opc == 1u32 && v == 0u32 {
        Ok(AArch64Inst::LdrLitVar64(Imm19Rt { imm19: imm19 as u32, rt: AArch64RegisterId::gpr_or_zr(rt) }))
    } else if opc == 1u32 && v == 1u32 {
        Ok(AArch64Inst::LdrLitSimdFPVar64(Imm19Rt { imm19: imm19 as u32, rt: AArch64RegisterId::fpr(rt) }))
    } else if opc == 2u32 && v == 0u32 {
        Ok(AArch64Inst::LdrswLit(Imm19Rt { imm19: imm19 as u32, rt: AArch64RegisterId::gpr_or_zr(rt) }))
    } else if opc == 2u32 && v == 1u32 {
        Ok(AArch64Inst::LdrLitSimdFPVar128(Imm19Rt { imm19: imm19 as u32, rt: AArch64RegisterId::fpr(rt) }))
    } else if opc == 3u32 && v == 0u32 {
        Ok(AArch64Inst::PrfmLit(Imm19Rt { imm19: imm19 as u32, rt: AArch64RegisterId::gpr_or_zr(rt) }))
    } else {
        Err(DecodeError::UnknownInstruction { word: w })
    }
}

proof fn lemma_split_load_reg_literal(w: u32)
    by (bit_vector)
    requires
        w & 0xa000000u32 == 0x8000000u32,
        w & 0x3b000000u32 == 0x18000000u32,
    ensures
        w == enc_load_reg_literal((w >> 30u32) & 0x3u32, (w >> 26u32) & 0x1u32, (w >> 5u32) & 0x7ffffu32, w & 0x1fu32),
        (w >> 30u32) & 0x3u32 <= 0x3u32,
        (w >> 26u32) & 0x1u32 <= 0x1u32,
        (w >> 5u32) & 0x7ffffu32 <= 0x7ffffu32,
        w & 0x1fu32 <= 0x1fu32,
{
}

proof fn lemma_parse_load_reg_literal_sound(w: u32)
    requires
        w & 0xa000000u32 == 0x8000000u32,
        w & 0x3b000000u32 == 0x18000000u32,
    ensures
        spec_parse_load_reg_literal(w) matches Ok(i) ==> i.spec_encode() == w,
{
    lemma_split_load_reg_literal(w);
}

/// Variant and operands of a word in the load store exclusive group.
pub open spec fn spec_parse_load_store_exclusive(w: u32) -> Result<AArch64Inst, DecodeError> {
    let size = (w >> 30u32) & 0x3u32;
    let l = (w >> 22u32) & 0x1u32;
    let rs = (w >> 16u32) & 0x1fu32;
    let o0 = (w >> 15u32) & 0x1u32;
    let rt2 = (w >> 10u32) & 0x1fu32;
    let rn = (w >> 5u32) & 0x1fu32;
    let rt = w & 0x1fu32;
    if size == 0u32 && l == 0u32 && o0 == 0u32 && (rt2 == 31u32) {
        Ok(AArch64Inst::Stxrb(RsRt2RnRt { rs: AArch64RegisterId::spec_gpr_or_zr(rs), rt2: rt2 as u8, rn: AArch64RegisterId::spec_gpr_or_sp(rn), rt: AArch64RegisterId::spec_gpr_or_zr(rt) }))
    } else if size == 0u32 && l == 1u32 && o0 == 0u32 && (rt2 == 31u32 && rs == 31u32) {
        Ok(AArch64Inst::Ldxrb(RsRt2RnRt { rs: AArch64RegisterId::spec_gpr_or_zr(rs), rt2: rt2 as u8, rn: AArch64RegisterId::spec_gpr_or_sp(rn), rt: AArch64RegisterId::spec_gpr_or_zr(rt) }))
    } else if size == 1u32 && l == 0u32 && o0 == 0u32 && (rt2 == 31u32) {
        Ok(AArch64Inst::Stxrh(RsRt2RnRt { rs: AArch64RegisterId::spec_gpr_or_zr(rs), rt2: rt2 as u8, rn: AArch64RegisterId::spec_gpr_or_sp(rn), rt: AArch64RegisterId::spec_gpr_or_zr(rt) }))
    } else if size == 1u32 && l == 1u32 && o0 == 0u32 && (rt2 == 31u32 && rs == 31u32) {
        Ok(AArch64Inst::Ldxrh(RsRt2RnRt { rs: AArch64RegisterId::spec_gpr_or_zr(rs), rt2: rt2 as u8, rn: AArch64RegisterId::spec_gpr_or_sp(rn), rt: AArch64RegisterId::spec_gpr_or_zr(rt) }))
    } else if size == 2u32 && l == 0u32 && o0 == 0u32 && (rt2 == 31u32) {
        Ok(AArch64Inst::StxrVar32(RsRt2RnRt { rs: AArch64RegisterId::spec_gpr_or_zr(rs), rt2: rt2 as u8, rn: AArch64RegisterId::spec_gpr_or_sp(rn), rt: AArch64RegisterId::spec_gpr_or_zr(rt) }))
    } else if size == 2u32 && l == 1u32 && o0 == 0u32 && (rt2 == 31u32 && rs == 31u32) {
        Ok(AArch64Inst::LdxrVar32(RsRt2RnRt { rs: AArch64RegisterId::spec_gpr_or_zr(rs), rt2: rt2 as u8, rn: AArch64RegisterId::spec_gpr_or_sp(rn), rt: AArch64RegisterId::spec_gpr_or_zr(rt) }))
    } else if size == 3u32 && l == 0u32 && o0 == 0u32 && (rt2 == 31u32) {
        Ok(AArch64Inst::StxrVar64(RsRt2RnRt { rs: AArch64RegisterId::spec_gpr_or_zr(rs), rt2: rt2 as u8, rn: AArch64RegisterId::spec_gpr_or_sp(rn), rt: AArch64RegisterId::spec_gpr_or_zr(rt) }))
    } else if size == 3u32 && l == 1u32 && o0 == 0u32 && (rt2 == 31u32 && rs == 31u32) {
        Ok(AArch64Inst::LdxrVar64(RsRt2RnRt { rs: AArch64RegisterId::spec_gpr_or_zr(rs), rt2: rt2 as u8, rn: AArch64RegisterId::spec_gpr_or_sp(rn), rt: AArch64RegisterId::spec_gpr_or_zr(rt) }))
    } else if size == 0u32 && l == 0u32 && o0 == 1u32 && (rt2 == 31u32) {
        Ok(AArch64Inst::Stlxrb(RsRt2RnRt { rs: AArch64RegisterId::spec_gpr_or_zr(rs), rt2: rt2 as u8, rn: AArch64RegisterId::spec_gpr_or_sp(rn), rt: AArch64RegisterId::spec_gpr_or_zr(rt) }))
    } else if size == 0u32 && l == 1u32 && o0 == 1u32 && (rt2 == 31u32 && rs == 31u32) {
        Ok(AArch64Inst::Ldaxrb(RsRt2RnRt { rs: AArch64RegisterId::spec_gpr_or_zr(rs), rt2: rt2 as u8, rn: AArch64RegisterId::spec_gpr_or_sp(rn), rt: AArch64RegisterId::spec_gpr_or_zr(rt) }))
    } else if size == 1u32 && l == 0u32 && o0 == 1u32 && (rt2 == 31u32) {
        Ok(AArch64Inst::Stlxrh(RsRt2RnRt { rs: AArch64RegisterId::spec_gpr_or_zr(rs), rt2: rt2 as u8, rn: AArch64RegisterId::spec_gpr_or_sp(rn), rt: AArch64RegisterId::spec_gpr_or_zr(rt) }))
    } else if size == 1u32 && l == 1u32 && o0 == 1u32 && (rt2 == 31u32 && rs == 31u32) {
        Ok(AArch64Inst::Ldaxrh(RsRt2RnRt { rs: AArch64RegisterId::spec_gpr_or_zr(rs), rt2: rt2 as u8, rn: AArch64RegisterId::spec_gpr_or_sp(rn), rt: AArch64RegisterId::spec_gpr_or_zr(rt) }))
    } else if size == 2u32 && l == 0u32 && o0 == 1u32 && (rt2 == 31u32) {
        Ok(AArch64Inst::StlxrVar32(RsRt2RnRt { rs: AArch64RegisterId::spec_gpr_or_zr(rs), rt2: rt2 as u8, rn: AArch64RegisterId::spec_gpr_or_sp(rn), rt: AArch64RegisterId::spec_gpr_or_zr(rt) }))
    } else if size == 2u32 && l == 1u32 && o0 == 1u32 && (rt2 == 31u32 && rs == 31u32) {
        Ok(AArch64Inst::LdaxrVar32(RsRt2RnRt { rs: AArch64RegisterId::spec_gpr_or_zr(rs), rt2: rt2 as u8, rn: AArch64RegisterId::spec_gpr_or_sp(rn), rt: AArch64RegisterId::spec_gpr_or_zr(rt) }))
    } else if size == 3u32 && l == 0u32 && o0 == 1u32 && (rt2 == 31u32) {
        Ok(AArch64Inst::StlxrVar64(RsRt2RnRt { rs: AArch64RegisterId::spec_gpr_or_zr(rs), rt2: rt2 as u8, rn: AArch64RegisterId::spec_gpr_or_sp(rn), rt: AArch64RegisterId::spec_gpr_or_zr(rt) }))
    } else if size == 3u32 && l == 1u32 && o0 == 1u32 && (rt2 == 31u32 && rs == 31u32) {
        Ok(AArch64Inst::LdaxrVar64(RsRt2RnRt { rs: AArch64RegisterId::spec_gpr_or_zr(rs), rt2: rt2 as u8, rn: AArch64RegisterId::spec_gpr_or_sp(rn), rt: AArch64RegisterId::spec_gpr_or_zr(rt) }))
    } else {
        Err(DecodeError::UnknownInstruction { word: w })
    }
}

/// Decodes a word of the load store exclusive group.
pub fn parse_load_store_exclusive(w: u32) -> (r: Result<AArch64Inst, DecodeError>)
    ensures
        r == spec_parse_load_store_exclusive(w),
{
    let size = (w >> 30u32) & 0x3u32;
    let l = (w >> 22u32) & 0x1u32;
    let rs = (w >> 16u32) & 0x1fu32;
    let o0 = (w >> 15u32) & 0x1u32;
    let rt2 = (w >> 10u32) & 0x1fu32;
    let rn = (w >> 5u32) & 0x1fu32;
    let rt = w & 0x1fu32;
    if size == 0u32 && l == 0u32 && o0 == 0u32 && (rt2 == 31u32) {
        Ok(AArch64Inst::Stxrb(RsRt2RnRt { rs: AArch64RegisterId::gpr_or_zr(rs), rt2: rt2 as u8, rn: AArch64RegisterId::gpr_or_sp(rn), rt: AArch64RegisterId::gpr_or_zr(rt) }))
    } else if size == 0u32 && l == 1u32 && o0 == 0u32 && (rt2 == 31u32 && rs == 31u32) {
        Ok(AArch64Inst::Ldxrb(RsRt2RnRt { rs: AArch64RegisterId::gpr_or_zr(rs), rt2: rt2 as u8, rn: AArch64RegisterId::gpr_or_sp(rn), rt: AArch64RegisterId::gpr_or_zr(rt) }))
    } else if size == 1u32 && l == 0u32 && o0 == 0u32 && (rt2 == 31u32) {
        Ok(AArch64Inst::Stxrh(RsRt2RnRt { rs: AArch64RegisterId::gpr_or_zr(rs), rt2: rt2 as u8, rn: AArch64RegisterId::gpr_or_sp(rn), rt: AArch64RegisterId::gpr_or_zr(rt) }))
    } else if size == 1u32 && l == 1u32 && o0 == 0u32 && (rt2 == 31u32 && rs == 31u32) {
        Ok(AArch64Inst::Ldxrh(RsRt2RnRt { rs: AArch64RegisterId::gpr_or_zr(rs), rt2: rt2 as u8, rn: AArch64RegisterId::gpr_or_sp(rn), rt: AArch64RegisterId::gpr_or_zr(rt) }))
    } else if size == 2u32 && l == 0u32 && o0 == 0u32 && (rt2 == 31u32) {
        Ok(AArch64Inst::StxrVar32(RsRt2RnRt { rs: AArch64RegisterId::gpr_or_zr(rs), rt2: rt2 as u8, rn: AArch64RegisterId::gpr_or_sp(rn), rt: AArch64RegisterId::gpr_or_zr(rt) }))
    } else if size == 2u32 && l == 1u32 && o0 == 0u32 && (rt2 == 31u32 && rs == 31u32) {
        Ok(AArch64Inst::LdxrVar32(RsRt2RnRt { rs: AArch64RegisterId::gpr_or_zr(rs), rt2: rt2 as u8, rn: AArch64RegisterId::gpr_or_sp(rn), rt: AArch64RegisterId::gpr_or_zr(rt) }))
    } else if size == 3u32 && l == 0u32 && o0 == 0u32 && (rt2 == 31u32) {
        Ok(AArch64Inst::StxrVar64(RsRt2RnRt { rs: AArch64RegisterId::gpr_or_zr(rs), rt2: rt2 as u8, rn: AArch64RegisterId::gpr_or_sp(rn), rt: AArch64RegisterId::gpr_or_zr(rt) }))
    } else if size == 3u32 && l == 1u32 && o0 == 0u32 && (rt2 == 31u32 && rs == 31u32) {
        Ok(AArch64Inst::LdxrVar64(RsRt2RnRt { rs: AArch64RegisterId::gpr_or_zr(rs), rt2: rt2 as u8, rn: AArch64RegisterId::gpr_or_sp(rn), rt: AArch64RegisterId::gpr_or_zr(rt) }))
    } else if size == 0u32 && l == 0u32 && o0 == 1u32 && (rt2 == 31u32) {
        Ok(AArch64Inst::Stlxrb(RsRt2RnRt { rs: AArch64RegisterId::gpr_or_zr(rs), rt2: rt2 as u8, rn: AArch64RegisterId::gpr_or_sp(rn), rt: AArch64RegisterId::gpr_or_zr(rt) }))
    } else if size == 0u32 && l == 1u32 && o0 == 1u32 && (rt2 == 31u32 && rs == 31u32) {
        Ok(AArch64Inst::Ldaxrb(RsRt2RnRt { rs: AArch64RegisterId::gpr_or_zr(rs), rt2: rt2 as u8, rn: AArch64RegisterId::gpr_or_sp(rn), rt: AArch64RegisterId::gpr_or_zr(rt) }))
    } else if size == 1u32 && l == 0u32 && o0 == 1u32 && (rt2 == 31u32) {
        Ok(AArch64Inst::Stlxrh(RsRt2RnRt { rs: AArch64RegisterId::gpr_or_zr(rs), rt2: rt2 as u8, rn: AArch64RegisterId::gpr_or_sp(rn), rt: AArch64RegisterId::gpr_or_zr(rt) }))
    } else if size == 1u32 && l == 1u32 && o0 == 1u32 && (rt2 == 31u32 && rs == 31u32) {
        Ok(AArch64Inst::Ldaxrh(RsRt2RnRt { rs: AArch64RegisterId::gpr_or_zr(rs), rt2: rt2 as u8, rn: AArch64RegisterId::gpr_or_sp(rn), rt: AArch64RegisterId::gpr_or_zr(rt) }))
    } else if size == 2u32 && l == 0u32 && o0 == 1u32 && (rt2 == 31u32) {
        Ok(AArch64Inst::StlxrVar32(RsRt2RnRt { rs: AArch64RegisterId::gpr_or_zr(rs), rt2: rt2 as u8, rn: AArch64RegisterId::gpr_or_sp(rn), rt: AArch64RegisterId::gpr_or_zr(rt) }))
    } else if size == 2u32 && l == 1u32 && o0 == 1u32 && (rt2 == 31u32 && rs == 31u32) {
        Ok(AArch64Inst::LdaxrVar32(RsRt2RnRt { rs: AArch64RegisterId::gpr_or_zr(rs), rt2: rt2 as u8, rn: AArch64RegisterId::gpr_or_sp(rn), rt: AArch64RegisterId::gpr_or_zr(rt) }))
    } else if size == 3u32 && l == 0u32 && o0 == 1u32 && (rt2 == 31u32) {
        Ok(AArch64Inst::StlxrVar64(RsRt2RnRt { rs: AArch64RegisterId::gpr_or_zr(rs), rt2: rt2 as u8, rn: AArch64RegisterId::gpr_or_sp(rn), rt: AArch64RegisterId::gpr_or_zr(rt) }))
    } else if size == 3u32 && l == 1u32 && o0 == 1u32 && (rt2 == 31u32 && rs == 31u32) {
        Ok(AArch64Inst::LdaxrVar64(RsRt2RnRt { rs: AArch64RegisterId::gpr_or_zr(rs), rt2: rt2 as u8, rn: AArch64RegisterId::gpr_or_sp(rn), rt: AArch64RegisterId::gpr_or_zr(rt) }))
    } else {
        Err(DecodeError::UnknownInstruction { word: w })
    }
}

proof fn lemma_split_load_store_exclusive(w: u32)
    by (bit_vector)
    requires
        w & 0xa000000u32 == 0x8000000u32,
        w & 0x3fa00000u32 == 0x8000000u32,
    ensures
        w == enc_load_store_exclusive((w >> 30u32) & 0x3u32, (w >> 22u32) & 0x1u32, (w >> 16u32) & 0x1fu32, (w >> 15u32) & 0x1u32, (w >> 10u32) & 0x1fu32, (w >> 5u32) & 0x1fu32, w & 0x1fu32),
        (w >> 30u32) & 0x3u32 <= 0x3u32,
        (w >> 22u32) & 0x1u32 <= 0x1u32,
        (w >> 16u32) & 0x1fu32 <= 0x1fu32,
        (w >> 15u32) & 0x1u32 <= 0x1u32,
        (w >> 10u32) & 0x1fu32 <= 0x1fu32,
        (w >> 5u32) & 0x1fu32 <= 0x1fu32,
        w & 0x1fu32 <= 0x1fu32,
{
}

proof fn lemma_parse_load_store_exclusive_sound(w: u32)
    requires
        w & 0xa000000u32 == 0x8000000u32,
        w & 0x3fa00000u32 == 0x8000000u32,
    ensures
        spec_parse_load_store_exclusive(w) matches Ok(i) ==> i.spec_encode() == w,
{
    lemma_split_load_store_exclusive(w);
}

/// Variant and operands of a word in the load store ordered group.
pub open spec fn spec_parse_load_store_ordered(w: u32) -> Result<AArch64Inst, DecodeError> {
    let size = (w >> 30u32) & 0x3u32;
    let l = (w >> 22u32) & 0x1u32;
    let rs = (w >> 16u32) & 0x1fu32;
    let o0 = (w >> 15u32) & 0x1u32;
    let rt2 = (w >> 10u32) & 0x1fu32;
    let rn = (w >> 5u32) & 0x1fu32;
    let rt = w & 0x1fu32;
    if size == 0u32 && l == 0u32 && o0 == 1u32 && (rt2 == 31u32 && rs == 31u32) {
        Ok(AArch64Inst::Stlrb(RsRt2RnRt { rs: AArch64RegisterId::spec_gpr_or_zr(rs), rt2: rt2 as u8, rn: AArch64RegisterId::spec_gpr_or_sp(rn), rt: AArch64RegisterId::spec_gpr_or_zr(rt) }))
    } else if size == 0u32 && l == 1u32 && o0 == 1u32 && (rt2 == 31u32 && rs == 31u32) {
        Ok(AArch64Inst::Ldarb(RsRt2RnRt { rs: AArch64RegisterId::spec_gpr_or_zr(rs), rt2: rt2 as u8, rn: AArch64RegisterId::spec_gpr_or_sp(rn), rt: AArch64RegisterId::spec_gpr_or_zr(rt) }))
    } else if size == 1u32 && l == 0u32 && o0 == 1u32 && (rt2 == 31u32 && rs == 31u32) {
        Ok(AArch64Inst::Stlrh(RsRt2RnRt { rs: AArch64RegisterId::spec_gpr_or_zr(rs), rt2: rt2 as u8, rn: AArch64RegisterId::spec_gpr_or_sp(rn), rt: AArch64RegisterId::spec_gpr_or_zr(rt) }))
    } else if size == 1u32 && l == 1u32 && o0 == 1u32 && (rt2 == 31u32 && rs == 31u32) {
        Ok(AArch64Inst::Ldarh(RsRt2RnRt { rs: AArch64RegisterId::spec_gpr_or_zr(rs), rt2: rt2 as u8, rn: AArch64RegisterId::spec_gpr_or_sp(rn), rt: AArch64RegisterId::spec_gpr_or_zr(rt) }))
    } else if size == 2u32 && l == 0u32 && o0 == 1u32 && (rt2 == 31u32 && rs == 31u32) {
        Ok(AArch64Inst::StlrVar32(RsRt2RnRt { rs: AArch64RegisterId::spec_gpr_or_zr(rs), rt2: rt2 as u8, rn: AArch64RegisterId::spec_gpr_or_sp(rn), rt: AArch64RegisterId::spec_gpr_or_zr(rt) }))
    } else if size == 2u32 && l == 1u32 && o0 == 1u32 && (rt2 == 31u32 && rs == 31u32) {
        Ok(AArch64Inst::LdarVar32(RsRt2RnRt { rs: AArch64RegisterId::spec_gpr_or_zr(rs), rt2: rt2 as u8, rn: AArch64RegisterId::spec_gpr_or_sp(rn), rt: AArch64RegisterId::spec_gpr_or_zr(rt) }))
    } else if size == 3u32 && l == 0u32 && o0 == 1u32 && (rt2 == 31u32 && rs == 31u32) {
        Ok(AArch64Inst::StlrVar64(RsRt2RnRt { rs: AArch64RegisterId::spec_gpr_or_zr(rs), rt2: rt2 as u8, rn: AArch64RegisterId::spec_gpr_or_sp(rn), rt: AArch64RegisterId::spec_gpr_or_zr(rt) }))
    } else if size == 3u32 && l == 1u32 && o0 == 1u32 && (rt2 == 31u32 && rs == 31u32) {
        Ok(AArch64Inst::LdarVar64(RsRt2RnRt { rs: AArch64RegisterId::spec_gpr_or_zr(rs), rt2: rt2 as u8, rn: AArch64RegisterId::spec_gpr_or_sp(rn), rt: AArch64RegisterId::spec_gpr_or_zr(rt) }))
    } else {
        Err(DecodeError::UnknownInstruction { word: w })
    }
}

/// Decodes a word of the load store ordered group.
pub fn parse_load_store_ordered(w: u32) -> (r: Result<AArch64Inst, DecodeError>)
    ensures
        r == spec_parse_load_store_ordered(w),
{
    let size = (w >> 30u32) & 0x3u32;
    let l = (w >> 22u32) & 0x1u32;
    let rs = (w >> 16u32) & 0x1fu32;
    let o0 = (w >> 15u32) & 0x1u32;
    let rt2 = (w >> 10u32) & 0x1fu32;
    let rn = (w >> 5u32) & 0x1fu32;
    let rt = w & 0x1fu32;
    if size == 0u32 && l == 0u32 && o0 == 1u32 && (rt2 == 31u32 && rs == 31u32) {
        Ok(AArch64Inst::Stlrb(RsRt2RnRt { rs: AArch64RegisterId::gpr_or_zr(rs), rt2: rt2 as u8, rn: AArch64RegisterId::gpr_or_sp(rn), rt: AArch64RegisterId::gpr_or_zr(rt) }))
    } else if size == 0u32 && l == 1u32 && o0 == 1u32 && (rt2 == 31u32 && rs == 31u32) {
        Ok(AArch64Inst::Ldarb(RsRt2RnRt { rs: AArch64RegisterId::gpr_or_zr(rs), rt2: rt2 as u8, rn: AArch64RegisterId::gpr_or_sp(rn), rt: AArch64RegisterId::gpr_or_zr(rt) }))
    } else if size == 1u32 && l == 0u32 && o0 == 1u32 && (rt2 == 31u32 && rs == 31u32) {
        Ok(AArch64Inst::Stlrh(RsRt2RnRt { rs: AArch64RegisterId::gpr_or_zr(rs), rt2: rt2 as u8, rn: AArch64RegisterId::gpr_or_sp(rn), rt: AArch64RegisterId::gpr_or_zr(rt) }))
    } else if size == 1u32 && l == 1u32 && o0 == 1u32 && (rt2 == 31u32 && rs == 31u32) {
        Ok(AArch64Inst::Ldarh(RsRt2RnRt { rs: AArch64RegisterId::gpr_or_zr(rs), rt2: rt2 as u8, rn: AArch64RegisterId::gpr_or_sp(rn), rt: AArch64RegisterId::gpr_or_zr(rt) }))
    } else if size == 2u32 && l == 0u32 && o0 == 1u32 && (rt2 == 31u32 && rs == 31u32) {
        Ok(AArch64Inst::StlrVar32(RsRt2RnRt { rs: AArch64RegisterId::gpr_or_zr(rs), rt2: rt2 as u8, rn: AArch64RegisterId::gpr_or_sp(rn), rt: AArch64RegisterId::gpr_or_zr(rt) }))
    } else if size == 2u32 && l == 1u32 && o0 == 1u32 && (rt2 == 31u32 && rs == 31u32) {
        Ok(AArch64Inst::LdarVar32(RsRt2RnRt { rs: AArch64RegisterId::gpr_or_zr(rs), rt2: rt2 as u8, rn: AArch64RegisterId::gpr_or_sp(rn), rt: AArch64RegisterId::gpr_or_zr(rt) }))
    } else if size == 3u32 && l == 0u32 && o0 == 1u32 && (rt2 == 31u32 && rs == 31u32) {
        Ok(AArch64Inst::StlrVar64(RsRt2RnRt { rs: AArch64RegisterId::gpr_or_zr(rs), rt2: rt2 as u8, rn: AArch64RegisterId::gpr_or_sp(rn), rt: AArch64RegisterId::gpr_or_zr(rt) }))
    } else if size == 3u32 && l == 1u32 && o0 == 1u32 && (rt2 == 31u32 && rs == 31u32) {
        Ok(AArch64Inst::LdarVar64(RsRt2RnRt { rs: AArch64RegisterId::gpr_or_zr(rs), rt2: rt2 as u8, rn: AArch64RegisterId::gpr_or_sp(rn), rt: AArch64RegisterId::gpr_or_zr(rt) }))
    } else {
        Err(DecodeError::UnknownInstruction { word: w })
    }
}

proof fn lemma_split_load_store_ordered(w: u32)
    by (bit_vector)
    requires
        w & 0xa000000u32 == 0x8000000u32,
        w & 0x3fa00000u32 == 0x8800000u32,
    ensures
        w == enc_load_store_ordered((w >> 30u32) & 0x3u32, (w >> 22u32) & 0x1u32, (w >> 16u32) & 0x1fu32, (w >> 15u32) & 0x1u32, (w >> 10u32) & 0x1fu32, (w >> 5u32) & 0x1fu32, w & 0x1fu32),
        (w >> 30u32) & 0x3u32 <= 0x3u32,
        (w >> 22u32) & 0x1u32 <= 0x1u32,
        (w >> 16u32) & 0x1fu32 <= 0x1fu32,
        (w >> 15u32) & 0x1u32 <= 0x1u32,
        (w >> 10u32) & 0x1fu32 <= 0x1fu32,
        (w >> 5u32) & 0x1fu32 <= 0x1fu32,
        w & 0x1fu32 <= 0x1fu32,
{
}

proof fn lemma_parse_load_store_ordered_sound(w: u32)
    requires
        w & 0xa000000u32 == 0x8000000u32,
        w & 0x3fa00000u32 == 0x8800000u32,
    ensures
        spec_parse_load_store_ordered(w) matches Ok(i) ==> i.spec_encode() == w,
{
    lemma_split_load_store_ordered(w);
}

/// Variant and operands of a word in the add sub with carry group.
pub open spec fn spec_parse_add_sub_with_carry(w: u32) -> Result<AArch64Inst, DecodeError> {
    let sf_op_s = (w >> 29u32) & 0x7u32;
    let rm = (w >> 16u32) & 0x1fu32;
    let rn = (w >> 5u32) & 0x1fu32;
    let rd = w & 0x1fu32;
    if sf_op_s == 0u32 {
        Ok(AArch64Inst::AdcVar32(RmRnRd { rm: AArch64RegisterId::spec_gpr_or_zr(rm), rn: AArch64RegisterId::spec_gpr_or_zr(rn), rd: AArch64RegisterId::spec_gpr_or_zr(rd) }))
    } else if sf_op_s == 1u32 {
        Ok(AArch64Inst::AdcsVar32(RmRnRd { rm: AArch64RegisterId::spec_gpr_or_zr(rm), rn: AArch64RegisterId::spec_gpr_or_zr(rn), rd: AArch64RegisterId::spec_gpr_or_zr(rd) }))
    } else if sf_op_s == 2u32 {
        Ok(AArch64Inst::SbcVar32(RmRnRd { rm: AArch64RegisterId::spec_gpr_or_zr(rm), rn: AArch64RegisterId::spec_gpr_or_zr(rn), rd: AArch64RegisterId::spec_gpr_or_zr(rd) }))
    } else if sf_op_s == 3u32 {
        Ok(AArch64Inst::SbcsVar32(RmRnRd { rm: AArch64RegisterId::spec_gpr_or_zr(rm), rn: AArch64RegisterId::spec_gpr_or_zr(rn), rd: AArch64RegisterId::spec_gpr_or_zr(rd) }))
    } else if sf_op_s == 4u32 {
        Ok(AArch64Inst::AdcVar64(RmRnRd { rm: AArch64RegisterId::spec_gpr_or_zr(rm), rn: AArch64RegisterId::spec_gpr_or_zr(rn), rd: AArch64RegisterId::spec_gpr_or_zr(rd) }))
    } else if sf_op_s == 5u32 {
        Ok(AArch64Inst::AdcsVar64(RmRnRd { rm: AArch64RegisterId::spec_gpr_or_zr(rm), rn: AArch64RegisterId::spec_gpr_or_zr(rn), rd: AArch64RegisterId::spec_gpr_or_zr(rd) }))
    } else if sf_op_s == 6u32 {
        Ok(AArch64Inst::SbcVar64(RmRnRd { rm: AArch64RegisterId::spec_gpr_or_zr(rm), rn: AArch64RegisterId::spec_gpr_or_zr(rn), rd: AArch64RegisterId::spec_gpr_or_zr(rd) }))
    } else if sf_op_s == 7u32 {
        Ok(AArch64Inst::SbcsVar64(RmRnRd { rm: AArch64RegisterId::spec_gpr_or_zr(rm), rn: AArch64RegisterId::spec_gpr_or_zr(rn), rd: AArch64RegisterId::spec_gpr_or_zr(rd) }))
    } else {
        Err(DecodeError::UnknownInstruction { word: w })
    }
}

/// Decodes a word of the add sub with carry group.
pub fn parse_add_sub_with_carry(w: u32) -> (r: Result<AArch64Inst, DecodeError>)
    ensures
        r == spec_parse_add_sub_with_carry(w),
{
    let sf_op_s = (w >> 29u32) & 0x7u32;
    let rm = (w >> 16u32) & 0x1fu32;
    let rn = (w >> 5u32) & 0x1fu32;
    let rd = w & 0x1fu32;
    if sf_op_s == 0u32 {
        Ok(AArch64Inst::AdcVar32(RmRnRd { rm: AArch64RegisterId::gpr_or_zr(rm), rn: AArch64RegisterId::gpr_or_zr(rn), rd: AArch64RegisterId::gpr_or_zr(rd) }))
    } else if sf_op_s == 1u32 {
        Ok(AArch64Inst::AdcsVar32(RmRnRd { rm: AArch64RegisterId::gpr_or_zr(rm), rn: AArch64RegisterId::gpr_or_zr(rn), rd: AArch64RegisterId::gpr_or_zr(rd) }))
    } else if sf_op_s == 2u32 {
        Ok(AArch64Inst::SbcVar32(RmRnRd { rm: AArch64RegisterId::gpr_or_zr(rm), rn: AArch64RegisterId::gpr_or_zr(rn), rd: AArch64RegisterId::gpr_or_zr(rd) }))
    } else if sf_op_s == 3u32 {
        Ok(AArch64Inst::SbcsVar32(RmRnRd { rm: AArch64RegisterId::gpr_or_zr(rm), rn: AArch64RegisterId::gpr_or_zr(rn), rd: AArch64RegisterId::gpr_or_zr(rd) }))
    } else if sf_op_s == 4u32 {
        Ok(AArch64Inst::AdcVar64(RmRnRd { rm: AArch64RegisterId::gpr_or_zr(rm), rn: AArch64RegisterId::gpr_or_zr(rn), rd: AArch64RegisterId::gpr_or_zr(rd) }))
    } else if sf_op_s == 5u32 {
        Ok(AArch64Inst::AdcsVar64(RmRnRd { rm: AArch64RegisterId::gpr_or_zr(rm), rn: AArch64RegisterId::gpr_or_zr(rn), rd: AArch64RegisterId::gpr_or_zr(rd) }))
    } else if sf_op_s == 6u32 {
        Ok(AArch64Inst::SbcVar64(RmRnRd { rm: AArch64RegisterId::gpr_or_zr(rm), rn: AArch64RegisterId::gpr_or_zr(rn), rd: AArch64RegisterId::gpr_or_zr(rd) }))
    } else if sf_op_s == 7u32 {
        Ok(AArch64Inst::SbcsVar64(RmRnRd { rm: AArch64RegisterId::gpr_or_zr(rm), rn: AArch64RegisterId::gpr_or_zr(rn), rd: AArch64RegisterId::gpr_or_zr(rd) }))
    } else {
        Err(DecodeError::UnknownInstruction { word: w })
    }
}

proof fn lemma_split_add_sub_with_carry(w: u32)
    by (bit_vector)
    requires
        w & 0xe000000u32 == 0xa000000u32,
        w & 0x1fe0fc00u32 == 0x1a000000u32,
    ensures
        w == enc_add_sub_with_carry((w >> 29u32) & 0x7u32, (w >> 16u32) & 0x1fu32, (w >> 5u32) & 0x1fu32, w & 0x1fu32),
        (w >> 29u32) & 0x7u32 <= 0x7u32,
        (w >> 16u32) & 0x1fu32 <= 0x1fu32,
        (w >> 5u32) & 0x1fu32 <= 0x1fu32,
        w & 0x1fu32 <= 0x1fu32,
{
}

proof fn lemma_parse_add_sub_with_carry_sound(w: u32)
    requires
        w & 0xe000000u32 == 0xa000000u32,
        w & 0x1fe0fc00u32 == 0x1a000000u32,
    ensures
        spec_parse_add_sub_with_carry(w) matches Ok(i) ==> i.spec_encode() == w,
{
    lemma_split_add_sub_with_carry(w);
}

/// Variant and operands of a word in the data proc 1src group.
pub open spec fn spec_parse_data_proc_1src(w: u32) -> Result<AArch64Inst, DecodeError> {
    let sf = (w >> 31u32) & 0x1u32;
    let s = (w >> 29u32) & 0x1u32;
    let opcode2 = (w >> 16u32) & 0x1fu32;
    let opcode = (w >> 10u32) & 0x3fu32;
    let rn = (w >> 5u32) & 0x1fu32;
    let rd = w & 0x1fu32;
    if sf == 0u32 && s == 0u32 && opcode2 == 0u32 && opcode == 0u32 {
        Ok(AArch64Inst::RbitVar32(RnRd { rn: AArch64RegisterId::spec_gpr_or_zr(rn), rd: AArch64RegisterId::spec_gpr_or_zr(rd) }))
    } else if sf == 0u32 && s == 0u32 && opcode2 == 0u32 && opcode == 1u32 {
        Ok(AArch64Inst::Rev16Var32(RnRd { rn: AArch64RegisterId::spec_gpr_or_zr(rn), rd: AArch64RegisterId::spec_gpr_or_zr(rd) }))
    } else if sf == 0u32 && s == 0u32 && opcode2 == 0u32 && opcode == 2u32 {
        Ok(AArch64Inst::RevVar32(RnRd { rn: AArch64RegisterId::spec_gpr_or_zr(rn), rd: AArch64RegisterId::spec_gpr_or_zr(rd) }))
    } else if sf == 0u32 && s == 0u32 && opcode2 == 0u32 && opcode == 4u32 {
        Ok(AArch64Inst::ClzVar32(RnRd { rn: AArch64RegisterId::spec_gpr_or_zr(rn), rd: AArch64RegisterId::spec_gpr_or_zr(rd) }))
    } else if sf == 0u32 && s == 0u32 && opcode2 == 0u32 && opcode == 5u32 {
        Ok(AArch64Inst::ClsVar32(RnRd { rn: AArch64RegisterId::spec_gpr_or_zr(rn), rd: AArch64RegisterId::spec_gpr_or_zr(rd) }))
    } else if sf == 1u32 && s == 0u32 && opcode2 == 0u32 && opcode == 0u32 {
        Ok(AArch64Inst::RbitVar64(RnRd { rn: AArch64RegisterId::spec_gpr_or_zr(rn), rd: AArch64RegisterId::spec_gpr_or_zr(rd) }))
    } else if sf == 1u32 && s == 0u32 && opcode2 == 0u32 && opcode == 1u32 {
        Ok(AArch64Inst::Rev16Var64(RnRd { rn: AArch64RegisterId::spec_gpr_or_zr(rn), rd: AArch64RegisterId::spec_gpr_or_zr(rd) }))
    } else if sf == 1u32 && s == 0u32 && opcode2 == 0u32 && opcode == 2u32 {
        Ok(AArch64Inst::Rev32(RnRd { rn: AArch64RegisterId::spec_gpr_or_zr(rn), rd: AArch64RegisterId::spec_gpr_or_zr(rd) }))
    } else if sf == 1u32 && s == 0u32 && opcode2 == 0u32 && opcode == 3u32 {
        Ok(AArch64Inst::RevVar64(RnRd { rn: AArch64RegisterId::spec_gpr_or_zr(rn), rd: AArch64RegisterId::spec_gpr_or_zr(rd) }))
    } else if sf == 1u32 && s == 0u32 && opcode2 == 0u32 && opcode == 4u32 {
        Ok(AArch64Inst::ClzVar64(RnRd { rn: AArch64RegisterId::spec_gpr_or_zr(rn), rd: AArch64RegisterId::spec_gpr_or_zr(rd) }))
    } else if sf == 1u32 && s == 0u32 && opcode2 == 0u32 && opcode == 5u32 {
        Ok(AArch64Inst::ClsVar64(RnRd { rn: AArch64RegisterId::spec_gpr_or_zr(rn), rd: AArch64RegisterId::spec_gpr_or_zr(rd) }))
    } else {
        Err(DecodeError::UnknownInstruction { word: w })
    }
}

/// Decodes a word of the data proc 1src group.
pub fn parse_data_proc_1src(w: u32) -> (r: Result<AArch64Inst, DecodeError>)
    ensures
        r == spec_parse_data_proc_1src(w),
{
    let sf = (w >> 31u32) & 0x1u32;
    let s = (w >> 29u32) & 0x1u32;
    let opcode2 = (w >> 16u32) & 0x1fu32;
    let opcode = (w >> 10u32) & 0x3fu32;
    let rn = (w >> 5u32) & 0x1fu32;
    let rd = w & 0x1fu32;
    if sf == 0u32 && s == 0u32 && opcode2 == 0u32 && opcode == 0u32 {
        Ok(AArch64Inst::RbitVar32(RnRd { rn: AArch64RegisterId::gpr_or_zr(rn), rd: AArch64RegisterId::gpr_or_zr(rd) }))
    } else if sf == 0u32 && s == 0u32 && opcode2 == 0u32 && opcode == 1u32 {
        Ok(AArch64Inst::Rev16Var32(RnRd { rn: AArch64RegisterId::gpr_or_zr(rn), rd: AArch64RegisterId::gpr_or_zr(rd) }))
    } else if sf == 0u32 && s == 0u32 && opcode2 == 0u32 && opcode == 2u32 {
        Ok(AArch64Inst::RevVar32(RnRd { rn: AArch64RegisterId::gpr_or_zr(rn), rd: AArch64RegisterId::gpr_or_zr(rd) }))
    } else if sf == 0u32 && s == 0u32 && opcode2 == 0u32 && opcode == 4u32 {
        Ok(AArch64Inst::ClzVar32(RnRd { rn: AArch64RegisterId::gpr_or_zr(rn), rd: AArch64RegisterId::gpr_or_zr(rd) }))
    } else if sf == 0u32 && s == 0u32 && opcode2 == 0u32 && opcode == 5u32 {
        Ok(AArch64Inst::ClsVar32(RnRd { rn: AArch64RegisterId::gpr_or_zr(rn), rd: AArch64RegisterId::gpr_or_zr(rd) }))
    } else if sf == 1u32 && s == 0u32 && opcode2 == 0u32 && opcode == 0u32 {
        Ok(AArch64Inst::RbitVar64(RnRd { rn: AArch64RegisterId::gpr_or_zr(rn), rd: AArch64RegisterId::gpr_or_zr(rd) }))
    } else if sf == 1u32 && s == 0u32 && opcode2 == 0u32 && opcode == 1u32 {
        Ok(AArch64Inst::Rev16Var64(RnRd { rn: AArch64RegisterId::gpr_or_zr(rn), rd: AArch64RegisterId::gpr_or_zr(rd) }))
    } else if sf == 1u32 && s == 0u32 && opcode2 == 0u32 && opcode == 2u32 {
        Ok(AArch64Inst::Rev32(RnRd { rn: AArch64RegisterId::gpr_or_zr(rn), rd: AArch64RegisterId::gpr_or_zr(rd) }))
    } else if sf == 1u32 && s == 0u32 && opcode2 == 0u32 && opcode == 3u32 {
        Ok(AArch64Inst::RevVar64(RnRd { rn: AArch64RegisterId::gpr_or_zr(rn), rd: AArch64RegisterId::gpr_or_zr(rd) }))
    } else if sf == 1u32 && s == 0u32 && opcode2 == 0u32 && opcode == 4u32 {
        Ok(AArch64Inst::ClzVar64(RnRd { rn: AArch64RegisterId::gpr_or_zr(rn), rd: AArch64RegisterId::gpr_or_zr(rd) }))
    } else if sf == 1u32 && s == 0u32 && opcode2 == 0u32 && opcode == 5u32 {
        Ok(AArch64Inst::ClsVar64(RnRd { rn: AArch64RegisterId::gpr_or_zr(rn), rd: AArch64RegisterId::gpr_or_zr(rd) }))
    } else {
        Err(DecodeError::UnknownInstruction { word: w })
    }
}

proof fn lemma_split_data_proc_1src(w: u32)
    by (bit_vector)
    requires
        w & 0xe000000u32 == 0xa000000u32,
        w & 0x5fe00000u32 == 0x5ac00000u32,
    ensures
        w == enc_data_proc_1src((w >> 31u32) & 0x1u32, (w >> 29u32) & 0x1u32, (w >> 16u32) & 0x1fu32, (w >> 10u32) & 0x3fu32, (w >> 5u32) & 0x1fu32, w & 0x1fu32),
        (w >> 31u32) & 0x1u32 <= 0x1u32,
        (w >> 29u32) & 0x1u32 <= 0x1u32,
        (w >> 16u32) & 0x1fu32 <= 0x1fu32,
        (w >> 10u32) & 0x3fu32 <= 0x3fu32,
        (w >> 5u32) & 0x1fu32 <= 0x1fu32,
        w & 0x1fu32 <= 0x1fu32,
{
}

proof fn lemma_parse_data_proc_1src_sound(w: u32)
    requires
        w & 0xe000000u32 == 0xa000000u32,
        w & 0x5fe00000u32 == 0x5ac00000u32,
    ensures
        spec_parse_data_proc_1src(w) matches Ok(i) ==> i.spec_encode() == w,
{
    lemma_split_data_proc_1src(w);
}

/// Variant and operands of a word in the compare and swap group.
pub open spec fn spec_parse_compare_and_swap(w: u32) -> Result<AArch64Inst, DecodeError> {
    let size = (w >> 30u32) & 0x3u32;
    let l = (w >> 22u32) & 0x1u32;
    let rs = (w >> 16u32) & 0x1fu32;
    let o0 = (w >> 15u32) & 0x1u32;
    let rt2 = (w >> 10u32) & 0x1fu32;
    let rn = (w >> 5u32) & 0x1fu32;
    let rt = w & 0x1fu32;
    if size == 0u32 && l == 0u32 && o0 == 0u32 && rt2 == 31u32 {
        Ok(AArch64Inst::Casb(RsRnRt { rs: AArch64RegisterId::spec_gpr_or_zr(rs), rn: AArch64RegisterId::spec_gpr_or_sp(rn), rt: AArch64RegisterId::spec_gpr_or_zr(rt) }))
    } else if size == 0u32 && l == 0u32 && o0 == 1u32 && rt2 == 31u32 {
        Ok(AArch64Inst::Caslb(RsRnRt { rs: AArch64RegisterId::spec_gpr_or_zr(rs), rn: AArch64RegisterId::spec_gpr_or_sp(rn), rt: AArch64RegisterId::spec_gpr_or_zr(rt) }))
    } else if size == 0u32 && l == 1u32 && o0 == 0u32 && rt2 == 31u32 {
        Ok(AArch64Inst::Casab(RsRnRt { rs: AArch64RegisterId::spec_gpr_or_zr(rs), rn: AArch64RegisterId::spec_gpr_or_sp(rn), rt: AArch64RegisterId::spec_gpr_or_zr(rt) }))
    } else if size == 0u32 && l == 1u32 && o0 == 1u32 && rt2 == 31u32 {
        Ok(AArch64Inst::Casalb(RsRnRt { rs: AArch64RegisterId::spec_gpr_or_zr(rs), rn: AArch64RegisterId::spec_gpr_or_sp(rn), rt: AArch64RegisterId::spec_gpr_or_zr(rt) }))
    } else if size == 1u32 && l == 0u32 && o0 == 0u32 && rt2 == 31u32 {
        Ok(AArch64Inst::Cash(RsRnRt { rs: AArch64RegisterId::spec_gpr_or_zr(rs), rn: AArch64RegisterId::spec_gpr_or_sp(rn), rt: AArch64RegisterId::spec_gpr_or_zr(rt) }))
    } else if size == 1u32 && l == 0u32 && o0 == 1u32 && rt2 == 31u32 {
        Ok(AArch64Inst::Caslh(RsRnRt { rs: AArch64RegisterId::spec_gpr_or_zr(rs), rn: AArch64RegisterId::spec_gpr_or_sp(rn), rt: AArch64RegisterId::spec_gpr_or_zr(rt) }))
    } else if size == 1u32 && l == 1u32 && o0 == 0u32 && rt2 == 31u32 {
        Ok(AArch64Inst::Casah(RsRnRt { rs: AArch64RegisterId::spec_gpr_or_zr(rs), rn: AArch64RegisterId::spec_gpr_or_sp(rn), rt: AArch64RegisterId::spec_gpr_or_zr(rt) }))
    } else if size == 1u32 && l == 1u32 && o0 == 1u32 && rt2 == 31u32 {
        Ok(AArch64Inst::Casalh(RsRnRt { rs: AArch64RegisterId::spec_gpr_or_zr(rs), rn: AArch64RegisterId::spec_gpr_or_sp(rn), rt: AArch64RegisterId::spec_gpr_or_zr(rt) }))
    } else if size == 2u32 && l == 0u32 && o0 == 0u32 && rt2 == 31u32 {
        Ok(AArch64Inst::CasVar32(RsRnRt { rs: AArch64RegisterId::spec_gpr_or_zr(rs), rn: AArch64RegisterId::spec_gpr_or_sp(rn), rt: AArch64RegisterId::spec_gpr_or_zr(rt) }))
    } else if size == 2u32 && l == 0u32 && o0 == 1u32 && rt2 == 31u32 {
        Ok(AArch64Inst::CaslVar32(RsRnRt { rs: AArch64RegisterId::spec_gpr_or_zr(rs), rn: AArch64RegisterId::spec_gpr_or_sp(rn), rt: AArch64RegisterId::spec_gpr_or_zr(rt) }))
    } else if size == 2u32 && l == 1u32 && o0 == 0u32 && rt2 == 31u32 {
        Ok(AArch64Inst::CasaVar32(RsRnRt { rs: AArch64RegisterId::spec_gpr_or_zr(rs), rn: AArch64RegisterId::spec_gpr_or_sp(rn), rt: AArch64RegisterId::spec_gpr_or_zr(rt) }))
    } else if size == 2u32 && l == 1u32 && o0 == 1u32 && rt2 == 31u32 {
        Ok(AArch64Inst::CasalVar32(RsRnRt { rs: AArch64RegisterId::spec_gpr_or_zr(rs), rn: AArch64RegisterId::spec_gpr_or_sp(rn), rt: AArch64RegisterId::spec_gpr_or_zr(rt) }))
    } else if size == 3u32 && l == 0u32 && o0 == 0u32 && rt2 == 31u32 {
        Ok(AArch64Inst::CasVar64(RsRnRt { rs: AArch64RegisterId::spec_gpr_or_zr(rs), rn: AArch64RegisterId::spec_gpr_or_sp(rn), rt: AArch64RegisterId::spec_gpr_or_zr(rt) }))
    } else if size == 3u32 && l == 0u32 && o0 == 1u32 && rt2 == 31u32 {
        Ok(AArch64Inst::CaslVar64(RsRnRt { rs: AArch64RegisterId::spec_gpr_or_zr(rs), rn: AArch64RegisterId::spec_gpr_or_sp(rn), rt: AArch64RegisterId::spec_gpr_or_zr(rt) }))
    } else if size == 3u32 && l == 1u32 && o0 == 0u32 && rt2 == 31u32 {
        Ok(AArch64Inst::CasaVar64(RsRnRt { rs: AArch64RegisterId::spec_gpr_or_zr(rs), rn: AArch64RegisterId::spec_gpr_or_sp(rn), rt: AArch64RegisterId::spec_gpr_or_zr(rt) }))
    } else if size == 3u32 && l == 1u32 && o0 == 1u32 && rt2 == 31u32 {
        Ok(AArch64Inst::CasalVar64(RsRnRt { rs: AArch64RegisterId::spec_gpr_or_zr(rs), rn: AArch64RegisterId::spec_gpr_or_sp(rn), rt: AArch64RegisterId::spec_gpr_or_zr(rt) }))
    } else {
        Err(DecodeError::UnknownInstruction { word: w })
    }
}

/// Decodes a word of the compare and swap group.
pub fn parse_compare_and_swap(w: u32) -> (r: Result<AArch64Inst, DecodeError>)
    ensures
        r == spec_parse_compare_and_swap(w),
{
    let size = (w >> 30u32) & 0x3u32;
    let l = (w >> 22u32) & 0x1u32;
    let rs = (w >> 16u32) & 0x1fu32;
    let o0 = (w >> 15u32) & 0x1u32;
    let rt2 = (w >> 10u32) & 0x1fu32;
    let rn = (w >> 5u32) & 0x1fu32;
    let rt = w & 0x1fu32;
    if size == 0u32 && l == 0u32 && o0 == 0u32 && rt2 == 31u32 {
        Ok(AArch64Inst::Casb(RsRnRt { rs: AArch64RegisterId::gpr_or_zr(rs), rn: AArch64RegisterId::gpr_or_sp(rn), rt: AArch64RegisterId::gpr_or_zr(rt) }))
    } else if size == 0u32 && l == 0u32 && o0 == 1u32 && rt2 == 31u32 {
        Ok(AArch64Inst::Caslb(RsRnRt { rs: AArch64RegisterId::gpr_or_zr(rs), rn: AArch64RegisterId::gpr_or_sp(rn), rt: AArch64RegisterId::gpr_or_zr(rt) }))
    } else if size == 0u32 && l == 1u32 && o0 == 0u32 && rt2 == 31u32 {
        Ok(AArch64Inst::Casab(RsRnRt { rs: AArch64RegisterId::gpr_or_zr(rs), rn: AArch64RegisterId::gpr_or_sp(rn), rt: AArch64RegisterId::gpr_or_zr(rt) }))
    } else if size == 0u32 && l == 1u32 && o0 == 1u32 && rt2 == 31u32 {
        Ok(AArch64Inst::Casalb(RsRnRt { rs: AArch64RegisterId::gpr_or_zr(rs), rn: AArch64RegisterId::gpr_or_sp(rn), rt: AArch64RegisterId::gpr_or_zr(rt) }))
    } else if size == 1u32 && l == 0u32 && o0 == 0u32 && rt2 == 31u32 {
        Ok(AArch64Inst::Cash(RsRnRt { rs: AArch64RegisterId::gpr_or_zr(rs), rn: AArch64RegisterId::gpr_or_sp(rn), rt: AArch64RegisterId::gpr_or_zr(rt) }))
    } else if size == 1u32 && l == 0u32 && o0 == 1u32 && rt2 == 31u32 {
        Ok(AArch64Inst::Caslh(RsRnRt { rs: AArch64RegisterId::gpr_or_zr(rs), rn: AArch64RegisterId::gpr_or_sp(rn), rt: AArch64RegisterId::gpr_or_zr(rt) }))
    } else if size == 1u32 && l == 1u32 && o0 == 0u32 && rt2 == 31u32 {
        Ok(AArch64Inst::Casah(RsRnRt { rs: AArch64RegisterId::gpr_or_zr(rs), rn: AArch64RegisterId::gpr_or_sp(rn), rt: AArch64RegisterId::gpr_or_zr(rt) }))
    } else if size == 1u32 && l == 1u32 && o0 == 1u32 && rt2 == 31u32 {
        Ok(AArch64Inst::Casalh(RsRnRt { rs: AArch64RegisterId::gpr_or_zr(rs), rn: AArch64RegisterId::gpr_or_sp(rn), rt: AArch64RegisterId::gpr_or_zr(rt) }))
    } else if size == 2u32 && l == 0u32 && o0 == 0u32 && rt2 == 31u32 {
        Ok(AArch64Inst::CasVar32(RsRnRt { rs: AArch64RegisterId::gpr_or_zr(rs), rn: AArch64RegisterId::gpr_or_sp(rn), rt: AArch64RegisterId::gpr_or_zr(rt) }))
    } else if size == 2u32 && l == 0u32 && o0 == 1u32 && rt2 == 31u32 {
        Ok(AArch64Inst::CaslVar32(RsRnRt { rs: AArch64RegisterId::gpr_or_zr(rs), rn: AArch64RegisterId::gpr_or_sp(rn), rt: AArch64RegisterId::gpr_or_zr(rt) }))
    } else if size == 2u32 && l == 1u32 && o0 == 0u32 && rt2 == 31u32 {
        Ok(AArch64Inst::CasaVar32(RsRnRt { rs: AArch64RegisterId::gpr_or_zr(rs), rn: AArch64RegisterId::gpr_or_sp(rn), rt: AArch64RegisterId::gpr_or_zr(rt) }))
    } else if size == 2u32 && l == 1u32 && o0 == 1u32 && rt2 == 31u32 {
        Ok(AArch64Inst::CasalVar32(RsRnRt { rs: AArch64RegisterId::gpr_or_zr(rs), rn: AArch64RegisterId::gpr_or_sp(rn), rt: AArch64RegisterId::gpr_or_zr(rt) }))
    } else if size == 3u32 && l == 0u32 && o0 == 0u32 && rt2 == 31u32 {
        Ok(AArch64Inst::CasVar64(RsRnRt { rs: AArch64RegisterId::gpr_or_zr(rs), rn: AArch64RegisterId::gpr_or_sp(rn), rt: AArch64RegisterId::gpr_or_zr(rt) }))
    } else if size == 3u32 && l == 0u32 && o0 == 1u32 && rt2 == 31u32 {
        Ok(AArch64Inst::CaslVar64(RsRnRt { rs: AArch64RegisterId::gpr_or_zr(rs), rn: AArch64RegisterId::gpr_or_sp(rn), rt: AArch64RegisterId::gpr_or_zr(rt) }))
    } else if size == 3u32 && l == 1u32 && o0 == 0u32 && rt2 == 31u32 {
        Ok(AArch64Inst::CasaVar64(RsRnRt { rs: AArch64RegisterId::gpr_or_zr(rs), rn: AArch64RegisterId::gpr_or_sp(rn), rt: AArch64RegisterId::gpr_or_zr(rt) }))
    } else if size == 3u32 && l == 1u32 && o0 == 1u32 && rt2 == 31u32 {
        Ok(AArch64Inst::CasalVar64(RsRnRt { rs: AArch64RegisterId::gpr_or_zr(rs), rn: AArch64RegisterId::gpr_or_sp(rn), rt: AArch64RegisterId::gpr_or_zr(rt) }))
    } else {
        Err(DecodeError::UnknownInstruction { word: w })
    }
}

proof fn lemma_split_compare_and_swap(w: u32)
    by (bit_vector)
    requires
        w & 0xa000000u32 == 0x8000000u32,
        w & 0x3fa00000u32 == 0x8a00000u32,
    ensures
        w == enc_compare_and_swap((w >> 30u32) & 0x3u32, (w >> 22u32) & 0x1u32, (w >> 16u32) & 0x1fu32, (w >> 15u32) & 0x1u32, (w >> 10u32) & 0x1fu32, (w >> 5u32) & 0x1fu32, w & 0x1fu32),
        (w >> 30u32) & 0x3u32 <= 0x3u32,
        (w >> 22u32) & 0x1u32 <= 0x1u32,
        (w >> 16u32) & 0x1fu32 <= 0x1fu32,
        (w >> 15u32) & 0x1u32 <= 0x1u32,
        (w >> 10u32) & 0x1fu32 <= 0x1fu32,
        (w >> 5u32) & 0x1fu32 <= 0x1fu32,
        w & 0x1fu32 <= 0x1fu32,
{
}

proof fn lemma_parse_compare_and_swap_sound(w: u32)
    requires
        w & 0xa000000u32 == 0x8000000u32,
        w & 0x3fa00000u32 == 0x8a00000u32,
    ensures
        spec_parse_compare_and_swap(w) matches Ok(i) ==> i.spec_encode() == w,
{
    lemma_split_compare_and_swap(w);
}

/// Variant and operands of a word in the compare and swap pair group.
pub open spec fn spec_parse_compare_and_swap_pair(w: u32) -> Result<AArch64Inst, DecodeError> {
    let sz = (w >> 30u32) & 0x1u32;
    let l = (w >> 22u32) & 0x1u32;
    let rs = (w >> 16u32) & 0x1fu32;
    let o0 = (w >> 15u32) & 0x1u32;
    let rt2 = (w >> 10u32) & 0x1fu32;
    let rn = (w >> 5u32) & 0x1fu32;
    let rt = w & 0x1fu32;
    if sz == 0u32 && l == 0u32 && o0 == 0u32 && rt2 == 31u32 {
        Ok(AArch64Inst::CaspVar32(CompareAndSwapPair { rs: rs as u8, rn: AArch64RegisterId::spec_gpr_or_sp(rn), rt: rt as u8 }))
    } else if sz == 0u32 && l == 0u32 && o0 == 1u32 && rt2 == 31u32 {
        Ok(AArch64Inst::CasplVar32(CompareAndSwapPair { rs: rs as u8, rn: AArch64RegisterId::spec_gpr_or_sp(rn), rt: rt as u8 }))
    } else if sz == 0u32 && l == 1u32 && o0 == 0u32 && rt2 == 31u32 {
        Ok(AArch64Inst::CaspaVar32(CompareAndSwapPair { rs: rs as u8, rn: AArch64RegisterId::spec_gpr_or_sp(rn), rt: rt as u8 }))
    } else if sz == 0u32 && l == 1u32 && o0 == 1u32 && rt2 == 31u32 {
        Ok(AArch64Inst::CaspalVar32(CompareAndSwapPair { rs: rs as u8, rn: AArch64RegisterId::spec_gpr_or_sp(rn), rt: rt as u8 }))
    } else if sz == 1u32 && l == 0u32 && o0 == 0u32 && rt2 == 31u32 {
        Ok(AArch64Inst::CaspVar64(CompareAndSwapPair { rs: rs as u8, rn: AArch64RegisterId::spec_gpr_or_sp(rn), rt: rt as u8 }))
    } else if sz == 1u32 && l == 0u32 && o0 == 1u32 && rt2 == 31u32 {
        Ok(AArch64Inst::CasplVar64(CompareAndSwapPair { rs: rs as u8, rn: AArch64RegisterId::spec_gpr_or_sp(rn), rt: rt as u8 }))
    } else if sz == 1u32 && l == 1u32 && o0 == 0u32 && rt2 == 31u32 {
        Ok(AArch64Inst::CaspaVar64(CompareAndSwapPair { rs: rs as u8, rn: AArch64RegisterId::spec_gpr_or_sp(rn), rt: rt as u8 }))
    } else if sz == 1u32 && l == 1u32 && o0 == 1u32 && rt2 == 31u32 {
        Ok(AArch64Inst::CaspalVar64(CompareAndSwapPair { rs: rs as u8, rn: AArch64RegisterId::spec_gpr_or_sp(rn), rt: rt as u8 }))
    } else {
        Err(DecodeError::UnknownInstruction { word: w })
    }
}

/// Decodes a word of the compare and swap pair group.
pub fn parse_compare_and_swap_pair(w: u32) -> (r: Result<AArch64Inst, DecodeError>)
    ensures
        r == spec_parse_compare_and_swap_pair(w),
{
    let sz = (w >> 30u32) & 0x1u32;
    let l = (w >> 22u32) & 0x1u32;
    let rs = (w >> 16u32) & 0x1fu32;
    let o0 = (w >> 15u32) & 0x1u32;
    let rt2 = (w >> 10u32) & 0x1fu32;
    let rn = (w >> 5u32) & 0x1fu32;
    let rt = w & 0x1fu32;
    if sz == 0u32 && l == 0u32 && o0 == 0u32 && rt2 == 31u32 {
        Ok(AArch64Inst::CaspVar32(CompareAndSwapPair { rs: rs as u8, rn: AArch64RegisterId::gpr_or_sp(rn), rt: rt as u8 }))
    } else if sz == 0u32 && l == 0u32 && o0 == 1u32 && rt2 == 31u32 {
        Ok(AArch64Inst::CasplVar32(CompareAndSwapPair { rs: rs as u8, rn: AArch64RegisterId::gpr_or_sp(rn), rt: rt as u8 }))
    } else if sz == 0u32 && l == 1u32 && o0 == 0u32 && rt2 == 31u32 {
        Ok(AArch64Inst::CaspaVar32(CompareAndSwapPair { rs: rs as u8, rn: AArch64RegisterId::gpr_or_sp(rn), rt: rt as u8 }))
    } else if sz == 0u32 && l == 1u32 && o0 == 1u32 && rt2 == 31u32 {
        Ok(AArch64Inst::CaspalVar32(CompareAndSwapPair { rs: rs as u8, rn: AArch64RegisterId::gpr_or_sp(rn), rt: rt as u8 }))
    } else if sz == 1u32 && l == 0u32 && o0 == 0u32 && rt2 == 31u32 {
        Ok(AArch64Inst::CaspVar64(CompareAndSwapPair { rs: rs as u8, rn: AArch64RegisterId::gpr_or_sp(rn), rt: rt as u8 }))
    } else if sz == 1u32 && l == 0u32 && o0 == 1u32 && rt2 == 31u32 {
        Ok(AArch64Inst::CasplVar64(CompareAndSwapPair { rs: rs as u8, rn: AArch64RegisterId::gpr_or_sp(rn), rt: rt as u8 }))
    } else if sz == 1u32 && l == 1u32 && o0 == 0u32 && rt2 == 31u32 {
        Ok(AArch64Inst::CaspaVar64(CompareAndSwapPair { rs: rs as u8, rn: AArch64RegisterId::gpr_or_sp(rn), rt: rt as u8 }))
    } else if sz == 1u32 && l == 1u32 && o0 == 1u32 && rt2 == 31u32 {
        Ok(AArch64Inst::CaspalVar64(CompareAndSwapPair { rs: rs as u8, rn: AArch64RegisterId::gpr_or_sp(rn), rt: rt as u8 }))
    } else {
        Err(DecodeError::UnknownInstruction { word: w })
    }
}

proof fn lemma_split_compare_and_swap_pair(w: u32)
    by (bit_vector)
    requires
        w & 0xa000000u32 == 0x8000000u32,
        w & 0xbfa00000u32 == 0x8200000u32,
    ensures
        w == enc_compare_and_swap_pair((w >> 30u32) & 0x1u32, (w >> 22u32) & 0x1u32, (w >> 16u32) & 0x1fu32, (w >> 15u32) & 0x1u32, (w >> 10u32) & 0x1fu32, (w >> 5u32) & 0x1fu32, w & 0x1fu32),
        (w >> 30u32) & 0x1u32 <= 0x1u32,
        (w >> 22u32) & 0x1u32 <= 0x1u32,
        (w >> 16u32) & 0x1fu32 <= 0x1fu32,
        (w >> 15u32) & 0x1u32 <= 0x1u32,
        (w >> 10u32) & 0x1fu32 <= 0x1fu32,
        (w >> 5u32) & 0x1fu32 <= 0x1fu32,
        w & 0x1fu32 <= 0x1fu32,
{
}

proof fn lemma_parse_compare_and_swap_pair_sound(w: u32)
    requires
        w & 0xa000000u32 == 0x8000000u32,
        w & 0xbfa00000u32 == 0x8200000u32,
    ensures
        spec_parse_compare_and_swap_pair(w) matches Ok(i) ==> i.spec_encode() == w,
{
    lemma_split_compare_and_swap_pair(w);
}

/// Variant and operands of a word in the load store no alloc pair group.
pub open spec fn spec_parse_load_store_no_alloc_pair(w: u32) -> Result<AArch64Inst, DecodeError> {
    let opc = (w >> 30u32) & 0x3u32;
    let v = (w >> 26u32) & 0x1u32;
    let l = (w >> 22u32) & 0x1u32;
    let imm7 = (w >> 15u32) & 0x7fu32;
    let rt2 = (w >> 10u32) & 0x1fu32;
    let rn = (w >> 5u32) & 0x1fu32;
    let rt = w & 0x1fu32;
    if opc == 0u32 && v == 0u32 && l == 0u32 {
        Ok(AArch64Inst::StnpVar32(LdStNoAllocPairOffset { imm7: imm7 as u8, rt2: AArch64RegisterId::spec_gpr_or_zr(rt2), rn: AArch64RegisterId::spec_gpr_or_sp(rn), rt: AArch64RegisterId::spec_gpr_or_zr(rt) }))
    } else if opc == 0u32 && v == 0u32 && l == 1u32 {
        Ok(AArch64Inst::LdnpVar32(LdStNoAllocPairOffset { imm7: imm7 as u8, rt2: AArch64RegisterId::spec_gpr_or_zr(rt2), rn: AArch64RegisterId::spec_gpr_or_sp(rn), rt: AArch64RegisterId::spec_gpr_or_zr(rt) }))
    } else if opc == 0u32 && v == 1u32 && l == 0u32 {
        Ok(AArch64Inst::StnpSimdFPVar32(LdStNoAllocPairOffset { imm7: imm7 as u8, rt2: AArch64RegisterId::spec_fpr(rt2), rn: AArch64RegisterId::spec_gpr_or_sp(rn), rt: AArch64RegisterId::spec_fpr(rt) }))
    } else if opc == 0u32 && v == 1u32 && l == 1u32 {
        Ok(AArch64Inst::LdnpSimdFPVar32(LdStNoAllocPairOffset { imm7: imm7 as u8, rt2: AArch64RegisterId::spec_fpr(rt2), rn: AArch64RegisterId::spec_gpr_or_sp(rn), rt: AArch64RegisterId::spec_fpr(rt) }))
    } else if opc == 1u32 && v == 1u32 && l == 0u32 {
        Ok(AArch64Inst::StnpSimdFPVar64(LdStNoAllocPairOffset { imm7: imm7 as u8, rt2: AArch64RegisterId::spec_fpr(rt2), rn: AArch64RegisterId::spec_gpr_or_sp(rn), rt: AArch64RegisterId::spec_fpr(rt) }))
    } else if opc == 1u32 && v == 1u32 && l == 1u32 {
        Ok(AArch64Inst::LdnpSimdFPVar64(LdStNoAllocPairOffset { imm7: imm7 as u8, rt2: AArch64RegisterId::spec_fpr(rt2), rn: AArch64RegisterId::spec_gpr_or_sp(rn), rt: AArch64RegisterId::spec_fpr(rt) }))
    } else if opc == 2u32 && v == 0u32 && l == 0u32 {
        Ok(AArch64Inst::StnpVar64(LdStNoAllocPairOffset { imm7: imm7 as u8, rt2: AArch64RegisterId::spec_gpr_or_zr(rt2), rn: AArch64RegisterId::spec_gpr_or_sp(rn), rt: AArch64RegisterId::spec_gpr_or_zr(rt) }))
    } else if opc == 2u32 && v == 0u32 && l == 1u32 {
        Ok(AArch64Inst::LdnpVar64(LdStNoAllocPairOffset { imm7: imm7 as u8, rt2: AArch64RegisterId::spec_gpr_or_zr(rt2), rn: AArch64RegisterId::spec_gpr_or_sp(rn), rt: AArch64RegisterId::spec_gpr_or_zr(rt) }))
    } else if opc == 2u32 && v == 1u32 && l == 0u32 {
        Ok(AArch64Inst::StnpSimdFPVar128(LdStNoAllocPairOffset { imm7: imm7 as u8, rt2: AArch64RegisterId::spec_fpr(rt2), rn: AArch64RegisterId::spec_gpr_or_sp(rn), rt: AArch64RegisterId::spec_fpr(rt) }))
    } else if opc == 2u32 && v == 1u32 && l == 1u32 {
        Ok(AArch64Inst::LdnpSimdFPVar128(LdStNoAllocPairOffset { imm7: imm7 as u8, rt2: AArch64RegisterId::spec_fpr(rt2), rn: AArch64RegisterId::spec_gpr_or_sp(rn), rt: AArch64RegisterId::spec_fpr(rt) }))
    } else {
        Err(DecodeError::UnknownInstruction { word: w })
    }
}

/// Decodes a word of the load store no alloc pair group.
pub fn parse_load_store_no_alloc_pair(w: u32) -> (r: Result<AArch64Inst, DecodeError>)
    ensures
        r == spec_parse_load_store_no_alloc_pair(w),
{
    let opc = (w >> 30u32) & 0x3u32;
    let v = (w >> 26u32) & 0x1u32;
    let l = (w >> 22u32) & 0x1u32;
    let imm7 = (w >> 15u32) & 0x7fu32;
    let rt2 = (w >> 10u32) & 0x1fu32;
    let rn = (w >> 5u32) & 0x1fu32;
    let rt = w & 0x1fu32;
    if opc == 0u32 && v == 0u32 && l == 0u32 {
        Ok(AArch64Inst::StnpVar32(LdStNoAllocPairOffset { imm7: imm7 as u8, rt2: AArch64RegisterId::gpr_or_zr(rt2), rn: AArch64RegisterId::gpr_or_sp(rn), rt: AArch64RegisterId::gpr_or_zr(rt) }))
    } else if opc == 0u32 && v == 0u32 && l == 1u32 {
        Ok(AArch64Inst::LdnpVar32(LdStNoAllocPairOffset { imm7: imm7 as u8, rt2: AArch64RegisterId::gpr_or_zr(rt2), rn: AArch64RegisterId::gpr_or_sp(rn), rt: AArch64RegisterId::gpr_or_zr(rt) }))
    } else if opc == 0u32 && v == 1u32 && l == 0u32 {
        Ok(AArch64Inst::StnpSimdFPVar32(LdStNoAllocPairOffset { imm7: imm7 as u8, rt2: AArch64RegisterId::fpr(rt2), rn: AArch64RegisterId::gpr_or_sp(rn), rt: AArch64RegisterId::fpr(rt) }))
    } else if opc == 0u32 && v == 1u32 && l == 1u32 {
        Ok(AArch64Inst::LdnpSimdFPVar32(LdStNoAllocPairOffset { imm7: imm7 as u8, rt2: AArch64RegisterId::fpr(rt2), rn: AArch64RegisterId::gpr_or_sp(rn), rt: AArch64RegisterId::fpr(rt) }))
    } else if opc == 1u32 && v == 1u32 && l == 0u32 {
        Ok(AArch64Inst::StnpSimdFPVar64(LdStNoAllocPairOffset { imm7: imm7 as u8, rt2: AArch64RegisterId::fpr(rt2), rn: AArch64RegisterId::gpr_or_sp(rn), rt: AArch64RegisterId::fpr(rt) }))
    } else if opc == 1u32 && v == 1u32 && l == 1u32 {
        Ok(AArch64Inst::LdnpSimdFPVar64(LdStNoAllocPairOffset { imm7: imm7 as u8, rt2: AArch64RegisterId::fpr(rt2), rn: AArch64RegisterId::gpr_or_sp(rn), rt: AArch64RegisterId::fpr(rt) }))
    } else if opc == 2u32 && v == 0u32 && l == 0u32 {
        Ok(AArch64Inst::StnpVar64(LdStNoAllocPairOffset { imm7: imm7 as u8, rt2: AArch64RegisterId::gpr_or_zr(rt2), rn: AArch64RegisterId::gpr_or_sp(rn), rt: AArch64RegisterId::gpr_or_zr(rt) }))
    } else if opc == 2u32 && v == 0u32 && l == 1u32 {
        Ok(AArch64Inst::LdnpVar64(LdStNoAllocPairOffset { imm7: imm7 as u8, rt2: AArch64RegisterId::gpr_or_zr(rt2), rn: AArch64RegisterId::gpr_or_sp(rn), rt: AArch64RegisterId::gpr_or_zr(rt) }))
    } else if opc == 2u32 && v == 1u32 && l == 0u32 {
        Ok(AArch64Inst::StnpSimdFPVar128(LdStNoAllocPairOffset { imm7: imm7 as u8, rt2: AArch64RegisterId::fpr(rt2), rn: AArch64RegisterId::gpr_or_sp(rn), rt: AArch64RegisterId::fpr(rt) }))
    } else if opc == 2u32 && v == 1u32 && l == 1u32 {
        Ok(AArch64Inst::LdnpSimdFPVar128(LdStNoAllocPairOffset { imm7: imm7 as u8, rt2: AArch64RegisterId::fpr(rt2), rn: AArch64RegisterId::gpr_or_sp(rn), rt: AArch64RegisterId::fpr(rt) }))
    } else {
        Err(DecodeError::UnknownInstruction { word: w })
    }
}

proof fn lemma_split_load_store_no_alloc_pair(w: u32)
    by (bit_vector)
    requires
        w & 0xa000000u32 == 0x8000000u32,
        w & 0x3b800000u32 == 0x28000000u32,
    ensures
        w == enc_load_store_no_alloc_pair((w >> 30u32) & 0x3u32, (w >> 26u32) & 0x1u32, (w >> 22u32) & 0x1u32, (w >> 15u32) & 0x7fu32, (w >> 10u32) & 0x1fu32, (w >> 5u32) & 0x1fu32, w & 0x1fu32),
        (w >> 30u32) & 0x3u32 <= 0x3u32,
        (w >> 26u32) & 0x1u32 <= 0x1u32,
        (w >> 22u32) & 0x1u32 <= 0x1u32,
        (w >> 15u32) & 0x7fu32 <= 0x7fu32,
        (w >> 10u32) & 0x1fu32 <= 0x1fu32,
        (w >> 5u32) & 0x1fu32 <= 0x1fu32,
        w & 0x1fu32 <= 0x1fu32,
{
}

proof fn lemma_parse_load_store_no_alloc_pair_sound(w: u32)
    requires
        w & 0xa000000u32 == 0x8000000u32,
        w & 0x3b800000u32 == 0x28000000u32,
    ensures
        spec_parse_load_store_no_alloc_pair(w) matches Ok(i) ==> i.spec_encode() == w,
{
    lemma_split_load_store_no_alloc_pair(w);
}

/// Variant and operands of a word in the system register move group.
pub open spec fn spec_parse_system_register_move(w: u32) -> Result<AArch64Inst, DecodeError> {
    let l = (w >> 21u32) & 0x1u32;
    let o0 = (w >> 19u32) & 0x1u32;
    let op1 = (w >> 16u32) & 0x7u32;
    let crn = (w >> 12u32) & 0xfu32;
    let crm = (w >> 8u32) & 0xfu32;
    let op2 = (w >> 5u32) & 0x7u32;
    let rt = w & 0x1fu32;
    if l == 0u32 {
        Ok(AArch64Inst::MsrReg(SysRegMov { o0: o0 as u8, op1: op1 as u8, crn: crn as u8, crm: crm as u8, op2: op2 as u8, rt: AArch64RegisterId::spec_gpr_or_zr(rt) }))
    } else if l == 1u32 {
        Ok(AArch64Inst::Mrs(SysRegMov { o0: o0 as u8, op1: op1 as u8, crn: crn as u8, crm: crm as u8, op2: op2 as u8, rt: AArch64RegisterId::spec_gpr_or_zr(rt) }))
    } else {
        Err(DecodeError::UnknownInstruction { word: w })
    }
}

/// Decodes a word of the system register move group.
pub fn parse_system_register_move(w: u32) -> (r: Result<AArch64Inst, DecodeError>)
    ensures
        r == spec_parse_system_register_move(w),
{
    let l = (w >> 21u32) & 0x1u32;
    let o0 = (w >> 19u32) & 0x1u32;
    let op1 = (w >> 16u32) & 0x7u32;
    let crn = (w >> 12u32) & 0xfu32;
    let crm = (w >> 8u32) & 0xfu32;
    let op2 = (w >> 5u32) & 0x7u32;
    let rt = w & 0x1fu32;
    if l == 0u32 {
        Ok(AArch64Inst::MsrReg(SysRegMov { o0: o0 as u8, op1: op1 as u8, crn: crn as u8, crm: crm as u8, op2: op2 as u8, rt: AArch64RegisterId::gpr_or_zr(rt) }))
    } else if l == 1u32 {
        Ok(AArch64Inst::Mrs(SysRegMov { o0: o0 as u8, op1: op1 as u8, crn: crn as u8, crm: crm as u8, op2: op2 as u8, rt: AArch64RegisterId::gpr_or_zr(rt) }))
    } else {
        Err(DecodeError::UnknownInstruction { word: w })
    }
}

proof fn lemma_split_system_register_move(w: u32)
    by (bit_vector)
    requires
        w & 0x1c000000u32 == 0x14000000u32,
        w & 0xffd00000u32 == 0xd5100000u32,
    ensures
        w == enc_system_register_move((w >> 21u32) & 0x1u32, (w >> 19u32) & 0x1u32, (w >> 16u32) & 0x7u32, (w >> 12u32) & 0xfu32, (w >> 8u32) & 0xfu32, (w >> 5u32) & 0x7u32, w & 0x1fu32),
        (w >> 21u32) & 0x1u32 <= 0x1u32,
        (w >> 19u32) & 0x1u32 <= 0x1u32,
        (w >> 16u32) & 0x7u32 <= 0x7u32,
        (w >> 12u32) & 0xfu32 <= 0xfu32,
        (w >> 8u32) & 0xfu32 <= 0xfu32,
        (w >> 5u32) & 0x7u32 <= 0x7u32,
        w & 0x1fu32 <= 0x1fu32,
{
}

proof fn lemma_parse_system_register_move_sound(w: u32)
    requires
        w & 0x1c000000u32 == 0x14000000u32,
        w & 0xffd00000u32 == 0xd5100000u32,
    ensures
        spec_parse_system_register_move(w) matches Ok(i) ==> i.spec_encode() == w,
{
    lemma_split_system_register_move(w);
}

/// Variant and operands of a word in the fp compare group.
pub open spec fn spec_parse_fp_compare(w: u32) -> Result<AArch64Inst, DecodeError> {
    let m = (w >> 31u32) & 0x1u32;
    let s = (w >> 29u32) & 0x1u32;
    let ptype = (w >> 22u32) & 0x3u32;
    let rm = (w >> 16u32) & 0x1fu32;
    let op = (w >> 14u32) & 0x3u32;
    let rn = (w >> 5u32) & 0x1fu32;
    let opcode2 = w & 0x1fu32;
    if m == 0u32 && s == 0u32 && op == 0u32 && (ptype != 2u32 && (opcode2 == 0u32 || opcode2 == 8u32)) {
        Ok(AArch64Inst::Fcmp(FloatingPointCompare { ptype: ptype as u8, rm: AArch64RegisterId::spec_fpr(rm), rn: AArch64RegisterId::spec_fpr(rn), opcode2: opcode2 as u8 }))
    } else if m == 0u32 && s == 0u32 && op == 0u32 && (ptype != 2u32 && (opcode2 == 16u32 || opcode2 == 24u32)) {
        Ok(AArch64Inst::Fcmpe(FloatingPointCompare { ptype: ptype as u8, rm: AArch64RegisterId::spec_fpr(rm), rn: AArch64RegisterId::spec_fpr(rn), opcode2: opcode2 as u8 }))
    } else {
        Err(DecodeError::UnknownInstruction { word: w })
    }
}

/// Decodes a word of the fp compare group.
pub fn parse_fp_compare(w: u32) -> (r: Result<AArch64Inst, DecodeError>)
    ensures
        r == spec_parse_fp_compare(w),
{
    let m = (w >> 31u32) & 0x1u32;
    let s = (w >> 29u32) & 0x1u32;
    let ptype = (w >> 22u32) & 0x3u32;
    let rm = (w >> 16u32) & 0x1fu32;
    let op = (w >> 14u32) & 0x3u32;
    let rn = (w >> 5u32) & 0x1fu32;
    let opcode2 = w & 0x1fu32;
    if m == 0u32 && s == 0u32 && op == 0u32 && (ptype != 2u32 && (opcode2 == 0u32 || opcode2 == 8u32)) {
        Ok(AArch64Inst::Fcmp(FloatingPointCompare { ptype: ptype as u8, rm: AArch64RegisterId::fpr(rm), rn: AArch64RegisterId::fpr(rn), opcode2: opcode2 as u8 }))
    } else if m == 0u32 && s == 0u32 && op == 0u32 && (ptype != 2u32 && (opcode2 == 16u32 || opcode2 == 24u32)) {
        Ok(AArch64Inst::Fcmpe(FloatingPointCompare { ptype: ptype as u8, rm: AArch64RegisterId::fpr(rm), rn: AArch64RegisterId::fpr(rn), opcode2: opcode2 as u8 }))
    } else {
        Err(DecodeError::UnknownInstruction { word: w })
    }
}

proof fn lemma_split_fp_compare(w: u32)
    by (bit_vector)
    requires
        w & 0xe000000u32 == 0xe000000u32,
        w & 0x51203c00u32 == 0x10202000u32,
    ensures
        w == enc_fp_compare((w >> 31u32) & 0x1u32, (w >> 29u32) & 0x1u32, (w >> 22u32) & 0x3u32, (w >> 16u32) & 0x1fu32, (w >> 14u32) & 0x3u32, (w >> 5u32) & 0x1fu32, w & 0x1fu32),
        (w >> 31u32) & 0x1u32 <= 0x1u32,
        (w >> 29u32) & 0x1u32 <= 0x1u32,
        (w >> 22u32) & 0x3u32 <= 0x3u32,
        (w >> 16u32) & 0x1fu32 <= 0x1fu32,
        (w >> 14u32) & 0x3u32 <= 0x3u32,
        (w >> 5u32) & 0x1fu32 <= 0x1fu32,
        w & 0x1fu32 <= 0x1fu32,
{
}

proof fn lemma_parse_fp_compare_sound(w: u32)
    requires
        w & 0xe000000u32 == 0xe000000u32,
        w & 0x51203c00u32 == 0x10202000u32,
    ensures
        spec_parse_fp_compare(w) matches Ok(i) ==> i.spec_encode() == w,
{
    lemma_split_fp_compare(w);
}

/// Variant and operands of a word in the fp immediate group.
pub open spec fn spec_parse_fp_immediate(w: u32) -> Result<AArch64Inst, DecodeError> {
    let m = (w >> 31u32) & 0x1u32;
    let s = (w >> 29u32) & 0x1u32;
    let ptype = (w >> 22u32) & 0x3u32;
    let imm8 = (w >> 13u32) & 0xffu32;
    let imm5 = (w >> 5u32) & 0x1fu32;
    let rd = w & 0x1fu32;
    if m == 0u32 && s == 0u32 && ptype == 0u32 && imm5 == 0u32 {
        Ok(AArch64Inst::FmovScalarImmSinglePrecisionVar(FloatingPointImmediate { imm8: imm8 as u8, rd: AArch64RegisterId::spec_fpr(rd) }))
    } else if m == 0u32 && s == 0u32 && ptype == 1u32 && imm5 == 0u32 {
        Ok(AArch64Inst::FmovScalarImmDoublePrecisionVar(FloatingPointImmediate { imm8: imm8 as u8, rd: AArch64RegisterId::spec_fpr(rd) }))
    } else {
        Err(DecodeError::UnknownInstruction { word: w })
    }
}

/// Decodes a word of the fp immediate group.
pub fn parse_fp_immediate(w: u32) -> (r: Result<AArch64Inst, DecodeError>)
    ensures
        r == spec_parse_fp_immediate(w),
{
    let m = (w >> 31u32) & 0x1u32;
    let s = (w >> 29u32) & 0x1u32;
    let ptype = (w >> 22u32) & 0x3u32;
    let imm8 = (w >> 13u32) & 0xffu32;
    let imm5 = (w >> 5u32) & 0x1fu32;
    let rd = w & 0x1fu32;
    if m == 0u32 && s == 0u32 && ptype == 0u32 && imm5 == 0u32 {
        Ok(AArch64Inst::FmovScalarImmSinglePrecisionVar(FloatingPointImmediate { imm8: imm8 as u8, rd: AArch64RegisterId::fpr(rd) }))
    } else if m == 0u32 && s == 0u32 && ptype == 1u32 && imm5 == 0u32 {
        Ok(AArch64Inst::FmovScalarImmDoublePrecisionVar(FloatingPointImmediate { imm8: imm8 as u8, rd: AArch64RegisterId::fpr(rd) }))
    } else {
        Err(DecodeError::UnknownInstruction { word: w })
    }
}

proof fn lemma_split_fp_immediate(w: u32)
    by (bit_vector)
    requires
        w & 0xe000000u32 == 0xe000000u32,
        w & 0x51201c00u32 == 0x10201000u32,
    ensures
        w == enc_fp_immediate((w >> 31u32) & 0x1u32, (w >> 29u32) & 0x1u32, (w >> 22u32) & 0x3u32, (w >> 13u32) & 0xffu32, (w >> 5u32) & 0x1fu32, w & 0x1fu32),
        (w >> 31u32) & 0x1u32 <= 0x1u32,
        (w >> 29u32) & 0x1u32 <= 0x1u32,
        (w >> 22u32) & 0x3u32 <= 0x3u32,
        (w >> 13u32) & 0xffu32 <= 0xffu32,
        (w >> 5u32) & 0x1fu32 <= 0x1fu32,
        w & 0x1fu32 <= 0x1fu32,
{
}

proof fn lemma_parse_fp_immediate_sound(w: u32)
    requires
        w & 0xe000000u32 == 0xe000000u32,
        w & 0x51201c00u32 == 0x10201000u32,
    ensures
        spec_parse_fp_immediate(w) matches Ok(i) ==> i.spec_encode() == w,
{
    lemma_split_fp_immediate(w);
}

/// Variant and operands of a word of the data processing (immediate) class.

pub open spec fn spec_parse_aarch64_d_p_i(w: u32) -> Result<AArch64Inst, DecodeError> {
    if w & 0x1f000000u32 == 0x10000000u32 {
        spec_parse_pc_rel_addressing(w)
    } else if w & 0x1f800000u32 == 0x11000000u32 {
        spec_parse_add_sub_immediate(w)
    } else if w & 0x1f800000u32 == 0x11800000u32 {
        spec_parse_add_sub_imm_with_tags(w)
    } else if w & 0x1f800000u32 == 0x12000000u32 {
        spec_parse_logical_imm(w)
    } else if w & 0x1f800000u32 == 0x12800000u32 {
        spec_parse_move_wide_imm(w)
    } else if w & 0x1f800000u32 == 0x13000000u32 {
        spec_parse_bitfield(w)
    } else if w & 0x1f800000u32 == 0x13800000u32 {
        spec_parse_extract(w)
    } else {
        Err(DecodeError::UnknownInstruction { word: w })
    }
}

/// Decodes a word of the data processing (immediate) class.

pub fn parse_aarch64_d_p_i(w: u32) -> (r: Result<AArch64Inst, DecodeError>)
    ensures
        r == spec_parse_aarch64_d_p_i(w),
{
    if w & 0x1f000000u32 == 0x10000000u32 {
        parse_pc_rel_addressing(w)
    } else if w & 0x1f800000u32 == 0x11000000u32 {
        parse_add_sub_immediate(w)
    } else if w & 0x1f800000u32 == 0x11800000u32 {
        parse_add_sub_imm_with_tags(w)
    } else if w & 0x1f800000u32 == 0x12000000u32 {
        parse_logical_imm(w)
    } else if w & 0x1f800000u32 == 0x12800000u32 {
        parse_move_wide_imm(w)
    } else if w & 0x1f800000u32 == 0x13000000u32 {
        parse_bitfield(w)
    } else if w & 0x1f800000u32 == 0x13800000u32 {
        parse_extract(w)
    } else {
        Err(DecodeError::UnknownInstruction { word: w })
    }
}

proof fn lemma_parse_aarch64_d_p_i_sound(w: u32)
    requires
        w & 0x1c000000u32 == 0x10000000u32,
    ensures
        spec_parse_aarch64_d_p_i(w) matches Ok(i) ==> i.spec_encode() == w,
{
    if w & 0x1f000000u32 == 0x10000000u32 {
        lemma_parse_pc_rel_addressing_sound(w);
    }
    if w & 0x1f800000u32 == 0x11000000u32 {
        lemma_parse_add_sub_immediate_sound(w);
    }
    if w & 0x1f800000u32 == 0x11800000u32 {
        lemma_parse_add_sub_imm_with_tags_sound(w);
    }
    if w & 0x1f800000u32 == 0x12000000u32 {
        lemma_parse_logical_imm_sound(w);
    }
    if w & 0x1f800000u32 == 0x12800000u32 {
        lemma_parse_move_wide_imm_sound(w);
    }
    if w & 0x1f800000u32 == 0x13000000u32 {
        lemma_parse_bitfield_sound(w);
    }
    if w & 0x1f800000u32 == 0x13800000u32 {
        lemma_parse_extract_sound(w);
    }
}

/// Variant and operands of a word of the branch, exception generation and system class.

pub open spec fn spec_parse_aarch64_branches_exception_gen_and_sys_instr(w: u32) -> Result<AArch64Inst, DecodeError> {
    if w & 0xfe000000u32 == 0x54000000u32 {
        spec_parse_cond_branch_imm(w)
    } else if w & 0xff000000u32 == 0xd4000000u32 {
        spec_parse_exception_gen(w)
    } else if w & 0xfffff000u32 == 0xd5031000u32 {
        Err(DecodeError::UnknownInstruction { word: w })
    } else if w & 0xfffff01fu32 == 0xd503201fu32 {
        spec_parse_hints(w)
    } else if w & 0xfffff000u32 == 0xd5033000u32 {
        spec_parse_barriers(w)
    } else if w & 0xfff8f000u32 == 0xd5004000u32 {
        Err(DecodeError::UnknownInstruction { word: w })
    } else if w & 0xfff80000u32 == 0xd5200000u32 {
        Err(DecodeError::UnknownInstruction { word: w })
    } else if w & 0xffd80000u32 == 0xd5080000u32 {
        Err(DecodeError::UnknownInstruction { word: w })
    } else if w & 0xffd00000u32 == 0xd5100000u32 {
        spec_parse_system_register_move(w)
    } else if w & 0xfe000000u32 == 0xd6000000u32 {
        spec_parse_uncond_branch_reg(w)
    } else if w & 0x7c000000u32 == 0x14000000u32 {
        spec_parse_uncond_branch_imm(w)
    } else if w & 0x7e000000u32 == 0x34000000u32 {
        spec_parse_cmp_and_branch_imm(w)
    } else if w & 0x7e000000u32 == 0x36000000u32 {
        spec_parse_test_and_branch_imm(w)
    } else {
        Err(DecodeError::UnknownInstruction { word: w })
    }
}

/// Decodes a word of the branch, exception generation and system class.

pub fn parse_aarch64_branches_exception_gen_and_sys_instr(w: u32) -> (r: Result<AArch64Inst, DecodeError>)
    ensures
        r == spec_parse_aarch64_branches_exception_gen_and_sys_instr(w),
{
    if w & 0xfe000000u32 == 0x54000000u32 {
        parse_cond_branch_imm(w)
    } else if w & 0xff000000u32 == 0xd4000000u32 {
        parse_exception_gen(w)
    } else if w & 0xfffff000u32 == 0xd5031000u32 {
        Err(DecodeError::UnknownInstruction { word: w })
    } else if w & 0xfffff01fu32 == 0xd503201fu32 {
        parse_hints(w)
    } else if w & 0xfffff000u32 == 0xd5033000u32 {
        parse_barriers(w)
    } else if w & 0xfff8f000u32 == 0xd5004000u32 {
        Err(DecodeError::UnknownInstruction { word: w })
    } else if w & 0xfff80000u32 == 0xd5200000u32 {
        Err(DecodeError::UnknownInstruction { word: w })
    } else if w & 0xffd80000u32 == 0xd5080000u32 {
        Err(DecodeError::UnknownInstruction { word: w })
    } else if w & 0xffd00000u32 == 0xd5100000u32 {
        parse_system_register_move(w)
    } else if w & 0xfe000000u32 == 0xd6000000u32 {
        parse_uncond_branch_reg(w)
    } else if w & 0x7c000000u32 == 0x14000000u32 {
        parse_uncond_branch_imm(w)
    } else if w & 0x7e000000u32 == 0x34000000u32 {
        parse_cmp_and_branch_imm(w)
    } else if w & 0x7e000000u32 == 0x36000000u32 {
        parse_test_and_branch_imm(w)
    } else {
        Err(DecodeError::UnknownInstruction { word: w })
    }
}

proof fn lemma_parse_aarch64_branches_exception_gen_and_sys_instr_sound(w: u32)
    requires
        w & 0x1c000000u32 == 0x14000000u32,
    ensures
        spec_parse_aarch64_branches_exception_gen_and_sys_instr(w) matches Ok(i) ==> i.spec_encode() == w,
{
    if w & 0xfe000000u32 == 0x54000000u32 {
        lemma_parse_cond_branch_imm_sound(w);
    }
    if w & 0xff000000u32 == 0xd4000000u32 {
        lemma_parse_exception_gen_sound(w);
    }
    if w & 0xfffff01fu32 == 0xd503201fu32 {
        lemma_parse_hints_sound(w);
    }
    if w & 0xfffff000u32 == 0xd5033000u32 {
        lemma_parse_barriers_sound(w);
    }
    if w & 0xffd00000u32 == 0xd5100000u32 {
        lemma_parse_system_register_move_sound(w);
    }
    if w & 0xfe000000u32 == 0xd6000000u32 {
        lemma_parse_uncond_branch_reg_sound(w);
    }
    if w & 0x7c000000u32 == 0x14000000u32 {
        lemma_parse_uncond_branch_imm_sound(w);
    }
    if w & 0x7e000000u32 == 0x34000000u32 {
        lemma_parse_cmp_and_branch_imm_sound(w);
    }
    if w & 0x7e000000u32 == 0x36000000u32 {
        lemma_parse_test_and_branch_imm_sound(w);
    }
}

/// Variant and operands of a word of the load and store class.

pub open spec fn spec_parse_aarch64_load_and_stores(w: u32) -> Result<AArch64Inst, DecodeError> {
    if w & 0xbfa00000u32 == 0x8200000u32 {
        spec_parse_compare_and_swap_pair(w)
    } else if w & 0xbfbf0000u32 == 0xc000000u32 {
        Err(DecodeError::UnknownInstruction { word: w })
    } else if w & 0xbfa00000u32 == 0xc800000u32 {
        Err(DecodeError::UnknownInstruction { word: w })
    } else if w & 0xbf9f0000u32 == 0xd000000u32 {
        Err(DecodeError::UnknownInstruction { word: w })
    } else if w & 0xbf800000u32 == 0xd800000u32 {
        Err(DecodeError::UnknownInstruction { word: w })
    } else if w & 0xff200000u32 == 0xd9200000u32 {
        Err(DecodeError::UnknownInstruction { word: w })
    } else if w & 0xbfa00000u32 == 0x88200000u32 {
        Err(DecodeError::UnknownInstruction { word: w })
    } else if w & 0x3fa00000u32 == 0x8000000u32 {
        spec_parse_load_store_exclusive(w)
    } else if w & 0x3fa00000u32 == 0x8800000u32 {
        spec_parse_load_store_ordered(w)
    } else if w & 0x3fa00000u32 == 0x8a00000u32 {
        spec_parse_compare_and_swap(w)
    } else if w & 0x3f200c00u32 == 0x19000000u32 {
        Err(DecodeError::UnknownInstruction { word: w })
    } else if w & 0x3b000000u32 == 0x18000000u32 {
        spec_parse_load_reg_literal(w)
    } else if w & 0x3b200c00u32 == 0x19000400u32 {
        Err(DecodeError::UnknownInstruction { word: w })
    } else if w & 0x3b800000u32 == 0x28000000u32 {
        spec_parse_load_store_no_alloc_pair(w)
    } else if w & 0x3a000000u32 == 0x28000000u32 {
        spec_parse_load_store_reg_pair_offset(w)
    } else if w & 0x3b200000u32 == 0x38000000u32 {
        spec_parse_load_store_reg_imm9(w)
    } else if w & 0x3b200c00u32 == 0x38200000u32 {
        Err(DecodeError::UnknownInstruction { word: w })
    } else if w & 0x3b200c00u32 == 0x38200800u32 {
        spec_parse_load_store_reg_reg_offset(w)
    } else if w & 0x3b200400u32 == 0x38200400u32 {
        Err(DecodeError::UnknownInstruction { word: w })
    } else if w & 0x3b000000u32 == 0x39000000u32 {
        spec_parse_load_store_reg_unsigned_imm(w)
    } else {
        Err(DecodeError::UnknownInstruction { word: w })
    }
}

/// Decodes a word of the load and store class.

pub fn parse_aarch64_load_and_stores(w: u32) -> (r: Result<AArch64Inst, DecodeError>)
    ensures
        r == spec_parse_aarch64_load_and_stores(w),
{
    if w & 0xbfa00000u32 == 0x8200000u32 {
        parse_compare_and_swap_pair(w)
    } else if w & 0xbfbf0000u32 == 0xc000000u32 {
        Err(DecodeError::UnknownInstruction { word: w })
    } else if w & 0xbfa00000u32 == 0xc800000u32 {
        Err(DecodeError::UnknownInstruction { word: w })
    } else if w & 0xbf9f0000u32 == 0xd000000u32 {
        Err(DecodeError::UnknownInstruction { word: w })
    } else if w & 0xbf800000u32 == 0xd800000u32 {
        Err(DecodeError::UnknownInstruction { word: w })
    } else if w & 0xff200000u32 == 0xd9200000u32 {
        Err(DecodeError::UnknownInstruction { word: w })
    } else if w & 0xbfa00000u32 == 0x88200000u32 {
        Err(DecodeError::UnknownInstruction { word: w })
    } else if w & 0x3fa00000u32 == 0x8000000u32 {
        parse_load_store_exclusive(w)
    } else if w & 0x3fa00000u32 == 0x8800000u32 {
        parse_load_store_ordered(w)
    } else if w & 0x3fa00000u32 == 0x8a00000u32 {
        parse_compare_and_swap(w)
    } else if w & 0x3f200c00u32 == 0x19000000u32 {
        Err(DecodeError::UnknownInstruction { word: w })
    } else if w & 0x3b000000u32 == 0x18000000u32 {
        parse_load_reg_literal(w)
    } else if w & 0x3b200c00u32 == 0x19000400u32 {
        Err(DecodeError::UnknownInstruction { word: w })
    } else if w & 0x3b800000u32 == 0x28000000u32 {
        parse_load_store_no_alloc_pair(w)
    } else if w & 0x3a000000u32 == 0x28000000u32 {
        parse_load_store_reg_pair_offset(w)
    } else if w & 0x3b200000u32 == 0x38000000u32 {
        parse_load_store_reg_imm9(w)
    } else if w & 0x3b200c00u32 == 0x38200000u32 {
        Err(DecodeError::UnknownInstruction { word: w })
    } else if w & 0x3b200c00u32 == 0x38200800u32 {
        parse_load_store_reg_reg_offset(w)
    } else if w & 0x3b200400u32 == 0x38200400u32 {
        Err(DecodeError::UnknownInstruction { word: w })
    } else if w & 0x3b000000u32 == 0x39000000u32 {
        parse_load_store_reg_unsigned_imm(w)
    } else {
        Err(DecodeError::UnknownInstruction { word: w })
    }
}

proof fn lemma_parse_aarch64_load_and_stores_sound(w: u32)
    requires
        w & 0xa000000u32 == 0x8000000u32,
    ensures
        spec_parse_aarch64_load_and_stores(w) matches Ok(i) ==> i.spec_encode() == w,
{
    if w & 0xbfa00000u32 == 0x8200000u32 {
        lemma_parse_compare_and_swap_pair_sound(w);
    }
    if w & 0x3fa00000u32 == 0x8000000u32 {
        lemma_parse_load_store_exclusive_sound(w);
    }
    if w & 0x3fa00000u32 == 0x8800000u32 {
        lemma_parse_load_store_ordered_sound(w);
    }
    if w & 0x3fa00000u32 == 0x8a00000u32 {
        lemma_parse_compare_and_swap_sound(w);
    }
    if w & 0x3b000000u32 == 0x18000000u32 {
        lemma_parse_load_reg_literal_sound(w);
    }
    if w & 0x3b800000u32 == 0x28000000u32 {
        lemma_parse_load_store_no_alloc_pair_sound(w);
    }
    if w & 0x3a000000u32 == 0x28000000u32 {
        lemma_parse_load_store_reg_pair_offset_sound(w);
    }
    if w & 0x3b200000u32 == 0x38000000u32 {
        lemma_parse_load_store_reg_imm9_sound(w);
    }
    if w & 0x3b200c00u32 == 0x38200800u32 {
        lemma_parse_load_store_reg_reg_offset_sound(w);
    }
    if w & 0x3b000000u32 == 0x39000000u32 {
        lemma_parse_load_store_reg_unsigned_imm_sound(w);
    }
}

/// Variant and operands of a word of the data processing (register) class.

pub open spec fn spec_parse_aarch64_d_p_r(w: u32) -> Result<AArch64Inst, DecodeError> {
    if w & 0x5fe00000u32 == 0x1ac00000u32 {
        spec_parse_data_proc_2src(w)
    } else if w & 0x5fe00000u32 == 0x5ac00000u32 {
        spec_parse_data_proc_1src(w)
    } else if w & 0x1f000000u32 == 0xa000000u32 {
        spec_parse_logical_shifted_register(w)
    } else if w & 0x1f200000u32 == 0xb000000u32 {
        spec_parse_add_sub_shifted_reg(w)
    } else if w & 0x1f200000u32 == 0xb200000u32 {
        spec_parse_add_sub_ext_reg(w)
    } else if w & 0x1fe0fc00u32 == 0x1a000000u32 {
        spec_parse_add_sub_with_carry(w)
    } else if w & 0x1fe07c00u32 == 0x1a000400u32 {
        Err(DecodeError::UnknownInstruction { word: w })
    } else if w & 0x1fe03c00u32 == 0x1a000800u32 {
        Err(DecodeError::UnknownInstruction { word: w })
    } else if w & 0x1fe00800u32 == 0x1a400000u32 {
        spec_parse_cond_compare_reg(w)
    } else if w & 0x1fe00800u32 == 0x1a400800u32 {
        spec_parse_cond_compare_imm(w)
    } else if w & 0x1fe00000u32 == 0x1a800000u32 {
        spec_parse_cond_sel(w)
    } else if w & 0x1f000000u32 == 0x1b000000u32 {
        spec_parse_data_proccessing_3src(w)
    } else {
        Err(DecodeError::UnknownInstruction { word: w })
    }
}

/// Decodes a word of the data processing (register) class.

pub fn parse_aarch64_d_p_r(w: u32) -> (r: Result<AArch64Inst, DecodeError>)
    ensures
        r == spec_parse_aarch64_d_p_r(w),
{
    if w & 0x5fe00000u32 == 0x1ac00000u32 {
        parse_data_proc_2src(w)
    } else if w & 0x5fe00000u32 == 0x5ac00000u32 {
        parse_data_proc_1src(w)
    } else if w & 0x1f000000u32 == 0xa000000u32 {
        parse_logical_shifted_register(w)
    } else if w & 0x1f200000u32 == 0xb000000u32 {
        parse_add_sub_shifted_reg(w)
    } else if w & 0x1f200000u32 == 0xb200000u32 {
        parse_add_sub_ext_reg(w)
    } else if w & 0x1fe0fc00u32 == 0x1a000000u32 {
        parse_add_sub_with_carry(w)
    } else if w & 0x1fe07c00u32 == 0x1a000400u32 {
        Err(DecodeError::UnknownInstruction { word: w })
    } else if w & 0x1fe03c00u32 == 0x1a000800u32 {
        Err(DecodeError::UnknownInstruction { word: w })
    } else if w & 0x1fe00800u32 == 0x1a400000u32 {
        parse_cond_compare_reg(w)
    } else if w & 0x1fe00800u32 == 0x1a400800u32 {
        parse_cond_compare_imm(w)
    } else if w & 0x1fe00000u32 == 0x1a800000u32 {
        parse_cond_sel(w)
    } else if w & 0x1f000000u32 == 0x1b000000u32 {
        parse_data_proccessing_3src(w)
    } else {
        Err(DecodeError::UnknownInstruction { word: w })
    }
}

proof fn lemma_parse_aarch64_d_p_r_sound(w: u32)
    requires
        w & 0xe000000u32 == 0xa000000u32,
    ensures
        spec_parse_aarch64_d_p_r(w) matches Ok(i) ==> i.spec_encode() == w,
{
    if w & 0x5fe00000u32 == 0x1ac00000u32 {
        lemma_parse_data_proc_2src_sound(w);
    }
    if w & 0x5fe00000u32 == 0x5ac00000u32 {
        lemma_parse_data_proc_1src_sound(w);
    }
    if w & 0x1f000000u32 == 0xa000000u32 {
        lemma_parse_logical_shifted_register_sound(w);
    }
    if w & 0x1f200000u32 == 0xb000000u32 {
        lemma_parse_add_sub_shifted_reg_sound(w);
    }
    if w & 0x1f200000u32 == 0xb200000u32 {
        lemma_parse_add_sub_ext_reg_sound(w);
    }
    if w & 0x1fe0fc00u32 == 0x1a000000u32 {
        lemma_parse_add_sub_with_carry_sound(w);
    }
    if w & 0x1fe00800u32 == 0x1a400000u32 {
        lemma_parse_cond_compare_reg_sound(w);
    }
    if w & 0x1fe00800u32 == 0x1a400800u32 {
        lemma_parse_cond_compare_imm_sound(w);
    }
    if w & 0x1fe00000u32 == 0x1a800000u32 {
        lemma_parse_cond_sel_sound(w);
    }
    if w & 0x1f000000u32 == 0x1b000000u32 {
        lemma_parse_data_proccessing_3src_sound(w);
    }
}

/// Variant and operands of a word of the data processing (SIMD and floating point) class.

pub open spec fn spec_parse_aarch64_dp_sfp_adv_simd(w: u32) -> Result<AArch64Inst, DecodeError> {
    if w & 0xf13e0c00u32 == 0x40280800u32 {
        Err(DecodeError::UnknownInstruction { word: w })
    } else if w & 0xf1208c00u32 == 0x50000000u32 {
        Err(DecodeError::UnknownInstruction { word: w })
    } else if w & 0xf13e0c00u32 == 0x50280800u32 {
        Err(DecodeError::UnknownInstruction { word: w })
    } else if w & 0xd1e08400u32 == 0x50000400u32 {
        Err(DecodeError::UnknownInstruction { word: w })
    } else if w & 0xd160c400u32 == 0x50400400u32 {
        Err(DecodeError::UnknownInstruction { word: w })
    } else if w & 0xd17e0c00u32 == 0x50780800u32 {
        Err(DecodeError::UnknownInstruction { word: w })
    } else if w & 0xd1208400u32 == 0x50008400u32 {
        Err(DecodeError::UnknownInstruction { word: w })
    } else if w & 0xd13e0c00u32 == 0x50200800u32 {
        Err(DecodeError::UnknownInstruction { word: w })
    } else if w & 0xd13e0c00u32 == 0x50300800u32 {
        Err(DecodeError::UnknownInstruction { word: w })
    } else if w & 0xd1200c00u32 == 0x50200000u32 {
        Err(DecodeError::UnknownInstruction { word: w })
    } else if w & 0xd1200400u32 == 0x50200400u32 {
        Err(DecodeError::UnknownInstruction { word: w })
    } else if w & 0xd1800400u32 == 0x51000400u32 {
        Err(DecodeError::UnknownInstruction { word: w })
    } else if w & 0xd1000400u32 == 0x51000000u32 {
        Err(DecodeError::UnknownInstruction { word: w })
    } else if w & 0xb1208c00u32 == 0x0u32 {
        Err(DecodeError::UnknownInstruction { word: w })
    } else if w & 0xb1208c00u32 == 0x800u32 {
        Err(DecodeError::UnknownInstruction { word: w })
    } else if w & 0xb1208400u32 == 0x20000000u32 {
        Err(DecodeError::UnknownInstruction { word: w })
    } else if w & 0x91e08400u32 == 0x400u32 {
        Err(DecodeError::UnknownInstruction { word: w })
    } else if w & 0x9160c400u32 == 0x400400u32 {
        Err(DecodeError::UnknownInstruction { word: w })
    } else if w & 0x917e0c00u32 == 0x780800u32 {
        Err(DecodeError::UnknownInstruction { word: w })
    } else if w & 0x91208400u32 == 0x8400u32 {
        Err(DecodeError::UnknownInstruction { word: w })
    } else if w & 0x913e0c00u32 == 0x200800u32 {
        Err(DecodeError::UnknownInstruction { word: w })
    } else if w & 0x913e0c00u32 == 0x300800u32 {
        Err(DecodeError::UnknownInstruction { word: w })
    } else if w & 0x91200c00u32 == 0x200000u32 {
        Err(DecodeError::UnknownInstruction { word: w })
    } else if w & 0x91200400u32 == 0x200400u32 {
        Err(DecodeError::UnknownInstruction { word: w })
    } else if w & 0x91800400u32 == 0x1000400u32 {
        Err(DecodeError::UnknownInstruction { word: w })
    } else if w & 0x91000400u32 == 0x1000000u32 {
        Err(DecodeError::UnknownInstruction { word: w })
    } else if w & 0xf1e0c000u32 == 0xc0408000u32 {
        Err(DecodeError::UnknownInstruction { word: w })
    } else if w & 0xf1e0b000u32 == 0xc0608000u32 {
        Err(DecodeError::UnknownInstruction { word: w })
    } else if w & 0xf1808000u32 == 0xc0000000u32 {
        Err(DecodeError::UnknownInstruction { word: w })
    } else if w & 0xf1e00000u32 == 0xc0800000u32 {
        Err(DecodeError::UnknownInstruction { word: w })
    } else if w & 0xf1fff000u32 == 0xc0c08000u32 {
        Err(DecodeError::UnknownInstruction { word: w })
    } else if w & 0x51200000u32 == 0x10000000u32 {
        Err(DecodeError::UnknownInstruction { word: w })
    } else if w & 0x5120fc00u32 == 0x10200000u32 {
        Err(DecodeError::UnknownInstruction { word: w })
    } else if w & 0x51207c00u32 == 0x10204000u32 {
        Err(DecodeError::UnknownInstruction { word: w })
    } else if w & 0x51203c00u32 == 0x10202000u32 {
        spec_parse_fp_compare(w)
    } else if w & 0x51201c00u32 == 0x10201000u32 {
        spec_parse_fp_immediate(w)
    } else if w & 0x51200c00u32 == 0x10200400u32 {
        Err(DecodeError::UnknownInstruction { word: w })
    } else if w & 0x51200c00u32 == 0x10200800u32 {
        Err(DecodeError::UnknownInstruction { word: w })
    } else if w & 0x51200c00u32 == 0x10200c00u32 {
        Err(DecodeError::UnknownInstruction { word: w })
    } else if w & 0x51000000u32 == 0x11000000u32 {
        spec_parse_fp_data_processing_3src(w)
    } else {
        Err(DecodeError::UnknownInstruction { word: w })
    }
}

/// Decodes a word of the data processing (SIMD and floating point) class.

pub fn parse_aarch64_dp_sfp_adv_simd(w: u32) -> (r: Result<AArch64Inst, DecodeError>)
    ensures
        r == spec_parse_aarch64_dp_sfp_adv_simd(w),
{
    if w & 0xf13e0c00u32 == 0x40280800u32 {
        Err(DecodeError::UnknownInstruction { word: w })
    } else if w & 0xf1208c00u32 == 0x50000000u32 {
        Err(DecodeError::UnknownInstruction { word: w })
    } else if w & 0xf13e0c00u32 == 0x50280800u32 {
        Err(DecodeError::UnknownInstruction { word: w })
    } else if w & 0xd1e08400u32 == 0x50000400u32 {
        Err(DecodeError::UnknownInstruction { word: w })
    } else if w & 0xd160c400u32 == 0x50400400u32 {
        Err(DecodeError::UnknownInstruction { word: w })
    } else if w & 0xd17e0c00u32 == 0x50780800u32 {
        Err(DecodeError::UnknownInstruction { word: w })
    } else if w & 0xd1208400u32 == 0x50008400u32 {
        Err(DecodeError::UnknownInstruction { word: w })
    } else if w & 0xd13e0c00u32 == 0x50200800u32 {
        Err(DecodeError::UnknownInstruction { word: w })
    } else if w & 0xd13e0c00u32 == 0x50300800u32 {
        Err(DecodeError::UnknownInstruction { word: w })
    } else if w & 0xd1200c00u32 == 0x50200000u32 {
        Err(DecodeError::UnknownInstruction { word: w })
    } else if w & 0xd1200400u32 == 0x50200400u32 {
        Err(DecodeError::UnknownInstruction { word: w })
    } else if w & 0xd1800400u32 == 0x51000400u32 {
        Err(DecodeError::UnknownInstruction { word: w })
    } else if w & 0xd1000400u32 == 0x51000000u32 {
        Err(DecodeError::UnknownInstruction { word: w })
    } else if w & 0xb1208c00u32 == 0x0u32 {
        Err(DecodeError::UnknownInstruction { word: w })
    } else if w & 0xb1208c00u32 == 0x800u32 {
        Err(DecodeError::UnknownInstruction { word: w })
    } else if w & 0xb1208400u32 == 0x20000000u32 {
        Err(DecodeError::UnknownInstruction { word: w })
    } else if w & 0x91e08400u32 == 0x400u32 {
        Err(DecodeError::UnknownInstruction { word: w })
    } else if w & 0x9160c400u32 == 0x400400u32 {
        Err(DecodeError::UnknownInstruction { word: w })
    } else if w & 0x917e0c00u32 == 0x780800u32 {
        Err(DecodeError::UnknownInstruction { word: w })
    } else if w & 0x91208400u32 == 0x8400u32 {
        Err(DecodeError::UnknownInstruction { word: w })
    } else if w & 0x913e0c00u32 == 0x200800u32 {
        Err(DecodeError::UnknownInstruction { word: w })
    } else if w & 0x913e0c00u32 == 0x300800u32 {
        Err(DecodeError::UnknownInstruction { word: w })
    } else if w & 0x91200c00u32 == 0x200000u32 {
        Err(DecodeError::UnknownInstruction { word: w })
    } else if w & 0x91200400u32 == 0x200400u32 {
        Err(DecodeError::UnknownInstruction { word: w })
    } else if w & 0x91800400u32 == 0x1000400u32 {
        Err(DecodeError::UnknownInstruction { word: w })
    } else if w & 0x91000400u32 == 0x1000000u32 {
        Err(DecodeError::UnknownInstruction { word: w })
    } else if w & 0xf1e0c000u32 == 0xc0408000u32 {
        Err(DecodeError::UnknownInstruction { word: w })
    } else if w & 0xf1e0b000u32 == 0xc0608000u32 {
        Err(DecodeError::UnknownInstruction { word: w })
    } else if w & 0xf1808000u32 == 0xc0000000u32 {
        Err(DecodeError::UnknownInstruction { word: w })
    } else if w & 0xf1e00000u32 == 0xc0800000u32 {
        Err(DecodeError::UnknownInstruction { word: w })
    } else if w & 0xf1fff000u32 == 0xc0c08000u32 {
        Err(DecodeError::UnknownInstruction { word: w })
    } else if w & 0x51200000u32 == 0x10000000u32 {
        Err(DecodeError::UnknownInstruction { word: w })
    } else if w & 0x5120fc00u32 == 0x10200000u32 {
        Err(DecodeError::UnknownInstruction { word: w })
    } else if w & 0x51207c00u32 == 0x10204000u32 {
        Err(DecodeError::UnknownInstruction { word: w })
    } else if w & 0x51203c00u32 == 0x10202000u32 {
        parse_fp_compare(w)
    } else if w & 0x51201c00u32 == 0x10201000u32 {
        parse_fp_immediate(w)
    } else if w & 0x51200c00u32 == 0x10200400u32 {
        Err(DecodeError::UnknownInstruction { word: w })
    } else if w & 0x51200c00u32 == 0x10200800u32 {
        Err(DecodeError::UnknownInstruction { word: w })
    } else if w & 0x51200c00u32 == 0x10200c00u32 {
        Err(DecodeError::UnknownInstruction { word: w })
    } else if w & 0x51000000u32 == 0x11000000u32 {
        parse_fp_data_processing_3src(w)
    } else {
        Err(DecodeError::UnknownInstruction { word: w })
    }
}

proof fn lemma_parse_aarch64_dp_sfp_adv_simd_sound(w: u32)
    requires
        w & 0xe000000u32 == 0xe000000u32,
    ensures
        spec_parse_aarch64_dp_sfp_adv_simd(w) matches Ok(i) ==> i.spec_encode() == w,
{
    if w & 0x51203c00u32 == 0x10202000u32 {
        lemma_parse_fp_compare_sound(w);
    }
    if w & 0x51201c00u32 == 0x10201000u32 {
        lemma_parse_fp_immediate_sound(w);
    }
    if w & 0x51000000u32 == 0x11000000u32 {
        lemma_parse_fp_data_processing_3src_sound(w);
    }
}

/// The result of decoding code word `w`.
pub open spec fn spec_parse_aarch64_instr(w: u32) -> Result<AArch64Inst, DecodeError> {
    if w & 0x9e000000u32 == 0x0u32 {
        Err(DecodeError::ReservedEncoding { word: w })
    } else if w & 0x9e000000u32 == 0x80000000u32 {
        Err(DecodeError::UnknownInstruction { word: w })
    } else if w & 0x1e000000u32 == 0x4000000u32 {
        Err(DecodeError::UnknownInstruction { word: w })
    } else if w & 0x1c000000u32 == 0x10000000u32 {
        spec_parse_aarch64_d_p_i(w)
    } else if w & 0x1c000000u32 == 0x14000000u32 {
        spec_parse_aarch64_branches_exception_gen_and_sys_instr(w)
    } else if w & 0xa000000u32 == 0x8000000u32 {
        spec_parse_aarch64_load_and_stores(w)
    } else if w & 0xe000000u32 == 0xa000000u32 {
        spec_parse_aarch64_d_p_r(w)
    } else if w & 0xe000000u32 == 0xe000000u32 {
        spec_parse_aarch64_dp_sfp_adv_simd(w)
    } else {
        Err(DecodeError::UnknownInstruction { word: w })
    }
}

/// Whatever decodes from a word re-encodes to that same word.
pub proof fn lemma_decode_encode(w: u32)
    ensures
        spec_parse_aarch64_instr(w) matches Ok(i) ==> i.spec_encode() == w,
{
    if w & 0x1c000000u32 == 0x10000000u32 {
        lemma_parse_aarch64_d_p_i_sound(w);
    }
    if w & 0x1c000000u32 == 0x14000000u32 {
        lemma_parse_aarch64_branches_exception_gen_and_sys_instr_sound(w);
    }
    if w & 0xa000000u32 == 0x8000000u32 {
        lemma_parse_aarch64_load_and_stores_sound(w);
    }
    if w & 0xe000000u32 == 0xa000000u32 {
        lemma_parse_aarch64_d_p_r_sound(w);
    }
    if w & 0xe000000u32 == 0xe000000u32 {
        lemma_parse_aarch64_dp_sfp_adv_simd_sound(w);
    }
}

/// Decoding is a round trip: a decoded instruction re-encodes to a word
/// that decodes to that same instruction.
pub proof fn lemma_round_trip(w: u32)
    ensures
        spec_parse_aarch64_instr(w) matches Ok(i) ==> spec_parse_aarch64_instr(i.spec_encode()) == Ok::<
            AArch64Inst,
            DecodeError,
        >(i),
{
    lemma_decode_encode(w);
}

/// Decodes code word `w`: every word yields an instruction or an error.
pub fn parse_aarch64_instr(w: u32) -> (r: Result<AArch64Inst, DecodeError>)
    ensures
        r == spec_parse_aarch64_instr(w),
        r matches Ok(i) ==> i.spec_encode() == w,
{
    proof {
        lemma_decode_encode(w);
    }
    if w & 0x9e000000u32 == 0x0u32 {
        Err(DecodeError::ReservedEncoding { word: w })
    } else if w & 0x9e000000u32 == 0x80000000u32 {
        Err(DecodeError::UnknownInstruction { word: w })
    } else if w & 0x1e000000u32 == 0x4000000u32 {
        Err(DecodeError::UnknownInstruction { word: w })
    } else if w & 0x1c000000u32 == 0x10000000u32 {
        parse_aarch64_d_p_i(w)
    } else if w & 0x1c000000u32 == 0x14000000u32 {
        parse_aarch64_branches_exception_gen_and_sys_instr(w)
    } else if w & 0xa000000u32 == 0x8000000u32 {
        parse_aarch64_load_and_stores(w)
    } else if w & 0xe000000u32 == 0xa000000u32 {
        parse_aarch64_d_p_r(w)
    } else if w & 0xe000000u32 == 0xe000000u32 {
        parse_aarch64_dp_sfp_adv_simd(w)
    } else {
        Err(DecodeError::UnknownInstruction { word: w })
    }
}

} // verus!
