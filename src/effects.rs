use vstd::prelude::*;

use crate::cpu::{sub_flags, CpuState, ExecError, FLAG_C, FLAG_Z};
use crate::decode::spec_parse_aarch64_instr;
use crate::inst::{
    AArch64Inst, AArch64RegisterId, AddSubtractExtReg, Bitfield, DataProc2Src, DataProc3Src, DecodeError, LogicalImm, RmCondRnRd, RmRnRd, HwImm16Rd, Imm26, ShImm12RnRd, ShiftRmImm6RnRd, UncondBranchReg,
};
use crate::interp::{eval_ir, trunc, FlagPolicy};
use crate::ir::{IrType, Stmt};
use crate::lift::lifted;
use crate::vm::{exec_stmt, exec_stmts};

verus! {

/// The fields of the example code words, as the decoder reads them.
proof fn lemma_example_words()
    by (bit_vector)
    ensures
        0x91000421u32 & 0x9e000000u32 != 0x0u32,
        0x91000421u32 & 0x9e000000u32 != 0x80000000u32,
        0x91000421u32 & 0x1e000000u32 != 0x4000000u32,
        0x91000421u32 & 0x1c000000u32 == 0x10000000u32,
        0x91000421u32 & 0x1f000000u32 != 0x10000000u32,
        0x91000421u32 & 0x1f800000u32 == 0x11000000u32,
        (0x91000421u32 >> 29u32) & 0x7u32 == 4u32,
        (0x91000421u32 >> 22u32) & 0x1u32 == 0u32,
        (0x91000421u32 >> 10u32) & 0xfffu32 == 1u32,
        (0x91000421u32 >> 5u32) & 0x1fu32 == 1u32,
        0x91000421u32 & 0x1fu32 == 1u32,
        0xd2800540u32 & 0x9e000000u32 != 0x0u32,
        0xd2800540u32 & 0x9e000000u32 != 0x80000000u32,
        0xd2800540u32 & 0x1e000000u32 != 0x4000000u32,
        0xd2800540u32 & 0x1c000000u32 == 0x10000000u32,
        0xd2800540u32 & 0x1f000000u32 != 0x10000000u32,
        0xd2800540u32 & 0x1f800000u32 != 0x11000000u32,
        0xd2800540u32 & 0x1f800000u32 != 0x11800000u32,
        0xd2800540u32 & 0x1f800000u32 != 0x12000000u32,
        0xd2800540u32 & 0x1f800000u32 == 0x12800000u32,
        (0xd2800540u32 >> 29u32) & 0x7u32 == 6u32,
        (0xd2800540u32 >> 21u32) & 0x3u32 == 0u32,
        (0xd2800540u32 >> 5u32) & 0xffffu32 == 42u32,
        0xd2800540u32 & 0x1fu32 == 0u32,
        0xeb01001fu32 & 0x9e000000u32 != 0x0u32,
        0xeb01001fu32 & 0x9e000000u32 != 0x80000000u32,
        0xeb01001fu32 & 0x1e000000u32 != 0x4000000u32,
        0xeb01001fu32 & 0x1c000000u32 != 0x10000000u32,
        0xeb01001fu32 & 0x1c000000u32 != 0x14000000u32,
        0xeb01001fu32 & 0xa000000u32 != 0x8000000u32,
        0xeb01001fu32 & 0xe000000u32 == 0xa000000u32,
        0xeb01001fu32 & 0x5fe00000u32 != 0x1ac00000u32,
        0xeb01001fu32 & 0x5fe00000u32 != 0x5ac00000u32,
        0xeb01001fu32 & 0x1f000000u32 != 0xa000000u32,
        0xeb01001fu32 & 0x1f200000u32 == 0xb000000u32,
        (0xeb01001fu32 >> 29u32) & 0x7u32 == 7u32,
        (0xeb01001fu32 >> 22u32) & 0x3u32 == 0u32,
        (0xeb01001fu32 >> 16u32) & 0x1fu32 == 1u32,
        (0xeb01001fu32 >> 10u32) & 0x3fu32 == 0u32,
        (0xeb01001fu32 >> 5u32) & 0x1fu32 == 0u32,
        0xeb01001fu32 & 0x1fu32 == 31u32,
        0x14000002u32 & 0x9e000000u32 != 0x0u32,
        0x14000002u32 & 0x9e000000u32 != 0x80000000u32,
        0x14000002u32 & 0x1e000000u32 != 0x4000000u32,
        0x14000002u32 & 0x1c000000u32 != 0x10000000u32,
        0x14000002u32 & 0x1c000000u32 == 0x14000000u32,
        0x14000002u32 & 0xfe000000u32 != 0x54000000u32,
        0x14000002u32 & 0xff000000u32 != 0xd4000000u32,
        0x14000002u32 & 0xfffff000u32 != 0xd5031000u32,
        0x14000002u32 & 0xfffff01fu32 != 0xd503201fu32,
        0x14000002u32 & 0xfffff000u32 != 0xd5033000u32,
        0x14000002u32 & 0xfff8f000u32 != 0xd5004000u32,
        0x14000002u32 & 0xfff80000u32 != 0xd5200000u32,
        0x14000002u32 & 0xffd80000u32 != 0xd5080000u32,
        0x14000002u32 & 0xffd00000u32 != 0xd5100000u32,
        0x14000002u32 & 0xfe000000u32 != 0xd6000000u32,
        0x14000002u32 & 0x7c000000u32 == 0x14000000u32,
        (0x14000002u32 >> 31u32) & 0x1u32 == 0u32,
        0x14000002u32 & 0x3ffffffu32 == 2u32,
        0xd65f03c0u32 & 0x9e000000u32 != 0x0u32,
        0xd65f03c0u32 & 0x9e000000u32 != 0x80000000u32,
        0xd65f03c0u32 & 0x1e000000u32 != 0x4000000u32,
        0xd65f03c0u32 & 0x1c000000u32 != 0x10000000u32,
        0xd65f03c0u32 & 0x1c000000u32 == 0x14000000u32,
        0xd65f03c0u32 & 0xfe000000u32 != 0x54000000u32,
        0xd65f03c0u32 & 0xff000000u32 != 0xd4000000u32,
        0xd65f03c0u32 & 0xfffff000u32 != 0xd5031000u32,
        0xd65f03c0u32 & 0xfffff01fu32 != 0xd503201fu32,
        0xd65f03c0u32 & 0xfffff000u32 != 0xd5033000u32,
        0xd65f03c0u32 & 0xfff8f000u32 != 0xd5004000u32,
        0xd65f03c0u32 & 0xfff80000u32 != 0xd5200000u32,
        0xd65f03c0u32 & 0xffd80000u32 != 0xd5080000u32,
        0xd65f03c0u32 & 0xffd00000u32 != 0xd5100000u32,
        0xd65f03c0u32 & 0xfe000000u32 == 0xd6000000u32,
        (0xd65f03c0u32 >> 21u32) & 0xfu32 == 2u32,
        (0xd65f03c0u32 >> 16u32) & 0x1fu32 == 31u32,
        (0xd65f03c0u32 >> 10u32) & 0x3fu32 == 0u32,
        (0xd65f03c0u32 >> 5u32) & 0x1fu32 == 30u32,
        0xd65f03c0u32 & 0x1fu32 == 0u32,
        0x11000421u32 & 0x9e000000u32 != 0x0u32,
        0x11000421u32 & 0x9e000000u32 != 0x80000000u32,
        0x11000421u32 & 0x1e000000u32 != 0x4000000u32,
        0x11000421u32 & 0x1c000000u32 == 0x10000000u32,
        0x11000421u32 & 0x1f000000u32 != 0x10000000u32,
        0x11000421u32 & 0x1f800000u32 == 0x11000000u32,
        (0x11000421u32 >> 29u32) & 0x7u32 == 0u32,
        (0x11000421u32 >> 22u32) & 0x1u32 == 0u32,
        (0x11000421u32 >> 10u32) & 0xfffu32 == 1u32,
        (0x11000421u32 >> 5u32) & 0x1fu32 == 1u32,
        0x11000421u32 & 0x1fu32 == 1u32,
        0xaa0103e0u32 & 0x9e000000u32 != 0x0u32,
        0xaa0103e0u32 & 0x9e000000u32 != 0x80000000u32,
        0xaa0103e0u32 & 0x1e000000u32 != 0x4000000u32,
        0xaa0103e0u32 & 0x1c000000u32 != 0x10000000u32,
        0xaa0103e0u32 & 0x1c000000u32 != 0x14000000u32,
        0xaa0103e0u32 & 0xa000000u32 != 0x8000000u32,
        0xaa0103e0u32 & 0xe000000u32 == 0xa000000u32,
        0xaa0103e0u32 & 0x5fe00000u32 != 0x1ac00000u32,
        0xaa0103e0u32 & 0x5fe00000u32 != 0x5ac00000u32,
        0xaa0103e0u32 & 0x1f000000u32 == 0xa000000u32,
        (0xaa0103e0u32 >> 31u32) & 0x1u32 == 1u32,
        (0xaa0103e0u32 >> 29u32) & 0x3u32 == 1u32,
        (0xaa0103e0u32 >> 22u32) & 0x3u32 == 0u32,
        (0xaa0103e0u32 >> 21u32) & 0x1u32 == 0u32,
        (0xaa0103e0u32 >> 16u32) & 0x1fu32 == 1u32,
        (0xaa0103e0u32 >> 10u32) & 0x3fu32 == 0u32,
        (0xaa0103e0u32 >> 5u32) & 0x1fu32 == 31u32,
        0xaa0103e0u32 & 0x1fu32 == 0u32,
        (1u64 << 0u64) == 1u64,
        (42u64 << 0u64) == 42u64,
        (2u64 << 2u64) == 8u64,
        8u64 & 0x800_0000u64 == 0u64,
{
}

proof fn lemma_trunc64(x: u64)
    ensures
        trunc(IrType::U64, x as int) == x,
{
    vstd::arithmetic::div_mod::lemma_small_mod(x as nat, 0x1_0000_0000_0000_0000);
}

proof fn lemma_or_zero(x: u64)
    by (bit_vector)
    ensures
        0u64 | x == x,
{
}

/// The state after an instruction that only moves `ip` to the next instruction after changing `s`.
pub open spec fn advanced(s: CpuState) -> CpuState {
    CpuState { ip: trunc(IrType::U64, s.ip + 4), ..s }
}

proof fn lemma_run_two(a: Stmt, b: Stmt, s: CpuState, p: FlagPolicy)
    ensures
        exec_stmts(seq![a, b], s, p) == match exec_stmt(a, s, p) {
            Err(e) => Err(e),
            Ok(s1) => exec_stmt(b, s1, p),
        },
{
    reveal_with_fuel(exec_stmts, 3);
    assert(seq![a, b].drop_first() =~= seq![b]);
    assert(seq![b].drop_first() =~= Seq::<Stmt>::empty());
    match exec_stmt(a, s, p) {
        Err(e) => {},
        Ok(s1) => match exec_stmt(b, s1, p) {
            Err(e) => {},
            Ok(s2) => {},
        },
    }
}

proof fn lemma_run_one(a: Stmt, s: CpuState, p: FlagPolicy)
    ensures
        exec_stmts(seq![a], s, p) == exec_stmt(a, s, p),
{
    reveal_with_fuel(exec_stmts, 2);
    assert(seq![a].drop_first() =~= Seq::<Stmt>::empty());
}

proof fn lemma_advance(s: CpuState, p: FlagPolicy)
    ensures
        exec_stmt(crate::lift::spec_advance(), s, p) == Ok::<CpuState, crate::cpu::ExecError>(advanced(s)),
{
    reveal(exec_stmt);
    reveal(eval_ir);
    assert(CpuState { flag: s.flag, ip: trunc(IrType::U64, s.ip + 4), ..s } == advanced(s));
}

pub open spec fn example_add() -> AArch64Inst {
    AArch64Inst::AddImm64(ShImm12RnRd { sh: 0, imm12: 1, rn: AArch64RegisterId::X(1), rd: AArch64RegisterId::X(1) })
}

proof fn lemma_decodes_add()
    ensures
        spec_parse_aarch64_instr(0x91000421) == Ok::<AArch64Inst, DecodeError>(example_add()),
{
    lemma_example_words();
}

proof fn lemma_lifts_add()
    ensures
        lifted(example_add()) == seq![crate::lift::spec_arith_imm(0, IrType::U64, ShImm12RnRd { sh: 0, imm12: 1, rn: AArch64RegisterId::X(1), rd: AArch64RegisterId::X(1) }), crate::lift::spec_advance()],
{
    reveal(lifted);
}

#[verifier::spinoff_prover]
#[verifier::rlimit(40)]
proof fn lemma_runs_add(s: CpuState, p: FlagPolicy)
    ensures
        exec_stmt(crate::lift::spec_arith_imm(0, IrType::U64, ShImm12RnRd { sh: 0, imm12: 1, rn: AArch64RegisterId::X(1), rd: AArch64RegisterId::X(1) }), s, p) == Ok::<CpuState, ExecError>(s.write_gpr(IrType::U64, AArch64RegisterId::X(1), trunc(IrType::U64, s.read_reg(AArch64RegisterId::X(1)) + 1))),
{
    lemma_example_words();
    reveal(exec_stmt);
    reveal(eval_ir);
    assert(CpuState { flag: s.flag, ..s } == s);
}

/// `add x1, x1, #1` (code word `0x91000421`) adds one to `X1`, leaves the
/// flags and every other register and byte as they were, and moves to the
/// next instruction.
#[verifier::spinoff_prover]
pub proof fn lemma_example_add(s: CpuState, p: FlagPolicy)
    requires
        s.wf(),
    ensures
        spec_parse_aarch64_instr(0x91000421) == Ok::<AArch64Inst, DecodeError>(example_add()),
        exec_stmts(lifted(example_add()), s, p) == Ok::<CpuState, ExecError>(advanced(s.write_gpr(IrType::U64, AArch64RegisterId::X(1), trunc(IrType::U64, s.gprs[1] + 1)))),
{
    lemma_decodes_add();
    lemma_lifts_add();
    lemma_runs_add(s, p);
    assert(s.write_gpr(IrType::U64, AArch64RegisterId::X(1), trunc(IrType::U64, s.read_reg(AArch64RegisterId::X(1)) + 1)) == s.write_gpr(IrType::U64, AArch64RegisterId::X(1), trunc(IrType::U64, s.gprs[1] + 1)));
    lemma_run_two(crate::lift::spec_arith_imm(0, IrType::U64, ShImm12RnRd { sh: 0, imm12: 1, rn: AArch64RegisterId::X(1), rd: AArch64RegisterId::X(1) }), crate::lift::spec_advance(), s, p);
    lemma_advance(s.write_gpr(IrType::U64, AArch64RegisterId::X(1), trunc(IrType::U64, s.gprs[1] + 1)), p);
}

pub open spec fn example_movz() -> AArch64Inst {
    AArch64Inst::MovzVar64(HwImm16Rd { hw: 0, imm16: 42, rd: AArch64RegisterId::X(0) })
}

proof fn lemma_decodes_movz()
    ensures
        spec_parse_aarch64_instr(0xd2800540) == Ok::<AArch64Inst, DecodeError>(example_movz()),
{
    lemma_example_words();
}

proof fn lemma_lifts_movz()
    ensures
        lifted(example_movz()) == seq![crate::lift::spec_move_wide(1, IrType::U64, HwImm16Rd { hw: 0, imm16: 42, rd: AArch64RegisterId::X(0) }), crate::lift::spec_advance()],
{
    reveal(lifted);
}

#[verifier::spinoff_prover]
#[verifier::rlimit(40)]
proof fn lemma_runs_movz(s: CpuState, p: FlagPolicy)
    ensures
        exec_stmt(crate::lift::spec_move_wide(1, IrType::U64, HwImm16Rd { hw: 0, imm16: 42, rd: AArch64RegisterId::X(0) }), s, p) == Ok::<CpuState, ExecError>(s.write_gpr(IrType::U64, AArch64RegisterId::X(0), 42)),
{
    lemma_example_words();
    reveal(exec_stmt);
    reveal(eval_ir);
    assert(CpuState { flag: s.flag, ..s } == s);
}

/// `movz x0, #42` (code word `0xd2800540`) sets `X0` to 42, leaves the flags
/// and every other register and byte as they were, and moves to the next
/// instruction.
#[verifier::spinoff_prover]
pub proof fn lemma_example_movz(s: CpuState, p: FlagPolicy)
    requires
        s.wf(),
    ensures
        spec_parse_aarch64_instr(0xd2800540) == Ok::<AArch64Inst, DecodeError>(example_movz()),
        exec_stmts(lifted(example_movz()), s, p) == Ok::<CpuState, ExecError>(advanced(s.write_gpr(IrType::U64, AArch64RegisterId::X(0), 42))),
{
    lemma_decodes_movz();
    lemma_lifts_movz();
    lemma_runs_movz(s, p);
    lemma_run_two(crate::lift::spec_move_wide(1, IrType::U64, HwImm16Rd { hw: 0, imm16: 42, rd: AArch64RegisterId::X(0) }), crate::lift::spec_advance(), s, p);
    lemma_advance(s.write_gpr(IrType::U64, AArch64RegisterId::X(0), 42), p);
}

pub open spec fn example_cmp() -> AArch64Inst {
    AArch64Inst::SubsShiftedReg64(ShiftRmImm6RnRd { shift: 0, rm: AArch64RegisterId::X(1), imm6: 0, rn: AArch64RegisterId::X(0), rd: AArch64RegisterId::Xzr })
}

proof fn lemma_decodes_cmp()
    ensures
        spec_parse_aarch64_instr(0xeb01001f) == Ok::<AArch64Inst, DecodeError>(example_cmp()),
{
    lemma_example_words();
}

proof fn lemma_lifts_cmp()
    ensures
        lifted(example_cmp()) == seq![crate::lift::spec_arith_shifted(3, IrType::U64, ShiftRmImm6RnRd { shift: 0, rm: AArch64RegisterId::X(1), imm6: 0, rn: AArch64RegisterId::X(0), rd: AArch64RegisterId::Xzr }), crate::lift::spec_advance()],
{
    reveal(lifted);
}

#[verifier::spinoff_prover]
#[verifier::rlimit(40)]
proof fn lemma_runs_cmp(s: CpuState, p: FlagPolicy)
    requires
        p == FlagPolicy::Nzcv,
    ensures
        exec_stmt(crate::lift::spec_arith_shifted(3, IrType::U64, ShiftRmImm6RnRd { shift: 0, rm: AArch64RegisterId::X(1), imm6: 0, rn: AArch64RegisterId::X(0), rd: AArch64RegisterId::Xzr }), s, p) == Ok::<CpuState, ExecError>(CpuState { flag: sub_flags(IrType::U64, trunc(IrType::U64, s.read_reg(AArch64RegisterId::X(0)) as int), trunc(IrType::U64, s.read_reg(AArch64RegisterId::X(1)) as int)), ..s }),
{
    reveal(exec_stmt);
    reveal(eval_ir);
    assert(CpuState { flag: s.flag, ..s } == s);
}

/// `cmp x0, x1` (code word `0xeb01001f`, a flag-setting subtraction into the
/// zero register) sets the flags of `X0 - X1` and changes no register: with
/// `X0 == X1 == 5` the flags are Z and C.
#[verifier::spinoff_prover]
pub proof fn lemma_example_cmp(s: CpuState, p: FlagPolicy)
    requires
        s.wf(),
        p == FlagPolicy::Nzcv,
    ensures
        spec_parse_aarch64_instr(0xeb01001f) == Ok::<AArch64Inst, DecodeError>(example_cmp()),
        exec_stmts(lifted(example_cmp()), s, p) == Ok::<CpuState, ExecError>(advanced(CpuState { flag: sub_flags(IrType::U64, s.gprs[0], s.gprs[1]), ..s })),
        sub_flags(IrType::U64, 5, 5) == FLAG_Z + FLAG_C,
{
    lemma_decodes_cmp();
    lemma_lifts_cmp();
    lemma_runs_cmp(s, p);
    lemma_trunc64(s.gprs[0]);
    lemma_trunc64(s.gprs[1]);
    assert(CpuState { flag: sub_flags(IrType::U64, trunc(IrType::U64, s.read_reg(AArch64RegisterId::X(0)) as int), trunc(IrType::U64, s.read_reg(AArch64RegisterId::X(1)) as int)), ..s } == CpuState { flag: sub_flags(IrType::U64, s.gprs[0], s.gprs[1]), ..s });
    lemma_run_two(crate::lift::spec_arith_shifted(3, IrType::U64, ShiftRmImm6RnRd { shift: 0, rm: AArch64RegisterId::X(1), imm6: 0, rn: AArch64RegisterId::X(0), rd: AArch64RegisterId::Xzr }), crate::lift::spec_advance(), s, p);
    lemma_advance(CpuState { flag: sub_flags(IrType::U64, s.gprs[0], s.gprs[1]), ..s }, p);
}

pub open spec fn example_branch() -> AArch64Inst {
    AArch64Inst::BImm(Imm26 { imm26: 2 })
}

proof fn lemma_decodes_branch()
    ensures
        spec_parse_aarch64_instr(0x14000002) == Ok::<AArch64Inst, DecodeError>(example_branch()),
{
    lemma_example_words();
}

proof fn lemma_lifts_branch()
    ensures
        lifted(example_branch()) == seq![crate::lift::spec_branch_imm(Imm26 { imm26: 2 })],
{
    reveal(lifted);
}

#[verifier::spinoff_prover]
#[verifier::rlimit(40)]
proof fn lemma_runs_branch(s: CpuState, p: FlagPolicy)
    ensures
        exec_stmt(crate::lift::spec_branch_imm(Imm26 { imm26: 2 }), s, p) == Ok::<CpuState, ExecError>(CpuState { ip: trunc(IrType::U64, s.ip + 8), ..s }),
{
    lemma_example_words();
    reveal(exec_stmt);
    reveal(eval_ir);
    assert(CpuState { flag: s.flag, ..s } == s);
}

/// `b .+8` (code word `0x14000002`) moves `ip` eight bytes on and changes
/// nothing else.
#[verifier::spinoff_prover]
pub proof fn lemma_example_branch(s: CpuState, p: FlagPolicy)
    requires
        s.wf(),
    ensures
        spec_parse_aarch64_instr(0x14000002) == Ok::<AArch64Inst, DecodeError>(example_branch()),
        exec_stmts(lifted(example_branch()), s, p) == Ok::<CpuState, ExecError>(CpuState { ip: trunc(IrType::U64, s.ip + 8), ..s }),
{
    lemma_decodes_branch();
    lemma_lifts_branch();
    lemma_runs_branch(s, p);
    lemma_run_one(crate::lift::spec_branch_imm(Imm26 { imm26: 2 }), s, p);
}

pub open spec fn example_ret() -> AArch64Inst {
    AArch64Inst::Ret(UncondBranchReg { rn: AArch64RegisterId::X(30) })
}

proof fn lemma_decodes_ret()
    ensures
        spec_parse_aarch64_instr(0xd65f03c0) == Ok::<AArch64Inst, DecodeError>(example_ret()),
{
    lemma_example_words();
}

proof fn lemma_lifts_ret()
    ensures
        lifted(example_ret()) == seq![crate::lift::spec_branch_reg(UncondBranchReg { rn: AArch64RegisterId::X(30) })],
{
    reveal(lifted);
}

#[verifier::spinoff_prover]
#[verifier::rlimit(40)]
proof fn lemma_runs_ret(s: CpuState, p: FlagPolicy)
    ensures
        exec_stmt(crate::lift::spec_branch_reg(UncondBranchReg { rn: AArch64RegisterId::X(30) }), s, p) == Ok::<CpuState, ExecError>(CpuState { ip: trunc(IrType::U64, s.read_reg(AArch64RegisterId::X(30)) as int), ..s }),
{
    reveal(exec_stmt);
    reveal(eval_ir);
    assert(CpuState { flag: s.flag, ..s } == s);
}

/// `ret` (code word `0xd65f03c0`) moves `ip` to the address in `X30` and
/// changes nothing else.
#[verifier::spinoff_prover]
pub proof fn lemma_example_ret(s: CpuState, p: FlagPolicy)
    requires
        s.wf(),
    ensures
        spec_parse_aarch64_instr(0xd65f03c0) == Ok::<AArch64Inst, DecodeError>(example_ret()),
        exec_stmts(lifted(example_ret()), s, p) == Ok::<CpuState, ExecError>(CpuState { ip: s.gprs[30], ..s }),
{
    lemma_decodes_ret();
    lemma_lifts_ret();
    lemma_runs_ret(s, p);
    lemma_trunc64(s.gprs[30]);
    assert(CpuState { ip: trunc(IrType::U64, s.read_reg(AArch64RegisterId::X(30)) as int), ..s } == CpuState { ip: s.gprs[30], ..s });
    lemma_run_one(crate::lift::spec_branch_reg(UncondBranchReg { rn: AArch64RegisterId::X(30) }), s, p);
}

pub open spec fn example_add32() -> AArch64Inst {
    AArch64Inst::AddImm32(ShImm12RnRd { sh: 0, imm12: 1, rn: AArch64RegisterId::X(1), rd: AArch64RegisterId::X(1) })
}

proof fn lemma_decodes_add32()
    ensures
        spec_parse_aarch64_instr(0x11000421) == Ok::<AArch64Inst, DecodeError>(example_add32()),
{
    lemma_example_words();
}

proof fn lemma_lifts_add32()
    ensures
        lifted(example_add32()) == seq![crate::lift::spec_arith_imm(0, IrType::U32, ShImm12RnRd { sh: 0, imm12: 1, rn: AArch64RegisterId::X(1), rd: AArch64RegisterId::X(1) }), crate::lift::spec_advance()],
{
    reveal(lifted);
}

#[verifier::spinoff_prover]
#[verifier::rlimit(40)]
proof fn lemma_runs_add32(s: CpuState, p: FlagPolicy)
    ensures
        exec_stmt(crate::lift::spec_arith_imm(0, IrType::U32, ShImm12RnRd { sh: 0, imm12: 1, rn: AArch64RegisterId::X(1), rd: AArch64RegisterId::X(1) }), s, p) == Ok::<CpuState, ExecError>(s.write_gpr(IrType::U32, AArch64RegisterId::X(1), trunc(IrType::U32, trunc(IrType::U32, s.read_reg(AArch64RegisterId::X(1)) as int) + 1))),
{
    lemma_example_words();
    reveal(exec_stmt);
    reveal(eval_ir);
    assert(CpuState { flag: s.flag, ..s } == s);
}

/// `add w1, w1, #1` (code word `0x11000421`) writes the 32-bit sum to `X1`
/// with the upper half cleared: from `0xffff_ffff_0000_0000` it makes 1.
#[verifier::spinoff_prover]
pub proof fn lemma_example_add32(s: CpuState, p: FlagPolicy)
    requires
        s.wf(),
    ensures
        spec_parse_aarch64_instr(0x11000421) == Ok::<AArch64Inst, DecodeError>(example_add32()),
        exec_stmts(lifted(example_add32()), s, p) == Ok::<CpuState, ExecError>(advanced(s.write_gpr(IrType::U32, AArch64RegisterId::X(1), trunc(IrType::U32, trunc(IrType::U32, s.gprs[1] as int) + 1)))),
        trunc(IrType::U32, trunc(IrType::U32, 0xffff_ffff_0000_0000) + 1) == 1,
{
    lemma_decodes_add32();
    lemma_lifts_add32();
    lemma_runs_add32(s, p);
    assert(s.write_gpr(IrType::U32, AArch64RegisterId::X(1), trunc(IrType::U32, trunc(IrType::U32, s.read_reg(AArch64RegisterId::X(1)) as int) + 1)) == s.write_gpr(IrType::U32, AArch64RegisterId::X(1), trunc(IrType::U32, trunc(IrType::U32, s.gprs[1] as int) + 1)));
    lemma_run_two(crate::lift::spec_arith_imm(0, IrType::U32, ShImm12RnRd { sh: 0, imm12: 1, rn: AArch64RegisterId::X(1), rd: AArch64RegisterId::X(1) }), crate::lift::spec_advance(), s, p);
    lemma_advance(s.write_gpr(IrType::U32, AArch64RegisterId::X(1), trunc(IrType::U32, trunc(IrType::U32, s.gprs[1] as int) + 1)), p);
}

pub open spec fn example_mov() -> AArch64Inst {
    AArch64Inst::OrrShiftedReg64(ShiftRmImm6RnRd { shift: 0, rm: AArch64RegisterId::X(1), imm6: 0, rn: AArch64RegisterId::Xzr, rd: AArch64RegisterId::X(0) })
}

proof fn lemma_decodes_mov()
    ensures
        spec_parse_aarch64_instr(0xaa0103e0) == Ok::<AArch64Inst, DecodeError>(example_mov()),
{
    lemma_example_words();
}

proof fn lemma_lifts_mov()
    ensures
        lifted(example_mov()) == seq![crate::lift::spec_logic_shifted(1, false, IrType::U64, ShiftRmImm6RnRd { shift: 0, rm: AArch64RegisterId::X(1), imm6: 0, rn: AArch64RegisterId::Xzr, rd: AArch64RegisterId::X(0) }), crate::lift::spec_advance()],
{
    reveal(lifted);
}

#[verifier::spinoff_prover]
#[verifier::rlimit(40)]
proof fn lemma_runs_mov(s: CpuState, p: FlagPolicy)
    ensures
        exec_stmt(crate::lift::spec_logic_shifted(1, false, IrType::U64, ShiftRmImm6RnRd { shift: 0, rm: AArch64RegisterId::X(1), imm6: 0, rn: AArch64RegisterId::Xzr, rd: AArch64RegisterId::X(0) }), s, p) == Ok::<CpuState, ExecError>(s.write_gpr(IrType::U64, AArch64RegisterId::X(0), trunc(IrType::U64, (0u64 | trunc(IrType::U64, s.read_reg(AArch64RegisterId::X(1)) as int)) as int))),
{
    reveal(exec_stmt);
    reveal(eval_ir);
    assert(CpuState { flag: s.flag, ..s } == s);
}

/// `mov x0, x1` (code word `0xaa0103e0`, an or with the zero register) copies
/// `X1` to `X0`: the zero register reads as zero.
#[verifier::spinoff_prover]
pub proof fn lemma_example_mov(s: CpuState, p: FlagPolicy)
    requires
        s.wf(),
    ensures
        spec_parse_aarch64_instr(0xaa0103e0) == Ok::<AArch64Inst, DecodeError>(example_mov()),
        exec_stmts(lifted(example_mov()), s, p) == Ok::<CpuState, ExecError>(advanced(s.write_gpr(IrType::U64, AArch64RegisterId::X(0), s.gprs[1]))),
{
    lemma_decodes_mov();
    lemma_lifts_mov();
    lemma_runs_mov(s, p);
    lemma_trunc64(s.gprs[1]);
    lemma_or_zero(s.gprs[1]);
    assert(s.write_gpr(IrType::U64, AArch64RegisterId::X(0), trunc(IrType::U64, (0u64 | trunc(IrType::U64, s.read_reg(AArch64RegisterId::X(1)) as int)) as int)) == s.write_gpr(IrType::U64, AArch64RegisterId::X(0), s.gprs[1]));
    lemma_run_two(crate::lift::spec_logic_shifted(1, false, IrType::U64, ShiftRmImm6RnRd { shift: 0, rm: AArch64RegisterId::X(1), imm6: 0, rn: AArch64RegisterId::Xzr, rd: AArch64RegisterId::X(0) }), crate::lift::spec_advance(), s, p);
    lemma_advance(s.write_gpr(IrType::U64, AArch64RegisterId::X(0), s.gprs[1]), p);
}

/// Whether running `st` can change nothing but the flags and `ip`.
pub open spec fn flags_and_ip_only(st: Stmt) -> bool {
    match st {
        Stmt::SetGpr(_, AArch64RegisterId::Xzr, _) | Stmt::SetIp(_) | Stmt::SetFlag(_) | Stmt::Eval(_) | Stmt::Svc(_)
        | Stmt::Trap(_) => true,
        _ => false,
    }
}

/// Statements that change nothing but the flags and `ip` leave every
/// register, register file and memory byte as they were.
pub proof fn lemma_flags_and_ip_only(stmts: Seq<Stmt>, s: CpuState, p: FlagPolicy)
    requires
        forall|i: int| 0 <= i < stmts.len() ==> #[trigger] flags_and_ip_only(stmts[i]),
    ensures
        exec_stmts(stmts, s, p) matches Ok(s2) ==> s2.gprs == s.gprs && s2.fpr_lo == s.fpr_lo && s2.fpr_hi == s.fpr_hi
            && s2.mem == s.mem && s2.base == s.base,
    decreases stmts.len(),
{
    if stmts.len() > 0 {
        reveal(exec_stmt);
        assert(flags_and_ip_only(stmts[0]));
        if let Ok(s1) = exec_stmt(stmts[0], s, p) {
            let rest = stmts.drop_first();
            assert forall|i: int| 0 <= i < rest.len() implies #[trigger] flags_and_ip_only(rest[i]) by {
                assert(rest[i] == stmts[i + 1]);
            }
            lemma_flags_and_ip_only(rest, s1, p);
        }
    }
}

#[verifier::spinoff_prover]
proof fn lemma_zero_destination_addsimm32(r: ShImm12RnRd)
    requires
        r.rd == AArch64RegisterId::Xzr,
    ensures
        forall|i: int| 0 <= i < lifted(AArch64Inst::AddsImm32(r)).len() ==> #[trigger] flags_and_ip_only(lifted(AArch64Inst::AddsImm32(r))[i]),
{
    reveal(lifted);
}

#[verifier::spinoff_prover]
proof fn lemma_zero_destination_subsimm32(r: ShImm12RnRd)
    requires
        r.rd == AArch64RegisterId::Xzr,
    ensures
        forall|i: int| 0 <= i < lifted(AArch64Inst::SubsImm32(r)).len() ==> #[trigger] flags_and_ip_only(lifted(AArch64Inst::SubsImm32(r))[i]),
{
    reveal(lifted);
}

#[verifier::spinoff_prover]
proof fn lemma_zero_destination_addsshiftedreg32(r: ShiftRmImm6RnRd)
    requires
        r.rd == AArch64RegisterId::Xzr,
    ensures
        forall|i: int| 0 <= i < lifted(AArch64Inst::AddsShiftedReg32(r)).len() ==> #[trigger] flags_and_ip_only(lifted(AArch64Inst::AddsShiftedReg32(r))[i]),
{
    reveal(lifted);
}

#[verifier::spinoff_prover]
proof fn lemma_zero_destination_subsshiftedreg32(r: ShiftRmImm6RnRd)
    requires
        r.rd == AArch64RegisterId::Xzr,
    ensures
        forall|i: int| 0 <= i < lifted(AArch64Inst::SubsShiftedReg32(r)).len() ==> #[trigger] flags_and_ip_only(lifted(AArch64Inst::SubsShiftedReg32(r))[i]),
{
    reveal(lifted);
}

#[verifier::spinoff_prover]
proof fn lemma_zero_destination_andsshiftedreg32(r: ShiftRmImm6RnRd)
    requires
        r.rd == AArch64RegisterId::Xzr,
    ensures
        forall|i: int| 0 <= i < lifted(AArch64Inst::AndsShiftedReg32(r)).len() ==> #[trigger] flags_and_ip_only(lifted(AArch64Inst::AndsShiftedReg32(r))[i]),
{
    reveal(lifted);
}

#[verifier::spinoff_prover]
proof fn lemma_zero_destination_bicsshiftedreg32(r: ShiftRmImm6RnRd)
    requires
        r.rd == AArch64RegisterId::Xzr,
    ensures
        forall|i: int| 0 <= i < lifted(AArch64Inst::BicsShiftedReg32(r)).len() ==> #[trigger] flags_and_ip_only(lifted(AArch64Inst::BicsShiftedReg32(r))[i]),
{
    reveal(lifted);
}

#[verifier::spinoff_prover]
proof fn lemma_zero_destination_addsextreg32(r: AddSubtractExtReg)
    requires
        r.rd == AArch64RegisterId::Xzr,
    ensures
        forall|i: int| 0 <= i < lifted(AArch64Inst::AddsExtReg32(r)).len() ==> #[trigger] flags_and_ip_only(lifted(AArch64Inst::AddsExtReg32(r))[i]),
{
    reveal(lifted);
}

#[verifier::spinoff_prover]
proof fn lemma_zero_destination_subsextreg32(r: AddSubtractExtReg)
    requires
        r.rd == AArch64RegisterId::Xzr,
    ensures
        forall|i: int| 0 <= i < lifted(AArch64Inst::SubsExtReg32(r)).len() ==> #[trigger] flags_and_ip_only(lifted(AArch64Inst::SubsExtReg32(r))[i]),
{
    reveal(lifted);
}

#[verifier::spinoff_prover]
proof fn lemma_zero_destination_addsimm64(r: ShImm12RnRd)
    requires
        r.rd == AArch64RegisterId::Xzr,
    ensures
        forall|i: int| 0 <= i < lifted(AArch64Inst::AddsImm64(r)).len() ==> #[trigger] flags_and_ip_only(lifted(AArch64Inst::AddsImm64(r))[i]),
{
    reveal(lifted);
}

#[verifier::spinoff_prover]
proof fn lemma_zero_destination_subsimm64(r: ShImm12RnRd)
    requires
        r.rd == AArch64RegisterId::Xzr,
    ensures
        forall|i: int| 0 <= i < lifted(AArch64Inst::SubsImm64(r)).len() ==> #[trigger] flags_and_ip_only(lifted(AArch64Inst::SubsImm64(r))[i]),
{
    reveal(lifted);
}

#[verifier::spinoff_prover]
proof fn lemma_zero_destination_addsshiftedreg64(r: ShiftRmImm6RnRd)
    requires
        r.rd == AArch64RegisterId::Xzr,
    ensures
        forall|i: int| 0 <= i < lifted(AArch64Inst::AddsShiftedReg64(r)).len() ==> #[trigger] flags_and_ip_only(lifted(AArch64Inst::AddsShiftedReg64(r))[i]),
{
    reveal(lifted);
}

#[verifier::spinoff_prover]
proof fn lemma_zero_destination_subsshiftedreg64(r: ShiftRmImm6RnRd)
    requires
        r.rd == AArch64RegisterId::Xzr,
    ensures
        forall|i: int| 0 <= i < lifted(AArch64Inst::SubsShiftedReg64(r)).len() ==> #[trigger] flags_and_ip_only(lifted(AArch64Inst::SubsShiftedReg64(r))[i]),
{
    reveal(lifted);
}

#[verifier::spinoff_prover]
proof fn lemma_zero_destination_andsshiftedreg64(r: ShiftRmImm6RnRd)
    requires
        r.rd == AArch64RegisterId::Xzr,
    ensures
        forall|i: int| 0 <= i < lifted(AArch64Inst::AndsShiftedReg64(r)).len() ==> #[trigger] flags_and_ip_only(lifted(AArch64Inst::AndsShiftedReg64(r))[i]),
{
    reveal(lifted);
}

#[verifier::spinoff_prover]
proof fn lemma_zero_destination_bicsshiftedreg64(r: ShiftRmImm6RnRd)
    requires
        r.rd == AArch64RegisterId::Xzr,
    ensures
        forall|i: int| 0 <= i < lifted(AArch64Inst::BicsShiftedReg64(r)).len() ==> #[trigger] flags_and_ip_only(lifted(AArch64Inst::BicsShiftedReg64(r))[i]),
{
    reveal(lifted);
}

#[verifier::spinoff_prover]
proof fn lemma_zero_destination_addsextreg64(r: AddSubtractExtReg)
    requires
        r.rd == AArch64RegisterId::Xzr,
    ensures
        forall|i: int| 0 <= i < lifted(AArch64Inst::AddsExtReg64(r)).len() ==> #[trigger] flags_and_ip_only(lifted(AArch64Inst::AddsExtReg64(r))[i]),
{
    reveal(lifted);
}

#[verifier::spinoff_prover]
proof fn lemma_zero_destination_subsextreg64(r: AddSubtractExtReg)
    requires
        r.rd == AArch64RegisterId::Xzr,
    ensures
        forall|i: int| 0 <= i < lifted(AArch64Inst::SubsExtReg64(r)).len() ==> #[trigger] flags_and_ip_only(lifted(AArch64Inst::SubsExtReg64(r))[i]),
{
    reveal(lifted);
}

#[verifier::spinoff_prover]
proof fn lemma_zero_destination_andsimm32(r: LogicalImm)
    requires
        r.rd == AArch64RegisterId::Xzr,
    ensures
        forall|i: int| 0 <= i < lifted(AArch64Inst::AndsImm32(r)).len() ==> #[trigger] flags_and_ip_only(lifted(AArch64Inst::AndsImm32(r))[i]),
{
    reveal(lifted);
}

#[verifier::spinoff_prover]
proof fn lemma_zero_destination_andsimm64(r: LogicalImm)
    requires
        r.rd == AArch64RegisterId::Xzr,
    ensures
        forall|i: int| 0 <= i < lifted(AArch64Inst::AndsImm64(r)).len() ==> #[trigger] flags_and_ip_only(lifted(AArch64Inst::AndsImm64(r))[i]),
{
    reveal(lifted);
}

/// Flag-setting arithmetic and logic whose destination is the zero
/// register: the compare and test forms, `tst` with an immediate included.
pub open spec fn zero_destination(inst: AArch64Inst) -> bool {
    match inst {
        AArch64Inst::AndsImm32(r) => r.rd == AArch64RegisterId::Xzr,
        AArch64Inst::AndsImm64(r) => r.rd == AArch64RegisterId::Xzr,
        AArch64Inst::AddsImm32(r) => r.rd == AArch64RegisterId::Xzr,
        AArch64Inst::SubsImm32(r) => r.rd == AArch64RegisterId::Xzr,
        AArch64Inst::AddsShiftedReg32(r) => r.rd == AArch64RegisterId::Xzr,
        AArch64Inst::SubsShiftedReg32(r) => r.rd == AArch64RegisterId::Xzr,
        AArch64Inst::AndsShiftedReg32(r) => r.rd == AArch64RegisterId::Xzr,
        AArch64Inst::BicsShiftedReg32(r) => r.rd == AArch64RegisterId::Xzr,
        AArch64Inst::AddsExtReg32(r) => r.rd == AArch64RegisterId::Xzr,
        AArch64Inst::SubsExtReg32(r) => r.rd == AArch64RegisterId::Xzr,
        AArch64Inst::AddsImm64(r) => r.rd == AArch64RegisterId::Xzr,
        AArch64Inst::SubsImm64(r) => r.rd == AArch64RegisterId::Xzr,
        AArch64Inst::AddsShiftedReg64(r) => r.rd == AArch64RegisterId::Xzr,
        AArch64Inst::SubsShiftedReg64(r) => r.rd == AArch64RegisterId::Xzr,
        AArch64Inst::AndsShiftedReg64(r) => r.rd == AArch64RegisterId::Xzr,
        AArch64Inst::BicsShiftedReg64(r) => r.rd == AArch64RegisterId::Xzr,
        AArch64Inst::AddsExtReg64(r) => r.rd == AArch64RegisterId::Xzr,
        AArch64Inst::SubsExtReg64(r) => r.rd == AArch64RegisterId::Xzr,
        _ => false,
    }
}

/// An instruction that writes the zero register (`cmp`, `cmn`, `tst`) changes
/// no register, register file or memory byte: the write is discarded and
/// only the flags and `ip` change.
pub proof fn lemma_zero_destination(inst: AArch64Inst, s: CpuState, p: FlagPolicy)
    requires
        zero_destination(inst),
    ensures
        exec_stmts(lifted(inst), s, p) matches Ok(s2) ==> s2.gprs == s.gprs && s2.fpr_lo == s.fpr_lo && s2.fpr_hi
            == s.fpr_hi && s2.mem == s.mem && s2.base == s.base,
{
    match inst {
        AArch64Inst::AndsImm32(r) => lemma_zero_destination_andsimm32(r),
        AArch64Inst::AndsImm64(r) => lemma_zero_destination_andsimm64(r),
        AArch64Inst::AddsImm32(r) => lemma_zero_destination_addsimm32(r),
        AArch64Inst::SubsImm32(r) => lemma_zero_destination_subsimm32(r),
        AArch64Inst::AddsShiftedReg32(r) => lemma_zero_destination_addsshiftedreg32(r),
        AArch64Inst::SubsShiftedReg32(r) => lemma_zero_destination_subsshiftedreg32(r),
        AArch64Inst::AndsShiftedReg32(r) => lemma_zero_destination_andsshiftedreg32(r),
        AArch64Inst::BicsShiftedReg32(r) => lemma_zero_destination_bicsshiftedreg32(r),
        AArch64Inst::AddsExtReg32(r) => lemma_zero_destination_addsextreg32(r),
        AArch64Inst::SubsExtReg32(r) => lemma_zero_destination_subsextreg32(r),
        AArch64Inst::AddsImm64(r) => lemma_zero_destination_addsimm64(r),
        AArch64Inst::SubsImm64(r) => lemma_zero_destination_subsimm64(r),
        AArch64Inst::AddsShiftedReg64(r) => lemma_zero_destination_addsshiftedreg64(r),
        AArch64Inst::SubsShiftedReg64(r) => lemma_zero_destination_subsshiftedreg64(r),
        AArch64Inst::AndsShiftedReg64(r) => lemma_zero_destination_andsshiftedreg64(r),
        AArch64Inst::BicsShiftedReg64(r) => lemma_zero_destination_bicsshiftedreg64(r),
        AArch64Inst::AddsExtReg64(r) => lemma_zero_destination_addsextreg64(r),
        AArch64Inst::SubsExtReg64(r) => lemma_zero_destination_subsextreg64(r),
        _ => {},
    }
    lemma_flags_and_ip_only(lifted(inst), s, p);
}

/// The destination of a 32-bit instruction that writes one general-purpose register.
pub open spec fn narrow_destination(inst: AArch64Inst) -> Option<AArch64RegisterId> {
    match inst {
        AArch64Inst::AddImm32(r) => Some(r.rd),
        AArch64Inst::AddsImm32(r) => Some(r.rd),
        AArch64Inst::SubImm32(r) => Some(r.rd),
        AArch64Inst::SubsImm32(r) => Some(r.rd),
        AArch64Inst::AddShiftedReg32(r) => Some(r.rd),
        AArch64Inst::AddsShiftedReg32(r) => Some(r.rd),
        AArch64Inst::SubShiftedReg32(r) => Some(r.rd),
        AArch64Inst::SubsShiftedReg32(r) => Some(r.rd),
        AArch64Inst::AndShiftedReg32(r) => Some(r.rd),
        AArch64Inst::BicShiftedReg32(r) => Some(r.rd),
        AArch64Inst::OrrShiftedReg32(r) => Some(r.rd),
        AArch64Inst::OrnShiftedReg32(r) => Some(r.rd),
        AArch64Inst::EorShiftedReg32(r) => Some(r.rd),
        AArch64Inst::EonShiftedReg32(r) => Some(r.rd),
        AArch64Inst::MovnVar32(r) => Some(r.rd),
        AArch64Inst::MovzVar32(r) => Some(r.rd),
        AArch64Inst::MovkVar32(r) => Some(r.rd),
        AArch64Inst::Csel32(r) => Some(r.rd),
        AArch64Inst::Csinc32(r) => Some(r.rd),
        AArch64Inst::Csinv32(r) => Some(r.rd),
        AArch64Inst::Csneg32(r) => Some(r.rd),
        AArch64Inst::Madd32(r) => Some(r.rd),
        AArch64Inst::Msub32(r) => Some(r.rd),
        AArch64Inst::UdivVar32(r) => Some(r.rd),
        AArch64Inst::SdivVar32(r) => Some(r.rd),
        AArch64Inst::LslvVar32(r) => Some(r.rd),
        AArch64Inst::LsrvVar32(r) => Some(r.rd),
        AArch64Inst::AsrvVar32(r) => Some(r.rd),
        AArch64Inst::RorvVar32(r) => Some(r.rd),
        AArch64Inst::Sbfm32(r) => Some(r.rd),
        AArch64Inst::Ubfm32(r) => Some(r.rd),
        AArch64Inst::Bfm32(r) => Some(r.rd),
        AArch64Inst::AdcVar32(r) => Some(r.rd),
        AArch64Inst::SbcVar32(r) => Some(r.rd),
        AArch64Inst::AddExtReg32(r) => Some(r.rd),
        AArch64Inst::AddsExtReg32(r) => Some(r.rd),
        AArch64Inst::SubExtReg32(r) => Some(r.rd),
        AArch64Inst::SubsExtReg32(r) => Some(r.rd),
        _ => None,
    }
}

#[verifier::spinoff_prover]
proof fn lemma_narrow_addimm32(r: ShImm12RnRd)
    ensures
        lifted(AArch64Inst::AddImm32(r)).len() == 2,
        lifted(AArch64Inst::AddImm32(r))[0] matches Stmt::SetGpr(t, rd, _) && t == IrType::U32 && rd == r.rd,
        lifted(AArch64Inst::AddImm32(r))[1] == crate::lift::spec_advance(),
{
    reveal(lifted);
}

#[verifier::spinoff_prover]
proof fn lemma_narrow_addsimm32(r: ShImm12RnRd)
    ensures
        lifted(AArch64Inst::AddsImm32(r)).len() == 2,
        lifted(AArch64Inst::AddsImm32(r))[0] matches Stmt::SetGpr(t, rd, _) && t == IrType::U32 && rd == r.rd,
        lifted(AArch64Inst::AddsImm32(r))[1] == crate::lift::spec_advance(),
{
    reveal(lifted);
}

#[verifier::spinoff_prover]
proof fn lemma_narrow_subimm32(r: ShImm12RnRd)
    ensures
        lifted(AArch64Inst::SubImm32(r)).len() == 2,
        lifted(AArch64Inst::SubImm32(r))[0] matches Stmt::SetGpr(t, rd, _) && t == IrType::U32 && rd == r.rd,
        lifted(AArch64Inst::SubImm32(r))[1] == crate::lift::spec_advance(),
{
    reveal(lifted);
}

#[verifier::spinoff_prover]
proof fn lemma_narrow_subsimm32(r: ShImm12RnRd)
    ensures
        lifted(AArch64Inst::SubsImm32(r)).len() == 2,
        lifted(AArch64Inst::SubsImm32(r))[0] matches Stmt::SetGpr(t, rd, _) && t == IrType::U32 && rd == r.rd,
        lifted(AArch64Inst::SubsImm32(r))[1] == crate::lift::spec_advance(),
{
    reveal(lifted);
}

#[verifier::spinoff_prover]
proof fn lemma_narrow_addshiftedreg32(r: ShiftRmImm6RnRd)
    ensures
        lifted(AArch64Inst::AddShiftedReg32(r)).len() == 2,
        lifted(AArch64Inst::AddShiftedReg32(r))[0] matches Stmt::SetGpr(t, rd, _) && t == IrType::U32 && rd == r.rd,
        lifted(AArch64Inst::AddShiftedReg32(r))[1] == crate::lift::spec_advance(),
{
    reveal(lifted);
}

#[verifier::spinoff_prover]
proof fn lemma_narrow_addsshiftedreg32(r: ShiftRmImm6RnRd)
    ensures
        lifted(AArch64Inst::AddsShiftedReg32(r)).len() == 2,
        lifted(AArch64Inst::AddsShiftedReg32(r))[0] matches Stmt::SetGpr(t, rd, _) && t == IrType::U32 && rd == r.rd,
        lifted(AArch64Inst::AddsShiftedReg32(r))[1] == crate::lift::spec_advance(),
{
    reveal(lifted);
}

#[verifier::spinoff_prover]
proof fn lemma_narrow_subshiftedreg32(r: ShiftRmImm6RnRd)
    ensures
        lifted(AArch64Inst::SubShiftedReg32(r)).len() == 2,
        lifted(AArch64Inst::SubShiftedReg32(r))[0] matches Stmt::SetGpr(t, rd, _) && t == IrType::U32 && rd == r.rd,
        lifted(AArch64Inst::SubShiftedReg32(r))[1] == crate::lift::spec_advance(),
{
    reveal(lifted);
}

#[verifier::spinoff_prover]
proof fn lemma_narrow_subsshiftedreg32(r: ShiftRmImm6RnRd)
    ensures
        lifted(AArch64Inst::SubsShiftedReg32(r)).len() == 2,
        lifted(AArch64Inst::SubsShiftedReg32(r))[0] matches Stmt::SetGpr(t, rd, _) && t == IrType::U32 && rd == r.rd,
        lifted(AArch64Inst::SubsShiftedReg32(r))[1] == crate::lift::spec_advance(),
{
    reveal(lifted);
}

#[verifier::spinoff_prover]
proof fn lemma_narrow_andshiftedreg32(r: ShiftRmImm6RnRd)
    ensures
        lifted(AArch64Inst::AndShiftedReg32(r)).len() == 2,
        lifted(AArch64Inst::AndShiftedReg32(r))[0] matches Stmt::SetGpr(t, rd, _) && t == IrType::U32 && rd == r.rd,
        lifted(AArch64Inst::AndShiftedReg32(r))[1] == crate::lift::spec_advance(),
{
    reveal(lifted);
}

#[verifier::spinoff_prover]
proof fn lemma_narrow_bicshiftedreg32(r: ShiftRmImm6RnRd)
    ensures
        lifted(AArch64Inst::BicShiftedReg32(r)).len() == 2,
        lifted(AArch64Inst::BicShiftedReg32(r))[0] matches Stmt::SetGpr(t, rd, _) && t == IrType::U32 && rd == r.rd,
        lifted(AArch64Inst::BicShiftedReg32(r))[1] == crate::lift::spec_advance(),
{
    reveal(lifted);
}

#[verifier::spinoff_prover]
proof fn lemma_narrow_orrshiftedreg32(r: ShiftRmImm6RnRd)
    ensures
        lifted(AArch64Inst::OrrShiftedReg32(r)).len() == 2,
        lifted(AArch64Inst::OrrShiftedReg32(r))[0] matches Stmt::SetGpr(t, rd, _) && t == IrType::U32 && rd == r.rd,
        lifted(AArch64Inst::OrrShiftedReg32(r))[1] == crate::lift::spec_advance(),
{
    reveal(lifted);
}

#[verifier::spinoff_prover]
proof fn lemma_narrow_ornshiftedreg32(r: ShiftRmImm6RnRd)
    ensures
        lifted(AArch64Inst::OrnShiftedReg32(r)).len() == 2,
        lifted(AArch64Inst::OrnShiftedReg32(r))[0] matches Stmt::SetGpr(t, rd, _) && t == IrType::U32 && rd == r.rd,
        lifted(AArch64Inst::OrnShiftedReg32(r))[1] == crate::lift::spec_advance(),
{
    reveal(lifted);
}

#[verifier::spinoff_prover]
proof fn lemma_narrow_eorshiftedreg32(r: ShiftRmImm6RnRd)
    ensures
        lifted(AArch64Inst::EorShiftedReg32(r)).len() == 2,
        lifted(AArch64Inst::EorShiftedReg32(r))[0] matches Stmt::SetGpr(t, rd, _) && t == IrType::U32 && rd == r.rd,
        lifted(AArch64Inst::EorShiftedReg32(r))[1] == crate::lift::spec_advance(),
{
    reveal(lifted);
}

#[verifier::spinoff_prover]
proof fn lemma_narrow_eonshiftedreg32(r: ShiftRmImm6RnRd)
    ensures
        lifted(AArch64Inst::EonShiftedReg32(r)).len() == 2,
        lifted(AArch64Inst::EonShiftedReg32(r))[0] matches Stmt::SetGpr(t, rd, _) && t == IrType::U32 && rd == r.rd,
        lifted(AArch64Inst::EonShiftedReg32(r))[1] == crate::lift::spec_advance(),
{
    reveal(lifted);
}

#[verifier::spinoff_prover]
proof fn lemma_narrow_movnvar32(r: HwImm16Rd)
    ensures
        lifted(AArch64Inst::MovnVar32(r)).len() == 2,
        lifted(AArch64Inst::MovnVar32(r))[0] matches Stmt::SetGpr(t, rd, _) && t == IrType::U32 && rd == r.rd,
        lifted(AArch64Inst::MovnVar32(r))[1] == crate::lift::spec_advance(),
{
    reveal(lifted);
}

#[verifier::spinoff_prover]
proof fn lemma_narrow_movzvar32(r: HwImm16Rd)
    ensures
        lifted(AArch64Inst::MovzVar32(r)).len() == 2,
        lifted(AArch64Inst::MovzVar32(r))[0] matches Stmt::SetGpr(t, rd, _) && t == IrType::U32 && rd == r.rd,
        lifted(AArch64Inst::MovzVar32(r))[1] == crate::lift::spec_advance(),
{
    reveal(lifted);
}

#[verifier::spinoff_prover]
proof fn lemma_narrow_movkvar32(r: HwImm16Rd)
    ensures
        lifted(AArch64Inst::MovkVar32(r)).len() == 2,
        lifted(AArch64Inst::MovkVar32(r))[0] matches Stmt::SetGpr(t, rd, _) && t == IrType::U32 && rd == r.rd,
        lifted(AArch64Inst::MovkVar32(r))[1] == crate::lift::spec_advance(),
{
    reveal(lifted);
}

#[verifier::spinoff_prover]
proof fn lemma_narrow_csel32(r: RmCondRnRd)
    ensures
        lifted(AArch64Inst::Csel32(r)).len() == 2,
        lifted(AArch64Inst::Csel32(r))[0] matches Stmt::SetGpr(t, rd, _) && t == IrType::U32 && rd == r.rd,
        lifted(AArch64Inst::Csel32(r))[1] == crate::lift::spec_advance(),
{
    reveal(lifted);
}

#[verifier::spinoff_prover]
proof fn lemma_narrow_csinc32(r: RmCondRnRd)
    ensures
        lifted(AArch64Inst::Csinc32(r)).len() == 2,
        lifted(AArch64Inst::Csinc32(r))[0] matches Stmt::SetGpr(t, rd, _) && t == IrType::U32 && rd == r.rd,
        lifted(AArch64Inst::Csinc32(r))[1] == crate::lift::spec_advance(),
{
    reveal(lifted);
}

#[verifier::spinoff_prover]
proof fn lemma_narrow_csinv32(r: RmCondRnRd)
    ensures
        lifted(AArch64Inst::Csinv32(r)).len() == 2,
        lifted(AArch64Inst::Csinv32(r))[0] matches Stmt::SetGpr(t, rd, _) && t == IrType::U32 && rd == r.rd,
        lifted(AArch64Inst::Csinv32(r))[1] == crate::lift::spec_advance(),
{
    reveal(lifted);
}

#[verifier::spinoff_prover]
proof fn lemma_narrow_csneg32(r: RmCondRnRd)
    ensures
        lifted(AArch64Inst::Csneg32(r)).len() == 2,
        lifted(AArch64Inst::Csneg32(r))[0] matches Stmt::SetGpr(t, rd, _) && t == IrType::U32 && rd == r.rd,
        lifted(AArch64Inst::Csneg32(r))[1] == crate::lift::spec_advance(),
{
    reveal(lifted);
}

#[verifier::spinoff_prover]
proof fn lemma_narrow_madd32(r: DataProc3Src)
    ensures
        lifted(AArch64Inst::Madd32(r)).len() == 2,
        lifted(AArch64Inst::Madd32(r))[0] matches Stmt::SetGpr(t, rd, _) && t == IrType::U32 && rd == r.rd,
        lifted(AArch64Inst::Madd32(r))[1] == crate::lift::spec_advance(),
{
    reveal(lifted);
}

#[verifier::spinoff_prover]
proof fn lemma_narrow_msub32(r: DataProc3Src)
    ensures
        lifted(AArch64Inst::Msub32(r)).len() == 2,
        lifted(AArch64Inst::Msub32(r))[0] matches Stmt::SetGpr(t, rd, _) && t == IrType::U32 && rd == r.rd,
        lifted(AArch64Inst::Msub32(r))[1] == crate::lift::spec_advance(),
{
    reveal(lifted);
}

#[verifier::spinoff_prover]
proof fn lemma_narrow_udivvar32(r: DataProc2Src)
    ensures
        lifted(AArch64Inst::UdivVar32(r)).len() == 2,
        lifted(AArch64Inst::UdivVar32(r))[0] matches Stmt::SetGpr(t, rd, _) && t == IrType::U32 && rd == r.rd,
        lifted(AArch64Inst::UdivVar32(r))[1] == crate::lift::spec_advance(),
{
    reveal(lifted);
}

#[verifier::spinoff_prover]
proof fn lemma_narrow_sdivvar32(r: DataProc2Src)
    ensures
        lifted(AArch64Inst::SdivVar32(r)).len() == 2,
        lifted(AArch64Inst::SdivVar32(r))[0] matches Stmt::SetGpr(t, rd, _) && t == IrType::U32 && rd == r.rd,
        lifted(AArch64Inst::SdivVar32(r))[1] == crate::lift::spec_advance(),
{
    reveal(lifted);
}

#[verifier::spinoff_prover]
proof fn lemma_narrow_lslvvar32(r: DataProc2Src)
    ensures
        lifted(AArch64Inst::LslvVar32(r)).len() == 2,
        lifted(AArch64Inst::LslvVar32(r))[0] matches Stmt::SetGpr(t, rd, _) && t == IrType::U32 && rd == r.rd,
        lifted(AArch64Inst::LslvVar32(r))[1] == crate::lift::spec_advance(),
{
    reveal(lifted);
}

#[verifier::spinoff_prover]
proof fn lemma_narrow_lsrvvar32(r: DataProc2Src)
    ensures
        lifted(AArch64Inst::LsrvVar32(r)).len() == 2,
        lifted(AArch64Inst::LsrvVar32(r))[0] matches Stmt::SetGpr(t, rd, _) && t == IrType::U32 && rd == r.rd,
        lifted(AArch64Inst::LsrvVar32(r))[1] == crate::lift::spec_advance(),
{
    reveal(lifted);
}

#[verifier::spinoff_prover]
proof fn lemma_narrow_asrvvar32(r: DataProc2Src)
    ensures
        lifted(AArch64Inst::AsrvVar32(r)).len() == 2,
        lifted(AArch64Inst::AsrvVar32(r))[0] matches Stmt::SetGpr(t, rd, _) && t == IrType::U32 && rd == r.rd,
        lifted(AArch64Inst::AsrvVar32(r))[1] == crate::lift::spec_advance(),
{
    reveal(lifted);
}

#[verifier::spinoff_prover]
proof fn lemma_narrow_rorvvar32(r: DataProc2Src)
    ensures
        lifted(AArch64Inst::RorvVar32(r)).len() == 2,
        lifted(AArch64Inst::RorvVar32(r))[0] matches Stmt::SetGpr(t, rd, _) && t == IrType::U32 && rd == r.rd,
        lifted(AArch64Inst::RorvVar32(r))[1] == crate::lift::spec_advance(),
{
    reveal(lifted);
}

#[verifier::spinoff_prover]
proof fn lemma_narrow_sbfm32(r: Bitfield)
    ensures
        lifted(AArch64Inst::Sbfm32(r)).len() == 2,
        lifted(AArch64Inst::Sbfm32(r))[0] matches Stmt::SetGpr(t, rd, _) && t == IrType::U32 && rd == r.rd,
        lifted(AArch64Inst::Sbfm32(r))[1] == crate::lift::spec_advance(),
{
    reveal(lifted);
}

#[verifier::spinoff_prover]
proof fn lemma_narrow_ubfm32(r: Bitfield)
    ensures
        lifted(AArch64Inst::Ubfm32(r)).len() == 2,
        lifted(AArch64Inst::Ubfm32(r))[0] matches Stmt::SetGpr(t, rd, _) && t == IrType::U32 && rd == r.rd,
        lifted(AArch64Inst::Ubfm32(r))[1] == crate::lift::spec_advance(),
{
    reveal(lifted);
}

#[verifier::spinoff_prover]
proof fn lemma_narrow_bfm32(r: Bitfield)
    ensures
        lifted(AArch64Inst::Bfm32(r)).len() == 2,
        lifted(AArch64Inst::Bfm32(r))[0] matches Stmt::SetGpr(t, rd, _) && t == IrType::U32 && rd == r.rd,
        lifted(AArch64Inst::Bfm32(r))[1] == crate::lift::spec_advance(),
{
    reveal(lifted);
}

#[verifier::spinoff_prover]
proof fn lemma_narrow_adcvar32(r: RmRnRd)
    ensures
        lifted(AArch64Inst::AdcVar32(r)).len() == 2,
        lifted(AArch64Inst::AdcVar32(r))[0] matches Stmt::SetGpr(t, rd, _) && t == IrType::U32 && rd == r.rd,
        lifted(AArch64Inst::AdcVar32(r))[1] == crate::lift::spec_advance(),
{
    reveal(lifted);
}

#[verifier::spinoff_prover]
proof fn lemma_narrow_sbcvar32(r: RmRnRd)
    ensures
        lifted(AArch64Inst::SbcVar32(r)).len() == 2,
        lifted(AArch64Inst::SbcVar32(r))[0] matches Stmt::SetGpr(t, rd, _) && t == IrType::U32 && rd == r.rd,
        lifted(AArch64Inst::SbcVar32(r))[1] == crate::lift::spec_advance(),
{
    reveal(lifted);
}

#[verifier::spinoff_prover]
proof fn lemma_narrow_addextreg32(r: AddSubtractExtReg)
    ensures
        lifted(AArch64Inst::AddExtReg32(r)).len() == 2,
        lifted(AArch64Inst::AddExtReg32(r))[0] matches Stmt::SetGpr(t, rd, _) && t == IrType::U32 && rd == r.rd,
        lifted(AArch64Inst::AddExtReg32(r))[1] == crate::lift::spec_advance(),
{
    reveal(lifted);
}

#[verifier::spinoff_prover]
proof fn lemma_narrow_addsextreg32(r: AddSubtractExtReg)
    ensures
        lifted(AArch64Inst::AddsExtReg32(r)).len() == 2,
        lifted(AArch64Inst::AddsExtReg32(r))[0] matches Stmt::SetGpr(t, rd, _) && t == IrType::U32 && rd == r.rd,
        lifted(AArch64Inst::AddsExtReg32(r))[1] == crate::lift::spec_advance(),
{
    reveal(lifted);
}

#[verifier::spinoff_prover]
proof fn lemma_narrow_subextreg32(r: AddSubtractExtReg)
    ensures
        lifted(AArch64Inst::SubExtReg32(r)).len() == 2,
        lifted(AArch64Inst::SubExtReg32(r))[0] matches Stmt::SetGpr(t, rd, _) && t == IrType::U32 && rd == r.rd,
        lifted(AArch64Inst::SubExtReg32(r))[1] == crate::lift::spec_advance(),
{
    reveal(lifted);
}

#[verifier::spinoff_prover]
proof fn lemma_narrow_subsextreg32(r: AddSubtractExtReg)
    ensures
        lifted(AArch64Inst::SubsExtReg32(r)).len() == 2,
        lifted(AArch64Inst::SubsExtReg32(r))[0] matches Stmt::SetGpr(t, rd, _) && t == IrType::U32 && rd == r.rd,
        lifted(AArch64Inst::SubsExtReg32(r))[1] == crate::lift::spec_advance(),
{
    reveal(lifted);
}

/// A 32-bit instruction leaves the upper 32 bits of its destination register
/// zero.
pub proof fn lemma_narrow_destination(inst: AArch64Inst, s: CpuState, p: FlagPolicy)
    requires
        s.wf(),
    ensures
        narrow_destination(inst) matches Some(rd) ==> (rd !is V ==> (exec_stmts(lifted(inst), s, p) matches Ok(s2)
            ==> s2.read_reg(rd) < 0x1_0000_0000)),
{
    if let Some(rd) = narrow_destination(inst) {
        match inst {
        AArch64Inst::AddImm32(r) => lemma_narrow_addimm32(r),
        AArch64Inst::AddsImm32(r) => lemma_narrow_addsimm32(r),
        AArch64Inst::SubImm32(r) => lemma_narrow_subimm32(r),
        AArch64Inst::SubsImm32(r) => lemma_narrow_subsimm32(r),
        AArch64Inst::AddShiftedReg32(r) => lemma_narrow_addshiftedreg32(r),
        AArch64Inst::AddsShiftedReg32(r) => lemma_narrow_addsshiftedreg32(r),
        AArch64Inst::SubShiftedReg32(r) => lemma_narrow_subshiftedreg32(r),
        AArch64Inst::SubsShiftedReg32(r) => lemma_narrow_subsshiftedreg32(r),
        AArch64Inst::AndShiftedReg32(r) => lemma_narrow_andshiftedreg32(r),
        AArch64Inst::BicShiftedReg32(r) => lemma_narrow_bicshiftedreg32(r),
        AArch64Inst::OrrShiftedReg32(r) => lemma_narrow_orrshiftedreg32(r),
        AArch64Inst::OrnShiftedReg32(r) => lemma_narrow_ornshiftedreg32(r),
        AArch64Inst::EorShiftedReg32(r) => lemma_narrow_eorshiftedreg32(r),
        AArch64Inst::EonShiftedReg32(r) => lemma_narrow_eonshiftedreg32(r),
        AArch64Inst::MovnVar32(r) => lemma_narrow_movnvar32(r),
        AArch64Inst::MovzVar32(r) => lemma_narrow_movzvar32(r),
        AArch64Inst::MovkVar32(r) => lemma_narrow_movkvar32(r),
        AArch64Inst::Csel32(r) => lemma_narrow_csel32(r),
        AArch64Inst::Csinc32(r) => lemma_narrow_csinc32(r),
        AArch64Inst::Csinv32(r) => lemma_narrow_csinv32(r),
        AArch64Inst::Csneg32(r) => lemma_narrow_csneg32(r),
        AArch64Inst::Madd32(r) => lemma_narrow_madd32(r),
        AArch64Inst::Msub32(r) => lemma_narrow_msub32(r),
        AArch64Inst::UdivVar32(r) => lemma_narrow_udivvar32(r),
        AArch64Inst::SdivVar32(r) => lemma_narrow_sdivvar32(r),
        AArch64Inst::LslvVar32(r) => lemma_narrow_lslvvar32(r),
        AArch64Inst::LsrvVar32(r) => lemma_narrow_lsrvvar32(r),
        AArch64Inst::AsrvVar32(r) => lemma_narrow_asrvvar32(r),
        AArch64Inst::RorvVar32(r) => lemma_narrow_rorvvar32(r),
        AArch64Inst::Sbfm32(r) => lemma_narrow_sbfm32(r),
        AArch64Inst::Ubfm32(r) => lemma_narrow_ubfm32(r),
        AArch64Inst::Bfm32(r) => lemma_narrow_bfm32(r),
        AArch64Inst::AdcVar32(r) => lemma_narrow_adcvar32(r),
        AArch64Inst::SbcVar32(r) => lemma_narrow_sbcvar32(r),
        AArch64Inst::AddExtReg32(r) => lemma_narrow_addextreg32(r),
        AArch64Inst::AddsExtReg32(r) => lemma_narrow_addsextreg32(r),
        AArch64Inst::SubExtReg32(r) => lemma_narrow_subextreg32(r),
        AArch64Inst::SubsExtReg32(r) => lemma_narrow_subsextreg32(r),
            _ => {},
        }
        let stmts = lifted(inst);
        if let Stmt::SetGpr(t, d, e) = stmts[0] {
            lemma_run_two(stmts[0], stmts[1], s, p);
            assert(seq![stmts[0], stmts[1]] =~= stmts);
            reveal(exec_stmt);
            if let Ok((v, f)) = eval_ir(e, s, p) {
                let s1 = CpuState { flag: f, ..s }.write_gpr(t, d, v);
                lemma_advance(s1, p);
                assert(advanced(s1).read_reg(rd) == s1.read_reg(rd));
            }
        }
    }
}

/// Whether `st` writes general-purpose register slot `i` (`X0` to `X30`, then `SP`).
pub open spec fn writes_slot(st: Stmt, i: int) -> bool {
    match st {
        Stmt::SetGpr(_, AArch64RegisterId::X(n), _) => n < 31 && n as int == i,
        Stmt::SetGpr(_, AArch64RegisterId::Sp, _) => i == 31,
        _ => false,
    }
}

/// A register slot that no statement writes keeps its value. A write to the
/// zero register names no slot, so it changes no register.
pub proof fn lemma_unwritten_slot(stmts: Seq<Stmt>, s: CpuState, p: FlagPolicy, i: int)
    requires
        s.wf(),
        0 <= i < 32,
        forall|k: int| 0 <= k < stmts.len() ==> !#[trigger] writes_slot(stmts[k], i),
    ensures
        exec_stmts(stmts, s, p) matches Ok(s2) ==> s2.gprs[i] == s.gprs[i],
    decreases stmts.len(),
{
    if stmts.len() > 0 {
        reveal(exec_stmt);
        assert(!writes_slot(stmts[0], i));
        if let Ok(s1) = exec_stmt(stmts[0], s, p) {
            assert(s1.wf() && s1.gprs[i] == s.gprs[i]);
            let rest = stmts.drop_first();
            assert forall|k: int| 0 <= k < rest.len() implies !#[trigger] writes_slot(rest[k], i) by {
                assert(rest[k] == stmts[k + 1]);
            }
            lemma_unwritten_slot(rest, s1, p, i);
        }
    }
}

/// For every instruction, a general-purpose register that none of its
/// statements names as destination keeps its value: in particular a write
/// to the zero register is discarded.
pub proof fn lemma_instruction_keeps_unwritten(inst: AArch64Inst, s: CpuState, p: FlagPolicy, i: int)
    requires
        s.wf(),
        0 <= i < 32,
        forall|k: int| 0 <= k < lifted(inst).len() ==> !#[trigger] writes_slot(lifted(inst)[k], i),
    ensures
        exec_stmts(lifted(inst), s, p) matches Ok(s2) ==> s2.gprs[i] == s.gprs[i],
{
    lemma_unwritten_slot(lifted(inst), s, p, i);
}

/// Every read of the zero register, at any width, yields zero and leaves the flags.
pub proof fn lemma_zero_register_reads(t: IrType, s: CpuState, p: FlagPolicy)
    ensures
        crate::interp::eval_operand(crate::ir::Operand::Gpr(t, AArch64RegisterId::Xzr), s, p) == Ok::<
            (u64, u64),
            ExecError,
        >((0, s.flag)),
{
    reveal(eval_ir);
    vstd::arithmetic::div_mod::lemma_small_mod(0, t.modulus() as nat);
}

/// Whether condition code `c` holds for flag word `flag`.
pub open spec fn cond_holds(c: u8, flag: u64) -> bool {
    let n = flag & crate::cpu::FLAG_N != 0;
    let z = flag & crate::cpu::FLAG_Z != 0;
    let cf = flag & crate::cpu::FLAG_C != 0;
    let v = flag & crate::cpu::FLAG_V != 0;
    let base = if (c >> 1u8) == 0 {
        z
    } else if (c >> 1u8) == 1 {
        cf
    } else if (c >> 1u8) == 2 {
        n
    } else if (c >> 1u8) == 3 {
        v
    } else if (c >> 1u8) == 4 {
        cf && !z
    } else if (c >> 1u8) == 5 {
        n == v
    } else if (c >> 1u8) == 6 {
        !z && n == v
    } else {
        true
    };
    if (c & 1u8) == 1 && c != 15 {
        !base
    } else {
        base
    }
}

proof fn lemma_bool_ops()
    by (bit_vector)
    ensures
        (!0u64) % 2 == 1,
        (!1u64) % 2 == 0,
        (0u64 & 0u64) == 0u64,
        (0u64 & 1u64) == 0u64,
        (1u64 & 0u64) == 0u64,
        (1u64 & 1u64) == 1u64,
        (0u64 ^ 0u64) == 0u64,
        (0u64 ^ 1u64) == 1u64,
        (1u64 ^ 0u64) == 1u64,
        (1u64 ^ 1u64) == 0u64,
{
}

use crate::ir::{Ir, Operand};
use crate::interp::bool_value;

/// A boolean node that evaluates to `b` without touching the flags.
pub open spec fn yields(ir: Ir, s: CpuState, p: FlagPolicy, b: bool) -> bool {
    eval_ir(ir, s, p) == Ok::<(u64, u64), ExecError>((bool_value(b), s.flag))
}

#[verifier::spinoff_prover]
proof fn lemma_flag_set_yields(m: u64, s: CpuState, p: FlagPolicy)
    ensures
        yields(crate::lift::spec_flag_set(m), s, p, s.flag & m != 0),
{
    reveal(eval_ir);
    assert(CpuState { flag: s.flag, ..s } == s);
    lemma_trunc64(s.flag & m);
    lemma_trunc64(0);
    let a = Ir::And(IrType::U64, Operand::Flag, Operand::Immediate(IrType::U64, m));
    assert(crate::interp::eval_operand(Operand::Flag, s, p) == Ok::<(u64, u64), ExecError>((s.flag, s.flag)));
    assert(eval_ir(a, s, p) == Ok::<(u64, u64), ExecError>((s.flag & m, s.flag)));
    assert(crate::interp::eval_operand(Operand::Ir(Box::new(a)), s, p) == eval_ir(a, s, p));
    assert(Operand::Ir(Box::new(a)).spec_ty() == IrType::U64);
}

#[verifier::spinoff_prover]
proof fn lemma_not_yields(x: Ir, s: CpuState, p: FlagPolicy, b: bool)
    requires
        yields(x, s, p, b),
    ensures
        yields(crate::lift::spec_not_bool(x), s, p, !b),
{
    reveal(eval_ir);
    lemma_bool_ops();
}

#[verifier::spinoff_prover]
proof fn lemma_and_yields(x: Ir, y: Ir, s: CpuState, p: FlagPolicy, a: bool, b: bool)
    requires
        yields(x, s, p, a),
        yields(y, s, p, b),
    ensures
        yields(Ir::And(IrType::Bool, Operand::Ir(Box::new(x)), Operand::Ir(Box::new(y))), s, p, a && b),
{
    reveal(eval_ir);
    assert(CpuState { flag: s.flag, ..s } == s);
    lemma_bool_ops();
}

#[verifier::spinoff_prover]
proof fn lemma_xor_yields(x: Ir, y: Ir, s: CpuState, p: FlagPolicy, a: bool, b: bool)
    requires
        yields(x, s, p, a),
        yields(y, s, p, b),
    ensures
        yields(Ir::Xor(IrType::Bool, Operand::Ir(Box::new(x)), Operand::Ir(Box::new(y))), s, p, a != b),
{
    reveal(eval_ir);
    assert(CpuState { flag: s.flag, ..s } == s);
    lemma_bool_ops();
}

/// The condition node of condition code `c` evaluates to whether `c` holds,
/// and leaves the flags.
pub proof fn lemma_condition_value(c: u8, s: CpuState, p: FlagPolicy)
    ensures
        yields(crate::lift::spec_condition(c), s, p, cond_holds(c, s.flag)),
{
    reveal(crate::lift::spec_condition);
    let fz = crate::lift::spec_flag_set(crate::cpu::FLAG_Z);
    let fc = crate::lift::spec_flag_set(crate::cpu::FLAG_C);
    let fnn = crate::lift::spec_flag_set(crate::cpu::FLAG_N);
    let fv = crate::lift::spec_flag_set(crate::cpu::FLAG_V);
    let z = s.flag & crate::cpu::FLAG_Z != 0;
    let cf = s.flag & crate::cpu::FLAG_C != 0;
    let n = s.flag & crate::cpu::FLAG_N != 0;
    let v = s.flag & crate::cpu::FLAG_V != 0;
    lemma_flag_set_yields(crate::cpu::FLAG_Z, s, p);
    lemma_flag_set_yields(crate::cpu::FLAG_C, s, p);
    lemma_flag_set_yields(crate::cpu::FLAG_N, s, p);
    lemma_flag_set_yields(crate::cpu::FLAG_V, s, p);
    lemma_not_yields(fz, s, p, z);
    lemma_xor_yields(fnn, fv, s, p, n, v);
    let xor = Ir::Xor(IrType::Bool, Operand::Ir(Box::new(fnn)), Operand::Ir(Box::new(fv)));
    lemma_not_yields(xor, s, p, n != v);
    let nv = crate::lift::spec_n_eq_v();
    assert(nv == crate::lift::spec_not_bool(xor));
    lemma_and_yields(fc, crate::lift::spec_not_bool(fz), s, p, cf, !z);
    lemma_and_yields(crate::lift::spec_not_bool(fz), nv, s, p, !z, n == v);
    let al = Ir::Value(Operand::Immediate(IrType::Bool, 1));
    assert(yields(al, s, p, true)) by {
        reveal(eval_ir);
    }
    let hi = Ir::And(IrType::Bool, Operand::Ir(Box::new(fc)), Operand::Ir(Box::new(crate::lift::spec_not_bool(fz))));
    let gt = Ir::And(IrType::Bool, Operand::Ir(Box::new(crate::lift::spec_not_bool(fz))), Operand::Ir(Box::new(nv)));
    let base = if (c >> 1u8) == 0 {
        fz
    } else if (c >> 1u8) == 1 {
        fc
    } else if (c >> 1u8) == 2 {
        fnn
    } else if (c >> 1u8) == 3 {
        fv
    } else if (c >> 1u8) == 4 {
        hi
    } else if (c >> 1u8) == 5 {
        nv
    } else if (c >> 1u8) == 6 {
        gt
    } else {
        al
    };
    let bb = if (c >> 1u8) == 0 {
        z
    } else if (c >> 1u8) == 1 {
        cf
    } else if (c >> 1u8) == 2 {
        n
    } else if (c >> 1u8) == 3 {
        v
    } else if (c >> 1u8) == 4 {
        cf && !z
    } else if (c >> 1u8) == 5 {
        n == v
    } else if (c >> 1u8) == 6 {
        !z && n == v
    } else {
        true
    };
    assert(yields(base, s, p, bb));
    lemma_not_yields(base, s, p, bb);
}

/// A conditional branch moves `ip` to its target exactly when the condition
/// holds for the flags, and to the next instruction otherwise; nothing else
/// changes.
pub proof fn lemma_cond_branch_exact(r: crate::inst::Imm19Cond, s: CpuState, p: FlagPolicy)
    ensures
        exec_stmts(lifted(AArch64Inst::BCond(r)), s, p) == Ok::<CpuState, ExecError>(
            CpuState {
                ip: if cond_holds(r.cond, s.flag) {
                    trunc(IrType::U64, s.ip + crate::lift::spec_cond_offset(r.imm19))
                } else {
                    trunc(IrType::U64, s.ip + 4)
                },
                ..s
            },
        ),
{
    crate::vm::lemma_lifted_cond_branch(r);
    let st = crate::lift::spec_cond_branch(r);
    lemma_run_one(st, s, p);
    let cond = crate::lift::spec_condition(r.cond);
    let t = crate::lift::spec_ip_plus(crate::lift::spec_cond_offset(r.imm19));
    let n = crate::lift::spec_next_ip();
    let e = Ir::If(IrType::U64, Operand::Ir(Box::new(cond)), Operand::Ir(Box::new(t)), Operand::Ir(Box::new(n)));
    assert(st == Stmt::SetIp(e));
    crate::vm::lemma_exec_set_ip(e, s, p);
    lemma_condition_value(r.cond, s, p);
    lemma_branch_value(cond, crate::lift::spec_cond_offset(r.imm19), s, p, cond_holds(r.cond, s.flag));
}

#[verifier::spinoff_prover]
proof fn lemma_branch_value(cond: Ir, off: u64, s: CpuState, p: FlagPolicy, b: bool)
    requires
        yields(cond, s, p, b),
    ensures
        eval_ir(
            Ir::If(
                IrType::U64,
                Operand::Ir(Box::new(cond)),
                Operand::Ir(Box::new(crate::lift::spec_ip_plus(off))),
                Operand::Ir(Box::new(crate::lift::spec_next_ip())),
            ),
            s,
            p,
        ) == Ok::<(u64, u64), ExecError>(
            (if b { trunc(IrType::U64, s.ip + off) } else { trunc(IrType::U64, s.ip + 4) }, s.flag),
        ),
{
    reveal(eval_ir);
    assert(CpuState { flag: s.flag, ..s } == s);
    let t = crate::lift::spec_ip_plus(off);
    let n = crate::lift::spec_next_ip();
    assert(crate::interp::eval_operand(Operand::Ip, s, p) == Ok::<(u64, u64), ExecError>((s.ip, s.flag)));
    assert(eval_ir(t, s, p) == Ok::<(u64, u64), ExecError>((trunc(IrType::U64, s.ip + off), s.flag)));
    assert(eval_ir(n, s, p) == Ok::<(u64, u64), ExecError>((trunc(IrType::U64, s.ip + 4), s.flag)));
    assert(crate::interp::eval_operand(Operand::Ir(Box::new(cond)), s, p) == eval_ir(cond, s, p));
    assert(crate::interp::eval_operand(Operand::Ir(Box::new(t)), s, p) == eval_ir(t, s, p));
    assert(crate::interp::eval_operand(Operand::Ir(Box::new(n)), s, p) == eval_ir(n, s, p));
}

/// Whether `st` writes register slot `i` at a width of at most 32 bits.
pub open spec fn writes_slot_narrow(st: Stmt, i: int) -> bool {
    match st {
        Stmt::SetGpr(t, AArch64RegisterId::X(n), _) => n < 31 && n as int == i && t.modulus() <= 0x1_0000_0000,
        Stmt::SetGpr(t, AArch64RegisterId::Sp, _) => i == 31 && t.modulus() <= 0x1_0000_0000,
        _ => false,
    }
}

/// When the last write to a register slot is 32 bits wide (or narrower),
/// the slot ends with its upper 32 bits clear.
pub proof fn lemma_narrow_last_write(stmts: Seq<Stmt>, s: CpuState, p: FlagPolicy, i: int, k: int)
    requires
        s.wf(),
        0 <= i < 32,
        0 <= k < stmts.len(),
        writes_slot_narrow(stmts[k], i),
        forall|j: int| k < j < stmts.len() ==> !#[trigger] writes_slot(stmts[j], i),
    ensures
        exec_stmts(stmts, s, p) matches Ok(s2) ==> s2.gprs[i] < 0x1_0000_0000,
    decreases stmts.len(),
{
    reveal(exec_stmt);
    if let Ok(s1) = exec_stmt(stmts[0], s, p) {
        assert(s1.wf());
        let rest = stmts.drop_first();
        if k == 0 {
            assert(s1.gprs[i] < 0x1_0000_0000);
            assert forall|j: int| 0 <= j < rest.len() implies !#[trigger] writes_slot(rest[j], i) by {
                assert(rest[j] == stmts[j + 1]);
            }
            lemma_unwritten_slot(rest, s1, p, i);
        } else {
            assert forall|j: int| k - 1 < j < rest.len() implies !#[trigger] writes_slot(rest[j], i) by {
                assert(rest[j] == stmts[j + 1]);
            }
            assert(rest[k - 1] == stmts[k]);
            lemma_narrow_last_write(rest, s1, p, i, k - 1);
        }
    }
}

/// For every instruction whose last write to a register is 32 bits wide,
/// the register's upper 32 bits end clear.
pub proof fn lemma_instruction_narrow_write(inst: AArch64Inst, s: CpuState, p: FlagPolicy, i: int, k: int)
    requires
        s.wf(),
        0 <= i < 32,
        0 <= k < lifted(inst).len(),
        writes_slot_narrow(lifted(inst)[k], i),
        forall|j: int| k < j < lifted(inst).len() ==> !#[trigger] writes_slot(lifted(inst)[j], i),
    ensures
        exec_stmts(lifted(inst), s, p) matches Ok(s2) ==> s2.gprs[i] < 0x1_0000_0000,
{
    lemma_narrow_last_write(lifted(inst), s, p, i, k);
}

#[verifier::spinoff_prover]
proof fn lemma_zero_test_yields(nonzero: bool, t: IrType, rt: AArch64RegisterId, s: CpuState, p: FlagPolicy)
    ensures
        yields(
            if nonzero {
                Ir::CmpNe(Operand::Gpr(t, rt), Operand::Immediate(t, 0))
            } else {
                Ir::CmpEq(Operand::Gpr(t, rt), Operand::Immediate(t, 0))
            },
            s,
            p,
            (trunc(t, s.read_reg(rt) as int) != 0) == nonzero,
        ),
{
    reveal(eval_ir);
    assert(CpuState { flag: s.flag, ..s } == s);
    let x = trunc(t, s.read_reg(rt) as int);
    vstd::arithmetic::div_mod::lemma_small_mod(0, t.modulus() as nat);
    vstd::arithmetic::div_mod::lemma_mod_twice(s.read_reg(rt) as int, t.modulus());
    assert(trunc(t, x as int) == x);
}

/// A compare-and-branch moves `ip` to its target exactly when its register,
/// read at the instruction's width, is zero (`cbz`) or nonzero (`cbnz`), and
/// to the next instruction otherwise; nothing else changes.
pub proof fn lemma_compare_branch_exact(nonzero: bool, wide: bool, r: crate::inst::Imm19Rt, s: CpuState, p: FlagPolicy)
    ensures
        ({
            let t = if wide { IrType::U64 } else { IrType::U32 };
            let inst = if wide {
                if nonzero { AArch64Inst::Cbnz64(r) } else { AArch64Inst::Cbz64(r) }
            } else {
                if nonzero { AArch64Inst::Cbnz32(r) } else { AArch64Inst::Cbz32(r) }
            };
            exec_stmts(lifted(inst), s, p) == Ok::<CpuState, ExecError>(
                CpuState {
                    ip: if (trunc(t, s.read_reg(r.rt) as int) != 0) == nonzero {
                        trunc(IrType::U64, s.ip + crate::lift::spec_cond_offset(r.imm19))
                    } else {
                        trunc(IrType::U64, s.ip + 4)
                    },
                    ..s
                },
            )
        }),
{
    let t = if wide { IrType::U64 } else { IrType::U32 };
    crate::vm::lemma_lifted_compare_branch(r);
    let st = crate::lift::spec_cmp_branch(nonzero, t, r);
    lemma_run_one(st, s, p);
    let test = if nonzero {
        Ir::CmpNe(Operand::Gpr(t, r.rt), Operand::Immediate(t, 0))
    } else {
        Ir::CmpEq(Operand::Gpr(t, r.rt), Operand::Immediate(t, 0))
    };
    let e = Ir::If(
        IrType::U64,
        Operand::Ir(Box::new(test)),
        Operand::Ir(Box::new(crate::lift::spec_ip_plus(crate::lift::spec_cond_offset(r.imm19)))),
        Operand::Ir(Box::new(crate::lift::spec_next_ip())),
    );
    assert(st == Stmt::SetIp(e));
    crate::vm::lemma_exec_set_ip(e, s, p);
    lemma_zero_test_yields(nonzero, t, r.rt, s, p);
    lemma_branch_value(test, crate::lift::spec_cond_offset(r.imm19), s, p, (trunc(t, s.read_reg(r.rt) as int) != 0) == nonzero);
}

/// Bit `b5:b40` of `rt` as a test-and-branch reads it.
pub open spec fn tested_bit(r: crate::inst::B5B40Imm14Rt, s: CpuState) -> bool {
    let bit = ((r.b5 as u64) << 5u64) | (r.b40 as u64);
    (s.read_reg(r.rt) >> crate::interp::shift_amount(IrType::U64, bit)) & 1 != 0
}

#[verifier::spinoff_prover]
proof fn lemma_bit_test_yields(nonzero: bool, r: crate::inst::B5B40Imm14Rt, s: CpuState, p: FlagPolicy)
    ensures
        ({
            let bit = ((r.b5 as u64) << 5u64) | (r.b40 as u64);
            let v = Operand::Ir(
                Box::new(
                    Ir::And(
                        IrType::U64,
                        Operand::Ir(Box::new(Ir::LShr(IrType::U64, Operand::Gpr(IrType::U64, r.rt), Operand::Immediate(IrType::U64, bit)))),
                        Operand::Immediate(IrType::U64, 1),
                    ),
                ),
            );
            yields(
                if nonzero {
                    Ir::CmpNe(v, Operand::Immediate(IrType::U64, 0))
                } else {
                    Ir::CmpEq(v, Operand::Immediate(IrType::U64, 0))
                },
                s,
                p,
                tested_bit(r, s) == nonzero,
            )
        }),
{
    reveal(eval_ir);
    assert(CpuState { flag: s.flag, ..s } == s);
    let bit = ((r.b5 as u64) << 5u64) | (r.b40 as u64);
    let x = s.read_reg(r.rt);
    lemma_trunc64(x);
    let y = x >> crate::interp::shift_amount(IrType::U64, bit);
    lemma_trunc64(y);
    lemma_trunc64(y & 1);
    lemma_trunc64(0);
    let sh = Ir::LShr(IrType::U64, Operand::Gpr(IrType::U64, r.rt), Operand::Immediate(IrType::U64, bit));
    assert(eval_ir(sh, s, p) == Ok::<(u64, u64), ExecError>((y, s.flag)));
    let a = Ir::And(IrType::U64, Operand::Ir(Box::new(sh)), Operand::Immediate(IrType::U64, 1));
    assert(crate::interp::eval_operand(Operand::Ir(Box::new(sh)), s, p) == eval_ir(sh, s, p));
    assert(eval_ir(a, s, p) == Ok::<(u64, u64), ExecError>((y & 1, s.flag)));
    assert(crate::interp::eval_operand(Operand::Ir(Box::new(a)), s, p) == eval_ir(a, s, p));
    assert(Operand::Ir(Box::new(a)).spec_ty() == IrType::U64);
}

/// A test-and-branch moves `ip` to its target exactly when the tested bit of
/// its register is clear (`tbz`) or set (`tbnz`), and to the next
/// instruction otherwise; nothing else changes.
pub proof fn lemma_test_branch_exact(nonzero: bool, r: crate::inst::B5B40Imm14Rt, s: CpuState, p: FlagPolicy)
    ensures
        exec_stmts(lifted(if nonzero { AArch64Inst::Tbnz(r) } else { AArch64Inst::Tbz(r) }), s, p) == Ok::<
            CpuState,
            ExecError,
        >(
            CpuState {
                ip: if tested_bit(r, s) == nonzero {
                    trunc(IrType::U64, s.ip + crate::vm::test_branch_offset(r))
                } else {
                    trunc(IrType::U64, s.ip + 4)
                },
                ..s
            },
        ),
{
    crate::vm::lemma_lifted_test_branch(r);
    let st = crate::lift::spec_test_branch(nonzero, r);
    lemma_run_one(st, s, p);
    let bit = ((r.b5 as u64) << 5u64) | (r.b40 as u64);
    let v = Operand::Ir(
        Box::new(
            Ir::And(
                IrType::U64,
                Operand::Ir(Box::new(Ir::LShr(IrType::U64, Operand::Gpr(IrType::U64, r.rt), Operand::Immediate(IrType::U64, bit)))),
                Operand::Immediate(IrType::U64, 1),
            ),
        ),
    );
    let test = if nonzero {
        Ir::CmpNe(v, Operand::Immediate(IrType::U64, 0))
    } else {
        Ir::CmpEq(v, Operand::Immediate(IrType::U64, 0))
    };
    let e = Ir::If(
        IrType::U64,
        Operand::Ir(Box::new(test)),
        Operand::Ir(Box::new(crate::lift::spec_ip_plus(crate::vm::test_branch_offset(r)))),
        Operand::Ir(Box::new(crate::lift::spec_next_ip())),
    );
    assert(st == Stmt::SetIp(e));
    crate::vm::lemma_exec_set_ip(e, s, p);
    lemma_bit_test_yields(nonzero, r, s, p);
    lemma_branch_value(test, crate::vm::test_branch_offset(r), s, p, tested_bit(r, s) == nonzero);
}

} // verus!
