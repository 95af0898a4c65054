use vstd::prelude::*;

use crate::cpu::{Cpu, CpuState, ExecError};
use crate::decode::{parse_aarch64_instr, spec_parse_aarch64_instr};
use crate::inst::{AArch64Inst, AArch64RegisterId, B5B40Imm14Rt, DecodeError, Imm19Cond, Imm19Rt};
use crate::interp::{access_size, eval_ir, run_ir, trunc, FlagPolicy};
use crate::ir::{BasicBlock, Ir, IrType, Operand, Stmt};
use crate::lift::{lift, lifted, spec_cond_offset};

verus! {

/// The state after statement `st` runs in state `s`.
#[verifier::opaque]
pub open spec fn exec_stmt(st: Stmt, s: CpuState, p: FlagPolicy) -> Result<CpuState, ExecError> {
    match st {
        Stmt::SetGpr(t, r, e) => match eval_ir(e, s, p) {
            Err(x) => Err(x),
            Ok((v, f)) => Ok(CpuState { flag: f, ..s }.write_gpr(t, r, v)),
        },
        Stmt::SetFpr(t, r, e) => match eval_ir(e, s, p) {
            Err(x) => Err(x),
            Ok((v, f)) => Ok(CpuState { flag: f, ..s }.write_fpr(t, r, v)),
        },
        Stmt::SetIp(e) => match eval_ir(e, s, p) {
            Err(x) => Err(x),
            Ok((v, f)) => Ok(CpuState { flag: f, ip: v, ..s }),
        },
        Stmt::SetFlag(e) => match eval_ir(e, s, p) {
            Err(x) => Err(x),
            Ok((v, _)) => Ok(CpuState { flag: v, ..s }),
        },
        Stmt::Store(t, a, e) => match eval_ir(a, s, p) {
            Err(x) => Err(x),
            Ok((addr, f)) => match eval_ir(e, CpuState { flag: f, ..s }, p) {
                Err(x) => Err(x),
                Ok((v, g)) => if s.mapped(addr, access_size(t)) {
                    Ok(CpuState { flag: g, ..s }.write_mem(addr, access_size(t), v))
                } else {
                    Err(ExecError::BadMemory { addr })
                },
            },
        },
        Stmt::Eval(e) => match eval_ir(e, s, p) {
            Err(x) => Err(x),
            Ok((_, f)) => Ok(CpuState { flag: f, ..s }),
        },
        Stmt::Svc(_) => Ok(s),
        Stmt::Trap(w) => Err(ExecError::Unimplemented { word: w }),
    }
}

/// The state after `stmts` run in order from state `s`.
pub open spec fn exec_stmts(stmts: Seq<Stmt>, s: CpuState, p: FlagPolicy) -> Result<CpuState, ExecError>
    decreases stmts.len(),
{
    if stmts.len() == 0 {
        Ok(s)
    } else {
        match exec_stmt(stmts[0], s, p) {
            Err(e) => Err(e),
            Ok(s1) => exec_stmts(stmts.drop_first(), s1, p),
        }
    }
}

/// The immediate of the last supervisor call among `stmts`.
pub open spec fn last_svc(stmts: Seq<Stmt>) -> Option<u16>
    decreases stmts.len(),
{
    if stmts.len() == 0 {
        None
    } else {
        match stmts.last() {
            Stmt::Svc(imm) => Some(imm),
            _ => last_svc(stmts.drop_last()),
        }
    }
}

/// Runs statement `st` on `cpu`.
pub fn run_stmt(st: &Stmt, cpu: &mut Cpu, p: FlagPolicy) -> (r: Result<(), ExecError>)
    requires
        old(cpu)@.wf(),
    ensures
        final(cpu)@.wf(),
        match exec_stmt(*st, old(cpu)@, p) {
            Ok(s) => r is Ok && final(cpu)@ == s,
            Err(e) => r == Err::<(), ExecError>(e),
        },
{
    reveal(exec_stmt);
    match st {
        Stmt::SetGpr(t, reg, e) => {
            let v = run_ir(e, cpu, p)?;
            cpu.set_gpr(*t, *reg, v);
        },
        Stmt::SetFpr(t, reg, e) => {
            let v = run_ir(e, cpu, p)?;
            cpu.set_fpr(*t, *reg, v);
        },
        Stmt::SetIp(e) => {
            let v = run_ir(e, cpu, p)?;
            cpu.set_ip(v);
        },
        Stmt::SetFlag(e) => {
            let v = run_ir(e, cpu, p)?;
            cpu.set_flag(v);
        },
        Stmt::Store(t, a, e) => {
            let addr = run_ir(a, cpu, p)?;
            let v = run_ir(e, cpu, p)?;
            let n = t.size_in_bytes();
            cpu.store(addr, n, v)?;
        },
        Stmt::Eval(e) => {
            run_ir(e, cpu, p)?;
        },
        Stmt::Svc(_) => {},
        Stmt::Trap(w) => {
            return Err(ExecError::Unimplemented { word: *w });
        },
    }
    Ok(())
}

/// Runs the statements of `block` in order on `cpu`; yields the immediate of
/// the last supervisor call among them.
pub fn run_block(block: &BasicBlock, cpu: &mut Cpu, p: FlagPolicy) -> (r: Result<Option<u16>, ExecError>)
    requires
        old(cpu)@.wf(),
    ensures
        final(cpu)@.wf(),
        match exec_stmts(block.stmts@, old(cpu)@, p) {
            Ok(s) => r == Ok::<Option<u16>, ExecError>(last_svc(block.stmts@)) && final(cpu)@ == s,
            Err(e) => r == Err::<Option<u16>, ExecError>(e),
        },
{
    let ghost all = block.stmts@;
    assert(all.subrange(0, all.len() as int) =~= all);
    assert(all.subrange(0, 0) =~= Seq::<Stmt>::empty());
    let mut svc: Option<u16> = None;
    let mut i: usize = 0;
    while i < block.stmts.len()
        invariant
            i <= all.len(),
            all == block.stmts@,
            cpu@.wf(),
            exec_stmts(all, old(cpu)@, p) == exec_stmts(all.subrange(i as int, all.len() as int), cpu@, p),
            svc == last_svc(all.subrange(0, i as int)),
        decreases all.len() - i,
    {
        let ghost rest = all.subrange(i as int, all.len() as int);
        assert(rest.drop_first() =~= all.subrange(i + 1, all.len() as int));
        run_stmt(&block.stmts[i], cpu, p)?;
        if let Stmt::Svc(imm) = &block.stmts[i] {
            svc = Some(*imm);
        }
        assert(all.subrange(0, i + 1).drop_last() =~= all.subrange(0, i as int));
        i = i + 1;
    }
    assert(all.subrange(0, all.len() as int) =~= all);
    assert(all.subrange(i as int, all.len() as int) =~= Seq::<Stmt>::empty());
    Ok(svc)
}

/// A fatal condition of one step, with the address of the instruction.
#[allow(inconsistent_fields)]
#[derive(Debug, Clone, Copy, PartialEq, Eq, Structural)]
pub enum VmError {
    Decode { err: DecodeError, ip: u64 },
    Exec { err: ExecError, ip: u64 },
}

/// What the caller has to do after a step.
#[derive(Debug, Clone, Copy, PartialEq, Eq, Structural)]
pub enum StepEvent {
    Continue,
    /// The instruction was a supervisor call with this immediate.
    Syscall { imm: u16 },
}

pub open spec fn event_of(svc: Option<u16>) -> StepEvent {
    match svc {
        Some(imm) => StepEvent::Syscall { imm },
        None => StepEvent::Continue,
    }
}

/// Fetches, decodes, lifts and runs the instruction at `ip`.
pub fn step(cpu: &mut Cpu, p: FlagPolicy) -> (r: Result<StepEvent, VmError>)
    requires
        old(cpu)@.wf(),
    ensures
        final(cpu)@.wf(),
        ({
            let s = old(cpu)@;
            if !s.mapped(s.ip, 4) {
                r == Err::<StepEvent, VmError>(VmError::Exec { err: ExecError::BadMemory { addr: s.ip }, ip: s.ip })
            } else {
                match spec_parse_aarch64_instr(s.read_mem(s.ip, 4) as u32) {
                    Err(e) => r == Err::<StepEvent, VmError>(VmError::Decode { err: e, ip: s.ip }),
                    Ok(inst) => match exec_stmts(lifted(inst), s, p) {
                        Ok(s2) => r == Ok::<StepEvent, VmError>(event_of(last_svc(lifted(inst))))
                            && final(cpu)@ == s2,
                        Err(e) => r == Err::<StepEvent, VmError>(VmError::Exec { err: e, ip: s.ip }),
                    },
                }
            }
        }),
{
    let ip = cpu.ip();
    let word = match cpu.load(ip, 4) {
        Ok(w) => w,
        Err(e) => {
            return Err(VmError::Exec { err: e, ip });
        },
    };
    let inst = match parse_aarch64_instr(word as u32) {
        Ok(i) => i,
        Err(e) => {
            return Err(VmError::Decode { err: e, ip });
        },
    };
    let mut block = BasicBlock::new();
    lift(&inst, &mut block);
    assert(block.stmts@ =~= lifted(inst));
    match run_block(&block, cpu, p) {
        Ok(Some(imm)) => Ok(StepEvent::Syscall { imm }),
        Ok(None) => Ok(StepEvent::Continue),
        Err(e) => Err(VmError::Exec { err: e, ip }),
    }
}

/// A write of the zero register changes nothing, and a read of it yields zero.
pub proof fn lemma_zero_register(s: CpuState, t: IrType, v: u64, e: Ir, p: FlagPolicy)
    ensures
        s.write_gpr(t, AArch64RegisterId::Xzr, v) == s,
        s.read_reg(AArch64RegisterId::Xzr) == 0,
        exec_stmt(Stmt::SetGpr(t, AArch64RegisterId::Xzr, e), s, p) matches Ok(s2) ==> s2 == (CpuState {
            flag: s2.flag,
            ..s
        }),
{
    reveal(exec_stmt);
}

/// A 32-bit write of a general-purpose register leaves its upper 32 bits
/// zero: the register then holds the value modulo `2^32`.
pub proof fn lemma_narrow_write_clears_upper(s: CpuState, t: IrType, n: u8, v: u64)
    requires
        s.wf(),
        t == IrType::U32 || t == IrType::I32,
        n < 31,
    ensures
        s.write_gpr(t, AArch64RegisterId::X(n), v).read_reg(AArch64RegisterId::X(n)) == v % 0x1_0000_0000,
        s.write_gpr(t, AArch64RegisterId::X(n), v).read_reg(AArch64RegisterId::X(n)) < 0x1_0000_0000,
{
}

#[verifier::spinoff_prover]
pub(crate) proof fn lemma_lifted_cond_branch(r: Imm19Cond)
    ensures
        lifted(AArch64Inst::BCond(r)) == seq![crate::lift::spec_cond_branch(r)],
{
    reveal(lifted);
}

pub(crate) proof fn lemma_exec_set_ip(e: Ir, s: CpuState, p: FlagPolicy)
    ensures
        exec_stmt(Stmt::SetIp(e), s, p) == match eval_ir(e, s, p) {
            Err(x) => Err(x),
            Ok((v, f)) => Ok(CpuState { flag: f, ip: v, ..s }),
        },
{
    reveal(exec_stmt);
}

/// Either branch of an `If` on the two candidate addresses yields one of them.
proof fn lemma_eval_branch(c: Operand, off: u64, s: CpuState, p: FlagPolicy)
    requires
        crate::interp::keeps_flag_op(c),
    ensures
        eval_ir(
            Ir::If(
                IrType::U64,
                c,
                Operand::Ir(Box::new(Ir::Add(IrType::U64, Operand::Ip, Operand::Immediate(IrType::I64, off)))),
                Operand::Ir(Box::new(Ir::Add(IrType::U64, Operand::Ip, Operand::Immediate(IrType::U64, 4)))),
            ),
            s,
            p,
        ) matches Ok((v, g)) ==> (v == trunc(IrType::U64, s.ip + off) || v == trunc(IrType::U64, s.ip + 4)) && g
            == s.flag,
{
    reveal(eval_ir);
    crate::interp::lemma_keeps_flag_op(c, s, p);
    let t = Ir::Add(IrType::U64, Operand::Ip, Operand::Immediate(IrType::I64, off));
    let n = Ir::Add(IrType::U64, Operand::Ip, Operand::Immediate(IrType::U64, 4));
    if let Ok((x, f)) = crate::interp::eval_operand(c, s, p) {
        let s1 = CpuState { flag: f, ..s };
        assert(crate::interp::eval_operand(Operand::Ir(Box::new(t)), s1, p) == eval_ir(t, s1, p));
        assert(crate::interp::eval_operand(Operand::Ir(Box::new(n)), s1, p) == eval_ir(n, s1, p));
        assert(crate::interp::eval_operand(Operand::Ip, s1, p) == Ok::<(u64, u64), ExecError>((s.ip, f)));
        assert(eval_ir(t, s1, p) == Ok::<(u64, u64), ExecError>((trunc(IrType::U64, s.ip + off), f)));
        assert(eval_ir(n, s1, p) == Ok::<(u64, u64), ExecError>((trunc(IrType::U64, s.ip + 4), f)));
    }
}

/// After a conditional branch `ip` is either the branch target or the next
/// instruction, and no register, register file, flag or memory byte changes.
pub proof fn lemma_cond_branch_targets(r: Imm19Cond, s: CpuState, p: FlagPolicy)
    ensures
        exec_stmts(lifted(AArch64Inst::BCond(r)), s, p) matches Ok(s2) ==> {
            &&& (s2.ip == trunc(IrType::U64, s.ip + spec_cond_offset(r.imm19)) || s2.ip == trunc(
                IrType::U64,
                s.ip + 4,
            ))
            &&& s2.gprs == s.gprs
            &&& s2.flag == s.flag
            &&& s2.fpr_lo == s.fpr_lo
            &&& s2.fpr_hi == s.fpr_hi
            &&& s2.mem == s.mem
            &&& s2.base == s.base
        },
{
    lemma_lifted_cond_branch(r);
    reveal_with_fuel(exec_stmts, 2);
    let st = crate::lift::spec_cond_branch(r);
    let stmts = seq![st];
    assert(stmts.drop_first() =~= Seq::<Stmt>::empty());
    let cond = Operand::Ir(Box::new(crate::lift::spec_condition(r.cond)));
    let e = Ir::If(
        IrType::U64,
        cond,
        Operand::Ir(Box::new(crate::lift::spec_ip_plus(spec_cond_offset(r.imm19)))),
        Operand::Ir(Box::new(crate::lift::spec_next_ip())),
    );
    assert(st == Stmt::SetIp(e));
    lemma_exec_set_ip(e, s, p);
    lemma_condition_keeps_flag(r.cond);
    lemma_eval_branch(cond, spec_cond_offset(r.imm19), s, p);
}

proof fn lemma_flag_set_keeps_flag(m: u64)
    ensures
        crate::interp::keeps_flag(crate::lift::spec_flag_set(m)),
{
    let a = Ir::And(IrType::U64, Operand::Flag, Operand::Immediate(IrType::U64, m));
    assert(crate::interp::keeps_flag(a));
    assert(crate::interp::keeps_flag_op(Operand::Ir(Box::new(a))));
}

proof fn lemma_not_keeps_flag(x: Ir)
    requires
        crate::interp::keeps_flag(x),
    ensures
        crate::interp::keeps_flag(crate::lift::spec_not_bool(x)),
{
    assert(crate::interp::keeps_flag_op(Operand::Ir(Box::new(x))));
}

proof fn lemma_condition_keeps_flag(c: u8)
    ensures
        crate::interp::keeps_flag_op(Operand::Ir(Box::new(crate::lift::spec_condition(c)))),
{
    reveal(crate::lift::spec_condition);
    lemma_flag_set_keeps_flag(crate::cpu::FLAG_Z);
    lemma_flag_set_keeps_flag(crate::cpu::FLAG_C);
    lemma_flag_set_keeps_flag(crate::cpu::FLAG_N);
    lemma_flag_set_keeps_flag(crate::cpu::FLAG_V);
    let z = crate::lift::spec_flag_set(crate::cpu::FLAG_Z);
    lemma_not_keeps_flag(z);
    let xor = Ir::Xor(
        IrType::Bool,
        Operand::Ir(Box::new(crate::lift::spec_flag_set(crate::cpu::FLAG_N))),
        Operand::Ir(Box::new(crate::lift::spec_flag_set(crate::cpu::FLAG_V))),
    );
    assert(crate::interp::keeps_flag(xor));
    lemma_not_keeps_flag(xor);
    let nv = crate::lift::spec_n_eq_v();
    assert(nv == crate::lift::spec_not_bool(xor));
    let hi = Ir::And(
        IrType::Bool,
        Operand::Ir(Box::new(crate::lift::spec_flag_set(crate::cpu::FLAG_C))),
        Operand::Ir(Box::new(crate::lift::spec_not_bool(z))),
    );
    assert(crate::interp::keeps_flag(hi));
    let gt = Ir::And(IrType::Bool, Operand::Ir(Box::new(crate::lift::spec_not_bool(z))), Operand::Ir(Box::new(nv)));
    assert(crate::interp::keeps_flag(gt));
    let al = Ir::Value(Operand::Immediate(IrType::Bool, 1));
    assert(crate::interp::keeps_flag(al));
    let base = if (c >> 1u8) == 0 {
        z
    } else if (c >> 1u8) == 1 {
        crate::lift::spec_flag_set(crate::cpu::FLAG_C)
    } else if (c >> 1u8) == 2 {
        crate::lift::spec_flag_set(crate::cpu::FLAG_N)
    } else if (c >> 1u8) == 3 {
        crate::lift::spec_flag_set(crate::cpu::FLAG_V)
    } else if (c >> 1u8) == 4 {
        hi
    } else if (c >> 1u8) == 5 {
        nv
    } else if (c >> 1u8) == 6 {
        gt
    } else {
        al
    };
    assert(crate::interp::keeps_flag(base));
    lemma_not_keeps_flag(base);
}

#[verifier::spinoff_prover]
pub(crate) proof fn lemma_lifted_compare_branch(r: Imm19Rt)
    ensures
        lifted(AArch64Inst::Cbz32(r)) == seq![crate::lift::spec_cmp_branch(false, IrType::U32, r)],
        lifted(AArch64Inst::Cbnz32(r)) == seq![crate::lift::spec_cmp_branch(true, IrType::U32, r)],
        lifted(AArch64Inst::Cbz64(r)) == seq![crate::lift::spec_cmp_branch(false, IrType::U64, r)],
        lifted(AArch64Inst::Cbnz64(r)) == seq![crate::lift::spec_cmp_branch(true, IrType::U64, r)],
{
    reveal(lifted);
}

/// After a compare-and-branch (`cbz`, `cbnz`) `ip` is either the branch
/// target or the next instruction, and no register, register file or memory
/// byte changes, nor the flags.
pub proof fn lemma_compare_branch_targets(inst: AArch64Inst, s: CpuState, p: FlagPolicy)
    requires
        inst is Cbz32 || inst is Cbnz32 || inst is Cbz64 || inst is Cbnz64,
    ensures
        exec_stmts(lifted(inst), s, p) matches Ok(s2) ==> {
            &&& (s2.ip == trunc(IrType::U64, s.ip + spec_cond_offset(imm19_of(inst))) || s2.ip == trunc(
                IrType::U64,
                s.ip + 4,
            ))
            &&& s2.gprs == s.gprs
            &&& s2.flag == s.flag
            &&& s2.fpr_lo == s.fpr_lo
            &&& s2.fpr_hi == s.fpr_hi
            &&& s2.mem == s.mem
            &&& s2.base == s.base
        },
{
    reveal_with_fuel(exec_stmts, 2);
    let (nonzero, t, r) = match inst {
        AArch64Inst::Cbz32(r) => (false, IrType::U32, r),
        AArch64Inst::Cbnz32(r) => (true, IrType::U32, r),
        AArch64Inst::Cbz64(r) => (false, IrType::U64, r),
        AArch64Inst::Cbnz64(r) => (true, IrType::U64, r),
        _ => (false, IrType::U64, arbitrary()),
    };
    lemma_lifted_compare_branch(r);
    let st = crate::lift::spec_cmp_branch(nonzero, t, r);
    assert(seq![st].drop_first() =~= Seq::<Stmt>::empty());
    let test = if nonzero {
        Ir::CmpNe(Operand::Gpr(t, r.rt), Operand::Immediate(t, 0))
    } else {
        Ir::CmpEq(Operand::Gpr(t, r.rt), Operand::Immediate(t, 0))
    };
    let cond = Operand::Ir(Box::new(test));
    let e = Ir::If(
        IrType::U64,
        cond,
        Operand::Ir(Box::new(crate::lift::spec_ip_plus(spec_cond_offset(r.imm19)))),
        Operand::Ir(Box::new(crate::lift::spec_next_ip())),
    );
    assert(st == Stmt::SetIp(e));
    lemma_exec_set_ip(e, s, p);
    reveal_with_fuel(crate::interp::keeps_flag, 3);
    reveal_with_fuel(crate::interp::keeps_flag_op, 3);
    lemma_eval_branch(cond, spec_cond_offset(r.imm19), s, p);
}

/// The branch offset field of a compare-and-branch.
pub open spec fn imm19_of(inst: AArch64Inst) -> u32 {
    match inst {
        AArch64Inst::Cbz32(r) | AArch64Inst::Cbnz32(r) | AArch64Inst::Cbz64(r) | AArch64Inst::Cbnz64(r) => r.imm19,
        _ => 0,
    }
}

#[verifier::spinoff_prover]
pub(crate) proof fn lemma_lifted_test_branch(r: B5B40Imm14Rt)
    ensures
        lifted(AArch64Inst::Tbz(r)) == seq![crate::lift::spec_test_branch(false, r)],
        lifted(AArch64Inst::Tbnz(r)) == seq![crate::lift::spec_test_branch(true, r)],
{
    reveal(lifted);
}

proof fn lemma_bit_test_keeps_flag(nonzero: bool, r: B5B40Imm14Rt)
    ensures
        ({
            let bit = ((r.b5 as u64) << 5u64) | (r.b40 as u64);
            let v = Operand::Ir(
                Box::new(
                    Ir::And(
                        IrType::U64,
                        Operand::Ir(Box::new(Ir::LShr(IrType::U64, Operand::Gpr(IrType::U64, r.rt), Operand::Immediate(IrType::U64, bit)))),
                        Operand::Immediate(IrType::U64, 1),
                    ),
                ),
            );
            let test = if nonzero {
                Ir::CmpNe(v, Operand::Immediate(IrType::U64, 0))
            } else {
                Ir::CmpEq(v, Operand::Immediate(IrType::U64, 0))
            };
            crate::interp::keeps_flag_op(Operand::Ir(Box::new(test)))
        }),
{
    let bit = ((r.b5 as u64) << 5u64) | (r.b40 as u64);
    let sh = Ir::LShr(IrType::U64, Operand::Gpr(IrType::U64, r.rt), Operand::Immediate(IrType::U64, bit));
    assert(crate::interp::keeps_flag(sh));
    let a = Ir::And(IrType::U64, Operand::Ir(Box::new(sh)), Operand::Immediate(IrType::U64, 1));
    assert(crate::interp::keeps_flag(a));
    let v = Operand::Ir(Box::new(a));
    assert(crate::interp::keeps_flag_op(v));
    assert(crate::interp::keeps_flag(Ir::CmpNe(v, Operand::Immediate(IrType::U64, 0))));
    assert(crate::interp::keeps_flag(Ir::CmpEq(v, Operand::Immediate(IrType::U64, 0))));
}

/// The branch offset of a test-and-branch, relative to the instruction.
pub open spec fn test_branch_offset(r: B5B40Imm14Rt) -> u64 {
    crate::lift::spec_sign_extend((r.imm14 as u64) << 2u64, 0x8000, 0xffff_ffff_ffff_0000)
}

/// After a test-and-branch (`tbz`, `tbnz`) `ip` is either the branch target
/// or the next instruction, and no register, register file or memory byte
/// changes, nor the flags.
pub proof fn lemma_test_branch_targets(nonzero: bool, r: B5B40Imm14Rt, s: CpuState, p: FlagPolicy)
    ensures
        exec_stmts(lifted(if nonzero { AArch64Inst::Tbnz(r) } else { AArch64Inst::Tbz(r) }), s, p) matches Ok(s2) ==> {
            &&& (s2.ip == trunc(IrType::U64, s.ip + test_branch_offset(r)) || s2.ip == trunc(IrType::U64, s.ip + 4))
            &&& s2.gprs == s.gprs
            &&& s2.flag == s.flag
            &&& s2.fpr_lo == s.fpr_lo
            &&& s2.fpr_hi == s.fpr_hi
            &&& s2.mem == s.mem
            &&& s2.base == s.base
        },
{
    reveal_with_fuel(exec_stmts, 2);
    lemma_lifted_test_branch(r);
    let st = crate::lift::spec_test_branch(nonzero, r);
    assert(seq![st].drop_first() =~= Seq::<Stmt>::empty());
    let bit = ((r.b5 as u64) << 5u64) | (r.b40 as u64);
    let v = Operand::Ir(
        Box::new(
            Ir::And(
                IrType::U64,
                Operand::Ir(Box::new(Ir::LShr(IrType::U64, Operand::Gpr(IrType::U64, r.rt), Operand::Immediate(IrType::U64, bit)))),
                Operand::Immediate(IrType::U64, 1),
            ),
        ),
    );
    let test = if nonzero {
        Ir::CmpNe(v, Operand::Immediate(IrType::U64, 0))
    } else {
        Ir::CmpEq(v, Operand::Immediate(IrType::U64, 0))
    };
    let cond = Operand::Ir(Box::new(test));
    let e = Ir::If(
        IrType::U64,
        cond,
        Operand::Ir(Box::new(crate::lift::spec_ip_plus(test_branch_offset(r)))),
        Operand::Ir(Box::new(crate::lift::spec_next_ip())),
    );
    assert(st == Stmt::SetIp(e));
    lemma_exec_set_ip(e, s, p);
    lemma_bit_test_keeps_flag(nonzero, r);
    lemma_eval_branch(cond, test_branch_offset(r), s, p);
}

} // verus!
