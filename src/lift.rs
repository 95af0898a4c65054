use vstd::prelude::*;

use crate::cpu::{FLAG_C, FLAG_N, FLAG_V, FLAG_Z};
use crate::inst::{
    AArch64Inst, AArch64RegisterId, AddSubtractExtReg, B5B40Imm14Rt, Bitfield, CondCmpImm, CondCmpReg, DataProc2Src, DataProc3Src,
    HwImm16Rd, Imm19Cond, Imm19Rt, Imm26, LdStRegUnscaledImm, LogicalImm, LoadStoreRegPair, LoadStoreRegRegOffset, OpcSizeImm12RnRt,
    PcRelAddressing, RmCondRnRd, RmRnRd, RsRt2RnRt, ShImm12RnRd, ShiftRmImm6RnRd, UncondBranchReg,
};
use crate::ir::{BasicBlock, Ir, IrType, Operand, Stmt};

verus! {

/// The address of the next instruction.
pub open spec fn spec_next_ip() -> Ir {
    Ir::Add(IrType::U64, Operand::Ip, Operand::Immediate(IrType::U64, 4))
}

pub fn next_ip() -> (res: Ir)
    ensures
        res == spec_next_ip(),
{
    Ir::Add(IrType::U64, Operand::Ip, Operand::Immediate(IrType::U64, 4))
}

/// The address `off` bytes from the current instruction, `off` in two's complement.
pub open spec fn spec_ip_plus(off: u64) -> Ir {
    Ir::Add(IrType::U64, Operand::Ip, Operand::Immediate(IrType::I64, off))
}

pub fn ip_plus(off: u64) -> (res: Ir)
    ensures
        res == spec_ip_plus(off),
{
    Ir::Add(IrType::U64, Operand::Ip, Operand::Immediate(IrType::I64, off))
}

/// `v` with the bits of `ext` set when the bit of `sign` is set in `v`.
pub open spec fn spec_sign_extend(v: u64, sign: u64, ext: u64) -> u64 {
    if v & sign != 0 {
        v | ext
    } else {
        v
    }
}

pub fn sign_extend(v: u64, sign: u64, ext: u64) -> (res: u64)
    ensures
        res == spec_sign_extend(v, sign, ext),
{
    if v & sign != 0 {
        v | ext
    } else {
        v
    }
}

/// True when the flag bit `mask` is set.
pub open spec fn spec_flag_set(mask: u64) -> Ir {
    Ir::CmpNe(
        Operand::Ir(Box::new(Ir::And(IrType::U64, Operand::Flag, Operand::Immediate(IrType::U64, mask)))),
        Operand::Immediate(IrType::U64, 0),
    )
}

pub fn flag_set(mask: u64) -> (res: Ir)
    ensures
        res == spec_flag_set(mask),
{
    Ir::CmpNe(
        Operand::Ir(Box::new(Ir::And(IrType::U64, Operand::Flag, Operand::Immediate(IrType::U64, mask)))),
        Operand::Immediate(IrType::U64, 0),
    )
}

pub open spec fn spec_not_bool(ir: Ir) -> Ir {
    Ir::Not(IrType::Bool, Operand::Ir(Box::new(ir)))
}

pub fn not_bool(ir: Ir) -> (res: Ir)
    ensures
        res == spec_not_bool(ir),
{
    Ir::Not(IrType::Bool, Operand::Ir(Box::new(ir)))
}

/// Whether N and V hold the same value.
pub open spec fn spec_n_eq_v() -> Ir {
    Ir::Not(
        IrType::Bool,
        Operand::Ir(
            Box::new(
                Ir::Xor(
                    IrType::Bool,
                    Operand::Ir(Box::new(spec_flag_set(FLAG_N))),
                    Operand::Ir(Box::new(spec_flag_set(FLAG_V))),
                ),
            ),
        ),
    )
}

pub fn n_eq_v() -> (res: Ir)
    ensures
        res == spec_n_eq_v(),
{
    Ir::Not(
        IrType::Bool,
        Operand::Ir(
            Box::new(
                Ir::Xor(
                    IrType::Bool,
                    Operand::Ir(Box::new(flag_set(FLAG_N))),
                    Operand::Ir(Box::new(flag_set(FLAG_V))),
                ),
            ),
        ),
    )
}

/// Boolean node that holds when condition code `c` holds for the flags.
#[verifier::opaque]
pub open spec fn spec_condition(c: u8) -> Ir {
    let base = if (c >> 1u8) == 0 {
        spec_flag_set(FLAG_Z)
    } else if (c >> 1u8) == 1 {
        spec_flag_set(FLAG_C)
    } else if (c >> 1u8) == 2 {
        spec_flag_set(FLAG_N)
    } else if (c >> 1u8) == 3 {
        spec_flag_set(FLAG_V)
    } else if (c >> 1u8) == 4 {
        Ir::And(
            IrType::Bool,
            Operand::Ir(Box::new(spec_flag_set(FLAG_C))),
            Operand::Ir(Box::new(spec_not_bool(spec_flag_set(FLAG_Z)))),
        )
    } else if (c >> 1u8) == 5 {
        spec_n_eq_v()
    } else if (c >> 1u8) == 6 {
        Ir::And(
            IrType::Bool,
            Operand::Ir(Box::new(spec_not_bool(spec_flag_set(FLAG_Z)))),
            Operand::Ir(Box::new(spec_n_eq_v())),
        )
    } else {
        Ir::Value(Operand::Immediate(IrType::Bool, 1))
    };
    if (c & 1u8) == 1 && c != 15 {
        spec_not_bool(base)
    } else {
        base
    }
}

pub fn condition(c: u8) -> (res: Ir)
    ensures
        res == spec_condition(c),
{
    reveal(spec_condition);
    let base = if (c >> 1u8) == 0 {
        flag_set(FLAG_Z)
    } else if (c >> 1u8) == 1 {
        flag_set(FLAG_C)
    } else if (c >> 1u8) == 2 {
        flag_set(FLAG_N)
    } else if (c >> 1u8) == 3 {
        flag_set(FLAG_V)
    } else if (c >> 1u8) == 4 {
        Ir::And(
            IrType::Bool,
            Operand::Ir(Box::new(flag_set(FLAG_C))),
            Operand::Ir(Box::new(not_bool(flag_set(FLAG_Z)))),
        )
    } else if (c >> 1u8) == 5 {
        n_eq_v()
    } else if (c >> 1u8) == 6 {
        Ir::And(
            IrType::Bool,
            Operand::Ir(Box::new(not_bool(flag_set(FLAG_Z)))),
            Operand::Ir(Box::new(n_eq_v())),
        )
    } else {
        Ir::Value(Operand::Immediate(IrType::Bool, 1))
    };
    if (c & 1u8) == 1 && c != 15 {
        not_bool(base)
    } else {
        base
    }
}

/// The signed type of the same width as `t`.
pub open spec fn spec_signed_type(t: IrType) -> IrType {
    if t == IrType::U32 {
        IrType::I32
    } else {
        IrType::I64
    }
}

pub fn signed_type(t: IrType) -> (res: IrType)
    ensures
        res == spec_signed_type(t),
{
    if t == IrType::U32 {
        IrType::I32
    } else {
        IrType::I64
    }
}

/// Register `rm` shifted as a shifted-register operand says.
pub open spec fn spec_shifted(t: IrType, rm: AArch64RegisterId, shift: u8, amount: u8) -> Operand {
    if amount == 0 {
        Operand::Gpr(t, rm)
    } else if shift == 0 {
        Operand::Ir(Box::new(Ir::LShl(t, Operand::Gpr(t, rm), Operand::Immediate(t, amount as u64))))
    } else if shift == 1 {
        Operand::Ir(Box::new(Ir::LShr(t, Operand::Gpr(t, rm), Operand::Immediate(t, amount as u64))))
    } else if shift == 2 {
        Operand::Ir(
            Box::new(
                Ir::AShr(spec_signed_type(t), Operand::Gpr(t, rm), Operand::Immediate(t, amount as u64)),
            ),
        )
    } else {
        Operand::Ir(Box::new(Ir::Rotr(t, Operand::Gpr(t, rm), Operand::Immediate(t, amount as u64))))
    }
}

pub fn shifted(t: IrType, rm: AArch64RegisterId, shift: u8, amount: u8) -> (res: Operand)
    ensures
        res == spec_shifted(t, rm, shift, amount),
{
    if amount == 0 {
        Operand::Gpr(t, rm)
    } else if shift == 0 {
        Operand::Ir(Box::new(Ir::LShl(t, Operand::Gpr(t, rm), Operand::Immediate(t, amount as u64))))
    } else if shift == 1 {
        Operand::Ir(Box::new(Ir::LShr(t, Operand::Gpr(t, rm), Operand::Immediate(t, amount as u64))))
    } else if shift == 2 {
        Operand::Ir(
            Box::new(
                Ir::AShr(signed_type(t), Operand::Gpr(t, rm), Operand::Immediate(t, amount as u64)),
            ),
        )
    } else {
        Operand::Ir(Box::new(Ir::Rotr(t, Operand::Gpr(t, rm), Operand::Immediate(t, amount as u64))))
    }
}

/// `kind` 0 adds, 1 adds and sets flags, 2 subtracts, 3 subtracts and sets flags.
pub open spec fn spec_arith(kind: u8, t: IrType, a: Operand, b: Operand) -> Ir {
    if kind == 0 {
        Ir::Add(t, a, b)
    } else if kind == 1 {
        Ir::Addc(t, a, b)
    } else if kind == 2 {
        Ir::Sub(t, a, b)
    } else {
        Ir::Subc(t, a, b)
    }
}

pub fn arith(kind: u8, t: IrType, a: Operand, b: Operand) -> (res: Ir)
    ensures
        res == spec_arith(kind, t, a, b),
{
    if kind == 0 {
        Ir::Add(t, a, b)
    } else if kind == 1 {
        Ir::Addc(t, a, b)
    } else if kind == 2 {
        Ir::Sub(t, a, b)
    } else {
        Ir::Subc(t, a, b)
    }
}

/// Add or subtract an immediate, shifted left by 12 when `sh` is set.
pub open spec fn spec_arith_imm(kind: u8, t: IrType, r: ShImm12RnRd) -> Stmt {
    let imm = (r.imm12 as u64) << (if r.sh == 1 { 12u64 } else { 0u64 });
    Stmt::SetGpr(t, r.rd, spec_arith(kind, t, Operand::Gpr(t, r.rn), Operand::Immediate(t, imm)))
}

pub fn arith_imm(kind: u8, t: IrType, r: ShImm12RnRd) -> (res: Stmt)
    ensures
        res == spec_arith_imm(kind, t, r),
{
    let imm = (r.imm12 as u64) << (if r.sh == 1 { 12u64 } else { 0u64 });
    Stmt::SetGpr(t, r.rd, arith(kind, t, Operand::Gpr(t, r.rn), Operand::Immediate(t, imm)))
}

/// Add or subtract a shifted register.
pub open spec fn spec_arith_shifted(kind: u8, t: IrType, r: ShiftRmImm6RnRd) -> Stmt {
    Stmt::SetGpr(t, r.rd, spec_arith(kind, t, Operand::Gpr(t, r.rn), spec_shifted(t, r.rm, r.shift, r.imm6)))
}

pub fn arith_shifted(kind: u8, t: IrType, r: ShiftRmImm6RnRd) -> (res: Stmt)
    ensures
        res == spec_arith_shifted(kind, t, r),
{
    Stmt::SetGpr(t, r.rd, arith(kind, t, Operand::Gpr(t, r.rn), shifted(t, r.rm, r.shift, r.imm6)))
}

/// `kind` 0 moves the inverted shifted immediate, 1 moves it, 2 keeps the other bits.
pub open spec fn spec_move_wide(kind: u8, t: IrType, r: HwImm16Rd) -> Stmt {
    let imm = (r.imm16 as u64) << ((r.hw as u64 % 4) * 16);
    if kind == 0 {
        Stmt::SetGpr(t, r.rd, Ir::Not(t, Operand::Immediate(t, imm)))
    } else if kind == 1 {
        Stmt::SetGpr(t, r.rd, Ir::Value(Operand::Immediate(t, imm)))
    } else {
        Stmt::SetGpr(
            t,
            r.rd,
            Ir::Or(
                t,
                Operand::Ir(Box::new(Ir::And(t, Operand::Gpr(t, r.rd), Operand::Immediate(t, !(0xffffu64 << ((r.hw as u64 % 4) * 16)))))),
                Operand::Immediate(t, imm),
            ),
        )
    }
}

pub fn move_wide(kind: u8, t: IrType, r: HwImm16Rd) -> (res: Stmt)
    ensures
        res == spec_move_wide(kind, t, r),
{
    let imm = (r.imm16 as u64) << ((r.hw as u64 % 4) * 16);
    if kind == 0 {
        Stmt::SetGpr(t, r.rd, Ir::Not(t, Operand::Immediate(t, imm)))
    } else if kind == 1 {
        Stmt::SetGpr(t, r.rd, Ir::Value(Operand::Immediate(t, imm)))
    } else {
        Stmt::SetGpr(
            t,
            r.rd,
            Ir::Or(
                t,
                Operand::Ir(Box::new(Ir::And(t, Operand::Gpr(t, r.rd), Operand::Immediate(t, !(0xffffu64 << ((r.hw as u64 % 4) * 16)))))),
                Operand::Immediate(t, imm),
            ),
        )
    }
}

/// `kind` 0 selects `rm`, 1 its increment, 2 its inversion, 3 its negation, when the condition fails.
pub open spec fn spec_cond_select(kind: u8, t: IrType, r: RmCondRnRd) -> Stmt {
    let other = if kind == 0 {
        Operand::Gpr(t, r.rm)
    } else if kind == 1 {
        Operand::Ir(Box::new(Ir::Add(t, Operand::Gpr(t, r.rm), Operand::Immediate(t, 1))))
    } else if kind == 2 {
        Operand::Ir(Box::new(Ir::Not(t, Operand::Gpr(t, r.rm))))
    } else {
        Operand::Ir(Box::new(Ir::Sub(t, Operand::Immediate(t, 0), Operand::Gpr(t, r.rm))))
    };
    Stmt::SetGpr(t, r.rd, Ir::If(t, Operand::Ir(Box::new(spec_condition(r.cond))), Operand::Gpr(t, r.rn), other))
}

pub fn cond_select(kind: u8, t: IrType, r: RmCondRnRd) -> (res: Stmt)
    ensures
        res == spec_cond_select(kind, t, r),
{
    let other = if kind == 0 {
        Operand::Gpr(t, r.rm)
    } else if kind == 1 {
        Operand::Ir(Box::new(Ir::Add(t, Operand::Gpr(t, r.rm), Operand::Immediate(t, 1))))
    } else if kind == 2 {
        Operand::Ir(Box::new(Ir::Not(t, Operand::Gpr(t, r.rm))))
    } else {
        Operand::Ir(Box::new(Ir::Sub(t, Operand::Immediate(t, 0), Operand::Gpr(t, r.rm))))
    };
    Stmt::SetGpr(t, r.rd, Ir::If(t, Operand::Ir(Box::new(condition(r.cond))), Operand::Gpr(t, r.rn), other))
}

/// `ra` plus (or minus, when `sub`) the product of `rn` and `rm`.
pub open spec fn spec_mul_add(sub: bool, t: IrType, r: DataProc3Src) -> Stmt {
    let prod = Operand::Ir(Box::new(Ir::Mul(t, Operand::Gpr(t, r.rn), Operand::Gpr(t, r.rm))));
    Stmt::SetGpr(t, r.rd, if sub { Ir::Sub(t, Operand::Gpr(t, r.ra), prod) } else { Ir::Add(t, Operand::Gpr(t, r.ra), prod) })
}

pub fn mul_add(sub: bool, t: IrType, r: DataProc3Src) -> (res: Stmt)
    ensures
        res == spec_mul_add(sub, t, r),
{
    let prod = Operand::Ir(Box::new(Ir::Mul(t, Operand::Gpr(t, r.rn), Operand::Gpr(t, r.rm))));
    Stmt::SetGpr(t, r.rd, if sub { Ir::Sub(t, Operand::Gpr(t, r.ra), prod) } else { Ir::Add(t, Operand::Gpr(t, r.ra), prod) })
}

/// `op` 0 unsigned divide, 1 signed divide, 2 to 5 shift left, logical right, arithmetic right, rotate right.
pub open spec fn spec_data_proc_2src(op: u8, t: IrType, r: DataProc2Src) -> Stmt {
    let a = Operand::Gpr(t, r.rn);
    let b = Operand::Gpr(t, r.rm);
    Stmt::SetGpr(
        t,
        r.rd,
        if op == 0 {
            Ir::Div(t, a, b)
        } else if op == 1 {
            Ir::Div(spec_signed_type(t), a, b)
        } else if op == 2 {
            Ir::LShl(t, a, b)
        } else if op == 3 {
            Ir::LShr(t, a, b)
        } else if op == 4 {
            Ir::AShr(spec_signed_type(t), a, b)
        } else {
            Ir::Rotr(t, a, b)
        },
    )
}

pub fn data_proc_2src(op: u8, t: IrType, r: DataProc2Src) -> (res: Stmt)
    ensures
        res == spec_data_proc_2src(op, t, r),
{
    let a = Operand::Gpr(t, r.rn);
    let b = Operand::Gpr(t, r.rm);
    Stmt::SetGpr(
        t,
        r.rd,
        if op == 0 {
            Ir::Div(t, a, b)
        } else if op == 1 {
            Ir::Div(signed_type(t), a, b)
        } else if op == 2 {
            Ir::LShl(t, a, b)
        } else if op == 3 {
            Ir::LShr(t, a, b)
        } else if op == 4 {
            Ir::AShr(signed_type(t), a, b)
        } else {
            Ir::Rotr(t, a, b)
        },
    )
}

pub open spec fn spec_advance() -> Stmt {
    Stmt::SetIp(spec_next_ip())
}

pub fn advance() -> (res: Stmt)
    ensures
        res == spec_advance(),
{
    Stmt::SetIp(next_ip())
}

/// Writes the return address to `X30`.
pub open spec fn spec_link() -> Stmt {
    Stmt::SetGpr(IrType::U64, AArch64RegisterId::X(30), spec_next_ip())
}

pub fn link() -> (res: Stmt)
    ensures
        res == spec_link(),
{
    Stmt::SetGpr(IrType::U64, AArch64RegisterId::X(30), next_ip())
}

pub open spec fn spec_branch_imm(r: Imm26) -> Stmt {
    Stmt::SetIp(spec_ip_plus(spec_sign_extend((r.imm26 as u64) << 2u64, 0x800_0000, 0xffff_ffff_f000_0000)))
}

pub fn branch_imm(r: Imm26) -> (res: Stmt)
    ensures
        res == spec_branch_imm(r),
{
    Stmt::SetIp(ip_plus(sign_extend((r.imm26 as u64) << 2u64, 0x800_0000, 0xffff_ffff_f000_0000)))
}

/// The branch target of a conditional branch, relative to the instruction.
pub open spec fn spec_cond_offset(imm19: u32) -> u64 {
    spec_sign_extend((imm19 as u64) << 2u64, 0x10_0000, 0xffff_ffff_ffe0_0000)
}

pub fn cond_offset(imm19: u32) -> (res: u64)
    ensures
        res == spec_cond_offset(imm19),
{
    sign_extend((imm19 as u64) << 2u64, 0x10_0000, 0xffff_ffff_ffe0_0000)
}

pub open spec fn spec_cond_branch(r: Imm19Cond) -> Stmt {
    Stmt::SetIp(
        Ir::If(
            IrType::U64,
            Operand::Ir(Box::new(spec_condition(r.cond))),
            Operand::Ir(Box::new(spec_ip_plus(spec_cond_offset(r.imm19)))),
            Operand::Ir(Box::new(spec_next_ip())),
        ),
    )
}

pub fn cond_branch(r: Imm19Cond) -> (res: Stmt)
    ensures
        res == spec_cond_branch(r),
{
    Stmt::SetIp(
        Ir::If(
            IrType::U64,
            Operand::Ir(Box::new(condition(r.cond))),
            Operand::Ir(Box::new(ip_plus(cond_offset(r.imm19)))),
            Operand::Ir(Box::new(next_ip())),
        ),
    )
}

/// Branch when `rt` is zero (or, when `nonzero`, is not zero).
pub open spec fn spec_cmp_branch(nonzero: bool, t: IrType, r: Imm19Rt) -> Stmt {
    let test = if nonzero {
        Ir::CmpNe(Operand::Gpr(t, r.rt), Operand::Immediate(t, 0))
    } else {
        Ir::CmpEq(Operand::Gpr(t, r.rt), Operand::Immediate(t, 0))
    };
    Stmt::SetIp(
        Ir::If(
            IrType::U64,
            Operand::Ir(Box::new(test)),
            Operand::Ir(Box::new(spec_ip_plus(spec_cond_offset(r.imm19)))),
            Operand::Ir(Box::new(spec_next_ip())),
        ),
    )
}

pub fn cmp_branch(nonzero: bool, t: IrType, r: Imm19Rt) -> (res: Stmt)
    ensures
        res == spec_cmp_branch(nonzero, t, r),
{
    let test = if nonzero {
        Ir::CmpNe(Operand::Gpr(t, r.rt), Operand::Immediate(t, 0))
    } else {
        Ir::CmpEq(Operand::Gpr(t, r.rt), Operand::Immediate(t, 0))
    };
    Stmt::SetIp(
        Ir::If(
            IrType::U64,
            Operand::Ir(Box::new(test)),
            Operand::Ir(Box::new(ip_plus(cond_offset(r.imm19)))),
            Operand::Ir(Box::new(next_ip())),
        ),
    )
}

/// Branch when bit `b5:b40` of `rt` is zero (or, when `nonzero`, is one).
pub open spec fn spec_test_branch(nonzero: bool, r: B5B40Imm14Rt) -> Stmt {
    let bit = ((r.b5 as u64) << 5u64) | (r.b40 as u64);
    let v = Operand::Ir(
        Box::new(
            Ir::And(
                IrType::U64,
                Operand::Ir(Box::new(Ir::LShr(IrType::U64, Operand::Gpr(IrType::U64, r.rt), Operand::Immediate(IrType::U64, bit)))),
                Operand::Immediate(IrType::U64, 1),
            ),
        ),
    );
    let test = if nonzero {
        Ir::CmpNe(v, Operand::Immediate(IrType::U64, 0))
    } else {
        Ir::CmpEq(v, Operand::Immediate(IrType::U64, 0))
    };
    let off = spec_sign_extend((r.imm14 as u64) << 2u64, 0x8000, 0xffff_ffff_ffff_0000);
    Stmt::SetIp(
        Ir::If(
            IrType::U64,
            Operand::Ir(Box::new(test)),
            Operand::Ir(Box::new(spec_ip_plus(off))),
            Operand::Ir(Box::new(spec_next_ip())),
        ),
    )
}

pub fn test_branch(nonzero: bool, r: B5B40Imm14Rt) -> (res: Stmt)
    ensures
        res == spec_test_branch(nonzero, r),
{
    let bit = ((r.b5 as u64) << 5u64) | (r.b40 as u64);
    let v = Operand::Ir(
        Box::new(
            Ir::And(
                IrType::U64,
                Operand::Ir(Box::new(Ir::LShr(IrType::U64, Operand::Gpr(IrType::U64, r.rt), Operand::Immediate(IrType::U64, bit)))),
                Operand::Immediate(IrType::U64, 1),
            ),
        ),
    );
    let test = if nonzero {
        Ir::CmpNe(v, Operand::Immediate(IrType::U64, 0))
    } else {
        Ir::CmpEq(v, Operand::Immediate(IrType::U64, 0))
    };
    let off = sign_extend((r.imm14 as u64) << 2u64, 0x8000, 0xffff_ffff_ffff_0000);
    Stmt::SetIp(
        Ir::If(
            IrType::U64,
            Operand::Ir(Box::new(test)),
            Operand::Ir(Box::new(ip_plus(off))),
            Operand::Ir(Box::new(next_ip())),
        ),
    )
}

pub open spec fn spec_branch_reg(r: UncondBranchReg) -> Stmt {
    Stmt::SetIp(Ir::Value(Operand::Gpr(IrType::U64, r.rn)))
}

pub fn branch_reg(r: UncondBranchReg) -> (res: Stmt)
    ensures
        res == spec_branch_reg(r),
{
    Stmt::SetIp(Ir::Value(Operand::Gpr(IrType::U64, r.rn)))
}

/// The address of the instruction plus the immediate (`adr`), or of its
/// 4 KiB page plus the immediate times 4 KiB (`adrp`).
pub open spec fn spec_pc_rel(page: bool, r: PcRelAddressing) -> Stmt {
    let imm = spec_sign_extend(((r.immhi as u64) << 2u64) | (r.immlo as u64), 0x10_0000, 0xffff_ffff_ffe0_0000);
    if page {
        Stmt::SetGpr(
            IrType::U64,
            r.rd,
            Ir::Add(
                IrType::U64,
                Operand::Ir(Box::new(Ir::And(IrType::U64, Operand::Ip, Operand::Immediate(IrType::U64, !0xfffu64)))),
                Operand::Immediate(IrType::I64, imm << 12u64),
            ),
        )
    } else {
        Stmt::SetGpr(IrType::U64, r.rd, spec_ip_plus(imm))
    }
}

pub fn pc_rel(page: bool, r: PcRelAddressing) -> (res: Stmt)
    ensures
        res == spec_pc_rel(page, r),
{
    let imm = sign_extend(((r.immhi as u64) << 2u64) | (r.immlo as u64), 0x10_0000, 0xffff_ffff_ffe0_0000);
    if page {
        Stmt::SetGpr(
            IrType::U64,
            r.rd,
            Ir::Add(
                IrType::U64,
                Operand::Ir(Box::new(Ir::And(IrType::U64, Operand::Ip, Operand::Immediate(IrType::U64, !0xfffu64)))),
                Operand::Immediate(IrType::I64, imm << 12u64),
            ),
        )
    } else {
        Stmt::SetGpr(IrType::U64, r.rd, ip_plus(imm))
    }
}

/// Address `rn` plus the unsigned immediate scaled by the access size `1 << scale`.
pub open spec fn spec_imm_address(scale: u64, r: OpcSizeImm12RnRt) -> Ir {
    Ir::Add(IrType::U64, Operand::Gpr(IrType::U64, r.rn), Operand::Immediate(IrType::U64, (r.imm12 as u64) << scale))
}

pub fn imm_address(scale: u64, r: OpcSizeImm12RnRt) -> (res: Ir)
    requires
        scale < 8,
    ensures
        res == spec_imm_address(scale, r),
{
    Ir::Add(IrType::U64, Operand::Gpr(IrType::U64, r.rn), Operand::Immediate(IrType::U64, (r.imm12 as u64) << scale))
}

/// Load of type `mem` into `rt`, zero- or sign-extended (`signed`) to `dst`.
pub open spec fn spec_load_imm(mem: IrType, dst: IrType, signed: bool, scale: u64, r: OpcSizeImm12RnRt) -> Stmt {
    let value = Operand::Ir(Box::new(Ir::Load(mem, Operand::Ir(Box::new(spec_imm_address(scale, r))))));
    let ext = if signed { Ir::SextCast(dst, value) } else { Ir::ZextCast(dst, value) };
    if r.rt is V {
        Stmt::SetFpr(dst, r.rt, ext)
    } else {
        Stmt::SetGpr(dst, r.rt, ext)
    }
}

pub fn load_imm(mem: IrType, dst: IrType, signed: bool, scale: u64, r: OpcSizeImm12RnRt) -> (res: Stmt)
    requires
        scale < 8,
    ensures
        res == spec_load_imm(mem, dst, signed, scale, r),
{
    let value = Operand::Ir(Box::new(Ir::Load(mem, Operand::Ir(Box::new(imm_address(scale, r))))));
    let ext = if signed { Ir::SextCast(dst, value) } else { Ir::ZextCast(dst, value) };
    if matches!(r.rt, AArch64RegisterId::V(_)) {
        Stmt::SetFpr(dst, r.rt, ext)
    } else {
        Stmt::SetGpr(dst, r.rt, ext)
    }
}

/// Store of the low bits of `rt` at type `mem`.
pub open spec fn spec_store_imm(mem: IrType, scale: u64, r: OpcSizeImm12RnRt) -> Stmt {
    let value = if r.rt is V { Ir::Value(Operand::Fpr(mem, r.rt)) } else { Ir::Value(Operand::Gpr(mem, r.rt)) };
    Stmt::Store(mem, spec_imm_address(scale, r), value)
}

pub fn store_imm(mem: IrType, scale: u64, r: OpcSizeImm12RnRt) -> (res: Stmt)
    requires
        scale < 8,
    ensures
        res == spec_store_imm(mem, scale, r),
{
    let value = if matches!(r.rt, AArch64RegisterId::V(_)) { Ir::Value(Operand::Fpr(mem, r.rt)) } else { Ir::Value(Operand::Gpr(mem, r.rt)) };
    Stmt::Store(mem, imm_address(scale, r), value)
}

/// The signed 7-bit immediate of a pair access, scaled by `1 << scale`.
pub open spec fn spec_pair_offset(scale: u64, r: LoadStoreRegPair) -> u64 {
    spec_sign_extend(r.imm7 as u64, 0x40, 0xffff_ffff_ffff_ff80) << scale
}

pub fn pair_offset(scale: u64, r: LoadStoreRegPair) -> (res: u64)
    requires
        scale < 8,
    ensures
        res == spec_pair_offset(scale, r),
{
    sign_extend(r.imm7 as u64, 0x40, 0xffff_ffff_ffff_ff80) << scale
}

/// Address of a pair access plus `extra`: `rn` itself after the access
/// (post-index, `idx` 1), `rn` plus the offset otherwise.
pub open spec fn spec_pair_address(scale: u64, extra: u64, r: LoadStoreRegPair) -> Ir {
    let base = if r.idx == 1 {
        Operand::Gpr(IrType::U64, r.rn)
    } else {
        Operand::Ir(Box::new(Ir::Add(IrType::U64, Operand::Gpr(IrType::U64, r.rn), Operand::Immediate(IrType::U64, spec_pair_offset(scale, r)))))
    };
    Ir::Add(IrType::U64, base, Operand::Immediate(IrType::U64, extra))
}

pub fn pair_address(scale: u64, extra: u64, r: LoadStoreRegPair) -> (res: Ir)
    requires
        scale < 8,
    ensures
        res == spec_pair_address(scale, extra, r),
{
    let base = if r.idx == 1 {
        Operand::Gpr(IrType::U64, r.rn)
    } else {
        Operand::Ir(Box::new(Ir::Add(IrType::U64, Operand::Gpr(IrType::U64, r.rn), Operand::Immediate(IrType::U64, pair_offset(scale, r)))))
    };
    Ir::Add(IrType::U64, base, Operand::Immediate(IrType::U64, extra))
}

pub open spec fn spec_pair_load(t: IrType, scale: u64, second: bool, r: LoadStoreRegPair) -> Stmt {
    let extra = if second { 1u64 << scale } else { 0u64 };
    Stmt::SetGpr(t, if second { r.rt2 } else { r.rt }, Ir::Load(t, Operand::Ir(Box::new(spec_pair_address(scale, extra, r)))))
}

pub fn pair_load(t: IrType, scale: u64, second: bool, r: LoadStoreRegPair) -> (res: Stmt)
    requires
        scale < 8,
    ensures
        res == spec_pair_load(t, scale, second, r),
{
    let extra = if second { 1u64 << scale } else { 0u64 };
    Stmt::SetGpr(t, if second { r.rt2 } else { r.rt }, Ir::Load(t, Operand::Ir(Box::new(pair_address(scale, extra, r)))))
}

pub open spec fn spec_pair_store(t: IrType, scale: u64, second: bool, r: LoadStoreRegPair) -> Stmt {
    let extra = if second { 1u64 << scale } else { 0u64 };
    Stmt::Store(t, spec_pair_address(scale, extra, r), Ir::Value(Operand::Gpr(t, if second { r.rt2 } else { r.rt })))
}

pub fn pair_store(t: IrType, scale: u64, second: bool, r: LoadStoreRegPair) -> (res: Stmt)
    requires
        scale < 8,
    ensures
        res == spec_pair_store(t, scale, second, r),
{
    let extra = if second { 1u64 << scale } else { 0u64 };
    Stmt::Store(t, pair_address(scale, extra, r), Ir::Value(Operand::Gpr(t, if second { r.rt2 } else { r.rt })))
}

/// Adds the offset of a pre- or post-indexed pair access to `rn`.
pub open spec fn spec_pair_writeback(scale: u64, r: LoadStoreRegPair) -> Stmt {
    Stmt::SetGpr(IrType::U64, r.rn, Ir::Add(IrType::U64, Operand::Gpr(IrType::U64, r.rn), Operand::Immediate(IrType::U64, spec_pair_offset(scale, r))))
}

pub fn pair_writeback(scale: u64, r: LoadStoreRegPair) -> (res: Stmt)
    requires
        scale < 8,
    ensures
        res == spec_pair_writeback(scale, r),
{
    Stmt::SetGpr(IrType::U64, r.rn, Ir::Add(IrType::U64, Operand::Gpr(IrType::U64, r.rn), Operand::Immediate(IrType::U64, pair_offset(scale, r))))
}

/// The signed 9-bit immediate of an unscaled or indexed access.
pub open spec fn spec_imm9_offset(r: LdStRegUnscaledImm) -> u64 {
    spec_sign_extend(r.imm9 as u64, 0x100, 0xffff_ffff_ffff_fe00)
}

pub fn imm9_offset(r: LdStRegUnscaledImm) -> (res: u64)
    ensures
        res == spec_imm9_offset(r),
{
    sign_extend(r.imm9 as u64, 0x100, 0xffff_ffff_ffff_fe00)
}

/// Address of an unscaled or indexed access: `rn` itself after the access
/// (post-index, `idx` 1), `rn` plus the offset otherwise.
pub open spec fn spec_imm9_address(r: LdStRegUnscaledImm) -> Ir {
    if r.idx == 1 {
        Ir::Value(Operand::Gpr(IrType::U64, r.rn))
    } else {
        Ir::Add(IrType::U64, Operand::Gpr(IrType::U64, r.rn), Operand::Immediate(IrType::U64, spec_imm9_offset(r)))
    }
}

pub fn imm9_address(r: LdStRegUnscaledImm) -> (res: Ir)
    ensures
        res == spec_imm9_address(r),
{
    if r.idx == 1 {
        Ir::Value(Operand::Gpr(IrType::U64, r.rn))
    } else {
        Ir::Add(IrType::U64, Operand::Gpr(IrType::U64, r.rn), Operand::Immediate(IrType::U64, imm9_offset(r)))
    }
}

/// Load of type `mem` into `rt`, zero- or sign-extended (`signed`) to `dst`.
pub open spec fn spec_imm9_load(mem: IrType, dst: IrType, signed: bool, r: LdStRegUnscaledImm) -> Stmt {
    let value = Operand::Ir(Box::new(Ir::Load(mem, Operand::Ir(Box::new(spec_imm9_address(r))))));
    let ext = if signed { Ir::SextCast(dst, value) } else { Ir::ZextCast(dst, value) };
    if r.rt is V {
        Stmt::SetFpr(dst, r.rt, ext)
    } else {
        Stmt::SetGpr(dst, r.rt, ext)
    }
}

pub fn imm9_load(mem: IrType, dst: IrType, signed: bool, r: LdStRegUnscaledImm) -> (res: Stmt)
    ensures
        res == spec_imm9_load(mem, dst, signed, r),
{
    let value = Operand::Ir(Box::new(Ir::Load(mem, Operand::Ir(Box::new(imm9_address(r))))));
    let ext = if signed { Ir::SextCast(dst, value) } else { Ir::ZextCast(dst, value) };
    if matches!(r.rt, AArch64RegisterId::V(_)) {
        Stmt::SetFpr(dst, r.rt, ext)
    } else {
        Stmt::SetGpr(dst, r.rt, ext)
    }
}

/// Store of the low bits of `rt` at type `mem`.
pub open spec fn spec_imm9_store(mem: IrType, r: LdStRegUnscaledImm) -> Stmt {
    let value = if r.rt is V { Ir::Value(Operand::Fpr(mem, r.rt)) } else { Ir::Value(Operand::Gpr(mem, r.rt)) };
    Stmt::Store(mem, spec_imm9_address(r), value)
}

pub fn imm9_store(mem: IrType, r: LdStRegUnscaledImm) -> (res: Stmt)
    ensures
        res == spec_imm9_store(mem, r),
{
    let value = if matches!(r.rt, AArch64RegisterId::V(_)) { Ir::Value(Operand::Fpr(mem, r.rt)) } else { Ir::Value(Operand::Gpr(mem, r.rt)) };
    Stmt::Store(mem, imm9_address(r), value)
}

/// Adds the offset of a pre- or post-indexed access to `rn`.
pub open spec fn spec_imm9_writeback(r: LdStRegUnscaledImm) -> Stmt {
    Stmt::SetGpr(IrType::U64, r.rn, Ir::Add(IrType::U64, Operand::Gpr(IrType::U64, r.rn), Operand::Immediate(IrType::U64, spec_imm9_offset(r))))
}

pub fn imm9_writeback(r: LdStRegUnscaledImm) -> (res: Stmt)
    ensures
        res == spec_imm9_writeback(r),
{
    Stmt::SetGpr(IrType::U64, r.rn, Ir::Add(IrType::U64, Operand::Gpr(IrType::U64, r.rn), Operand::Immediate(IrType::U64, imm9_offset(r))))
}

/// The result of `op` (0 and, 1 or, 2 exclusive or) of `rn` and the shifted `rm`, inverted first when `invert`.
pub open spec fn spec_logic_value(op: u8, invert: bool, t: IrType, r: ShiftRmImm6RnRd) -> Ir {
    let b = if invert {
        Operand::Ir(Box::new(Ir::Not(t, spec_shifted(t, r.rm, r.shift, r.imm6))))
    } else {
        spec_shifted(t, r.rm, r.shift, r.imm6)
    };
    let a = Operand::Gpr(t, r.rn);
    if op == 0 { Ir::And(t, a, b) } else if op == 1 { Ir::Or(t, a, b) } else { Ir::Xor(t, a, b) }
}

pub fn logic_value(op: u8, invert: bool, t: IrType, r: ShiftRmImm6RnRd) -> (res: Ir)
    ensures
        res == spec_logic_value(op, invert, t, r),
{
    let b = if invert {
        Operand::Ir(Box::new(Ir::Not(t, shifted(t, r.rm, r.shift, r.imm6))))
    } else {
        shifted(t, r.rm, r.shift, r.imm6)
    };
    let a = Operand::Gpr(t, r.rn);
    if op == 0 { Ir::And(t, a, b) } else if op == 1 { Ir::Or(t, a, b) } else { Ir::Xor(t, a, b) }
}

/// `op` 0 and, 1 or, 2 exclusive or, of `rn` and the shifted `rm`, inverted first when `invert`.
pub open spec fn spec_logic_shifted(op: u8, invert: bool, t: IrType, r: ShiftRmImm6RnRd) -> Stmt {
    Stmt::SetGpr(t, r.rd, spec_logic_value(op, invert, t, r))
}

pub fn logic_shifted(op: u8, invert: bool, t: IrType, r: ShiftRmImm6RnRd) -> (res: Stmt)
    ensures
        res == spec_logic_shifted(op, invert, t, r),
{
    Stmt::SetGpr(t, r.rd, logic_value(op, invert, t, r))
}

/// Flags of a logical result: N is its top bit, Z whether it is zero, C and V clear.
pub open spec fn spec_logic_flags(t: IrType, result: Ir, again: Ir) -> Stmt {
    let top = if t == IrType::U32 { 31u64 } else { 63u64 };
    let n = Ir::LShl(
        IrType::U64,
        Operand::Ir(Box::new(Ir::ZextCast(IrType::U64, Operand::Ir(Box::new(Ir::LShr(t, Operand::Ir(Box::new(result)), Operand::Immediate(t, top))))))),
        Operand::Immediate(IrType::U64, 31),
    );
    let z = Ir::LShl(
        IrType::U64,
        Operand::Ir(Box::new(Ir::ZextCast(IrType::U64, Operand::Ir(Box::new(Ir::CmpEq(Operand::Ir(Box::new(again)), Operand::Immediate(t, 0))))))),
        Operand::Immediate(IrType::U64, 30),
    );
    Stmt::SetFlag(Ir::Or(IrType::U64, Operand::Ir(Box::new(n)), Operand::Ir(Box::new(z))))
}

pub fn logic_flags(t: IrType, result: Ir, again: Ir) -> (res: Stmt)
    ensures
        res == spec_logic_flags(t, result, again),
{
    let top = if t == IrType::U32 { 31u64 } else { 63u64 };
    let n = Ir::LShl(
        IrType::U64,
        Operand::Ir(Box::new(Ir::ZextCast(IrType::U64, Operand::Ir(Box::new(Ir::LShr(t, Operand::Ir(Box::new(result)), Operand::Immediate(t, top))))))),
        Operand::Immediate(IrType::U64, 31),
    );
    let z = Ir::LShl(
        IrType::U64,
        Operand::Ir(Box::new(Ir::ZextCast(IrType::U64, Operand::Ir(Box::new(Ir::CmpEq(Operand::Ir(Box::new(again)), Operand::Immediate(t, 0))))))),
        Operand::Immediate(IrType::U64, 30),
    );
    Stmt::SetFlag(Ir::Or(IrType::U64, Operand::Ir(Box::new(n)), Operand::Ir(Box::new(z))))
}

/// Ones in the low `n` bits.
pub open spec fn spec_low_mask(n: u64) -> u64 {
    if n >= 64 { !0u64 } else { !(!0u64 << n) }
}

pub fn low_mask(n: u64) -> (res: u64)
    ensures
        res == spec_low_mask(n),
{
    if n >= 64 { !0u64 } else { !(!0u64 << n) }
}

/// Bitfield move of `rn` into `rd` (`signed`: sign-extending), for the
/// forms that clear the bits outside the field.
pub open spec fn spec_bitfield(signed: bool, t: IrType, r: Bitfield) -> Stmt {
    let w: u64 = if t == IrType::U32 { 32 } else { 64 };
    let s = r.imms as u64 % w;
    let q = r.immr as u64 % w;
    let src = Operand::Gpr(t, r.rn);
    let value = if !signed {
        if s >= q {
            Ir::And(t, Operand::Ir(Box::new(Ir::LShr(t, src, Operand::Immediate(t, q)))), Operand::Immediate(t, spec_low_mask((s - q + 1) as u64)))
        } else {
            Ir::LShl(t, Operand::Ir(Box::new(Ir::And(t, src, Operand::Immediate(t, spec_low_mask((s + 1) as u64))))), Operand::Immediate(t, (w - q) as u64))
        }
    } else {
        let up = Operand::Ir(Box::new(Ir::LShl(t, src, Operand::Immediate(t, (w - 1 - s) as u64))));
        if s >= q {
            Ir::AShr(spec_signed_type(t), up, Operand::Immediate(t, (w - 1 - s + q) as u64))
        } else {
            Ir::LShl(
                t,
                Operand::Ir(Box::new(Ir::AShr(spec_signed_type(t), up, Operand::Immediate(t, (w - 1 - s) as u64)))),
                Operand::Immediate(t, (w - q) as u64),
            )
        }
    };
    Stmt::SetGpr(t, r.rd, value)
}

pub fn bitfield(signed: bool, t: IrType, r: Bitfield) -> (res: Stmt)
    ensures
        res == spec_bitfield(signed, t, r),
{
    let w: u64 = if t == IrType::U32 { 32 } else { 64 };
    let s = r.imms as u64 % w;
    let q = r.immr as u64 % w;
    let src = Operand::Gpr(t, r.rn);
    let value = if !signed {
        if s >= q {
            Ir::And(t, Operand::Ir(Box::new(Ir::LShr(t, src, Operand::Immediate(t, q)))), Operand::Immediate(t, low_mask((s - q + 1) as u64)))
        } else {
            Ir::LShl(t, Operand::Ir(Box::new(Ir::And(t, src, Operand::Immediate(t, low_mask((s + 1) as u64))))), Operand::Immediate(t, (w - q) as u64))
        }
    } else {
        let up = Operand::Ir(Box::new(Ir::LShl(t, src, Operand::Immediate(t, (w - 1 - s) as u64))));
        if s >= q {
            Ir::AShr(signed_type(t), up, Operand::Immediate(t, (w - 1 - s + q) as u64))
        } else {
            Ir::LShl(
                t,
                Operand::Ir(Box::new(Ir::AShr(signed_type(t), up, Operand::Immediate(t, (w - 1 - s) as u64)))),
                Operand::Immediate(t, (w - q) as u64),
            )
        }
    };
    Stmt::SetGpr(t, r.rd, value)
}

/// Register `rm` extended as `option` says (byte, half, word or double
/// word; unsigned below 4, signed from 4 on) and shifted left by `amount`.
pub open spec fn spec_extended(t: IrType, rm: AArch64RegisterId, option: u8, amount: u64) -> Operand {
    let from = if option % 4 == 0 { 0u8 } else if option % 4 == 1 { 1u8 } else if option % 4 == 2 { 2u8 } else { 3u8 };
    let src = if option < 4 {
        if from == 0 {
            Ir::ZextCast(t, Operand::Gpr(IrType::U8, rm))
        } else if from == 1 {
            Ir::ZextCast(t, Operand::Gpr(IrType::U16, rm))
        } else if from == 2 {
            Ir::ZextCast(t, Operand::Gpr(IrType::U32, rm))
        } else {
            Ir::ZextCast(t, Operand::Gpr(IrType::U64, rm))
        }
    } else {
        if from == 0 {
            Ir::SextCast(t, Operand::Gpr(IrType::I8, rm))
        } else if from == 1 {
            Ir::SextCast(t, Operand::Gpr(IrType::I16, rm))
        } else if from == 2 {
            Ir::SextCast(t, Operand::Gpr(IrType::I32, rm))
        } else {
            Ir::SextCast(t, Operand::Gpr(IrType::I64, rm))
        }
    };
    Operand::Ir(Box::new(Ir::LShl(t, Operand::Ir(Box::new(src)), Operand::Immediate(t, amount))))
}

pub fn extended(t: IrType, rm: AArch64RegisterId, option: u8, amount: u64) -> (res: Operand)
    ensures
        res == spec_extended(t, rm, option, amount),
{
    let from = if option % 4 == 0 { 0u8 } else if option % 4 == 1 { 1u8 } else if option % 4 == 2 { 2u8 } else { 3u8 };
    let src = if option < 4 {
        if from == 0 {
            Ir::ZextCast(t, Operand::Gpr(IrType::U8, rm))
        } else if from == 1 {
            Ir::ZextCast(t, Operand::Gpr(IrType::U16, rm))
        } else if from == 2 {
            Ir::ZextCast(t, Operand::Gpr(IrType::U32, rm))
        } else {
            Ir::ZextCast(t, Operand::Gpr(IrType::U64, rm))
        }
    } else {
        if from == 0 {
            Ir::SextCast(t, Operand::Gpr(IrType::I8, rm))
        } else if from == 1 {
            Ir::SextCast(t, Operand::Gpr(IrType::I16, rm))
        } else if from == 2 {
            Ir::SextCast(t, Operand::Gpr(IrType::I32, rm))
        } else {
            Ir::SextCast(t, Operand::Gpr(IrType::I64, rm))
        }
    };
    Operand::Ir(Box::new(Ir::LShl(t, Operand::Ir(Box::new(src)), Operand::Immediate(t, amount))))
}

/// Add or subtract an extended register.
pub open spec fn spec_arith_extended(kind: u8, t: IrType, r: AddSubtractExtReg) -> Stmt {
    Stmt::SetGpr(t, r.rd, spec_arith(kind, t, Operand::Gpr(t, r.rn), spec_extended(t, r.rm, r.option, r.imm3 as u64)))
}

pub fn arith_extended(kind: u8, t: IrType, r: AddSubtractExtReg) -> (res: Stmt)
    ensures
        res == spec_arith_extended(kind, t, r),
{
    Stmt::SetGpr(t, r.rd, arith(kind, t, Operand::Gpr(t, r.rn), extended(t, r.rm, r.option, r.imm3 as u64)))
}

/// Address `rn` plus `rm` extended by `option` and scaled by the access size `1 << scale` when `s` is set.
pub open spec fn spec_reg_address(scale: u64, r: LoadStoreRegRegOffset) -> Ir {
    Ir::Add(IrType::U64, Operand::Gpr(IrType::U64, r.rn), spec_extended(IrType::U64, r.rm, r.option, if r.s == 1 { scale } else { 0u64 }))
}

pub fn reg_address(scale: u64, r: LoadStoreRegRegOffset) -> (res: Ir)
    requires
        scale < 8,
    ensures
        res == spec_reg_address(scale, r),
{
    Ir::Add(IrType::U64, Operand::Gpr(IrType::U64, r.rn), extended(IrType::U64, r.rm, r.option, if r.s == 1 { scale } else { 0u64 }))
}

/// Load of type `mem` into `rt`, zero- or sign-extended (`signed`) to `dst`, from a register offset.
pub open spec fn spec_load_reg(mem: IrType, dst: IrType, signed: bool, scale: u64, r: LoadStoreRegRegOffset) -> Stmt {
    let value = Operand::Ir(Box::new(Ir::Load(mem, Operand::Ir(Box::new(spec_reg_address(scale, r))))));
    Stmt::SetGpr(dst, r.rt, if signed { Ir::SextCast(dst, value) } else { Ir::ZextCast(dst, value) })
}

pub fn load_reg(mem: IrType, dst: IrType, signed: bool, scale: u64, r: LoadStoreRegRegOffset) -> (res: Stmt)
    requires
        scale < 8,
    ensures
        res == spec_load_reg(mem, dst, signed, scale, r),
{
    let value = Operand::Ir(Box::new(Ir::Load(mem, Operand::Ir(Box::new(reg_address(scale, r))))));
    Stmt::SetGpr(dst, r.rt, if signed { Ir::SextCast(dst, value) } else { Ir::ZextCast(dst, value) })
}

/// Store of the low bits of `rt` at type `mem`, at a register offset.
pub open spec fn spec_store_reg(mem: IrType, scale: u64, r: LoadStoreRegRegOffset) -> Stmt {
    Stmt::Store(mem, spec_reg_address(scale, r), Ir::Value(Operand::Gpr(mem, r.rt)))
}

pub fn store_reg(mem: IrType, scale: u64, r: LoadStoreRegRegOffset) -> (res: Stmt)
    requires
        scale < 8,
    ensures
        res == spec_store_reg(mem, scale, r),
{
    Stmt::Store(mem, reg_address(scale, r), Ir::Value(Operand::Gpr(mem, r.rt)))
}

/// The highest set bit of a 7-bit value, zero for zero.
pub open spec fn spec_highest_bit(c: u64) -> u64 {
    if c >= 64 {
        6
    } else if c >= 32 {
        5
    } else if c >= 16 {
        4
    } else if c >= 8 {
        3
    } else if c >= 4 {
        2
    } else if c >= 2 {
        1
    } else {
        0
    }
}

pub fn highest_bit(c: u64) -> (res: u64)
    ensures
        res == spec_highest_bit(c),
{
    if c >= 64 {
        6
    } else if c >= 32 {
        5
    } else if c >= 16 {
        4
    } else if c >= 8 {
        3
    } else if c >= 4 {
        2
    } else if c >= 2 {
        1
    } else {
        0
    }
}

/// `elem`, a pattern of `esize` bits, repeated to fill 64 bits.
pub open spec fn spec_replicate(elem: u64, esize: u64) -> u64 {
    let r2 = if esize <= 2 { elem | (elem << 2u64) } else { elem };
    let r4 = if esize <= 4 { r2 | (r2 << 4u64) } else { r2 };
    let r8 = if esize <= 8 { r4 | (r4 << 8u64) } else { r4 };
    let r16 = if esize <= 16 { r8 | (r8 << 16u64) } else { r8 };
    if esize <= 32 { r16 | (r16 << 32u64) } else { r16 }
}

pub fn replicate(elem: u64, esize: u64) -> (res: u64)
    ensures
        res == spec_replicate(elem, esize),
{
    let r2 = if esize <= 2 { elem | (elem << 2u64) } else { elem };
    let r4 = if esize <= 4 { r2 | (r2 << 4u64) } else { r2 };
    let r8 = if esize <= 8 { r4 | (r4 << 8u64) } else { r4 };
    let r16 = if esize <= 16 { r8 | (r8 << 16u64) } else { r8 };
    if esize <= 32 { r16 | (r16 << 32u64) } else { r16 }
}

/// The bitmask immediate that `n`, `immr` and `imms` encode for a
/// `width`-bit operation: a run of `imms + 1` ones rotated right by `immr`
/// within an element, the element repeated. `None` for reserved encodings.
pub open spec fn spec_bit_masks(n: u8, immr: u8, imms: u8, width: u64) -> Option<u64> {
    let combined = ((n as u64 % 2) << 6u64) | (!(imms as u64) & 0x3fu64);
    let len = spec_highest_bit(combined);
    let esize: u64 = if len == 1 {
        2
    } else if len == 2 {
        4
    } else if len == 3 {
        8
    } else if len == 4 {
        16
    } else if len == 5 {
        32
    } else {
        64
    };
    let s = (imms as u64 % esize) as u64;
    let q = (immr as u64 % esize) as u64;
    if combined < 2 || s == esize - 1 || esize > width {
        None
    } else {
        let rep = spec_replicate(spec_low_mask((s + 1) as u64), esize);
        Some(if q == 0 { rep } else { (rep >> q) | (rep << (64 - q) as u64) })
    }
}

pub fn bit_masks(n: u8, immr: u8, imms: u8, width: u64) -> (res: Option<u64>)
    ensures
        res == spec_bit_masks(n, immr, imms, width),
{
    let combined = ((n as u64 % 2) << 6u64) | (!(imms as u64) & 0x3fu64);
    let len = highest_bit(combined);
    let esize: u64 = if len == 1 {
        2
    } else if len == 2 {
        4
    } else if len == 3 {
        8
    } else if len == 4 {
        16
    } else if len == 5 {
        32
    } else {
        64
    };
    let s = (imms as u64 % esize) as u64;
    let q = (immr as u64 % esize) as u64;
    if combined < 2 || s == esize - 1 || esize > width {
        None
    } else {
        let rep = replicate(low_mask((s + 1) as u64), esize);
        Some(if q == 0 { rep } else { (rep >> q) | (rep << (64 - q) as u64) })
    }
}

/// `op` 0 and, 1 or, 2 exclusive or, of `rn` and a bitmask immediate; a
/// reserved immediate makes a trap with code word `word`.
pub open spec fn spec_logic_imm(op: u8, t: IrType, r: LogicalImm, word: u32) -> Stmt {
    let width: u64 = if t == IrType::U32 { 32 } else { 64 };
    match spec_bit_masks(r.n, r.immr, r.imms, width) {
        Some(m) => {
            let a = Operand::Gpr(t, r.rn);
            let b = Operand::Immediate(t, m);
            Stmt::SetGpr(t, r.rd, if op == 0 { Ir::And(t, a, b) } else if op == 1 { Ir::Or(t, a, b) } else { Ir::Xor(t, a, b) })
        },
        None => Stmt::Trap(word),
    }
}

pub fn logic_imm(op: u8, t: IrType, r: LogicalImm, word: u32) -> (res: Stmt)
    ensures
        res == spec_logic_imm(op, t, r, word),
{
    let width: u64 = if t == IrType::U32 { 32 } else { 64 };
    match bit_masks(r.n, r.immr, r.imms, width) {
        Some(m) => {
            let a = Operand::Gpr(t, r.rn);
            let b = Operand::Immediate(t, m);
            Stmt::SetGpr(t, r.rd, if op == 0 { Ir::And(t, a, b) } else if op == 1 { Ir::Or(t, a, b) } else { Ir::Xor(t, a, b) })
        },
        None => Stmt::Trap(word),
    }
}

/// Flags after comparing `a` with `b` (`negate`: with the negation of `b`,
/// as `ccmn` does) when condition `cond` holds, and `nzcv` otherwise.
pub open spec fn spec_cond_compare(negate: bool, t: IrType, cond: u8, a: Operand, b: Operand, nzcv: u8) -> Stmt {
    let cmp = if negate { Ir::Addc(t, a, b) } else { Ir::Subc(t, a, b) };
    let flags = Ir::Or(
        IrType::U64,
        Operand::Ir(Box::new(Ir::And(IrType::U64, Operand::Ir(Box::new(cmp)), Operand::Immediate(IrType::U64, 0)))),
        Operand::Flag,
    );
    Stmt::SetFlag(
        Ir::If(
            IrType::U64,
            Operand::Ir(Box::new(spec_condition(cond))),
            Operand::Ir(Box::new(flags)),
            Operand::Immediate(IrType::U64, ((nzcv as u64) % 16) << 28u64),
        ),
    )
}

pub fn cond_compare(negate: bool, t: IrType, cond: u8, a: Operand, b: Operand, nzcv: u8) -> (res: Stmt)
    ensures
        res == spec_cond_compare(negate, t, cond, a, b, nzcv),
{
    let cmp = if negate { Ir::Addc(t, a, b) } else { Ir::Subc(t, a, b) };
    let flags = Ir::Or(
        IrType::U64,
        Operand::Ir(Box::new(Ir::And(IrType::U64, Operand::Ir(Box::new(cmp)), Operand::Immediate(IrType::U64, 0)))),
        Operand::Flag,
    );
    Stmt::SetFlag(
        Ir::If(
            IrType::U64,
            Operand::Ir(Box::new(condition(cond))),
            Operand::Ir(Box::new(flags)),
            Operand::Immediate(IrType::U64, ((nzcv as u64) % 16) << 28u64),
        ),
    )
}

pub open spec fn spec_cond_compare_reg(negate: bool, t: IrType, r: CondCmpReg) -> Stmt {
    spec_cond_compare(negate, t, r.cond, Operand::Gpr(t, r.rn), Operand::Gpr(t, r.rm), r.nzcv)
}

pub fn cond_compare_reg(negate: bool, t: IrType, r: CondCmpReg) -> (res: Stmt)
    ensures
        res == spec_cond_compare_reg(negate, t, r),
{
    cond_compare(negate, t, r.cond, Operand::Gpr(t, r.rn), Operand::Gpr(t, r.rm), r.nzcv)
}

pub open spec fn spec_cond_compare_imm(negate: bool, t: IrType, r: CondCmpImm) -> Stmt {
    spec_cond_compare(negate, t, r.cond, Operand::Gpr(t, r.rn), Operand::Immediate(t, r.imm5 as u64), r.nzcv)
}

pub fn cond_compare_imm(negate: bool, t: IrType, r: CondCmpImm) -> (res: Stmt)
    ensures
        res == spec_cond_compare_imm(negate, t, r),
{
    cond_compare(negate, t, r.cond, Operand::Gpr(t, r.rn), Operand::Immediate(t, r.imm5 as u64), r.nzcv)
}

/// Load of type `mem` from the address `imm19` words from the instruction
/// into `rt`, zero- or sign-extended (`signed`) to `dst`.
pub open spec fn spec_literal_load(mem: IrType, dst: IrType, signed: bool, r: Imm19Rt) -> Stmt {
    let value = Operand::Ir(Box::new(Ir::Load(mem, Operand::Ir(Box::new(spec_ip_plus(spec_cond_offset(r.imm19)))))));
    let ext = if signed { Ir::SextCast(dst, value) } else { Ir::ZextCast(dst, value) };
    if r.rt is V {
        Stmt::SetFpr(dst, r.rt, ext)
    } else {
        Stmt::SetGpr(dst, r.rt, ext)
    }
}

pub fn literal_load(mem: IrType, dst: IrType, signed: bool, r: Imm19Rt) -> (res: Stmt)
    ensures
        res == spec_literal_load(mem, dst, signed, r),
{
    let value = Operand::Ir(Box::new(Ir::Load(mem, Operand::Ir(Box::new(ip_plus(cond_offset(r.imm19)))))));
    let ext = if signed { Ir::SextCast(dst, value) } else { Ir::ZextCast(dst, value) };
    if matches!(r.rt, AArch64RegisterId::V(_)) {
        Stmt::SetFpr(dst, r.rt, ext)
    } else {
        Stmt::SetGpr(dst, r.rt, ext)
    }
}

/// Load of type `mem` at address `rn` into `rt`, zero-extended to `dst`.
pub open spec fn spec_base_load(mem: IrType, dst: IrType, r: RsRt2RnRt) -> Stmt {
    Stmt::SetGpr(dst, r.rt, Ir::ZextCast(dst, Operand::Ir(Box::new(Ir::Load(mem, Operand::Gpr(IrType::U64, r.rn))))))
}

pub fn base_load(mem: IrType, dst: IrType, r: RsRt2RnRt) -> (res: Stmt)
    ensures
        res == spec_base_load(mem, dst, r),
{
    Stmt::SetGpr(dst, r.rt, Ir::ZextCast(dst, Operand::Ir(Box::new(Ir::Load(mem, Operand::Gpr(IrType::U64, r.rn))))))
}

/// Store of the low bits of `rt` at address `rn`.
pub open spec fn spec_base_store(mem: IrType, r: RsRt2RnRt) -> Stmt {
    Stmt::Store(mem, Ir::Value(Operand::Gpr(IrType::U64, r.rn)), Ir::Value(Operand::Gpr(mem, r.rt)))
}

pub fn base_store(mem: IrType, r: RsRt2RnRt) -> (res: Stmt)
    ensures
        res == spec_base_store(mem, r),
{
    Stmt::Store(mem, Ir::Value(Operand::Gpr(IrType::U64, r.rn)), Ir::Value(Operand::Gpr(mem, r.rt)))
}

/// Status of an exclusive store: with a single thread it always succeeds.
pub open spec fn spec_exclusive_status(r: RsRt2RnRt) -> Stmt {
    Stmt::SetGpr(IrType::U32, r.rs, Ir::Value(Operand::Immediate(IrType::U32, 0)))
}

pub fn exclusive_status(r: RsRt2RnRt) -> (res: Stmt)
    ensures
        res == spec_exclusive_status(r),
{
    Stmt::SetGpr(IrType::U32, r.rs, Ir::Value(Operand::Immediate(IrType::U32, 0)))
}

/// `rn` plus `rm` (or, when `sub`, plus the inversion of `rm`) plus the carry flag.
pub open spec fn spec_add_carry(sub: bool, t: IrType, r: RmRnRd) -> Stmt {
    let rhs = if sub { Operand::Ir(Box::new(Ir::Not(t, Operand::Gpr(t, r.rm)))) } else { Operand::Gpr(t, r.rm) };
    let carry = Ir::And(
        t,
        Operand::Ir(Box::new(Ir::LShr(IrType::U64, Operand::Flag, Operand::Immediate(IrType::U64, 29)))),
        Operand::Immediate(t, 1),
    );
    Stmt::SetGpr(t, r.rd, Ir::Add(t, Operand::Ir(Box::new(Ir::Add(t, Operand::Gpr(t, r.rn), rhs))), Operand::Ir(Box::new(carry))))
}

pub fn add_carry(sub: bool, t: IrType, r: RmRnRd) -> (res: Stmt)
    ensures
        res == spec_add_carry(sub, t, r),
{
    let rhs = if sub { Operand::Ir(Box::new(Ir::Not(t, Operand::Gpr(t, r.rm)))) } else { Operand::Gpr(t, r.rm) };
    let carry = Ir::And(
        t,
        Operand::Ir(Box::new(Ir::LShr(IrType::U64, Operand::Flag, Operand::Immediate(IrType::U64, 29)))),
        Operand::Immediate(t, 1),
    );
    Stmt::SetGpr(t, r.rd, Ir::Add(t, Operand::Ir(Box::new(Ir::Add(t, Operand::Gpr(t, r.rn), rhs))), Operand::Ir(Box::new(carry))))
}

/// Bitfield move of `rn` into `rd` that keeps the bits of `rd` outside the
/// field (`bfxil`, `bfi`).
pub open spec fn spec_bitfield_insert(t: IrType, r: Bitfield) -> Stmt {
    let w: u64 = if t == IrType::U32 { 32 } else { 64 };
    let s = r.imms as u64 % w;
    let q = r.immr as u64 % w;
    let src = Operand::Gpr(t, r.rn);
    let (moved, mask) = if s >= q {
        (Ir::LShr(t, src, Operand::Immediate(t, q)), spec_low_mask((s - q + 1) as u64))
    } else {
        (Ir::LShl(t, src, Operand::Immediate(t, (w - q) as u64)), spec_low_mask((s + 1) as u64) << (w - q) as u64)
    };
    Stmt::SetGpr(
        t,
        r.rd,
        Ir::Or(
            t,
            Operand::Ir(Box::new(Ir::And(t, Operand::Gpr(t, r.rd), Operand::Immediate(t, !mask)))),
            Operand::Ir(Box::new(Ir::And(t, Operand::Ir(Box::new(moved)), Operand::Immediate(t, mask)))),
        ),
    )
}

pub fn bitfield_insert(t: IrType, r: Bitfield) -> (res: Stmt)
    ensures
        res == spec_bitfield_insert(t, r),
{
    let w: u64 = if t == IrType::U32 { 32 } else { 64 };
    let s = r.imms as u64 % w;
    let q = r.immr as u64 % w;
    let src = Operand::Gpr(t, r.rn);
    let (moved, mask) = if s >= q {
        (Ir::LShr(t, src, Operand::Immediate(t, q)), low_mask((s - q + 1) as u64))
    } else {
        (Ir::LShl(t, src, Operand::Immediate(t, (w - q) as u64)), low_mask((s + 1) as u64) << (w - q) as u64)
    };
    Stmt::SetGpr(
        t,
        r.rd,
        Ir::Or(
            t,
            Operand::Ir(Box::new(Ir::And(t, Operand::Gpr(t, r.rd), Operand::Immediate(t, !mask)))),
            Operand::Ir(Box::new(Ir::And(t, Operand::Ir(Box::new(moved)), Operand::Immediate(t, mask)))),
        ),
    )
}

/// First step of `blr x30`: `X30` becomes the target exclusive-or the return address.
pub open spec fn spec_link_swap_first() -> Stmt {
    Stmt::SetGpr(
        IrType::U64,
        AArch64RegisterId::X(30),
        Ir::Xor(IrType::U64, Operand::Gpr(IrType::U64, AArch64RegisterId::X(30)), Operand::Ir(Box::new(spec_next_ip()))),
    )
}

pub fn link_swap_first() -> (res: Stmt)
    ensures
        res == spec_link_swap_first(),
{
    Stmt::SetGpr(
        IrType::U64,
        AArch64RegisterId::X(30),
        Ir::Xor(IrType::U64, Operand::Gpr(IrType::U64, AArch64RegisterId::X(30)), Operand::Ir(Box::new(next_ip()))),
    )
}

/// Second step of `blr x30`: `ip` becomes the target, recovered from `X30`.
pub open spec fn spec_link_swap_branch() -> Stmt {
    Stmt::SetIp(
        Ir::Xor(IrType::U64, Operand::Gpr(IrType::U64, AArch64RegisterId::X(30)), Operand::Ir(Box::new(spec_next_ip()))),
    )
}

pub fn link_swap_branch() -> (res: Stmt)
    ensures
        res == spec_link_swap_branch(),
{
    Stmt::SetIp(
        Ir::Xor(IrType::U64, Operand::Gpr(IrType::U64, AArch64RegisterId::X(30)), Operand::Ir(Box::new(next_ip()))),
    )
}

/// Last step of `blr x30`: `X30` becomes the return address, recovered from `X30` and `ip`.
pub open spec fn spec_link_swap_last() -> Stmt {
    Stmt::SetGpr(
        IrType::U64,
        AArch64RegisterId::X(30),
        Ir::Xor(IrType::U64, Operand::Gpr(IrType::U64, AArch64RegisterId::X(30)), Operand::Ip),
    )
}

pub fn link_swap_last() -> (res: Stmt)
    ensures
        res == spec_link_swap_last(),
{
    Stmt::SetGpr(
        IrType::U64,
        AArch64RegisterId::X(30),
        Ir::Xor(IrType::U64, Operand::Gpr(IrType::U64, AArch64RegisterId::X(30)), Operand::Ip),
    )
}

/// Flags of `ands` with a bitmask immediate; a reserved immediate makes a
/// trap with code word `word`.
pub open spec fn spec_logic_imm_flags(t: IrType, r: LogicalImm, word: u32) -> Stmt {
    let width: u64 = if t == IrType::U32 { 32 } else { 64 };
    match spec_bit_masks(r.n, r.immr, r.imms, width) {
        Some(m) => spec_logic_flags(
            t,
            Ir::And(t, Operand::Gpr(t, r.rn), Operand::Immediate(t, m)),
            Ir::And(t, Operand::Gpr(t, r.rn), Operand::Immediate(t, m)),
        ),
        None => Stmt::Trap(word),
    }
}

pub fn logic_imm_flags(t: IrType, r: LogicalImm, word: u32) -> (res: Stmt)
    ensures
        res == spec_logic_imm_flags(t, r, word),
{
    let width: u64 = if t == IrType::U32 { 32 } else { 64 };
    match bit_masks(r.n, r.immr, r.imms, width) {
        Some(m) => logic_flags(
            t,
            Ir::And(t, Operand::Gpr(t, r.rn), Operand::Immediate(t, m)),
            Ir::And(t, Operand::Gpr(t, r.rn), Operand::Immediate(t, m)),
        ),
        None => Stmt::Trap(word),
    }
}

/// The IR statements that `inst` lifts to, ending with the update of `ip`;
/// an instruction the lifter does not cover becomes a trap with its code word.
pub open spec fn lifted(inst: AArch64Inst) -> Seq<Stmt> {
    match inst {
        AArch64Inst::Adr(r) => seq![spec_pc_rel(false, r), spec_advance()],
        AArch64Inst::Adrp(r) => seq![spec_pc_rel(true, r), spec_advance()],
        AArch64Inst::AddImm32(r) => seq![spec_arith_imm(0, IrType::U32, r), spec_advance()],
        AArch64Inst::AddsImm32(r) => seq![spec_arith_imm(1, IrType::U32, r), spec_advance()],
        AArch64Inst::SubImm32(r) => seq![spec_arith_imm(2, IrType::U32, r), spec_advance()],
        AArch64Inst::SubsImm32(r) => seq![spec_arith_imm(3, IrType::U32, r), spec_advance()],
        AArch64Inst::AddImm64(r) => seq![spec_arith_imm(0, IrType::U64, r), spec_advance()],
        AArch64Inst::AddsImm64(r) => seq![spec_arith_imm(1, IrType::U64, r), spec_advance()],
        AArch64Inst::SubImm64(r) => seq![spec_arith_imm(2, IrType::U64, r), spec_advance()],
        AArch64Inst::SubsImm64(r) => seq![spec_arith_imm(3, IrType::U64, r), spec_advance()],
        AArch64Inst::AndImm32(r) => seq![spec_logic_imm(0, IrType::U32, r, inst.spec_encode()), spec_advance()],
        AArch64Inst::OrrImm32(r) => seq![spec_logic_imm(1, IrType::U32, r, inst.spec_encode()), spec_advance()],
        AArch64Inst::EorImm32(r) => seq![spec_logic_imm(2, IrType::U32, r, inst.spec_encode()), spec_advance()],
        AArch64Inst::AndsImm32(r) => seq![spec_logic_imm_flags(IrType::U32, r, inst.spec_encode()), spec_logic_imm(0, IrType::U32, r, inst.spec_encode()), spec_advance()],
        AArch64Inst::AndImm64(r) => seq![spec_logic_imm(0, IrType::U64, r, inst.spec_encode()), spec_advance()],
        AArch64Inst::OrrImm64(r) => seq![spec_logic_imm(1, IrType::U64, r, inst.spec_encode()), spec_advance()],
        AArch64Inst::EorImm64(r) => seq![spec_logic_imm(2, IrType::U64, r, inst.spec_encode()), spec_advance()],
        AArch64Inst::AndsImm64(r) => seq![spec_logic_imm_flags(IrType::U64, r, inst.spec_encode()), spec_logic_imm(0, IrType::U64, r, inst.spec_encode()), spec_advance()],
        AArch64Inst::MovnVar32(r) => seq![spec_move_wide(0, IrType::U32, r), spec_advance()],
        AArch64Inst::MovzVar32(r) => seq![spec_move_wide(1, IrType::U32, r), spec_advance()],
        AArch64Inst::MovkVar32(r) => seq![spec_move_wide(2, IrType::U32, r), spec_advance()],
        AArch64Inst::MovnVar64(r) => seq![spec_move_wide(0, IrType::U64, r), spec_advance()],
        AArch64Inst::MovzVar64(r) => seq![spec_move_wide(1, IrType::U64, r), spec_advance()],
        AArch64Inst::MovkVar64(r) => seq![spec_move_wide(2, IrType::U64, r), spec_advance()],
        AArch64Inst::Sbfm32(r) => seq![spec_bitfield(true, IrType::U32, r), spec_advance()],
        AArch64Inst::Bfm32(r) => seq![spec_bitfield_insert(IrType::U32, r), spec_advance()],
        AArch64Inst::Ubfm32(r) => seq![spec_bitfield(false, IrType::U32, r), spec_advance()],
        AArch64Inst::Sbfm64(r) => seq![spec_bitfield(true, IrType::U64, r), spec_advance()],
        AArch64Inst::Bfm64(r) => seq![spec_bitfield_insert(IrType::U64, r), spec_advance()],
        AArch64Inst::Ubfm64(r) => seq![spec_bitfield(false, IrType::U64, r), spec_advance()],
        AArch64Inst::BCond(r) => seq![spec_cond_branch(r)],
        AArch64Inst::Svc(r) => seq![spec_advance(), Stmt::Svc(r.imm16)],
        AArch64Inst::Nop => seq![spec_advance()],
        AArch64Inst::Yield => seq![spec_advance()],
        AArch64Inst::Wfe => seq![spec_advance()],
        AArch64Inst::Wfi => seq![spec_advance()],
        AArch64Inst::Sev => seq![spec_advance()],
        AArch64Inst::Sevl => seq![spec_advance()],
        AArch64Inst::Xpaclri => seq![spec_advance()],
        AArch64Inst::Pacia1716Var => seq![spec_advance()],
        AArch64Inst::Pacib1716Var => seq![spec_advance()],
        AArch64Inst::Autia1716Var => seq![spec_advance()],
        AArch64Inst::Autib1716Var => seq![spec_advance()],
        AArch64Inst::PaciazVar => seq![spec_advance()],
        AArch64Inst::PaciaspVar => seq![spec_advance()],
        AArch64Inst::PacibzVar => seq![spec_advance()],
        AArch64Inst::PacibspVar => seq![spec_advance()],
        AArch64Inst::AutiazVar => seq![spec_advance()],
        AArch64Inst::AutiaspVar => seq![spec_advance()],
        AArch64Inst::AutibzVar => seq![spec_advance()],
        AArch64Inst::AutibspVar => seq![spec_advance()],
        AArch64Inst::Hint(r) => seq![spec_advance()],
        AArch64Inst::Br(r) => seq![spec_branch_reg(r)],
        AArch64Inst::Blr(r) => if r.rn == AArch64RegisterId::X(30) { seq![spec_link_swap_first(), spec_link_swap_branch(), spec_link_swap_last()] } else { seq![spec_link(), spec_branch_reg(r)] },
        AArch64Inst::Ret(r) => seq![spec_branch_reg(r)],
        AArch64Inst::BImm(r) => seq![spec_branch_imm(r)],
        AArch64Inst::BlImm(r) => seq![spec_link(), spec_branch_imm(r)],
        AArch64Inst::Cbz32(r) => seq![spec_cmp_branch(false, IrType::U32, r)],
        AArch64Inst::Cbnz32(r) => seq![spec_cmp_branch(true, IrType::U32, r)],
        AArch64Inst::Cbz64(r) => seq![spec_cmp_branch(false, IrType::U64, r)],
        AArch64Inst::Cbnz64(r) => seq![spec_cmp_branch(true, IrType::U64, r)],
        AArch64Inst::Tbz(r) => seq![spec_test_branch(false, r)],
        AArch64Inst::Tbnz(r) => seq![spec_test_branch(true, r)],
        AArch64Inst::StrbImm(r) => seq![spec_store_imm(IrType::U8, 0, r), spec_advance()],
        AArch64Inst::LdrbImm(r) => seq![spec_load_imm(IrType::U8, IrType::U32, false, 0, r), spec_advance()],
        AArch64Inst::LdrsbImm64(r) => seq![spec_load_imm(IrType::I8, IrType::U64, true, 0, r), spec_advance()],
        AArch64Inst::LdrsbImm32(r) => seq![spec_load_imm(IrType::I8, IrType::U32, true, 0, r), spec_advance()],
        AArch64Inst::StrImmSimdFP8(r) => seq![spec_store_imm(IrType::U8, 0, r), spec_advance()],
        AArch64Inst::LdrImmSimdFP8(r) => seq![spec_load_imm(IrType::U8, IrType::U8, false, 0, r), spec_advance()],
        AArch64Inst::StrhImm(r) => seq![spec_store_imm(IrType::U16, 1, r), spec_advance()],
        AArch64Inst::LdrhImm(r) => seq![spec_load_imm(IrType::U16, IrType::U32, false, 1, r), spec_advance()],
        AArch64Inst::LdrshImm64(r) => seq![spec_load_imm(IrType::I16, IrType::U64, true, 1, r), spec_advance()],
        AArch64Inst::LdrshImm32(r) => seq![spec_load_imm(IrType::I16, IrType::U32, true, 1, r), spec_advance()],
        AArch64Inst::StrImmSimdFP16(r) => seq![spec_store_imm(IrType::U16, 1, r), spec_advance()],
        AArch64Inst::LdrImmSimdFP16(r) => seq![spec_load_imm(IrType::U16, IrType::U16, false, 1, r), spec_advance()],
        AArch64Inst::StrImm32(r) => seq![spec_store_imm(IrType::U32, 2, r), spec_advance()],
        AArch64Inst::LdrImm32(r) => seq![spec_load_imm(IrType::U32, IrType::U32, false, 2, r), spec_advance()],
        AArch64Inst::LdrswImm(r) => seq![spec_load_imm(IrType::I32, IrType::U64, true, 2, r), spec_advance()],
        AArch64Inst::StrImmSimdFP32(r) => seq![spec_store_imm(IrType::U32, 2, r), spec_advance()],
        AArch64Inst::LdrImmSimdFP32(r) => seq![spec_load_imm(IrType::U32, IrType::U32, false, 2, r), spec_advance()],
        AArch64Inst::StrImm64(r) => seq![spec_store_imm(IrType::U64, 3, r), spec_advance()],
        AArch64Inst::LdrImm64(r) => seq![spec_load_imm(IrType::U64, IrType::U64, false, 3, r), spec_advance()],
        AArch64Inst::PrfmImm(r) => seq![spec_advance()],
        AArch64Inst::StrImmSimdFP64(r) => seq![spec_store_imm(IrType::U64, 3, r), spec_advance()],
        AArch64Inst::LdrImmSimdFP64(r) => seq![spec_load_imm(IrType::U64, IrType::U64, false, 3, r), spec_advance()],
        AArch64Inst::StrbRegExtReg(r) => seq![spec_store_reg(IrType::U8, 0, r), spec_advance()],
        AArch64Inst::StrbRegShiftedReg(r) => seq![spec_store_reg(IrType::U8, 0, r), spec_advance()],
        AArch64Inst::LdrbRegExtReg(r) => seq![spec_load_reg(IrType::U8, IrType::U32, false, 0, r), spec_advance()],
        AArch64Inst::LdrbRegShiftedReg(r) => seq![spec_load_reg(IrType::U8, IrType::U32, false, 0, r), spec_advance()],
        AArch64Inst::LdrsbRegExtReg64(r) => seq![spec_load_reg(IrType::I8, IrType::U64, true, 0, r), spec_advance()],
        AArch64Inst::LdrsbRegShiftedReg64(r) => seq![spec_load_reg(IrType::I8, IrType::U64, true, 0, r), spec_advance()],
        AArch64Inst::LdrsbRegExtReg32(r) => seq![spec_load_reg(IrType::I8, IrType::U32, true, 0, r), spec_advance()],
        AArch64Inst::LdrsbRegShiftedReg32(r) => seq![spec_load_reg(IrType::I8, IrType::U32, true, 0, r), spec_advance()],
        AArch64Inst::StrhReg(r) => seq![spec_store_reg(IrType::U16, 1, r), spec_advance()],
        AArch64Inst::LdrhReg(r) => seq![spec_load_reg(IrType::U16, IrType::U32, false, 1, r), spec_advance()],
        AArch64Inst::LdrshReg64(r) => seq![spec_load_reg(IrType::I16, IrType::U64, true, 1, r), spec_advance()],
        AArch64Inst::LdrshReg32(r) => seq![spec_load_reg(IrType::I16, IrType::U32, true, 1, r), spec_advance()],
        AArch64Inst::StrReg32(r) => seq![spec_store_reg(IrType::U32, 2, r), spec_advance()],
        AArch64Inst::LdrReg32(r) => seq![spec_load_reg(IrType::U32, IrType::U32, false, 2, r), spec_advance()],
        AArch64Inst::LdrswReg(r) => seq![spec_load_reg(IrType::I32, IrType::U64, true, 2, r), spec_advance()],
        AArch64Inst::StrReg64(r) => seq![spec_store_reg(IrType::U64, 3, r), spec_advance()],
        AArch64Inst::LdrReg64(r) => seq![spec_load_reg(IrType::U64, IrType::U64, false, 3, r), spec_advance()],
        AArch64Inst::PrfmReg(r) => seq![spec_advance()],
        AArch64Inst::StpVar32(r) => if r.idx == 2 { seq![spec_pair_store(IrType::U32, 2, false, r), spec_pair_store(IrType::U32, 2, true, r), spec_advance()] } else { seq![spec_pair_store(IrType::U32, 2, false, r), spec_pair_store(IrType::U32, 2, true, r), spec_pair_writeback(2, r), spec_advance()] },
        AArch64Inst::LdpVar32(r) => if r.idx == 2 { if r.rt == r.rn { seq![spec_pair_load(IrType::U32, 2, true, r), spec_pair_load(IrType::U32, 2, false, r), spec_advance()] } else { seq![spec_pair_load(IrType::U32, 2, false, r), spec_pair_load(IrType::U32, 2, true, r), spec_advance()] } } else { seq![spec_pair_load(IrType::U32, 2, false, r), spec_pair_load(IrType::U32, 2, true, r), spec_pair_writeback(2, r), spec_advance()] },
        AArch64Inst::StpVar64(r) => if r.idx == 2 { seq![spec_pair_store(IrType::U64, 3, false, r), spec_pair_store(IrType::U64, 3, true, r), spec_advance()] } else { seq![spec_pair_store(IrType::U64, 3, false, r), spec_pair_store(IrType::U64, 3, true, r), spec_pair_writeback(3, r), spec_advance()] },
        AArch64Inst::LdpVar64(r) => if r.idx == 2 { if r.rt == r.rn { seq![spec_pair_load(IrType::U64, 3, true, r), spec_pair_load(IrType::U64, 3, false, r), spec_advance()] } else { seq![spec_pair_load(IrType::U64, 3, false, r), spec_pair_load(IrType::U64, 3, true, r), spec_advance()] } } else { seq![spec_pair_load(IrType::U64, 3, false, r), spec_pair_load(IrType::U64, 3, true, r), spec_pair_writeback(3, r), spec_advance()] },
        AArch64Inst::Sturb(r) => seq![spec_imm9_store(IrType::U8, r), spec_advance()],
        AArch64Inst::StrbIdx(r) => if r.idx == 0 { seq![spec_imm9_store(IrType::U8, r), spec_advance()] } else { seq![spec_imm9_store(IrType::U8, r), spec_imm9_writeback(r), spec_advance()] },
        AArch64Inst::Ldurb(r) => seq![spec_imm9_load(IrType::U8, IrType::U32, false, r), spec_advance()],
        AArch64Inst::LdrbIdx(r) => if r.idx == 0 { seq![spec_imm9_load(IrType::U8, IrType::U32, false, r), spec_advance()] } else { seq![spec_imm9_load(IrType::U8, IrType::U32, false, r), spec_imm9_writeback(r), spec_advance()] },
        AArch64Inst::Ldursb64(r) => seq![spec_imm9_load(IrType::I8, IrType::U64, true, r), spec_advance()],
        AArch64Inst::LdrsbIdx64(r) => if r.idx == 0 { seq![spec_imm9_load(IrType::I8, IrType::U64, true, r), spec_advance()] } else { seq![spec_imm9_load(IrType::I8, IrType::U64, true, r), spec_imm9_writeback(r), spec_advance()] },
        AArch64Inst::Ldursb32(r) => seq![spec_imm9_load(IrType::I8, IrType::U32, true, r), spec_advance()],
        AArch64Inst::LdrsbIdx32(r) => if r.idx == 0 { seq![spec_imm9_load(IrType::I8, IrType::U32, true, r), spec_advance()] } else { seq![spec_imm9_load(IrType::I8, IrType::U32, true, r), spec_imm9_writeback(r), spec_advance()] },
        AArch64Inst::SturSimdFP8(r) => seq![spec_imm9_store(IrType::U8, r), spec_advance()],
        AArch64Inst::StrSimdFPIdx8(r) => if r.idx == 0 { seq![spec_imm9_store(IrType::U8, r), spec_advance()] } else { seq![spec_imm9_store(IrType::U8, r), spec_imm9_writeback(r), spec_advance()] },
        AArch64Inst::LdurSimdFP8(r) => seq![spec_imm9_load(IrType::U8, IrType::U8, false, r), spec_advance()],
        AArch64Inst::LdrSimdFPIdx8(r) => if r.idx == 0 { seq![spec_imm9_load(IrType::U8, IrType::U8, false, r), spec_advance()] } else { seq![spec_imm9_load(IrType::U8, IrType::U8, false, r), spec_imm9_writeback(r), spec_advance()] },
        AArch64Inst::Sturh(r) => seq![spec_imm9_store(IrType::U16, r), spec_advance()],
        AArch64Inst::StrhIdx(r) => if r.idx == 0 { seq![spec_imm9_store(IrType::U16, r), spec_advance()] } else { seq![spec_imm9_store(IrType::U16, r), spec_imm9_writeback(r), spec_advance()] },
        AArch64Inst::Ldurh(r) => seq![spec_imm9_load(IrType::U16, IrType::U32, false, r), spec_advance()],
        AArch64Inst::LdrhIdx(r) => if r.idx == 0 { seq![spec_imm9_load(IrType::U16, IrType::U32, false, r), spec_advance()] } else { seq![spec_imm9_load(IrType::U16, IrType::U32, false, r), spec_imm9_writeback(r), spec_advance()] },
        AArch64Inst::Ldursh64(r) => seq![spec_imm9_load(IrType::I16, IrType::U64, true, r), spec_advance()],
        AArch64Inst::LdrshIdx64(r) => if r.idx == 0 { seq![spec_imm9_load(IrType::I16, IrType::U64, true, r), spec_advance()] } else { seq![spec_imm9_load(IrType::I16, IrType::U64, true, r), spec_imm9_writeback(r), spec_advance()] },
        AArch64Inst::Ldursh32(r) => seq![spec_imm9_load(IrType::I16, IrType::U32, true, r), spec_advance()],
        AArch64Inst::LdrshIdx32(r) => if r.idx == 0 { seq![spec_imm9_load(IrType::I16, IrType::U32, true, r), spec_advance()] } else { seq![spec_imm9_load(IrType::I16, IrType::U32, true, r), spec_imm9_writeback(r), spec_advance()] },
        AArch64Inst::SturSimdFP16(r) => seq![spec_imm9_store(IrType::U16, r), spec_advance()],
        AArch64Inst::StrSimdFPIdx16(r) => if r.idx == 0 { seq![spec_imm9_store(IrType::U16, r), spec_advance()] } else { seq![spec_imm9_store(IrType::U16, r), spec_imm9_writeback(r), spec_advance()] },
        AArch64Inst::LdurSimdFP16(r) => seq![spec_imm9_load(IrType::U16, IrType::U16, false, r), spec_advance()],
        AArch64Inst::LdrSimdFPIdx16(r) => if r.idx == 0 { seq![spec_imm9_load(IrType::U16, IrType::U16, false, r), spec_advance()] } else { seq![spec_imm9_load(IrType::U16, IrType::U16, false, r), spec_imm9_writeback(r), spec_advance()] },
        AArch64Inst::Stur32(r) => seq![spec_imm9_store(IrType::U32, r), spec_advance()],
        AArch64Inst::StrIdx32(r) => if r.idx == 0 { seq![spec_imm9_store(IrType::U32, r), spec_advance()] } else { seq![spec_imm9_store(IrType::U32, r), spec_imm9_writeback(r), spec_advance()] },
        AArch64Inst::Ldur32(r) => seq![spec_imm9_load(IrType::U32, IrType::U32, false, r), spec_advance()],
        AArch64Inst::LdrIdx32(r) => if r.idx == 0 { seq![spec_imm9_load(IrType::U32, IrType::U32, false, r), spec_advance()] } else { seq![spec_imm9_load(IrType::U32, IrType::U32, false, r), spec_imm9_writeback(r), spec_advance()] },
        AArch64Inst::Ldursw(r) => seq![spec_imm9_load(IrType::I32, IrType::U64, true, r), spec_advance()],
        AArch64Inst::LdrswIdx(r) => if r.idx == 0 { seq![spec_imm9_load(IrType::I32, IrType::U64, true, r), spec_advance()] } else { seq![spec_imm9_load(IrType::I32, IrType::U64, true, r), spec_imm9_writeback(r), spec_advance()] },
        AArch64Inst::SturSimdFP32(r) => seq![spec_imm9_store(IrType::U32, r), spec_advance()],
        AArch64Inst::StrSimdFPIdx32(r) => if r.idx == 0 { seq![spec_imm9_store(IrType::U32, r), spec_advance()] } else { seq![spec_imm9_store(IrType::U32, r), spec_imm9_writeback(r), spec_advance()] },
        AArch64Inst::LdurSimdFP32(r) => seq![spec_imm9_load(IrType::U32, IrType::U32, false, r), spec_advance()],
        AArch64Inst::LdrSimdFPIdx32(r) => if r.idx == 0 { seq![spec_imm9_load(IrType::U32, IrType::U32, false, r), spec_advance()] } else { seq![spec_imm9_load(IrType::U32, IrType::U32, false, r), spec_imm9_writeback(r), spec_advance()] },
        AArch64Inst::Stur64(r) => seq![spec_imm9_store(IrType::U64, r), spec_advance()],
        AArch64Inst::StrIdx64(r) => if r.idx == 0 { seq![spec_imm9_store(IrType::U64, r), spec_advance()] } else { seq![spec_imm9_store(IrType::U64, r), spec_imm9_writeback(r), spec_advance()] },
        AArch64Inst::Ldur64(r) => seq![spec_imm9_load(IrType::U64, IrType::U64, false, r), spec_advance()],
        AArch64Inst::LdrIdx64(r) => if r.idx == 0 { seq![spec_imm9_load(IrType::U64, IrType::U64, false, r), spec_advance()] } else { seq![spec_imm9_load(IrType::U64, IrType::U64, false, r), spec_imm9_writeback(r), spec_advance()] },
        AArch64Inst::Prefum(r) => seq![spec_advance()],
        AArch64Inst::SturSimdFP64(r) => seq![spec_imm9_store(IrType::U64, r), spec_advance()],
        AArch64Inst::StrSimdFPIdx64(r) => if r.idx == 0 { seq![spec_imm9_store(IrType::U64, r), spec_advance()] } else { seq![spec_imm9_store(IrType::U64, r), spec_imm9_writeback(r), spec_advance()] },
        AArch64Inst::LdurSimdFP64(r) => seq![spec_imm9_load(IrType::U64, IrType::U64, false, r), spec_advance()],
        AArch64Inst::LdrSimdFPIdx64(r) => if r.idx == 0 { seq![spec_imm9_load(IrType::U64, IrType::U64, false, r), spec_advance()] } else { seq![spec_imm9_load(IrType::U64, IrType::U64, false, r), spec_imm9_writeback(r), spec_advance()] },
        AArch64Inst::UdivVar32(r) => seq![spec_data_proc_2src(0, IrType::U32, r), spec_advance()],
        AArch64Inst::SdivVar32(r) => seq![spec_data_proc_2src(1, IrType::U32, r), spec_advance()],
        AArch64Inst::LslvVar32(r) => seq![spec_data_proc_2src(2, IrType::U32, r), spec_advance()],
        AArch64Inst::LsrvVar32(r) => seq![spec_data_proc_2src(3, IrType::U32, r), spec_advance()],
        AArch64Inst::AsrvVar32(r) => seq![spec_data_proc_2src(4, IrType::U32, r), spec_advance()],
        AArch64Inst::RorvVar32(r) => seq![spec_data_proc_2src(5, IrType::U32, r), spec_advance()],
        AArch64Inst::UdivVar64(r) => seq![spec_data_proc_2src(0, IrType::U64, r), spec_advance()],
        AArch64Inst::SdivVar64(r) => seq![spec_data_proc_2src(1, IrType::U64, r), spec_advance()],
        AArch64Inst::LslvVar64(r) => seq![spec_data_proc_2src(2, IrType::U64, r), spec_advance()],
        AArch64Inst::LsrvVar64(r) => seq![spec_data_proc_2src(3, IrType::U64, r), spec_advance()],
        AArch64Inst::AsrvVar64(r) => seq![spec_data_proc_2src(4, IrType::U64, r), spec_advance()],
        AArch64Inst::RorvVar64(r) => seq![spec_data_proc_2src(5, IrType::U64, r), spec_advance()],
        AArch64Inst::AndShiftedReg32(r) => seq![spec_logic_shifted(0, false, IrType::U32, r), spec_advance()],
        AArch64Inst::BicShiftedReg32(r) => seq![spec_logic_shifted(0, true, IrType::U32, r), spec_advance()],
        AArch64Inst::OrrShiftedReg32(r) => seq![spec_logic_shifted(1, false, IrType::U32, r), spec_advance()],
        AArch64Inst::OrnShiftedReg32(r) => seq![spec_logic_shifted(1, true, IrType::U32, r), spec_advance()],
        AArch64Inst::EorShiftedReg32(r) => seq![spec_logic_shifted(2, false, IrType::U32, r), spec_advance()],
        AArch64Inst::EonShiftedReg32(r) => seq![spec_logic_shifted(2, true, IrType::U32, r), spec_advance()],
        AArch64Inst::AndsShiftedReg32(r) => seq![spec_logic_flags(IrType::U32, spec_logic_value(0, false, IrType::U32, r), spec_logic_value(0, false, IrType::U32, r)), spec_logic_shifted(0, false, IrType::U32, r), spec_advance()],
        AArch64Inst::BicsShiftedReg32(r) => seq![spec_logic_flags(IrType::U32, spec_logic_value(0, true, IrType::U32, r), spec_logic_value(0, true, IrType::U32, r)), spec_logic_shifted(0, true, IrType::U32, r), spec_advance()],
        AArch64Inst::AndShiftedReg64(r) => seq![spec_logic_shifted(0, false, IrType::U64, r), spec_advance()],
        AArch64Inst::BicShiftedReg64(r) => seq![spec_logic_shifted(0, true, IrType::U64, r), spec_advance()],
        AArch64Inst::OrrShiftedReg64(r) => seq![spec_logic_shifted(1, false, IrType::U64, r), spec_advance()],
        AArch64Inst::OrnShiftedReg64(r) => seq![spec_logic_shifted(1, true, IrType::U64, r), spec_advance()],
        AArch64Inst::EorShiftedReg64(r) => seq![spec_logic_shifted(2, false, IrType::U64, r), spec_advance()],
        AArch64Inst::EonShiftedReg64(r) => seq![spec_logic_shifted(2, true, IrType::U64, r), spec_advance()],
        AArch64Inst::AndsShiftedReg64(r) => seq![spec_logic_flags(IrType::U64, spec_logic_value(0, false, IrType::U64, r), spec_logic_value(0, false, IrType::U64, r)), spec_logic_shifted(0, false, IrType::U64, r), spec_advance()],
        AArch64Inst::BicsShiftedReg64(r) => seq![spec_logic_flags(IrType::U64, spec_logic_value(0, true, IrType::U64, r), spec_logic_value(0, true, IrType::U64, r)), spec_logic_shifted(0, true, IrType::U64, r), spec_advance()],
        AArch64Inst::AddShiftedReg32(r) => seq![spec_arith_shifted(0, IrType::U32, r), spec_advance()],
        AArch64Inst::AddsShiftedReg32(r) => seq![spec_arith_shifted(1, IrType::U32, r), spec_advance()],
        AArch64Inst::SubShiftedReg32(r) => seq![spec_arith_shifted(2, IrType::U32, r), spec_advance()],
        AArch64Inst::SubsShiftedReg32(r) => seq![spec_arith_shifted(3, IrType::U32, r), spec_advance()],
        AArch64Inst::AddShiftedReg64(r) => seq![spec_arith_shifted(0, IrType::U64, r), spec_advance()],
        AArch64Inst::AddsShiftedReg64(r) => seq![spec_arith_shifted(1, IrType::U64, r), spec_advance()],
        AArch64Inst::SubShiftedReg64(r) => seq![spec_arith_shifted(2, IrType::U64, r), spec_advance()],
        AArch64Inst::SubsShiftedReg64(r) => seq![spec_arith_shifted(3, IrType::U64, r), spec_advance()],
        AArch64Inst::AddExtReg32(r) => seq![spec_arith_extended(0, IrType::U32, r), spec_advance()],
        AArch64Inst::AddsExtReg32(r) => seq![spec_arith_extended(1, IrType::U32, r), spec_advance()],
        AArch64Inst::SubExtReg32(r) => seq![spec_arith_extended(2, IrType::U32, r), spec_advance()],
        AArch64Inst::SubsExtReg32(r) => seq![spec_arith_extended(3, IrType::U32, r), spec_advance()],
        AArch64Inst::AddExtReg64(r) => seq![spec_arith_extended(0, IrType::U64, r), spec_advance()],
        AArch64Inst::AddsExtReg64(r) => seq![spec_arith_extended(1, IrType::U64, r), spec_advance()],
        AArch64Inst::SubExtReg64(r) => seq![spec_arith_extended(2, IrType::U64, r), spec_advance()],
        AArch64Inst::SubsExtReg64(r) => seq![spec_arith_extended(3, IrType::U64, r), spec_advance()],
        AArch64Inst::CcmnRegVar32(r) => seq![spec_cond_compare_reg(true, IrType::U32, r), spec_advance()],
        AArch64Inst::CcmpRegVar32(r) => seq![spec_cond_compare_reg(false, IrType::U32, r), spec_advance()],
        AArch64Inst::CcmnRegVar64(r) => seq![spec_cond_compare_reg(true, IrType::U64, r), spec_advance()],
        AArch64Inst::CcmpRegVar64(r) => seq![spec_cond_compare_reg(false, IrType::U64, r), spec_advance()],
        AArch64Inst::CcmnImmVar32(r) => seq![spec_cond_compare_imm(true, IrType::U32, r), spec_advance()],
        AArch64Inst::CcmpImmVar32(r) => seq![spec_cond_compare_imm(false, IrType::U32, r), spec_advance()],
        AArch64Inst::CcmnImmVar64(r) => seq![spec_cond_compare_imm(true, IrType::U64, r), spec_advance()],
        AArch64Inst::CcmpImmVar64(r) => seq![spec_cond_compare_imm(false, IrType::U64, r), spec_advance()],
        AArch64Inst::Csel32(r) => seq![spec_cond_select(0, IrType::U32, r), spec_advance()],
        AArch64Inst::Csinc32(r) => seq![spec_cond_select(1, IrType::U32, r), spec_advance()],
        AArch64Inst::Csinv32(r) => seq![spec_cond_select(2, IrType::U32, r), spec_advance()],
        AArch64Inst::Csneg32(r) => seq![spec_cond_select(3, IrType::U32, r), spec_advance()],
        AArch64Inst::Csel64(r) => seq![spec_cond_select(0, IrType::U64, r), spec_advance()],
        AArch64Inst::Csinc64(r) => seq![spec_cond_select(1, IrType::U64, r), spec_advance()],
        AArch64Inst::Csinv64(r) => seq![spec_cond_select(2, IrType::U64, r), spec_advance()],
        AArch64Inst::Csneg64(r) => seq![spec_cond_select(3, IrType::U64, r), spec_advance()],
        AArch64Inst::Madd32(r) => seq![spec_mul_add(false, IrType::U32, r), spec_advance()],
        AArch64Inst::Msub32(r) => seq![spec_mul_add(true, IrType::U32, r), spec_advance()],
        AArch64Inst::Madd64(r) => seq![spec_mul_add(false, IrType::U64, r), spec_advance()],
        AArch64Inst::Msub64(r) => seq![spec_mul_add(true, IrType::U64, r), spec_advance()],
        AArch64Inst::Clrex(r) => seq![spec_advance()],
        AArch64Inst::DsbEncoding(r) => seq![spec_advance()],
        AArch64Inst::Dmb(r) => seq![spec_advance()],
        AArch64Inst::Isb(r) => seq![spec_advance()],
        AArch64Inst::LdrLitVar32(r) => seq![spec_literal_load(IrType::U32, IrType::U32, false, r), spec_advance()],
        AArch64Inst::LdrLitSimdFPVar32(r) => seq![spec_literal_load(IrType::U32, IrType::U32, false, r), spec_advance()],
        AArch64Inst::LdrLitVar64(r) => seq![spec_literal_load(IrType::U64, IrType::U64, false, r), spec_advance()],
        AArch64Inst::LdrLitSimdFPVar64(r) => seq![spec_literal_load(IrType::U64, IrType::U64, false, r), spec_advance()],
        AArch64Inst::LdrswLit(r) => seq![spec_literal_load(IrType::I32, IrType::U64, true, r), spec_advance()],
        AArch64Inst::PrfmLit(r) => seq![spec_advance()],
        AArch64Inst::Stxrb(r) => seq![spec_base_store(IrType::U8, r), spec_exclusive_status(r), spec_advance()],
        AArch64Inst::Ldxrb(r) => seq![spec_base_load(IrType::U8, IrType::U32, r), spec_advance()],
        AArch64Inst::Stxrh(r) => seq![spec_base_store(IrType::U16, r), spec_exclusive_status(r), spec_advance()],
        AArch64Inst::Ldxrh(r) => seq![spec_base_load(IrType::U16, IrType::U32, r), spec_advance()],
        AArch64Inst::StxrVar32(r) => seq![spec_base_store(IrType::U32, r), spec_exclusive_status(r), spec_advance()],
        AArch64Inst::LdxrVar32(r) => seq![spec_base_load(IrType::U32, IrType::U32, r), spec_advance()],
        AArch64Inst::StxrVar64(r) => seq![spec_base_store(IrType::U64, r), spec_exclusive_status(r), spec_advance()],
        AArch64Inst::LdxrVar64(r) => seq![spec_base_load(IrType::U64, IrType::U64, r), spec_advance()],
        AArch64Inst::Stlxrb(r) => seq![spec_base_store(IrType::U8, r), spec_exclusive_status(r), spec_advance()],
        AArch64Inst::Ldaxrb(r) => seq![spec_base_load(IrType::U8, IrType::U32, r), spec_advance()],
        AArch64Inst::Stlxrh(r) => seq![spec_base_store(IrType::U16, r), spec_exclusive_status(r), spec_advance()],
        AArch64Inst::Ldaxrh(r) => seq![spec_base_load(IrType::U16, IrType::U32, r), spec_advance()],
        AArch64Inst::StlxrVar32(r) => seq![spec_base_store(IrType::U32, r), spec_exclusive_status(r), spec_advance()],
        AArch64Inst::LdaxrVar32(r) => seq![spec_base_load(IrType::U32, IrType::U32, r), spec_advance()],
        AArch64Inst::StlxrVar64(r) => seq![spec_base_store(IrType::U64, r), spec_exclusive_status(r), spec_advance()],
        AArch64Inst::LdaxrVar64(r) => seq![spec_base_load(IrType::U64, IrType::U64, r), spec_advance()],
        AArch64Inst::Stlrb(r) => seq![spec_base_store(IrType::U8, r), spec_advance()],
        AArch64Inst::Ldarb(r) => seq![spec_base_load(IrType::U8, IrType::U32, r), spec_advance()],
        AArch64Inst::Stlrh(r) => seq![spec_base_store(IrType::U16, r), spec_advance()],
        AArch64Inst::Ldarh(r) => seq![spec_base_load(IrType::U16, IrType::U32, r), spec_advance()],
        AArch64Inst::StlrVar32(r) => seq![spec_base_store(IrType::U32, r), spec_advance()],
        AArch64Inst::LdarVar32(r) => seq![spec_base_load(IrType::U32, IrType::U32, r), spec_advance()],
        AArch64Inst::StlrVar64(r) => seq![spec_base_store(IrType::U64, r), spec_advance()],
        AArch64Inst::LdarVar64(r) => seq![spec_base_load(IrType::U64, IrType::U64, r), spec_advance()],
        AArch64Inst::AdcVar32(r) => seq![spec_add_carry(false, IrType::U32, r), spec_advance()],
        AArch64Inst::SbcVar32(r) => seq![spec_add_carry(true, IrType::U32, r), spec_advance()],
        AArch64Inst::AdcVar64(r) => seq![spec_add_carry(false, IrType::U64, r), spec_advance()],
        AArch64Inst::SbcVar64(r) => seq![spec_add_carry(true, IrType::U64, r), spec_advance()],
        _ => seq![Stmt::Trap(inst.spec_encode())],
    }
}

/// The statements of `inst`, as [`lifted`] gives them.
pub fn lift_stmts(inst: &AArch64Inst) -> (res: Vec<Stmt>)
    ensures
        res@ == lifted(*inst),
{
    reveal(lifted);
    match *inst {
        AArch64Inst::Adr(r) => vec![pc_rel(false, r), advance()],
        AArch64Inst::Adrp(r) => vec![pc_rel(true, r), advance()],
        AArch64Inst::AddImm32(r) => vec![arith_imm(0, IrType::U32, r), advance()],
        AArch64Inst::AddsImm32(r) => vec![arith_imm(1, IrType::U32, r), advance()],
        AArch64Inst::SubImm32(r) => vec![arith_imm(2, IrType::U32, r), advance()],
        AArch64Inst::SubsImm32(r) => vec![arith_imm(3, IrType::U32, r), advance()],
        AArch64Inst::AddImm64(r) => vec![arith_imm(0, IrType::U64, r), advance()],
        AArch64Inst::AddsImm64(r) => vec![arith_imm(1, IrType::U64, r), advance()],
        AArch64Inst::SubImm64(r) => vec![arith_imm(2, IrType::U64, r), advance()],
        AArch64Inst::SubsImm64(r) => vec![arith_imm(3, IrType::U64, r), advance()],
        AArch64Inst::AndImm32(r) => vec![logic_imm(0, IrType::U32, r, inst.encode()), advance()],
        AArch64Inst::OrrImm32(r) => vec![logic_imm(1, IrType::U32, r, inst.encode()), advance()],
        AArch64Inst::EorImm32(r) => vec![logic_imm(2, IrType::U32, r, inst.encode()), advance()],
        AArch64Inst::AndsImm32(r) => vec![logic_imm_flags(IrType::U32, r, inst.encode()), logic_imm(0, IrType::U32, r, inst.encode()), advance()],
        AArch64Inst::AndImm64(r) => vec![logic_imm(0, IrType::U64, r, inst.encode()), advance()],
        AArch64Inst::OrrImm64(r) => vec![logic_imm(1, IrType::U64, r, inst.encode()), advance()],
        AArch64Inst::EorImm64(r) => vec![logic_imm(2, IrType::U64, r, inst.encode()), advance()],
        AArch64Inst::AndsImm64(r) => vec![logic_imm_flags(IrType::U64, r, inst.encode()), logic_imm(0, IrType::U64, r, inst.encode()), advance()],
        AArch64Inst::MovnVar32(r) => vec![move_wide(0, IrType::U32, r), advance()],
        AArch64Inst::MovzVar32(r) => vec![move_wide(1, IrType::U32, r), advance()],
        AArch64Inst::MovkVar32(r) => vec![move_wide(2, IrType::U32, r), advance()],
        AArch64Inst::MovnVar64(r) => vec![move_wide(0, IrType::U64, r), advance()],
        AArch64Inst::MovzVar64(r) => vec![move_wide(1, IrType::U64, r), advance()],
        AArch64Inst::MovkVar64(r) => vec![move_wide(2, IrType::U64, r), advance()],
        AArch64Inst::Sbfm32(r) => vec![bitfield(true, IrType::U32, r), advance()],
        AArch64Inst::Bfm32(r) => vec![bitfield_insert(IrType::U32, r), advance()],
        AArch64Inst::Ubfm32(r) => vec![bitfield(false, IrType::U32, r), advance()],
        AArch64Inst::Sbfm64(r) => vec![bitfield(true, IrType::U64, r), advance()],
        AArch64Inst::Bfm64(r) => vec![bitfield_insert(IrType::U64, r), advance()],
        AArch64Inst::Ubfm64(r) => vec![bitfield(false, IrType::U64, r), advance()],
        AArch64Inst::BCond(r) => vec![cond_branch(r)],
        AArch64Inst::Svc(r) => vec![advance(), Stmt::Svc(r.imm16)],
        AArch64Inst::Nop => vec![advance()],
        AArch64Inst::Yield => vec![advance()],
        AArch64Inst::Wfe => vec![advance()],
        AArch64Inst::Wfi => vec![advance()],
        AArch64Inst::Sev => vec![advance()],
        AArch64Inst::Sevl => vec![advance()],
        AArch64Inst::Xpaclri => vec![advance()],
        AArch64Inst::Pacia1716Var => vec![advance()],
        AArch64Inst::Pacib1716Var => vec![advance()],
        AArch64Inst::Autia1716Var => vec![advance()],
        AArch64Inst::Autib1716Var => vec![advance()],
        AArch64Inst::PaciazVar => vec![advance()],
        AArch64Inst::PaciaspVar => vec![advance()],
        AArch64Inst::PacibzVar => vec![advance()],
        AArch64Inst::PacibspVar => vec![advance()],
        AArch64Inst::AutiazVar => vec![advance()],
        AArch64Inst::AutiaspVar => vec![advance()],
        AArch64Inst::AutibzVar => vec![advance()],
        AArch64Inst::AutibspVar => vec![advance()],
        AArch64Inst::Hint(r) => vec![advance()],
        AArch64Inst::Br(r) => vec![branch_reg(r)],
        AArch64Inst::Blr(r) => if r.rn == AArch64RegisterId::X(30) { vec![link_swap_first(), link_swap_branch(), link_swap_last()] } else { vec![link(), branch_reg(r)] },
        AArch64Inst::Ret(r) => vec![branch_reg(r)],
        AArch64Inst::BImm(r) => vec![branch_imm(r)],
        AArch64Inst::BlImm(r) => vec![link(), branch_imm(r)],
        AArch64Inst::Cbz32(r) => vec![cmp_branch(false, IrType::U32, r)],
        AArch64Inst::Cbnz32(r) => vec![cmp_branch(true, IrType::U32, r)],
        AArch64Inst::Cbz64(r) => vec![cmp_branch(false, IrType::U64, r)],
        AArch64Inst::Cbnz64(r) => vec![cmp_branch(true, IrType::U64, r)],
        AArch64Inst::Tbz(r) => vec![test_branch(false, r)],
        AArch64Inst::Tbnz(r) => vec![test_branch(true, r)],
        AArch64Inst::StrbImm(r) => vec![store_imm(IrType::U8, 0, r), advance()],
        AArch64Inst::LdrbImm(r) => vec![load_imm(IrType::U8, IrType::U32, false, 0, r), advance()],
        AArch64Inst::LdrsbImm64(r) => vec![load_imm(IrType::I8, IrType::U64, true, 0, r), advance()],
        AArch64Inst::LdrsbImm32(r) => vec![load_imm(IrType::I8, IrType::U32, true, 0, r), advance()],
        AArch64Inst::StrImmSimdFP8(r) => vec![store_imm(IrType::U8, 0, r), advance()],
        AArch64Inst::LdrImmSimdFP8(r) => vec![load_imm(IrType::U8, IrType::U8, false, 0, r), advance()],
        AArch64Inst::StrhImm(r) => vec![store_imm(IrType::U16, 1, r), advance()],
        AArch64Inst::LdrhImm(r) => vec![load_imm(IrType::U16, IrType::U32, false, 1, r), advance()],
        AArch64Inst::LdrshImm64(r) => vec![load_imm(IrType::I16, IrType::U64, true, 1, r), advance()],
        AArch64Inst::LdrshImm32(r) => vec![load_imm(IrType::I16, IrType::U32, true, 1, r), advance()],
        AArch64Inst::StrImmSimdFP16(r) => vec![store_imm(IrType::U16, 1, r), advance()],
        AArch64Inst::LdrImmSimdFP16(r) => vec![load_imm(IrType::U16, IrType::U16, false, 1, r), advance()],
        AArch64Inst::StrImm32(r) => vec![store_imm(IrType::U32, 2, r), advance()],
        AArch64Inst::LdrImm32(r) => vec![load_imm(IrType::U32, IrType::U32, false, 2, r), advance()],
        AArch64Inst::LdrswImm(r) => vec![load_imm(IrType::I32, IrType::U64, true, 2, r), advance()],
        AArch64Inst::StrImmSimdFP32(r) => vec![store_imm(IrType::U32, 2, r), advance()],
        AArch64Inst::LdrImmSimdFP32(r) => vec![load_imm(IrType::U32, IrType::U32, false, 2, r), advance()],
        AArch64Inst::StrImm64(r) => vec![store_imm(IrType::U64, 3, r), advance()],
        AArch64Inst::LdrImm64(r) => vec![load_imm(IrType::U64, IrType::U64, false, 3, r), advance()],
        AArch64Inst::PrfmImm(r) => vec![advance()],
        AArch64Inst::StrImmSimdFP64(r) => vec![store_imm(IrType::U64, 3, r), advance()],
        AArch64Inst::LdrImmSimdFP64(r) => vec![load_imm(IrType::U64, IrType::U64, false, 3, r), advance()],
        AArch64Inst::StrbRegExtReg(r) => vec![store_reg(IrType::U8, 0, r), advance()],
        AArch64Inst::StrbRegShiftedReg(r) => vec![store_reg(IrType::U8, 0, r), advance()],
        AArch64Inst::LdrbRegExtReg(r) => vec![load_reg(IrType::U8, IrType::U32, false, 0, r), advance()],
        AArch64Inst::LdrbRegShiftedReg(r) => vec![load_reg(IrType::U8, IrType::U32, false, 0, r), advance()],
        AArch64Inst::LdrsbRegExtReg64(r) => vec![load_reg(IrType::I8, IrType::U64, true, 0, r), advance()],
        AArch64Inst::LdrsbRegShiftedReg64(r) => vec![load_reg(IrType::I8, IrType::U64, true, 0, r), advance()],
        AArch64Inst::LdrsbRegExtReg32(r) => vec![load_reg(IrType::I8, IrType::U32, true, 0, r), advance()],
        AArch64Inst::LdrsbRegShiftedReg32(r) => vec![load_reg(IrType::I8, IrType::U32, true, 0, r), advance()],
        AArch64Inst::StrhReg(r) => vec![store_reg(IrType::U16, 1, r), advance()],
        AArch64Inst::LdrhReg(r) => vec![load_reg(IrType::U16, IrType::U32, false, 1, r), advance()],
        AArch64Inst::LdrshReg64(r) => vec![load_reg(IrType::I16, IrType::U64, true, 1, r), advance()],
        AArch64Inst::LdrshReg32(r) => vec![load_reg(IrType::I16, IrType::U32, true, 1, r), advance()],
        AArch64Inst::StrReg32(r) => vec![store_reg(IrType::U32, 2, r), advance()],
        AArch64Inst::LdrReg32(r) => vec![load_reg(IrType::U32, IrType::U32, false, 2, r), advance()],
        AArch64Inst::LdrswReg(r) => vec![load_reg(IrType::I32, IrType::U64, true, 2, r), advance()],
        AArch64Inst::StrReg64(r) => vec![store_reg(IrType::U64, 3, r), advance()],
        AArch64Inst::LdrReg64(r) => vec![load_reg(IrType::U64, IrType::U64, false, 3, r), advance()],
        AArch64Inst::PrfmReg(r) => vec![advance()],
        AArch64Inst::StpVar32(r) => if r.idx == 2 { vec![pair_store(IrType::U32, 2, false, r), pair_store(IrType::U32, 2, true, r), advance()] } else { vec![pair_store(IrType::U32, 2, false, r), pair_store(IrType::U32, 2, true, r), pair_writeback(2, r), advance()] },
        AArch64Inst::LdpVar32(r) => if r.idx == 2 { if r.rt == r.rn { vec![pair_load(IrType::U32, 2, true, r), pair_load(IrType::U32, 2, false, r), advance()] } else { vec![pair_load(IrType::U32, 2, false, r), pair_load(IrType::U32, 2, true, r), advance()] } } else { vec![pair_load(IrType::U32, 2, false, r), pair_load(IrType::U32, 2, true, r), pair_writeback(2, r), advance()] },
        AArch64Inst::StpVar64(r) => if r.idx == 2 { vec![pair_store(IrType::U64, 3, false, r), pair_store(IrType::U64, 3, true, r), advance()] } else { vec![pair_store(IrType::U64, 3, false, r), pair_store(IrType::U64, 3, true, r), pair_writeback(3, r), advance()] },
        AArch64Inst::LdpVar64(r) => if r.idx == 2 { if r.rt == r.rn { vec![pair_load(IrType::U64, 3, true, r), pair_load(IrType::U64, 3, false, r), advance()] } else { vec![pair_load(IrType::U64, 3, false, r), pair_load(IrType::U64, 3, true, r), advance()] } } else { vec![pair_load(IrType::U64, 3, false, r), pair_load(IrType::U64, 3, true, r), pair_writeback(3, r), advance()] },
        AArch64Inst::Sturb(r) => vec![imm9_store(IrType::U8, r), advance()],
        AArch64Inst::StrbIdx(r) => if r.idx == 0 { vec![imm9_store(IrType::U8, r), advance()] } else { vec![imm9_store(IrType::U8, r), imm9_writeback(r), advance()] },
        AArch64Inst::Ldurb(r) => vec![imm9_load(IrType::U8, IrType::U32, false, r), advance()],
        AArch64Inst::LdrbIdx(r) => if r.idx == 0 { vec![imm9_load(IrType::U8, IrType::U32, false, r), advance()] } else { vec![imm9_load(IrType::U8, IrType::U32, false, r), imm9_writeback(r), advance()] },
        AArch64Inst::Ldursb64(r) => vec![imm9_load(IrType::I8, IrType::U64, true, r), advance()],
        AArch64Inst::LdrsbIdx64(r) => if r.idx == 0 { vec![imm9_load(IrType::I8, IrType::U64, true, r), advance()] } else { vec![imm9_load(IrType::I8, IrType::U64, true, r), imm9_writeback(r), advance()] },
        AArch64Inst::Ldursb32(r) => vec![imm9_load(IrType::I8, IrType::U32, true, r), advance()],
        AArch64Inst::LdrsbIdx32(r) => if r.idx == 0 { vec![imm9_load(IrType::I8, IrType::U32, true, r), advance()] } else { vec![imm9_load(IrType::I8, IrType::U32, true, r), imm9_writeback(r), advance()] },
        AArch64Inst::SturSimdFP8(r) => vec![imm9_store(IrType::U8, r), advance()],
        AArch64Inst::StrSimdFPIdx8(r) => if r.idx == 0 { vec![imm9_store(IrType::U8, r), advance()] } else { vec![imm9_store(IrType::U8, r), imm9_writeback(r), advance()] },
        AArch64Inst::LdurSimdFP8(r) => vec![imm9_load(IrType::U8, IrType::U8, false, r), advance()],
        AArch64Inst::LdrSimdFPIdx8(r) => if r.idx == 0 { vec![imm9_load(IrType::U8, IrType::U8, false, r), advance()] } else { vec![imm9_load(IrType::U8, IrType::U8, false, r), imm9_writeback(r), advance()] },
        AArch64Inst::Sturh(r) => vec![imm9_store(IrType::U16, r), advance()],
        AArch64Inst::StrhIdx(r) => if r.idx == 0 { vec![imm9_store(IrType::U16, r), advance()] } else { vec![imm9_store(IrType::U16, r), imm9_writeback(r), advance()] },
        AArch64Inst::Ldurh(r) => vec![imm9_load(IrType::U16, IrType::U32, false, r), advance()],
        AArch64Inst::LdrhIdx(r) => if r.idx == 0 { vec![imm9_load(IrType::U16, IrType::U32, false, r), advance()] } else { vec![imm9_load(IrType::U16, IrType::U32, false, r), imm9_writeback(r), advance()] },
        AArch64Inst::Ldursh64(r) => vec![imm9_load(IrType::I16, IrType::U64, true, r), advance()],
        AArch64Inst::LdrshIdx64(r) => if r.idx == 0 { vec![imm9_load(IrType::I16, IrType::U64, true, r), advance()] } else { vec![imm9_load(IrType::I16, IrType::U64, true, r), imm9_writeback(r), advance()] },
        AArch64Inst::Ldursh32(r) => vec![imm9_load(IrType::I16, IrType::U32, true, r), advance()],
        AArch64Inst::LdrshIdx32(r) => if r.idx == 0 { vec![imm9_load(IrType::I16, IrType::U32, true, r), advance()] } else { vec![imm9_load(IrType::I16, IrType::U32, true, r), imm9_writeback(r), advance()] },
        AArch64Inst::SturSimdFP16(r) => vec![imm9_store(IrType::U16, r), advance()],
        AArch64Inst::StrSimdFPIdx16(r) => if r.idx == 0 { vec![imm9_store(IrType::U16, r), advance()] } else { vec![imm9_store(IrType::U16, r), imm9_writeback(r), advance()] },
        AArch64Inst::LdurSimdFP16(r) => vec![imm9_load(IrType::U16, IrType::U16, false, r), advance()],
        AArch64Inst::LdrSimdFPIdx16(r) => if r.idx == 0 { vec![imm9_load(IrType::U16, IrType::U16, false, r), advance()] } else { vec![imm9_load(IrType::U16, IrType::U16, false, r), imm9_writeback(r), advance()] },
        AArch64Inst::Stur32(r) => vec![imm9_store(IrType::U32, r), advance()],
        AArch64Inst::StrIdx32(r) => if r.idx == 0 { vec![imm9_store(IrType::U32, r), advance()] } else { vec![imm9_store(IrType::U32, r), imm9_writeback(r), advance()] },
        AArch64Inst::Ldur32(r) => vec![imm9_load(IrType::U32, IrType::U32, false, r), advance()],
        AArch64Inst::LdrIdx32(r) => if r.idx == 0 { vec![imm9_load(IrType::U32, IrType::U32, false, r), advance()] } else { vec![imm9_load(IrType::U32, IrType::U32, false, r), imm9_writeback(r), advance()] },
        AArch64Inst::Ldursw(r) => vec![imm9_load(IrType::I32, IrType::U64, true, r), advance()],
        AArch64Inst::LdrswIdx(r) => if r.idx == 0 { vec![imm9_load(IrType::I32, IrType::U64, true, r), advance()] } else { vec![imm9_load(IrType::I32, IrType::U64, true, r), imm9_writeback(r), advance()] },
        AArch64Inst::SturSimdFP32(r) => vec![imm9_store(IrType::U32, r), advance()],
        AArch64Inst::StrSimdFPIdx32(r) => if r.idx == 0 { vec![imm9_store(IrType::U32, r), advance()] } else { vec![imm9_store(IrType::U32, r), imm9_writeback(r), advance()] },
        AArch64Inst::LdurSimdFP32(r) => vec![imm9_load(IrType::U32, IrType::U32, false, r), advance()],
        AArch64Inst::LdrSimdFPIdx32(r) => if r.idx == 0 { vec![imm9_load(IrType::U32, IrType::U32, false, r), advance()] } else { vec![imm9_load(IrType::U32, IrType::U32, false, r), imm9_writeback(r), advance()] },
        AArch64Inst::Stur64(r) => vec![imm9_store(IrType::U64, r), advance()],
        AArch64Inst::StrIdx64(r) => if r.idx == 0 { vec![imm9_store(IrType::U64, r), advance()] } else { vec![imm9_store(IrType::U64, r), imm9_writeback(r), advance()] },
        AArch64Inst::Ldur64(r) => vec![imm9_load(IrType::U64, IrType::U64, false, r), advance()],
        AArch64Inst::LdrIdx64(r) => if r.idx == 0 { vec![imm9_load(IrType::U64, IrType::U64, false, r), advance()] } else { vec![imm9_load(IrType::U64, IrType::U64, false, r), imm9_writeback(r), advance()] },
        AArch64Inst::Prefum(r) => vec![advance()],
        AArch64Inst::SturSimdFP64(r) => vec![imm9_store(IrType::U64, r), advance()],
        AArch64Inst::StrSimdFPIdx64(r) => if r.idx == 0 { vec![imm9_store(IrType::U64, r), advance()] } else { vec![imm9_store(IrType::U64, r), imm9_writeback(r), advance()] },
        AArch64Inst::LdurSimdFP64(r) => vec![imm9_load(IrType::U64, IrType::U64, false, r), advance()],
        AArch64Inst::LdrSimdFPIdx64(r) => if r.idx == 0 { vec![imm9_load(IrType::U64, IrType::U64, false, r), advance()] } else { vec![imm9_load(IrType::U64, IrType::U64, false, r), imm9_writeback(r), advance()] },
        AArch64Inst::UdivVar32(r) => vec![data_proc_2src(0, IrType::U32, r), advance()],
        AArch64Inst::SdivVar32(r) => vec![data_proc_2src(1, IrType::U32, r), advance()],
        AArch64Inst::LslvVar32(r) => vec![data_proc_2src(2, IrType::U32, r), advance()],
        AArch64Inst::LsrvVar32(r) => vec![data_proc_2src(3, IrType::U32, r), advance()],
        AArch64Inst::AsrvVar32(r) => vec![data_proc_2src(4, IrType::U32, r), advance()],
        AArch64Inst::RorvVar32(r) => vec![data_proc_2src(5, IrType::U32, r), advance()],
        AArch64Inst::UdivVar64(r) => vec![data_proc_2src(0, IrType::U64, r), advance()],
        AArch64Inst::SdivVar64(r) => vec![data_proc_2src(1, IrType::U64, r), advance()],
        AArch64Inst::LslvVar64(r) => vec![data_proc_2src(2, IrType::U64, r), advance()],
        AArch64Inst::LsrvVar64(r) => vec![data_proc_2src(3, IrType::U64, r), advance()],
        AArch64Inst::AsrvVar64(r) => vec![data_proc_2src(4, IrType::U64, r), advance()],
        AArch64Inst::RorvVar64(r) => vec![data_proc_2src(5, IrType::U64, r), advance()],
        AArch64Inst::AndShiftedReg32(r) => vec![logic_shifted(0, false, IrType::U32, r), advance()],
        AArch64Inst::BicShiftedReg32(r) => vec![logic_shifted(0, true, IrType::U32, r), advance()],
        AArch64Inst::OrrShiftedReg32(r) => vec![logic_shifted(1, false, IrType::U32, r), advance()],
        AArch64Inst::OrnShiftedReg32(r) => vec![logic_shifted(1, true, IrType::U32, r), advance()],
        AArch64Inst::EorShiftedReg32(r) => vec![logic_shifted(2, false, IrType::U32, r), advance()],
        AArch64Inst::EonShiftedReg32(r) => vec![logic_shifted(2, true, IrType::U32, r), advance()],
        AArch64Inst::AndsShiftedReg32(r) => vec![logic_flags(IrType::U32, logic_value(0, false, IrType::U32, r), logic_value(0, false, IrType::U32, r)), logic_shifted(0, false, IrType::U32, r), advance()],
        AArch64Inst::BicsShiftedReg32(r) => vec![logic_flags(IrType::U32, logic_value(0, true, IrType::U32, r), logic_value(0, true, IrType::U32, r)), logic_shifted(0, true, IrType::U32, r), advance()],
        AArch64Inst::AndShiftedReg64(r) => vec![logic_shifted(0, false, IrType::U64, r), advance()],
        AArch64Inst::BicShiftedReg64(r) => vec![logic_shifted(0, true, IrType::U64, r), advance()],
        AArch64Inst::OrrShiftedReg64(r) => vec![logic_shifted(1, false, IrType::U64, r), advance()],
        AArch64Inst::OrnShiftedReg64(r) => vec![logic_shifted(1, true, IrType::U64, r), advance()],
        AArch64Inst::EorShiftedReg64(r) => vec![logic_shifted(2, false, IrType::U64, r), advance()],
        AArch64Inst::EonShiftedReg64(r) => vec![logic_shifted(2, true, IrType::U64, r), advance()],
        AArch64Inst::AndsShiftedReg64(r) => vec![logic_flags(IrType::U64, logic_value(0, false, IrType::U64, r), logic_value(0, false, IrType::U64, r)), logic_shifted(0, false, IrType::U64, r), advance()],
        AArch64Inst::BicsShiftedReg64(r) => vec![logic_flags(IrType::U64, logic_value(0, true, IrType::U64, r), logic_value(0, true, IrType::U64, r)), logic_shifted(0, true, IrType::U64, r), advance()],
        AArch64Inst::AddShiftedReg32(r) => vec![arith_shifted(0, IrType::U32, r), advance()],
        AArch64Inst::AddsShiftedReg32(r) => vec![arith_shifted(1, IrType::U32, r), advance()],
        AArch64Inst::SubShiftedReg32(r) => vec![arith_shifted(2, IrType::U32, r), advance()],
        AArch64Inst::SubsShiftedReg32(r) => vec![arith_shifted(3, IrType::U32, r), advance()],
        AArch64Inst::AddShiftedReg64(r) => vec![arith_shifted(0, IrType::U64, r), advance()],
        AArch64Inst::AddsShiftedReg64(r) => vec![arith_shifted(1, IrType::U64, r), advance()],
        AArch64Inst::SubShiftedReg64(r) => vec![arith_shifted(2, IrType::U64, r), advance()],
        AArch64Inst::SubsShiftedReg64(r) => vec![arith_shifted(3, IrType::U64, r), advance()],
        AArch64Inst::AddExtReg32(r) => vec![arith_extended(0, IrType::U32, r), advance()],
        AArch64Inst::AddsExtReg32(r) => vec![arith_extended(1, IrType::U32, r), advance()],
        AArch64Inst::SubExtReg32(r) => vec![arith_extended(2, IrType::U32, r), advance()],
        AArch64Inst::SubsExtReg32(r) => vec![arith_extended(3, IrType::U32, r), advance()],
        AArch64Inst::AddExtReg64(r) => vec![arith_extended(0, IrType::U64, r), advance()],
        AArch64Inst::AddsExtReg64(r) => vec![arith_extended(1, IrType::U64, r), advance()],
        AArch64Inst::SubExtReg64(r) => vec![arith_extended(2, IrType::U64, r), advance()],
        AArch64Inst::SubsExtReg64(r) => vec![arith_extended(3, IrType::U64, r), advance()],
        AArch64Inst::CcmnRegVar32(r) => vec![cond_compare_reg(true, IrType::U32, r), advance()],
        AArch64Inst::CcmpRegVar32(r) => vec![cond_compare_reg(false, IrType::U32, r), advance()],
        AArch64Inst::CcmnRegVar64(r) => vec![cond_compare_reg(true, IrType::U64, r), advance()],
        AArch64Inst::CcmpRegVar64(r) => vec![cond_compare_reg(false, IrType::U64, r), advance()],
        AArch64Inst::CcmnImmVar32(r) => vec![cond_compare_imm(true, IrType::U32, r), advance()],
        AArch64Inst::CcmpImmVar32(r) => vec![cond_compare_imm(false, IrType::U32, r), advance()],
        AArch64Inst::CcmnImmVar64(r) => vec![cond_compare_imm(true, IrType::U64, r), advance()],
        AArch64Inst::CcmpImmVar64(r) => vec![cond_compare_imm(false, IrType::U64, r), advance()],
        AArch64Inst::Csel32(r) => vec![cond_select(0, IrType::U32, r), advance()],
        AArch64Inst::Csinc32(r) => vec![cond_select(1, IrType::U32, r), advance()],
        AArch64Inst::Csinv32(r) => vec![cond_select(2, IrType::U32, r), advance()],
        AArch64Inst::Csneg32(r) => vec![cond_select(3, IrType::U32, r), advance()],
        AArch64Inst::Csel64(r) => vec![cond_select(0, IrType::U64, r), advance()],
        AArch64Inst::Csinc64(r) => vec![cond_select(1, IrType::U64, r), advance()],
        AArch64Inst::Csinv64(r) => vec![cond_select(2, IrType::U64, r), advance()],
        AArch64Inst::Csneg64(r) => vec![cond_select(3, IrType::U64, r), advance()],
        AArch64Inst::Madd32(r) => vec![mul_add(false, IrType::U32, r), advance()],
        AArch64Inst::Msub32(r) => vec![mul_add(true, IrType::U32, r), advance()],
        AArch64Inst::Madd64(r) => vec![mul_add(false, IrType::U64, r), advance()],
        AArch64Inst::Msub64(r) => vec![mul_add(true, IrType::U64, r), advance()],
        AArch64Inst::Clrex(r) => vec![advance()],
        AArch64Inst::DsbEncoding(r) => vec![advance()],
        AArch64Inst::Dmb(r) => vec![advance()],
        AArch64Inst::Isb(r) => vec![advance()],
        AArch64Inst::LdrLitVar32(r) => vec![literal_load(IrType::U32, IrType::U32, false, r), advance()],
        AArch64Inst::LdrLitSimdFPVar32(r) => vec![literal_load(IrType::U32, IrType::U32, false, r), advance()],
        AArch64Inst::LdrLitVar64(r) => vec![literal_load(IrType::U64, IrType::U64, false, r), advance()],
        AArch64Inst::LdrLitSimdFPVar64(r) => vec![literal_load(IrType::U64, IrType::U64, false, r), advance()],
        AArch64Inst::LdrswLit(r) => vec![literal_load(IrType::I32, IrType::U64, true, r), advance()],
        AArch64Inst::PrfmLit(r) => vec![advance()],
        AArch64Inst::Stxrb(r) => vec![base_store(IrType::U8, r), exclusive_status(r), advance()],
        AArch64Inst::Ldxrb(r) => vec![base_load(IrType::U8, IrType::U32, r), advance()],
        AArch64Inst::Stxrh(r) => vec![base_store(IrType::U16, r), exclusive_status(r), advance()],
        AArch64Inst::Ldxrh(r) => vec![base_load(IrType::U16, IrType::U32, r), advance()],
        AArch64Inst::StxrVar32(r) => vec![base_store(IrType::U32, r), exclusive_status(r), advance()],
        AArch64Inst::LdxrVar32(r) => vec![base_load(IrType::U32, IrType::U32, r), advance()],
        AArch64Inst::StxrVar64(r) => vec![base_store(IrType::U64, r), exclusive_status(r), advance()],
        AArch64Inst::LdxrVar64(r) => vec![base_load(IrType::U64, IrType::U64, r), advance()],
        AArch64Inst::Stlxrb(r) => vec![base_store(IrType::U8, r), exclusive_status(r), advance()],
        AArch64Inst::Ldaxrb(r) => vec![base_load(IrType::U8, IrType::U32, r), advance()],
        AArch64Inst::Stlxrh(r) => vec![base_store(IrType::U16, r), exclusive_status(r), advance()],
        AArch64Inst::Ldaxrh(r) => vec![base_load(IrType::U16, IrType::U32, r), advance()],
        AArch64Inst::StlxrVar32(r) => vec![base_store(IrType::U32, r), exclusive_status(r), advance()],
        AArch64Inst::LdaxrVar32(r) => vec![base_load(IrType::U32, IrType::U32, r), advance()],
        AArch64Inst::StlxrVar64(r) => vec![base_store(IrType::U64, r), exclusive_status(r), advance()],
        AArch64Inst::LdaxrVar64(r) => vec![base_load(IrType::U64, IrType::U64, r), advance()],
        AArch64Inst::Stlrb(r) => vec![base_store(IrType::U8, r), advance()],
        AArch64Inst::Ldarb(r) => vec![base_load(IrType::U8, IrType::U32, r), advance()],
        AArch64Inst::Stlrh(r) => vec![base_store(IrType::U16, r), advance()],
        AArch64Inst::Ldarh(r) => vec![base_load(IrType::U16, IrType::U32, r), advance()],
        AArch64Inst::StlrVar32(r) => vec![base_store(IrType::U32, r), advance()],
        AArch64Inst::LdarVar32(r) => vec![base_load(IrType::U32, IrType::U32, r), advance()],
        AArch64Inst::StlrVar64(r) => vec![base_store(IrType::U64, r), advance()],
        AArch64Inst::LdarVar64(r) => vec![base_load(IrType::U64, IrType::U64, r), advance()],
        AArch64Inst::AdcVar32(r) => vec![add_carry(false, IrType::U32, r), advance()],
        AArch64Inst::SbcVar32(r) => vec![add_carry(true, IrType::U32, r), advance()],
        AArch64Inst::AdcVar64(r) => vec![add_carry(false, IrType::U64, r), advance()],
        AArch64Inst::SbcVar64(r) => vec![add_carry(true, IrType::U64, r), advance()],
        _ => vec![Stmt::Trap(inst.encode())],
    }
}

/// Appends the IR statements of `inst` to `block`.
pub fn lift(inst: &AArch64Inst, block: &mut BasicBlock)
    ensures
        final(block).stmts@ == old(block).stmts@ + lifted(*inst),
{
    let mut v = lift_stmts(inst);
    let ghost added = v@;
    let ghost start = block.stmts@;
    let n = v.len();
    let mut i: usize = 0;
    while v.len() > 0
        invariant
            i + v@.len() == added.len(),
            added.len() == n,
            v@ == added.subrange(i as int, added.len() as int),
            block.stmts@ == start + added.subrange(0, i as int),
        decreases v@.len(),
    {
        let s = v.remove(0);
        block.push(s);
        i = i + 1;
        assert(block.stmts@ =~= start + added.subrange(0, i as int));
        assert(v@ =~= added.subrange(i as int, added.len() as int));
    }
    assert(added.subrange(0, i as int) =~= added);
}

} // verus!
