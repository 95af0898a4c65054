use vstd::prelude::*;

use crate::cpu::{value_bytes, add_flags, signed_of, sub_flags, truncate, Cpu, CpuState, ExecError, FLAG_C, FLAG_N, FLAG_V, FLAG_Z, nzcv};
use crate::ir::{Ir, IrType, Operand, operand_type};

verus! {

/// How flag-setting nodes (`Addc`, `Subc`) update the flag word.
#[derive(Debug, Clone, Copy, PartialEq, Eq, Structural)]
pub enum FlagPolicy {
    /// AArch64 NZCV semantics.
    Nzcv,
    /// Flag-setting nodes leave the flag word as it was.
    Preserve,
}

/// `v` modulo the modulus of `t`.
pub open spec fn trunc(t: IrType, v: int) -> u64 {
    (v % t.modulus()) as u64
}

/// Division rounding toward zero; division by zero yields zero.
pub open spec fn tdiv(x: int, y: int) -> int {
    if y == 0 {
        0
    } else {
        let q = (if x < 0 { -x } else { x }) / (if y < 0 { -y } else { y });
        if (x < 0) != (y < 0) { -q } else { q }
    }
}

/// Quotient of `a` by `b` at type `t`, signed for signed types; zero when
/// the divisor is zero.
pub open spec fn div_value(t: IrType, a: u64, b: u64) -> u64 {
    let x = a as int % t.modulus();
    let y = b as int % t.modulus();
    if t.is_signed() {
        trunc(t, tdiv(signed_of(t, x), signed_of(t, y)))
    } else {
        trunc(t, tdiv(x, y))
    }
}

/// Shift amount `b` taken modulo the width of `t`.
pub open spec fn shift_amount(t: IrType, b: u64) -> u64 {
    (b as int % t.spec_bits() as int) as u64
}

/// `x`, a value of type `t`, sign-extended to 64 bits.
pub open spec fn sext64(t: IrType, x: u64) -> u64 {
    if 2 * x >= t.modulus() {
        (x + (u64::MAX - (t.modulus() - 1))) as u64
    } else {
        x
    }
}

/// Arithmetic right shift of `a` by `b` at type `t`.
pub open spec fn ashr_value(t: IrType, a: u64, b: u64) -> u64 {
    let x = trunc(t, a as int);
    let sh = shift_amount(t, b);
    if t.is_signed() && 2 * x >= t.modulus() {
        trunc(t, (!((!sext64(t, x)) >> sh)) as int)
    } else {
        x >> sh
    }
}

/// Right rotation of `a` by `b` at type `t`.
pub open spec fn rotr_value(t: IrType, a: u64, b: u64) -> u64 {
    let x = trunc(t, a as int);
    let sh = shift_amount(t, b);
    if sh == 0 {
        x
    } else {
        trunc(t, ((x >> sh) | (x << (t.spec_bits() as u64 - sh) as u64)) as int)
    }
}

/// Order of `a` and `b` at type `t`: signed for signed types.
pub open spec fn greater(t: IrType, a: u64, b: u64) -> bool {
    let x = a as int % t.modulus();
    let y = b as int % t.modulus();
    if t.is_signed() {
        signed_of(t, x) > signed_of(t, y)
    } else {
        x > y
    }
}

/// Number of bytes a load or store of type `t` covers: its full size.
/// Values are 64 bits wide, so a 16-byte load yields its low 8 bytes and a
/// 16-byte store writes the value zero-extended; both need all 16 bytes mapped.
pub open spec fn access_size(t: IrType) -> nat {
    t.spec_size()
}

pub open spec fn bool_value(b: bool) -> u64 {
    if b {
        1
    } else {
        0
    }
}

/// Value of a node that combines two operand values.
pub open spec fn binary_value(ir: Ir, x: u64, y: u64) -> u64 {
    match ir {
        Ir::Add(t, _, _) | Ir::Addc(t, _, _) => trunc(t, x + y),
        Ir::Sub(t, _, _) | Ir::Subc(t, _, _) => trunc(t, x - y),
        Ir::Mul(t, _, _) => trunc(t, x * y),
        Ir::Div(t, _, _) => div_value(t, x, y),
        Ir::And(t, _, _) => trunc(t, (x & y) as int),
        Ir::Or(t, _, _) => trunc(t, (x | y) as int),
        Ir::Xor(t, _, _) => trunc(t, (x ^ y) as int),
        Ir::LShl(t, _, _) => trunc(t, (x << shift_amount(t, y)) as int),
        Ir::LShr(t, _, _) => trunc(t, x as int) >> shift_amount(t, y),
        Ir::AShr(t, _, _) => ashr_value(t, x, y),
        Ir::Rotr(t, _, _) => rotr_value(t, x, y),
        Ir::CmpEq(a, _) => bool_value(trunc(a.spec_ty(), x as int) == trunc(a.spec_ty(), y as int)),
        Ir::CmpNe(a, _) => bool_value(trunc(a.spec_ty(), x as int) != trunc(a.spec_ty(), y as int)),
        Ir::CmpGt(a, _) => bool_value(greater(a.spec_ty(), x, y)),
        Ir::CmpLt(a, _) => bool_value(greater(a.spec_ty(), y, x)),
        _ => 0,
    }
}

/// Flag word after a node that combines two operand values, from flag word `f`.
pub open spec fn binary_flag(ir: Ir, x: u64, y: u64, f: u64, p: FlagPolicy) -> u64 {
    match (ir, p) {
        (Ir::Addc(t, _, _), FlagPolicy::Nzcv) => add_flags(t, x, y),
        (Ir::Subc(t, _, _), FlagPolicy::Nzcv) => sub_flags(t, x, y),
        _ => f,
    }
}

/// Value of a node that takes one operand value.
pub open spec fn unary_value(ir: Ir, x: u64) -> u64 {
    match ir {
        Ir::Not(t, _) => trunc(t, (!x) as int),
        Ir::ZextCast(t, _) => trunc(t, x as int),
        Ir::SextCast(t, a) => trunc(t, signed_of(a.spec_ty(), x as int % a.spec_ty().modulus())),
        Ir::BitCast(t, _) => trunc(t, x as int),
        _ => x,
    }
}

/// What evaluating operand `op` in state `s` yields: its value and the flag word after it.
pub open spec fn eval_operand(op: Operand, s: CpuState, p: FlagPolicy) -> Result<(u64, u64), ExecError>
    decreases op,
{
    match op {
        Operand::Gpr(t, r) => Ok((trunc(t, s.read_reg(r) as int), s.flag)),
        Operand::Fpr(t, r) => Ok((trunc(t, s.read_reg(r) as int), s.flag)),
        Operand::Immediate(_, k) => Ok((k, s.flag)),
        Operand::Ip => Ok((s.ip, s.flag)),
        Operand::Flag => Ok((s.flag, s.flag)),
        Operand::Ir(b) => eval_ir(*b, s, p),
        Operand::VoidIr(b) => eval_ir(*b, s, p),
    }
}

/// What evaluating node `ir` in state `s` yields: its value and the flag word after it.
#[verifier::opaque]
pub open spec fn eval_ir(ir: Ir, s: CpuState, p: FlagPolicy) -> Result<(u64, u64), ExecError>
    decreases ir,
{
    match ir {
        Ir::Add(_, a, b) | Ir::Sub(_, a, b) | Ir::Mul(_, a, b) | Ir::Div(_, a, b) | Ir::Addc(_, a, b)
        | Ir::Subc(_, a, b) | Ir::And(_, a, b) | Ir::Or(_, a, b) | Ir::Xor(_, a, b) | Ir::LShl(_, a, b)
        | Ir::LShr(_, a, b) | Ir::AShr(_, a, b) | Ir::Rotr(_, a, b) | Ir::CmpEq(a, b) | Ir::CmpNe(a, b)
        | Ir::CmpGt(a, b) | Ir::CmpLt(a, b) => match eval_operand(a, s, p) {
            Err(e) => Err(e),
            Ok((x, f)) => match eval_operand(b, CpuState { flag: f, ..s }, p) {
                Err(e) => Err(e),
                Ok((y, g)) => Ok((binary_value(ir, x, y), binary_flag(ir, x, y, g, p))),
            },
        },
        Ir::Not(_, a) | Ir::ZextCast(_, a) | Ir::SextCast(_, a) | Ir::BitCast(_, a) => match eval_operand(a, s, p) {
            Err(e) => Err(e),
            Ok((x, f)) => Ok((unary_value(ir, x), f)),
        },
        Ir::Load(t, a) => match eval_operand(a, s, p) {
            Err(e) => Err(e),
            Ok((x, f)) => if s.mapped(x, access_size(t)) {
                Ok((trunc(t, s.read_mem(x, value_bytes(access_size(t))) as int), f))
            } else {
                Err(ExecError::BadMemory { addr: x })
            },
        },
        Ir::Value(a) => eval_operand(a, s, p),
        Ir::Nop => Ok((0, s.flag)),
        Ir::If(_, c, a, b) => match eval_operand(c, s, p) {
            Err(e) => Err(e),
            Ok((x, f)) => if x != 0 {
                eval_operand(a, CpuState { flag: f, ..s }, p)
            } else {
                eval_operand(b, CpuState { flag: f, ..s }, p)
            },
        },
    }
}

proof fn lemma_wrap_quotient(t: IrType) -> (q: int)
    ensures
        q > 0,
        t.modulus() * q == 0x1_0000_0000_0000_0000,
{
    let m = t.modulus();
    if m == 2 {
        0x8000_0000_0000_0000
    } else if m == 0x100 {
        0x100_0000_0000_0000
    } else if m == 0x1_0000 {
        0x1_0000_0000_0000
    } else if m == 0x1_0000_0000 {
        0x1_0000_0000
    } else {
        1
    }
}

/// Adding multiples of `2^64` does not change a value cut to any IR type.
proof fn lemma_trunc_wrap(t: IrType, v: int, k: int)
    ensures
        trunc(t, v + k * 0x1_0000_0000_0000_0000) == trunc(t, v),
{
    let m = t.modulus();
    let q = lemma_wrap_quotient(t);
    assert(m * (k * q) == k * 0x1_0000_0000_0000_0000) by (nonlinear_arith)
        requires
            m * q == 0x1_0000_0000_0000_0000,
    ;
    vstd::arithmetic::div_mod::lemma_mod_multiples_vanish(k * q, v, m);
}

proof fn lemma_trunc_mod64(t: IrType, v: int)
    ensures
        trunc(t, v % 0x1_0000_0000_0000_0000) == trunc(t, v),
{
    let m = t.modulus();
    let q = lemma_wrap_quotient(t);
    vstd::arithmetic::div_mod::lemma_mod_mod(v, m, q);
}

proof fn lemma_neg_mod(q: int, m: int)
    requires
        m > 0,
        q >= 0,
    ensures
        (m - q % m) % m == (-q) % m,
{
    vstd::arithmetic::div_mod::lemma_fundamental_div_mod(q, m);
    let k = -(q / m) - 1;
    assert(m * k + (m - q % m) == -q) by (nonlinear_arith)
        requires
            q == m * (q / m) + q % m,
            k == -(q / m) - 1,
    ;
    vstd::arithmetic::div_mod::lemma_mod_multiples_vanish(k, m - q % m, m);
}

/// Flag word of `n`, `z`, `c` and `v`.
pub fn make_nzcv(n: bool, z: bool, c: bool, v: bool) -> (r: u64)
    ensures
        r == nzcv(n, z, c, v),
{
    (if n { FLAG_N } else { 0 }) + (if z { FLAG_Z } else { 0 }) + (if c { FLAG_C } else { 0 }) + (if v {
        FLAG_V
    } else {
        0
    })
}

fn signed_wide(m: u128, x: u128) -> (r: i128)
    requires
        0 < m <= 0x1_0000_0000_0000_0000,
        x < m,
    ensures
        r == (if 2 * x >= m { x - m } else { x as int }),
{
    if 2 * x >= m {
        x as i128 - m as i128
    } else {
        x as i128
    }
}

impl FlagPolicy {
    /// Flag word after an addition of `lhs` and `rhs` at type `t`, from flag word `flag`.
    pub fn add_carry(self, t: IrType, lhs: u64, rhs: u64, flag: u64) -> (r: u64)
        ensures
            self is Nzcv ==> r == add_flags(t, lhs, rhs),
            self is Preserve ==> r == flag,
    {
        match self {
            FlagPolicy::Preserve => flag,
            FlagPolicy::Nzcv => {
                let m: u128 = t.mask() as u128 + 1;
                let x = lhs as u128 % m;
                let y = rhs as u128 % m;
                let sum = x + y;
                let r = sum % m;
                let s = signed_wide(m, x) + signed_wide(m, y);
                make_nzcv(2 * r >= m, r == 0, sum >= m, 2 * s >= m as i128 || 2 * s < -(m as i128))
            },
        }
    }

    /// Flag word after a subtraction of `rhs` from `lhs` at type `t`, from flag word `flag`.
    pub fn sub_carry(self, t: IrType, lhs: u64, rhs: u64, flag: u64) -> (r: u64)
        ensures
            self is Nzcv ==> r == sub_flags(t, lhs, rhs),
            self is Preserve ==> r == flag,
    {
        match self {
            FlagPolicy::Preserve => flag,
            FlagPolicy::Nzcv => {
                let m: u128 = t.mask() as u128 + 1;
                let x = lhs as u128 % m;
                let y = rhs as u128 % m;
                let r = if x >= y { x - y } else { m - (y - x) };
                proof {
                    if x < y {
                        vstd::arithmetic::div_mod::lemma_mod_multiples_vanish(1, x - y, m as int);
                        vstd::arithmetic::div_mod::lemma_small_mod((m - (y - x)) as nat, m as nat);
                    } else {
                        vstd::arithmetic::div_mod::lemma_small_mod((x - y) as nat, m as nat);
                    }
                }
                let s = signed_wide(m, x) - signed_wide(m, y);
                make_nzcv(2 * r >= m, r == 0, x >= y, 2 * s >= m as i128 || 2 * s < -(m as i128))
            },
        }
    }
}

fn modulus_of(t: IrType) -> (m: u128)
    ensures
        m as int == t.modulus(),
{
    t.mask() as u128 + 1
}

fn div_exec(t: IrType, a: u64, b: u64) -> (r: u64)
    ensures
        r == div_value(t, a, b),
{
    let x = truncate(t, a);
    let y = truncate(t, b);
    if !t.signed() {
        if y == 0 {
            0
        } else {
            truncate(t, x / y)
        }
    } else {
        let m = modulus_of(t);
        let xn = 2 * (x as u128) >= m;
        let yn = 2 * (y as u128) >= m;
        let mx: u128 = if xn { m - x as u128 } else { x as u128 };
        let my: u128 = if yn { m - y as u128 } else { y as u128 };
        if my == 0 {
            return 0;
        }
        let q = mx / my;
        if xn != yn {
            proof {
                lemma_neg_mod(q as int, m as int);
            }
            ((m - q % m) % m) as u64
        } else {
            (q % m) as u64
        }
    }
}

fn sext64_exec(t: IrType, x: u64) -> (r: u64)
    requires
        (x as int) < t.modulus(),
    ensures
        r == sext64(t, x),
{
    let m = modulus_of(t);
    if 2 * (x as u128) >= m {
        x + (u64::MAX - t.mask())
    } else {
        x
    }
}

fn shift_amount_exec(t: IrType, b: u64) -> (r: u64)
    ensures
        r == shift_amount(t, b),
        r < t.spec_bits(),
{
    b % (t.bits() as u64)
}

fn greater_exec(t: IrType, a: u64, b: u64) -> (r: bool)
    ensures
        r == greater(t, a, b),
{
    let m = modulus_of(t);
    let x = truncate(t, a) as u128;
    let y = truncate(t, b) as u128;
    if t.signed() {
        signed_wide(m, x) > signed_wide(m, y)
    } else {
        x > y
    }
}

fn bool_exec(b: bool) -> (r: u64)
    ensures
        r == bool_value(b),
{
    if b {
        1
    } else {
        0
    }
}

/// Value and flag word of a node that combines operand values `x` and `y`.
fn binary_exec(ir: &Ir, x: u64, y: u64, f: u64, p: FlagPolicy) -> (r: (u64, u64))
    ensures
        r == (binary_value(*ir, x, y), binary_flag(*ir, x, y, f, p)),
{
    match ir {
        Ir::Add(t, _, _) => {
            proof {
                lemma_trunc_wrap(*t, x + y, -1);
            }
            (truncate(*t, x.wrapping_add(y)), f)
        },
        Ir::Addc(t, _, _) => {
            proof {
                lemma_trunc_wrap(*t, x + y, -1);
            }
            (truncate(*t, x.wrapping_add(y)), p.add_carry(*t, x, y, f))
        },
        Ir::Sub(t, _, _) => {
            proof {
                lemma_trunc_wrap(*t, x - y, 1);
            }
            (truncate(*t, x.wrapping_sub(y)), f)
        },
        Ir::Subc(t, _, _) => {
            proof {
                lemma_trunc_wrap(*t, x - y, 1);
            }
            (truncate(*t, x.wrapping_sub(y)), p.sub_carry(*t, x, y, f))
        },
        Ir::Mul(t, _, _) => {
            proof {
                lemma_trunc_mod64(*t, x * y);
            }
            (truncate(*t, x.wrapping_mul(y)), f)
        },
        Ir::Div(t, _, _) => (div_exec(*t, x, y), f),
        Ir::And(t, _, _) => (truncate(*t, x & y), f),
        Ir::Or(t, _, _) => (truncate(*t, x | y), f),
        Ir::Xor(t, _, _) => (truncate(*t, x ^ y), f),
        Ir::LShl(t, _, _) => (truncate(*t, x << shift_amount_exec(*t, y)), f),
        Ir::LShr(t, _, _) => (truncate(*t, x) >> shift_amount_exec(*t, y), f),
        Ir::AShr(t, _, _) => {
            let v = truncate(*t, x);
            let sh = shift_amount_exec(*t, y);
            if t.signed() && 2 * (v as u128) >= modulus_of(*t) {
                (truncate(*t, !((!sext64_exec(*t, v)) >> sh)), f)
            } else {
                (v >> sh, f)
            }
        },
        Ir::Rotr(t, _, _) => {
            let v = truncate(*t, x);
            let sh = shift_amount_exec(*t, y);
            if sh == 0 {
                (v, f)
            } else {
                (truncate(*t, (v >> sh) | (v << (t.bits() as u64 - sh))), f)
            }
        },
        Ir::CmpEq(a, _) => {
            let t = operand_type(a);
            (bool_exec(truncate(t, x) == truncate(t, y)), f)
        },
        Ir::CmpNe(a, _) => {
            let t = operand_type(a);
            (bool_exec(truncate(t, x) != truncate(t, y)), f)
        },
        Ir::CmpGt(a, _) => (bool_exec(greater_exec(operand_type(a), x, y)), f),
        Ir::CmpLt(a, _) => (bool_exec(greater_exec(operand_type(a), y, x)), f),
        _ => (0, f),
    }
}

/// Value of a node that takes operand value `x`.
fn unary_exec(ir: &Ir, x: u64) -> (r: u64)
    ensures
        r == unary_value(*ir, x),
{
    match ir {
        Ir::Not(t, _) => truncate(*t, !x),
        Ir::ZextCast(t, _) => truncate(*t, x),
        Ir::BitCast(t, _) => truncate(*t, x),
        Ir::SextCast(t, a) => {
            let from = operand_type(a);
            let v = truncate(from, x);
            proof {
                lemma_trunc_wrap(*t, v - from.modulus(), 1);
            }
            truncate(*t, sext64_exec(from, v))
        },
        _ => x,
    }
}

/// What running node `ir` may change of a CPU: the flag word only.
pub open spec fn flag_only(before: CpuState, after: CpuState) -> bool {
    after == (CpuState { flag: after.flag, ..before })
}

/// Runs `op` on `cpu`: the value it yields, with the flag word left as it
/// leaves it; on failure `cpu` is left as it was.
pub fn run_operand(op: &Operand, cpu: &mut Cpu, p: FlagPolicy) -> (r: Result<u64, ExecError>)
    requires
        old(cpu)@.wf(),
    ensures
        flag_only(old(cpu)@, final(cpu)@),
        match eval_operand(*op, old(cpu)@, p) {
            Ok((v, f)) => r == Ok::<u64, ExecError>(v) && final(cpu)@.flag == f,
            Err(e) => r == Err::<u64, ExecError>(e) && final(cpu)@ == old(cpu)@,
        },
    decreases op, 2int,
{
    reveal(eval_ir);
    match op {
        Operand::Gpr(t, reg) => Ok(truncate(*t, cpu.gpr(*reg))),
        Operand::Fpr(t, reg) => Ok(truncate(*t, cpu.gpr(*reg))),
        Operand::Immediate(_, k) => Ok(*k),
        Operand::Ip => Ok(cpu.ip()),
        Operand::Flag => Ok(cpu.flag()),
        Operand::Ir(b) => run_ir(b, cpu, p),
        Operand::VoidIr(b) => run_ir(b, cpu, p),
    }
}

/// Runs node `ir` on `cpu`: the value it yields, with the flag word left as
/// it leaves it; on failure `cpu` is left as it was.
pub fn run_ir(ir: &Ir, cpu: &mut Cpu, p: FlagPolicy) -> (r: Result<u64, ExecError>)
    requires
        old(cpu)@.wf(),
    ensures
        flag_only(old(cpu)@, final(cpu)@),
        match eval_ir(*ir, old(cpu)@, p) {
            Ok((v, f)) => r == Ok::<u64, ExecError>(v) && final(cpu)@.flag == f,
            Err(e) => r == Err::<u64, ExecError>(e) && final(cpu)@ == old(cpu)@,
        },
    decreases ir, 1int,
{
    let saved = cpu.flag();
    let r = run_node(ir, cpu, p);
    if r.is_err() {
        cpu.set_flag(saved);
    }
    r
}

fn run_node(ir: &Ir, cpu: &mut Cpu, p: FlagPolicy) -> (r: Result<u64, ExecError>)
    requires
        old(cpu)@.wf(),
    ensures
        flag_only(old(cpu)@, final(cpu)@),
        match eval_ir(*ir, old(cpu)@, p) {
            Ok((v, f)) => r == Ok::<u64, ExecError>(v) && final(cpu)@.flag == f,
            Err(e) => r == Err::<u64, ExecError>(e),
        },
    decreases ir, 0int,
{
    reveal(eval_ir);
    match ir {
        Ir::Add(_, a, b) | Ir::Sub(_, a, b) | Ir::Mul(_, a, b) | Ir::Div(_, a, b) | Ir::Addc(_, a, b)
        | Ir::Subc(_, a, b) | Ir::And(_, a, b) | Ir::Or(_, a, b) | Ir::Xor(_, a, b) | Ir::LShl(_, a, b)
        | Ir::LShr(_, a, b) | Ir::AShr(_, a, b) | Ir::Rotr(_, a, b) | Ir::CmpEq(a, b) | Ir::CmpNe(a, b)
        | Ir::CmpGt(a, b) | Ir::CmpLt(a, b) => {
            let x = run_operand(a, cpu, p)?;
            let y = run_operand(b, cpu, p)?;
            let (v, f) = binary_exec(ir, x, y, cpu.flag(), p);
            cpu.set_flag(f);
            Ok(v)
        },
        Ir::Not(_, a) | Ir::ZextCast(_, a) | Ir::SextCast(_, a) | Ir::BitCast(_, a) => {
            let x = run_operand(a, cpu, p)?;
            Ok(unary_exec(ir, x))
        },
        Ir::Load(t, a) => {
            let x = run_operand(a, cpu, p)?;
            let n = t.size_in_bytes();
            let v = cpu.load(x, n)?;
            Ok(truncate(*t, v))
        },
        Ir::Value(a) => run_operand(a, cpu, p),
        Ir::Nop => Ok(0),
        Ir::If(_, c, a, b) => {
            let x = run_operand(c, cpu, p)?;
            if x != 0 {
                run_operand(a, cpu, p)
            } else {
                run_operand(b, cpu, p)
            }
        },
    }
}

proof fn lemma_value_of_nested(x: Ir, s: CpuState, p: FlagPolicy)
    ensures
        eval_ir(Ir::Value(Operand::Ir(Box::new(x))), s, p) == eval_ir(x, s, p),
{
    reveal(eval_ir);
}

/// What the peephole rules make of `ir`: a value of a nested node becomes
/// what that node compiles to, an `And` of two immediates of its own type
/// becomes one immediate, and an `If` on an immediate condition whose
/// branches have its type becomes the chosen branch. Any other node stays.
pub open spec fn compiled(ir: Ir) -> Ir
    decreases ir,
{
    match ir {
        Ir::Value(Operand::Ir(x)) => compiled(*x),
        Ir::And(t, Operand::Immediate(t1, k1), Operand::Immediate(t2, k2)) => if t1 == t && t2 == t {
            Ir::Value(Operand::Immediate(t, ((k1 & k2) as int % t.modulus()) as u64))
        } else {
            ir
        },
        Ir::If(t, Operand::Immediate(_, k), a, b) => if a.spec_ty() == t && b.spec_ty() == t {
            Ir::Value(if k != 0 { a } else { b })
        } else {
            ir
        },
        _ => ir,
    }
}

/// Applies the peephole rules to `ir` (see [`compiled`]). The result has the
/// type of `ir` and evaluates as `ir` does in every state.
pub fn compile_ir(ir: Ir) -> (r: Ir)
    ensures
        r == compiled(ir),
        ir matches Ir::Value(Operand::Ir(x)) ==> r == compiled(*x),
        ir matches Ir::And(t, Operand::Immediate(t1, k1), Operand::Immediate(t2, k2)) ==> (t1 == t && t2 == t ==> r
            == Ir::Value(Operand::Immediate(t, ((k1 & k2) as int % t.modulus()) as u64))),
        ir matches Ir::If(t, Operand::Immediate(_, k), a, b) ==> (a.spec_ty() == t && b.spec_ty() == t ==> r
            == Ir::Value(if k != 0 { a } else { b })),
        r.spec_ty() == ir.spec_ty(),
        forall|s: CpuState, p: FlagPolicy| #[trigger] eval_ir(r, s, p) == eval_ir(ir, s, p),
    decreases ir,
{
    reveal(eval_ir);
    let ghost ir0 = ir;
    match ir {
        Ir::Value(Operand::Ir(b)) => {
            let ghost inner = *b;
            let c = compile_ir(*b);
            proof {
                assert forall|s: CpuState, p: FlagPolicy| #[trigger] eval_ir(c, s, p) == eval_ir(ir0, s, p) by {
                    lemma_value_of_nested(inner, s, p);
                }
            }
            c
        },
        Ir::And(t, Operand::Immediate(t1, k1), Operand::Immediate(t2, k2)) if t1 == t && t2 == t => {
            let c = Ir::Value(Operand::Immediate(t, truncate(t, k1 & k2)));
            assert forall|s: CpuState, p: FlagPolicy| #[trigger] eval_ir(c, s, p) == eval_ir(ir0, s, p) by {
                assert(CpuState { flag: s.flag, ..s } == s);
            }
            c
        },
        Ir::If(t, Operand::Immediate(t1, k), a, b) if operand_type(&a) == t && operand_type(&b) == t => {
            let c = if k != 0 { Ir::Value(a) } else { Ir::Value(b) };
            assert forall|s: CpuState, p: FlagPolicy| #[trigger] eval_ir(c, s, p) == eval_ir(ir0, s, p) by {
                assert(CpuState { flag: s.flag, ..s } == s);
            }
            c
        },
        _ => ir,
    }
}

/// A 128-bit scratch word that compiled code yields.
#[derive(Debug, Clone, Copy, PartialEq, Eq, Structural)]
pub struct Value {
    pub lo: u64,
    pub hi: u64,
}

impl Value {
    pub fn u8(&self) -> (r: u8)
        ensures
            r as int == self.lo as int % 0x100,
    {
        (self.lo % 0x100) as u8
    }

    pub fn u16(&self) -> (r: u16)
        ensures
            r as int == self.lo as int % 0x1_0000,
    {
        (self.lo % 0x1_0000) as u16
    }

    pub fn u32(&self) -> (r: u32)
        ensures
            r as int == self.lo as int % 0x1_0000_0000,
    {
        (self.lo % 0x1_0000_0000) as u32
    }

    pub fn u64(&self) -> (r: u64)
        ensures
            r == self.lo,
    {
        self.lo
    }

    pub fn i8(&self) -> (r: i8)
        ensures
            r as int == signed_of(IrType::I8, self.lo as int % 0x100),
    {
        let x = (self.lo % 0x100) as i16;
        (if x >= 0x80 { x - 0x100 } else { x }) as i8
    }

    pub fn i16(&self) -> (r: i16)
        ensures
            r as int == signed_of(IrType::I16, self.lo as int % 0x1_0000),
    {
        let x = (self.lo % 0x1_0000) as i32;
        (if x >= 0x8000 { x - 0x1_0000 } else { x }) as i16
    }

    pub fn i32(&self) -> (r: i32)
        ensures
            r as int == signed_of(IrType::I32, self.lo as int % 0x1_0000_0000),
    {
        let x = (self.lo % 0x1_0000_0000) as i64;
        (if x >= 0x8000_0000 { x - 0x1_0000_0000 } else { x }) as i32
    }

    pub fn i64(&self) -> (r: i64)
        ensures
            r as int == signed_of(IrType::I64, self.lo as int),
    {
        let x = self.lo as i128;
        (if x >= 0x8000_0000_0000_0000 { x - 0x1_0000_0000_0000_0000 } else { x }) as i64
    }
}

/// An IR expression ready to run, with the flag policy it runs under.
pub struct CompiledCode {
    pub ir: Ir,
    pub policy: FlagPolicy,
}

/// Compiles IR expressions for the interpreter.
pub struct InterpretCodegen {
    pub flag_policy: FlagPolicy,
}

impl InterpretCodegen {
    pub fn new(flag_policy: FlagPolicy) -> (r: Self)
        ensures
            r.flag_policy == flag_policy,
    {
        InterpretCodegen { flag_policy }
    }

    /// Compiles `ir`; the code evaluates as `ir` does in every state.
    pub fn compile(&self, ir: Ir) -> (r: CompiledCode)
        ensures
            r.policy == self.flag_policy,
            r.ir == compiled(ir),
            ir matches Ir::Value(Operand::Ir(x)) ==> r.ir == compiled(*x),
            ir matches Ir::And(t, Operand::Immediate(t1, k1), Operand::Immediate(t2, k2)) ==> (t1 == t && t2 == t
                ==> r.ir == Ir::Value(Operand::Immediate(t, ((k1 & k2) as int % t.modulus()) as u64))),
            ir matches Ir::If(t, Operand::Immediate(_, k), a, b) ==> (a.spec_ty() == t && b.spec_ty() == t ==> r.ir
                == Ir::Value(if k != 0 { a } else { b })),
            forall|s: CpuState| #[trigger] eval_ir(r.ir, s, r.policy) == eval_ir(ir, s, self.flag_policy),
    {
        CompiledCode { ir: compile_ir(ir), policy: self.flag_policy }
    }
}

/// Runs compiled code on `cpu`; on failure `cpu` is left as it was.
pub fn execute(code: &CompiledCode, cpu: &mut Cpu) -> (r: Result<Value, ExecError>)
    requires
        old(cpu)@.wf(),
    ensures
        flag_only(old(cpu)@, final(cpu)@),
        match eval_ir(code.ir, old(cpu)@, code.policy) {
            Ok((v, f)) => r == Ok::<Value, ExecError>(Value { lo: v, hi: 0 }) && final(cpu)@.flag == f,
            Err(e) => r == Err::<Value, ExecError>(e) && final(cpu)@ == old(cpu)@,
        },
{
    let v = run_ir(&code.ir, cpu, code.policy)?;
    Ok(Value { lo: v, hi: 0 })
}

/// Addition, subtraction and multiplication of two immediates of the node's
/// own type yield the mathematical result modulo `2^width`, flags untouched.
pub proof fn lemma_arith_on_immediates(t: IrType, a: u64, b: u64, s: CpuState, p: FlagPolicy)
    ensures
        eval_ir(Ir::Add(t, Operand::Immediate(t, a), Operand::Immediate(t, b)), s, p) == Ok::<
            (u64, u64),
            ExecError,
        >((((a + b) % t.modulus()) as u64, s.flag)),
        eval_ir(Ir::Sub(t, Operand::Immediate(t, a), Operand::Immediate(t, b)), s, p) == Ok::<
            (u64, u64),
            ExecError,
        >((((a - b) % t.modulus()) as u64, s.flag)),
        eval_ir(Ir::Mul(t, Operand::Immediate(t, a), Operand::Immediate(t, b)), s, p) == Ok::<
            (u64, u64),
            ExecError,
        >((((a * b) % t.modulus()) as u64, s.flag)),
{
    reveal(eval_ir);
}

/// Division of two immediates of the node's own type yields their quotient:
/// for unsigned types and operands below `2^width` the quotient itself, for
/// signed types the quotient of the two's complement readings rounded
/// toward zero, modulo `2^width`; a zero divisor yields zero.
pub proof fn lemma_div_on_immediates(t: IrType, a: u64, b: u64, s: CpuState, p: FlagPolicy)
    ensures
        eval_ir(Ir::Div(t, Operand::Immediate(t, a), Operand::Immediate(t, b)), s, p) == Ok::<(u64, u64), ExecError>(
            (div_value(t, a, b), s.flag),
        ),
        !t.is_signed() && a < t.modulus() && 0 < b < t.modulus() ==> div_value(t, a, b) == a / b,
        t.is_signed() && a < t.modulus() && b < t.modulus() ==> div_value(t, a, b) == trunc(
            t,
            tdiv(signed_of(t, a as int), signed_of(t, b as int)),
        ),
        b as int % t.modulus() == 0 ==> div_value(t, a, b) == 0,
{
    reveal(eval_ir);
    assert(CpuState { flag: s.flag, ..s } == s);
    let m = t.modulus();
    if b as int % m == 0 {
        vstd::arithmetic::div_mod::lemma_small_mod(0, m as nat);
        assert(signed_of(t, 0) == 0);
        assert(tdiv(signed_of(t, a as int % m), 0) == 0);
        assert(trunc(t, 0) == 0);
    }
    if a < m && b < m {
        vstd::arithmetic::div_mod::lemma_small_mod(a as nat, m as nat);
        vstd::arithmetic::div_mod::lemma_small_mod(b as nat, m as nat);
        if !t.is_signed() && b > 0 {
            assert(a / b <= a) by (nonlinear_arith)
                requires
                    b > 0,
                    a >= 0,
            ;
            vstd::arithmetic::div_mod::lemma_small_mod((a / b) as nat, m as nat);
        }
    }
}

/// Zero extension of an immediate yields it modulo `2^width` of the target
/// type; sign extension reads the low bits of the source width as a signed
/// number and yields that number modulo `2^width` of the target type.
pub proof fn lemma_casts_of_immediates(t: IrType, from: IrType, k: u64, s: CpuState, p: FlagPolicy)
    ensures
        eval_ir(Ir::ZextCast(t, Operand::Immediate(from, k)), s, p) == Ok::<(u64, u64), ExecError>(
            ((k as int % t.modulus()) as u64, s.flag),
        ),
        eval_ir(Ir::SextCast(t, Operand::Immediate(from, k)), s, p) == Ok::<(u64, u64), ExecError>(
            ((signed_of(from, k as int % from.modulus()) % t.modulus()) as u64, s.flag),
        ),
{
    reveal(eval_ir);
}

/// Two compilations of the same IR behave alike: run on equal states they
/// yield equal results.
pub proof fn lemma_compile_twice(ir: Ir, a: CompiledCode, b: CompiledCode, p: FlagPolicy, s: CpuState)
    requires
        a.policy == p,
        b.policy == p,
        forall|t: CpuState| #[trigger] eval_ir(a.ir, t, a.policy) == eval_ir(ir, t, p),
        forall|t: CpuState| #[trigger] eval_ir(b.ir, t, b.policy) == eval_ir(ir, t, p),
    ensures
        eval_ir(a.ir, s, a.policy) == eval_ir(b.ir, s, b.policy),
{
    assert(eval_ir(a.ir, s, a.policy) == eval_ir(ir, s, p));
    assert(eval_ir(b.ir, s, b.policy) == eval_ir(ir, s, p));
}

/// Whether evaluating `op` can change the flag word: only `Addc` and `Subc` do.
pub open spec fn keeps_flag_op(op: Operand) -> bool
    decreases op,
{
    match op {
        Operand::Ir(b) => keeps_flag(*b),
        Operand::VoidIr(b) => keeps_flag(*b),
        _ => true,
    }
}

/// Whether `ir` holds no flag-setting node.
pub open spec fn keeps_flag(ir: Ir) -> bool
    decreases ir,
{
    match ir {
        Ir::Addc(_, _, _) | Ir::Subc(_, _, _) => false,
        Ir::Add(_, a, b) | Ir::Sub(_, a, b) | Ir::Mul(_, a, b) | Ir::Div(_, a, b) | Ir::And(_, a, b) | Ir::Or(
            _,
            a,
            b,
        ) | Ir::Xor(_, a, b) | Ir::LShl(_, a, b) | Ir::LShr(_, a, b) | Ir::AShr(_, a, b) | Ir::Rotr(_, a, b)
        | Ir::CmpEq(a, b) | Ir::CmpNe(a, b) | Ir::CmpGt(a, b) | Ir::CmpLt(a, b) => keeps_flag_op(a) && keeps_flag_op(b),
        Ir::Not(_, a) | Ir::ZextCast(_, a) | Ir::SextCast(_, a) | Ir::BitCast(_, a) | Ir::Load(_, a) | Ir::Value(a) => keeps_flag_op(a),
        Ir::Nop => true,
        Ir::If(_, c, a, b) => keeps_flag_op(c) && keeps_flag_op(a) && keeps_flag_op(b),
    }
}

/// An operand without flag-setting nodes leaves the flag word as it was.
pub proof fn lemma_keeps_flag_op(op: Operand, s: CpuState, p: FlagPolicy)
    requires
        keeps_flag_op(op),
    ensures
        eval_operand(op, s, p) matches Ok((_, f)) ==> f == s.flag,
    decreases op,
{
    reveal(eval_ir);
    match op {
        Operand::Ir(b) => lemma_keeps_flag(*b, s, p),
        Operand::VoidIr(b) => lemma_keeps_flag(*b, s, p),
        _ => {},
    }
}

/// A node without flag-setting nodes leaves the flag word as it was.
pub proof fn lemma_keeps_flag(ir: Ir, s: CpuState, p: FlagPolicy)
    requires
        keeps_flag(ir),
    ensures
        eval_ir(ir, s, p) matches Ok((_, f)) ==> f == s.flag,
    decreases ir,
{
    reveal(eval_ir);
    assert(CpuState { flag: s.flag, ..s } == s);
    match ir {
        Ir::Add(_, a, b) | Ir::Sub(_, a, b) | Ir::Mul(_, a, b) | Ir::Div(_, a, b) | Ir::And(_, a, b) | Ir::Or(
            _,
            a,
            b,
        ) | Ir::Xor(_, a, b) | Ir::LShl(_, a, b) | Ir::LShr(_, a, b) | Ir::AShr(_, a, b) | Ir::Rotr(_, a, b)
        | Ir::CmpEq(a, b) | Ir::CmpNe(a, b) | Ir::CmpGt(a, b) | Ir::CmpLt(a, b) => {
            lemma_keeps_flag_op(a, s, p);
            lemma_keeps_flag_op(b, s, p);
        },
        Ir::Not(_, a) | Ir::ZextCast(_, a) | Ir::SextCast(_, a) | Ir::BitCast(_, a) | Ir::Load(_, a) | Ir::Value(a) => {
            lemma_keeps_flag_op(a, s, p);
        },
        Ir::If(_, c, a, b) => {
            lemma_keeps_flag_op(c, s, p);
            lemma_keeps_flag_op(a, s, p);
            lemma_keeps_flag_op(b, s, p);
        },
        _ => {},
    }
}

} // verus!
