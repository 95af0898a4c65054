use vstd::prelude::*;

use crate::inst::AArch64RegisterId;

verus! {

/// Element type of a vector IR type.
#[derive(Debug, Clone, Copy, PartialEq, Eq, Structural, Hash)]
pub enum VecTy {
    I8,
    I16,
    I32,
    I64,
    I128,
    U8,
    U16,
    U32,
    U64,
    U128,
    F32,
    F64,
}

/// The type of an IR node or operand.
#[derive(Debug, Clone, Copy, PartialEq, Eq, Structural, Hash)]
pub enum IrType {
    I8,
    I16,
    I32,
    I64,
    I128,
    U8,
    U16,
    U32,
    U64,
    U128,
    F32,
    F64,
    Bool,
    Void,
    Vector(VecTy, u32),
}

impl IrType {
    /// Storage size in bytes; zero for `Void` and vectors.
    pub open spec fn spec_size(self) -> nat {
        match self {
            IrType::Void => 0,
            IrType::Bool | IrType::I8 | IrType::U8 => 1,
            IrType::I16 | IrType::U16 => 2,
            IrType::I32 | IrType::U32 | IrType::F32 => 4,
            IrType::I64 | IrType::U64 | IrType::F64 => 8,
            IrType::I128 | IrType::U128 => 16,
            IrType::Vector(_, _) => 0,
        }
    }

    pub fn size_in_bytes(self) -> (r: usize)
        ensures
            r == self.spec_size(),
    {
        match self {
            IrType::Void => 0,
            IrType::Bool | IrType::I8 | IrType::U8 => 1,
            IrType::I16 | IrType::U16 => 2,
            IrType::I32 | IrType::U32 => 4,
            IrType::I64 | IrType::U64 => 8,
            IrType::I128 | IrType::U128 => 16,
            IrType::F32 => 4,
            IrType::F64 => 8,
            IrType::Vector(_, _) => 0,
        }
    }
}

impl IrType {
    /// Number of value bits an operation of this type works on.
    pub open spec fn spec_bits(self) -> nat {
        match self {
            IrType::Bool => 1,
            IrType::I8 | IrType::U8 => 8,
            IrType::I16 | IrType::U16 => 16,
            IrType::I32 | IrType::U32 | IrType::F32 => 32,
            _ => 64,
        }
    }

    /// `2^bits`: results of this type are taken modulo this number.
    pub open spec fn modulus(self) -> int {
        match self {
            IrType::Bool => 2,
            IrType::I8 | IrType::U8 => 0x100,
            IrType::I16 | IrType::U16 => 0x1_0000,
            IrType::I32 | IrType::U32 | IrType::F32 => 0x1_0000_0000,
            _ => 0x1_0000_0000_0000_0000,
        }
    }

    pub open spec fn is_signed(self) -> bool {
        self is I8 || self is I16 || self is I32 || self is I64 || self is I128
    }

    /// `modulus - 1`: the mask of the value bits.
    pub fn mask(self) -> (r: u64)
        ensures
            r as int == self.modulus() - 1,
    {
        match self {
            IrType::Bool => 1,
            IrType::I8 | IrType::U8 => 0xff,
            IrType::I16 | IrType::U16 => 0xffff,
            IrType::I32 | IrType::U32 | IrType::F32 => 0xffff_ffff,
            _ => 0xffff_ffff_ffff_ffff,
        }
    }

    pub fn bits(self) -> (r: u32)
        ensures
            r == self.spec_bits(),
    {
        match self {
            IrType::Bool => 1,
            IrType::I8 | IrType::U8 => 8,
            IrType::I16 | IrType::U16 => 16,
            IrType::I32 | IrType::U32 | IrType::F32 => 32,
            _ => 64,
        }
    }

    pub fn signed(self) -> (r: bool)
        ensures
            r == self.is_signed(),
    {
        matches!(self, IrType::I8 | IrType::I16 | IrType::I32 | IrType::I64 | IrType::I128)
    }
}

/// Values that carry an IR type.
pub trait TypeOf {
    fn ty(&self) -> IrType;
}

/// A leaf or nested expression that an IR node operates on.
#[derive(Debug, PartialEq, Eq)]
pub enum Operand {
    /// A general-purpose register read at the given width.
    Gpr(IrType, AArch64RegisterId),
    /// The low bits of a SIMD and floating-point register.
    Fpr(IrType, AArch64RegisterId),
    Immediate(IrType, u64),
    /// The address of the current instruction.
    Ip,
    /// The NZCV flag word.
    Flag,
    Ir(Box<Ir>),
    /// A nested node evaluated for its effect.
    VoidIr(Box<Ir>),
}

/// An IR expression node.
#[derive(Debug, PartialEq, Eq)]
pub enum Ir {
    Add(IrType, Operand, Operand),
    Sub(IrType, Operand, Operand),
    Mul(IrType, Operand, Operand),
    Div(IrType, Operand, Operand),
    /// Addition that also sets the flags from the operands.
    Addc(IrType, Operand, Operand),
    /// Subtraction that also sets the flags from the operands.
    Subc(IrType, Operand, Operand),
    And(IrType, Operand, Operand),
    Or(IrType, Operand, Operand),
    Xor(IrType, Operand, Operand),
    Not(IrType, Operand),
    LShl(IrType, Operand, Operand),
    LShr(IrType, Operand, Operand),
    AShr(IrType, Operand, Operand),
    Rotr(IrType, Operand, Operand),
    Load(IrType, Operand),
    ZextCast(IrType, Operand),
    SextCast(IrType, Operand),
    BitCast(IrType, Operand),
    Value(Operand),
    Nop,
    If(IrType, Operand, Operand, Operand),
    CmpEq(Operand, Operand),
    CmpNe(Operand, Operand),
    CmpGt(Operand, Operand),
    CmpLt(Operand, Operand),
}

/// One step of a basic block: where the value of an expression goes.
#[derive(Debug, PartialEq, Eq)]
pub enum Stmt {
    /// Writes a general-purpose register at the width of the type.
    SetGpr(IrType, AArch64RegisterId, Ir),
    /// Writes the low bits of a SIMD and floating-point register.
    SetFpr(IrType, AArch64RegisterId, Ir),
    SetIp(Ir),
    SetFlag(Ir),
    /// Stores the value of the second expression at the address the first gives.
    Store(IrType, Ir, Ir),
    /// Evaluates an expression for its effect on the flags.
    Eval(Ir),
    /// A supervisor call with its immediate.
    Svc(u16),
    /// An instruction the lifter does not cover; running it fails.
    Trap(u32),
}

/// IR statements for a run of instructions, in program order.
pub struct BasicBlock {
    pub stmts: Vec<Stmt>,
}

impl BasicBlock {
    pub fn new() -> (r: Self)
        ensures
            r.stmts@.len() == 0,
    {
        BasicBlock { stmts: Vec::new() }
    }

    pub fn push(&mut self, s: Stmt)
        ensures
            final(self).stmts@ == old(self).stmts@.push(s),
    {
        self.stmts.push(s);
    }
}

impl Operand {
    /// The type of the value this operand yields.
    pub open spec fn spec_ty(self) -> IrType
        decreases self,
    {
        match self {
            Operand::Gpr(t, _) => t,
            Operand::Fpr(t, _) => t,
            Operand::Immediate(t, _) => t,
            Operand::Ip => IrType::U64,
            Operand::Flag => IrType::U64,
            Operand::Ir(b) => b.spec_ty(),
            Operand::VoidIr(_) => IrType::Void,
        }
    }
}

impl Ir {
    pub open spec fn spec_ty(self) -> IrType
        decreases self,
    {
        match self {
            Ir::Add(t, _, _) | Ir::Sub(t, _, _) | Ir::Mul(t, _, _) | Ir::Div(t, _, _) => t,
            Ir::Addc(t, _, _) | Ir::Subc(t, _, _) => t,
            Ir::And(t, _, _) | Ir::Or(t, _, _) | Ir::Xor(t, _, _) | Ir::Not(t, _) => t,
            Ir::LShl(t, _, _) | Ir::LShr(t, _, _) | Ir::AShr(t, _, _) | Ir::Rotr(t, _, _) => t,
            Ir::Load(t, _) | Ir::ZextCast(t, _) | Ir::SextCast(t, _) | Ir::BitCast(t, _) => t,
            Ir::Value(op) => op.spec_ty(),
            Ir::Nop => IrType::Void,
            Ir::If(t, _, _, _) => t,
            Ir::CmpEq(_, _) | Ir::CmpNe(_, _) | Ir::CmpGt(_, _) | Ir::CmpLt(_, _) => IrType::Bool,
        }
    }
}

impl TypeOf for Operand {
    fn ty(&self) -> IrType {
        operand_type(self)
    }
}

impl TypeOf for Ir {
    fn ty(&self) -> IrType {
        ir_type(self)
    }
}

pub fn operand_type(op: &Operand) -> (r: IrType)
    ensures
        r == op.spec_ty(),
    decreases op,
{
    match op {
        Operand::Gpr(t, _) => *t,
        Operand::Fpr(t, _) => *t,
        Operand::Immediate(t, _) => *t,
        Operand::Ip => IrType::U64,
        Operand::Flag => IrType::U64,
        Operand::Ir(b) => ir_type(b),
        Operand::VoidIr(_) => IrType::Void,
    }
}

pub fn ir_type(ir: &Ir) -> (r: IrType)
    ensures
        r == ir.spec_ty(),
    decreases ir,
{
    match ir {
        Ir::Add(t, _, _) | Ir::Sub(t, _, _) | Ir::Mul(t, _, _) | Ir::Div(t, _, _) => *t,
        Ir::Addc(t, _, _) | Ir::Subc(t, _, _) => *t,
        Ir::And(t, _, _) | Ir::Or(t, _, _) | Ir::Xor(t, _, _) | Ir::Not(t, _) => *t,
        Ir::LShl(t, _, _) | Ir::LShr(t, _, _) | Ir::AShr(t, _, _) | Ir::Rotr(t, _, _) => *t,
        Ir::Load(t, _) | Ir::ZextCast(t, _) | Ir::SextCast(t, _) | Ir::BitCast(t, _) => *t,
        Ir::Value(op) => operand_type(op),
        Ir::Nop => IrType::Void,
        Ir::If(t, _, _, _) => *t,
        Ir::CmpEq(_, _) | Ir::CmpNe(_, _) | Ir::CmpGt(_, _) | Ir::CmpLt(_, _) => IrType::Bool,
    }
}

} // verus!
