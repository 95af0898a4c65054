use vstd::prelude::*;

verus! {

/// An architectural register named by an instruction operand.
///
/// Register number 31 means the stack pointer or the zero register
/// depending on the operand; the decoder resolves it to `Sp` or `Xzr`.
#[derive(Debug, Clone, Copy, PartialEq, Eq, Structural)]
pub enum AArch64RegisterId {
    /// General-purpose register `X0` to `X30`.
    X(u8),
    Sp,
    Xzr,
    /// SIMD and floating-point register `V0` to `V31`.
    V(u8),
}

impl AArch64RegisterId {
    /// The 5-bit register number this identifier is encoded as.
    pub open spec fn spec_index(self) -> u32 {
        match self {
            AArch64RegisterId::X(n) => n as u32,
            AArch64RegisterId::Sp => 31,
            AArch64RegisterId::Xzr => 31,
            AArch64RegisterId::V(n) => n as u32,
        }
    }

    pub open spec fn spec_gpr_or_zr(n: u32) -> Self {
        if n == 31 { AArch64RegisterId::Xzr } else { AArch64RegisterId::X(n as u8) }
    }

    pub open spec fn spec_gpr_or_sp(n: u32) -> Self {
        if n == 31 { AArch64RegisterId::Sp } else { AArch64RegisterId::X(n as u8) }
    }

    pub open spec fn spec_fpr(n: u32) -> Self {
        AArch64RegisterId::V(n as u8)
    }

    pub fn index(&self) -> (r: u32)
        ensures
            r == self.spec_index(),
    {
        match self {
            AArch64RegisterId::X(n) => *n as u32,
            AArch64RegisterId::Sp => 31,
            AArch64RegisterId::Xzr => 31,
            AArch64RegisterId::V(n) => *n as u32,
        }
    }

    /// Register number `n` where 31 names the zero register.
    pub fn gpr_or_zr(n: u32) -> (r: Self)
        ensures
            r == Self::spec_gpr_or_zr(n),
    {
        if n == 31 { AArch64RegisterId::Xzr } else { AArch64RegisterId::X(n as u8) }
    }

    /// Register number `n` where 31 names the stack pointer.
    pub fn gpr_or_sp(n: u32) -> (r: Self)
        ensures
            r == Self::spec_gpr_or_sp(n),
    {
        if n == 31 { AArch64RegisterId::Sp } else { AArch64RegisterId::X(n as u8) }
    }

    /// SIMD and floating-point register number `n`.
    pub fn fpr(n: u32) -> (r: Self)
        ensures
            r == Self::spec_fpr(n),
    {
        AArch64RegisterId::V(n as u8)
    }
}

/// Operand fields of the pc rel addressing encoding group.
#[derive(Debug, Clone, Copy, PartialEq, Eq, Structural)]
pub struct PcRelAddressing {
    pub immlo: u8,
    pub immhi: u32,
    pub rd: AArch64RegisterId,
}

/// Operand fields of the add sub immediate encoding group.
#[derive(Debug, Clone, Copy, PartialEq, Eq, Structural)]
pub struct ShImm12RnRd {
    pub sh: u8,
    pub imm12: u16,
    pub rn: AArch64RegisterId,
    pub rd: AArch64RegisterId,
}

/// Operand fields of the add sub imm with tags encoding group.
#[derive(Debug, Clone, Copy, PartialEq, Eq, Structural)]
pub struct AddSubImmWithTags {
    pub uimm6: u8,
    pub op3: u8,
    pub uimm4: u8,
    pub rn: AArch64RegisterId,
    pub rd: AArch64RegisterId,
}

/// Operand fields of the logical imm encoding group.
#[derive(Debug, Clone, Copy, PartialEq, Eq, Structural)]
pub struct LogicalImm {
    pub n: u8,
    pub immr: u8,
    pub imms: u8,
    pub rn: AArch64RegisterId,
    pub rd: AArch64RegisterId,
}

/// Operand fields of the move wide imm encoding group.
#[derive(Debug, Clone, Copy, PartialEq, Eq, Structural)]
pub struct HwImm16Rd {
    pub hw: u8,
    pub imm16: u16,
    pub rd: AArch64RegisterId,
}

/// Operand fields of the bitfield encoding group.
#[derive(Debug, Clone, Copy, PartialEq, Eq, Structural)]
pub struct Bitfield {
    pub n: u8,
    pub immr: u8,
    pub imms: u8,
    pub rn: AArch64RegisterId,
    pub rd: AArch64RegisterId,
}

/// Operand fields of the extract encoding group.
#[derive(Debug, Clone, Copy, PartialEq, Eq, Structural)]
pub struct ExtractImm {
    pub rm: AArch64RegisterId,
    pub imms: u8,
    pub rn: AArch64RegisterId,
    pub rd: AArch64RegisterId,
}

/// Operand fields of the cond branch imm encoding group.
#[derive(Debug, Clone, Copy, PartialEq, Eq, Structural)]
pub struct Imm19Cond {
    pub imm19: u32,
    pub cond: u8,
}

/// Operand fields of the exception gen encoding group.
#[derive(Debug, Clone, Copy, PartialEq, Eq, Structural)]
pub struct ExceptionGen {
    pub imm16: u16,
}

/// Operand fields of the hints encoding group.
#[derive(Debug, Clone, Copy, PartialEq, Eq, Structural)]
pub struct SystemHint {
    pub crm: u8,
    pub op2: u8,
}

/// Operand fields of the uncond branch reg encoding group.
#[derive(Debug, Clone, Copy, PartialEq, Eq, Structural)]
pub struct UncondBranchReg {
    pub rn: AArch64RegisterId,
}

/// Operand fields of the uncond branch imm encoding group.
#[derive(Debug, Clone, Copy, PartialEq, Eq, Structural)]
pub struct Imm26 {
    pub imm26: u32,
}

/// Operand fields of the cmp and branch imm and load reg literal encoding groups.
#[derive(Debug, Clone, Copy, PartialEq, Eq, Structural)]
pub struct Imm19Rt {
    pub imm19: u32,
    pub rt: AArch64RegisterId,
}

/// Operand fields of the test and branch imm encoding group.
#[derive(Debug, Clone, Copy, PartialEq, Eq, Structural)]
pub struct B5B40Imm14Rt {
    pub b5: u8,
    pub b40: u8,
    pub imm14: u16,
    pub rt: AArch64RegisterId,
}

/// Operand fields of the load store reg unsigned imm encoding group.
#[derive(Debug, Clone, Copy, PartialEq, Eq, Structural)]
pub struct OpcSizeImm12RnRt {
    pub imm12: u16,
    pub rn: AArch64RegisterId,
    pub rt: AArch64RegisterId,
}

/// Operand fields of the load store reg reg offset encoding group.
#[derive(Debug, Clone, Copy, PartialEq, Eq, Structural)]
pub struct LoadStoreRegRegOffset {
    pub size: u8,
    pub opc: u8,
    pub rm: AArch64RegisterId,
    pub option: u8,
    pub s: u8,
    pub rn: AArch64RegisterId,
    pub rt: AArch64RegisterId,
}

/// Operand fields of the load store reg pair offset encoding group.
#[derive(Debug, Clone, Copy, PartialEq, Eq, Structural)]
pub struct LoadStoreRegPair {
    pub idx: u8,
    pub imm7: u8,
    pub rt2: AArch64RegisterId,
    pub rn: AArch64RegisterId,
    pub rt: AArch64RegisterId,
}

/// Operand fields of the load store reg imm9 encoding group.
#[derive(Debug, Clone, Copy, PartialEq, Eq, Structural)]
pub struct LdStRegUnscaledImm {
    pub imm9: u16,
    pub idx: u8,
    pub rn: AArch64RegisterId,
    pub rt: AArch64RegisterId,
}

/// Operand fields of the data proc 2src encoding group.
#[derive(Debug, Clone, Copy, PartialEq, Eq, Structural)]
pub struct DataProc2Src {
    pub rm: AArch64RegisterId,
    pub rn: AArch64RegisterId,
    pub rd: AArch64RegisterId,
}

/// Operand fields of the logical shifted register and add sub shifted reg encoding groups.
#[derive(Debug, Clone, Copy, PartialEq, Eq, Structural)]
pub struct ShiftRmImm6RnRd {
    pub shift: u8,
    pub rm: AArch64RegisterId,
    pub imm6: u8,
    pub rn: AArch64RegisterId,
    pub rd: AArch64RegisterId,
}

/// Operand fields of the add sub ext reg encoding group.
#[derive(Debug, Clone, Copy, PartialEq, Eq, Structural)]
pub struct AddSubtractExtReg {
    pub rm: AArch64RegisterId,
    pub option: u8,
    pub imm3: u8,
    pub rn: AArch64RegisterId,
    pub rd: AArch64RegisterId,
}

/// Operand fields of the cond compare reg encoding group.
#[derive(Debug, Clone, Copy, PartialEq, Eq, Structural)]
pub struct CondCmpReg {
    pub rm: AArch64RegisterId,
    pub cond: u8,
    pub rn: AArch64RegisterId,
    pub nzcv: u8,
}

/// Operand fields of the cond compare imm encoding group.
#[derive(Debug, Clone, Copy, PartialEq, Eq, Structural)]
pub struct CondCmpImm {
    pub imm5: u8,
    pub cond: u8,
    pub rn: AArch64RegisterId,
    pub nzcv: u8,
}

/// Operand fields of the cond sel encoding group.
#[derive(Debug, Clone, Copy, PartialEq, Eq, Structural)]
pub struct RmCondRnRd {
    pub rm: AArch64RegisterId,
    pub cond: u8,
    pub rn: AArch64RegisterId,
    pub rd: AArch64RegisterId,
}

/// Operand fields of the data proccessing 3src encoding group.
#[derive(Debug, Clone, Copy, PartialEq, Eq, Structural)]
pub struct DataProc3Src {
    pub rm: AArch64RegisterId,
    pub ra: AArch64RegisterId,
    pub rn: AArch64RegisterId,
    pub rd: AArch64RegisterId,
}

/// Operand fields of the fp data processing 3src encoding group.
#[derive(Debug, Clone, Copy, PartialEq, Eq, Structural)]
pub struct RmRaRnRd {
    pub rm: AArch64RegisterId,
    pub ra: AArch64RegisterId,
    pub rn: AArch64RegisterId,
    pub rd: AArch64RegisterId,
}

/// Operand fields of the barriers encoding group.
#[derive(Debug, Clone, Copy, PartialEq, Eq, Structural)]
pub struct Barriers {
    pub crm: u8,
}

/// Operand fields of the load store exclusive and load store ordered encoding groups.
#[derive(Debug, Clone, Copy, PartialEq, Eq, Structural)]
pub struct RsRt2RnRt {
    pub rs: AArch64RegisterId,
    pub rt2: u8,
    pub rn: AArch64RegisterId,
    pub rt: AArch64RegisterId,
}

/// Operand fields of the add sub with carry encoding group.
#[derive(Debug, Clone, Copy, PartialEq, Eq, Structural)]
pub struct RmRnRd {
    pub rm: AArch64RegisterId,
    pub rn: AArch64RegisterId,
    pub rd: AArch64RegisterId,
}

/// Operand fields of the data proc 1src encoding group.
#[derive(Debug, Clone, Copy, PartialEq, Eq, Structural)]
pub struct RnRd {
    pub rn: AArch64RegisterId,
    pub rd: AArch64RegisterId,
}

/// Operand fields of the compare and swap encoding group.
#[derive(Debug, Clone, Copy, PartialEq, Eq, Structural)]
pub struct RsRnRt {
    pub rs: AArch64RegisterId,
    pub rn: AArch64RegisterId,
    pub rt: AArch64RegisterId,
}

/// Operand fields of the compare and swap pair encoding group.
#[derive(Debug, Clone, Copy, PartialEq, Eq, Structural)]
pub struct CompareAndSwapPair {
    pub rs: u8,
    pub rn: AArch64RegisterId,
    pub rt: u8,
}

/// Operand fields of the load store no alloc pair encoding group.
#[derive(Debug, Clone, Copy, PartialEq, Eq, Structural)]
pub struct LdStNoAllocPairOffset {
    pub imm7: u8,
    pub rt2: AArch64RegisterId,
    pub rn: AArch64RegisterId,
    pub rt: AArch64RegisterId,
}

/// Operand fields of the system register move encoding group.
#[derive(Debug, Clone, Copy, PartialEq, Eq, Structural)]
pub struct SysRegMov {
    pub o0: u8,
    pub op1: u8,
    pub crn: u8,
    pub crm: u8,
    pub op2: u8,
    pub rt: AArch64RegisterId,
}

/// Operand fields of the fp compare encoding group.
#[derive(Debug, Clone, Copy, PartialEq, Eq, Structural)]
pub struct FloatingPointCompare {
    pub ptype: u8,
    pub rm: AArch64RegisterId,
    pub rn: AArch64RegisterId,
    pub opcode2: u8,
}

/// Operand fields of the fp immediate encoding group.
#[derive(Debug, Clone, Copy, PartialEq, Eq, Structural)]
pub struct FloatingPointImmediate {
    pub imm8: u8,
    pub rd: AArch64RegisterId,
}

/// A decoded AArch64 instruction: one variant per recognized encoding.
#[derive(Debug, Clone, Copy, PartialEq, Eq, Structural)]
pub enum AArch64Inst {
    Adr(PcRelAddressing),
    Adrp(PcRelAddressing),

    AddImm32(ShImm12RnRd),
    AddsImm32(ShImm12RnRd),
    SubImm32(ShImm12RnRd),
    SubsImm32(ShImm12RnRd),
    AddImm64(ShImm12RnRd),
    AddsImm64(ShImm12RnRd),
    SubImm64(ShImm12RnRd),
    SubsImm64(ShImm12RnRd),

    Addg(AddSubImmWithTags),
    Subg(AddSubImmWithTags),

    AndImm32(LogicalImm),
    OrrImm32(LogicalImm),
    EorImm32(LogicalImm),
    AndsImm32(LogicalImm),
    AndImm64(LogicalImm),
    OrrImm64(LogicalImm),
    EorImm64(LogicalImm),
    AndsImm64(LogicalImm),

    MovnVar32(HwImm16Rd),
    MovzVar32(HwImm16Rd),
    MovkVar32(HwImm16Rd),
    MovnVar64(HwImm16Rd),
    MovzVar64(HwImm16Rd),
    MovkVar64(HwImm16Rd),

    Sbfm32(Bitfield),
    Bfm32(Bitfield),
    Ubfm32(Bitfield),
    Sbfm64(Bitfield),
    Bfm64(Bitfield),
    Ubfm64(Bitfield),

    Extr32(ExtractImm),
    Extr64(ExtractImm),

    BCond(Imm19Cond),
    BcCond(Imm19Cond),

    Svc(ExceptionGen),
    Hvc(ExceptionGen),
    Smc(ExceptionGen),
    Brk(ExceptionGen),
    Hlt(ExceptionGen),
    TCancle(ExceptionGen),
    DcpS1(ExceptionGen),
    DcpS2(ExceptionGen),
    DcpS3(ExceptionGen),

    Nop,
    Yield,
    Wfe,
    Wfi,
    Sev,
    Sevl,
    Xpaclri,
    Pacia1716Var,
    Pacib1716Var,
    Autia1716Var,
    Autib1716Var,
    PaciazVar,
    PaciaspVar,
    PacibzVar,
    PacibspVar,
    AutiazVar,
    AutiaspVar,
    AutibzVar,
    AutibspVar,
    Hint(SystemHint),

    Br(UncondBranchReg),
    Blr(UncondBranchReg),
    Ret(UncondBranchReg),
    ERet(UncondBranchReg),
    Drps(UncondBranchReg),

    BImm(Imm26),
    BlImm(Imm26),

    Cbz32(Imm19Rt),
    Cbnz32(Imm19Rt),
    Cbz64(Imm19Rt),
    Cbnz64(Imm19Rt),

    Tbz(B5B40Imm14Rt),
    Tbnz(B5B40Imm14Rt),

    StrbImm(OpcSizeImm12RnRt),
    LdrbImm(OpcSizeImm12RnRt),
    LdrsbImm64(OpcSizeImm12RnRt),
    LdrsbImm32(OpcSizeImm12RnRt),
    StrImmSimdFP8(OpcSizeImm12RnRt),
    LdrImmSimdFP8(OpcSizeImm12RnRt),
    StrImmSimdFP128(OpcSizeImm12RnRt),
    LdrImmSimdFP128(OpcSizeImm12RnRt),
    StrhImm(OpcSizeImm12RnRt),
    LdrhImm(OpcSizeImm12RnRt),
    LdrshImm64(OpcSizeImm12RnRt),
    LdrshImm32(OpcSizeImm12RnRt),
    StrImmSimdFP16(OpcSizeImm12RnRt),
    LdrImmSimdFP16(OpcSizeImm12RnRt),
    StrImm32(OpcSizeImm12RnRt),
    LdrImm32(OpcSizeImm12RnRt),
    LdrswImm(OpcSizeImm12RnRt),
    StrImmSimdFP32(OpcSizeImm12RnRt),
    LdrImmSimdFP32(OpcSizeImm12RnRt),
    StrImm64(OpcSizeImm12RnRt),
    LdrImm64(OpcSizeImm12RnRt),
    PrfmImm(OpcSizeImm12RnRt),
    StrImmSimdFP64(OpcSizeImm12RnRt),
    LdrImmSimdFP64(OpcSizeImm12RnRt),

    StrbRegExtReg(LoadStoreRegRegOffset),
    StrbRegShiftedReg(LoadStoreRegRegOffset),
    LdrbRegExtReg(LoadStoreRegRegOffset),
    LdrbRegShiftedReg(LoadStoreRegRegOffset),
    LdrsbRegExtReg64(LoadStoreRegRegOffset),
    LdrsbRegShiftedReg64(LoadStoreRegRegOffset),
    LdrsbRegExtReg32(LoadStoreRegRegOffset),
    LdrsbRegShiftedReg32(LoadStoreRegRegOffset),
    StrRegSimdFP(LoadStoreRegRegOffset),
    LdrRegSimdFP(LoadStoreRegRegOffset),
    StrhReg(LoadStoreRegRegOffset),
    LdrhReg(LoadStoreRegRegOffset),
    LdrshReg64(LoadStoreRegRegOffset),
    LdrshReg32(LoadStoreRegRegOffset),
    StrReg32(LoadStoreRegRegOffset),
    LdrReg32(LoadStoreRegRegOffset),
    LdrswReg(LoadStoreRegRegOffset),
    StrReg64(LoadStoreRegRegOffset),
    LdrReg64(LoadStoreRegRegOffset),
    PrfmReg(LoadStoreRegRegOffset),

    StpVar32(LoadStoreRegPair),
    LdpVar32(LoadStoreRegPair),
    StpSimdFPVar32(LoadStoreRegPair),
    LdpSimdFPVar32(LoadStoreRegPair),
    Stgp(LoadStoreRegPair),
    Ldpsw(LoadStoreRegPair),
    StpSimdFPVar64(LoadStoreRegPair),
    LdpSimdFPVar64(LoadStoreRegPair),
    StpVar64(LoadStoreRegPair),
    LdpVar64(LoadStoreRegPair),
    StpSimdFpVar128(LoadStoreRegPair),
    LdpSimdFpVar128(LoadStoreRegPair),

    Sturb(LdStRegUnscaledImm),
    StrbIdx(LdStRegUnscaledImm),
    Ldurb(LdStRegUnscaledImm),
    LdrbIdx(LdStRegUnscaledImm),
    Ldursb64(LdStRegUnscaledImm),
    LdrsbIdx64(LdStRegUnscaledImm),
    Ldursb32(LdStRegUnscaledImm),
    LdrsbIdx32(LdStRegUnscaledImm),
    SturSimdFP8(LdStRegUnscaledImm),
    StrSimdFPIdx8(LdStRegUnscaledImm),
    LdurSimdFP8(LdStRegUnscaledImm),
    LdrSimdFPIdx8(LdStRegUnscaledImm),
    SturSimdFP128(LdStRegUnscaledImm),
    StrSimdFPIdx128(LdStRegUnscaledImm),
    LdurSimdFP128(LdStRegUnscaledImm),
    LdrSimdFPIdx128(LdStRegUnscaledImm),
    Sturh(LdStRegUnscaledImm),
    StrhIdx(LdStRegUnscaledImm),
    Ldurh(LdStRegUnscaledImm),
    LdrhIdx(LdStRegUnscaledImm),
    Ldursh64(LdStRegUnscaledImm),
    LdrshIdx64(LdStRegUnscaledImm),
    Ldursh32(LdStRegUnscaledImm),
    LdrshIdx32(LdStRegUnscaledImm),
    SturSimdFP16(LdStRegUnscaledImm),
    StrSimdFPIdx16(LdStRegUnscaledImm),
    LdurSimdFP16(LdStRegUnscaledImm),
    LdrSimdFPIdx16(LdStRegUnscaledImm),
    Stur32(LdStRegUnscaledImm),
    StrIdx32(LdStRegUnscaledImm),
    Ldur32(LdStRegUnscaledImm),
    LdrIdx32(LdStRegUnscaledImm),
    Ldursw(LdStRegUnscaledImm),
    LdrswIdx(LdStRegUnscaledImm),
    SturSimdFP32(LdStRegUnscaledImm),
    StrSimdFPIdx32(LdStRegUnscaledImm),
    LdurSimdFP32(LdStRegUnscaledImm),
    LdrSimdFPIdx32(LdStRegUnscaledImm),
    Stur64(LdStRegUnscaledImm),
    StrIdx64(LdStRegUnscaledImm),
    Ldur64(LdStRegUnscaledImm),
    LdrIdx64(LdStRegUnscaledImm),
    Prefum(LdStRegUnscaledImm),
    SturSimdFP64(LdStRegUnscaledImm),
    StrSimdFPIdx64(LdStRegUnscaledImm),
    LdurSimdFP64(LdStRegUnscaledImm),
    LdrSimdFPIdx64(LdStRegUnscaledImm),

    UdivVar32(DataProc2Src),
    SdivVar32(DataProc2Src),
    LslvVar32(DataProc2Src),
    LsrvVar32(DataProc2Src),
    AsrvVar32(DataProc2Src),
    RorvVar32(DataProc2Src),
    UdivVar64(DataProc2Src),
    SdivVar64(DataProc2Src),
    LslvVar64(DataProc2Src),
    LsrvVar64(DataProc2Src),
    AsrvVar64(DataProc2Src),
    RorvVar64(DataProc2Src),

    AndShiftedReg32(ShiftRmImm6RnRd),
    BicShiftedReg32(ShiftRmImm6RnRd),
    OrrShiftedReg32(ShiftRmImm6RnRd),
    OrnShiftedReg32(ShiftRmImm6RnRd),
    EorShiftedReg32(ShiftRmImm6RnRd),
    EonShiftedReg32(ShiftRmImm6RnRd),
    AndsShiftedReg32(ShiftRmImm6RnRd),
    BicsShiftedReg32(ShiftRmImm6RnRd),
    AndShiftedReg64(ShiftRmImm6RnRd),
    BicShiftedReg64(ShiftRmImm6RnRd),
    OrrShiftedReg64(ShiftRmImm6RnRd),
    OrnShiftedReg64(ShiftRmImm6RnRd),
    EorShiftedReg64(ShiftRmImm6RnRd),
    EonShiftedReg64(ShiftRmImm6RnRd),
    AndsShiftedReg64(ShiftRmImm6RnRd),
    BicsShiftedReg64(ShiftRmImm6RnRd),

    AddShiftedReg32(ShiftRmImm6RnRd),
    AddsShiftedReg32(ShiftRmImm6RnRd),
    SubShiftedReg32(ShiftRmImm6RnRd),
    SubsShiftedReg32(ShiftRmImm6RnRd),
    AddShiftedReg64(ShiftRmImm6RnRd),
    AddsShiftedReg64(ShiftRmImm6RnRd),
    SubShiftedReg64(ShiftRmImm6RnRd),
    SubsShiftedReg64(ShiftRmImm6RnRd),

    AddExtReg32(AddSubtractExtReg),
    AddsExtReg32(AddSubtractExtReg),
    SubExtReg32(AddSubtractExtReg),
    SubsExtReg32(AddSubtractExtReg),
    AddExtReg64(AddSubtractExtReg),
    AddsExtReg64(AddSubtractExtReg),
    SubExtReg64(AddSubtractExtReg),
    SubsExtReg64(AddSubtractExtReg),

    CcmnRegVar32(CondCmpReg),
    CcmpRegVar32(CondCmpReg),
    CcmnRegVar64(CondCmpReg),
    CcmpRegVar64(CondCmpReg),

    CcmnImmVar32(CondCmpImm),
    CcmpImmVar32(CondCmpImm),
    CcmnImmVar64(CondCmpImm),
    CcmpImmVar64(CondCmpImm),

    Csel32(RmCondRnRd),
    Csinc32(RmCondRnRd),
    Csinv32(RmCondRnRd),
    Csneg32(RmCondRnRd),
    Csel64(RmCondRnRd),
    Csinc64(RmCondRnRd),
    Csinv64(RmCondRnRd),
    Csneg64(RmCondRnRd),

    Madd32(DataProc3Src),
    Msub32(DataProc3Src),
    Madd64(DataProc3Src),
    Msub64(DataProc3Src),
    Smaddl(DataProc3Src),
    Smsubl(DataProc3Src),
    Smulh(DataProc3Src),
    Umaddl(DataProc3Src),
    Umsubl(DataProc3Src),
    Umulh(DataProc3Src),

    FmAddSinglePrecision(RmRaRnRd),
    FmSubSinglePrecision(RmRaRnRd),
    FnmAddSinglePrecision(RmRaRnRd),
    FnmSubSinglePrecision(RmRaRnRd),
    FmAddDoublePrecision(RmRaRnRd),
    FmSubDoublePrecision(RmRaRnRd),
    FnmAddDoublePrecision(RmRaRnRd),
    FnmSubDoublePrecision(RmRaRnRd),
    FmAddHalfPrecision(RmRaRnRd),
    FmSubHalfPrecision(RmRaRnRd),
    FnmAddHalfPrecision(RmRaRnRd),
    FnmSubHalfPrecision(RmRaRnRd),

    Clrex(Barriers),
    DsbEncoding(Barriers),
    Dmb(Barriers),
    Isb(Barriers),

    LdrLitVar32(Imm19Rt),
    LdrLitSimdFPVar32(Imm19Rt),
    LdrLitVar64(Imm19Rt),
    LdrLitSimdFPVar64(Imm19Rt),
    LdrswLit(Imm19Rt),
    LdrLitSimdFPVar128(Imm19Rt),
    PrfmLit(Imm19Rt),

    Stxrb(RsRt2RnRt),
    Ldxrb(RsRt2RnRt),
    Stxrh(RsRt2RnRt),
    Ldxrh(RsRt2RnRt),
    StxrVar32(RsRt2RnRt),
    LdxrVar32(RsRt2RnRt),
    StxrVar64(RsRt2RnRt),
    LdxrVar64(RsRt2RnRt),
    Stlxrb(RsRt2RnRt),
    Ldaxrb(RsRt2RnRt),
    Stlxrh(RsRt2RnRt),
    Ldaxrh(RsRt2RnRt),
    StlxrVar32(RsRt2RnRt),
    LdaxrVar32(RsRt2RnRt),
    StlxrVar64(RsRt2RnRt),
    LdaxrVar64(RsRt2RnRt),

    Stlrb(RsRt2RnRt),
    Ldarb(RsRt2RnRt),
    Stlrh(RsRt2RnRt),
    Ldarh(RsRt2RnRt),
    StlrVar32(RsRt2RnRt),
    LdarVar32(RsRt2RnRt),
    StlrVar64(RsRt2RnRt),
    LdarVar64(RsRt2RnRt),

    AdcVar32(RmRnRd),
    AdcsVar32(RmRnRd),
    SbcVar32(RmRnRd),
    SbcsVar32(RmRnRd),
    AdcVar64(RmRnRd),
    AdcsVar64(RmRnRd),
    SbcVar64(RmRnRd),
    SbcsVar64(RmRnRd),

    RbitVar32(RnRd),
    Rev16Var32(RnRd),
    RevVar32(RnRd),
    ClzVar32(RnRd),
    ClsVar32(RnRd),
    RbitVar64(RnRd),
    Rev16Var64(RnRd),
    Rev32(RnRd),
    RevVar64(RnRd),
    ClzVar64(RnRd),
    ClsVar64(RnRd),

    Casb(RsRnRt),
    Caslb(RsRnRt),
    Casab(RsRnRt),
    Casalb(RsRnRt),
    Cash(RsRnRt),
    Caslh(RsRnRt),
    Casah(RsRnRt),
    Casalh(RsRnRt),
    CasVar32(RsRnRt),
    CaslVar32(RsRnRt),
    CasaVar32(RsRnRt),
    CasalVar32(RsRnRt),
    CasVar64(RsRnRt),
    CaslVar64(RsRnRt),
    CasaVar64(RsRnRt),
    CasalVar64(RsRnRt),

    CaspVar32(CompareAndSwapPair),
    CasplVar32(CompareAndSwapPair),
    CaspaVar32(CompareAndSwapPair),
    CaspalVar32(CompareAndSwapPair),
    CaspVar64(CompareAndSwapPair),
    CasplVar64(CompareAndSwapPair),
    CaspaVar64(CompareAndSwapPair),
    CaspalVar64(CompareAndSwapPair),

    StnpVar32(LdStNoAllocPairOffset),
    LdnpVar32(LdStNoAllocPairOffset),
    StnpSimdFPVar32(LdStNoAllocPairOffset),
    LdnpSimdFPVar32(LdStNoAllocPairOffset),
    StnpSimdFPVar64(LdStNoAllocPairOffset),
    LdnpSimdFPVar64(LdStNoAllocPairOffset),
    StnpVar64(LdStNoAllocPairOffset),
    LdnpVar64(LdStNoAllocPairOffset),
    StnpSimdFPVar128(LdStNoAllocPairOffset),
    LdnpSimdFPVar128(LdStNoAllocPairOffset),

    MsrReg(SysRegMov),
    Mrs(SysRegMov),

    Fcmp(FloatingPointCompare),
    Fcmpe(FloatingPointCompare),

    FmovScalarImmSinglePrecisionVar(FloatingPointImmediate),
    FmovScalarImmDoublePrecisionVar(FloatingPointImmediate),
}

/// Why a code word did not decode.
#[derive(Debug, Clone, Copy, PartialEq, Eq, Structural)]
pub enum DecodeError {
    /// No instruction variant matches the word: it is unallocated, or it
    /// lies in an encoding group that is not broken down into variants.
    UnknownInstruction { word: u32 },
    /// The word lies in the reserved space or uses a reserved field value.
    ReservedEncoding { word: u32 },
}

/// Word of the pc rel addressing encoding group with the given field values.
pub open spec fn enc_pc_rel_addressing(op: u32, immlo: u32, immhi: u32, rd: u32) -> u32 {
    0x10000000u32 | (op << 31u32) | (immlo << 29u32) | (immhi << 5u32) | rd
}

fn encode_pc_rel_addressing(op: u32, immlo: u32, immhi: u32, rd: u32) -> (r: u32)
    ensures
        r == enc_pc_rel_addressing(op, immlo, immhi, rd),
{
    0x10000000u32 | (op << 31u32) | (immlo << 29u32) | (immhi << 5u32) | rd
}

/// Word of the add sub immediate encoding group with the given field values.
pub open spec fn enc_add_sub_immediate(sf_op_s: u32, sh: u32, imm12: u32, rn: u32, rd: u32) -> u32 {
    0x11000000u32 | (sf_op_s << 29u32) | (sh << 22u32) | (imm12 << 10u32) | (rn << 5u32) | rd
}

fn encode_add_sub_immediate(sf_op_s: u32, sh: u32, imm12: u32, rn: u32, rd: u32) -> (r: u32)
    ensures
        r == enc_add_sub_immediate(sf_op_s, sh, imm12, rn, rd),
{
    0x11000000u32 | (sf_op_s << 29u32) | (sh << 22u32) | (imm12 << 10u32) | (rn << 5u32) | rd
}

/// Word of the add sub imm with tags encoding group with the given field values.
pub open spec fn enc_add_sub_imm_with_tags(sf_op_s: u32, o2: u32, uimm6: u32, op3: u32, uimm4: u32, rn: u32, rd: u32) -> u32 {
    0x11800000u32 | (sf_op_s << 29u32) | (o2 << 22u32) | (uimm6 << 16u32) | (op3 << 14u32) | (uimm4 << 10u32) | (rn << 5u32) | rd
}

fn encode_add_sub_imm_with_tags(sf_op_s: u32, o2: u32, uimm6: u32, op3: u32, uimm4: u32, rn: u32, rd: u32) -> (r: u32)
    ensures
        r == enc_add_sub_imm_with_tags(sf_op_s, o2, uimm6, op3, uimm4, rn, rd),
{
    0x11800000u32 | (sf_op_s << 29u32) | (o2 << 22u32) | (uimm6 << 16u32) | (op3 << 14u32) | (uimm4 << 10u32) | (rn << 5u32) | rd
}

/// Word of the logical imm encoding group with the given field values.
pub open spec fn enc_logical_imm(sf: u32, opc: u32, n: u32, immr: u32, imms: u32, rn: u32, rd: u32) -> u32 {
    0x12000000u32 | (sf << 31u32) | (opc << 29u32) | (n << 22u32) | (immr << 16u32) | (imms << 10u32) | (rn << 5u32) | rd
}

fn encode_logical_imm(sf: u32, opc: u32, n: u32, immr: u32, imms: u32, rn: u32, rd: u32) -> (r: u32)
    ensures
        r == enc_logical_imm(sf, opc, n, immr, imms, rn, rd),
{
    0x12000000u32 | (sf << 31u32) | (opc << 29u32) | (n << 22u32) | (immr << 16u32) | (imms << 10u32) | (rn << 5u32) | rd
}

/// Word of the move wide imm encoding group with the given field values.
pub open spec fn enc_move_wide_imm(sf_opc: u32, hw: u32, imm16: u32, rd: u32) -> u32 {
    0x12800000u32 | (sf_opc << 29u32) | (hw << 21u32) | (imm16 << 5u32) | rd
}

fn encode_move_wide_imm(sf_opc: u32, hw: u32, imm16: u32, rd: u32) -> (r: u32)
    ensures
        r == enc_move_wide_imm(sf_opc, hw, imm16, rd),
{
    0x12800000u32 | (sf_opc << 29u32) | (hw << 21u32) | (imm16 << 5u32) | rd
}

/// Word of the bitfield encoding group with the given field values.
pub open spec fn enc_bitfield(sf: u32, opc: u32, n: u32, immr: u32, imms: u32, rn: u32, rd: u32) -> u32 {
    0x13000000u32 | (sf << 31u32) | (opc << 29u32) | (n << 22u32) | (immr << 16u32) | (imms << 10u32) | (rn << 5u32) | rd
}

fn encode_bitfield(sf: u32, opc: u32, n: u32, immr: u32, imms: u32, rn: u32, rd: u32) -> (r: u32)
    ensures
        r == enc_bitfield(sf, opc, n, immr, imms, rn, rd),
{
    0x13000000u32 | (sf << 31u32) | (opc << 29u32) | (n << 22u32) | (immr << 16u32) | (imms << 10u32) | (rn << 5u32) | rd
}

/// Word of the extract encoding group with the given field values.
pub open spec fn enc_extract(sf_op21: u32, n: u32, o0: u32, rm: u32, imms: u32, rn: u32, rd: u32) -> u32 {
    0x13800000u32 | (sf_op21 << 29u32) | (n << 22u32) | (o0 << 21u32) | (rm << 16u32) | (imms << 10u32) | (rn << 5u32) | rd
}

fn encode_extract(sf_op21: u32, n: u32, o0: u32, rm: u32, imms: u32, rn: u32, rd: u32) -> (r: u32)
    ensures
        r == enc_extract(sf_op21, n, o0, rm, imms, rn, rd),
{
    0x13800000u32 | (sf_op21 << 29u32) | (n << 22u32) | (o0 << 21u32) | (rm << 16u32) | (imms << 10u32) | (rn << 5u32) | rd
}

/// Word of the cond branch imm encoding group with the given field values.
pub open spec fn enc_cond_branch_imm(o1: u32, imm19: u32, o0: u32, cond: u32) -> u32 {
    0x54000000u32 | (o1 << 24u32) | (imm19 << 5u32) | (o0 << 4u32) | cond
}

fn encode_cond_branch_imm(o1: u32, imm19: u32, o0: u32, cond: u32) -> (r: u32)
    ensures
        r == enc_cond_branch_imm(o1, imm19, o0, cond),
{
    0x54000000u32 | (o1 << 24u32) | (imm19 << 5u32) | (o0 << 4u32) | cond
}

/// Word of the exception gen encoding group with the given field values.
pub open spec fn enc_exception_gen(opc: u32, imm16: u32, op2: u32, ll: u32) -> u32 {
    0xd4000000u32 | (opc << 21u32) | (imm16 << 5u32) | (op2 << 2u32) | ll
}

fn encode_exception_gen(opc: u32, imm16: u32, op2: u32, ll: u32) -> (r: u32)
    ensures
        r == enc_exception_gen(opc, imm16, op2, ll),
{
    0xd4000000u32 | (opc << 21u32) | (imm16 << 5u32) | (op2 << 2u32) | ll
}

/// Word of the hints encoding group with the given field values.
pub open spec fn enc_hints(crm: u32, op2: u32) -> u32 {
    0xd503201fu32 | (crm << 8u32) | (op2 << 5u32)
}

fn encode_hints(crm: u32, op2: u32) -> (r: u32)
    ensures
        r == enc_hints(crm, op2),
{
    0xd503201fu32 | (crm << 8u32) | (op2 << 5u32)
}

/// Word of the uncond branch reg encoding group with the given field values.
pub open spec fn enc_uncond_branch_reg(opc: u32, op2: u32, op3: u32, rn: u32, op4: u32) -> u32 {
    0xd6000000u32 | (opc << 21u32) | (op2 << 16u32) | (op3 << 10u32) | (rn << 5u32) | op4
}

fn encode_uncond_branch_reg(opc: u32, op2: u32, op3: u32, rn: u32, op4: u32) -> (r: u32)
    ensures
        r == enc_uncond_branch_reg(opc, op2, op3, rn, op4),
{
    0xd6000000u32 | (opc << 21u32) | (op2 << 16u32) | (op3 << 10u32) | (rn << 5u32) | op4
}

/// Word of the uncond branch imm encoding group with the given field values.
pub open spec fn enc_uncond_branch_imm(op: u32, imm26: u32) -> u32 {
    0x14000000u32 | (op << 31u32) | imm26
}

fn encode_uncond_branch_imm(op: u32, imm26: u32) -> (r: u32)
    ensures
        r == enc_uncond_branch_imm(op, imm26),
{
    0x14000000u32 | (op << 31u32) | imm26
}

/// Word of the cmp and branch imm encoding group with the given field values.
pub open spec fn enc_cmp_and_branch_imm(sf: u32, op: u32, imm19: u32, rt: u32) -> u32 {
    0x34000000u32 | (sf << 31u32) | (op << 24u32) | (imm19 << 5u32) | rt
}

fn encode_cmp_and_branch_imm(sf: u32, op: u32, imm19: u32, rt: u32) -> (r: u32)
    ensures
        r == enc_cmp_and_branch_imm(sf, op, imm19, rt),
{
    0x34000000u32 | (sf << 31u32) | (op << 24u32) | (imm19 << 5u32) | rt
}

/// Word of the test and branch imm encoding group with the given field values.
pub open spec fn enc_test_and_branch_imm(b5: u32, op: u32, b40: u32, imm14: u32, rt: u32) -> u32 {
    0x36000000u32 | (b5 << 31u32) | (op << 24u32) | (b40 << 19u32) | (imm14 << 5u32) | rt
}

fn encode_test_and_branch_imm(b5: u32, op: u32, b40: u32, imm14: u32, rt: u32) -> (r: u32)
    ensures
        r == enc_test_and_branch_imm(b5, op, b40, imm14, rt),
{
    0x36000000u32 | (b5 << 31u32) | (op << 24u32) | (b40 << 19u32) | (imm14 << 5u32) | rt
}

/// Word of the load store reg unsigned imm encoding group with the given field values.
pub open spec fn enc_load_store_reg_unsigned_imm(size: u32, v: u32, opc: u32, imm12: u32, rn: u32, rt: u32) -> u32 {
    0x39000000u32 | (size << 30u32) | (v << 26u32) | (opc << 22u32) | (imm12 << 10u32) | (rn << 5u32) | rt
}

fn encode_load_store_reg_unsigned_imm(size: u32, v: u32, opc: u32, imm12: u32, rn: u32, rt: u32) -> (r: u32)
    ensures
        r == enc_load_store_reg_unsigned_imm(size, v, opc, imm12, rn, rt),
{
    0x39000000u32 | (size << 30u32) | (v << 26u32) | (opc << 22u32) | (imm12 << 10u32) | (rn << 5u32) | rt
}

/// Word of the load store reg reg offset encoding group with the given field values.
pub open spec fn enc_load_store_reg_reg_offset(size: u32, v: u32, opc: u32, rm: u32, option: u32, s: u32, rn: u32, rt: u32) -> u32 {
    0x38200800u32 | (size << 30u32) | (v << 26u32) | (opc << 22u32) | (rm << 16u32) | (option << 13u32) | (s << 12u32) | (rn << 5u32) | rt
}

fn encode_load_store_reg_reg_offset(size: u32, v: u32, opc: u32, rm: u32, option: u32, s: u32, rn: u32, rt: u32) -> (r: u32)
    ensures
        r == enc_load_store_reg_reg_offset(size, v, opc, rm, option, s, rn, rt),
{
    0x38200800u32 | (size << 30u32) | (v << 26u32) | (opc << 22u32) | (rm << 16u32) | (option << 13u32) | (s << 12u32) | (rn << 5u32) | rt
}

/// Word of the load store reg pair offset encoding group with the given field values.
pub open spec fn enc_load_store_reg_pair_offset(opc: u32, v: u32, idx: u32, l: u32, imm7: u32, rt2: u32, rn: u32, rt: u32) -> u32 {
    0x28000000u32 | (opc << 30u32) | (v << 26u32) | (idx << 23u32) | (l << 22u32) | (imm7 << 15u32) | (rt2 << 10u32) | (rn << 5u32) | rt
}

fn encode_load_store_reg_pair_offset(opc: u32, v: u32, idx: u32, l: u32, imm7: u32, rt2: u32, rn: u32, rt: u32) -> (r: u32)
    ensures
        r == enc_load_store_reg_pair_offset(opc, v, idx, l, imm7, rt2, rn, rt),
{
    0x28000000u32 | (opc << 30u32) | (v << 26u32) | (idx << 23u32) | (l << 22u32) | (imm7 << 15u32) | (rt2 << 10u32) | (rn << 5u32) | rt
}

/// Word of the load store reg imm9 encoding group with the given field values.
pub open spec fn enc_load_store_reg_imm9(size: u32, v: u32, opc: u32, imm9: u32, idx: u32, rn: u32, rt: u32) -> u32 {
    0x38000000u32 | (size << 30u32) | (v << 26u32) | (opc << 22u32) | (imm9 << 12u32) | (idx << 10u32) | (rn << 5u32) | rt
}

fn encode_load_store_reg_imm9(size: u32, v: u32, opc: u32, imm9: u32, idx: u32, rn: u32, rt: u32) -> (r: u32)
    ensures
        r == enc_load_store_reg_imm9(size, v, opc, imm9, idx, rn, rt),
{
    0x38000000u32 | (size << 30u32) | (v << 26u32) | (opc << 22u32) | (imm9 << 12u32) | (idx << 10u32) | (rn << 5u32) | rt
}

/// Word of the data proc 2src encoding group with the given field values.
pub open spec fn enc_data_proc_2src(sf: u32, s: u32, rm: u32, opcode: u32, rn: u32, rd: u32) -> u32 {
    0x1ac00000u32 | (sf << 31u32) | (s << 29u32) | (rm << 16u32) | (opcode << 10u32) | (rn << 5u32) | rd
}

fn encode_data_proc_2src(sf: u32, s: u32, rm: u32, opcode: u32, rn: u32, rd: u32) -> (r: u32)
    ensures
        r == enc_data_proc_2src(sf, s, rm, opcode, rn, rd),
{
    0x1ac00000u32 | (sf << 31u32) | (s << 29u32) | (rm << 16u32) | (opcode << 10u32) | (rn << 5u32) | rd
}

/// Word of the logical shifted register encoding group with the given field values.
pub open spec fn enc_logical_shifted_register(sf: u32, opc: u32, shift: u32, n: u32, rm: u32, imm6: u32, rn: u32, rd: u32) -> u32 {
    0xa000000u32 | (sf << 31u32) | (opc << 29u32) | (shift << 22u32) | (n << 21u32) | (rm << 16u32) | (imm6 << 10u32) | (rn << 5u32) | rd
}

fn encode_logical_shifted_register(sf: u32, opc: u32, shift: u32, n: u32, rm: u32, imm6: u32, rn: u32, rd: u32) -> (r: u32)
    ensures
        r == enc_logical_shifted_register(sf, opc, shift, n, rm, imm6, rn, rd),
{
    0xa000000u32 | (sf << 31u32) | (opc << 29u32) | (shift << 22u32) | (n << 21u32) | (rm << 16u32) | (imm6 << 10u32) | (rn << 5u32) | rd
}

/// Word of the add sub shifted reg encoding group with the given field values.
pub open spec fn enc_add_sub_shifted_reg(sf_op_s: u32, shift: u32, rm: u32, imm6: u32, rn: u32, rd: u32) -> u32 {
    0xb000000u32 | (sf_op_s << 29u32) | (shift << 22u32) | (rm << 16u32) | (imm6 << 10u32) | (rn << 5u32) | rd
}

fn encode_add_sub_shifted_reg(sf_op_s: u32, shift: u32, rm: u32, imm6: u32, rn: u32, rd: u32) -> (r: u32)
    ensures
        r == enc_add_sub_shifted_reg(sf_op_s, shift, rm, imm6, rn, rd),
{
    0xb000000u32 | (sf_op_s << 29u32) | (shift << 22u32) | (rm << 16u32) | (imm6 << 10u32) | (rn << 5u32) | rd
}

/// Word of the add sub ext reg encoding group with the given field values.
pub open spec fn enc_add_sub_ext_reg(sf_op_s: u32, opt: u32, rm: u32, option: u32, imm3: u32, rn: u32, rd: u32) -> u32 {
    0xb200000u32 | (sf_op_s << 29u32) | (opt << 22u32) | (rm << 16u32) | (option << 13u32) | (imm3 << 10u32) | (rn << 5u32) | rd
}

fn encode_add_sub_ext_reg(sf_op_s: u32, opt: u32, rm: u32, option: u32, imm3: u32, rn: u32, rd: u32) -> (r: u32)
    ensures
        r == enc_add_sub_ext_reg(sf_op_s, opt, rm, option, imm3, rn, rd),
{
    0xb200000u32 | (sf_op_s << 29u32) | (opt << 22u32) | (rm << 16u32) | (option << 13u32) | (imm3 << 10u32) | (rn << 5u32) | rd
}

/// Word of the cond compare reg encoding group with the given field values.
pub open spec fn enc_cond_compare_reg(sf: u32, op: u32, s: u32, rm: u32, cond: u32, o2: u32, rn: u32, o3: u32, nzcv: u32) -> u32 {
    0x1a400000u32 | (sf << 31u32) | (op << 30u32) | (s << 29u32) | (rm << 16u32) | (cond << 12u32) | (o2 << 10u32) | (rn << 5u32) | (o3 << 4u32) | nzcv
}

fn encode_cond_compare_reg(sf: u32, op: u32, s: u32, rm: u32, cond: u32, o2: u32, rn: u32, o3: u32, nzcv: u32) -> (r: u32)
    ensures
        r == enc_cond_compare_reg(sf, op, s, rm, cond, o2, rn, o3, nzcv),
{
    0x1a400000u32 | (sf << 31u32) | (op << 30u32) | (s << 29u32) | (rm << 16u32) | (cond << 12u32) | (o2 << 10u32) | (rn << 5u32) | (o3 << 4u32) | nzcv
}

/// Word of the cond compare imm encoding group with the given field values.
pub open spec fn enc_cond_compare_imm(sf: u32, op: u32, s: u32, imm5: u32, cond: u32, o2: u32, rn: u32, o3: u32, nzcv: u32) -> u32 {
    0x1a400800u32 | (sf << 31u32) | (op << 30u32) | (s << 29u32) | (imm5 << 16u32) | (cond << 12u32) | (o2 << 10u32) | (rn << 5u32) | (o3 << 4u32) | nzcv
}

fn encode_cond_compare_imm(sf: u32, op: u32, s: u32, imm5: u32, cond: u32, o2: u32, rn: u32, o3: u32, nzcv: u32) -> (r: u32)
    ensures
        r == enc_cond_compare_imm(sf, op, s, imm5, cond, o2, rn, o3, nzcv),
{
    0x1a400800u32 | (sf << 31u32) | (op << 30u32) | (s << 29u32) | (imm5 << 16u32) | (cond << 12u32) | (o2 << 10u32) | (rn << 5u32) | (o3 << 4u32) | nzcv
}

/// Word of the cond sel encoding group with the given field values.
pub open spec fn enc_cond_sel(sf: u32, op: u32, s: u32, rm: u32, cond: u32, op2: u32, rn: u32, rd: u32) -> u32 {
    0x1a800000u32 | (sf << 31u32) | (op << 30u32) | (s << 29u32) | (rm << 16u32) | (cond << 12u32) | (op2 << 10u32) | (rn << 5u32) | rd
}

fn encode_cond_sel(sf: u32, op: u32, s: u32, rm: u32, cond: u32, op2: u32, rn: u32, rd: u32) -> (r: u32)
    ensures
        r == enc_cond_sel(sf, op, s, rm, cond, op2, rn, rd),
{
    0x1a800000u32 | (sf << 31u32) | (op << 30u32) | (s << 29u32) | (rm << 16u32) | (cond << 12u32) | (op2 << 10u32) | (rn << 5u32) | rd
}

/// Word of the data proccessing 3src encoding group with the given field values.
pub open spec fn enc_data_proccessing_3src(sf: u32, op54: u32, op31: u32, rm: u32, o0: u32, ra: u32, rn: u32, rd: u32) -> u32 {
    0x1b000000u32 | (sf << 31u32) | (op54 << 29u32) | (op31 << 21u32) | (rm << 16u32) | (o0 << 15u32) | (ra << 10u32) | (rn << 5u32) | rd
}

fn encode_data_proccessing_3src(sf: u32, op54: u32, op31: u32, rm: u32, o0: u32, ra: u32, rn: u32, rd: u32) -> (r: u32)
    ensures
        r == enc_data_proccessing_3src(sf, op54, op31, rm, o0, ra, rn, rd),
{
    0x1b000000u32 | (sf << 31u32) | (op54 << 29u32) | (op31 << 21u32) | (rm << 16u32) | (o0 << 15u32) | (ra << 10u32) | (rn << 5u32) | rd
}

/// Word of the fp data processing 3src encoding group with the given field values.
pub open spec fn enc_fp_data_processing_3src(m: u32, s: u32, ptype: u32, o1: u32, rm: u32, o0: u32, ra: u32, rn: u32, rd: u32) -> u32 {
    0x1f000000u32 | (m << 31u32) | (s << 29u32) | (ptype << 22u32) | (o1 << 21u32) | (rm << 16u32) | (o0 << 15u32) | (ra << 10u32) | (rn << 5u32) | rd
}

fn encode_fp_data_processing_3src(m: u32, s: u32, ptype: u32, o1: u32, rm: u32, o0: u32, ra: u32, rn: u32, rd: u32) -> (r: u32)
    ensures
        r == enc_fp_data_processing_3src(m, s, ptype, o1, rm, o0, ra, rn, rd),
{
    0x1f000000u32 | (m << 31u32) | (s << 29u32) | (ptype << 22u32) | (o1 << 21u32) | (rm << 16u32) | (o0 << 15u32) | (ra << 10u32) | (rn << 5u32) | rd
}

/// Word of the barriers encoding group with the given field values.
pub open spec fn enc_barriers(crm: u32, op2: u32, rt: u32) -> u32 {
    0xd5033000u32 | (crm << 8u32) | (op2 << 5u32) | rt
}

fn encode_barriers(crm: u32, op2: u32, rt: u32) -> (r: u32)
    ensures
        r == enc_barriers(crm, op2, rt),
{
    0xd5033000u32 | (crm << 8u32) | (op2 << 5u32) | rt
}

/// Word of the load reg literal encoding group with the given field values.
pub open spec fn enc_load_reg_literal(opc: u32, v: u32, imm19: u32, rt: u32) -> u32 {
    0x18000000u32 | (opc << 30u32) | (v << 26u32) | (imm19 << 5u32) | rt
}

fn encode_load_reg_literal(opc: u32, v: u32, imm19: u32, rt: u32) -> (r: u32)
    ensures
        r == enc_load_reg_literal(opc, v, imm19, rt),
{
    0x18000000u32 | (opc << 30u32) | (v << 26u32) | (imm19 << 5u32) | rt
}

/// Word of the load store exclusive encoding group with the given field values.
pub open spec fn enc_load_store_exclusive(size: u32, l: u32, rs: u32, o0: u32, rt2: u32, rn: u32, rt: u32) -> u32 {
    0x8000000u32 | (size << 30u32) | (l << 22u32) | (rs << 16u32) | (o0 << 15u32) | (rt2 << 10u32) | (rn << 5u32) | rt
}

fn encode_load_store_exclusive(size: u32, l: u32, rs: u32, o0: u32, rt2: u32, rn: u32, rt: u32) -> (r: u32)
    ensures
        r == enc_load_store_exclusive(size, l, rs, o0, rt2, rn, rt),
{
    0x8000000u32 | (size << 30u32) | (l << 22u32) | (rs << 16u32) | (o0 << 15u32) | (rt2 << 10u32) | (rn << 5u32) | rt
}

/// Word of the load store ordered encoding group with the given field values.
pub open spec fn enc_load_store_ordered(size: u32, l: u32, rs: u32, o0: u32, rt2: u32, rn: u32, rt: u32) -> u32 {
    0x8800000u32 | (size << 30u32) | (l << 22u32) | (rs << 16u32) | (o0 << 15u32) | (rt2 << 10u32) | (rn << 5u32) | rt
}

fn encode_load_store_ordered(size: u32, l: u32, rs: u32, o0: u32, rt2: u32, rn: u32, rt: u32) -> (r: u32)
    ensures
        r == enc_load_store_ordered(size, l, rs, o0, rt2, rn, rt),
{
    0x8800000u32 | (size << 30u32) | (l << 22u32) | (rs << 16u32) | (o0 << 15u32) | (rt2 << 10u32) | (rn << 5u32) | rt
}

/// Word of the add sub with carry encoding group with the given field values.
pub open spec fn enc_add_sub_with_carry(sf_op_s: u32, rm: u32, rn: u32, rd: u32) -> u32 {
    0x1a000000u32 | (sf_op_s << 29u32) | (rm << 16u32) | (rn << 5u32) | rd
}

fn encode_add_sub_with_carry(sf_op_s: u32, rm: u32, rn: u32, rd: u32) -> (r: u32)
    ensures
        r == enc_add_sub_with_carry(sf_op_s, rm, rn, rd),
{
    0x1a000000u32 | (sf_op_s << 29u32) | (rm << 16u32) | (rn << 5u32) | rd
}

/// Word of the data proc 1src encoding group with the given field values.
pub open spec fn enc_data_proc_1src(sf: u32, s: u32, opcode2: u32, opcode: u32, rn: u32, rd: u32) -> u32 {
    0x5ac00000u32 | (sf << 31u32) | (s << 29u32) | (opcode2 << 16u32) | (opcode << 10u32) | (rn << 5u32) | rd
}

fn encode_data_proc_1src(sf: u32, s: u32, opcode2: u32, opcode: u32, rn: u32, rd: u32) -> (r: u32)
    ensures
        r == enc_data_proc_1src(sf, s, opcode2, opcode, rn, rd),
{
    0x5ac00000u32 | (sf << 31u32) | (s << 29u32) | (opcode2 << 16u32) | (opcode << 10u32) | (rn << 5u32) | rd
}

/// Word of the compare and swap encoding group with the given field values.
pub open spec fn enc_compare_and_swap(size: u32, l: u32, rs: u32, o0: u32, rt2: u32, rn: u32, rt: u32) -> u32 {
    0x8a00000u32 | (size << 30u32) | (l << 22u32) | (rs << 16u32) | (o0 << 15u32) | (rt2 << 10u32) | (rn << 5u32) | rt
}

fn encode_compare_and_swap(size: u32, l: u32, rs: u32, o0: u32, rt2: u32, rn: u32, rt: u32) -> (r: u32)
    ensures
        r == enc_compare_and_swap(size, l, rs, o0, rt2, rn, rt),
{
    0x8a00000u32 | (size << 30u32) | (l << 22u32) | (rs << 16u32) | (o0 << 15u32) | (rt2 << 10u32) | (rn << 5u32) | rt
}

/// Word of the compare and swap pair encoding group with the given field values.
pub open spec fn enc_compare_and_swap_pair(sz: u32, l: u32, rs: u32, o0: u32, rt2: u32, rn: u32, rt: u32) -> u32 {
    0x8200000u32 | (sz << 30u32) | (l << 22u32) | (rs << 16u32) | (o0 << 15u32) | (rt2 << 10u32) | (rn << 5u32) | rt
}

fn encode_compare_and_swap_pair(sz: u32, l: u32, rs: u32, o0: u32, rt2: u32, rn: u32, rt: u32) -> (r: u32)
    ensures
        r == enc_compare_and_swap_pair(sz, l, rs, o0, rt2, rn, rt),
{
    0x8200000u32 | (sz << 30u32) | (l << 22u32) | (rs << 16u32) | (o0 << 15u32) | (rt2 << 10u32) | (rn << 5u32) | rt
}

/// Word of the load store no alloc pair encoding group with the given field values.
pub open spec fn enc_load_store_no_alloc_pair(opc: u32, v: u32, l: u32, imm7: u32, rt2: u32, rn: u32, rt: u32) -> u32 {
    0x28000000u32 | (opc << 30u32) | (v << 26u32) | (l << 22u32) | (imm7 << 15u32) | (rt2 << 10u32) | (rn << 5u32) | rt
}

fn encode_load_store_no_alloc_pair(opc: u32, v: u32, l: u32, imm7: u32, rt2: u32, rn: u32, rt: u32) -> (r: u32)
    ensures
        r == enc_load_store_no_alloc_pair(opc, v, l, imm7, rt2, rn, rt),
{
    0x28000000u32 | (opc << 30u32) | (v << 26u32) | (l << 22u32) | (imm7 << 15u32) | (rt2 << 10u32) | (rn << 5u32) | rt
}

/// Word of the system register move encoding group with the given field values.
pub open spec fn enc_system_register_move(l: u32, o0: u32, op1: u32, crn: u32, crm: u32, op2: u32, rt: u32) -> u32 {
    0xd5100000u32 | (l << 21u32) | (o0 << 19u32) | (op1 << 16u32) | (crn << 12u32) | (crm << 8u32) | (op2 << 5u32) | rt
}

fn encode_system_register_move(l: u32, o0: u32, op1: u32, crn: u32, crm: u32, op2: u32, rt: u32) -> (r: u32)
    ensures
        r == enc_system_register_move(l, o0, op1, crn, crm, op2, rt),
{
    0xd5100000u32 | (l << 21u32) | (o0 << 19u32) | (op1 << 16u32) | (crn << 12u32) | (crm << 8u32) | (op2 << 5u32) | rt
}

/// Word of the fp compare encoding group with the given field values.
pub open spec fn enc_fp_compare(m: u32, s: u32, ptype: u32, rm: u32, op: u32, rn: u32, opcode2: u32) -> u32 {
    0x1e202000u32 | (m << 31u32) | (s << 29u32) | (ptype << 22u32) | (rm << 16u32) | (op << 14u32) | (rn << 5u32) | opcode2
}

fn encode_fp_compare(m: u32, s: u32, ptype: u32, rm: u32, op: u32, rn: u32, opcode2: u32) -> (r: u32)
    ensures
        r == enc_fp_compare(m, s, ptype, rm, op, rn, opcode2),
{
    0x1e202000u32 | (m << 31u32) | (s << 29u32) | (ptype << 22u32) | (rm << 16u32) | (op << 14u32) | (rn << 5u32) | opcode2
}

/// Word of the fp immediate encoding group with the given field values.
pub open spec fn enc_fp_immediate(m: u32, s: u32, ptype: u32, imm8: u32, imm5: u32, rd: u32) -> u32 {
    0x1e201000u32 | (m << 31u32) | (s << 29u32) | (ptype << 22u32) | (imm8 << 13u32) | (imm5 << 5u32) | rd
}

fn encode_fp_immediate(m: u32, s: u32, ptype: u32, imm8: u32, imm5: u32, rd: u32) -> (r: u32)
    ensures
        r == enc_fp_immediate(m, s, ptype, imm8, imm5, rd),
{
    0x1e201000u32 | (m << 31u32) | (s << 29u32) | (ptype << 22u32) | (imm8 << 13u32) | (imm5 << 5u32) | rd
}

impl AArch64Inst {
    /// The code word of this instruction.
    pub open spec fn spec_encode(self) -> u32 {
        match self {
            AArch64Inst::Adr(r) => enc_pc_rel_addressing(0u32, r.immlo as u32, r.immhi as u32, r.rd.spec_index()),
            AArch64Inst::Adrp(r) => enc_pc_rel_addressing(1u32, r.immlo as u32, r.immhi as u32, r.rd.spec_index()),
            AArch64Inst::AddImm32(r) => enc_add_sub_immediate(0u32, r.sh as u32, r.imm12 as u32, r.rn.spec_index(), r.rd.spec_index()),
            AArch64Inst::AddsImm32(r) => enc_add_sub_immediate(1u32, r.sh as u32, r.imm12 as u32, r.rn.spec_index(), r.rd.spec_index()),
            AArch64Inst::SubImm32(r) => enc_add_sub_immediate(2u32, r.sh as u32, r.imm12 as u32, r.rn.spec_index(), r.rd.spec_index()),
            AArch64Inst::SubsImm32(r) => enc_add_sub_immediate(3u32, r.sh as u32, r.imm12 as u32, r.rn.spec_index(), r.rd.spec_index()),
            AArch64Inst::AddImm64(r) => enc_add_sub_immediate(4u32, r.sh as u32, r.imm12 as u32, r.rn.spec_index(), r.rd.spec_index()),
            AArch64Inst::AddsImm64(r) => enc_add_sub_immediate(5u32, r.sh as u32, r.imm12 as u32, r.rn.spec_index(), r.rd.spec_index()),
            AArch64Inst::SubImm64(r) => enc_add_sub_immediate(6u32, r.sh as u32, r.imm12 as u32, r.rn.spec_index(), r.rd.spec_index()),
            AArch64Inst::SubsImm64(r) => enc_add_sub_immediate(7u32, r.sh as u32, r.imm12 as u32, r.rn.spec_index(), r.rd.spec_index()),
            AArch64Inst::Addg(r) => enc_add_sub_imm_with_tags(4u32, 0u32, r.uimm6 as u32, r.op3 as u32, r.uimm4 as u32, r.rn.spec_index(), r.rd.spec_index()),
            AArch64Inst::Subg(r) => enc_add_sub_imm_with_tags(6u32, 0u32, r.uimm6 as u32, r.op3 as u32, r.uimm4 as u32, r.rn.spec_index(), r.rd.spec_index()),
            AArch64Inst::AndImm32(r) => enc_logical_imm(0u32, 0u32, r.n as u32, r.immr as u32, r.imms as u32, r.rn.spec_index(), r.rd.spec_index()),
            AArch64Inst::OrrImm32(r) => enc_logical_imm(0u32, 1u32, r.n as u32, r.immr as u32, r.imms as u32, r.rn.spec_index(), r.rd.spec_index()),
            AArch64Inst::EorImm32(r) => enc_logical_imm(0u32, 2u32, r.n as u32, r.immr as u32, r.imms as u32, r.rn.spec_index(), r.rd.spec_index()),
            AArch64Inst::AndsImm32(r) => enc_logical_imm(0u32, 3u32, r.n as u32, r.immr as u32, r.imms as u32, r.rn.spec_index(), r.rd.spec_index()),
            AArch64Inst::AndImm64(r) => enc_logical_imm(1u32, 0u32, r.n as u32, r.immr as u32, r.imms as u32, r.rn.spec_index(), r.rd.spec_index()),
            AArch64Inst::OrrImm64(r) => enc_logical_imm(1u32, 1u32, r.n as u32, r.immr as u32, r.imms as u32, r.rn.spec_index(), r.rd.spec_index()),
            AArch64Inst::EorImm64(r) => enc_logical_imm(1u32, 2u32, r.n as u32, r.immr as u32, r.imms as u32, r.rn.spec_index(), r.rd.spec_index()),
            AArch64Inst::AndsImm64(r) => enc_logical_imm(1u32, 3u32, r.n as u32, r.immr as u32, r.imms as u32, r.rn.spec_index(), r.rd.spec_index()),
            AArch64Inst::MovnVar32(r) => enc_move_wide_imm(0u32, r.hw as u32, r.imm16 as u32, r.rd.spec_index()),
            AArch64Inst::MovzVar32(r) => enc_move_wide_imm(2u32, r.hw as u32, r.imm16 as u32, r.rd.spec_index()),
            AArch64Inst::MovkVar32(r) => enc_move_wide_imm(3u32, r.hw as u32, r.imm16 as u32, r.rd.spec_index()),
            AArch64Inst::MovnVar64(r) => enc_move_wide_imm(4u32, r.hw as u32, r.imm16 as u32, r.rd.spec_index()),
            AArch64Inst::MovzVar64(r) => enc_move_wide_imm(6u32, r.hw as u32, r.imm16 as u32, r.rd.spec_index()),
            AArch64Inst::MovkVar64(r) => enc_move_wide_imm(7u32, r.hw as u32, r.imm16 as u32, r.rd.spec_index()),
            AArch64Inst::Sbfm32(r) => enc_bitfield(0u32, 0u32, r.n as u32, r.immr as u32, r.imms as u32, r.rn.spec_index(), r.rd.spec_index()),
            AArch64Inst::Bfm32(r) => enc_bitfield(0u32, 1u32, r.n as u32, r.immr as u32, r.imms as u32, r.rn.spec_index(), r.rd.spec_index()),
            AArch64Inst::Ubfm32(r) => enc_bitfield(0u32, 2u32, r.n as u32, r.immr as u32, r.imms as u32, r.rn.spec_index(), r.rd.spec_index()),
            AArch64Inst::Sbfm64(r) => enc_bitfield(1u32, 0u32, r.n as u32, r.immr as u32, r.imms as u32, r.rn.spec_index(), r.rd.spec_index()),
            AArch64Inst::Bfm64(r) => enc_bitfield(1u32, 1u32, r.n as u32, r.immr as u32, r.imms as u32, r.rn.spec_index(), r.rd.spec_index()),
            AArch64Inst::Ubfm64(r) => enc_bitfield(1u32, 2u32, r.n as u32, r.immr as u32, r.imms as u32, r.rn.spec_index(), r.rd.spec_index()),
            AArch64Inst::Extr32(r) => enc_extract(0u32, 0u32, 0u32, r.rm.spec_index(), r.imms as u32, r.rn.spec_index(), r.rd.spec_index()),
            AArch64Inst::Extr64(r) => enc_extract(4u32, 1u32, 0u32, r.rm.spec_index(), r.imms as u32, r.rn.spec_index(), r.rd.spec_index()),
            AArch64Inst::BCond(r) => enc_cond_branch_imm(0u32, r.imm19 as u32, 0u32, r.cond as u32),
            AArch64Inst::BcCond(r) => enc_cond_branch_imm(0u32, r.imm19 as u32, 1u32, r.cond as u32),
            AArch64Inst::Svc(r) => enc_exception_gen(0u32, r.imm16 as u32, 0u32, 1u32),
            AArch64Inst::Hvc(r) => enc_exception_gen(0u32, r.imm16 as u32, 0u32, 2u32),
            AArch64Inst::Smc(r) => enc_exception_gen(0u32, r.imm16 as u32, 0u32, 3u32),
            AArch64Inst::Brk(r) => enc_exception_gen(1u32, r.imm16 as u32, 0u32, 0u32),
            AArch64Inst::Hlt(r) => enc_exception_gen(2u32, r.imm16 as u32, 0u32, 0u32),
            AArch64Inst::TCancle(r) => enc_exception_gen(3u32, r.imm16 as u32, 0u32, 0u32),
            AArch64Inst::DcpS1(r) => enc_exception_gen(5u32, r.imm16 as u32, 0u32, 1u32),
            AArch64Inst::DcpS2(r) => enc_exception_gen(5u32, r.imm16 as u32, 0u32, 2u32),
            AArch64Inst::DcpS3(r) => enc_exception_gen(5u32, r.imm16 as u32, 0u32, 3u32),
            AArch64Inst::Nop => enc_hints(0u32, 0u32),
            AArch64Inst::Yield => enc_hints(0u32, 1u32),
            AArch64Inst::Wfe => enc_hints(0u32, 2u32),
            AArch64Inst::Wfi => enc_hints(0u32, 3u32),
            AArch64Inst::Sev => enc_hints(0u32, 4u32),
            AArch64Inst::Sevl => enc_hints(0u32, 5u32),
            AArch64Inst::Xpaclri => enc_hints(0u32, 7u32),
            AArch64Inst::Pacia1716Var => enc_hints(1u32, 0u32),
            AArch64Inst::Pacib1716Var => enc_hints(1u32, 2u32),
            AArch64Inst::Autia1716Var => enc_hints(1u32, 4u32),
            AArch64Inst::Autib1716Var => enc_hints(1u32, 6u32),
            AArch64Inst::PaciazVar => enc_hints(3u32, 0u32),
            AArch64Inst::PaciaspVar => enc_hints(3u32, 1u32),
            AArch64Inst::PacibzVar => enc_hints(3u32, 2u32),
            AArch64Inst::PacibspVar => enc_hints(3u32, 3u32),
            AArch64Inst::AutiazVar => enc_hints(3u32, 4u32),
            AArch64Inst::AutiaspVar => enc_hints(3u32, 5u32),
            AArch64Inst::AutibzVar => enc_hints(3u32, 6u32),
            AArch64Inst::AutibspVar => enc_hints(3u32, 7u32),
            AArch64Inst::Hint(r) => enc_hints(r.crm as u32, r.op2 as u32),
            AArch64Inst::Br(r) => enc_uncond_branch_reg(0u32, 31u32, 0u32, r.rn.spec_index(), 0u32),
            AArch64Inst::Blr(r) => enc_uncond_branch_reg(1u32, 31u32, 0u32, r.rn.spec_index(), 0u32),
            AArch64Inst::Ret(r) => enc_uncond_branch_reg(2u32, 31u32, 0u32, r.rn.spec_index(), 0u32),
            AArch64Inst::ERet(r) => enc_uncond_branch_reg(4u32, 31u32, 0u32, r.rn.spec_index(), 0u32),
            AArch64Inst::Drps(r) => enc_uncond_branch_reg(5u32, 31u32, 0u32, r.rn.spec_index(), 0u32),
            AArch64Inst::BImm(r) => enc_uncond_branch_imm(0u32, r.imm26 as u32),
            AArch64Inst::BlImm(r) => enc_uncond_branch_imm(1u32, r.imm26 as u32),
            AArch64Inst::Cbz32(r) => enc_cmp_and_branch_imm(0u32, 0u32, r.imm19 as u32, r.rt.spec_index()),
            AArch64Inst::Cbnz32(r) => enc_cmp_and_branch_imm(0u32, 1u32, r.imm19 as u32, r.rt.spec_index()),
            AArch64Inst::Cbz64(r) => enc_cmp_and_branch_imm(1u32, 0u32, r.imm19 as u32, r.rt.spec_index()),
            AArch64Inst::Cbnz64(r) => enc_cmp_and_branch_imm(1u32, 1u32, r.imm19 as u32, r.rt.spec_index()),
            AArch64Inst::Tbz(r) => enc_test_and_branch_imm(r.b5 as u32, 0u32, r.b40 as u32, r.imm14 as u32, r.rt.spec_index()),
            AArch64Inst::Tbnz(r) => enc_test_and_branch_imm(r.b5 as u32, 1u32, r.b40 as u32, r.imm14 as u32, r.rt.spec_index()),
            AArch64Inst::StrbImm(r) => enc_load_store_reg_unsigned_imm(0u32, 0u32, 0u32, r.imm12 as u32, r.rn.spec_index(), r.rt.spec_index()),
            AArch64Inst::LdrbImm(r) => enc_load_store_reg_unsigned_imm(0u32, 0u32, 1u32, r.imm12 as u32, r.rn.spec_index(), r.rt.spec_index()),
            AArch64Inst::LdrsbImm64(r) => enc_load_store_reg_unsigned_imm(0u32, 0u32, 2u32, r.imm12 as u32, r.rn.spec_index(), r.rt.spec_index()),
            AArch64Inst::LdrsbImm32(r) => enc_load_store_reg_unsigned_imm(0u32, 0u32, 3u32, r.imm12 as u32, r.rn.spec_index(), r.rt.spec_index()),
            AArch64Inst::StrImmSimdFP8(r) => enc_load_store_reg_unsigned_imm(0u32, 1u32, 0u32, r.imm12 as u32, r.rn.spec_index(), r.rt.spec_index()),
            AArch64Inst::LdrImmSimdFP8(r) => enc_load_store_reg_unsigned_imm(0u32, 1u32, 1u32, r.imm12 as u32, r.rn.spec_index(), r.rt.spec_index()),
            AArch64Inst::StrImmSimdFP128(r) => enc_load_store_reg_unsigned_imm(0u32, 1u32, 2u32, r.imm12 as u32, r.rn.spec_index(), r.rt.spec_index()),
            AArch64Inst::LdrImmSimdFP128(r) => enc_load_store_reg_unsigned_imm(0u32, 1u32, 3u32, r.imm12 as u32, r.rn.spec_index(), r.rt.spec_index()),
            AArch64Inst::StrhImm(r) => enc_load_store_reg_unsigned_imm(1u32, 0u32, 0u32, r.imm12 as u32, r.rn.spec_index(), r.rt.spec_index()),
            AArch64Inst::LdrhImm(r) => enc_load_store_reg_unsigned_imm(1u32, 0u32, 1u32, r.imm12 as u32, r.rn.spec_index(), r.rt.spec_index()),
            AArch64Inst::LdrshImm64(r) => enc_load_store_reg_unsigned_imm(1u32, 0u32, 2u32, r.imm12 as u32, r.rn.spec_index(), r.rt.spec_index()),
            AArch64Inst::LdrshImm32(r) => enc_load_store_reg_unsigned_imm(1u32, 0u32, 3u32, r.imm12 as u32, r.rn.spec_index(), r.rt.spec_index()),
            AArch64Inst::StrImmSimdFP16(r) => enc_load_store_reg_unsigned_imm(1u32, 1u32, 0u32, r.imm12 as u32, r.rn.spec_index(), r.rt.spec_index()),
            AArch64Inst::LdrImmSimdFP16(r) => enc_load_store_reg_unsigned_imm(1u32, 1u32, 1u32, r.imm12 as u32, r.rn.spec_index(), r.rt.spec_index()),
            AArch64Inst::StrImm32(r) => enc_load_store_reg_unsigned_imm(2u32, 0u32, 0u32, r.imm12 as u32, r.rn.spec_index(), r.rt.spec_index()),
            AArch64Inst::LdrImm32(r) => enc_load_store_reg_unsigned_imm(2u32, 0u32, 1u32, r.imm12 as u32, r.rn.spec_index(), r.rt.spec_index()),
            AArch64Inst::LdrswImm(r) => enc_load_store_reg_unsigned_imm(2u32, 0u32, 2u32, r.imm12 as u32, r.rn.spec_index(), r.rt.spec_index()),
            AArch64Inst::StrImmSimdFP32(r) => enc_load_store_reg_unsigned_imm(2u32, 1u32, 0u32, r.imm12 as u32, r.rn.spec_index(), r.rt.spec_index()),
            AArch64Inst::LdrImmSimdFP32(r) => enc_load_store_reg_unsigned_imm(2u32, 1u32, 1u32, r.imm12 as u32, r.rn.spec_index(), r.rt.spec_index()),
            AArch64Inst::StrImm64(r) => enc_load_store_reg_unsigned_imm(3u32, 0u32, 0u32, r.imm12 as u32, r.rn.spec_index(), r.rt.spec_index()),
            AArch64Inst::LdrImm64(r) => enc_load_store_reg_unsigned_imm(3u32, 0u32, 1u32, r.imm12 as u32, r.rn.spec_index(), r.rt.spec_index()),
            AArch64Inst::PrfmImm(r) => enc_load_store_reg_unsigned_imm(3u32, 0u32, 2u32, r.imm12 as u32, r.rn.spec_index(), r.rt.spec_index()),
            AArch64Inst::StrImmSimdFP64(r) => enc_load_store_reg_unsigned_imm(3u32, 1u32, 0u32, r.imm12 as u32, r.rn.spec_index(), r.rt.spec_index()),
            AArch64Inst::LdrImmSimdFP64(r) => enc_load_store_reg_unsigned_imm(3u32, 1u32, 1u32, r.imm12 as u32, r.rn.spec_index(), r.rt.spec_index()),
            AArch64Inst::StrbRegExtReg(r) => enc_load_store_reg_reg_offset(r.size as u32, 0u32, r.opc as u32, r.rm.spec_index(), r.option as u32, r.s as u32, r.rn.spec_index(), r.rt.spec_index()),
            AArch64Inst::StrbRegShiftedReg(r) => enc_load_store_reg_reg_offset(r.size as u32, 0u32, r.opc as u32, r.rm.spec_index(), r.option as u32, r.s as u32, r.rn.spec_index(), r.rt.spec_index()),
            AArch64Inst::LdrbRegExtReg(r) => enc_load_store_reg_reg_offset(r.size as u32, 0u32, r.opc as u32, r.rm.spec_index(), r.option as u32, r.s as u32, r.rn.spec_index(), r.rt.spec_index()),
            AArch64Inst::LdrbRegShiftedReg(r) => enc_load_store_reg_reg_offset(r.size as u32, 0u32, r.opc as u32, r.rm.spec_index(), r.option as u32, r.s as u32, r.rn.spec_index(), r.rt.spec_index()),
            AArch64Inst::LdrsbRegExtReg64(r) => enc_load_store_reg_reg_offset(r.size as u32, 0u32, r.opc as u32, r.rm.spec_index(), r.option as u32, r.s as u32, r.rn.spec_index(), r.rt.spec_index()),
            AArch64Inst::LdrsbRegShiftedReg64(r) => enc_load_store_reg_reg_offset(r.size as u32, 0u32, r.opc as u32, r.rm.spec_index(), r.option as u32, r.s as u32, r.rn.spec_index(), r.rt.spec_index()),
            AArch64Inst::LdrsbRegExtReg32(r) => enc_load_store_reg_reg_offset(r.size as u32, 0u32, r.opc as u32, r.rm.spec_index(), r.option as u32, r.s as u32, r.rn.spec_index(), r.rt.spec_index()),
            AArch64Inst::LdrsbRegShiftedReg32(r) => enc_load_store_reg_reg_offset(r.size as u32, 0u32, r.opc as u32, r.rm.spec_index(), r.option as u32, r.s as u32, r.rn.spec_index(), r.rt.spec_index()),
            AArch64Inst::StrRegSimdFP(r) => enc_load_store_reg_reg_offset(r.size as u32, 1u32, r.opc as u32, r.rm.spec_index(), r.option as u32, r.s as u32, r.rn.spec_index(), r.rt.spec_index()),
            AArch64Inst::LdrRegSimdFP(r) => enc_load_store_reg_reg_offset(r.size as u32, 1u32, r.opc as u32, r.rm.spec_index(), r.option as u32, r.s as u32, r.rn.spec_index(), r.rt.spec_index()),
            AArch64Inst::StrhReg(r) => enc_load_store_reg_reg_offset(r.size as u32, 0u32, r.opc as u32, r.rm.spec_index(), r.option as u32, r.s as u32, r.rn.spec_index(), r.rt.spec_index()),
            AArch64Inst::LdrhReg(r) => enc_load_store_reg_reg_offset(r.size as u32, 0u32, r.opc as u32, r.rm.spec_index(), r.option as u32, r.s as u32, r.rn.spec_index(), r.rt.spec_index()),
            AArch64Inst::LdrshReg64(r) => enc_load_store_reg_reg_offset(r.size as u32, 0u32, r.opc as u32, r.rm.spec_index(), r.option as u32, r.s as u32, r.rn.spec_index(), r.rt.spec_index()),
            AArch64Inst::LdrshReg32(r) => enc_load_store_reg_reg_offset(r.size as u32, 0u32, r.opc as u32, r.rm.spec_index(), r.option as u32, r.s as u32, r.rn.spec_index(), r.rt.spec_index()),
            AArch64Inst::StrReg32(r) => enc_load_store_reg_reg_offset(r.size as u32, 0u32, r.opc as u32, r.rm.spec_index(), r.option as u32, r.s as u32, r.rn.spec_index(), r.rt.spec_index()),
            AArch64Inst::LdrReg32(r) => enc_load_store_reg_reg_offset(r.size as u32, 0u32, r.opc as u32, r.rm.spec_index(), r.option as u32, r.s as u32, r.rn.spec_index(), r.rt.spec_index()),
            AArch64Inst::LdrswReg(r) => enc_load_store_reg_reg_offset(r.size as u32, 0u32, r.opc as u32, r.rm.spec_index(), r.option as u32, r.s as u32, r.rn.spec_index(), r.rt.spec_index()),
            AArch64Inst::StrReg64(r) => enc_load_store_reg_reg_offset(r.size as u32, 0u32, r.opc as u32, r.rm.spec_index(), r.option as u32, r.s as u32, r.rn.spec_index(), r.rt.spec_index()),
            AArch64Inst::LdrReg64(r) => enc_load_store_reg_reg_offset(r.size as u32, 0u32, r.opc as u32, r.rm.spec_index(), r.option as u32, r.s as u32, r.rn.spec_index(), r.rt.spec_index()),
            AArch64Inst::PrfmReg(r) => enc_load_store_reg_reg_offset(r.size as u32, 0u32, r.opc as u32, r.rm.spec_index(), r.option as u32, r.s as u32, r.rn.spec_index(), r.rt.spec_index()),
            AArch64Inst::StpVar32(r) => enc_load_store_reg_pair_offset(0u32, 0u32, r.idx as u32, 0u32, r.imm7 as u32, r.rt2.spec_index(), r.rn.spec_index(), r.rt.spec_index()),
            AArch64Inst::LdpVar32(r) => enc_load_store_reg_pair_offset(0u32, 0u32, r.idx as u32, 1u32, r.imm7 as u32, r.rt2.spec_index(), r.rn.spec_index(), r.rt.spec_index()),
            AArch64Inst::StpSimdFPVar32(r) => enc_load_store_reg_pair_offset(0u32, 1u32, r.idx as u32, 0u32, r.imm7 as u32, r.rt2.spec_index(), r.rn.spec_index(), r.rt.spec_index()),
            AArch64Inst::LdpSimdFPVar32(r) => enc_load_store_reg_pair_offset(0u32, 1u32, r.idx as u32, 1u32, r.imm7 as u32, r.rt2.spec_index(), r.rn.spec_index(), r.rt.spec_index()),
            AArch64Inst::Stgp(r) => enc_load_store_reg_pair_offset(1u32, 0u32, r.idx as u32, 0u32, r.imm7 as u32, r.rt2.spec_index(), r.rn.spec_index(), r.rt.spec_index()),
            AArch64Inst::Ldpsw(r) => enc_load_store_reg_pair_offset(1u32, 0u32, r.idx as u32, 1u32, r.imm7 as u32, r.rt2.spec_index(), r.rn.spec_index(), r.rt.spec_index()),
            AArch64Inst::StpSimdFPVar64(r) => enc_load_store_reg_pair_offset(1u32, 1u32, r.idx as u32, 0u32, r.imm7 as u32, r.rt2.spec_index(), r.rn.spec_index(), r.rt.spec_index()),
            AArch64Inst::LdpSimdFPVar64(r) => enc_load_store_reg_pair_offset(1u32, 1u32, r.idx as u32, 1u32, r.imm7 as u32, r.rt2.spec_index(), r.rn.spec_index(), r.rt.spec_index()),
            AArch64Inst::StpVar64(r) => enc_load_store_reg_pair_offset(2u32, 0u32, r.idx as u32, 0u32, r.imm7 as u32, r.rt2.spec_index(), r.rn.spec_index(), r.rt.spec_index()),
            AArch64Inst::LdpVar64(r) => enc_load_store_reg_pair_offset(2u32, 0u32, r.idx as u32, 1u32, r.imm7 as u32, r.rt2.spec_index(), r.rn.spec_index(), r.rt.spec_index()),
            AArch64Inst::StpSimdFpVar128(r) => enc_load_store_reg_pair_offset(2u32, 1u32, r.idx as u32, 0u32, r.imm7 as u32, r.rt2.spec_index(), r.rn.spec_index(), r.rt.spec_index()),
            AArch64Inst::LdpSimdFpVar128(r) => enc_load_store_reg_pair_offset(2u32, 1u32, r.idx as u32, 1u32, r.imm7 as u32, r.rt2.spec_index(), r.rn.spec_index(), r.rt.spec_index()),
            AArch64Inst::Sturb(r) => enc_load_store_reg_imm9(0u32, 0u32, 0u32, r.imm9 as u32, r.idx as u32, r.rn.spec_index(), r.rt.spec_index()),
            AArch64Inst::StrbIdx(r) => enc_load_store_reg_imm9(0u32, 0u32, 0u32, r.imm9 as u32, r.idx as u32, r.rn.spec_index(), r.rt.spec_index()),
            AArch64Inst::Ldurb(r) => enc_load_store_reg_imm9(0u32, 0u32, 1u32, r.imm9 as u32, r.idx as u32, r.rn.spec_index(), r.rt.spec_index()),
            AArch64Inst::LdrbIdx(r) => enc_load_store_reg_imm9(0u32, 0u32, 1u32, r.imm9 as u32, r.idx as u32, r.rn.spec_index(), r.rt.spec_index()),
            AArch64Inst::Ldursb64(r) => enc_load_store_reg_imm9(0u32, 0u32, 2u32, r.imm9 as u32, r.idx as u32, r.rn.spec_index(), r.rt.spec_index()),
            AArch64Inst::LdrsbIdx64(r) => enc_load_store_reg_imm9(0u32, 0u32, 2u32, r.imm9 as u32, r.idx as u32, r.rn.spec_index(), r.rt.spec_index()),
            AArch64Inst::Ldursb32(r) => enc_load_store_reg_imm9(0u32, 0u32, 3u32, r.imm9 as u32, r.idx as u32, r.rn.spec_index(), r.rt.spec_index()),
            AArch64Inst::LdrsbIdx32(r) => enc_load_store_reg_imm9(0u32, 0u32, 3u32, r.imm9 as u32, r.idx as u32, r.rn.spec_index(), r.rt.spec_index()),
            AArch64Inst::SturSimdFP8(r) => enc_load_store_reg_imm9(0u32, 1u32, 0u32, r.imm9 as u32, r.idx as u32, r.rn.spec_index(), r.rt.spec_index()),
            AArch64Inst::StrSimdFPIdx8(r) => enc_load_store_reg_imm9(0u32, 1u32, 0u32, r.imm9 as u32, r.idx as u32, r.rn.spec_index(), r.rt.spec_index()),
            AArch64Inst::LdurSimdFP8(r) => enc_load_store_reg_imm9(0u32, 1u32, 1u32, r.imm9 as u32, r.idx as u32, r.rn.spec_index(), r.rt.spec_index()),
            AArch64Inst::LdrSimdFPIdx8(r) => enc_load_store_reg_imm9(0u32, 1u32, 1u32, r.imm9 as u32, r.idx as u32, r.rn.spec_index(), r.rt.spec_index()),
            AArch64Inst::SturSimdFP128(r) => enc_load_store_reg_imm9(0u32, 1u32, 2u32, r.imm9 as u32, r.idx as u32, r.rn.spec_index(), r.rt.spec_index()),
            AArch64Inst::StrSimdFPIdx128(r) => enc_load_store_reg_imm9(0u32, 1u32, 2u32, r.imm9 as u32, r.idx as u32, r.rn.spec_index(), r.rt.spec_index()),
            AArch64Inst::LdurSimdFP128(r) => enc_load_store_reg_imm9(0u32, 1u32, 3u32, r.imm9 as u32, r.idx as u32, r.rn.spec_index(), r.rt.spec_index()),
            AArch64Inst::LdrSimdFPIdx128(r) => enc_load_store_reg_imm9(0u32, 1u32, 3u32, r.imm9 as u32, r.idx as u32, r.rn.spec_index(), r.rt.spec_index()),
            AArch64Inst::Sturh(r) => enc_load_store_reg_imm9(1u32, 0u32, 0u32, r.imm9 as u32, r.idx as u32, r.rn.spec_index(), r.rt.spec_index()),
            AArch64Inst::StrhIdx(r) => enc_load_store_reg_imm9(1u32, 0u32, 0u32, r.imm9 as u32, r.idx as u32, r.rn.spec_index(), r.rt.spec_index()),
            AArch64Inst::Ldurh(r) => enc_load_store_reg_imm9(1u32, 0u32, 1u32, r.imm9 as u32, r.idx as u32, r.rn.spec_index(), r.rt.spec_index()),
            AArch64Inst::LdrhIdx(r) => enc_load_store_reg_imm9(1u32, 0u32, 1u32, r.imm9 as u32, r.idx as u32, r.rn.spec_index(), r.rt.spec_index()),
            AArch64Inst::Ldursh64(r) => enc_load_store_reg_imm9(1u32, 0u32, 2u32, r.imm9 as u32, r.idx as u32, r.rn.spec_index(), r.rt.spec_index()),
            AArch64Inst::LdrshIdx64(r) => enc_load_store_reg_imm9(1u32, 0u32, 2u32, r.imm9 as u32, r.idx as u32, r.rn.spec_index(), r.rt.spec_index()),
            AArch64Inst::Ldursh32(r) => enc_load_store_reg_imm9(1u32, 0u32, 3u32, r.imm9 as u32, r.idx as u32, r.rn.spec_index(), r.rt.spec_index()),
            AArch64Inst::LdrshIdx32(r) => enc_load_store_reg_imm9(1u32, 0u32, 3u32, r.imm9 as u32, r.idx as u32, r.rn.spec_index(), r.rt.spec_index()),
            AArch64Inst::SturSimdFP16(r) => enc_load_store_reg_imm9(1u32, 1u32, 0u32, r.imm9 as u32, r.idx as u32, r.rn.spec_index(), r.rt.spec_index()),
            AArch64Inst::StrSimdFPIdx16(r) => enc_load_store_reg_imm9(1u32, 1u32, 0u32, r.imm9 as u32, r.idx as u32, r.rn.spec_index(), r.rt.spec_index()),
            AArch64Inst::LdurSimdFP16(r) => enc_load_store_reg_imm9(1u32, 1u32, 1u32, r.imm9 as u32, r.idx as u32, r.rn.spec_index(), r.rt.spec_index()),
            AArch64Inst::LdrSimdFPIdx16(r) => enc_load_store_reg_imm9(1u32, 1u32, 1u32, r.imm9 as u32, r.idx as u32, r.rn.spec_index(), r.rt.spec_index()),
            AArch64Inst::Stur32(r) => enc_load_store_reg_imm9(2u32, 0u32, 0u32, r.imm9 as u32, r.idx as u32, r.rn.spec_index(), r.rt.spec_index()),
            AArch64Inst::StrIdx32(r) => enc_load_store_reg_imm9(2u32, 0u32, 0u32, r.imm9 as u32, r.idx as u32, r.rn.spec_index(), r.rt.spec_index()),
            AArch64Inst::Ldur32(r) => enc_load_store_reg_imm9(2u32, 0u32, 1u32, r.imm9 as u32, r.idx as u32, r.rn.spec_index(), r.rt.spec_index()),
            AArch64Inst::LdrIdx32(r) => enc_load_store_reg_imm9(2u32, 0u32, 1u32, r.imm9 as u32, r.idx as u32, r.rn.spec_index(), r.rt.spec_index()),
            AArch64Inst::Ldursw(r) => enc_load_store_reg_imm9(2u32, 0u32, 2u32, r.imm9 as u32, r.idx as u32, r.rn.spec_index(), r.rt.spec_index()),
            AArch64Inst::LdrswIdx(r) => enc_load_store_reg_imm9(2u32, 0u32, 2u32, r.imm9 as u32, r.idx as u32, r.rn.spec_index(), r.rt.spec_index()),
            AArch64Inst::SturSimdFP32(r) => enc_load_store_reg_imm9(2u32, 1u32, 0u32, r.imm9 as u32, r.idx as u32, r.rn.spec_index(), r.rt.spec_index()),
            AArch64Inst::StrSimdFPIdx32(r) => enc_load_store_reg_imm9(2u32, 1u32, 0u32, r.imm9 as u32, r.idx as u32, r.rn.spec_index(), r.rt.spec_index()),
            AArch64Inst::LdurSimdFP32(r) => enc_load_store_reg_imm9(2u32, 1u32, 1u32, r.imm9 as u32, r.idx as u32, r.rn.spec_index(), r.rt.spec_index()),
            AArch64Inst::LdrSimdFPIdx32(r) => enc_load_store_reg_imm9(2u32, 1u32, 1u32, r.imm9 as u32, r.idx as u32, r.rn.spec_index(), r.rt.spec_index()),
            AArch64Inst::Stur64(r) => enc_load_store_reg_imm9(3u32, 0u32, 0u32, r.imm9 as u32, r.idx as u32, r.rn.spec_index(), r.rt.spec_index()),
            AArch64Inst::StrIdx64(r) => enc_load_store_reg_imm9(3u32, 0u32, 0u32, r.imm9 as u32, r.idx as u32, r.rn.spec_index(), r.rt.spec_index()),
            AArch64Inst::Ldur64(r) => enc_load_store_reg_imm9(3u32, 0u32, 1u32, r.imm9 as u32, r.idx as u32, r.rn.spec_index(), r.rt.spec_index()),
            AArch64Inst::LdrIdx64(r) => enc_load_store_reg_imm9(3u32, 0u32, 1u32, r.imm9 as u32, r.idx as u32, r.rn.spec_index(), r.rt.spec_index()),
            AArch64Inst::Prefum(r) => enc_load_store_reg_imm9(3u32, 0u32, 2u32, r.imm9 as u32, r.idx as u32, r.rn.spec_index(), r.rt.spec_index()),
            AArch64Inst::SturSimdFP64(r) => enc_load_store_reg_imm9(3u32, 1u32, 0u32, r.imm9 as u32, r.idx as u32, r.rn.spec_index(), r.rt.spec_index()),
            AArch64Inst::StrSimdFPIdx64(r) => enc_load_store_reg_imm9(3u32, 1u32, 0u32, r.imm9 as u32, r.idx as u32, r.rn.spec_index(), r.rt.spec_index()),
            AArch64Inst::LdurSimdFP64(r) => enc_load_store_reg_imm9(3u32, 1u32, 1u32, r.imm9 as u32, r.idx as u32, r.rn.spec_index(), r.rt.spec_index()),
            AArch64Inst::LdrSimdFPIdx64(r) => enc_load_store_reg_imm9(3u32, 1u32, 1u32, r.imm9 as u32, r.idx as u32, r.rn.spec_index(), r.rt.spec_index()),
            AArch64Inst::UdivVar32(r) => enc_data_proc_2src(0u32, 0u32, r.rm.spec_index(), 2u32, r.rn.spec_index(), r.rd.spec_index()),
            AArch64Inst::SdivVar32(r) => enc_data_proc_2src(0u32, 0u32, r.rm.spec_index(), 3u32, r.rn.spec_index(), r.rd.spec_index()),
            AArch64Inst::LslvVar32(r) => enc_data_proc_2src(0u32, 0u32, r.rm.spec_index(), 8u32, r.rn.spec_index(), r.rd.spec_index()),
            AArch64Inst::LsrvVar32(r) => enc_data_proc_2src(0u32, 0u32, r.rm.spec_index(), 9u32, r.rn.spec_index(), r.rd.spec_index()),
            AArch64Inst::AsrvVar32(r) => enc_data_proc_2src(0u32, 0u32, r.rm.spec_index(), 10u32, r.rn.spec_index(), r.rd.spec_index()),
            AArch64Inst::RorvVar32(r) => enc_data_proc_2src(0u32, 0u32, r.rm.spec_index(), 11u32, r.rn.spec_index(), r.rd.spec_index()),
            AArch64Inst::UdivVar64(r) => enc_data_proc_2src(1u32, 0u32, r.rm.spec_index(), 2u32, r.rn.spec_index(), r.rd.spec_index()),
            AArch64Inst::SdivVar64(r) => enc_data_proc_2src(1u32, 0u32, r.rm.spec_index(), 3u32, r.rn.spec_index(), r.rd.spec_index()),
            AArch64Inst::LslvVar64(r) => enc_data_proc_2src(1u32, 0u32, r.rm.spec_index(), 8u32, r.rn.spec_index(), r.rd.spec_index()),
            AArch64Inst::LsrvVar64(r) => enc_data_proc_2src(1u32, 0u32, r.rm.spec_index(), 9u32, r.rn.spec_index(), r.rd.spec_index()),
            AArch64Inst::AsrvVar64(r) => enc_data_proc_2src(1u32, 0u32, r.rm.spec_index(), 10u32, r.rn.spec_index(), r.rd.spec_index()),
            AArch64Inst::RorvVar64(r) => enc_data_proc_2src(1u32, 0u32, r.rm.spec_index(), 11u32, r.rn.spec_index(), r.rd.spec_index()),
            AArch64Inst::AndShiftedReg32(r) => enc_logical_shifted_register(0u32, 0u32, r.shift as u32, 0u32, r.rm.spec_index(), r.imm6 as u32, r.rn.spec_index(), r.rd.spec_index()),
            AArch64Inst::BicShiftedReg32(r) => enc_logical_shifted_register(0u32, 0u32, r.shift as u32, 1u32, r.rm.spec_index(), r.imm6 as u32, r.rn.spec_index(), r.rd.spec_index()),
            AArch64Inst::OrrShiftedReg32(r) => enc_logical_shifted_register(0u32, 1u32, r.shift as u32, 0u32, r.rm.spec_index(), r.imm6 as u32, r.rn.spec_index(), r.rd.spec_index()),
            AArch64Inst::OrnShiftedReg32(r) => enc_logical_shifted_register(0u32, 1u32, r.shift as u32, 1u32, r.rm.spec_index(), r.imm6 as u32, r.rn.spec_index(), r.rd.spec_index()),
            AArch64Inst::EorShiftedReg32(r) => enc_logical_shifted_register(0u32, 2u32, r.shift as u32, 0u32, r.rm.spec_index(), r.imm6 as u32, r.rn.spec_index(), r.rd.spec_index()),
            AArch64Inst::EonShiftedReg32(r) => enc_logical_shifted_register(0u32, 2u32, r.shift as u32, 1u32, r.rm.spec_index(), r.imm6 as u32, r.rn.spec_index(), r.rd.spec_index()),
            AArch64Inst::AndsShiftedReg32(r) => enc_logical_shifted_register(0u32, 3u32, r.shift as u32, 0u32, r.rm.spec_index(), r.imm6 as u32, r.rn.spec_index(), r.rd.spec_index()),
            AArch64Inst::BicsShiftedReg32(r) => enc_logical_shifted_register(0u32, 3u32, r.shift as u32, 1u32, r.rm.spec_index(), r.imm6 as u32, r.rn.spec_index(), r.rd.spec_index()),
            AArch64Inst::AndShiftedReg64(r) => enc_logical_shifted_register(1u32, 0u32, r.shift as u32, 0u32, r.rm.spec_index(), r.imm6 as u32, r.rn.spec_index(), r.rd.spec_index()),
            AArch64Inst::BicShiftedReg64(r) => enc_logical_shifted_register(1u32, 0u32, r.shift as u32, 1u32, r.rm.spec_index(), r.imm6 as u32, r.rn.spec_index(), r.rd.spec_index()),
            AArch64Inst::OrrShiftedReg64(r) => enc_logical_shifted_register(1u32, 1u32, r.shift as u32, 0u32, r.rm.spec_index(), r.imm6 as u32, r.rn.spec_index(), r.rd.spec_index()),
            AArch64Inst::OrnShiftedReg64(r) => enc_logical_shifted_register(1u32, 1u32, r.shift as u32, 1u32, r.rm.spec_index(), r.imm6 as u32, r.rn.spec_index(), r.rd.spec_index()),
            AArch64Inst::EorShiftedReg64(r) => enc_logical_shifted_register(1u32, 2u32, r.shift as u32, 0u32, r.rm.spec_index(), r.imm6 as u32, r.rn.spec_index(), r.rd.spec_index()),
            AArch64Inst::EonShiftedReg64(r) => enc_logical_shifted_register(1u32, 2u32, r.shift as u32, 1u32, r.rm.spec_index(), r.imm6 as u32, r.rn.spec_index(), r.rd.spec_index()),
            AArch64Inst::AndsShiftedReg64(r) => enc_logical_shifted_register(1u32, 3u32, r.shift as u32, 0u32, r.rm.spec_index(), r.imm6 as u32, r.rn.spec_index(), r.rd.spec_index()),
            AArch64Inst::BicsShiftedReg64(r) => enc_logical_shifted_register(1u32, 3u32, r.shift as u32, 1u32, r.rm.spec_index(), r.imm6 as u32, r.rn.spec_index(), r.rd.spec_index()),
            AArch64Inst::AddShiftedReg32(r) => enc_add_sub_shifted_reg(0u32, r.shift as u32, r.rm.spec_index(), r.imm6 as u32, r.rn.spec_index(), r.rd.spec_index()),
            AArch64Inst::AddsShiftedReg32(r) => enc_add_sub_shifted_reg(1u32, r.shift as u32, r.rm.spec_index(), r.imm6 as u32, r.rn.spec_index(), r.rd.spec_index()),
            AArch64Inst::SubShiftedReg32(r) => enc_add_sub_shifted_reg(2u32, r.shift as u32, r.rm.spec_index(), r.imm6 as u32, r.rn.spec_index(), r.rd.spec_index()),
            AArch64Inst::SubsShiftedReg32(r) => enc_add_sub_shifted_reg(3u32, r.shift as u32, r.rm.spec_index(), r.imm6 as u32, r.rn.spec_index(), r.rd.spec_index()),
            AArch64Inst::AddShiftedReg64(r) => enc_add_sub_shifted_reg(4u32, r.shift as u32, r.rm.spec_index(), r.imm6 as u32, r.rn.spec_index(), r.rd.spec_index()),
            AArch64Inst::AddsShiftedReg64(r) => enc_add_sub_shifted_reg(5u32, r.shift as u32, r.rm.spec_index(), r.imm6 as u32, r.rn.spec_index(), r.rd.spec_index()),
            AArch64Inst::SubShiftedReg64(r) => enc_add_sub_shifted_reg(6u32, r.shift as u32, r.rm.spec_index(), r.imm6 as u32, r.rn.spec_index(), r.rd.spec_index()),
            AArch64Inst::SubsShiftedReg64(r) => enc_add_sub_shifted_reg(7u32, r.shift as u32, r.rm.spec_index(), r.imm6 as u32, r.rn.spec_index(), r.rd.spec_index()),
            AArch64Inst::AddExtReg32(r) => enc_add_sub_ext_reg(0u32, 0u32, r.rm.spec_index(), r.option as u32, r.imm3 as u32, r.rn.spec_index(), r.rd.spec_index()),
            AArch64Inst::AddsExtReg32(r) => enc_add_sub_ext_reg(1u32, 0u32, r.rm.spec_index(), r.option as u32, r.imm3 as u32, r.rn.spec_index(), r.rd.spec_index()),
            AArch64Inst::SubExtReg32(r) => enc_add_sub_ext_reg(2u32, 0u32, r.rm.spec_index(), r.option as u32, r.imm3 as u32, r.rn.spec_index(), r.rd.spec_index()),
            AArch64Inst::SubsExtReg32(r) => enc_add_sub_ext_reg(3u32, 0u32, r.rm.spec_index(), r.option as u32, r.imm3 as u32, r.rn.spec_index(), r.rd.spec_index()),
            AArch64Inst::AddExtReg64(r) => enc_add_sub_ext_reg(4u32, 0u32, r.rm.spec_index(), r.option as u32, r.imm3 as u32, r.rn.spec_index(), r.rd.spec_index()),
            AArch64Inst::AddsExtReg64(r) => enc_add_sub_ext_reg(5u32, 0u32, r.rm.spec_index(), r.option as u32, r.imm3 as u32, r.rn.spec_index(), r.rd.spec_index()),
            AArch64Inst::SubExtReg64(r) => enc_add_sub_ext_reg(6u32, 0u32, r.rm.spec_index(), r.option as u32, r.imm3 as u32, r.rn.spec_index(), r.rd.spec_index()),
            AArch64Inst::SubsExtReg64(r) => enc_add_sub_ext_reg(7u32, 0u32, r.rm.spec_index(), r.option as u32, r.imm3 as u32, r.rn.spec_index(), r.rd.spec_index()),
            AArch64Inst::CcmnRegVar32(r) => enc_cond_compare_reg(0u32, 0u32, 1u32, r.rm.spec_index(), r.cond as u32, 0u32, r.rn.spec_index(), 0u32, r.nzcv as u32),
            AArch64Inst::CcmpRegVar32(r) => enc_cond_compare_reg(0u32, 1u32, 1u32, r.rm.spec_index(), r.cond as u32, 0u32, r.rn.spec_index(), 0u32, r.nzcv as u32),
            AArch64Inst::CcmnRegVar64(r) => enc_cond_compare_reg(1u32, 0u32, 1u32, r.rm.spec_index(), r.cond as u32, 0u32, r.rn.spec_index(), 0u32, r.nzcv as u32),
            AArch64Inst::CcmpRegVar64(r) => enc_cond_compare_reg(1u32, 1u32, 1u32, r.rm.spec_index(), r.cond as u32, 0u32, r.rn.spec_index(), 0u32, r.nzcv as u32),
            AArch64Inst::CcmnImmVar32(r) => enc_cond_compare_imm(0u32, 0u32, 1u32, r.imm5 as u32, r.cond as u32, 0u32, r.rn.spec_index(), 0u32, r.nzcv as u32),
            AArch64Inst::CcmpImmVar32(r) => enc_cond_compare_imm(0u32, 1u32, 1u32, r.imm5 as u32, r.cond as u32, 0u32, r.rn.spec_index(), 0u32, r.nzcv as u32),
            AArch64Inst::CcmnImmVar64(r) => enc_cond_compare_imm(1u32, 0u32, 1u32, r.imm5 as u32, r.cond as u32, 0u32, r.rn.spec_index(), 0u32, r.nzcv as u32),
            AArch64Inst::CcmpImmVar64(r) => enc_cond_compare_imm(1u32, 1u32, 1u32, r.imm5 as u32, r.cond as u32, 0u32, r.rn.spec_index(), 0u32, r.nzcv as u32),
            AArch64Inst::Csel32(r) => enc_cond_sel(0u32, 0u32, 0u32, r.rm.spec_index(), r.cond as u32, 0u32, r.rn.spec_index(), r.rd.spec_index()),
            AArch64Inst::Csinc32(r) => enc_cond_sel(0u32, 0u32, 0u32, r.rm.spec_index(), r.cond as u32, 1u32, r.rn.spec_index(), r.rd.spec_index()),
            AArch64Inst::Csinv32(r) => enc_cond_sel(0u32, 1u32, 0u32, r.rm.spec_index(), r.cond as u32, 0u32, r.rn.spec_index(), r.rd.spec_index()),
            AArch64Inst::Csneg32(r) => enc_cond_sel(0u32, 1u32, 0u32, r.rm.spec_index(), r.cond as u32, 1u32, r.rn.spec_index(), r.rd.spec_index()),
            AArch64Inst::Csel64(r) => enc_cond_sel(1u32, 0u32, 0u32, r.rm.spec_index(), r.cond as u32, 0u32, r.rn.spec_index(), r.rd.spec_index()),
            AArch64Inst::Csinc64(r) => enc_cond_sel(1u32, 0u32, 0u32, r.rm.spec_index(), r.cond as u32, 1u32, r.rn.spec_index(), r.rd.spec_index()),
            AArch64Inst::Csinv64(r) => enc_cond_sel(1u32, 1u32, 0u32, r.rm.spec_index(), r.cond as u32, 0u32, r.rn.spec_index(), r.rd.spec_index()),
            AArch64Inst::Csneg64(r) => enc_cond_sel(1u32, 1u32, 0u32, r.rm.spec_index(), r.cond as u32, 1u32, r.rn.spec_index(), r.rd.spec_index()),
            AArch64Inst::Madd32(r) => enc_data_proccessing_3src(0u32, 0u32, 0u32, r.rm.spec_index(), 0u32, r.ra.spec_index(), r.rn.spec_index(), r.rd.spec_index()),
            AArch64Inst::Msub32(r) => enc_data_proccessing_3src(0u32, 0u32, 0u32, r.rm.spec_index(), 1u32, r.ra.spec_index(), r.rn.spec_index(), r.rd.spec_index()),
            AArch64Inst::Madd64(r) => enc_data_proccessing_3src(1u32, 0u32, 0u32, r.rm.spec_index(), 0u32, r.ra.spec_index(), r.rn.spec_index(), r.rd.spec_index()),
            AArch64Inst::Msub64(r) => enc_data_proccessing_3src(1u32, 0u32, 0u32, r.rm.spec_index(), 1u32, r.ra.spec_index(), r.rn.spec_index(), r.rd.spec_index()),
            AArch64Inst::Smaddl(r) => enc_data_proccessing_3src(1u32, 0u32, 1u32, r.rm.spec_index(), 0u32, r.ra.spec_index(), r.rn.spec_index(), r.rd.spec_index()),
            AArch64Inst::Smsubl(r) => enc_data_proccessing_3src(1u32, 0u32, 1u32, r.rm.spec_index(), 1u32, r.ra.spec_index(), r.rn.spec_index(), r.rd.spec_index()),
            AArch64Inst::Smulh(r) => enc_data_proccessing_3src(1u32, 0u32, 2u32, r.rm.spec_index(), 0u32, r.ra.spec_index(), r.rn.spec_index(), r.rd.spec_index()),
            AArch64Inst::Umaddl(r) => enc_data_proccessing_3src(1u32, 0u32, 5u32, r.rm.spec_index(), 0u32, r.ra.spec_index(), r.rn.spec_index(), r.rd.spec_index()),
            AArch64Inst::Umsubl(r) => enc_data_proccessing_3src(1u32, 0u32, 5u32, r.rm.spec_index(), 1u32, r.ra.spec_index(), r.rn.spec_index(), r.rd.spec_index()),
            AArch64Inst::Umulh(r) => enc_data_proccessing_3src(1u32, 0u32, 7u32, r.rm.spec_index(), 0u32, r.ra.spec_index(), r.rn.spec_index(), r.rd.spec_index()),
            AArch64Inst::FmAddSinglePrecision(r) => enc_fp_data_processing_3src(0u32, 0u32, 0u32, 0u32, r.rm.spec_index(), 0u32, r.ra.spec_index(), r.rn.spec_index(), r.rd.spec_index()),
            AArch64Inst::FmSubSinglePrecision(r) => enc_fp_data_processing_3src(0u32, 0u32, 0u32, 0u32, r.rm.spec_index(), 1u32, r.ra.spec_index(), r.rn.spec_index(), r.rd.spec_index()),
            AArch64Inst::FnmAddSinglePrecision(r) => enc_fp_data_processing_3src(0u32, 0u32, 0u32, 1u32, r.rm.spec_index(), 0u32, r.ra.spec_index(), r.rn.spec_index(), r.rd.spec_index()),
            AArch64Inst::FnmSubSinglePrecision(r) => enc_fp_data_processing_3src(0u32, 0u32, 0u32, 1u32, r.rm.spec_index(), 1u32, r.ra.spec_index(), r.rn.spec_index(), r.rd.spec_index()),
            AArch64Inst::FmAddDoublePrecision(r) => enc_fp_data_processing_3src(0u32, 0u32, 1u32, 0u32, r.rm.spec_index(), 0u32, r.ra.spec_index(), r.rn.spec_index(), r.rd.spec_index()),
            AArch64Inst::FmSubDoublePrecision(r) => enc_fp_data_processing_3src(0u32, 0u32, 1u32, 0u32, r.rm.spec_index(), 1u32, r.ra.spec_index(), r.rn.spec_index(), r.rd.spec_index()),
            AArch64Inst::FnmAddDoublePrecision(r) => enc_fp_data_processing_3src(0u32, 0u32, 1u32, 1u32, r.rm.spec_index(), 0u32, r.ra.spec_index(), r.rn.spec_index(), r.rd.spec_index()),
            AArch64Inst::FnmSubDoublePrecision(r) => enc_fp_data_processing_3src(0u32, 0u32, 1u32, 1u32, r.rm.spec_index(), 1u32, r.ra.spec_index(), r.rn.spec_index(), r.rd.spec_index()),
            AArch64Inst::FmAddHalfPrecision(r) => enc_fp_data_processing_3src(0u32, 0u32, 3u32, 0u32, r.rm.spec_index(), 0u32, r.ra.spec_index(), r.rn.spec_index(), r.rd.spec_index()),
            AArch64Inst::FmSubHalfPrecision(r) => enc_fp_data_processing_3src(0u32, 0u32, 3u32, 0u32, r.rm.spec_index(), 1u32, r.ra.spec_index(), r.rn.spec_index(), r.rd.spec_index()),
            AArch64Inst::FnmAddHalfPrecision(r) => enc_fp_data_processing_3src(0u32, 0u32, 3u32, 1u32, r.rm.spec_index(), 0u32, r.ra.spec_index(), r.rn.spec_index(), r.rd.spec_index()),
            AArch64Inst::FnmSubHalfPrecision(r) => enc_fp_data_processing_3src(0u32, 0u32, 3u32, 1u32, r.rm.spec_index(), 1u32, r.ra.spec_index(), r.rn.spec_index(), r.rd.spec_index()),
            AArch64Inst::Clrex(r) => enc_barriers(r.crm as u32, 2u32, 31u32),
            AArch64Inst::DsbEncoding(r) => enc_barriers(r.crm as u32, 4u32, 31u32),
            AArch64Inst::Dmb(r) => enc_barriers(r.crm as u32, 5u32, 31u32),
            AArch64Inst::Isb(r) => enc_barriers(r.crm as u32, 6u32, 31u32),
            AArch64Inst::LdrLitVar32(r) => enc_load_reg_literal(0u32, 0u32, r.imm19 as u32, r.rt.spec_index()),
            AArch64Inst::LdrLitSimdFPVar32(r) => enc_load_reg_literal(0u32, 1u32, r.imm19 as u32, r.rt.spec_index()),
            AArch64Inst::LdrLitVar64(r) => enc_load_reg_literal(1u32, 0u32, r.imm19 as u32, r.rt.spec_index()),
            AArch64Inst::LdrLitSimdFPVar64(r) => enc_load_reg_literal(1u32, 1u32, r.imm19 as u32, r.rt.spec_index()),
            AArch64Inst::LdrswLit(r) => enc_load_reg_literal(2u32, 0u32, r.imm19 as u32, r.rt.spec_index()),
            AArch64Inst::LdrLitSimdFPVar128(r) => enc_load_reg_literal(2u32, 1u32, r.imm19 as u32, r.rt.spec_index()),
            AArch64Inst::PrfmLit(r) => enc_load_reg_literal(3u32, 0u32, r.imm19 as u32, r.rt.spec_index()),
            AArch64Inst::Stxrb(r) => enc_load_store_exclusive(0u32, 0u32, r.rs.spec_index(), 0u32, r.rt2 as u32, r.rn.spec_index(), r.rt.spec_index()),
            AArch64Inst::Ldxrb(r) => enc_load_store_exclusive(0u32, 1u32, r.rs.spec_index(), 0u32, r.rt2 as u32, r.rn.spec_index(), r.rt.spec_index()),
            AArch64Inst::Stxrh(r) => enc_load_store_exclusive(1u32, 0u32, r.rs.spec_index(), 0u32, r.rt2 as u32, r.rn.spec_index(), r.rt.spec_index()),
            AArch64Inst::Ldxrh(r) => enc_load_store_exclusive(1u32, 1u32, r.rs.spec_index(), 0u32, r.rt2 as u32, r.rn.spec_index(), r.rt.spec_index()),
            AArch64Inst::StxrVar32(r) => enc_load_store_exclusive(2u32, 0u32, r.rs.spec_index(), 0u32, r.rt2 as u32, r.rn.spec_index(), r.rt.spec_index()),
            AArch64Inst::LdxrVar32(r) => enc_load_store_exclusive(2u32, 1u32, r.rs.spec_index(), 0u32, r.rt2 as u32, r.rn.spec_index(), r.rt.spec_index()),
            AArch64Inst::StxrVar64(r) => enc_load_store_exclusive(3u32, 0u32, r.rs.spec_index(), 0u32, r.rt2 as u32, r.rn.spec_index(), r.rt.spec_index()),
            AArch64Inst::LdxrVar64(r) => enc_load_store_exclusive(3u32, 1u32, r.rs.spec_index(), 0u32, r.rt2 as u32, r.rn.spec_index(), r.rt.spec_index()),
            AArch64Inst::Stlxrb(r) => enc_load_store_exclusive(0u32, 0u32, r.rs.spec_index(), 1u32, r.rt2 as u32, r.rn.spec_index(), r.rt.spec_index()),
            AArch64Inst::Ldaxrb(r) => enc_load_store_exclusive(0u32, 1u32, r.rs.spec_index(), 1u32, r.rt2 as u32, r.rn.spec_index(), r.rt.spec_index()),
            AArch64Inst::Stlxrh(r) => enc_load_store_exclusive(1u32, 0u32, r.rs.spec_index(), 1u32, r.rt2 as u32, r.rn.spec_index(), r.rt.spec_index()),
            AArch64Inst::Ldaxrh(r) => enc_load_store_exclusive(1u32, 1u32, r.rs.spec_index(), 1u32, r.rt2 as u32, r.rn.spec_index(), r.rt.spec_index()),
            AArch64Inst::StlxrVar32(r) => enc_load_store_exclusive(2u32, 0u32, r.rs.spec_index(), 1u32, r.rt2 as u32, r.rn.spec_index(), r.rt.spec_index()),
            AArch64Inst::LdaxrVar32(r) => enc_load_store_exclusive(2u32, 1u32, r.rs.spec_index(), 1u32, r.rt2 as u32, r.rn.spec_index(), r.rt.spec_index()),
            AArch64Inst::StlxrVar64(r) => enc_load_store_exclusive(3u32, 0u32, r.rs.spec_index(), 1u32, r.rt2 as u32, r.rn.spec_index(), r.rt.spec_index()),
            AArch64Inst::LdaxrVar64(r) => enc_load_store_exclusive(3u32, 1u32, r.rs.spec_index(), 1u32, r.rt2 as u32, r.rn.spec_index(), r.rt.spec_index()),
            AArch64Inst::Stlrb(r) => enc_load_store_ordered(0u32, 0u32, r.rs.spec_index(), 1u32, r.rt2 as u32, r.rn.spec_index(), r.rt.spec_index()),
            AArch64Inst::Ldarb(r) => enc_load_store_ordered(0u32, 1u32, r.rs.spec_index(), 1u32, r.rt2 as u32, r.rn.spec_index(), r.rt.spec_index()),
            AArch64Inst::Stlrh(r) => enc_load_store_ordered(1u32, 0u32, r.rs.spec_index(), 1u32, r.rt2 as u32, r.rn.spec_index(), r.rt.spec_index()),
            AArch64Inst::Ldarh(r) => enc_load_store_ordered(1u32, 1u32, r.rs.spec_index(), 1u32, r.rt2 as u32, r.rn.spec_index(), r.rt.spec_index()),
            AArch64Inst::StlrVar32(r) => enc_load_store_ordered(2u32, 0u32, r.rs.spec_index(), 1u32, r.rt2 as u32, r.rn.spec_index(), r.rt.spec_index()),
            AArch64Inst::LdarVar32(r) => enc_load_store_ordered(2u32, 1u32, r.rs.spec_index(), 1u32, r.rt2 as u32, r.rn.spec_index(), r.rt.spec_index()),
            AArch64Inst::StlrVar64(r) => enc_load_store_ordered(3u32, 0u32, r.rs.spec_index(), 1u32, r.rt2 as u32, r.rn.spec_index(), r.rt.spec_index()),
            AArch64Inst::LdarVar64(r) => enc_load_store_ordered(3u32, 1u32, r.rs.spec_index(), 1u32, r.rt2 as u32, r.rn.spec_index(), r.rt.spec_index()),
            AArch64Inst::AdcVar32(r) => enc_add_sub_with_carry(0u32, r.rm.spec_index(), r.rn.spec_index(), r.rd.spec_index()),
            AArch64Inst::AdcsVar32(r) => enc_add_sub_with_carry(1u32, r.rm.spec_index(), r.rn.spec_index(), r.rd.spec_index()),
            AArch64Inst::SbcVar32(r) => enc_add_sub_with_carry(2u32, r.rm.spec_index(), r.rn.spec_index(), r.rd.spec_index()),
            AArch64Inst::SbcsVar32(r) => enc_add_sub_with_carry(3u32, r.rm.spec_index(), r.rn.spec_index(), r.rd.spec_index()),
            AArch64Inst::AdcVar64(r) => enc_add_sub_with_carry(4u32, r.rm.spec_index(), r.rn.spec_index(), r.rd.spec_index()),
            AArch64Inst::AdcsVar64(r) => enc_add_sub_with_carry(5u32, r.rm.spec_index(), r.rn.spec_index(), r.rd.spec_index()),
            AArch64Inst::SbcVar64(r) => enc_add_sub_with_carry(6u32, r.rm.spec_index(), r.rn.spec_index(), r.rd.spec_index()),
            AArch64Inst::SbcsVar64(r) => enc_add_sub_with_carry(7u32, r.rm.spec_index(), r.rn.spec_index(), r.rd.spec_index()),
            AArch64Inst::RbitVar32(r) => enc_data_proc_1src(0u32, 0u32, 0u32, 0u32, r.rn.spec_index(), r.rd.spec_index()),
            AArch64Inst::Rev16Var32(r) => enc_data_proc_1src(0u32, 0u32, 0u32, 1u32, r.rn.spec_index(), r.rd.spec_index()),
            AArch64Inst::RevVar32(r) => enc_data_proc_1src(0u32, 0u32, 0u32, 2u32, r.rn.spec_index(), r.rd.spec_index()),
            AArch64Inst::ClzVar32(r) => enc_data_proc_1src(0u32, 0u32, 0u32, 4u32, r.rn.spec_index(), r.rd.spec_index()),
            AArch64Inst::ClsVar32(r) => enc_data_proc_1src(0u32, 0u32, 0u32, 5u32, r.rn.spec_index(), r.rd.spec_index()),
            AArch64Inst::RbitVar64(r) => enc_data_proc_1src(1u32, 0u32, 0u32, 0u32, r.rn.spec_index(), r.rd.spec_index()),
            AArch64Inst::Rev16Var64(r) => enc_data_proc_1src(1u32, 0u32, 0u32, 1u32, r.rn.spec_index(), r.rd.spec_index()),
            AArch64Inst::Rev32(r) => enc_data_proc_1src(1u32, 0u32, 0u32, 2u32, r.rn.spec_index(), r.rd.spec_index()),
            AArch64Inst::RevVar64(r) => enc_data_proc_1src(1u32, 0u32, 0u32, 3u32, r.rn.spec_index(), r.rd.spec_index()),
            AArch64Inst::ClzVar64(r) => enc_data_proc_1src(1u32, 0u32, 0u32, 4u32, r.rn.spec_index(), r.rd.spec_index()),
            AArch64Inst::ClsVar64(r) => enc_data_proc_1src(1u32, 0u32, 0u32, 5u32, r.rn.spec_index(), r.rd.spec_index()),
            AArch64Inst::Casb(r) => enc_compare_and_swap(0u32, 0u32, r.rs.spec_index(), 0u32, 31u32, r.rn.spec_index(), r.rt.spec_index()),
            AArch64Inst::Caslb(r) => enc_compare_and_swap(0u32, 0u32, r.rs.spec_index(), 1u32, 31u32, r.rn.spec_index(), r.rt.spec_index()),
            AArch64Inst::Casab(r) => enc_compare_and_swap(0u32, 1u32, r.rs.spec_index(), 0u32, 31u32, r.rn.spec_index(), r.rt.spec_index()),
            AArch64Inst::Casalb(r) => enc_compare_and_swap(0u32, 1u32, r.rs.spec_index(), 1u32, 31u32, r.rn.spec_index(), r.rt.spec_index()),
            AArch64Inst::Cash(r) => enc_compare_and_swap(1u32, 0u32, r.rs.spec_index(), 0u32, 31u32, r.rn.spec_index(), r.rt.spec_index()),
            AArch64Inst::Caslh(r) => enc_compare_and_swap(1u32, 0u32, r.rs.spec_index(), 1u32, 31u32, r.rn.spec_index(), r.rt.spec_index()),
            AArch64Inst::Casah(r) => enc_compare_and_swap(1u32, 1u32, r.rs.spec_index(), 0u32, 31u32, r.rn.spec_index(), r.rt.spec_index()),
            AArch64Inst::Casalh(r) => enc_compare_and_swap(1u32, 1u32, r.rs.spec_index(), 1u32, 31u32, r.rn.spec_index(), r.rt.spec_index()),
            AArch64Inst::CasVar32(r) => enc_compare_and_swap(2u32, 0u32, r.rs.spec_index(), 0u32, 31u32, r.rn.spec_index(), r.rt.spec_index()),
            AArch64Inst::CaslVar32(r) => enc_compare_and_swap(2u32, 0u32, r.rs.spec_index(), 1u32, 31u32, r.rn.spec_index(), r.rt.spec_index()),
            AArch64Inst::CasaVar32(r) => enc_compare_and_swap(2u32, 1u32, r.rs.spec_index(), 0u32, 31u32, r.rn.spec_index(), r.rt.spec_index()),
            AArch64Inst::CasalVar32(r) => enc_compare_and_swap(2u32, 1u32, r.rs.spec_index(), 1u32, 31u32, r.rn.spec_index(), r.rt.spec_index()),
            AArch64Inst::CasVar64(r) => enc_compare_and_swap(3u32, 0u32, r.rs.spec_index(), 0u32, 31u32, r.rn.spec_index(), r.rt.spec_index()),
            AArch64Inst::CaslVar64(r) => enc_compare_and_swap(3u32, 0u32, r.rs.spec_index(), 1u32, 31u32, r.rn.spec_index(), r.rt.spec_index()),
            AArch64Inst::CasaVar64(r) => enc_compare_and_swap(3u32, 1u32, r.rs.spec_index(), 0u32, 31u32, r.rn.spec_index(), r.rt.spec_index()),
            AArch64Inst::CasalVar64(r) => enc_compare_and_swap(3u32, 1u32, r.rs.spec_index(), 1u32, 31u32, r.rn.spec_index(), r.rt.spec_index()),
            AArch64Inst::CaspVar32(r) => enc_compare_and_swap_pair(0u32, 0u32, r.rs as u32, 0u32, 31u32, r.rn.spec_index(), r.rt as u32),
            AArch64Inst::CasplVar32(r) => enc_compare_and_swap_pair(0u32, 0u32, r.rs as u32, 1u32, 31u32, r.rn.spec_index(), r.rt as u32),
            AArch64Inst::CaspaVar32(r) => enc_compare_and_swap_pair(0u32, 1u32, r.rs as u32, 0u32, 31u32, r.rn.spec_index(), r.rt as u32),
            AArch64Inst::CaspalVar32(r) => enc_compare_and_swap_pair(0u32, 1u32, r.rs as u32, 1u32, 31u32, r.rn.spec_index(), r.rt as u32),
            AArch64Inst::CaspVar64(r) => enc_compare_and_swap_pair(1u32, 0u32, r.rs as u32, 0u32, 31u32, r.rn.spec_index(), r.rt as u32),
            AArch64Inst::CasplVar64(r) => enc_compare_and_swap_pair(1u32, 0u32, r.rs as u32, 1u32, 31u32, r.rn.spec_index(), r.rt as u32),
            AArch64Inst::CaspaVar64(r) => enc_compare_and_swap_pair(1u32, 1u32, r.rs as u32, 0u32, 31u32, r.rn.spec_index(), r.rt as u32),
            AArch64Inst::CaspalVar64(r) => enc_compare_and_swap_pair(1u32, 1u32, r.rs as u32, 1u32, 31u32, r.rn.spec_index(), r.rt as u32),
            AArch64Inst::StnpVar32(r) => enc_load_store_no_alloc_pair(0u32, 0u32, 0u32, r.imm7 as u32, r.rt2.spec_index(), r.rn.spec_index(), r.rt.spec_index()),
            AArch64Inst::LdnpVar32(r) => enc_load_store_no_alloc_pair(0u32, 0u32, 1u32, r.imm7 as u32, r.rt2.spec_index(), r.rn.spec_index(), r.rt.spec_index()),
            AArch64Inst::StnpSimdFPVar32(r) => enc_load_store_no_alloc_pair(0u32, 1u32, 0u32, r.imm7 as u32, r.rt2.spec_index(), r.rn.spec_index(), r.rt.spec_index()),
            AArch64Inst::LdnpSimdFPVar32(r) => enc_load_store_no_alloc_pair(0u32, 1u32, 1u32, r.imm7 as u32, r.rt2.spec_index(), r.rn.spec_index(), r.rt.spec_index()),
            AArch64Inst::StnpSimdFPVar64(r) => enc_load_store_no_alloc_pair(1u32, 1u32, 0u32, r.imm7 as u32, r.rt2.spec_index(), r.rn.spec_index(), r.rt.spec_index()),
            AArch64Inst::LdnpSimdFPVar64(r) => enc_load_store_no_alloc_pair(1u32, 1u32, 1u32, r.imm7 as u32, r.rt2.spec_index(), r.rn.spec_index(), r.rt.spec_index()),
            AArch64Inst::StnpVar64(r) => enc_load_store_no_alloc_pair(2u32, 0u32, 0u32, r.imm7 as u32, r.rt2.spec_index(), r.rn.spec_index(), r.rt.spec_index()),
            AArch64Inst::LdnpVar64(r) => enc_load_store_no_alloc_pair(2u32, 0u32, 1u32, r.imm7 as u32, r.rt2.spec_index(), r.rn.spec_index(), r.rt.spec_index()),
            AArch64Inst::StnpSimdFPVar128(r) => enc_load_store_no_alloc_pair(2u32, 1u32, 0u32, r.imm7 as u32, r.rt2.spec_index(), r.rn.spec_index(), r.rt.spec_index()),
            AArch64Inst::LdnpSimdFPVar128(r) => enc_load_store_no_alloc_pair(2u32, 1u32, 1u32, r.imm7 as u32, r.rt2.spec_index(), r.rn.spec_index(), r.rt.spec_index()),
            AArch64Inst::MsrReg(r) => enc_system_register_move(0u32, r.o0 as u32, r.op1 as u32, r.crn as u32, r.crm as u32, r.op2 as u32, r.rt.spec_index()),
            AArch64Inst::Mrs(r) => enc_system_register_move(1u32, r.o0 as u32, r.op1 as u32, r.crn as u32, r.crm as u32, r.op2 as u32, r.rt.spec_index()),
            AArch64Inst::Fcmp(r) => enc_fp_compare(0u32, 0u32, r.ptype as u32, r.rm.spec_index(), 0u32, r.rn.spec_index(), r.opcode2 as u32),
            AArch64Inst::Fcmpe(r) => enc_fp_compare(0u32, 0u32, r.ptype as u32, r.rm.spec_index(), 0u32, r.rn.spec_index(), r.opcode2 as u32),
            AArch64Inst::FmovScalarImmSinglePrecisionVar(r) => enc_fp_immediate(0u32, 0u32, 0u32, r.imm8 as u32, 0u32, r.rd.spec_index()),
            AArch64Inst::FmovScalarImmDoublePrecisionVar(r) => enc_fp_immediate(0u32, 0u32, 1u32, r.imm8 as u32, 0u32, r.rd.spec_index()),
        }
    }

    /// Re-encodes this instruction into its 32-bit code word.
    pub fn encode(&self) -> (r: u32)
        ensures
            r == self.spec_encode(),
    {
        match self {
            AArch64Inst::Adr(r) => encode_pc_rel_addressing(0u32, r.immlo as u32, r.immhi as u32, r.rd.index()),
            AArch64Inst::Adrp(r) => encode_pc_rel_addressing(1u32, r.immlo as u32, r.immhi as u32, r.rd.index()),
            AArch64Inst::AddImm32(r) => encode_add_sub_immediate(0u32, r.sh as u32, r.imm12 as u32, r.rn.index(), r.rd.index()),
            AArch64Inst::AddsImm32(r) => encode_add_sub_immediate(1u32, r.sh as u32, r.imm12 as u32, r.rn.index(), r.rd.index()),
            AArch64Inst::SubImm32(r) => encode_add_sub_immediate(2u32, r.sh as u32, r.imm12 as u32, r.rn.index(), r.rd.index()),
            AArch64Inst::SubsImm32(r) => encode_add_sub_immediate(3u32, r.sh as u32, r.imm12 as u32, r.rn.index(), r.rd.index()),
            AArch64Inst::AddImm64(r) => encode_add_sub_immediate(4u32, r.sh as u32, r.imm12 as u32, r.rn.index(), r.rd.index()),
            AArch64Inst::AddsImm64(r) => encode_add_sub_immediate(5u32, r.sh as u32, r.imm12 as u32, r.rn.index(), r.rd.index()),
            AArch64Inst::SubImm64(r) => encode_add_sub_immediate(6u32, r.sh as u32, r.imm12 as u32, r.rn.index(), r.rd.index()),
            AArch64Inst::SubsImm64(r) => encode_add_sub_immediate(7u32, r.sh as u32, r.imm12 as u32, r.rn.index(), r.rd.index()),
            AArch64Inst::Addg(r) => encode_add_sub_imm_with_tags(4u32, 0u32, r.uimm6 as u32, r.op3 as u32, r.uimm4 as u32, r.rn.index(), r.rd.index()),
            AArch64Inst::Subg(r) => encode_add_sub_imm_with_tags(6u32, 0u32, r.uimm6 as u32, r.op3 as u32, r.uimm4 as u32, r.rn.index(), r.rd.index()),
            AArch64Inst::AndImm32(r) => encode_logical_imm(0u32, 0u32, r.n as u32, r.immr as u32, r.imms as u32, r.rn.index(), r.rd.index()),
            AArch64Inst::OrrImm32(r) => encode_logical_imm(0u32, 1u32, r.n as u32, r.immr as u32, r.imms as u32, r.rn.index(), r.rd.index()),
            AArch64Inst::EorImm32(r) => encode_logical_imm(0u32, 2u32, r.n as u32, r.immr as u32, r.imms as u32, r.rn.index(), r.rd.index()),
            AArch64Inst::AndsImm32(r) => encode_logical_imm(0u32, 3u32, r.n as u32, r.immr as u32, r.imms as u32, r.rn.index(), r.rd.index()),
            AArch64Inst::AndImm64(r) => encode_logical_imm(1u32, 0u32, r.n as u32, r.immr as u32, r.imms as u32, r.rn.index(), r.rd.index()),
            AArch64Inst::OrrImm64(r) => encode_logical_imm(1u32, 1u32, r.n as u32, r.immr as u32, r.imms as u32, r.rn.index(), r.rd.index()),
            AArch64Inst::EorImm64(r) => encode_logical_imm(1u32, 2u32, r.n as u32, r.immr as u32, r.imms as u32, r.rn.index(), r.rd.index()),
            AArch64Inst::AndsImm64(r) => encode_logical_imm(1u32, 3u32, r.n as u32, r.immr as u32, r.imms as u32, r.rn.index(), r.rd.index()),
            AArch64Inst::MovnVar32(r) => encode_move_wide_imm(0u32, r.hw as u32, r.imm16 as u32, r.rd.index()),
            AArch64Inst::MovzVar32(r) => encode_move_wide_imm(2u32, r.hw as u32, r.imm16 as u32, r.rd.index()),
            AArch64Inst::MovkVar32(r) => encode_move_wide_imm(3u32, r.hw as u32, r.imm16 as u32, r.rd.index()),
            AArch64Inst::MovnVar64(r) => encode_move_wide_imm(4u32, r.hw as u32, r.imm16 as u32, r.rd.index()),
            AArch64Inst::MovzVar64(r) => encode_move_wide_imm(6u32, r.hw as u32, r.imm16 as u32, r.rd.index()),
            AArch64Inst::MovkVar64(r) => encode_move_wide_imm(7u32, r.hw as u32, r.imm16 as u32, r.rd.index()),
            AArch64Inst::Sbfm32(r) => encode_bitfield(0u32, 0u32, r.n as u32, r.immr as u32, r.imms as u32, r.rn.index(), r.rd.index()),
            AArch64Inst::Bfm32(r) => encode_bitfield(0u32, 1u32, r.n as u32, r.immr as u32, r.imms as u32, r.rn.index(), r.rd.index()),
            AArch64Inst::Ubfm32(r) => encode_bitfield(0u32, 2u32, r.n as u32, r.immr as u32, r.imms as u32, r.rn.index(), r.rd.index()),
            AArch64Inst::Sbfm64(r) => encode_bitfield(1u32, 0u32, r.n as u32, r.immr as u32, r.imms as u32, r.rn.index(), r.rd.index()),
            AArch64Inst::Bfm64(r) => encode_bitfield(1u32, 1u32, r.n as u32, r.immr as u32, r.imms as u32, r.rn.index(), r.rd.index()),
            AArch64Inst::Ubfm64(r) => encode_bitfield(1u32, 2u32, r.n as u32, r.immr as u32, r.imms as u32, r.rn.index(), r.rd.index()),
            AArch64Inst::Extr32(r) => encode_extract(0u32, 0u32, 0u32, r.rm.index(), r.imms as u32, r.rn.index(), r.rd.index()),
            AArch64Inst::Extr64(r) => encode_extract(4u32, 1u32, 0u32, r.rm.index(), r.imms as u32, r.rn.index(), r.rd.index()),
            AArch64Inst::BCond(r) => encode_cond_branch_imm(0u32, r.imm19 as u32, 0u32, r.cond as u32),
            AArch64Inst::BcCond(r) => encode_cond_branch_imm(0u32, r.imm19 as u32, 1u32, r.cond as u32),
            AArch64Inst::Svc(r) => encode_exception_gen(0u32, r.imm16 as u32, 0u32, 1u32),
            AArch64Inst::Hvc(r) => encode_exception_gen(0u32, r.imm16 as u32, 0u32, 2u32),
            AArch64Inst::Smc(r) => encode_exception_gen(0u32, r.imm16 as u32, 0u32, 3u32),
            AArch64Inst::Brk(r) => encode_exception_gen(1u32, r.imm16 as u32, 0u32, 0u32),
            AArch64Inst::Hlt(r) => encode_exception_gen(2u32, r.imm16 as u32, 0u32, 0u32),
            AArch64Inst::TCancle(r) => encode_exception_gen(3u32, r.imm16 as u32, 0u32, 0u32),
            AArch64Inst::DcpS1(r) => encode_exception_gen(5u32, r.imm16 as u32, 0u32, 1u32),
            AArch64Inst::DcpS2(r) => encode_exception_gen(5u32, r.imm16 as u32, 0u32, 2u32),
            AArch64Inst::DcpS3(r) => encode_exception_gen(5u32, r.imm16 as u32, 0u32, 3u32),
            AArch64Inst::Nop => encode_hints(0u32, 0u32),
            AArch64Inst::Yield => encode_hints(0u32, 1u32),
            AArch64Inst::Wfe => encode_hints(0u32, 2u32),
            AArch64Inst::Wfi => encode_hints(0u32, 3u32),
            AArch64Inst::Sev => encode_hints(0u32, 4u32),
            AArch64Inst::Sevl => encode_hints(0u32, 5u32),
            AArch64Inst::Xpaclri => encode_hints(0u32, 7u32),
            AArch64Inst::Pacia1716Var => encode_hints(1u32, 0u32),
            AArch64Inst::Pacib1716Var => encode_hints(1u32, 2u32),
            AArch64Inst::Autia1716Var => encode_hints(1u32, 4u32),
            AArch64Inst::Autib1716Var => encode_hints(1u32, 6u32),
            AArch64Inst::PaciazVar => encode_hints(3u32, 0u32),
            AArch64Inst::PaciaspVar => encode_hints(3u32, 1u32),
            AArch64Inst::PacibzVar => encode_hints(3u32, 2u32),
            AArch64Inst::PacibspVar => encode_hints(3u32, 3u32),
            AArch64Inst::AutiazVar => encode_hints(3u32, 4u32),
            AArch64Inst::AutiaspVar => encode_hints(3u32, 5u32),
            AArch64Inst::AutibzVar => encode_hints(3u32, 6u32),
            AArch64Inst::AutibspVar => encode_hints(3u32, 7u32),
            AArch64Inst::Hint(r) => encode_hints(r.crm as u32, r.op2 as u32),
            AArch64Inst::Br(r) => encode_uncond_branch_reg(0u32, 31u32, 0u32, r.rn.index(), 0u32),
            AArch64Inst::Blr(r) => encode_uncond_branch_reg(1u32, 31u32, 0u32, r.rn.index(), 0u32),
            AArch64Inst::Ret(r) => encode_uncond_branch_reg(2u32, 31u32, 0u32, r.rn.index(), 0u32),
            AArch64Inst::ERet(r) => encode_uncond_branch_reg(4u32, 31u32, 0u32, r.rn.index(), 0u32),
            AArch64Inst::Drps(r) => encode_uncond_branch_reg(5u32, 31u32, 0u32, r.rn.index(), 0u32),
            AArch64Inst::BImm(r) => encode_uncond_branch_imm(0u32, r.imm26 as u32),
            AArch64Inst::BlImm(r) => encode_uncond_branch_imm(1u32, r.imm26 as u32),
            AArch64Inst::Cbz32(r) => encode_cmp_and_branch_imm(0u32, 0u32, r.imm19 as u32, r.rt.index()),
            AArch64Inst::Cbnz32(r) => encode_cmp_and_branch_imm(0u32, 1u32, r.imm19 as u32, r.rt.index()),
            AArch64Inst::Cbz64(r) => encode_cmp_and_branch_imm(1u32, 0u32, r.imm19 as u32, r.rt.index()),
            AArch64Inst::Cbnz64(r) => encode_cmp_and_branch_imm(1u32, 1u32, r.imm19 as u32, r.rt.index()),
            AArch64Inst::Tbz(r) => encode_test_and_branch_imm(r.b5 as u32, 0u32, r.b40 as u32, r.imm14 as u32, r.rt.index()),
            AArch64Inst::Tbnz(r) => encode_test_and_branch_imm(r.b5 as u32, 1u32, r.b40 as u32, r.imm14 as u32, r.rt.index()),
            AArch64Inst::StrbImm(r) => encode_load_store_reg_unsigned_imm(0u32, 0u32, 0u32, r.imm12 as u32, r.rn.index(), r.rt.index()),
            AArch64Inst::LdrbImm(r) => encode_load_store_reg_unsigned_imm(0u32, 0u32, 1u32, r.imm12 as u32, r.rn.index(), r.rt.index()),
            AArch64Inst::LdrsbImm64(r) => encode_load_store_reg_unsigned_imm(0u32, 0u32, 2u32, r.imm12 as u32, r.rn.index(), r.rt.index()),
            AArch64Inst::LdrsbImm32(r) => encode_load_store_reg_unsigned_imm(0u32, 0u32, 3u32, r.imm12 as u32, r.rn.index(), r.rt.index()),
            AArch64Inst::StrImmSimdFP8(r) => encode_load_store_reg_unsigned_imm(0u32, 1u32, 0u32, r.imm12 as u32, r.rn.index(), r.rt.index()),
            AArch64Inst::LdrImmSimdFP8(r) => encode_load_store_reg_unsigned_imm(0u32, 1u32, 1u32, r.imm12 as u32, r.rn.index(), r.rt.index()),
            AArch64Inst::StrImmSimdFP128(r) => encode_load_store_reg_unsigned_imm(0u32, 1u32, 2u32, r.imm12 as u32, r.rn.index(), r.rt.index()),
            AArch64Inst::LdrImmSimdFP128(r) => encode_load_store_reg_unsigned_imm(0u32, 1u32, 3u32, r.imm12 as u32, r.rn.index(), r.rt.index()),
            AArch64Inst::StrhImm(r) => encode_load_store_reg_unsigned_imm(1u32, 0u32, 0u32, r.imm12 as u32, r.rn.index(), r.rt.index()),
            AArch64Inst::LdrhImm(r) => encode_load_store_reg_unsigned_imm(1u32, 0u32, 1u32, r.imm12 as u32, r.rn.index(), r.rt.index()),
            AArch64Inst::LdrshImm64(r) => encode_load_store_reg_unsigned_imm(1u32, 0u32, 2u32, r.imm12 as u32, r.rn.index(), r.rt.index()),
            AArch64Inst::LdrshImm32(r) => encode_load_store_reg_unsigned_imm(1u32, 0u32, 3u32, r.imm12 as u32, r.rn.index(), r.rt.index()),
            AArch64Inst::StrImmSimdFP16(r) => encode_load_store_reg_unsigned_imm(1u32, 1u32, 0u32, r.imm12 as u32, r.rn.index(), r.rt.index()),
            AArch64Inst::LdrImmSimdFP16(r) => encode_load_store_reg_unsigned_imm(1u32, 1u32, 1u32, r.imm12 as u32, r.rn.index(), r.rt.index()),
            AArch64Inst::StrImm32(r) => encode_load_store_reg_unsigned_imm(2u32, 0u32, 0u32, r.imm12 as u32, r.rn.index(), r.rt.index()),
            AArch64Inst::LdrImm32(r) => encode_load_store_reg_unsigned_imm(2u32, 0u32, 1u32, r.imm12 as u32, r.rn.index(), r.rt.index()),
            AArch64Inst::LdrswImm(r) => encode_load_store_reg_unsigned_imm(2u32, 0u32, 2u32, r.imm12 as u32, r.rn.index(), r.rt.index()),
            AArch64Inst::StrImmSimdFP32(r) => encode_load_store_reg_unsigned_imm(2u32, 1u32, 0u32, r.imm12 as u32, r.rn.index(), r.rt.index()),
            AArch64Inst::LdrImmSimdFP32(r) => encode_load_store_reg_unsigned_imm(2u32, 1u32, 1u32, r.imm12 as u32, r.rn.index(), r.rt.index()),
            AArch64Inst::StrImm64(r) => encode_load_store_reg_unsigned_imm(3u32, 0u32, 0u32, r.imm12 as u32, r.rn.index(), r.rt.index()),
            AArch64Inst::LdrImm64(r) => encode_load_store_reg_unsigned_imm(3u32, 0u32, 1u32, r.imm12 as u32, r.rn.index(), r.rt.index()),
            AArch64Inst::PrfmImm(r) => encode_load_store_reg_unsigned_imm(3u32, 0u32, 2u32, r.imm12 as u32, r.rn.index(), r.rt.index()),
            AArch64Inst::StrImmSimdFP64(r) => encode_load_store_reg_unsigned_imm(3u32, 1u32, 0u32, r.imm12 as u32, r.rn.index(), r.rt.index()),
            AArch64Inst::LdrImmSimdFP64(r) => encode_load_store_reg_unsigned_imm(3u32, 1u32, 1u32, r.imm12 as u32, r.rn.index(), r.rt.index()),
            AArch64Inst::StrbRegExtReg(r) => encode_load_store_reg_reg_offset(r.size as u32, 0u32, r.opc as u32, r.rm.index(), r.option as u32, r.s as u32, r.rn.index(), r.rt.index()),
            AArch64Inst::StrbRegShiftedReg(r) => encode_load_store_reg_reg_offset(r.size as u32, 0u32, r.opc as u32, r.rm.index(), r.option as u32, r.s as u32, r.rn.index(), r.rt.index()),
            AArch64Inst::LdrbRegExtReg(r) => encode_load_store_reg_reg_offset(r.size as u32, 0u32, r.opc as u32, r.rm.index(), r.option as u32, r.s as u32, r.rn.index(), r.rt.index()),
            AArch64Inst::LdrbRegShiftedReg(r) => encode_load_store_reg_reg_offset(r.size as u32, 0u32, r.opc as u32, r.rm.index(), r.option as u32, r.s as u32, r.rn.index(), r.rt.index()),
            AArch64Inst::LdrsbRegExtReg64(r) => encode_load_store_reg_reg_offset(r.size as u32, 0u32, r.opc as u32, r.rm.index(), r.option as u32, r.s as u32, r.rn.index(), r.rt.index()),
            AArch64Inst::LdrsbRegShiftedReg64(r) => encode_load_store_reg_reg_offset(r.size as u32, 0u32, r.opc as u32, r.rm.index(), r.option as u32, r.s as u32, r.rn.index(), r.rt.index()),
            AArch64Inst::LdrsbRegExtReg32(r) => encode_load_store_reg_reg_offset(r.size as u32, 0u32, r.opc as u32, r.rm.index(), r.option as u32, r.s as u32, r.rn.index(), r.rt.index()),
            AArch64Inst::LdrsbRegShiftedReg32(r) => encode_load_store_reg_reg_offset(r.size as u32, 0u32, r.opc as u32, r.rm.index(), r.option as u32, r.s as u32, r.rn.index(), r.rt.index()),
            AArch64Inst::StrRegSimdFP(r) => encode_load_store_reg_reg_offset(r.size as u32, 1u32, r.opc as u32, r.rm.index(), r.option as u32, r.s as u32, r.rn.index(), r.rt.index()),
            AArch64Inst::LdrRegSimdFP(r) => encode_load_store_reg_reg_offset(r.size as u32, 1u32, r.opc as u32, r.rm.index(), r.option as u32, r.s as u32, r.rn.index(), r.rt.index()),
            AArch64Inst::StrhReg(r) => encode_load_store_reg_reg_offset(r.size as u32, 0u32, r.opc as u32, r.rm.index(), r.option as u32, r.s as u32, r.rn.index(), r.rt.index()),
            AArch64Inst::LdrhReg(r) => encode_load_store_reg_reg_offset(r.size as u32, 0u32, r.opc as u32, r.rm.index(), r.option as u32, r.s as u32, r.rn.index(), r.rt.index()),
            AArch64Inst::LdrshReg64(r) => encode_load_store_reg_reg_offset(r.size as u32, 0u32, r.opc as u32, r.rm.index(), r.option as u32, r.s as u32, r.rn.index(), r.rt.index()),
            AArch64Inst::LdrshReg32(r) => encode_load_store_reg_reg_offset(r.size as u32, 0u32, r.opc as u32, r.rm.index(), r.option as u32, r.s as u32, r.rn.index(), r.rt.index()),
            AArch64Inst::StrReg32(r) => encode_load_store_reg_reg_offset(r.size as u32, 0u32, r.opc as u32, r.rm.index(), r.option as u32, r.s as u32, r.rn.index(), r.rt.index()),
            AArch64Inst::LdrReg32(r) => encode_load_store_reg_reg_offset(r.size as u32, 0u32, r.opc as u32, r.rm.index(), r.option as u32, r.s as u32, r.rn.index(), r.rt.index()),
            AArch64Inst::LdrswReg(r) => encode_load_store_reg_reg_offset(r.size as u32, 0u32, r.opc as u32, r.rm.index(), r.option as u32, r.s as u32, r.rn.index(), r.rt.index()),
            AArch64Inst::StrReg64(r) => encode_load_store_reg_reg_offset(r.size as u32, 0u32, r.opc as u32, r.rm.index(), r.option as u32, r.s as u32, r.rn.index(), r.rt.index()),
            AArch64Inst::LdrReg64(r) => encode_load_store_reg_reg_offset(r.size as u32, 0u32, r.opc as u32, r.rm.index(), r.option as u32, r.s as u32, r.rn.index(), r.rt.index()),
            AArch64Inst::PrfmReg(r) => encode_load_store_reg_reg_offset(r.size as u32, 0u32, r.opc as u32, r.rm.index(), r.option as u32, r.s as u32, r.rn.index(), r.rt.index()),
            AArch64Inst::StpVar32(r) => encode_load_store_reg_pair_offset(0u32, 0u32, r.idx as u32, 0u32, r.imm7 as u32, r.rt2.index(), r.rn.index(), r.rt.index()),
            AArch64Inst::LdpVar32(r) => encode_load_store_reg_pair_offset(0u32, 0u32, r.idx as u32, 1u32, r.imm7 as u32, r.rt2.index(), r.rn.index(), r.rt.index()),
            AArch64Inst::StpSimdFPVar32(r) => encode_load_store_reg_pair_offset(0u32, 1u32, r.idx as u32, 0u32, r.imm7 as u32, r.rt2.index(), r.rn.index(), r.rt.index()),
            AArch64Inst::LdpSimdFPVar32(r) => encode_load_store_reg_pair_offset(0u32, 1u32, r.idx as u32, 1u32, r.imm7 as u32, r.rt2.index(), r.rn.index(), r.rt.index()),
            AArch64Inst::Stgp(r) => encode_load_store_reg_pair_offset(1u32, 0u32, r.idx as u32, 0u32, r.imm7 as u32, r.rt2.index(), r.rn.index(), r.rt.index()),
            AArch64Inst::Ldpsw(r) => encode_load_store_reg_pair_offset(1u32, 0u32, r.idx as u32, 1u32, r.imm7 as u32, r.rt2.index(), r.rn.index(), r.rt.index()),
            AArch64Inst::StpSimdFPVar64(r) => encode_load_store_reg_pair_offset(1u32, 1u32, r.idx as u32, 0u32, r.imm7 as u32, r.rt2.index(), r.rn.index(), r.rt.index()),
            AArch64Inst::LdpSimdFPVar64(r) => encode_load_store_reg_pair_offset(1u32, 1u32, r.idx as u32, 1u32, r.imm7 as u32, r.rt2.index(), r.rn.index(), r.rt.index()),
            AArch64Inst::StpVar64(r) => encode_load_store_reg_pair_offset(2u32, 0u32, r.idx as u32, 0u32, r.imm7 as u32, r.rt2.index(), r.rn.index(), r.rt.index()),
            AArch64Inst::LdpVar64(r) => encode_load_store_reg_pair_offset(2u32, 0u32, r.idx as u32, 1u32, r.imm7 as u32, r.rt2.index(), r.rn.index(), r.rt.index()),
            AArch64Inst::StpSimdFpVar128(r) => encode_load_store_reg_pair_offset(2u32, 1u32, r.idx as u32, 0u32, r.imm7 as u32, r.rt2.index(), r.rn.index(), r.rt.index()),
            AArch64Inst::LdpSimdFpVar128(r) => encode_load_store_reg_pair_offset(2u32, 1u32, r.idx as u32, 1u32, r.imm7 as u32, r.rt2.index(), r.rn.index(), r.rt.index()),
            AArch64Inst::Sturb(r) => encode_load_store_reg_imm9(0u32, 0u32, 0u32, r.imm9 as u32, r.idx as u32, r.rn.index(), r.rt.index()),
            AArch64Inst::StrbIdx(r) => encode_load_store_reg_imm9(0u32, 0u32, 0u32, r.imm9 as u32, r.idx as u32, r.rn.index(), r.rt.index()),
            AArch64Inst::Ldurb(r) => encode_load_store_reg_imm9(0u32, 0u32, 1u32, r.imm9 as u32, r.idx as u32, r.rn.index(), r.rt.index()),
            AArch64Inst::LdrbIdx(r) => encode_load_store_reg_imm9(0u32, 0u32, 1u32, r.imm9 as u32, r.idx as u32, r.rn.index(), r.rt.index()),
            AArch64Inst::Ldursb64(r) => encode_load_store_reg_imm9(0u32, 0u32, 2u32, r.imm9 as u32, r.idx as u32, r.rn.index(), r.rt.index()),
            AArch64Inst::LdrsbIdx64(r) => encode_load_store_reg_imm9(0u32, 0u32, 2u32, r.imm9 as u32, r.idx as u32, r.rn.index(), r.rt.index()),
            AArch64Inst::Ldursb32(r) => encode_load_store_reg_imm9(0u32, 0u32, 3u32, r.imm9 as u32, r.idx as u32, r.rn.index(), r.rt.index()),
            AArch64Inst::LdrsbIdx32(r) => encode_load_store_reg_imm9(0u32, 0u32, 3u32, r.imm9 as u32, r.idx as u32, r.rn.index(), r.rt.index()),
            AArch64Inst::SturSimdFP8(r) => encode_load_store_reg_imm9(0u32, 1u32, 0u32, r.imm9 as u32, r.idx as u32, r.rn.index(), r.rt.index()),
            AArch64Inst::StrSimdFPIdx8(r) => encode_load_store_reg_imm9(0u32, 1u32, 0u32, r.imm9 as u32, r.idx as u32, r.rn.index(), r.rt.index()),
            AArch64Inst::LdurSimdFP8(r) => encode_load_store_reg_imm9(0u32, 1u32, 1u32, r.imm9 as u32, r.idx as u32, r.rn.index(), r.rt.index()),
            AArch64Inst::LdrSimdFPIdx8(r) => encode_load_store_reg_imm9(0u32, 1u32, 1u32, r.imm9 as u32, r.idx as u32, r.rn.index(), r.rt.index()),
            AArch64Inst::SturSimdFP128(r) => encode_load_store_reg_imm9(0u32, 1u32, 2u32, r.imm9 as u32, r.idx as u32, r.rn.index(), r.rt.index()),
            AArch64Inst::StrSimdFPIdx128(r) => encode_load_store_reg_imm9(0u32, 1u32, 2u32, r.imm9 as u32, r.idx as u32, r.rn.index(), r.rt.index()),
            AArch64Inst::LdurSimdFP128(r) => encode_load_store_reg_imm9(0u32, 1u32, 3u32, r.imm9 as u32, r.idx as u32, r.rn.index(), r.rt.index()),
            AArch64Inst::LdrSimdFPIdx128(r) => encode_load_store_reg_imm9(0u32, 1u32, 3u32, r.imm9 as u32, r.idx as u32, r.rn.index(), r.rt.index()),
            AArch64Inst::Sturh(r) => encode_load_store_reg_imm9(1u32, 0u32, 0u32, r.imm9 as u32, r.idx as u32, r.rn.index(), r.rt.index()),
            AArch64Inst::StrhIdx(r) => encode_load_store_reg_imm9(1u32, 0u32, 0u32, r.imm9 as u32, r.idx as u32, r.rn.index(), r.rt.index()),
            AArch64Inst::Ldurh(r) => encode_load_store_reg_imm9(1u32, 0u32, 1u32, r.imm9 as u32, r.idx as u32, r.rn.index(), r.rt.index()),
            AArch64Inst::LdrhIdx(r) => encode_load_store_reg_imm9(1u32, 0u32, 1u32, r.imm9 as u32, r.idx as u32, r.rn.index(), r.rt.index()),
            AArch64Inst::Ldursh64(r) => encode_load_store_reg_imm9(1u32, 0u32, 2u32, r.imm9 as u32, r.idx as u32, r.rn.index(), r.rt.index()),
            AArch64Inst::LdrshIdx64(r) => encode_load_store_reg_imm9(1u32, 0u32, 2u32, r.imm9 as u32, r.idx as u32, r.rn.index(), r.rt.index()),
            AArch64Inst::Ldursh32(r) => encode_load_store_reg_imm9(1u32, 0u32, 3u32, r.imm9 as u32, r.idx as u32, r.rn.index(), r.rt.index()),
            AArch64Inst::LdrshIdx32(r) => encode_load_store_reg_imm9(1u32, 0u32, 3u32, r.imm9 as u32, r.idx as u32, r.rn.index(), r.rt.index()),
            AArch64Inst::SturSimdFP16(r) => encode_load_store_reg_imm9(1u32, 1u32, 0u32, r.imm9 as u32, r.idx as u32, r.rn.index(), r.rt.index()),
            AArch64Inst::StrSimdFPIdx16(r) => encode_load_store_reg_imm9(1u32, 1u32, 0u32, r.imm9 as u32, r.idx as u32, r.rn.index(), r.rt.index()),
            AArch64Inst::LdurSimdFP16(r) => encode_load_store_reg_imm9(1u32, 1u32, 1u32, r.imm9 as u32, r.idx as u32, r.rn.index(), r.rt.index()),
            AArch64Inst::LdrSimdFPIdx16(r) => encode_load_store_reg_imm9(1u32, 1u32, 1u32, r.imm9 as u32, r.idx as u32, r.rn.index(), r.rt.index()),
            AArch64Inst::Stur32(r) => encode_load_store_reg_imm9(2u32, 0u32, 0u32, r.imm9 as u32, r.idx as u32, r.rn.index(), r.rt.index()),
            AArch64Inst::StrIdx32(r) => encode_load_store_reg_imm9(2u32, 0u32, 0u32, r.imm9 as u32, r.idx as u32, r.rn.index(), r.rt.index()),
            AArch64Inst::Ldur32(r) => encode_load_store_reg_imm9(2u32, 0u32, 1u32, r.imm9 as u32, r.idx as u32, r.rn.index(), r.rt.index()),
            AArch64Inst::LdrIdx32(r) => encode_load_store_reg_imm9(2u32, 0u32, 1u32, r.imm9 as u32, r.idx as u32, r.rn.index(), r.rt.index()),
            AArch64Inst::Ldursw(r) => encode_load_store_reg_imm9(2u32, 0u32, 2u32, r.imm9 as u32, r.idx as u32, r.rn.index(), r.rt.index()),
            AArch64Inst::LdrswIdx(r) => encode_load_store_reg_imm9(2u32, 0u32, 2u32, r.imm9 as u32, r.idx as u32, r.rn.index(), r.rt.index()),
            AArch64Inst::SturSimdFP32(r) => encode_load_store_reg_imm9(2u32, 1u32, 0u32, r.imm9 as u32, r.idx as u32, r.rn.index(), r.rt.index()),
            AArch64Inst::StrSimdFPIdx32(r) => encode_load_store_reg_imm9(2u32, 1u32, 0u32, r.imm9 as u32, r.idx as u32, r.rn.index(), r.rt.index()),
            AArch64Inst::LdurSimdFP32(r) => encode_load_store_reg_imm9(2u32, 1u32, 1u32, r.imm9 as u32, r.idx as u32, r.rn.index(), r.rt.index()),
            AArch64Inst::LdrSimdFPIdx32(r) => encode_load_store_reg_imm9(2u32, 1u32, 1u32, r.imm9 as u32, r.idx as u32, r.rn.index(), r.rt.index()),
            AArch64Inst::Stur64(r) => encode_load_store_reg_imm9(3u32, 0u32, 0u32, r.imm9 as u32, r.idx as u32, r.rn.index(), r.rt.index()),
            AArch64Inst::StrIdx64(r) => encode_load_store_reg_imm9(3u32, 0u32, 0u32, r.imm9 as u32, r.idx as u32, r.rn.index(), r.rt.index()),
            AArch64Inst::Ldur64(r) => encode_load_store_reg_imm9(3u32, 0u32, 1u32, r.imm9 as u32, r.idx as u32, r.rn.index(), r.rt.index()),
            AArch64Inst::LdrIdx64(r) => encode_load_store_reg_imm9(3u32, 0u32, 1u32, r.imm9 as u32, r.idx as u32, r.rn.index(), r.rt.index()),
            AArch64Inst::Prefum(r) => encode_load_store_reg_imm9(3u32, 0u32, 2u32, r.imm9 as u32, r.idx as u32, r.rn.index(), r.rt.index()),
            AArch64Inst::SturSimdFP64(r) => encode_load_store_reg_imm9(3u32, 1u32, 0u32, r.imm9 as u32, r.idx as u32, r.rn.index(), r.rt.index()),
            AArch64Inst::StrSimdFPIdx64(r) => encode_load_store_reg_imm9(3u32, 1u32, 0u32, r.imm9 as u32, r.idx as u32, r.rn.index(), r.rt.index()),
            AArch64Inst::LdurSimdFP64(r) => encode_load_store_reg_imm9(3u32, 1u32, 1u32, r.imm9 as u32, r.idx as u32, r.rn.index(), r.rt.index()),
            AArch64Inst::LdrSimdFPIdx64(r) => encode_load_store_reg_imm9(3u32, 1u32, 1u32, r.imm9 as u32, r.idx as u32, r.rn.index(), r.rt.index()),
            AArch64Inst::UdivVar32(r) => encode_data_proc_2src(0u32, 0u32, r.rm.index(), 2u32, r.rn.index(), r.rd.index()),
            AArch64Inst::SdivVar32(r) => encode_data_proc_2src(0u32, 0u32, r.rm.index(), 3u32, r.rn.index(), r.rd.index()),
            AArch64Inst::LslvVar32(r) => encode_data_proc_2src(0u32, 0u32, r.rm.index(), 8u32, r.rn.index(), r.rd.index()),
            AArch64Inst::LsrvVar32(r) => encode_data_proc_2src(0u32, 0u32, r.rm.index(), 9u32, r.rn.index(), r.rd.index()),
            AArch64Inst::AsrvVar32(r) => encode_data_proc_2src(0u32, 0u32, r.rm.index(), 10u32, r.rn.index(), r.rd.index()),
            AArch64Inst::RorvVar32(r) => encode_data_proc_2src(0u32, 0u32, r.rm.index(), 11u32, r.rn.index(), r.rd.index()),
            AArch64Inst::UdivVar64(r) => encode_data_proc_2src(1u32, 0u32, r.rm.index(), 2u32, r.rn.index(), r.rd.index()),
            AArch64Inst::SdivVar64(r) => encode_data_proc_2src(1u32, 0u32, r.rm.index(), 3u32, r.rn.index(), r.rd.index()),
            AArch64Inst::LslvVar64(r) => encode_data_proc_2src(1u32, 0u32, r.rm.index(), 8u32, r.rn.index(), r.rd.index()),
            AArch64Inst::LsrvVar64(r) => encode_data_proc_2src(1u32, 0u32, r.rm.index(), 9u32, r.rn.index(), r.rd.index()),
            AArch64Inst::AsrvVar64(r) => encode_data_proc_2src(1u32, 0u32, r.rm.index(), 10u32, r.rn.index(), r.rd.index()),
            AArch64Inst::RorvVar64(r) => encode_data_proc_2src(1u32, 0u32, r.rm.index(), 11u32, r.rn.index(), r.rd.index()),
            AArch64Inst::AndShiftedReg32(r) => encode_logical_shifted_register(0u32, 0u32, r.shift as u32, 0u32, r.rm.index(), r.imm6 as u32, r.rn.index(), r.rd.index()),
            AArch64Inst::BicShiftedReg32(r) => encode_logical_shifted_register(0u32, 0u32, r.shift as u32, 1u32, r.rm.index(), r.imm6 as u32, r.rn.index(), r.rd.index()),
            AArch64Inst::OrrShiftedReg32(r) => encode_logical_shifted_register(0u32, 1u32, r.shift as u32, 0u32, r.rm.index(), r.imm6 as u32, r.rn.index(), r.rd.index()),
            AArch64Inst::OrnShiftedReg32(r) => encode_logical_shifted_register(0u32, 1u32, r.shift as u32, 1u32, r.rm.index(), r.imm6 as u32, r.rn.index(), r.rd.index()),
            AArch64Inst::EorShiftedReg32(r) => encode_logical_shifted_register(0u32, 2u32, r.shift as u32, 0u32, r.rm.index(), r.imm6 as u32, r.rn.index(), r.rd.index()),
            AArch64Inst::EonShiftedReg32(r) => encode_logical_shifted_register(0u32, 2u32, r.shift as u32, 1u32, r.rm.index(), r.imm6 as u32, r.rn.index(), r.rd.index()),
            AArch64Inst::AndsShiftedReg32(r) => encode_logical_shifted_register(0u32, 3u32, r.shift as u32, 0u32, r.rm.index(), r.imm6 as u32, r.rn.index(), r.rd.index()),
            AArch64Inst::BicsShiftedReg32(r) => encode_logical_shifted_register(0u32, 3u32, r.shift as u32, 1u32, r.rm.index(), r.imm6 as u32, r.rn.index(), r.rd.index()),
            AArch64Inst::AndShiftedReg64(r) => encode_logical_shifted_register(1u32, 0u32, r.shift as u32, 0u32, r.rm.index(), r.imm6 as u32, r.rn.index(), r.rd.index()),
            AArch64Inst::BicShiftedReg64(r) => encode_logical_shifted_register(1u32, 0u32, r.shift as u32, 1u32, r.rm.index(), r.imm6 as u32, r.rn.index(), r.rd.index()),
            AArch64Inst::OrrShiftedReg64(r) => encode_logical_shifted_register(1u32, 1u32, r.shift as u32, 0u32, r.rm.index(), r.imm6 as u32, r.rn.index(), r.rd.index()),
            AArch64Inst::OrnShiftedReg64(r) => encode_logical_shifted_register(1u32, 1u32, r.shift as u32, 1u32, r.rm.index(), r.imm6 as u32, r.rn.index(), r.rd.index()),
            AArch64Inst::EorShiftedReg64(r) => encode_logical_shifted_register(1u32, 2u32, r.shift as u32, 0u32, r.rm.index(), r.imm6 as u32, r.rn.index(), r.rd.index()),
            AArch64Inst::EonShiftedReg64(r) => encode_logical_shifted_register(1u32, 2u32, r.shift as u32, 1u32, r.rm.index(), r.imm6 as u32, r.rn.index(), r.rd.index()),
            AArch64Inst::AndsShiftedReg64(r) => encode_logical_shifted_register(1u32, 3u32, r.shift as u32, 0u32, r.rm.index(), r.imm6 as u32, r.rn.index(), r.rd.index()),
            AArch64Inst::BicsShiftedReg64(r) => encode_logical_shifted_register(1u32, 3u32, r.shift as u32, 1u32, r.rm.index(), r.imm6 as u32, r.rn.index(), r.rd.index()),
            AArch64Inst::AddShiftedReg32(r) => encode_add_sub_shifted_reg(0u32, r.shift as u32, r.rm.index(), r.imm6 as u32, r.rn.index(), r.rd.index()),
            AArch64Inst::AddsShiftedReg32(r) => encode_add_sub_shifted_reg(1u32, r.shift as u32, r.rm.index(), r.imm6 as u32, r.rn.index(), r.rd.index()),
            AArch64Inst::SubShiftedReg32(r) => encode_add_sub_shifted_reg(2u32, r.shift as u32, r.rm.index(), r.imm6 as u32, r.rn.index(), r.rd.index()),
            AArch64Inst::SubsShiftedReg32(r) => encode_add_sub_shifted_reg(3u32, r.shift as u32, r.rm.index(), r.imm6 as u32, r.rn.index(), r.rd.index()),
            AArch64Inst::AddShiftedReg64(r) => encode_add_sub_shifted_reg(4u32, r.shift as u32, r.rm.index(), r.imm6 as u32, r.rn.index(), r.rd.index()),
            AArch64Inst::AddsShiftedReg64(r) => encode_add_sub_shifted_reg(5u32, r.shift as u32, r.rm.index(), r.imm6 as u32, r.rn.index(), r.rd.index()),
            AArch64Inst::SubShiftedReg64(r) => encode_add_sub_shifted_reg(6u32, r.shift as u32, r.rm.index(), r.imm6 as u32, r.rn.index(), r.rd.index()),
            AArch64Inst::SubsShiftedReg64(r) => encode_add_sub_shifted_reg(7u32, r.shift as u32, r.rm.index(), r.imm6 as u32, r.rn.index(), r.rd.index()),
            AArch64Inst::AddExtReg32(r) => encode_add_sub_ext_reg(0u32, 0u32, r.rm.index(), r.option as u32, r.imm3 as u32, r.rn.index(), r.rd.index()),
            AArch64Inst::AddsExtReg32(r) => encode_add_sub_ext_reg(1u32, 0u32, r.rm.index(), r.option as u32, r.imm3 as u32, r.rn.index(), r.rd.index()),
            AArch64Inst::SubExtReg32(r) => encode_add_sub_ext_reg(2u32, 0u32, r.rm.index(), r.option as u32, r.imm3 as u32, r.rn.index(), r.rd.index()),
            AArch64Inst::SubsExtReg32(r) => encode_add_sub_ext_reg(3u32, 0u32, r.rm.index(), r.option as u32, r.imm3 as u32, r.rn.index(), r.rd.index()),
            AArch64Inst::AddExtReg64(r) => encode_add_sub_ext_reg(4u32, 0u32, r.rm.index(), r.option as u32, r.imm3 as u32, r.rn.index(), r.rd.index()),
            AArch64Inst::AddsExtReg64(r) => encode_add_sub_ext_reg(5u32, 0u32, r.rm.index(), r.option as u32, r.imm3 as u32, r.rn.index(), r.rd.index()),
            AArch64Inst::SubExtReg64(r) => encode_add_sub_ext_reg(6u32, 0u32, r.rm.index(), r.option as u32, r.imm3 as u32, r.rn.index(), r.rd.index()),
            AArch64Inst::SubsExtReg64(r) => encode_add_sub_ext_reg(7u32, 0u32, r.rm.index(), r.option as u32, r.imm3 as u32, r.rn.index(), r.rd.index()),
            AArch64Inst::CcmnRegVar32(r) => encode_cond_compare_reg(0u32, 0u32, 1u32, r.rm.index(), r.cond as u32, 0u32, r.rn.index(), 0u32, r.nzcv as u32),
            AArch64Inst::CcmpRegVar32(r) => encode_cond_compare_reg(0u32, 1u32, 1u32, r.rm.index(), r.cond as u32, 0u32, r.rn.index(), 0u32, r.nzcv as u32),
            AArch64Inst::CcmnRegVar64(r) => encode_cond_compare_reg(1u32, 0u32, 1u32, r.rm.index(), r.cond as u32, 0u32, r.rn.index(), 0u32, r.nzcv as u32),
            AArch64Inst::CcmpRegVar64(r) => encode_cond_compare_reg(1u32, 1u32, 1u32, r.rm.index(), r.cond as u32, 0u32, r.rn.index(), 0u32, r.nzcv as u32),
            AArch64Inst::CcmnImmVar32(r) => encode_cond_compare_imm(0u32, 0u32, 1u32, r.imm5 as u32, r.cond as u32, 0u32, r.rn.index(), 0u32, r.nzcv as u32),
            AArch64Inst::CcmpImmVar32(r) => encode_cond_compare_imm(0u32, 1u32, 1u32, r.imm5 as u32, r.cond as u32, 0u32, r.rn.index(), 0u32, r.nzcv as u32),
            AArch64Inst::CcmnImmVar64(r) => encode_cond_compare_imm(1u32, 0u32, 1u32, r.imm5 as u32, r.cond as u32, 0u32, r.rn.index(), 0u32, r.nzcv as u32),
            AArch64Inst::CcmpImmVar64(r) => encode_cond_compare_imm(1u32, 1u32, 1u32, r.imm5 as u32, r.cond as u32, 0u32, r.rn.index(), 0u32, r.nzcv as u32),
            AArch64Inst::Csel32(r) => encode_cond_sel(0u32, 0u32, 0u32, r.rm.index(), r.cond as u32, 0u32, r.rn.index(), r.rd.index()),
            AArch64Inst::Csinc32(r) => encode_cond_sel(0u32, 0u32, 0u32, r.rm.index(), r.cond as u32, 1u32, r.rn.index(), r.rd.index()),
            AArch64Inst::Csinv32(r) => encode_cond_sel(0u32, 1u32, 0u32, r.rm.index(), r.cond as u32, 0u32, r.rn.index(), r.rd.index()),
            AArch64Inst::Csneg32(r) => encode_cond_sel(0u32, 1u32, 0u32, r.rm.index(), r.cond as u32, 1u32, r.rn.index(), r.rd.index()),
            AArch64Inst::Csel64(r) => encode_cond_sel(1u32, 0u32, 0u32, r.rm.index(), r.cond as u32, 0u32, r.rn.index(), r.rd.index()),
            AArch64Inst::Csinc64(r) => encode_cond_sel(1u32, 0u32, 0u32, r.rm.index(), r.cond as u32, 1u32, r.rn.index(), r.rd.index()),
            AArch64Inst::Csinv64(r) => encode_cond_sel(1u32, 1u32, 0u32, r.rm.index(), r.cond as u32, 0u32, r.rn.index(), r.rd.index()),
            AArch64Inst::Csneg64(r) => encode_cond_sel(1u32, 1u32, 0u32, r.rm.index(), r.cond as u32, 1u32, r.rn.index(), r.rd.index()),
            AArch64Inst::Madd32(r) => encode_data_proccessing_3src(0u32, 0u32, 0u32, r.rm.index(), 0u32, r.ra.index(), r.rn.index(), r.rd.index()),
            AArch64Inst::Msub32(r) => encode_data_proccessing_3src(0u32, 0u32, 0u32, r.rm.index(), 1u32, r.ra.index(), r.rn.index(), r.rd.index()),
            AArch64Inst::Madd64(r) => encode_data_proccessing_3src(1u32, 0u32, 0u32, r.rm.index(), 0u32, r.ra.index(), r.rn.index(), r.rd.index()),
            AArch64Inst::Msub64(r) => encode_data_proccessing_3src(1u32, 0u32, 0u32, r.rm.index(), 1u32, r.ra.index(), r.rn.index(), r.rd.index()),
            AArch64Inst::Smaddl(r) => encode_data_proccessing_3src(1u32, 0u32, 1u32, r.rm.index(), 0u32, r.ra.index(), r.rn.index(), r.rd.index()),
            AArch64Inst::Smsubl(r) => encode_data_proccessing_3src(1u32, 0u32, 1u32, r.rm.index(), 1u32, r.ra.index(), r.rn.index(), r.rd.index()),
            AArch64Inst::Smulh(r) => encode_data_proccessing_3src(1u32, 0u32, 2u32, r.rm.index(), 0u32, r.ra.index(), r.rn.index(), r.rd.index()),
            AArch64Inst::Umaddl(r) => encode_data_proccessing_3src(1u32, 0u32, 5u32, r.rm.index(), 0u32, r.ra.index(), r.rn.index(), r.rd.index()),
            AArch64Inst::Umsubl(r) => encode_data_proccessing_3src(1u32, 0u32, 5u32, r.rm.index(), 1u32, r.ra.index(), r.rn.index(), r.rd.index()),
            AArch64Inst::Umulh(r) => encode_data_proccessing_3src(1u32, 0u32, 7u32, r.rm.index(), 0u32, r.ra.index(), r.rn.index(), r.rd.index()),
            AArch64Inst::FmAddSinglePrecision(r) => encode_fp_data_processing_3src(0u32, 0u32, 0u32, 0u32, r.rm.index(), 0u32, r.ra.index(), r.rn.index(), r.rd.index()),
            AArch64Inst::FmSubSinglePrecision(r) => encode_fp_data_processing_3src(0u32, 0u32, 0u32, 0u32, r.rm.index(), 1u32, r.ra.index(), r.rn.index(), r.rd.index()),
            AArch64Inst::FnmAddSinglePrecision(r) => encode_fp_data_processing_3src(0u32, 0u32, 0u32, 1u32, r.rm.index(), 0u32, r.ra.index(), r.rn.index(), r.rd.index()),
            AArch64Inst::FnmSubSinglePrecision(r) => encode_fp_data_processing_3src(0u32, 0u32, 0u32, 1u32, r.rm.index(), 1u32, r.ra.index(), r.rn.index(), r.rd.index()),
            AArch64Inst::FmAddDoublePrecision(r) => encode_fp_data_processing_3src(0u32, 0u32, 1u32, 0u32, r.rm.index(), 0u32, r.ra.index(), r.rn.index(), r.rd.index()),
            AArch64Inst::FmSubDoublePrecision(r) => encode_fp_data_processing_3src(0u32, 0u32, 1u32, 0u32, r.rm.index(), 1u32, r.ra.index(), r.rn.index(), r.rd.index()),
            AArch64Inst::FnmAddDoublePrecision(r) => encode_fp_data_processing_3src(0u32, 0u32, 1u32, 1u32, r.rm.index(), 0u32, r.ra.index(), r.rn.index(), r.rd.index()),
            AArch64Inst::FnmSubDoublePrecision(r) => encode_fp_data_processing_3src(0u32, 0u32, 1u32, 1u32, r.rm.index(), 1u32, r.ra.index(), r.rn.index(), r.rd.index()),
            AArch64Inst::FmAddHalfPrecision(r) => encode_fp_data_processing_3src(0u32, 0u32, 3u32, 0u32, r.rm.index(), 0u32, r.ra.index(), r.rn.index(), r.rd.index()),
            AArch64Inst::FmSubHalfPrecision(r) => encode_fp_data_processing_3src(0u32, 0u32, 3u32, 0u32, r.rm.index(), 1u32, r.ra.index(), r.rn.index(), r.rd.index()),
            AArch64Inst::FnmAddHalfPrecision(r) => encode_fp_data_processing_3src(0u32, 0u32, 3u32, 1u32, r.rm.index(), 0u32, r.ra.index(), r.rn.index(), r.rd.index()),
            AArch64Inst::FnmSubHalfPrecision(r) => encode_fp_data_processing_3src(0u32, 0u32, 3u32, 1u32, r.rm.index(), 1u32, r.ra.index(), r.rn.index(), r.rd.index()),
            AArch64Inst::Clrex(r) => encode_barriers(r.crm as u32, 2u32, 31u32),
            AArch64Inst::DsbEncoding(r) => encode_barriers(r.crm as u32, 4u32, 31u32),
            AArch64Inst::Dmb(r) => encode_barriers(r.crm as u32, 5u32, 31u32),
            AArch64Inst::Isb(r) => encode_barriers(r.crm as u32, 6u32, 31u32),
            AArch64Inst::LdrLitVar32(r) => encode_load_reg_literal(0u32, 0u32, r.imm19 as u32, r.rt.index()),
            AArch64Inst::LdrLitSimdFPVar32(r) => encode_load_reg_literal(0u32, 1u32, r.imm19 as u32, r.rt.index()),
            AArch64Inst::LdrLitVar64(r) => encode_load_reg_literal(1u32, 0u32, r.imm19 as u32, r.rt.index()),
            AArch64Inst::LdrLitSimdFPVar64(r) => encode_load_reg_literal(1u32, 1u32, r.imm19 as u32, r.rt.index()),
            AArch64Inst::LdrswLit(r) => encode_load_reg_literal(2u32, 0u32, r.imm19 as u32, r.rt.index()),
            AArch64Inst::LdrLitSimdFPVar128(r) => encode_load_reg_literal(2u32, 1u32, r.imm19 as u32, r.rt.index()),
            AArch64Inst::PrfmLit(r) => encode_load_reg_literal(3u32, 0u32, r.imm19 as u32, r.rt.index()),
            AArch64Inst::Stxrb(r) => encode_load_store_exclusive(0u32, 0u32, r.rs.index(), 0u32, r.rt2 as u32, r.rn.index(), r.rt.index()),
            AArch64Inst::Ldxrb(r) => encode_load_store_exclusive(0u32, 1u32, r.rs.index(), 0u32, r.rt2 as u32, r.rn.index(), r.rt.index()),
            AArch64Inst::Stxrh(r) => encode_load_store_exclusive(1u32, 0u32, r.rs.index(), 0u32, r.rt2 as u32, r.rn.index(), r.rt.index()),
            AArch64Inst::Ldxrh(r) => encode_load_store_exclusive(1u32, 1u32, r.rs.index(), 0u32, r.rt2 as u32, r.rn.index(), r.rt.index()),
            AArch64Inst::StxrVar32(r) => encode_load_store_exclusive(2u32, 0u32, r.rs.index(), 0u32, r.rt2 as u32, r.rn.index(), r.rt.index()),
            AArch64Inst::LdxrVar32(r) => encode_load_store_exclusive(2u32, 1u32, r.rs.index(), 0u32, r.rt2 as u32, r.rn.index(), r.rt.index()),
            AArch64Inst::StxrVar64(r) => encode_load_store_exclusive(3u32, 0u32, r.rs.index(), 0u32, r.rt2 as u32, r.rn.index(), r.rt.index()),
            AArch64Inst::LdxrVar64(r) => encode_load_store_exclusive(3u32, 1u32, r.rs.index(), 0u32, r.rt2 as u32, r.rn.index(), r.rt.index()),
            AArch64Inst::Stlxrb(r) => encode_load_store_exclusive(0u32, 0u32, r.rs.index(), 1u32, r.rt2 as u32, r.rn.index(), r.rt.index()),
            AArch64Inst::Ldaxrb(r) => encode_load_store_exclusive(0u32, 1u32, r.rs.index(), 1u32, r.rt2 as u32, r.rn.index(), r.rt.index()),
            AArch64Inst::Stlxrh(r) => encode_load_store_exclusive(1u32, 0u32, r.rs.index(), 1u32, r.rt2 as u32, r.rn.index(), r.rt.index()),
            AArch64Inst::Ldaxrh(r) => encode_load_store_exclusive(1u32, 1u32, r.rs.index(), 1u32, r.rt2 as u32, r.rn.index(), r.rt.index()),
            AArch64Inst::StlxrVar32(r) => encode_load_store_exclusive(2u32, 0u32, r.rs.index(), 1u32, r.rt2 as u32, r.rn.index(), r.rt.index()),
            AArch64Inst::LdaxrVar32(r) => encode_load_store_exclusive(2u32, 1u32, r.rs.index(), 1u32, r.rt2 as u32, r.rn.index(), r.rt.index()),
            AArch64Inst::StlxrVar64(r) => encode_load_store_exclusive(3u32, 0u32, r.rs.index(), 1u32, r.rt2 as u32, r.rn.index(), r.rt.index()),
            AArch64Inst::LdaxrVar64(r) => encode_load_store_exclusive(3u32, 1u32, r.rs.index(), 1u32, r.rt2 as u32, r.rn.index(), r.rt.index()),
            AArch64Inst::Stlrb(r) => encode_load_store_ordered(0u32, 0u32, r.rs.index(), 1u32, r.rt2 as u32, r.rn.index(), r.rt.index()),
            AArch64Inst::Ldarb(r) => encode_load_store_ordered(0u32, 1u32, r.rs.index(), 1u32, r.rt2 as u32, r.rn.index(), r.rt.index()),
            AArch64Inst::Stlrh(r) => encode_load_store_ordered(1u32, 0u32, r.rs.index(), 1u32, r.rt2 as u32, r.rn.index(), r.rt.index()),
            AArch64Inst::Ldarh(r) => encode_load_store_ordered(1u32, 1u32, r.rs.index(), 1u32, r.rt2 as u32, r.rn.index(), r.rt.index()),
            AArch64Inst::StlrVar32(r) => encode_load_store_ordered(2u32, 0u32, r.rs.index(), 1u32, r.rt2 as u32, r.rn.index(), r.rt.index()),
            AArch64Inst::LdarVar32(r) => encode_load_store_ordered(2u32, 1u32, r.rs.index(), 1u32, r.rt2 as u32, r.rn.index(), r.rt.index()),
            AArch64Inst::StlrVar64(r) => encode_load_store_ordered(3u32, 0u32, r.rs.index(), 1u32, r.rt2 as u32, r.rn.index(), r.rt.index()),
            AArch64Inst::LdarVar64(r) => encode_load_store_ordered(3u32, 1u32, r.rs.index(), 1u32, r.rt2 as u32, r.rn.index(), r.rt.index()),
            AArch64Inst::AdcVar32(r) => encode_add_sub_with_carry(0u32, r.rm.index(), r.rn.index(), r.rd.index()),
            AArch64Inst::AdcsVar32(r) => encode_add_sub_with_carry(1u32, r.rm.index(), r.rn.index(), r.rd.index()),
            AArch64Inst::SbcVar32(r) => encode_add_sub_with_carry(2u32, r.rm.index(), r.rn.index(), r.rd.index()),
            AArch64Inst::SbcsVar32(r) => encode_add_sub_with_carry(3u32, r.rm.index(), r.rn.index(), r.rd.index()),
            AArch64Inst::AdcVar64(r) => encode_add_sub_with_carry(4u32, r.rm.index(), r.rn.index(), r.rd.index()),
            AArch64Inst::AdcsVar64(r) => encode_add_sub_with_carry(5u32, r.rm.index(), r.rn.index(), r.rd.index()),
            AArch64Inst::SbcVar64(r) => encode_add_sub_with_carry(6u32, r.rm.index(), r.rn.index(), r.rd.index()),
            AArch64Inst::SbcsVar64(r) => encode_add_sub_with_carry(7u32, r.rm.index(), r.rn.index(), r.rd.index()),
            AArch64Inst::RbitVar32(r) => encode_data_proc_1src(0u32, 0u32, 0u32, 0u32, r.rn.index(), r.rd.index()),
            AArch64Inst::Rev16Var32(r) => encode_data_proc_1src(0u32, 0u32, 0u32, 1u32, r.rn.index(), r.rd.index()),
            AArch64Inst::RevVar32(r) => encode_data_proc_1src(0u32, 0u32, 0u32, 2u32, r.rn.index(), r.rd.index()),
            AArch64Inst::ClzVar32(r) => encode_data_proc_1src(0u32, 0u32, 0u32, 4u32, r.rn.index(), r.rd.index()),
            AArch64Inst::ClsVar32(r) => encode_data_proc_1src(0u32, 0u32, 0u32, 5u32, r.rn.index(), r.rd.index()),
            AArch64Inst::RbitVar64(r) => encode_data_proc_1src(1u32, 0u32, 0u32, 0u32, r.rn.index(), r.rd.index()),
            AArch64Inst::Rev16Var64(r) => encode_data_proc_1src(1u32, 0u32, 0u32, 1u32, r.rn.index(), r.rd.index()),
            AArch64Inst::Rev32(r) => encode_data_proc_1src(1u32, 0u32, 0u32, 2u32, r.rn.index(), r.rd.index()),
            AArch64Inst::RevVar64(r) => encode_data_proc_1src(1u32, 0u32, 0u32, 3u32, r.rn.index(), r.rd.index()),
            AArch64Inst::ClzVar64(r) => encode_data_proc_1src(1u32, 0u32, 0u32, 4u32, r.rn.index(), r.rd.index()),
            AArch64Inst::ClsVar64(r) => encode_data_proc_1src(1u32, 0u32, 0u32, 5u32, r.rn.index(), r.rd.index()),
            AArch64Inst::Casb(r) => encode_compare_and_swap(0u32, 0u32, r.rs.index(), 0u32, 31u32, r.rn.index(), r.rt.index()),
            AArch64Inst::Caslb(r) => encode_compare_and_swap(0u32, 0u32, r.rs.index(), 1u32, 31u32, r.rn.index(), r.rt.index()),
            AArch64Inst::Casab(r) => encode_compare_and_swap(0u32, 1u32, r.rs.index(), 0u32, 31u32, r.rn.index(), r.rt.index()),
            AArch64Inst::Casalb(r) => encode_compare_and_swap(0u32, 1u32, r.rs.index(), 1u32, 31u32, r.rn.index(), r.rt.index()),
            AArch64Inst::Cash(r) => encode_compare_and_swap(1u32, 0u32, r.rs.index(), 0u32, 31u32, r.rn.index(), r.rt.index()),
            AArch64Inst::Caslh(r) => encode_compare_and_swap(1u32, 0u32, r.rs.index(), 1u32, 31u32, r.rn.index(), r.rt.index()),
            AArch64Inst::Casah(r) => encode_compare_and_swap(1u32, 1u32, r.rs.index(), 0u32, 31u32, r.rn.index(), r.rt.index()),
            AArch64Inst::Casalh(r) => encode_compare_and_swap(1u32, 1u32, r.rs.index(), 1u32, 31u32, r.rn.index(), r.rt.index()),
            AArch64Inst::CasVar32(r) => encode_compare_and_swap(2u32, 0u32, r.rs.index(), 0u32, 31u32, r.rn.index(), r.rt.index()),
            AArch64Inst::CaslVar32(r) => encode_compare_and_swap(2u32, 0u32, r.rs.index(), 1u32, 31u32, r.rn.index(), r.rt.index()),
            AArch64Inst::CasaVar32(r) => encode_compare_and_swap(2u32, 1u32, r.rs.index(), 0u32, 31u32, r.rn.index(), r.rt.index()),
            AArch64Inst::CasalVar32(r) => encode_compare_and_swap(2u32, 1u32, r.rs.index(), 1u32, 31u32, r.rn.index(), r.rt.index()),
            AArch64Inst::CasVar64(r) => encode_compare_and_swap(3u32, 0u32, r.rs.index(), 0u32, 31u32, r.rn.index(), r.rt.index()),
            AArch64Inst::CaslVar64(r) => encode_compare_and_swap(3u32, 0u32, r.rs.index(), 1u32, 31u32, r.rn.index(), r.rt.index()),
            AArch64Inst::CasaVar64(r) => encode_compare_and_swap(3u32, 1u32, r.rs.index(), 0u32, 31u32, r.rn.index(), r.rt.index()),
            AArch64Inst::CasalVar64(r) => encode_compare_and_swap(3u32, 1u32, r.rs.index(), 1u32, 31u32, r.rn.index(), r.rt.index()),
            AArch64Inst::CaspVar32(r) => encode_compare_and_swap_pair(0u32, 0u32, r.rs as u32, 0u32, 31u32, r.rn.index(), r.rt as u32),
            AArch64Inst::CasplVar32(r) => encode_compare_and_swap_pair(0u32, 0u32, r.rs as u32, 1u32, 31u32, r.rn.index(), r.rt as u32),
            AArch64Inst::CaspaVar32(r) => encode_compare_and_swap_pair(0u32, 1u32, r.rs as u32, 0u32, 31u32, r.rn.index(), r.rt as u32),
            AArch64Inst::CaspalVar32(r) => encode_compare_and_swap_pair(0u32, 1u32, r.rs as u32, 1u32, 31u32, r.rn.index(), r.rt as u32),
            AArch64Inst::CaspVar64(r) => encode_compare_and_swap_pair(1u32, 0u32, r.rs as u32, 0u32, 31u32, r.rn.index(), r.rt as u32),
            AArch64Inst::CasplVar64(r) => encode_compare_and_swap_pair(1u32, 0u32, r.rs as u32, 1u32, 31u32, r.rn.index(), r.rt as u32),
            AArch64Inst::CaspaVar64(r) => encode_compare_and_swap_pair(1u32, 1u32, r.rs as u32, 0u32, 31u32, r.rn.index(), r.rt as u32),
            AArch64Inst::CaspalVar64(r) => encode_compare_and_swap_pair(1u32, 1u32, r.rs as u32, 1u32, 31u32, r.rn.index(), r.rt as u32),
            AArch64Inst::StnpVar32(r) => encode_load_store_no_alloc_pair(0u32, 0u32, 0u32, r.imm7 as u32, r.rt2.index(), r.rn.index(), r.rt.index()),
            AArch64Inst::LdnpVar32(r) => encode_load_store_no_alloc_pair(0u32, 0u32, 1u32, r.imm7 as u32, r.rt2.index(), r.rn.index(), r.rt.index()),
            AArch64Inst::StnpSimdFPVar32(r) => encode_load_store_no_alloc_pair(0u32, 1u32, 0u32, r.imm7 as u32, r.rt2.index(), r.rn.index(), r.rt.index()),
            AArch64Inst::LdnpSimdFPVar32(r) => encode_load_store_no_alloc_pair(0u32, 1u32, 1u32, r.imm7 as u32, r.rt2.index(), r.rn.index(), r.rt.index()),
            AArch64Inst::StnpSimdFPVar64(r) => encode_load_store_no_alloc_pair(1u32, 1u32, 0u32, r.imm7 as u32, r.rt2.index(), r.rn.index(), r.rt.index()),
            AArch64Inst::LdnpSimdFPVar64(r) => encode_load_store_no_alloc_pair(1u32, 1u32, 1u32, r.imm7 as u32, r.rt2.index(), r.rn.index(), r.rt.index()),
            AArch64Inst::StnpVar64(r) => encode_load_store_no_alloc_pair(2u32, 0u32, 0u32, r.imm7 as u32, r.rt2.index(), r.rn.index(), r.rt.index()),
            AArch64Inst::LdnpVar64(r) => encode_load_store_no_alloc_pair(2u32, 0u32, 1u32, r.imm7 as u32, r.rt2.index(), r.rn.index(), r.rt.index()),
            AArch64Inst::StnpSimdFPVar128(r) => encode_load_store_no_alloc_pair(2u32, 1u32, 0u32, r.imm7 as u32, r.rt2.index(), r.rn.index(), r.rt.index()),
            AArch64Inst::LdnpSimdFPVar128(r) => encode_load_store_no_alloc_pair(2u32, 1u32, 1u32, r.imm7 as u32, r.rt2.index(), r.rn.index(), r.rt.index()),
            AArch64Inst::MsrReg(r) => encode_system_register_move(0u32, r.o0 as u32, r.op1 as u32, r.crn as u32, r.crm as u32, r.op2 as u32, r.rt.index()),
            AArch64Inst::Mrs(r) => encode_system_register_move(1u32, r.o0 as u32, r.op1 as u32, r.crn as u32, r.crm as u32, r.op2 as u32, r.rt.index()),
            AArch64Inst::Fcmp(r) => encode_fp_compare(0u32, 0u32, r.ptype as u32, r.rm.index(), 0u32, r.rn.index(), r.opcode2 as u32),
            AArch64Inst::Fcmpe(r) => encode_fp_compare(0u32, 0u32, r.ptype as u32, r.rm.index(), 0u32, r.rn.index(), r.opcode2 as u32),
            AArch64Inst::FmovScalarImmSinglePrecisionVar(r) => encode_fp_immediate(0u32, 0u32, 0u32, r.imm8 as u32, 0u32, r.rd.index()),
            AArch64Inst::FmovScalarImmDoublePrecisionVar(r) => encode_fp_immediate(0u32, 0u32, 1u32, r.imm8 as u32, 0u32, r.rd.index()),
        }
    }
}

} // verus!
