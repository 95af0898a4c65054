use vstd::prelude::*;

use crate::inst::AArch64RegisterId;
use crate::ir::IrType;

verus! {

/// Bit of the flag word holding N (result negative).
pub const FLAG_N: u64 = 0x8000_0000;
/// Bit of the flag word holding Z (result zero).
pub const FLAG_Z: u64 = 0x4000_0000;
/// Bit of the flag word holding C (carry out, or no borrow).
pub const FLAG_C: u64 = 0x2000_0000;
/// Bit of the flag word holding V (signed overflow).
pub const FLAG_V: u64 = 0x1000_0000;

/// A fatal condition raised while running lifted code.
#[derive(Debug, Clone, Copy, PartialEq, Eq, Structural)]
pub enum ExecError {
    /// A load or store outside the mapped memory.
    BadMemory { addr: u64 },
    /// An instruction the lifter does not cover.
    Unimplemented { word: u32 },
    /// A supervisor call with a number the syscall layer does not know.
    UnknownSyscall { nr: u64 },
}

/// The abstract state of the virtual CPU.
pub ghost struct CpuState {
    /// `X0` to `X30`, then `SP`.
    pub gprs: Seq<u64>,
    /// Low and high 64 bits of `V0` to `V31`.
    pub fpr_lo: Seq<u64>,
    pub fpr_hi: Seq<u64>,
    pub flag: u64,
    pub ip: u64,
    /// Address of the first byte of `mem`.
    pub base: u64,
    pub mem: Seq<u8>,
}

/// Bytes of an `n`-byte access that make up its 64-bit value: all of them,
/// or the low 8 of a 16-byte access.
pub open spec fn value_bytes(n: nat) -> nat {
    if n > 8 {
        8
    } else {
        n
    }
}

/// Value of `b` read as a little-endian number.
pub open spec fn le_value(b: Seq<u8>) -> nat
    decreases b.len(),
{
    if b.len() == 0 {
        0
    } else {
        (b[0] + 256 * le_value(b.drop_first())) as nat
    }
}

/// Byte `i` of `v` in little-endian order.
pub open spec fn le_byte(v: u64, i: int) -> u8 {
    ((v as nat / vstd::arithmetic::power::pow(256, i as nat) as nat) % 256) as u8
}

/// The flag word with the given N, Z, C and V bits and no others.
pub open spec fn nzcv(n: bool, z: bool, c: bool, v: bool) -> u64 {
    ((if n { FLAG_N as int } else { 0 }) + (if z { FLAG_Z as int } else { 0 }) + (if c {
        FLAG_C as int
    } else {
        0
    }) + (if v { FLAG_V as int } else { 0 })) as u64
}

/// `x`, a number below the modulus of `t`, read as a two's complement value.
pub open spec fn signed_of(t: IrType, x: int) -> int {
    if 2 * x >= t.modulus() {
        x - t.modulus()
    } else {
        x
    }
}

/// Flags that an addition of `a` and `b` at type `t` sets.
pub open spec fn add_flags(t: IrType, a: u64, b: u64) -> u64 {
    let m = t.modulus();
    let x = a as int % m;
    let y = b as int % m;
    let r = (x + y) % m;
    let s = signed_of(t, x) + signed_of(t, y);
    nzcv(2 * r >= m, r == 0, x + y >= m, 2 * s >= m || 2 * s < -m)
}

/// Flags that a subtraction of `b` from `a` at type `t` sets.
pub open spec fn sub_flags(t: IrType, a: u64, b: u64) -> u64 {
    let m = t.modulus();
    let x = a as int % m;
    let y = b as int % m;
    let r = (x - y) % m;
    let s = signed_of(t, x) - signed_of(t, y);
    nzcv(2 * r >= m, r == 0, x >= y, 2 * s >= m || 2 * s < -m)
}

impl CpuState {
    pub open spec fn wf(self) -> bool {
        &&& self.gprs.len() == 32
        &&& self.fpr_lo.len() == 32
        &&& self.fpr_hi.len() == 32
        &&& self.base + self.mem.len() <= u64::MAX + 1
    }

    /// The value a read of register `r` yields: zero for the zero register.
    pub open spec fn read_reg(self, r: AArch64RegisterId) -> u64 {
        match r {
            AArch64RegisterId::X(n) => if n < 31 { self.gprs[n as int] } else { 0 },
            AArch64RegisterId::Sp => self.gprs[31],
            AArch64RegisterId::Xzr => 0,
            AArch64RegisterId::V(n) => if n < 32 { self.fpr_lo[n as int] } else { 0 },
        }
    }

    /// The state after writing `v` at the width of `t` to general-purpose
    /// register `r`: the value is cut to the width, so a 32-bit write clears
    /// the upper half, and a write to the zero register changes nothing.
    pub open spec fn write_gpr(self, t: IrType, r: AArch64RegisterId, v: u64) -> CpuState {
        let x = (v as int % t.modulus()) as u64;
        match r {
            AArch64RegisterId::X(n) => if n < 31 {
                CpuState { gprs: self.gprs.update(n as int, x), ..self }
            } else {
                self
            },
            AArch64RegisterId::Sp => CpuState { gprs: self.gprs.update(31, x), ..self },
            _ => self,
        }
    }

    /// The state after writing `v` at the width of `t` to the low bits of
    /// SIMD and floating-point register `r`; the rest of the register is cleared.
    pub open spec fn write_fpr(self, t: IrType, r: AArch64RegisterId, v: u64) -> CpuState {
        let x = (v as int % t.modulus()) as u64;
        match r {
            AArch64RegisterId::V(n) => if n < 32 {
                CpuState {
                    fpr_lo: self.fpr_lo.update(n as int, x),
                    fpr_hi: self.fpr_hi.update(n as int, 0),
                    ..self
                }
            } else {
                self
            },
            _ => self,
        }
    }

    /// Whether the `n` bytes from `addr` on all lie in memory.
    pub open spec fn mapped(self, addr: u64, n: nat) -> bool {
        self.base <= addr && addr + n <= self.base + self.mem.len()
    }

    /// The `n` bytes from `addr` on read as a little-endian number.
    pub open spec fn read_mem(self, addr: u64, n: nat) -> nat {
        le_value(self.mem.subrange(addr - self.base, addr - self.base + n))
    }

    /// The state after storing the low `n` bytes of `v` at `addr`, little-endian first.
    pub open spec fn write_mem(self, addr: u64, n: nat, v: u64) -> CpuState {
        let off = addr - self.base;
        CpuState {
            mem: Seq::new(
                self.mem.len(),
                |i: int|
                    if off <= i < off + n {
                        le_byte(v, i - off)
                    } else {
                        self.mem[i]
                    },
            ),
            ..self
        }
    }
}

/// Flat memory: `bytes` starting at address `base`.
pub struct Memory {
    pub base: u64,
    pub bytes: Vec<u8>,
}

/// The virtual CPU: register files, flags, instruction pointer and memory.
pub struct Cpu {
    /// `X0` to `X30`, then `SP`.
    pub gprs: Vec<u64>,
    pub fpr_lo: Vec<u64>,
    pub fpr_hi: Vec<u64>,
    pub flag: u64,
    pub ip: u64,
    pub mem: Memory,
}

impl View for Cpu {
    type V = CpuState;

    open spec fn view(&self) -> CpuState {
        CpuState {
            gprs: self.gprs@,
            fpr_lo: self.fpr_lo@,
            fpr_hi: self.fpr_hi@,
            flag: self.flag,
            ip: self.ip,
            base: self.mem.base,
            mem: self.mem.bytes@,
        }
    }
}

proof fn lemma_le_value_bound(b: Seq<u8>)
    ensures
        le_value(b) < vstd::arithmetic::power::pow(256, b.len()),
    decreases b.len(),
{
    vstd::arithmetic::power::lemma_pow_positive(256, b.len());
    if b.len() > 0 {
        lemma_le_value_bound(b.drop_first());
        vstd::arithmetic::power::lemma_pow_adds(256, 1, (b.len() - 1) as nat);
        vstd::arithmetic::power::lemma_pow1(256);
        let p = vstd::arithmetic::power::pow(256, (b.len() - 1) as nat);
        assert(b[0] + 256 * le_value(b.drop_first()) < 256 * p) by (nonlinear_arith)
            requires
                b[0] < 256,
                le_value(b.drop_first()) < p,
        ;
    }
}

impl Cpu {
    /// A CPU with all registers and flags zero, `ip` at `entry`, and `bytes`
    /// mapped from address `base` on.
    pub fn new(base: u64, bytes: Vec<u8>, entry: u64) -> (r: Cpu)
        requires
            base + bytes@.len() <= u64::MAX + 1,
        ensures
            r@.wf(),
            r@.ip == entry,
            r@.flag == 0,
            r@.base == base,
            r@.mem == bytes@,
            forall|i: int| 0 <= i < 32 ==> r@.gprs[i] == 0 && r@.fpr_lo[i] == 0 && r@.fpr_hi[i] == 0,
    {
        let mut gprs: Vec<u64> = Vec::new();
        let mut lo: Vec<u64> = Vec::new();
        let mut hi: Vec<u64> = Vec::new();
        let mut i: usize = 0;
        while i < 32
            invariant
                i <= 32,
                gprs@.len() == i && lo@.len() == i && hi@.len() == i,
                forall|j: int| 0 <= j < i ==> gprs@[j] == 0 && lo@[j] == 0 && hi@[j] == 0,
            decreases 32 - i,
        {
            gprs.push(0);
            lo.push(0);
            hi.push(0);
            i = i + 1;
        }
        Cpu { gprs, fpr_lo: lo, fpr_hi: hi, flag: 0, ip: entry, mem: Memory { base, bytes } }
    }

    pub fn ip(&self) -> (r: u64)
        ensures
            r == self@.ip,
    {
        self.ip
    }

    pub fn set_ip(&mut self, v: u64)
        ensures
            final(self)@ == (CpuState { ip: v, ..old(self)@ }),
    {
        self.ip = v;
    }

    pub fn flag(&self) -> (r: u64)
        ensures
            r == self@.flag,
    {
        self.flag
    }

    pub fn set_flag(&mut self, v: u64)
        ensures
            final(self)@ == (CpuState { flag: v, ..old(self)@ }),
    {
        self.flag = v;
    }

    /// Reads register `r`; the zero register reads as zero.
    pub fn gpr(&self, r: AArch64RegisterId) -> (v: u64)
        requires
            self@.wf(),
        ensures
            v == self@.read_reg(r),
    {
        match r {
            AArch64RegisterId::X(n) => if n < 31 { self.gprs[n as usize] } else { 0 },
            AArch64RegisterId::Sp => self.gprs[31],
            AArch64RegisterId::Xzr => 0,
            AArch64RegisterId::V(n) => if n < 32 { self.fpr_lo[n as usize] } else { 0 },
        }
    }

    /// Writes `v` at the width of `t` to general-purpose register `r`.
    pub fn set_gpr(&mut self, t: IrType, r: AArch64RegisterId, v: u64)
        requires
            old(self)@.wf(),
        ensures
            final(self)@ == old(self)@.write_gpr(t, r, v),
            final(self)@.wf(),
    {
        let x = truncate(t, v);
        match r {
            AArch64RegisterId::X(n) => if n < 31 {
                self.gprs.set(n as usize, x);
            },
            AArch64RegisterId::Sp => {
                self.gprs.set(31, x);
            },
            _ => {},
        }
    }

    /// Writes `v` at the width of `t` to SIMD and floating-point register `r`.
    pub fn set_fpr(&mut self, t: IrType, r: AArch64RegisterId, v: u64)
        requires
            old(self)@.wf(),
        ensures
            final(self)@ == old(self)@.write_fpr(t, r, v),
            final(self)@.wf(),
    {
        let x = truncate(t, v);
        match r {
            AArch64RegisterId::V(n) => if n < 32 {
                self.fpr_lo.set(n as usize, x);
                self.fpr_hi.set(n as usize, 0);
            },
            _ => {},
        }
    }

    /// Reads `n` bytes at `addr` as a little-endian number: all `n` bytes must
    /// be mapped, and of a 16-byte access the value is its low 8 bytes.
    pub fn load(&self, addr: u64, n: usize) -> (r: Result<u64, ExecError>)
        requires
            self@.wf(),
            n <= 16,
        ensures
            self@.mapped(addr, n as nat) ==> (r matches Ok(v) && v as nat == self@.read_mem(addr, value_bytes(n as nat))),
            !self@.mapped(addr, n as nat) ==> r == Err::<u64, ExecError>(ExecError::BadMemory { addr }),
    {
        let base = self.mem.base;
        if addr < base || addr - base > self.mem.bytes.len() as u64 || (self.mem.bytes.len() as u64)
            - (addr - base) < n as u64 {
            return Err(ExecError::BadMemory { addr });
        }
        let off = (addr - base) as usize;
        let len = self.mem.bytes.len();
        assert(off + n <= len);
        let n = if n > 8 { 8 } else { n };
        let ghost b = self@.mem.subrange(off as int, off + n);
        let mut acc: u64 = 0;
        let mut i: usize = n;
        while i > 0
            invariant
                i <= n <= 8,
                off + n <= len,
                len == self.mem.bytes@.len(),
                b == self@.mem.subrange(off as int, off + n),
                acc as nat == le_value(b.subrange(i as int, n as int)),
            decreases i,
        {
            let ghost rest = b.subrange(i as int, n as int);
            let ghost next = b.subrange(i - 1, n as int);
            assert(next.drop_first() =~= rest);
            proof {
                lemma_le_value_bound(next);
                vstd::arithmetic::power::lemma_pow_increases(256, next.len(), 8);
                lemma_pow256_8();
            }
            acc = acc * 256 + self.mem.bytes[off + i - 1] as u64;
            i = i - 1;
        }
        assert(b.subrange(0, n as int) =~= b);
        Ok(acc)
    }

    /// Stores the low `n` bytes of `v` at `addr`, least significant first.
    pub fn store(&mut self, addr: u64, n: usize, v: u64) -> (r: Result<(), ExecError>)
        requires
            old(self)@.wf(),
            n <= 16,
        ensures
            old(self)@.mapped(addr, n as nat) ==> r is Ok && final(self)@ == old(self)@.write_mem(addr, n as nat, v),
            !old(self)@.mapped(addr, n as nat) ==> r == Err::<(), ExecError>(ExecError::BadMemory { addr })
                && final(self)@ == old(self)@,
            final(self)@.wf(),
    {
        let base = self.mem.base;
        if addr < base || addr - base > self.mem.bytes.len() as u64 || (self.mem.bytes.len() as u64)
            - (addr - base) < n as u64 {
            return Err(ExecError::BadMemory { addr });
        }
        let off = (addr - base) as usize;
        let len = self.mem.bytes.len();
        assert(off + n <= len);
        let ghost s0 = old(self)@;
        proof {
            vstd::arithmetic::power::lemma_pow0(256);
            assert(v as nat / 1 == v as nat);
        }
        let mut x: u64 = v;
        let mut i: usize = 0;
        while i < n
            invariant
                i <= n <= 16,
                off + n <= len,
                len == self.mem.bytes@.len(),
                s0.wf(),
                off == addr - s0.base,
                self.mem.base == s0.base,
                self@ == (CpuState { mem: self@.mem, ..s0 }),
                self.mem.bytes@.len() == s0.mem.len(),
                x as nat == v as nat / vstd::arithmetic::power::pow(256, i as nat) as nat,
                forall|j: int|
                    0 <= j < self.mem.bytes@.len() ==> #[trigger] self.mem.bytes@[j] == if off <= j < off + i {
                        le_byte(v, j - off)
                    } else {
                        s0.mem[j]
                    },
            decreases n - i,
        {
            proof {
                vstd::arithmetic::power::lemma_pow_positive(256, i as nat);
                vstd::arithmetic::power::lemma_pow_adds(256, i as nat, 1);
                vstd::arithmetic::power::lemma_pow1(256);
                vstd::arithmetic::div_mod::lemma_div_denominator(
                    v as int,
                    vstd::arithmetic::power::pow(256, i as nat) as int,
                    256,
                );
            }
            self.mem.bytes.set(off + i, (x % 256) as u8);
            x = x / 256;
            i = i + 1;
        }
        assert(self.mem.bytes@ =~= s0.write_mem(addr, n as nat, v).mem);
        Ok(())
    }
}

proof fn lemma_pow256_8()
    ensures
        vstd::arithmetic::power::pow(256, 8) == 0x1_0000_0000_0000_0000,
{
    reveal_with_fuel(vstd::arithmetic::power::pow, 9);
}

/// `v` cut to the width of `t`.
pub fn truncate(t: IrType, v: u64) -> (r: u64)
    ensures
        r as int == v as int % t.modulus(),
{
    let m = t.mask();
    proof {
        lemma_mask_is_mod(v);
    }
    v & m
}

proof fn lemma_mask_is_mod(v: u64)
    by (bit_vector)
    ensures
        v & 1 == v % 2,
        v & 0xff == v % 0x100,
        v & 0xffff == v % 0x1_0000,
        v & 0xffff_ffff == v % 0x1_0000_0000,
        v & 0xffff_ffff_ffff_ffff == v,
{
}

} // verus!
