use vstd::prelude::*;

use crate::cpu::{Cpu, CpuState, ExecError};
use crate::inst::AArch64RegisterId;
use crate::ir::IrType;

verus! {

/// Number of the `write` call.
pub const SYS_WRITE: u64 = 0x40;
/// Number of the `exit_group` call.
pub const SYS_EXIT_GROUP: u64 = 0x5e;

/// What a supervisor call asks of the host, beyond its effect on the CPU.
#[derive(Debug)]
pub enum SyscallEffect {
    /// Nothing: the call is complete.
    Done,
    /// Write `data` to file descriptor `fd`.
    Write { fd: u64, data: Vec<u8> },
    /// End the process with exit status `code`.
    Exit { code: u64 },
}

/// Calls that do nothing here and return zero: `flock`, `set_tid_address`,
/// `sigaltstack`, the user and group ids (one user and group only), and `brk`.
pub open spec fn returns_zero(nr: u64) -> bool {
    nr == 0x49 || nr == 0x60 || nr == 0x84 || nr == 0xae || nr == 0xaf || nr == 0xb0 || nr == 0xb1 || nr == 0xd6
}

/// The outcome of call `nr` with arguments `args` in state `s`: the result and the state `s2` after it.
pub open spec fn syscall_done(nr: u64, args: Seq<u64>, s: CpuState, s2: CpuState, r: Result<SyscallEffect, ExecError>) -> bool {
    if nr == SYS_WRITE {
        if s.mapped(args[1], args[2] as nat) {
            &&& r matches Ok(SyscallEffect::Write { fd, data }) && fd == args[0] && data@ == s.mem.subrange(
                args[1] - s.base,
                args[1] - s.base + args[2],
            )
            &&& s2 == s.write_gpr(IrType::U64, AArch64RegisterId::X(0), args[2])
        } else {
            r == Err::<SyscallEffect, ExecError>(ExecError::BadMemory { addr: args[1] }) && s2 == s
        }
    } else if nr == SYS_EXIT_GROUP {
        (r matches Ok(SyscallEffect::Exit { code }) && code == args[0]) && s2 == s
    } else if returns_zero(nr) {
        r matches Ok(SyscallEffect::Done) && s2 == s.write_gpr(IrType::U64, AArch64RegisterId::X(0), 0)
    } else {
        r == Err::<SyscallEffect, ExecError>(ExecError::UnknownSyscall { nr }) && s2 == s
    }
}

/// Carries out call `nr` with arguments `args` (`X0` to `X5`); the result of
/// the call goes to `X0`.
pub fn handle_syscall(nr: u64, args: [u64; 6], cpu: &mut Cpu) -> (r: Result<SyscallEffect, ExecError>)
    requires
        old(cpu)@.wf(),
    ensures
        final(cpu)@.wf(),
        syscall_done(nr, args@, old(cpu)@, final(cpu)@, r),
{
    if nr == SYS_WRITE {
        let addr = args[1];
        let len = args[2];
        let base = cpu.mem.base;
        let size = cpu.mem.bytes.len();
        if addr < base || addr - base > size as u64 || (size as u64) - (addr - base) < len {
            return Err(ExecError::BadMemory { addr });
        }
        let off = (addr - base) as usize;
        let n = len as usize;
        let mut data: Vec<u8> = Vec::new();
        let mut i: usize = 0;
        while i < n
            invariant
                i <= n,
                off + n <= size,
                size == cpu.mem.bytes@.len(),
                data@ == cpu.mem.bytes@.subrange(off as int, off + i),
            decreases n - i,
        {
            data.push(cpu.mem.bytes[off + i]);
            i = i + 1;
            assert(data@ =~= cpu.mem.bytes@.subrange(off as int, off + i));
        }
        cpu.set_gpr(IrType::U64, AArch64RegisterId::X(0), len);
        Ok(SyscallEffect::Write { fd: args[0], data })
    } else if nr == SYS_EXIT_GROUP {
        Ok(SyscallEffect::Exit { code: args[0] })
    } else if nr == 0x49 || nr == 0x60 || nr == 0x84 || nr == 0xae || nr == 0xaf || nr == 0xb0 || nr == 0xb1
        || nr == 0xd6 {
        cpu.set_gpr(IrType::U64, AArch64RegisterId::X(0), 0);
        Ok(SyscallEffect::Done)
    } else {
        Err(ExecError::UnknownSyscall { nr })
    }
}

/// The unix system call convention: number in `X8`, arguments in `X0` to `X5`.
pub struct AArch64UnixInterruptModel;

impl AArch64UnixInterruptModel {
    /// Handles a supervisor call with immediate `imm` (unused by the convention).
    pub fn syscall(&self, imm: u64, cpu: &mut Cpu) -> (r: Result<SyscallEffect, ExecError>)
        requires
            old(cpu)@.wf(),
        ensures
            final(cpu)@.wf(),
            syscall_done(
                old(cpu)@.read_reg(AArch64RegisterId::X(8)),
                seq![
                    old(cpu)@.read_reg(AArch64RegisterId::X(0)),
                    old(cpu)@.read_reg(AArch64RegisterId::X(1)),
                    old(cpu)@.read_reg(AArch64RegisterId::X(2)),
                    old(cpu)@.read_reg(AArch64RegisterId::X(3)),
                    old(cpu)@.read_reg(AArch64RegisterId::X(4)),
                    old(cpu)@.read_reg(AArch64RegisterId::X(5)),
                ],
                old(cpu)@,
                final(cpu)@,
                r,
            ),
    {
        let nr = cpu.gpr(AArch64RegisterId::X(8));
        let args = [
            cpu.gpr(AArch64RegisterId::X(0)),
            cpu.gpr(AArch64RegisterId::X(1)),
            cpu.gpr(AArch64RegisterId::X(2)),
            cpu.gpr(AArch64RegisterId::X(3)),
            cpu.gpr(AArch64RegisterId::X(4)),
            cpu.gpr(AArch64RegisterId::X(5)),
        ];
        assert(args@ =~= seq![args[0], args[1], args[2], args[3], args[4], args[5]]);
        handle_syscall(nr, args, cpu)
    }
}

} // verus!
