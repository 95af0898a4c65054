use aarch64_vm::cpu::{Cpu, ExecError, FLAG_C, FLAG_N, FLAG_V, FLAG_Z};
use aarch64_vm::inst::AArch64RegisterId;
use aarch64_vm::interp::{execute, FlagPolicy, InterpretCodegen};
use aarch64_vm::ir::{Ir, IrType, Operand};
use aarch64_vm::syscall::{handle_syscall, AArch64UnixInterruptModel, SyscallEffect};
use aarch64_vm::vm::{step, StepEvent, VmError};

const BASE: u64 = 0x1000;

/// A CPU whose memory holds `code` at `BASE` followed by 256 zero bytes.
fn cpu_with(code: &[u32]) -> Cpu {
    let mut bytes = Vec::new();
    for w in code {
        bytes.extend_from_slice(&w.to_le_bytes());
    }
    bytes.extend_from_slice(&[0u8; 256]);
    Cpu::new(BASE, bytes, BASE)
}

fn x(n: u8) -> AArch64RegisterId {
    AArch64RegisterId::X(n)
}

fn run(cpu: &mut Cpu) -> Result<StepEvent, VmError> {
    step(cpu, FlagPolicy::Nzcv)
}

#[test]
fn add_immediate() {
    let mut cpu = cpu_with(&[0x91000421]);
    cpu.set_gpr(IrType::U64, x(1), 0x100);
    cpu.set_flag(FLAG_V);
    assert_eq!(run(&mut cpu), Ok(StepEvent::Continue));
    assert_eq!(cpu.gpr(x(1)), 0x101);
    assert_eq!(cpu.ip(), BASE + 4);
    assert_eq!(cpu.flag(), FLAG_V);
}

#[test]
fn movz() {
    let mut cpu = cpu_with(&[0xd2800540]);
    cpu.set_gpr(IrType::U64, x(0), 0xdead_beef);
    assert_eq!(run(&mut cpu), Ok(StepEvent::Continue));
    assert_eq!(cpu.gpr(x(0)), 42);
    assert_eq!(cpu.ip(), BASE + 4);
}

#[test]
fn cmp_equal_registers() {
    let mut cpu = cpu_with(&[0xeb01001f]);
    cpu.set_gpr(IrType::U64, x(0), 5);
    cpu.set_gpr(IrType::U64, x(1), 5);
    assert_eq!(run(&mut cpu), Ok(StepEvent::Continue));
    assert_eq!(cpu.gpr(x(0)), 5);
    assert_eq!(cpu.gpr(x(1)), 5);
    assert_eq!(cpu.flag(), FLAG_Z | FLAG_C);
    assert_eq!(cpu.flag() & FLAG_N, 0);
    assert_eq!(cpu.flag() & FLAG_V, 0);
}

#[test]
fn branch_forward() {
    let mut code = vec![0u32; 0x1004 / 4];
    code[0x1000 / 4] = 0x14000002;
    let mut cpu = cpu_with(&code);
    cpu.set_ip(0x2000);
    assert_eq!(run(&mut cpu), Ok(StepEvent::Continue));
    assert_eq!(cpu.ip(), 0x2008);
}

#[test]
fn ret_to_link_register() {
    let mut cpu = cpu_with(&[0xd65f03c0]);
    cpu.set_gpr(IrType::U64, x(30), 0x2000);
    assert_eq!(run(&mut cpu), Ok(StepEvent::Continue));
    assert_eq!(cpu.ip(), 0x2000);
}

#[test]
fn svc_exit_group() {
    let mut cpu = cpu_with(&[0xd4000001]);
    cpu.set_gpr(IrType::U64, x(8), 0x5e);
    cpu.set_gpr(IrType::U64, x(0), 0);
    assert_eq!(run(&mut cpu), Ok(StepEvent::Syscall { imm: 0 }));
    let effect = AArch64UnixInterruptModel.syscall(0, &mut cpu);
    assert!(matches!(effect, Ok(SyscallEffect::Exit { code: 0 })));
}

#[test]
fn zero_register_write_is_discarded() {
    // movz xzr, #42
    let mut cpu = cpu_with(&[0xd280055f]);
    assert_eq!(run(&mut cpu), Ok(StepEvent::Continue));
    for n in 0..31 {
        assert_eq!(cpu.gpr(x(n)), 0);
    }
    assert_eq!(cpu.gpr(AArch64RegisterId::Xzr), 0);
}

#[test]
fn zero_register_reads_zero() {
    // mov x0, x1 (orr x0, xzr, x1), then mov x2, xzr (orr x2, xzr, xzr)
    let mut cpu = cpu_with(&[0xaa0103e0, 0xaa1f03e2]);
    cpu.set_gpr(IrType::U64, x(1), 7);
    cpu.set_gpr(IrType::U64, x(2), 9);
    assert_eq!(run(&mut cpu), Ok(StepEvent::Continue));
    assert_eq!(run(&mut cpu), Ok(StepEvent::Continue));
    assert_eq!(cpu.gpr(x(0)), 7);
    assert_eq!(cpu.gpr(x(2)), 0);
}

#[test]
fn narrow_write_clears_upper_half() {
    // add w0, w0, #1 then movz w1, #1
    let mut cpu = cpu_with(&[0x11000400, 0x52800021]);
    cpu.set_gpr(IrType::U64, x(0), u64::MAX);
    cpu.set_gpr(IrType::U64, x(1), u64::MAX);
    assert_eq!(run(&mut cpu), Ok(StepEvent::Continue));
    assert_eq!(run(&mut cpu), Ok(StepEvent::Continue));
    assert_eq!(cpu.gpr(x(0)), 0);
    assert_eq!(cpu.gpr(x(1)), 1);
}

#[test]
fn conditional_branch_taken_and_not_taken() {
    // b.eq .+8
    let mut cpu = cpu_with(&[0x54000040]);
    cpu.set_flag(FLAG_Z);
    cpu.set_gpr(IrType::U64, x(3), 33);
    assert_eq!(run(&mut cpu), Ok(StepEvent::Continue));
    assert_eq!(cpu.ip(), BASE + 8);
    assert_eq!(cpu.gpr(x(3)), 33);

    let mut cpu = cpu_with(&[0x54000040]);
    cpu.set_flag(0);
    assert_eq!(run(&mut cpu), Ok(StepEvent::Continue));
    assert_eq!(cpu.ip(), BASE + 4);
}

#[test]
fn signed_condition_after_compare() {
    // cmp x0, x1 ; b.lt .+8   with x0 = -1, x1 = 1
    let mut cpu = cpu_with(&[0xeb01001f, 0x5400004b]);
    cpu.set_gpr(IrType::U64, x(0), u64::MAX);
    cpu.set_gpr(IrType::U64, x(1), 1);
    assert_eq!(run(&mut cpu), Ok(StepEvent::Continue));
    assert_eq!(cpu.flag(), FLAG_N | FLAG_C);
    assert_eq!(run(&mut cpu), Ok(StepEvent::Continue));
    assert_eq!(cpu.ip(), BASE + 12);
}

#[test]
fn branch_and_link() {
    // bl .+8
    let mut cpu = cpu_with(&[0x94000002]);
    assert_eq!(run(&mut cpu), Ok(StepEvent::Continue));
    assert_eq!(cpu.ip(), BASE + 8);
    assert_eq!(cpu.gpr(x(30)), BASE + 4);
}

#[test]
fn store_then_load() {
    // str x1, [x0] ; ldr x2, [x0] ; ldrb w3, [x0, #1]
    let mut cpu = cpu_with(&[0xf9000001, 0xf9400002, 0x39400403]);
    cpu.set_gpr(IrType::U64, x(0), BASE + 64);
    cpu.set_gpr(IrType::U64, x(1), 0x1122_3344_5566_7788);
    for _ in 0..3 {
        assert_eq!(run(&mut cpu), Ok(StepEvent::Continue));
    }
    assert_eq!(cpu.gpr(x(2)), 0x1122_3344_5566_7788);
    assert_eq!(cpu.gpr(x(3)), 0x77);
    assert_eq!(cpu.load(BASE + 64, 2), Ok(0x7788));
}

#[test]
fn sign_extending_load() {
    // ldrsb x2, [x0]
    let mut cpu = cpu_with(&[0x39800002]);
    cpu.set_gpr(IrType::U64, x(0), BASE + 64);
    cpu.store(BASE + 64, 1, 0x80).unwrap();
    assert_eq!(run(&mut cpu), Ok(StepEvent::Continue));
    assert_eq!(cpu.gpr(x(2)), 0xffff_ffff_ffff_ff80);
}

#[test]
fn load_outside_memory() {
    let mut cpu = cpu_with(&[0xf9400002]);
    cpu.set_gpr(IrType::U64, x(0), 0x10);
    assert_eq!(
        run(&mut cpu),
        Err(VmError::Exec { err: ExecError::BadMemory { addr: 0x10 }, ip: BASE })
    );
}

#[test]
fn fetch_outside_memory() {
    let mut cpu = cpu_with(&[]);
    cpu.set_ip(0);
    assert_eq!(run(&mut cpu), Err(VmError::Exec { err: ExecError::BadMemory { addr: 0 }, ip: 0 }));
}

#[test]
fn uncovered_instruction_traps() {
    // rev x0, x1 (a byte reversal)
    let mut cpu = cpu_with(&[0xdac00c20]);
    assert_eq!(
        run(&mut cpu),
        Err(VmError::Exec { err: ExecError::Unimplemented { word: 0xdac00c20 }, ip: BASE })
    );
}

#[test]
fn undecodable_word_fails() {
    let mut cpu = cpu_with(&[0]);
    assert!(matches!(run(&mut cpu), Err(VmError::Decode { ip: BASE, .. })));
}

#[test]
fn shift_amount_wraps_at_width() {
    // lsl x0, x1, x2 (lslv) with x2 = 65 shifts by 1
    let mut cpu = cpu_with(&[0x9ac22020]);
    cpu.set_gpr(IrType::U64, x(1), 3);
    cpu.set_gpr(IrType::U64, x(2), 65);
    assert_eq!(run(&mut cpu), Ok(StepEvent::Continue));
    assert_eq!(cpu.gpr(x(0)), 6);
}

#[test]
fn divide_by_zero_yields_zero() {
    // udiv x0, x1, x2 ; sdiv x3, x4, x5
    let mut cpu = cpu_with(&[0x9ac20820, 0x9ac50c83]);
    cpu.set_gpr(IrType::U64, x(0), 5);
    cpu.set_gpr(IrType::U64, x(1), 7);
    cpu.set_gpr(IrType::U64, x(4), (-7i64) as u64);
    cpu.set_gpr(IrType::U64, x(5), 2);
    assert_eq!(run(&mut cpu), Ok(StepEvent::Continue));
    assert_eq!(run(&mut cpu), Ok(StepEvent::Continue));
    assert_eq!(cpu.gpr(x(0)), 0);
    assert_eq!(cpu.gpr(x(3)), (-3i64) as u64);
}

#[test]
fn ip_wraps_around() {
    let mut cpu = cpu_with(&[0x17ffffff]);
    // b .-4 from the lowest mapped word goes below the base
    assert_eq!(run(&mut cpu), Ok(StepEvent::Continue));
    assert_eq!(cpu.ip(), BASE - 4);
}

#[test]
fn syscall_write_and_ids() {
    let mut cpu = cpu_with(&[]);
    cpu.store(BASE + 8, 2, 0x6968).unwrap();
    let r = handle_syscall(0x40, [1, BASE + 8, 2, 0, 0, 0], &mut cpu);
    match r {
        Ok(SyscallEffect::Write { fd, data }) => {
            assert_eq!(fd, 1);
            assert_eq!(data, b"hi".to_vec());
        }
        other => panic!("unexpected {:?}", other),
    }
    assert_eq!(cpu.gpr(x(0)), 2);
    cpu.set_gpr(IrType::U64, x(0), 77);
    assert!(matches!(handle_syscall(0xaf, [0; 6], &mut cpu), Ok(SyscallEffect::Done)));
    assert_eq!(cpu.gpr(x(0)), 0);
}

#[test]
fn syscall_errors() {
    let mut cpu = cpu_with(&[]);
    assert!(matches!(handle_syscall(0x999, [0; 6], &mut cpu), Err(ExecError::UnknownSyscall { nr: 0x999 })));
    assert!(matches!(
        handle_syscall(0x40, [1, 0x10, 4, 0, 0, 0], &mut cpu),
        Err(ExecError::BadMemory { addr: 0x10 })
    ));
}

#[test]
fn test_bits_sets_flags_only() {
    // tst x0, x1 (ands xzr, x0, x1)
    let mut cpu = cpu_with(&[0xea01001f, 0xea01001f]);
    cpu.set_gpr(IrType::U64, x(0), 0x8000_0000_0000_0001);
    cpu.set_gpr(IrType::U64, x(1), 0x8000_0000_0000_0000);
    cpu.set_flag(FLAG_C | FLAG_V);
    assert_eq!(run(&mut cpu), Ok(StepEvent::Continue));
    assert_eq!(cpu.flag(), FLAG_N);
    assert_eq!(cpu.gpr(x(0)), 0x8000_0000_0000_0001);
    cpu.set_gpr(IrType::U64, x(1), 2);
    assert_eq!(run(&mut cpu), Ok(StepEvent::Continue));
    assert_eq!(cpu.flag(), FLAG_Z);
}

#[test]
fn shifts_by_immediate() {
    // lsl x0, x1, #4 ; lsr x2, x1, #4 ; asr x3, x1, #4
    let mut cpu = cpu_with(&[0xd37cec20, 0xd344fc22, 0x9344fc23]);
    cpu.set_gpr(IrType::U64, x(1), 0xf000_0000_0000_00f1);
    for _ in 0..3 {
        assert_eq!(run(&mut cpu), Ok(StepEvent::Continue));
    }
    assert_eq!(cpu.gpr(x(0)), 0x0000_0000_0000_0f10);
    assert_eq!(cpu.gpr(x(2)), 0x0f00_0000_0000_000f);
    assert_eq!(cpu.gpr(x(3)), 0xff00_0000_0000_000f);
}

#[test]
fn extends() {
    // uxtb w0, w1 ; sxtw x2, w1
    let mut cpu = cpu_with(&[0x53001c20, 0x93407c22]);
    cpu.set_gpr(IrType::U64, x(1), 0x1234_5678_8000_01ff);
    assert_eq!(run(&mut cpu), Ok(StepEvent::Continue));
    assert_eq!(run(&mut cpu), Ok(StepEvent::Continue));
    assert_eq!(cpu.gpr(x(0)), 0xff);
    assert_eq!(cpu.gpr(x(2)), 0xffff_ffff_8000_01ff);
}

#[test]
fn add_extended_register() {
    // add x0, x1, w2, uxtw
    let mut cpu = cpu_with(&[0x8b224020]);
    cpu.set_gpr(IrType::U64, x(1), 1);
    cpu.set_gpr(IrType::U64, x(2), 0xffff_ffff_ffff_ffff);
    assert_eq!(run(&mut cpu), Ok(StepEvent::Continue));
    assert_eq!(cpu.gpr(x(0)), 0x1_0000_0000);
}

#[test]
fn load_register_offset() {
    // ldr x2, [x0, x1, lsl #3]
    let mut cpu = cpu_with(&[0xf8617802]);
    cpu.set_gpr(IrType::U64, x(0), BASE + 64);
    cpu.set_gpr(IrType::U64, x(1), 2);
    cpu.store(BASE + 80, 8, 0xabcd).unwrap();
    assert_eq!(run(&mut cpu), Ok(StepEvent::Continue));
    assert_eq!(cpu.gpr(x(2)), 0xabcd);
}

#[test]
fn pre_and_post_indexed_pairs() {
    // stp x29, x30, [sp, #-16]! ; movz x29, #0 ; ldp x29, x30, [sp], #16
    let mut cpu = cpu_with(&[0xa9bf7bfd, 0xd280001d, 0xa8c17bfd]);
    let top = BASE + 256;
    cpu.set_gpr(IrType::U64, AArch64RegisterId::Sp, top);
    cpu.set_gpr(IrType::U64, x(29), 0x29);
    cpu.set_gpr(IrType::U64, x(30), 0x30);
    assert_eq!(run(&mut cpu), Ok(StepEvent::Continue));
    assert_eq!(cpu.gpr(AArch64RegisterId::Sp), top - 16);
    assert_eq!(cpu.load(top - 16, 8), Ok(0x29));
    assert_eq!(cpu.load(top - 8, 8), Ok(0x30));
    assert_eq!(run(&mut cpu), Ok(StepEvent::Continue));
    assert_eq!(cpu.gpr(x(29)), 0);
    assert_eq!(run(&mut cpu), Ok(StepEvent::Continue));
    assert_eq!(cpu.gpr(x(29)), 0x29);
    assert_eq!(cpu.gpr(x(30)), 0x30);
    assert_eq!(cpu.gpr(AArch64RegisterId::Sp), top);
}

#[test]
fn indexed_and_unscaled_registers() {
    // str x0, [sp, #-8]! ; ldr x1, [sp], #8 ; ldur x2, [x3, #-8]
    let mut cpu = cpu_with(&[0xf81f8fe0, 0xf84087e1, 0xf85f8062]);
    let top = BASE + 256;
    cpu.set_gpr(IrType::U64, AArch64RegisterId::Sp, top);
    cpu.set_gpr(IrType::U64, x(0), 0x1234);
    cpu.set_gpr(IrType::U64, x(3), top);
    for _ in 0..3 {
        assert_eq!(run(&mut cpu), Ok(StepEvent::Continue));
    }
    assert_eq!(cpu.gpr(x(1)), 0x1234);
    assert_eq!(cpu.gpr(x(2)), 0x1234);
    assert_eq!(cpu.gpr(AArch64RegisterId::Sp), top);
}

#[test]
fn logical_immediates() {
    // and x0, x1, #1 ; orr x2, xzr, #0x5555555555555555 ; and w3, w1, #0xff ; orr x4, xzr, #0x8000000000000001
    let mut cpu = cpu_with(&[0x92400020, 0xb200f3e2, 0x12001c23, 0xb24107e4]);
    cpu.set_gpr(IrType::U64, x(1), 0xffff_ffff_ffff_ff03);
    for _ in 0..4 {
        assert_eq!(run(&mut cpu), Ok(StepEvent::Continue));
    }
    assert_eq!(cpu.gpr(x(0)), 1);
    assert_eq!(cpu.gpr(x(2)), 0x5555_5555_5555_5555);
    assert_eq!(cpu.gpr(x(3)), 0x03);
    assert_eq!(cpu.gpr(x(4)), 0x8000_0000_0000_0001);
}

#[test]
fn conditional_compare() {
    // cmp x0, #1 ; ccmp x1, #2, #0, eq
    let cases = [(1u64, 2u64, FLAG_Z | FLAG_C), (0, 2, 0), (1, 3, FLAG_C)];
    for (a, b, flags) in cases {
        let mut cpu = cpu_with(&[0xf100041f, 0xfa420820]);
        cpu.set_gpr(IrType::U64, x(0), a);
        cpu.set_gpr(IrType::U64, x(1), b);
        assert_eq!(run(&mut cpu), Ok(StepEvent::Continue));
        assert_eq!(run(&mut cpu), Ok(StepEvent::Continue));
        assert_eq!(cpu.flag(), flags);
    }
}

#[test]
fn barriers_run_as_no_operations() {
    // dmb ish
    let mut cpu = cpu_with(&[0xd5033bbf]);
    assert_eq!(run(&mut cpu), Ok(StepEvent::Continue));
    assert_eq!(cpu.ip(), BASE + 4);
}

#[test]
fn literal_load() {
    // ldr x0, .+8
    let mut cpu = cpu_with(&[0x58000040, 0, 0x89ab_cdef, 0x0123_4567]);
    assert_eq!(run(&mut cpu), Ok(StepEvent::Continue));
    assert_eq!(cpu.gpr(x(0)), 0x0123_4567_89ab_cdef);
}

#[test]
fn exclusive_pair_of_accesses_succeeds() {
    // ldxr x0, [x1] ; stxr w2, x0, [x1] ; ldar w3, [x1]
    let mut cpu = cpu_with(&[0xc85f7c20, 0xc8027c20, 0x88dffc23]);
    cpu.set_gpr(IrType::U64, x(1), BASE + 64);
    cpu.set_gpr(IrType::U64, x(2), 9);
    cpu.store(BASE + 64, 8, 0x55).unwrap();
    for _ in 0..3 {
        assert_eq!(run(&mut cpu), Ok(StepEvent::Continue));
    }
    assert_eq!(cpu.gpr(x(0)), 0x55);
    assert_eq!(cpu.gpr(x(2)), 0);
    assert_eq!(cpu.gpr(x(3)), 0x55);
}

#[test]
fn add_and_subtract_with_carry() {
    // adc x0, x1, x2 ; sbc x3, x1, x2
    let mut cpu = cpu_with(&[0x9a020020, 0xda020023]);
    cpu.set_gpr(IrType::U64, x(1), 1);
    cpu.set_gpr(IrType::U64, x(2), 2);
    cpu.set_flag(FLAG_C);
    assert_eq!(run(&mut cpu), Ok(StepEvent::Continue));
    assert_eq!(run(&mut cpu), Ok(StepEvent::Continue));
    assert_eq!(cpu.gpr(x(0)), 4);
    assert_eq!(cpu.gpr(x(3)), u64::MAX);
}

#[test]
fn bitfield_inserts() {
    // bfxil x0, x1, #0, #4 ; bfi x2, x1, #8, #4
    let mut cpu = cpu_with(&[0xb3400c20, 0xb3780c22]);
    cpu.set_gpr(IrType::U64, x(0), 0xffff_ffff_ffff_ffff);
    cpu.set_gpr(IrType::U64, x(1), 0x1234_5675);
    cpu.set_gpr(IrType::U64, x(2), 0xaaaa_aaaa_aaaa_aaaa);
    assert_eq!(run(&mut cpu), Ok(StepEvent::Continue));
    assert_eq!(run(&mut cpu), Ok(StepEvent::Continue));
    assert_eq!(cpu.gpr(x(0)), 0xffff_ffff_ffff_fff5);
    assert_eq!(cpu.gpr(x(2)), 0xaaaa_aaaa_aaaa_a5aa);
}

#[test]
fn branch_with_link_through_link_register() {
    // blr x30
    let mut cpu = cpu_with(&[0xd63f03c0]);
    cpu.set_gpr(IrType::U64, x(30), BASE + 8);
    assert_eq!(run(&mut cpu), Ok(StepEvent::Continue));
    assert_eq!(cpu.ip(), BASE + 8);
    assert_eq!(cpu.gpr(x(30)), BASE + 4);
}

#[test]
fn failed_run_leaves_flags() {
    let ir = Ir::Add(
        IrType::U64,
        Operand::Ir(Box::new(Ir::Subc(IrType::U64, Operand::Immediate(IrType::U64, 1), Operand::Immediate(IrType::U64, 1)))),
        Operand::Ir(Box::new(Ir::Load(IrType::U64, Operand::Immediate(IrType::U64, 0x10)))),
    );
    let mut cpu = cpu_with(&[]);
    cpu.set_flag(FLAG_N);
    let code = InterpretCodegen::new(FlagPolicy::Nzcv).compile(ir);
    assert_eq!(execute(&code, &mut cpu), Err(ExecError::BadMemory { addr: 0x10 }));
    assert_eq!(cpu.flag(), FLAG_N);
}

#[test]
fn wide_load_needs_all_bytes() {
    let mut cpu = Cpu::new(0, vec![1, 0, 0, 0, 0, 0, 0, 0], 0);
    let code = InterpretCodegen::new(FlagPolicy::Nzcv).compile(Ir::Load(IrType::U128, Operand::Immediate(IrType::U64, 0)));
    assert_eq!(execute(&code, &mut cpu), Err(ExecError::BadMemory { addr: 0 }));
    let mut cpu = Cpu::new(0, vec![1; 16], 0);
    assert_eq!(execute(&code, &mut cpu).map(|v| v.u64()), Ok(0x0101_0101_0101_0101));
}

#[test]
fn test_immediate() {
    // tst x0, #1
    let mut cpu = cpu_with(&[0xf240001f, 0xf240001f]);
    cpu.set_gpr(IrType::U64, x(0), 2);
    assert_eq!(run(&mut cpu), Ok(StepEvent::Continue));
    assert_eq!(cpu.flag(), FLAG_Z);
    assert_eq!(cpu.gpr(x(0)), 2);
    cpu.set_gpr(IrType::U64, x(0), 3);
    assert_eq!(run(&mut cpu), Ok(StepEvent::Continue));
    assert_eq!(cpu.flag(), 0);
}
