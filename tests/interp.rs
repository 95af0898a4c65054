use aarch64_vm::cpu::{Cpu, FLAG_C, FLAG_Z};
use aarch64_vm::image::Image;
use aarch64_vm::interp::{execute, FlagPolicy, InterpretCodegen, Value};
use aarch64_vm::ir::{Ir, IrType, Operand};

fn imm(t: IrType, k: u64) -> Operand {
    Operand::Immediate(t, k)
}

fn eval(ir: Ir) -> u64 {
    let mut cpu = Cpu::new(0, vec![0; 16], 0);
    let code = InterpretCodegen::new(FlagPolicy::Nzcv).compile(ir);
    execute(&code, &mut cpu).unwrap().u64()
}

#[test]
fn arithmetic_wraps_at_width() {
    assert_eq!(eval(Ir::Add(IrType::U8, imm(IrType::U8, 200), imm(IrType::U8, 100))), 44);
    assert_eq!(eval(Ir::Sub(IrType::U16, imm(IrType::U16, 1), imm(IrType::U16, 2))), 0xffff);
    assert_eq!(eval(Ir::Mul(IrType::U32, imm(IrType::U32, 0x1_0000), imm(IrType::U32, 0x1_0001))), 0x1_0000);
    assert_eq!(eval(Ir::Add(IrType::U64, imm(IrType::U64, u64::MAX), imm(IrType::U64, 2))), 1);
}

#[test]
fn casts_of_immediates() {
    assert_eq!(eval(Ir::ZextCast(IrType::U8, imm(IrType::U32, 0x1ff))), 0xff);
    assert_eq!(eval(Ir::SextCast(IrType::U64, imm(IrType::I8, 0x80))), 0xffff_ffff_ffff_ff80);
    assert_eq!(eval(Ir::SextCast(IrType::U32, imm(IrType::I16, 0x1_7fff))), 0x7fff);
    assert_eq!(eval(Ir::BitCast(IrType::U16, imm(IrType::U64, 0x1234_5678))), 0x5678);
}

#[test]
fn peephole_folds() {
    let and = Ir::And(IrType::U64, imm(IrType::U64, 0xf0f0), imm(IrType::U64, 0xff00));
    let code = InterpretCodegen::new(FlagPolicy::Nzcv).compile(and);
    assert!(matches!(code.ir, Ir::Value(Operand::Immediate(IrType::U64, 0xf000))));
    let pick = Ir::If(IrType::U64, imm(IrType::Bool, 1), imm(IrType::U64, 5), imm(IrType::U64, 6));
    assert_eq!(eval(pick), 5);
    let nested = Ir::Value(Operand::Ir(Box::new(Ir::Add(IrType::U64, Operand::Ip, imm(IrType::I64, (-4i64) as u64)))));
    let code = InterpretCodegen::new(FlagPolicy::Nzcv).compile(nested);
    assert!(matches!(code.ir, Ir::Add(..)));
}

#[test]
fn compiled_twice_gives_same_result() {
    let build = || Ir::Xor(IrType::U32, Operand::Flag, imm(IrType::U32, 0xffff_ffff));
    let cg = InterpretCodegen::new(FlagPolicy::Nzcv);
    let (a, b) = (cg.compile(build()), cg.compile(build()));
    let mut c1 = Cpu::new(0, vec![], 0);
    let mut c2 = Cpu::new(0, vec![], 0);
    c1.set_flag(0x1234);
    c2.set_flag(0x1234);
    assert_eq!(execute(&a, &mut c1), execute(&b, &mut c2));
}

#[test]
fn flag_policies() {
    let sub = || Ir::Subc(IrType::U32, imm(IrType::U32, 3), imm(IrType::U32, 3));
    let mut cpu = Cpu::new(0, vec![], 0);
    let code = InterpretCodegen::new(FlagPolicy::Nzcv).compile(sub());
    assert_eq!(execute(&code, &mut cpu), Ok(Value { lo: 0, hi: 0 }));
    assert_eq!(cpu.flag(), FLAG_Z | FLAG_C);
    let mut cpu = Cpu::new(0, vec![], 0);
    let code = InterpretCodegen::new(FlagPolicy::Preserve).compile(sub());
    execute(&code, &mut cpu).unwrap();
    assert_eq!(cpu.flag(), 0);
}

#[test]
fn shifts_and_rotates() {
    assert_eq!(eval(Ir::LShl(IrType::U32, imm(IrType::U32, 1), imm(IrType::U32, 33))), 2);
    assert_eq!(eval(Ir::LShr(IrType::U8, imm(IrType::U8, 0x80), imm(IrType::U8, 7))), 1);
    assert_eq!(eval(Ir::AShr(IrType::I8, imm(IrType::I8, 0x80), imm(IrType::U8, 2))), 0xe0);
    assert_eq!(eval(Ir::Rotr(IrType::U16, imm(IrType::U16, 1), imm(IrType::U16, 1))), 0x8000);
}

#[test]
fn comparisons() {
    assert_eq!(eval(Ir::CmpGt(imm(IrType::I32, 0xffff_ffff), imm(IrType::I32, 1))), 0);
    assert_eq!(eval(Ir::CmpGt(imm(IrType::U32, 0xffff_ffff), imm(IrType::U32, 1))), 1);
    assert_eq!(eval(Ir::CmpEq(imm(IrType::U8, 0x101), imm(IrType::U8, 1))), 1);
    assert_eq!(eval(Ir::CmpNe(imm(IrType::U8, 3), imm(IrType::U8, 3))), 0);
}

#[test]
fn division() {
    assert_eq!(eval(Ir::Div(IrType::U64, imm(IrType::U64, 7), imm(IrType::U64, 0))), 0);
    assert_eq!(eval(Ir::Div(IrType::I64, imm(IrType::I64, (-7i64) as u64), imm(IrType::I64, 2))), (-3i64) as u64);
    assert_eq!(eval(Ir::Div(IrType::I8, imm(IrType::I8, 0x80), imm(IrType::I8, 0xff))), 0x80);
}

#[test]
fn value_accessors() {
    let v = Value { lo: 0xffff_ffff_ffff_fffe, hi: 0 };
    assert_eq!(v.u8(), 0xfe);
    assert_eq!(v.i8(), -2);
    assert_eq!(v.i16(), -2);
    assert_eq!(v.u32(), 0xffff_fffe);
    assert_eq!(v.i64(), -2);
}

#[test]
fn type_sizes() {
    assert_eq!(IrType::Bool.size_in_bytes(), 1);
    assert_eq!(IrType::I16.size_in_bytes(), 2);
    assert_eq!(IrType::F32.size_in_bytes(), 4);
    assert_eq!(IrType::U64.size_in_bytes(), 8);
    assert_eq!(IrType::U128.size_in_bytes(), 16);
    assert_eq!(IrType::Void.size_in_bytes(), 0);
}

#[test]
fn image_sections() {
    let mut img = Image::from_image((0u8..32).collect());
    img.add_section(".text", 0x40_0000, 4, 8);
    img.add_section(".data", 0x60_0000, 8, 10);
    img.add_section(".text", 0x41_0000, 0, 2);
    assert_eq!(img.section_addr(".text"), 0x41_0000);
    assert_eq!(img.section_data(".text"), &[0u8, 1][..]);
    assert_eq!(img.section_data(".data"), &[8u8, 9][..]);
    let mut names = img.sections();
    assert_eq!(names.len(), 2);
    names.sort();
    assert_eq!(names, vec![".data".to_string(), ".text".to_string()]);
}
