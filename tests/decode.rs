use aarch64_vm::decode::parse_aarch64_instr;
use aarch64_vm::inst::{AArch64Inst, AArch64RegisterId, DecodeError, ShImm12RnRd, UncondBranchReg};
use aarch64_vm::instruction::{decode, AArch64InstrParserRule};

fn word(w: u32) -> Result<AArch64Inst, DecodeError> {
    decode(&w.to_le_bytes())
}

#[test]
fn udf() {
    assert_eq!(word(0), Err(DecodeError::ReservedEncoding { word: 0 }));
}

#[test]
fn add_immediate_decodes() {
    let expect = AArch64Inst::AddImm64(ShImm12RnRd {
        sh: 0,
        imm12: 1,
        rn: AArch64RegisterId::X(1),
        rd: AArch64RegisterId::X(1),
    });
    assert_eq!(word(0x91000421), Ok(expect));
}

#[test]
fn stack_pointer_and_zero_register_are_told_apart() {
    // add sp, sp, #16 and adds xzr, sp, #16 (cmn sp, #16)
    match word(0x910043ff).unwrap() {
        AArch64Inst::AddImm64(r) => {
            assert_eq!(r.rd, AArch64RegisterId::Sp);
            assert_eq!(r.rn, AArch64RegisterId::Sp);
        }
        other => panic!("unexpected {:?}", other),
    }
    match word(0xb10043ff).unwrap() {
        AArch64Inst::AddsImm64(r) => {
            assert_eq!(r.rd, AArch64RegisterId::Xzr);
            assert_eq!(r.rn, AArch64RegisterId::Sp);
        }
        other => panic!("unexpected {:?}", other),
    }
}

#[test]
fn ret_decodes() {
    assert_eq!(word(0xd65f03c0), Ok(AArch64Inst::Ret(UncondBranchReg { rn: AArch64RegisterId::X(30) })));
}

#[test]
fn cmp_is_subs_to_zero_register() {
    match word(0xeb01001f).unwrap() {
        AArch64Inst::SubsShiftedReg64(r) => {
            assert_eq!(r.rd, AArch64RegisterId::Xzr);
            assert_eq!(r.rn, AArch64RegisterId::X(0));
            assert_eq!(r.rm, AArch64RegisterId::X(1));
        }
        other => panic!("unexpected {:?}", other),
    }
}

#[test]
fn conditional_selects_are_distinct() {
    // csel, csinc, csinv, csneg x0, x1, x2, eq
    assert!(matches!(word(0x9a820020), Ok(AArch64Inst::Csel64(_))));
    assert!(matches!(word(0x9a820420), Ok(AArch64Inst::Csinc64(_))));
    assert!(matches!(word(0xda820020), Ok(AArch64Inst::Csinv64(_))));
    assert!(matches!(word(0xda820420), Ok(AArch64Inst::Csneg64(_))));
}

#[test]
fn reserved_shift_amount_of_32_bit_form() {
    // and w0, w1, w2, lsl #32 has imm6 bit 5 set
    let w = 0x0a028020;
    assert_eq!(word(w), Err(DecodeError::ReservedEncoding { word: w }));
}

#[test]
fn extract_needs_matching_sf_and_n() {
    // extr x0, x1, x2, #3 decodes; the same with n cleared does not
    assert!(matches!(word(0x93c20c20), Ok(AArch64Inst::Extr64(_))));
    let w = 0x93820c20;
    assert_eq!(word(w), Err(DecodeError::UnknownInstruction { word: w }));
}

#[test]
fn move_wide_32_bit_needs_small_hw() {
    assert!(matches!(word(0x52a00020), Ok(AArch64Inst::MovzVar32(_))));
    let w = 0x52c00020;
    assert_eq!(word(w), Err(DecodeError::UnknownInstruction { word: w }));
}

#[test]
fn load_store_pair_variants_are_distinct() {
    // stp x29, x30, [sp, #-16]; ldp x29, x30, [sp, #-16]; ldpsw x0, x1, [sp]
    assert!(matches!(word(0xa93f7bfd), Ok(AArch64Inst::StpVar64(_))));
    assert!(matches!(word(0xa97f7bfd), Ok(AArch64Inst::LdpVar64(_))));
    assert!(matches!(word(0x694007e0), Ok(AArch64Inst::Ldpsw(_))));
}

#[test]
fn unallocated_and_unlisted_groups() {
    let w = 0x0200_0000;
    assert_eq!(word(w), Err(DecodeError::UnknownInstruction { word: w }));
    let sve = 0x0400_0000;
    assert_eq!(word(sve), Err(DecodeError::UnknownInstruction { word: sve }));
}

#[test]
fn decoded_words_encode_back() {
    let words = [
        0x91000421u32, 0xd2800540, 0xeb01001f, 0x14000002, 0xd65f03c0, 0xd4000001, 0xa93f7bfd, 0xf9400002,
        0x9a820420, 0x93c20c20, 0x54000040, 0xb4000040, 0x36080040, 0x90000000, 0x1b020c20, 0x9ac20820,
        0xd503201f, 0xd503233f, 0x8b020c20, 0x8b224020, 0x38626820, 0x1f420c20,
    ];
    for w in words {
        let inst = parse_aarch64_instr(w).unwrap();
        assert_eq!(inst.encode(), w);
        assert_eq!(parse_aarch64_instr(inst.encode()), Ok(inst));
    }
}

#[test]
fn every_word_decodes_without_panic() {
    let mut x: u32 = 0x1234_5678;
    let mut ok = 0;
    for _ in 0..200_000 {
        x = x.wrapping_mul(1_664_525).wrapping_add(1_013_904_223);
        if let Ok(inst) = parse_aarch64_instr(x) {
            assert_eq!(inst.encode(), x);
            ok += 1;
        }
    }
    assert!(ok > 0);
}

#[test]
fn more_groups_decode() {
    assert!(matches!(word(0xd5033bbf), Ok(AArch64Inst::Dmb(_))));
    assert!(matches!(word(0x58000040), Ok(AArch64Inst::LdrLitVar64(_))));
    assert!(matches!(word(0xc85f7c20), Ok(AArch64Inst::LdxrVar64(_))));
    assert!(matches!(word(0xc8027c20), Ok(AArch64Inst::StxrVar64(_))));
    assert!(matches!(word(0x88dffc23), Ok(AArch64Inst::LdarVar32(_))));
    assert!(matches!(word(0x9a020020), Ok(AArch64Inst::AdcVar64(_))));
    assert!(matches!(word(0xdac00c20), Ok(AArch64Inst::RevVar64(_))));
    assert!(matches!(word(0xfa420820), Ok(AArch64Inst::CcmpImmVar64(_))));
    for w in [0xd5033bbfu32, 0x58000040, 0xc85f7c20, 0xc8027c20, 0x88dffc23, 0x9a020020, 0xdac00c20, 0xfa420820, 0xa9bf7bfd, 0xf81f8fe0] {
        assert_eq!(word(w).unwrap().encode(), w);
    }
}

#[test]
fn stream_of_instructions() {
    let mut code = Vec::new();
    for w in [0x91000421u32, 0xd65f03c0] {
        code.extend_from_slice(&w.to_le_bytes());
    }
    code.push(0);
    let rule = AArch64InstrParserRule;
    assert!(matches!(rule.parse(&code, 0), Some(Ok(AArch64Inst::AddImm64(_)))));
    assert!(matches!(rule.parse(&code, 4), Some(Ok(AArch64Inst::Ret(_)))));
    assert_eq!(rule.parse(&code, 8), None);
    assert_eq!(rule.parse(&code, 100), None);
}

#[test]
fn system_and_floating_point_groups_decode() {
    let cases: [(u32, fn(&AArch64Inst) -> bool); 7] = [
        (0xd53bd040, |i| matches!(i, AArch64Inst::Mrs(_))),
        (0xd51bd040, |i| matches!(i, AArch64Inst::MsrReg(_))),
        (0x1e612000, |i| matches!(i, AArch64Inst::Fcmp(_))),
        (0x1e6e1000, |i| matches!(i, AArch64Inst::FmovScalarImmDoublePrecisionVar(_))),
        (0xa84007e0, |i| matches!(i, AArch64Inst::LdnpVar64(_))),
        (0xc8a07c41, |i| matches!(i, AArch64Inst::CasVar64(_))),
        (0x48207c82, |i| matches!(i, AArch64Inst::CaspVar64(_))),
    ];
    for (w, is) in cases {
        let inst = word(w).unwrap();
        assert!(is(&inst), "{:#x} gave {:?}", w, inst);
        assert_eq!(inst.encode(), w);
    }
}
