use aarch64_vm::bits::{extract_bits, BitPattern, BitPatternMatcher};

#[test]
fn pattern_parses_msb_first() {
    let p = BitPattern::parse("x_xx_100010_xxxxxxxxxxxxxxxxxxxxxxx").unwrap();
    assert_eq!(p.mask, 0x1f80_0000);
    assert_eq!(p.value, 0x1100_0000);
    assert!(p.matches(0x9100_0421));
    assert!(!p.matches(0x9200_0421));
}

#[test]
fn malformed_patterns_are_refused() {
    assert_eq!(BitPattern::parse("x_xx_100010"), None);
    assert_eq!(BitPattern::parse("x_xx_100010_xxxxxxxxxxxxxxxxxxxxxxxx"), None);
    assert_eq!(BitPattern::parse("x_xx_100210_xxxxxxxxxxxxxxxxxxxxxxx"), None);
    let mut m: BitPatternMatcher<u8> = BitPatternMatcher::new();
    assert!(!m.bind("01", 1));
    assert_eq!(m.rules.len(), 0);
}

#[test]
fn first_matching_rule_wins() {
    let mut m = BitPatternMatcher::new();
    assert!(m.bind("x_xx_100x_xxxxxxxxxxxxxxxxxxxxxxxxx", 1u8));
    assert!(m.bind("x_xx_1xxx_xxxxxxxxxxxxxxxxxxxxxxxxx", 2u8));
    assert_eq!(m.handle(0x9100_0421), Some(1));
    assert_eq!(m.handle(0x1400_0002), Some(2));
    assert_eq!(m.handle(0x0000_0000), None);
}

#[test]
fn fields_are_extracted() {
    assert_eq!(extract_bits(0x9100_0421, 10, 22), 1);
    assert_eq!(extract_bits(0x9100_0421, 29, 32), 0b100);
    assert_eq!(extract_bits(0xdead_beef, 0, 32), 0xdead_beef);
}
