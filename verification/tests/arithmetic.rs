use yanes::cpu::CPU;

#[test]
fn test_sbc_basic() {
    let mut cpu = CPU::new();
    cpu.load(vec![0xa9, 0x00, 0xe9, 0x01, 0x00]).unwrap();
    cpu.reset();
    cpu.run().unwrap();
    assert!(cpu.a == 0xFE);
    assert!(cpu.p.n);
    assert!(!cpu.p.z);
    assert!(!cpu.p.c);
    assert!(!cpu.p.v);
}

#[test]
fn test_sbc_decimal_mode1() {
    let mut cpu = CPU::new();
    cpu.load(vec![
        0xf8, // SED
        0xa9, 0x00, 0xe9, 0x00, 0x00,
    ])
    .unwrap();
    cpu.reset();
    cpu.run().unwrap();
    assert!(cpu.a == 0x99);
    assert!(cpu.p.n);
    assert!(!cpu.p.v);
    assert!(!cpu.p.z);
    assert!(!cpu.p.c);
}

#[test]
fn test_sbc_decimal_mode2() {
    let mut cpu = CPU::new();
    cpu.load(vec![
        0xf8, // SED
        0x38, // SEC
        0xa9, 0x00, 0xe9, 0x00, 0x00,
    ])
    .unwrap();
    cpu.reset();
    cpu.run().unwrap();
    assert!(cpu.a == 0x00);
    assert!(!cpu.p.n);
    assert!(!cpu.p.v);
    assert!(cpu.p.z);
    assert!(cpu.p.c);
}

#[test]
fn test_sbc_decimal_mode3() {
    let mut cpu = CPU::new();
    cpu.load(vec![
        0xf8, // SED
        0x38, // SEC
        0xa9, 0x00, 0xe9, 0x01, 0x00,
    ])
    .unwrap();
    cpu.reset();
    cpu.run().unwrap();
    assert!(cpu.a == 0x99);
    assert!(cpu.p.n);
    assert!(!cpu.p.v);
    assert!(!cpu.p.z);
    assert!(!cpu.p.c);
}

#[test]
fn test_sbc_decimal_mode4() {
    let mut cpu = CPU::new();
    cpu.load(vec![
        0xf8, // SED
        0x38, // SEC
        0xa9, 0x0a, 0xe9, 0x00, 0x00,
    ])
    .unwrap();
    cpu.reset();
    cpu.run().unwrap();
    assert!(cpu.a == 0x0a);
    assert!(!cpu.p.n);
    assert!(!cpu.p.v);
    assert!(!cpu.p.z);
    assert!(cpu.p.c);
}

#[test]
fn test_sbc_decimal_mode5() {
    let mut cpu = CPU::new();
    cpu.load(vec![
        0xf8, // SED
        0xa9, 0x0b, 0xe9, 0x00, 0x00,
    ])
    .unwrap();
    cpu.reset();
    cpu.run().unwrap();
    assert!(cpu.a == 0x0a);
    assert!(!cpu.p.n);
    assert!(!cpu.p.v);
    assert!(!cpu.p.z);
    assert!(cpu.p.c);
}

#[test]
fn test_sbc_decimal_mode6() {
    let mut cpu = CPU::new();
    cpu.load(vec![
        0xf8, // SED
        0x38, // SEC
        0xa9, 0x9a, 0xe9, 0x00, 0x00,
    ])
    .unwrap();
    cpu.reset();
    cpu.run().unwrap();
    assert!(cpu.a == 0x9a);
    assert!(cpu.p.n);
    assert!(!cpu.p.v);
    assert!(!cpu.p.z);
    assert!(cpu.p.c);
}

#[test]
fn test_sbc_decimal_mode7() {
    let mut cpu = CPU::new();
    cpu.load(vec![
        0xf8, // SED
        0xa9, 0x9b, 0xe9, 0x00, 0x00,
    ])
    .unwrap();
    cpu.reset();
    cpu.run().unwrap();
    assert!(cpu.a == 0x9a);
    assert!(cpu.p.n);
    assert!(!cpu.p.v);
    assert!(!cpu.p.z);
    assert!(cpu.p.c);
}

#[test]
fn test_adc_basic() {
    let mut cpu = CPU::new();
    cpu.load(vec![0xa9, 0x55, 0x69, 0x55, 0x00]).unwrap();
    cpu.reset();
    cpu.run().unwrap();
    assert!(cpu.a == 0xaa);
    assert!(cpu.p.n);
    assert!(cpu.p.v);
    assert!(!cpu.p.z);
    assert!(!cpu.p.c);
}

#[test]
fn test_adc_decimal_mode1() {
    let mut cpu = CPU::new();
    cpu.load(vec![
        0xf8, // SED
        0xa9, 0x00, 0x69, 0x00, 0x00,
    ])
    .unwrap();
    cpu.reset();
    cpu.run().unwrap();
    assert!(cpu.a == 0x00);
    assert!(!cpu.p.n);
    assert!(!cpu.p.v);
    assert!(cpu.p.z);
    assert!(!cpu.p.c);
}

#[test]
fn test_adc_decimal_mode2() {
    let mut cpu = CPU::new();
    cpu.load(vec![
        0xf8, // SED
        0x38, // SEC
        0xa9, 0x79, 0x69, 0x00, 0x00,
    ])
    .unwrap();
    cpu.reset();
    cpu.run().unwrap();
    assert!(cpu.a == 0x80);
    assert!(cpu.p.n);
    assert!(cpu.p.v);
    assert!(!cpu.p.z);
    assert!(!cpu.p.c);
}

#[test]
fn test_adc_decimal_mode3() {
    let mut cpu = CPU::new();
    cpu.load(vec![
        0xf8, // SED
        0xa9, 0x24, 0x69, 0x56, 0x00,
    ])
    .unwrap();
    cpu.reset();
    cpu.run().unwrap();
    assert!(cpu.a == 0x80);
    assert!(cpu.p.n);
    assert!(cpu.p.v);
    assert!(!cpu.p.z);
    assert!(!cpu.p.c);
}

#[test]
fn test_adc_decimal_mode4() {
    let mut cpu = CPU::new();
    cpu.load(vec![
        0xf8, // SED
        0xa9, 0x93, 0x69, 0x82, 0x00,
    ])
    .unwrap();
    cpu.reset();
    cpu.run().unwrap();
    assert!(cpu.a == 0x75);
    assert!(!cpu.p.n);
    assert!(cpu.p.v);
    assert!(!cpu.p.z);
    assert!(cpu.p.c);
}

#[test]
fn test_adc_decimal_mode5() {
    let mut cpu = CPU::new();
    cpu.load(vec![
        0xf8, // SED
        0xa9, 0x89, 0x69, 0x76, 0x00,
    ])
    .unwrap();
    cpu.reset();
    cpu.run().unwrap();
    assert!(cpu.a == 0x65);
    assert!(!cpu.p.n);
    assert!(!cpu.p.v);
    assert!(!cpu.p.z);
    assert!(cpu.p.c);
}

#[test]
fn test_adc_decimal_mode6() {
    let mut cpu = CPU::new();
    cpu.load(vec![
        0xf8, // SED
        0x38, // SEC
        0xa9, 0x89, 0x69, 0x76, 0x00,
    ])
    .unwrap();
    cpu.reset();
    cpu.run().unwrap();
    assert!(cpu.a == 0x66);
    assert!(!cpu.p.n);
    assert!(!cpu.p.v);
    assert!(cpu.p.z);
    assert!(cpu.p.c);
}

#[test]
fn test_adc_decimal_mode7() {
    let mut cpu = CPU::new();
    cpu.load(vec![
        0xf8, // SED
        0xa9, 0x80, 0x69, 0xf0, 0x00,
    ])
    .unwrap();
    cpu.reset();
    cpu.run().unwrap();
    assert!(cpu.a == 0xd0);
    assert!(!cpu.p.n);
    assert!(cpu.p.v);
    assert!(!cpu.p.z);
    assert!(cpu.p.c);
}

#[test]
fn test_adc_decimal_mode8() {
    let mut cpu = CPU::new();
    cpu.load(vec![
        0xf8, // SED
        0xa9, 0x80, 0x69, 0xfa, 0x00,
    ])
    .unwrap();
    cpu.reset();
    cpu.run().unwrap();
    assert!(cpu.a == 0xe0);
    assert!(cpu.p.n);
    assert!(!cpu.p.v);
    assert!(!cpu.p.z);
    assert!(cpu.p.c);
}

#[test]
fn test_adc_decimal_mode9() {
    let mut cpu = CPU::new();
    cpu.load(vec![
        0xf8, // SED
        0xa9, 0x2f, 0x69, 0x4f, 0x00,
    ])
    .unwrap();
    cpu.reset();
    cpu.run().unwrap();
    assert!(cpu.a == 0x74);
    assert!(!cpu.p.n);
    assert!(!cpu.p.v);
    assert!(!cpu.p.z);
    assert!(!cpu.p.c);
}

#[test]
fn test_adc_decimal_mode10() {
    let mut cpu = CPU::new();
    cpu.load(vec![
        0xf8, // SED
        0x38, // SEC
        0xa9, 0x6f, 0x69, 0x00, 0x00,
    ])
    .unwrap();
    cpu.reset();
    cpu.run().unwrap();
    assert!(cpu.a == 0x76);
    assert!(!cpu.p.n);
    assert!(!cpu.p.v);
    assert!(!cpu.p.z);
    assert!(!cpu.p.c);
}

// Binary ADC over a grid of operands: the accumulator takes the sum modulo
// 256 and the carry flag reports the overflow past 0xFF.
#[test]
fn test_adc_binary_sum_and_carry() {
    let samples: [u8; 6] = [0x00, 0x01, 0x3f, 0x7f, 0x80, 0xff];
    for &a in samples.iter() {
        for &m in samples.iter() {
            for c in 0..2u16 {
                let mut cpu = CPU::new();
                let carry_op: u8 = if c == 1 { 0x38 } else { 0x18 };
                cpu.load(vec![carry_op, 0xa9, a, 0x69, m, 0x00]).unwrap();
                cpu.reset();
                cpu.run().unwrap();
                let sum: u16 = a as u16 + m as u16 + c;
                assert_eq!(cpu.a, (sum % 256) as u8);
                assert_eq!(cpu.p.c, sum > 0xFF);
                assert_eq!(cpu.p.z, sum % 256 == 0);
            }
        }
    }
}

// CMP over a grid of pairs: carry exactly when the accumulator is at least
// the operand, zero exactly on equality.
#[test]
fn test_cmp_carry_and_zero() {
    let samples: [u8; 6] = [0x00, 0x01, 0x3f, 0x7f, 0x80, 0xff];
    for &a in samples.iter() {
        for &m in samples.iter() {
            let mut cpu = CPU::new();
            cpu.load(vec![0xa9, a, 0xc9, m, 0x00]).unwrap();
            cpu.reset();
            cpu.run().unwrap();
            assert_eq!(cpu.p.c, a >= m);
            assert_eq!(cpu.p.z, a == m);
            assert_eq!(cpu.a, a);
        }
    }
}

#[test]
fn test_cpx_sets_flags() {
    let mut cpu = CPU::new();
    cpu.load(vec![0xa2, 0x10, 0xe0, 0x10, 0x00]).unwrap();
    cpu.reset();
    cpu.run().unwrap();
    assert!(cpu.p.c);
    assert!(cpu.p.z);
    assert!(!cpu.p.n);
}

#[test]
fn test_cpy_borrow_clears_carry() {
    let mut cpu = CPU::new();
    cpu.load(vec![0xa0, 0x10, 0xc0, 0x20, 0x00]).unwrap();
    cpu.reset();
    cpu.run().unwrap();
    assert!(!cpu.p.c);
    assert!(!cpu.p.z);
    assert!(cpu.p.n); // 0x10 - 0x20 wraps to 0xF0
}

// Decimal subtraction with the carry clear borrows one extra unit:
// 0x00 - 0x01 - 1 gives 0x98 with the borrow reported as a clear carry.
#[test]
fn test_sbc_decimal_borrow_without_carry() {
    let mut cpu = CPU::new();
    cpu.load(vec![
        0xf8, // SED
        0xa9, 0x00, 0xe9, 0x01, 0x00,
    ])
    .unwrap();
    cpu.reset();
    cpu.run().unwrap();
    assert_eq!(cpu.a, 0x98);
    assert!(cpu.p.n);
    assert!(!cpu.p.v);
    assert!(!cpu.p.z);
    assert!(!cpu.p.c);
}
