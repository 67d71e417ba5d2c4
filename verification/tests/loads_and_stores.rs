use yanes::cpu::CPU;

#[test]
fn test_0xa9_lda_immidiate_load_data() {
    let mut cpu = CPU::new();
    cpu.load(vec![0xa9, 0x05, 0x00]).unwrap();
    cpu.reset();
    cpu.run().unwrap();
    assert!(cpu.a == 0x05);
    assert!(!cpu.p.z); // non-zero
    assert!(!cpu.p.n); // non-negative
}

#[test]
fn test_0xa9_lda_zero_flag() {
    let mut cpu = CPU::new();
    cpu.load(vec![0xa9, 0x00, 0x00]).unwrap();
    cpu.reset();
    cpu.run().unwrap();
    assert!(cpu.p.z); // zero
    assert!(!cpu.p.n); // non-negative
}

#[test]
fn test_0xa9_lda_negative_flag() {
    let mut cpu = CPU::new();
    cpu.load(vec![0xa9, 0xff, 0x00]).unwrap();
    cpu.reset();
    cpu.run().unwrap();
    assert!(!cpu.p.z); // non-zero
    assert!(cpu.p.n); // negative
}

#[test]
fn test_0xaa_tax_move_a_to_x() {
    let mut cpu = CPU::new();
    cpu.load(vec![0xa9, 0x05, 0xaa, 0x00]).unwrap();
    cpu.reset();
    cpu.run().unwrap();
    assert!(cpu.a == cpu.x); // ensure transfer
    assert!(!cpu.p.z); // non-zero
    assert!(!cpu.p.n); // non-negative
}

#[test]
fn test_0xe8_increment_x() {
    let mut cpu = CPU::new();
    cpu.load(vec![0xa9, 0x3e, 0xaa, 0xe8, 0x00]).unwrap();
    cpu.reset();
    cpu.run().unwrap();
    assert!(cpu.x == 0x3f);
    assert!(!cpu.p.z); // non-zero
    assert!(!cpu.p.n); // non-negative
}

#[test]
fn test_0xe8_overflow() {
    let mut cpu = CPU::new();
    cpu.load(vec![0xa9, 0xff, 0xaa, 0xe8, 0xe8, 0x00]).unwrap();
    cpu.reset();
    cpu.run().unwrap();
    assert!(cpu.x == 0x01);
    assert!(!cpu.p.z); // non-zero
    assert!(!cpu.p.n); // non-negative
}

#[test]
fn test_0x85_0xa5_sta_lda() {
    let mut cpu = CPU::new();
    cpu.load(vec![
        0xa9, 0x3a, // mov $a, 0x3a
        0x85, 0x30, // mov byte ptr [0x30], $a
        0xa9, 0x00, // mov $a, 0x00
        0xa5, 0x30, // mov $a, byte ptr [0x30]
        0x00,
    ])
    .unwrap();
    cpu.reset();
    cpu.run().unwrap();
    assert!(cpu.a == 0x3a);
    assert!(!cpu.p.z); // non-zero
    assert!(!cpu.p.n); // non-negative
}

#[test]
fn test_0x8d_0xad_sta_lda() {
    let mut cpu = CPU::new();
    cpu.load(vec![
        0xa9, 0x3a, // mov $a, 0x3a
        0x8d, 0x10, 0x55, // mov byte ptr [0x5510], $a
        0xa9, 0x00, // mov $a, 0x00
        0xad, 0x10, 0x55, // mov $a, byte ptr [0x5510]
        0x00,
    ])
    .unwrap();
    cpu.reset();
    cpu.run().unwrap();
    assert!(cpu.a == 0x3a);
    assert!(!cpu.p.z); // non-zero
    assert!(!cpu.p.n); // non-negative
}

#[test]
fn test_0x81_0xa1_sta_lda() {
    let mut cpu = CPU::new();
    cpu.load(vec![
        0xa9, 0x10, // mov $a, 0x10
        0xaa, // mov $x, $a
        0xa9, 0x3a, // mov $a, 0x3a
        0x81, 0x30, // mov byte ptr [0x30 + $x], $a
        0xa9, 0x00, // mov $a, 0x00
        0xa1, 0x30, // mov $a, byte ptr [0x30 + $x]
        0x00,
    ])
    .unwrap();
    cpu.reset();
    cpu.run().unwrap();
    assert!(cpu.a == 0x3a);
    assert!(!cpu.p.z); // non-zero
    assert!(!cpu.p.n); // non-negative
}
