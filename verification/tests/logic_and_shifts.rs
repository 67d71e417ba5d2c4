use yanes::cpu::CPU;

#[test]
fn test_0x29_and_immediate() {
    let mut cpu = CPU::new();
    cpu.load(vec![0xa9, 0xcc, 0x29, 0xf0, 0x00]).unwrap();
    cpu.reset();
    cpu.run().unwrap();
    assert_eq!(cpu.a, 0xc0);
    assert!(cpu.p.n);
    assert!(!cpu.p.z);
}

#[test]
fn test_0x09_ora_immediate() {
    let mut cpu = CPU::new();
    cpu.load(vec![0xa9, 0xc0, 0x09, 0x0c, 0x00]).unwrap();
    cpu.reset();
    cpu.run().unwrap();
    assert_eq!(cpu.a, 0xcc);
    assert!(cpu.p.n);
    assert!(!cpu.p.z);
}

#[test]
fn test_0x49_eor_immediate() {
    let mut cpu = CPU::new();
    cpu.load(vec![0xa9, 0xcc, 0x49, 0xaa, 0x00]).unwrap();
    cpu.reset();
    cpu.run().unwrap();
    assert_eq!(cpu.a, 0x66);
    assert!(!cpu.p.n);
    assert!(!cpu.p.z);
}

#[test]
fn test_0x24_bit_sets_z_n_v() {
    let mut cpu = CPU::new();
    cpu.load(vec![
        0xa9, 0xc0, // mov $a, 0xc0
        0x85, 0x10, // mov byte ptr [0x10], $a
        0xa9, 0x0f, // mov $a, 0x0f
        0x24, 0x10, // bit [0x10]
        0x00,
    ])
    .unwrap();
    cpu.reset();
    cpu.run().unwrap();
    assert!(cpu.p.z); // 0x0f & 0xc0 == 0
    assert!(cpu.p.n); // bit 7 of the memory byte
    assert!(cpu.p.v); // bit 6 of the memory byte
    assert_eq!(cpu.a, 0x0f); // accumulator untouched
}

#[test]
fn test_0x0a_asl_accumulator() {
    let mut cpu = CPU::new();
    cpu.load(vec![0xa9, 0x81, 0x0a, 0x00]).unwrap();
    cpu.reset();
    cpu.run().unwrap();
    assert_eq!(cpu.a, 0x02);
    assert!(cpu.p.c); // old bit 7
    assert!(!cpu.p.z);
    assert!(!cpu.p.n);
}

#[test]
fn test_0x06_asl_memory() {
    let mut cpu = CPU::new();
    cpu.load(vec![
        0xa9, 0x81, // mov $a, 0x81
        0x85, 0x20, // mov byte ptr [0x20], $a
        0x06, 0x20, // asl [0x20]
        0xa5, 0x20, // mov $a, byte ptr [0x20]
        0x00,
    ])
    .unwrap();
    cpu.reset();
    cpu.run().unwrap();
    assert_eq!(cpu.a, 0x02);
    assert!(cpu.p.c);
}

#[test]
fn test_0x4a_lsr_accumulator() {
    let mut cpu = CPU::new();
    cpu.load(vec![0xa9, 0x01, 0x4a, 0x00]).unwrap();
    cpu.reset();
    cpu.run().unwrap();
    assert_eq!(cpu.a, 0x00);
    assert!(cpu.p.c); // old bit 0
    assert!(cpu.p.z);
}

#[test]
fn test_0x2a_rol_through_carry() {
    let mut cpu = CPU::new();
    cpu.load(vec![0x38, 0xa9, 0x80, 0x2a, 0x00]).unwrap();
    cpu.reset();
    cpu.run().unwrap();
    assert_eq!(cpu.a, 0x01); // carry rotated into bit 0
    assert!(cpu.p.c); // old bit 7 rotated out
}

#[test]
fn test_0x6a_ror_through_carry() {
    let mut cpu = CPU::new();
    cpu.load(vec![0x38, 0xa9, 0x01, 0x6a, 0x00]).unwrap();
    cpu.reset();
    cpu.run().unwrap();
    assert_eq!(cpu.a, 0x80); // carry rotated into bit 7
    assert!(cpu.p.c); // old bit 0 rotated out
    assert!(cpu.p.n);
}

#[test]
fn test_0xe6_inc_wraps_to_zero() {
    let mut cpu = CPU::new();
    cpu.load(vec![
        0xa9, 0xff, // mov $a, 0xff
        0x85, 0x30, // mov byte ptr [0x30], $a
        0xe6, 0x30, // inc [0x30]
        0x00,
    ])
    .unwrap();
    cpu.reset();
    cpu.run().unwrap();
    assert_eq!(cpu.mem_read_byte(0x30), 0x00);
    assert!(cpu.p.z);
    assert!(!cpu.p.n);
}

#[test]
fn test_0xc6_dec_memory() {
    let mut cpu = CPU::new();
    cpu.load(vec![
        0xa9, 0x00, // mov $a, 0x00
        0x85, 0x30, // mov byte ptr [0x30], $a
        0xc6, 0x30, // dec [0x30]
        0x00,
    ])
    .unwrap();
    cpu.reset();
    cpu.run().unwrap();
    assert_eq!(cpu.mem_read_byte(0x30), 0xff);
    assert!(!cpu.p.z);
    assert!(cpu.p.n);
}

#[test]
fn test_0x88_dey_and_0xc8_iny() {
    let mut cpu = CPU::new();
    cpu.load(vec![0xa0, 0x01, 0x88, 0x88, 0xc8, 0x00]).unwrap();
    cpu.reset();
    cpu.run().unwrap();
    assert_eq!(cpu.y, 0x00);
    assert!(cpu.p.z);
}
