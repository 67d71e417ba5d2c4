use yanes::cpu::CPU;
use yanes::model::Fault;

#[test]
fn test_0x48_pha_can_push() {
    let mut cpu = CPU::new();
    cpu.load(vec![
        0xa9, 0x3a, // mov $a, 0x3a
        0x48, // push $a
        0xad, 0xFF, 0x01, // mov $a, byte ptr [0x01FF]
        0x00,
    ])
    .unwrap();
    cpu.reset();
    cpu.run().unwrap();
    assert!(cpu.a == 0x3a);
    assert!(!cpu.p.z); // non-zero
    assert!(!cpu.p.n); // non-negative
}

#[test]
fn test_0x48_0x68_pha_pla_push_pop() {
    let mut cpu = CPU::new();
    cpu.load(vec![
        0xa9, 0x3a, // mov $a, 0x3a
        0x48, // push $a
        0xa9, 0x10, // mov $a, 0x10
        0x68, // pop $a
        0x00,
    ])
    .unwrap();
    cpu.reset();
    cpu.run().unwrap();
    assert!(cpu.a == 0x3a);
    assert!(!cpu.p.z); // non-zero
    assert!(!cpu.p.n); // non-negative
}

#[test]
fn test_0x48_0x68_pha_pla_multiple() {
    let mut cpu = CPU::new();
    cpu.load(vec![
        0xa9, 0x3a, // mov $a, 0x3a
        0x48, // push $a
        0xa9, 0x2a, // mov $a, 0x2a
        0x48, // push $a
        0xa9, 0x1a, // mov $a, 0x1a
        0x48, // push $a
        0xa9, 0x00, // mov $a, 0x00
        0x68, // pop $a
        0xa8, // mov $y, $a
        0x68, // pop $a
        0xaa, // mov $x, $a
        0x68, // pop $a
        0x00,
    ])
    .unwrap();
    cpu.reset();
    cpu.run().unwrap();
    assert!(cpu.a == 0x3a);
    assert!(cpu.x == 0x2a);
    assert!(cpu.y == 0x1a);
}

// JSR pushes the address of its own last byte (0x8004 here), and RTS
// resumes one byte past it: the bytes left on the stack are 0x80 and 0x04.
#[test]
fn test_0x20_0x60_jsr_rts() {
    let mut cpu = CPU::new();
    cpu.load(vec![
        0xa9, 0x3a, // 0x8000: mov $a, 0x3a
        0x20, 0x0D, 0x80, // 0x8002: call 0x800D
        0xad, 0xff, 0x01, // 0x8005: mov $a, byte ptr [0x01FF]
        0xa8, // 0x8008: mov $y, $a
        0xad, 0xFE, 0x01, // 0x8009: mov $a, byte ptr [0x01FE]
        0x00, // 0x800C: brk
        0xaa, // 0x800D: mov $x, $a
        0x60, // 0x800E: ret
    ])
    .unwrap();
    cpu.reset();
    cpu.run().unwrap();
    assert!(cpu.x == 0x3a);
    assert!(cpu.y == 0x80);
    assert!(cpu.a == 0x04);
}

// The stack holds 255 bytes before the pointer reaches the bottom of page 1;
// the 256th push would leave the page and is refused as an overflow.
#[test]
fn test_0x48_pha_single_capacity() {
    let mut cpu = CPU::new();
    let mut instructions = vec![
        0xa9, 0x3a, // mov $a, 0x3a
    ];
    for _ in 0..0x100 {
        instructions.push(0x48);
    }
    instructions.push(0x00);
    cpu.load(instructions).unwrap();
    cpu.reset();
    let r = cpu.run();
    assert!(r == Err(Fault::StackOverflow));
    assert!(cpu.sp == 0x100);
}

#[test]
#[should_panic]
fn test_0x48_pha_overflow() {
    let mut cpu = CPU::new();
    let mut instructions = vec![
        0xa9, 0x3a, // mov $a, 0x3a
    ];
    for _ in 0..=0x100 {
        instructions.push(0x48);
    }
    instructions.push(0x00);
    cpu.load(instructions).unwrap();
    cpu.reset();
    cpu.run().unwrap();
}

#[test]
#[should_panic]
fn test_0x68_pla_underflow() {
    let mut cpu = CPU::new();
    cpu.load(vec![0xa9, 0x3a, 0x48, 0x68, 0x68, 0x00]).unwrap();
    cpu.reset();
    cpu.run().unwrap();
}

// Each call pushes a word: the 127th leaves the pointer at 0x0101, and the
// 128th call no longer has two free slots, an overflow.
#[test]
fn test_0x48_pha_call_capacity() {
    let mut cpu = CPU::new();
    let mut instructions = vec![];
    let mut jmp_delta: u16 = 3;
    for _ in 0..0x80 {
        instructions.push(0x20);
        match (0x8000u16 + jmp_delta).to_le_bytes() {
            [lo, hi] => {
                instructions.push(lo);
                instructions.push(hi);
            }
        }
        jmp_delta += 3;
    }
    cpu.load(instructions).unwrap();
    cpu.reset();
    let r = cpu.run();
    assert!(r == Err(Fault::StackOverflow));
    assert!(cpu.sp == 0x101);
}

#[test]
fn test_0x4c_jmp() {
    let mut cpu = CPU::new();
    cpu.load(vec![0x4c, 0x00, 0x82, 0x68, 0x00]).unwrap();
    cpu.reset();
    cpu.run().unwrap();
    assert!(cpu.pc == 0x8201);
}

#[test]
fn test_0x0d_bne() {
    let mut cpu = CPU::new();
    cpu.load(vec![
        0xa2, 0x02, // mov $x, 0x02
        0xca, // sub $x, 1
        0xd0, 0xfd, // cmp $x, 0; jne 0xfd
        0x00,
    ])
    .unwrap();
    cpu.reset();
    cpu.run().unwrap();
    assert!(cpu.x == 0x00);
    assert!(cpu.p.z);
    assert!(!cpu.p.n);
}
