use yanes::bus::Bus;
use yanes::cpu::CPU;
use yanes::status_register::StatusRegister;

// Packing the flags decoded from a byte gives the byte back, and decoding a
// packed flag set gives the flags back.
#[test]
fn test_pack_unpack_round_trip() {
    let p = StatusRegister::new(0b1010_1010);
    assert_eq!(p.pack(), 0b1010_1010);
    let q = StatusRegister::new(0b0101_0101);
    assert_eq!(q.pack(), 0b0101_0101);
    assert!(q.c);
    assert!(!q.z);
    assert!(q.i);
    assert!(!q.d);
    assert!(q.b);
    assert!(!q.b2);
    assert!(q.v);
    assert!(!q.n);
    let r = StatusRegister::new(StatusRegister::new(0x3c).pack());
    assert_eq!(r.pack(), 0x3c);
}

#[test]
fn test_flag_setters() {
    let mut p = StatusRegister::new(0);
    p.set_c();
    p.set_i();
    p.set_d();
    p.set_b();
    p.set_b2();
    p.set_v();
    assert!(p.c && p.i && p.d && p.b && p.b2 && p.v);
    p.unset_c();
    p.unset_i();
    p.unset_d();
    p.unset_b();
    p.unset_b2();
    p.unset_v();
    assert_eq!(p.pack(), 0);
}

#[test]
fn test_ensure_z_and_ensure_n() {
    let mut p = StatusRegister::new(0);
    p.ensure_z(0);
    assert!(p.z);
    p.ensure_z(1);
    assert!(!p.z);
    p.ensure_n(0x80);
    assert!(p.n);
    p.ensure_n(0x7f);
    assert!(!p.n);
}

// PHP pushes with both break bits set; PLP restores C, Z, I, D, V and N,
// clears B and sets the reserved bit.
#[test]
fn test_0x08_0x28_php_plp_restores_flags() {
    let mut cpu = CPU::new();
    cpu.load(vec![
        0x38, // sec
        0xf8, // sed
        0x08, // push flags
        0x18, // clc
        0xd8, // cld
        0x28, // pop flags
        0x00,
    ])
    .unwrap();
    cpu.reset();
    cpu.run().unwrap();
    assert!(cpu.p.c);
    assert!(cpu.p.d);
    assert!(!cpu.p.b);
    assert!(cpu.p.b2);
}

#[test]
fn test_0x9a_txs_and_0xba_tsx() {
    let mut cpu = CPU::new();
    cpu.load(vec![
        0xa2, 0x80, // mov $x, 0x80
        0x9a, // mov $sp, $x
        0xa2, 0x00, // mov $x, 0x00
        0xba, // mov $x, low($sp)
        0x00,
    ])
    .unwrap();
    cpu.reset();
    cpu.run().unwrap();
    assert_eq!(cpu.sp, 0x180);
    assert_eq!(cpu.x, 0x80);
    assert!(cpu.p.n);
}

#[test]
fn test_0xa8_tay_and_0x98_tya() {
    let mut cpu = CPU::new();
    cpu.load(vec![
        0xa9, 0x44, // mov $a, 0x44
        0xa8, // mov $y, $a
        0xa9, 0x00, // mov $a, 0x00
        0x98, // mov $a, $y
        0x00,
    ])
    .unwrap();
    cpu.reset();
    cpu.run().unwrap();
    assert_eq!(cpu.a, 0x44);
    assert_eq!(cpu.y, 0x44);
}

// BRK with a nonzero handler vector pushes the return address and the flags
// with both break bits set, enters the handler with I set, and RTI restores
// everything; the handler here clears the vector so the next BRK halts.
#[test]
fn test_0x00_0x40_brk_and_rti() {
    let mut cpu = CPU::new();
    cpu.load(vec![
        0xe8, // 0x8000: inc $x
        0x00, // 0x8001: brk -> handler
        0x00, // 0x8002: brk -> halt (vector cleared by handler)
    ])
    .unwrap();
    cpu.reset();
    cpu.mem_write_word(0xfffe, 0x8020);
    // handler: clear the vector with $a (still zero), inc $x, return
    cpu.mem_write_byte(0x8020, 0x8d); // mov byte ptr [0xfffe], $a
    cpu.mem_write_byte(0x8021, 0xfe);
    cpu.mem_write_byte(0x8022, 0xff);
    cpu.mem_write_byte(0x8023, 0x8d); // mov byte ptr [0xffff], $a
    cpu.mem_write_byte(0x8024, 0xff);
    cpu.mem_write_byte(0x8025, 0xff);
    cpu.mem_write_byte(0x8026, 0xe8); // inc $x
    cpu.mem_write_byte(0x8027, 0x40); // rti
    cpu.run().unwrap();
    assert_eq!(cpu.x, 0x02);
    assert_eq!(cpu.sp, 0x1ff); // everything popped again
    assert!(!cpu.p.i); // RTI restored the pre-interrupt flags
    // the pushed status byte (x was 1: only the break bits set)
    assert_eq!(cpu.mem_read_byte(0x01fd), 0b0011_0000);
    assert_eq!(cpu.mem_read_byte(0x01ff), 0x80); // pushed return address
    assert_eq!(cpu.mem_read_byte(0x01fe), 0x02);
}

// With the interrupt-disable flag set, BRK does nothing but advance.
#[test]
fn test_0x00_brk_masked_by_i() {
    let mut cpu = CPU::new();
    cpu.load(vec![
        0x78, // sei
        0x00, // brk: masked, no halt
        0xe8, // inc $x
        0x58, // cli
        0x00, // brk: halts now
    ])
    .unwrap();
    cpu.reset();
    cpu.run().unwrap();
    assert_eq!(cpu.x, 0x01);
}

#[test]
fn test_stack_pop_byte_and_word() {
    let mut cpu = CPU::new();
    cpu.mem_write_byte(0x01ff, 0xab);
    cpu.sp = 0x1fe;
    assert_eq!(cpu.stack_pop_byte(), 0xab);
    assert_eq!(cpu.sp, 0x1ff);
    cpu.mem_write_byte(0x01fe, 0x34);
    cpu.mem_write_byte(0x01ff, 0x12);
    cpu.sp = 0x1fd;
    assert_eq!(cpu.stack_pop_word(), 0x1234);
    assert_eq!(cpu.sp, 0x1ff);
}

#[test]
fn test_bus_word_wraps_at_top_of_memory() {
    let mut bus = Bus::new();
    bus.mem_write_word(0xffff, 0x1234);
    assert_eq!(bus.mem_read_byte(0xffff), 0x34);
    assert_eq!(bus.mem_read_byte(0x0000), 0x12);
    assert_eq!(bus.mem_read_word(0xffff), 0x1234);
}

#[test]
fn test_bus_read_write_byte() {
    let mut bus = Bus::new();
    assert_eq!(bus.mem_read_byte(0x4242), 0x00);
    bus.mem_write_byte(0x4242, 0x99);
    assert_eq!(bus.mem_read_byte(0x4242), 0x99);
    bus.mem_write_word(0x1000, 0xbeef);
    assert_eq!(bus.mem_read_word(0x1000), 0xbeef);
}
