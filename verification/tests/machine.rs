use yanes::cpu::{Hook, CPU};
use yanes::model::Fault;
use yanes::model::StepOutcome;

struct CountingHook {
    retired: u32,
    seen_a: u8,
}

impl Hook for CountingHook {
    fn on_instruction(&mut self, cpu: &mut CPU) {
        self.retired += 1;
        if cpu.a > self.seen_a {
            self.seen_a = cpu.a;
        }
        // a hook may write memory; registers and flags stay untouched
        cpu.mem_write_byte(0x0200, self.retired as u8);
    }
}

#[test]
fn test_new_cpu_is_reset_state() {
    let cpu = CPU::new();
    assert_eq!(cpu.a, 0);
    assert_eq!(cpu.x, 0);
    assert_eq!(cpu.y, 0);
    assert_eq!(cpu.pc, 0);
    assert_eq!(cpu.sp, 0x1ff);
    assert!(cpu.p.z); // only the Z bit after power-on
    assert_eq!(cpu.p.pack(), 0b0000_0010);
    assert_eq!(cpu.mem_read_byte(0x1234), 0);
}

#[test]
fn test_load_sets_reset_vector_and_bytes() {
    let mut cpu = CPU::new();
    cpu.load(vec![0xa9, 0x05, 0x00]).unwrap();
    assert_eq!(cpu.mem_read_byte(0x8000), 0xa9);
    assert_eq!(cpu.mem_read_byte(0x8001), 0x05);
    assert_eq!(cpu.mem_read_byte(0x8002), 0x00);
    assert_eq!(cpu.mem_read_word(0xfffc), 0x8000);
    cpu.reset();
    assert_eq!(cpu.pc, 0x8000);
    assert_eq!(cpu.sp, 0x1ff);
}

#[test]
fn test_load_rejects_oversized_image() {
    let mut cpu = CPU::new();
    let r = cpu.load(vec![0u8; 0x7ff1]);
    assert!(r == Err(Fault::ProgramTooLarge));
    // nothing was written
    assert_eq!(cpu.mem_read_word(0xfffc), 0);
    // the largest image that still fits loads
    assert!(cpu.load(vec![0u8; 0x7ff0]) == Ok(()));
}

#[test]
fn test_illegal_opcode_faults_without_state_change() {
    let mut cpu = CPU::new();
    cpu.load(vec![0x02]).unwrap();
    cpu.reset();
    let r = cpu.run();
    assert!(r == Err(Fault::IllegalOpcode));
    assert_eq!(cpu.pc, 0x8000); // still standing on the unknown byte
    assert_eq!(cpu.sp, 0x1ff);
}

#[test]
fn test_rts_on_empty_stack_underflows() {
    let mut cpu = CPU::new();
    cpu.load(vec![0x60]).unwrap();
    cpu.reset();
    let r = cpu.run();
    assert!(r == Err(Fault::StackUnderflow));
    assert_eq!(cpu.sp, 0x1ff);
}

#[test]
fn test_load_and_run() {
    let mut cpu = CPU::new();
    cpu.load_and_run(vec![0xa9, 0x3c, 0xaa, 0x00]).unwrap();
    assert_eq!(cpu.a, 0x3c);
    assert_eq!(cpu.x, 0x3c);
}

#[test]
fn test_step_executes_one_instruction() {
    let mut cpu = CPU::new();
    cpu.load(vec![0xa9, 0x07, 0x00]).unwrap();
    cpu.reset();
    let o = cpu.step();
    assert!(o == StepOutcome::Running);
    assert_eq!(cpu.a, 0x07);
    assert_eq!(cpu.pc, 0x8002);
    let o2 = cpu.step();
    assert!(o2 == StepOutcome::Halted);
    assert_eq!(cpu.pc, 0x8003);
}

#[test]
fn test_run_with_callback_calls_hook_each_instruction() {
    let mut cpu = CPU::new();
    cpu.load(vec![0xa9, 0x11, 0xaa, 0xe8, 0x00]).unwrap();
    cpu.reset();
    let mut hook = CountingHook { retired: 0, seen_a: 0 };
    cpu.run_with_callback(&mut hook).unwrap();
    // LDA, TAX, INX retired; the halting BRK gets no hook call
    assert_eq!(hook.retired, 3);
    assert_eq!(hook.seen_a, 0x11);
    assert_eq!(cpu.mem_read_byte(0x0200), 3);
    assert_eq!(cpu.x, 0x12);
}
