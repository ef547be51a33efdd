use chip8::cpu::decode;
use chip8::{CPU, CpuError, Status};

fn load(cpu: &mut CPU, at: usize, opcodes: &[u16]) {
    for (i, op) in opcodes.iter().enumerate() {
        cpu.memory[at + 2 * i] = (op >> 8) as u8;
        cpu.memory[at + 2 * i + 1] = (op & 0xFF) as u8;
    }
}

#[test]
fn new_machine_is_zeroed() {
    let cpu = CPU::new();
    assert_eq!(cpu.registers, [0u8; 16]);
    assert!(cpu.memory.iter().all(|b| *b == 0));
    assert_eq!(cpu.stack, [0u16; 16]);
    assert_eq!(cpu.position_in_memory, 0);
    assert_eq!(cpu.stack_pointer, 0);
}

#[test]
fn three_additions_then_halt() {
    let mut cpu = CPU::new();
    cpu.registers[0] = 5;
    cpu.registers[1] = 10;
    cpu.registers[2] = 10;
    cpu.registers[3] = 10;
    load(&mut cpu, 0, &[0x8014, 0x8024, 0x8034, 0x0000]);
    assert_eq!(cpu.run(100), Ok(Status::Halted));
    assert_eq!(cpu.registers[0], 35);
    assert_eq!(cpu.registers[15], 0);
    assert_eq!(cpu.position_in_memory, 8);
}

#[test]
fn single_addition_wraps_and_sets_flag() {
    let mut cpu = CPU::new();
    cpu.registers[0] = 250;
    cpu.registers[1] = 10;
    load(&mut cpu, 0, &[0x8014]);
    assert_eq!(cpu.step(), Ok(Status::Running));
    assert_eq!(cpu.registers[0], 4);
    assert_eq!(cpu.registers[15], 1);
    assert_eq!(cpu.position_in_memory, 2);
}

#[test]
fn call_return_halt() {
    let mut cpu = CPU::new();
    load(&mut cpu, 0, &[0x2006, 0x0000]);
    load(&mut cpu, 6, &[0x00EE]);
    assert_eq!(cpu.run(100), Ok(Status::Halted));
    assert_eq!(cpu.stack_pointer, 0);
    assert_eq!(cpu.stack[0], 2);
    assert_eq!(cpu.position_in_memory, 4);
}

#[test]
fn add_xy_boundaries() {
    for (a, b, sum, flag) in [
        (0u8, 0u8, 0u8, 0u8),
        (255, 0, 255, 0),
        (255, 1, 0, 1),
        (128, 127, 255, 0),
        (128, 128, 0, 1),
        (255, 255, 254, 1),
    ] {
        let mut cpu = CPU::new();
        cpu.registers[3] = a;
        cpu.registers[7] = b;
        cpu.registers[15] = 9;
        cpu.add_xy(3, 7);
        assert_eq!(cpu.registers[3], sum);
        assert_eq!(cpu.registers[7], b);
        assert_eq!(cpu.registers[15], flag);
    }
}

#[test]
fn add_xy_same_register_doubles() {
    let mut cpu = CPU::new();
    cpu.registers[2] = 200;
    cpu.add_xy(2, 2);
    assert_eq!(cpu.registers[2], 144);
    assert_eq!(cpu.registers[15], 1);
}

#[test]
fn add_into_flag_register_keeps_flag() {
    let mut cpu = CPU::new();
    cpu.registers[15] = 1;
    cpu.registers[0] = 1;
    cpu.add_xy(15, 0);
    assert_eq!(cpu.registers[15], 0);
}

#[test]
fn fetch_round_trip() {
    for (at, v) in [(0usize, 0x0000u16), (2, 0x8014), (100, 0xABCD), (4094, 0xFFFF), (7, 0x1200)] {
        let mut cpu = CPU::new();
        load(&mut cpu, at, &[v]);
        cpu.position_in_memory = at;
        assert_eq!(cpu.read_opcode(), v);
        assert_eq!(cpu.position_in_memory, at);
    }
}

#[test]
fn decode_splits_nibbles() {
    assert_eq!(decode(0x8014), (8, 0, 1, 4));
    assert_eq!(decode(0xABCD), (0xA, 0xB, 0xC, 0xD));
    assert_eq!(decode(0x0000), (0, 0, 0, 0));
    assert_eq!(decode(0x00EE), (0, 0, 0xE, 0xE));
}

#[test]
fn nested_calls_return_in_order() {
    let mut cpu = CPU::new();
    cpu.position_in_memory = 40;
    for i in 0..16u16 {
        assert_eq!(cpu.call(0x100 + 2 * i), Ok(()));
        assert_eq!(cpu.stack_pointer, (i + 1) as usize);
        assert_eq!(cpu.position_in_memory, (0x100 + 2 * i) as usize);
    }
    for _ in 0..16 {
        assert_eq!(cpu.ret(), Ok(()));
    }
    assert_eq!(cpu.position_in_memory, 40);
    assert_eq!(cpu.stack_pointer, 0);
}

#[test]
fn seventeenth_call_overflows() {
    let mut cpu = CPU::new();
    for _ in 0..16 {
        assert_eq!(cpu.call(0x200), Ok(()));
    }
    assert_eq!(cpu.call(0x300), Err(CpuError::StackOverflow));
    assert_eq!(cpu.stack_pointer, 16);
    assert_eq!(cpu.position_in_memory, 0x200);
}

#[test]
fn recursive_program_overflows() {
    let mut cpu = CPU::new();
    load(&mut cpu, 0, &[0x2000]);
    assert_eq!(cpu.run(1000), Err(CpuError::StackOverflow));
    assert_eq!(cpu.stack_pointer, 16);
    assert_eq!(cpu.stack, [2u16; 16]);
}

#[test]
fn return_on_empty_stack_underflows() {
    let mut cpu = CPU::new();
    assert_eq!(cpu.ret(), Err(CpuError::StackUnderflow));
    assert_eq!(cpu.position_in_memory, 0);
    load(&mut cpu, 0, &[0x00EE]);
    assert_eq!(cpu.run(10), Err(CpuError::StackUnderflow));
    assert_eq!(cpu.stack_pointer, 0);
    assert_eq!(cpu.position_in_memory, 2);
}

#[test]
fn unknown_opcode_is_reported() {
    let mut cpu = CPU::new();
    load(&mut cpu, 0, &[0x8014, 0x1234]);
    assert_eq!(cpu.run(10), Err(CpuError::UnimplementedOpcode(0x1234)));
    assert_eq!(cpu.position_in_memory, 4);
    let mut cpu = CPU::new();
    load(&mut cpu, 0, &[0x8015]);
    assert_eq!(cpu.step(), Err(CpuError::UnimplementedOpcode(0x8015)));
}

#[test]
fn program_counter_past_memory_is_reported() {
    let mut cpu = CPU::new();
    cpu.position_in_memory = 4095;
    assert_eq!(cpu.step(), Err(CpuError::ProgramCounterOutOfRange(4095)));
    assert_eq!(cpu.position_in_memory, 4095);
    let mut cpu = CPU::new();
    load(&mut cpu, 4094, &[0x8014]);
    cpu.position_in_memory = 4094;
    assert_eq!(cpu.run(10), Err(CpuError::ProgramCounterOutOfRange(4096)));
}

#[test]
fn step_limit_stops_a_running_program() {
    let mut cpu = CPU::new();
    cpu.registers[1] = 1;
    load(&mut cpu, 0, &[0x8014, 0x8014, 0x8014, 0x0000]);
    assert_eq!(cpu.run(2), Ok(Status::Running));
    assert_eq!(cpu.registers[0], 2);
    assert_eq!(cpu.position_in_memory, 4);
    assert_eq!(cpu.run(0), Ok(Status::Running));
    assert_eq!(cpu.position_in_memory, 4);
    assert_eq!(cpu.run(5), Ok(Status::Halted));
    assert_eq!(cpu.registers[0], 3);
}
