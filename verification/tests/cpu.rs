use emulator::condition::Condition;
use emulator::cpu::CPU;
use emulator::instruction::Instruction;
use emulator::machine::{ExecutionError, FlagMask, LoadError};
use emulator::register::{Register, RegisterPair};

const ALL_FLAGS: [FlagMask; 5] = [
    FlagMask::S,
    FlagMask::Z,
    FlagMask::A,
    FlagMask::P,
    FlagMask::C,
];

fn cpu_with(program: &[u8]) -> CPU {
    let mut cpu = CPU::new();
    cpu.load_program(&program.to_vec()).unwrap();
    cpu
}

fn run(cpu: &mut CPU, steps: usize) {
    for _ in 0..steps {
        cpu.fetch_decode_execute().unwrap();
    }
}

/// A full memory image with `program` at address zero and `tail` as the
/// last bytes of memory.
fn image(program: &[u8], tail: &[u8]) -> Vec<u8> {
    let mut bytes = vec![0u8; 0x10000];
    bytes[..program.len()].copy_from_slice(program);
    bytes[0x10000 - tail.len()..].copy_from_slice(tail);
    bytes
}

#[test]
fn new_cpu_is_reset() {
    let cpu = CPU::new();
    assert_eq!(cpu.program_counter(), 0);
    assert_eq!(cpu.stack_pointer(), 0xffff);
    for register in [
        Register::A,
        Register::B,
        Register::C,
        Register::D,
        Register::E,
        Register::H,
        Register::L,
        Register::M,
    ] {
        assert_eq!(cpu.register(register), 0);
    }
    for flag in ALL_FLAGS {
        assert!(!cpu.get_flag(flag));
    }
    assert_eq!(cpu.memory().len(), 0x10000);
    assert!(cpu.memory().iter().all(|byte| *byte == 0));
}

#[test]
fn load_program_copies_from_address_zero() {
    let cpu = cpu_with(&[0x3e, 0x05, 0x76]);
    assert_eq!(&cpu.memory()[..4], &[0x3e, 0x05, 0x76, 0x00]);
    assert_eq!(cpu.memory().len(), 0x10000);
}

#[test]
fn load_program_keeps_the_rest_of_memory() {
    let mut cpu = cpu_with(&[0x01, 0x02, 0x03, 0x04]);
    assert_eq!(cpu.load_program(&vec![0xaa, 0xbb]), Ok(()));
    assert_eq!(&cpu.memory()[..5], &[0xaa, 0xbb, 0x03, 0x04, 0x00]);
}

#[test]
fn load_program_accepts_an_empty_program() {
    let mut cpu = CPU::new();
    assert_eq!(cpu.load_program(&vec![]), Ok(()));
    assert!(cpu.memory().iter().all(|byte| *byte == 0));
}

#[test]
fn load_program_accepts_a_full_image() {
    let mut cpu = CPU::new();
    let program = vec![0x5a; 0x10000];
    assert_eq!(cpu.load_program(&program), Ok(()));
    assert_eq!(cpu.memory(), &program[..]);
}

#[test]
fn load_program_rejects_more_than_memory_holds() {
    let mut cpu = cpu_with(&[0x11, 0x22]);
    let program = vec![0x5a; 0x10001];
    assert_eq!(
        cpu.load_program(&program),
        Err(LoadError::ProgramTooLarge { length: 0x10001 })
    );
    assert_eq!(&cpu.memory()[..3], &[0x11, 0x22, 0x00]);
    assert_eq!(cpu.memory().len(), 0x10000);
}

#[test]
fn load_error_text() {
    let error = LoadError::ProgramTooLarge { length: 65537 };
    assert_eq!(error.to_string(), "program too large for memory: 65537 bytes");
}

#[test]
fn registers_hold_what_is_written() {
    let mut cpu = CPU::new();
    let registers = [
        (Register::A, 0x11),
        (Register::B, 0x22),
        (Register::C, 0x33),
        (Register::D, 0x44),
        (Register::E, 0x55),
        (Register::H, 0x66),
        (Register::L, 0x77),
    ];
    for (register, value) in registers {
        cpu.set_register(register, value);
    }
    for (register, value) in registers {
        assert_eq!(cpu.register(register), value);
    }
    for flag in ALL_FLAGS {
        assert!(!cpu.get_flag(flag));
    }
}

#[test]
fn memory_register_goes_through_hl() {
    let mut cpu = CPU::new();
    cpu.set_register(Register::H, 0x12);
    cpu.set_register(Register::L, 0x34);
    cpu.set_register(Register::M, 0xab);
    assert_eq!(cpu.memory()[0x1234], 0xab);
    assert_eq!(cpu.register(Register::M), 0xab);
    assert_eq!(cpu.register(Register::H), 0x12);
    assert_eq!(cpu.register(Register::L), 0x34);
    cpu.set_register(Register::L, 0x35);
    assert_eq!(cpu.register(Register::M), 0x00);
}

#[test]
fn pairs_put_the_first_register_high() {
    let mut cpu = CPU::new();
    let nop = Instruction::NOP;
    cpu.set_register(Register::B, 0x12);
    cpu.set_register(Register::C, 0x34);
    cpu.set_register(Register::D, 0x56);
    cpu.set_register(Register::E, 0x78);
    cpu.set_register(Register::H, 0x9a);
    cpu.set_register(Register::L, 0xbc);
    assert_eq!(cpu.get_register_pair(RegisterPair::BC, &nop), 0x1234);
    assert_eq!(cpu.get_register_pair(RegisterPair::DE, &nop), 0x5678);
    assert_eq!(cpu.get_register_pair(RegisterPair::HL, &nop), 0x9abc);
    assert_eq!(cpu.get_register_pair(RegisterPair::SP, &nop), 0xffff);
}

#[test]
fn set_register_pair_splits_high_and_low() {
    let mut cpu = CPU::new();
    let nop = Instruction::NOP;
    cpu.set_register_pair(RegisterPair::BC, 0x1234, &nop);
    cpu.set_register_pair(RegisterPair::DE, 0xff00, &nop);
    cpu.set_register_pair(RegisterPair::HL, 0x00ff, &nop);
    cpu.set_register_pair(RegisterPair::SP, 0xabcd, &nop);
    assert_eq!(cpu.register(Register::B), 0x12);
    assert_eq!(cpu.register(Register::C), 0x34);
    assert_eq!(cpu.register(Register::D), 0xff);
    assert_eq!(cpu.register(Register::E), 0x00);
    assert_eq!(cpu.register(Register::H), 0x00);
    assert_eq!(cpu.register(Register::L), 0xff);
    assert_eq!(cpu.stack_pointer(), 0xabcd);
    assert_eq!(cpu.get_register_pair(RegisterPair::BC, &nop), 0x1234);
    assert_eq!(cpu.get_register_pair(RegisterPair::DE, &nop), 0xff00);
    assert_eq!(cpu.get_register_pair(RegisterPair::HL, &nop), 0x00ff);
    assert_eq!(cpu.get_register_pair(RegisterPair::SP, &nop), 0xabcd);
}

#[test]
fn sp_is_the_status_word_under_push_and_pop() {
    let mut cpu = CPU::new();
    let pop = Instruction::POP(RegisterPair::SP);
    let push = Instruction::PUSH(RegisterPair::SP);
    cpu.set_register(Register::A, 0x42);
    cpu.set_flag(FlagMask::S);
    cpu.set_flag(FlagMask::C);
    assert_eq!(cpu.get_register_pair(RegisterPair::SP, &push), 0x8142);
    assert_eq!(cpu.get_register_pair(RegisterPair::SP, &pop), 0x8142);
    assert_eq!(
        cpu.get_register_pair(RegisterPair::SP, &Instruction::NOP),
        0xffff
    );

    cpu.set_register_pair(RegisterPair::SP, 0x4417, &pop);
    assert_eq!(cpu.register(Register::A), 0x17);
    assert!(cpu.get_flag(FlagMask::Z));
    assert!(cpu.get_flag(FlagMask::P));
    assert!(!cpu.get_flag(FlagMask::S));
    assert!(!cpu.get_flag(FlagMask::C));
    assert_eq!(cpu.stack_pointer(), 0xffff);
}

#[test]
fn flags_are_single_bits() {
    assert_eq!(FlagMask::S.mask(), 0x80);
    assert_eq!(FlagMask::Z.mask(), 0x40);
    assert_eq!(FlagMask::A.mask(), 0x10);
    assert_eq!(FlagMask::P.mask(), 0x04);
    assert_eq!(FlagMask::C.mask(), 0x01);
}

#[test]
fn set_and_unset_touch_one_flag() {
    for flag in ALL_FLAGS {
        let mut cpu = CPU::new();
        cpu.set_flag(flag);
        for other in ALL_FLAGS {
            assert_eq!(cpu.get_flag(other), other == flag);
        }
        cpu.set_flag(flag);
        assert!(cpu.get_flag(flag));
        cpu.unset_flag(flag);
        for other in ALL_FLAGS {
            assert!(!cpu.get_flag(other));
        }
    }
    for flag in ALL_FLAGS {
        let mut cpu = CPU::new();
        for other in ALL_FLAGS {
            cpu.set_flag(other);
        }
        cpu.unset_flag(flag);
        for other in ALL_FLAGS {
            assert_eq!(cpu.get_flag(other), other != flag);
        }
    }
}

#[test]
fn update_flags_of_zero() {
    let mut cpu = CPU::new();
    cpu.set_flag(FlagMask::S);
    cpu.update_flags(0x00);
    assert!(cpu.get_flag(FlagMask::Z));
    assert!(cpu.get_flag(FlagMask::P));
    assert!(!cpu.get_flag(FlagMask::S));
}

#[test]
fn update_flags_of_sign_bit() {
    let mut cpu = CPU::new();
    cpu.set_flag(FlagMask::Z);
    cpu.update_flags(0x80);
    assert!(cpu.get_flag(FlagMask::S));
    assert!(!cpu.get_flag(FlagMask::Z));
    assert!(!cpu.get_flag(FlagMask::P));
}

#[test]
fn update_flags_of_odd_bit_count_clears_parity() {
    for value in [0x01u8, 0x07, 0x80, 0xfe, 0x13] {
        let mut cpu = CPU::new();
        cpu.set_flag(FlagMask::P);
        cpu.update_flags(value);
        assert!(!cpu.get_flag(FlagMask::P), "value {:#04x}", value);
    }
}

#[test]
fn update_flags_of_even_bit_count_sets_parity() {
    for value in [0x00u8, 0x03, 0x0f, 0xff, 0x81] {
        let mut cpu = CPU::new();
        cpu.update_flags(value);
        assert!(cpu.get_flag(FlagMask::P), "value {:#04x}", value);
    }
}

#[test]
fn update_flags_agrees_with_count_ones() {
    for value in 0..=255u8 {
        let mut cpu = CPU::new();
        cpu.update_flags(value);
        assert_eq!(cpu.get_flag(FlagMask::P), value.count_ones() % 2 == 0);
        assert_eq!(cpu.get_flag(FlagMask::Z), value == 0);
        assert_eq!(cpu.get_flag(FlagMask::S), value & 0x80 != 0);
    }
}

#[test]
fn update_flags_leaves_carry_and_auxiliary_carry() {
    let mut cpu = CPU::new();
    cpu.set_flag(FlagMask::C);
    cpu.update_flags(0x00);
    assert!(cpu.get_flag(FlagMask::C));
    assert!(!cpu.get_flag(FlagMask::A));
    cpu.unset_flag(FlagMask::C);
    cpu.set_flag(FlagMask::A);
    cpu.update_flags(0x81);
    assert!(!cpu.get_flag(FlagMask::C));
    assert!(cpu.get_flag(FlagMask::A));
}

#[test]
fn update_flags_touches_no_register() {
    let mut cpu = CPU::new();
    cpu.set_register(Register::A, 0x12);
    cpu.update_flags(0x00);
    assert_eq!(cpu.register(Register::A), 0x12);
    assert_eq!(cpu.stack_pointer(), 0xffff);
    assert_eq!(cpu.program_counter(), 0);
}

fn check_condition(flag: FlagMask, when_clear: Condition, when_set: Condition) {
    let mut cpu = CPU::new();
    for other in ALL_FLAGS {
        if other != flag {
            cpu.set_flag(other);
        }
    }
    assert!(cpu.verify_condition(when_clear));
    assert!(!cpu.verify_condition(when_set));
    cpu.set_flag(flag);
    for other in ALL_FLAGS {
        if other != flag {
            cpu.unset_flag(other);
        }
    }
    assert!(!cpu.verify_condition(when_clear));
    assert!(cpu.verify_condition(when_set));
}

#[test]
fn zero_conditions() {
    check_condition(FlagMask::Z, Condition::NZ, Condition::Z);
}

#[test]
fn carry_conditions() {
    check_condition(FlagMask::C, Condition::NC, Condition::C);
}

#[test]
fn parity_conditions() {
    check_condition(FlagMask::P, Condition::PO, Condition::PE);
}

#[test]
fn sign_conditions() {
    check_condition(FlagMask::S, Condition::P, Condition::M);
}

#[test]
fn push_then_pop_gives_the_value_back() {
    for value in [0x0000u16, 0xffff, 0x1234, 0x00ff, 0xff00, 0x8001] {
        let mut cpu = CPU::new();
        let before = cpu.stack_pointer();
        cpu.stack_push(value);
        assert_eq!(cpu.stack_pointer(), before.wrapping_sub(2));
        assert_eq!(cpu.stack_pop(), value);
        assert_eq!(cpu.stack_pointer(), before);
    }
}

#[test]
fn push_then_pop_at_every_kind_of_stack_pointer() {
    for start in [0x0000u16, 0x0001, 0x0002, 0x8000, 0xfffe, 0xffff] {
        let mut cpu = CPU::new();
        cpu.set_register_pair(RegisterPair::SP, start, &Instruction::NOP);
        cpu.stack_push(0xbeef);
        assert_eq!(cpu.stack_pointer(), start.wrapping_sub(2));
        assert_eq!(cpu.stack_pop(), 0xbeef);
        assert_eq!(cpu.stack_pointer(), start);
    }
}

#[test]
fn push_stores_low_byte_at_the_lower_address() {
    let mut cpu = CPU::new();
    cpu.stack_push(0x1234);
    assert_eq!(cpu.stack_pointer(), 0xfffd);
    assert_eq!(cpu.memory()[0xfffd], 0x34);
    assert_eq!(cpu.memory()[0xfffe], 0x12);
    assert_eq!(cpu.memory()[0xffff], 0x00);
}

#[test]
fn push_wraps_around_the_address_space() {
    let mut cpu = CPU::new();
    cpu.set_register_pair(RegisterPair::SP, 0x0001, &Instruction::NOP);
    cpu.stack_push(0x1234);
    assert_eq!(cpu.stack_pointer(), 0xffff);
    assert_eq!(cpu.memory()[0xffff], 0x34);
    assert_eq!(cpu.memory()[0x0000], 0x12);
}

#[test]
fn pop_reads_low_byte_first() {
    let mut cpu = cpu_with(&image(&[], &[0xcd, 0xab, 0x77]));
    cpu.set_register_pair(RegisterPair::SP, 0xfffd, &Instruction::NOP);
    assert_eq!(cpu.stack_pop(), 0xabcd);
    assert_eq!(cpu.stack_pointer(), 0xffff);
}

#[test]
fn pop_at_the_top_of_memory_wraps() {
    let mut cpu = cpu_with(&image(&[0x12], &[0x34]));
    assert_eq!(cpu.stack_pop(), 0x1234);
    assert_eq!(cpu.stack_pointer(), 0x0001);
}

#[test]
fn stack_is_last_in_first_out() {
    let mut cpu = CPU::new();
    cpu.stack_push(0x1111);
    cpu.stack_push(0x2222);
    cpu.stack_push(0x3333);
    assert_eq!(cpu.stack_pop(), 0x3333);
    assert_eq!(cpu.stack_pop(), 0x2222);
    assert_eq!(cpu.stack_pop(), 0x1111);
    assert_eq!(cpu.stack_pointer(), 0xffff);
}

#[test]
fn two_loads_and_a_jump() {
    let mut cpu = cpu_with(&[0x3e, 0x05, 0x3e, 0x07, 0xc3, 0x00, 0x00]);
    cpu.fetch_decode_execute().unwrap();
    assert_eq!(cpu.register(Register::A), 5);
    assert_eq!(cpu.program_counter(), 0x0002);
    cpu.fetch_decode_execute().unwrap();
    assert_eq!(cpu.register(Register::A), 7);
    assert_eq!(cpu.program_counter(), 0x0004);
    cpu.fetch_decode_execute().unwrap();
    assert_eq!(cpu.register(Register::A), 7);
    assert_eq!(cpu.program_counter(), 0x0000);
}

#[test]
fn the_loop_goes_on() {
    let mut cpu = cpu_with(&[0x3e, 0x05, 0x3e, 0x07, 0xc3, 0x00, 0x00]);
    for _ in 0..10 {
        run(&mut cpu, 3);
        assert_eq!(cpu.register(Register::A), 7);
        assert_eq!(cpu.program_counter(), 0x0000);
    }
}

#[test]
fn nop_only_advances() {
    let mut cpu = cpu_with(&[0x00, 0x00]);
    cpu.fetch_decode_execute().unwrap();
    assert_eq!(cpu.program_counter(), 1);
    assert_eq!(cpu.stack_pointer(), 0xffff);
    assert_eq!(cpu.register(Register::A), 0);
    cpu.fetch_decode_execute().unwrap();
    assert_eq!(cpu.program_counter(), 2);
}

#[test]
fn jmp_sets_the_program_counter() {
    let mut cpu = cpu_with(&[0xc3, 0x34, 0x12]);
    cpu.fetch_decode_execute().unwrap();
    assert_eq!(cpu.program_counter(), 0x1234);
}

#[test]
fn lxi_loads_each_pair() {
    let mut cpu = cpu_with(&[
        0x01, 0x34, 0x12, 0x11, 0x78, 0x56, 0x21, 0xbc, 0x9a, 0x31, 0x00, 0x80,
    ]);
    run(&mut cpu, 4);
    assert_eq!(cpu.register(Register::B), 0x12);
    assert_eq!(cpu.register(Register::C), 0x34);
    assert_eq!(cpu.register(Register::D), 0x56);
    assert_eq!(cpu.register(Register::E), 0x78);
    assert_eq!(cpu.register(Register::H), 0x9a);
    assert_eq!(cpu.register(Register::L), 0xbc);
    assert_eq!(cpu.stack_pointer(), 0x8000);
    assert_eq!(cpu.program_counter(), 12);
}

#[test]
fn mvi_loads_registers_and_memory() {
    let mut cpu = cpu_with(&[0x26, 0x20, 0x2e, 0x10, 0x36, 0xab, 0x06, 0x01]);
    run(&mut cpu, 4);
    assert_eq!(cpu.register(Register::H), 0x20);
    assert_eq!(cpu.register(Register::L), 0x10);
    assert_eq!(cpu.memory()[0x2010], 0xab);
    assert_eq!(cpu.register(Register::B), 0x01);
    assert_eq!(cpu.program_counter(), 8);
}

#[test]
fn cpi_compares_without_changing_the_accumulator() {
    let mut cpu = cpu_with(&[0x3e, 0x05, 0xfe, 0x05, 0xfe, 0x06, 0xfe, 0x04]);
    run(&mut cpu, 2);
    assert_eq!(cpu.register(Register::A), 5);
    assert!(cpu.get_flag(FlagMask::Z));
    assert!(!cpu.get_flag(FlagMask::S));
    assert!(cpu.get_flag(FlagMask::P));
    assert_eq!(cpu.program_counter(), 4);

    cpu.fetch_decode_execute().unwrap();
    assert_eq!(cpu.register(Register::A), 5);
    assert!(!cpu.get_flag(FlagMask::Z));
    assert!(cpu.get_flag(FlagMask::S));
    assert!(cpu.get_flag(FlagMask::P));

    cpu.fetch_decode_execute().unwrap();
    assert_eq!(cpu.register(Register::A), 5);
    assert!(!cpu.get_flag(FlagMask::Z));
    assert!(!cpu.get_flag(FlagMask::S));
    assert!(!cpu.get_flag(FlagMask::P));
}

#[test]
fn conditional_jump_taken() {
    let mut cpu = cpu_with(&[0x3e, 0x01, 0xfe, 0x01, 0xca, 0x00, 0x20]);
    run(&mut cpu, 3);
    assert_eq!(cpu.program_counter(), 0x2000);
}

#[test]
fn conditional_jump_not_taken() {
    let mut cpu = cpu_with(&[0x3e, 0x01, 0xfe, 0x01, 0xc2, 0x00, 0x20]);
    run(&mut cpu, 3);
    assert_eq!(cpu.program_counter(), 0x0007);
}

#[test]
fn conditional_jump_for_each_condition() {
    let cases = [
        (Condition::NZ, FlagMask::Z, false),
        (Condition::Z, FlagMask::Z, true),
        (Condition::NC, FlagMask::C, false),
        (Condition::C, FlagMask::C, true),
        (Condition::PO, FlagMask::P, false),
        (Condition::PE, FlagMask::P, true),
        (Condition::P, FlagMask::S, false),
        (Condition::M, FlagMask::S, true),
    ];
    for (condition, flag, jumps_when_set) in cases {
        let jump = Instruction::J(condition, 0x4000);
        let mut cpu = CPU::new();
        cpu.set_flag(flag);
        assert_eq!(cpu.execute(&jump, 3), Ok(()));
        assert_eq!(
            cpu.program_counter(),
            if jumps_when_set { 0x4000 } else { 3 }
        );
        let mut cpu = CPU::new();
        assert_eq!(cpu.execute(&jump, 3), Ok(()));
        assert_eq!(
            cpu.program_counter(),
            if jumps_when_set { 3 } else { 0x4000 }
        );
    }
}

#[test]
fn call_pushes_the_address_after_it() {
    let mut cpu = cpu_with(&[0x00, 0xcd, 0x00, 0x30]);
    run(&mut cpu, 2);
    assert_eq!(cpu.program_counter(), 0x3000);
    assert_eq!(cpu.stack_pointer(), 0xfffd);
    assert_eq!(cpu.memory()[0xfffd], 0x04);
    assert_eq!(cpu.memory()[0xfffe], 0x00);
}

#[test]
fn ret_goes_to_the_popped_address() {
    let mut cpu = CPU::new();
    cpu.stack_push(0x1234);
    cpu.load_program(&vec![0xc9]).unwrap();
    cpu.fetch_decode_execute().unwrap();
    assert_eq!(cpu.program_counter(), 0x1234);
    assert_eq!(cpu.stack_pointer(), 0xffff);
}

#[test]
fn call_and_ret_come_back() {
    // 0000 CALL $0006; 0003 MVI A,#$01; 0005 HLT; 0006 MVI B,#$02; 0008 RET
    let mut cpu = cpu_with(&[0xcd, 0x06, 0x00, 0x3e, 0x01, 0x76, 0x06, 0x02, 0xc9]);
    run(&mut cpu, 3);
    assert_eq!(cpu.program_counter(), 0x0003);
    assert_eq!(cpu.register(Register::B), 2);
    assert_eq!(cpu.stack_pointer(), 0xffff);
    cpu.fetch_decode_execute().unwrap();
    assert_eq!(cpu.register(Register::A), 1);
    assert_eq!(cpu.program_counter(), 0x0005);
}

#[test]
fn pop_fills_a_pair() {
    let mut cpu = cpu_with(&[0xc1, 0xd1, 0xe1]);
    cpu.stack_push(0x1111);
    cpu.stack_push(0x2222);
    cpu.stack_push(0x3456);
    run(&mut cpu, 3);
    assert_eq!(cpu.register(Register::B), 0x34);
    assert_eq!(cpu.register(Register::C), 0x56);
    assert_eq!(cpu.register(Register::D), 0x22);
    assert_eq!(cpu.register(Register::E), 0x22);
    assert_eq!(cpu.register(Register::H), 0x11);
    assert_eq!(cpu.register(Register::L), 0x11);
    assert_eq!(cpu.stack_pointer(), 0xffff);
    assert_eq!(cpu.program_counter(), 3);
}

#[test]
fn pop_psw_fills_flags_and_accumulator() {
    let mut cpu = cpu_with(&[0xf1]);
    cpu.stack_push(0x8142);
    cpu.fetch_decode_execute().unwrap();
    assert_eq!(cpu.register(Register::A), 0x42);
    assert!(cpu.get_flag(FlagMask::S));
    assert!(cpu.get_flag(FlagMask::C));
    assert!(!cpu.get_flag(FlagMask::Z));
    assert!(!cpu.get_flag(FlagMask::P));
    assert!(!cpu.get_flag(FlagMask::A));
    assert_eq!(cpu.stack_pointer(), 0xffff);
    assert_eq!(cpu.program_counter(), 1);
}

#[test]
fn ldax_reads_through_bc_and_de() {
    // LXI B,#$0010; LXI D,#$0011; LDAX B; LDAX D
    let mut program = vec![0x01, 0x10, 0x00, 0x11, 0x11, 0x00, 0x0a, 0x1a];
    program.resize(0x12, 0);
    program[0x10] = 0xaa;
    program[0x11] = 0xbb;
    let mut cpu = cpu_with(&program);
    run(&mut cpu, 3);
    assert_eq!(cpu.register(Register::A), 0xaa);
    cpu.fetch_decode_execute().unwrap();
    assert_eq!(cpu.register(Register::A), 0xbb);
    assert_eq!(cpu.program_counter(), 8);
}

#[test]
fn mov_between_registers_and_memory() {
    // MVI B,#$12; MOV A,B; LXI H,#$2000; MOV M,A; MOV C,M
    let mut cpu = cpu_with(&[0x06, 0x12, 0x78, 0x21, 0x00, 0x20, 0x77, 0x4e]);
    run(&mut cpu, 2);
    assert_eq!(cpu.register(Register::A), 0x12);
    assert_eq!(cpu.register(Register::B), 0x12);
    run(&mut cpu, 2);
    assert_eq!(cpu.memory()[0x2000], 0x12);
    cpu.fetch_decode_execute().unwrap();
    assert_eq!(cpu.register(Register::C), 0x12);
    assert_eq!(cpu.program_counter(), 8);
}

#[test]
fn inx_increments_without_flags() {
    // LXI B,#$00ff; INX B; LXI D,#$ffff; INX D; INX H; INX SP
    let mut cpu = cpu_with(&[0x01, 0xff, 0x00, 0x03, 0x11, 0xff, 0xff, 0x13, 0x23, 0x33]);
    run(&mut cpu, 2);
    assert_eq!(cpu.register(Register::B), 0x01);
    assert_eq!(cpu.register(Register::C), 0x00);
    run(&mut cpu, 2);
    assert_eq!(cpu.register(Register::D), 0x00);
    assert_eq!(cpu.register(Register::E), 0x00);
    cpu.fetch_decode_execute().unwrap();
    assert_eq!(cpu.register(Register::H), 0x00);
    assert_eq!(cpu.register(Register::L), 0x01);
    for flag in ALL_FLAGS {
        assert!(!cpu.get_flag(flag));
    }
    assert_eq!(cpu.execute(&Instruction::INX(RegisterPair::SP), 10), Ok(()));
    assert_eq!(cpu.stack_pointer(), 0x0000);
    assert_eq!(cpu.program_counter(), 10);
}

#[test]
fn dcr_decrements_and_sets_flags() {
    // MVI B,#$01; DCR B; DCR B
    let mut cpu = cpu_with(&[0x06, 0x01, 0x05, 0x05]);
    run(&mut cpu, 2);
    assert_eq!(cpu.register(Register::B), 0x00);
    assert!(cpu.get_flag(FlagMask::Z));
    assert!(cpu.get_flag(FlagMask::P));
    assert!(!cpu.get_flag(FlagMask::S));
    cpu.fetch_decode_execute().unwrap();
    assert_eq!(cpu.register(Register::B), 0xff);
    assert!(!cpu.get_flag(FlagMask::Z));
    assert!(cpu.get_flag(FlagMask::P));
    assert!(cpu.get_flag(FlagMask::S));
    assert_eq!(cpu.program_counter(), 4);
}

#[test]
fn dcr_of_memory() {
    // LXI H,#$0010; DCR M
    let mut program = vec![0x21, 0x10, 0x00, 0x35];
    program.resize(0x11, 0);
    program[0x10] = 0x08;
    let mut cpu = cpu_with(&program);
    run(&mut cpu, 2);
    assert_eq!(cpu.memory()[0x10], 0x07);
    assert!(!cpu.get_flag(FlagMask::P));
    assert!(!cpu.get_flag(FlagMask::Z));
    assert!(!cpu.get_flag(FlagMask::S));
}

#[test]
fn countdown_loop() {
    // MVI B,#$03; DCR B; JNZ $0002; MVI A,#$aa
    let mut cpu = cpu_with(&[0x06, 0x03, 0x05, 0xc2, 0x02, 0x00, 0x3e, 0xaa]);
    run(&mut cpu, 1 + 3 * 2 + 1);
    assert_eq!(cpu.register(Register::B), 0);
    assert_eq!(cpu.register(Register::A), 0xaa);
    assert_eq!(cpu.program_counter(), 8);
}

#[test]
fn halt_stops_and_stays() {
    let mut cpu = cpu_with(&[0x00, 0x76]);
    cpu.fetch_decode_execute().unwrap();
    for _ in 0..3 {
        assert_eq!(
            cpu.fetch_decode_execute(),
            Err(ExecutionError::Halted { address: 1 })
        );
        assert_eq!(cpu.program_counter(), 1);
    }
}

#[test]
fn unimplemented_instruction_is_reported() {
    let mut cpu = cpu_with(&[0x3e, 0x01, 0x80]);
    cpu.fetch_decode_execute().unwrap();
    let error = cpu.fetch_decode_execute().unwrap_err();
    assert_eq!(
        error,
        ExecutionError::Unimplemented {
            address: 2,
            instruction: Instruction::ADD(Register::B),
        }
    );
    assert_eq!(error.to_string(), "unimplemented instruction at $0002: ADD B");
    assert_eq!(cpu.program_counter(), 2);
    assert_eq!(cpu.register(Register::A), 1);
}

#[test]
fn push_has_no_execution_rule() {
    let mut cpu = cpu_with(&[0xc5]);
    assert_eq!(
        cpu.fetch_decode_execute(),
        Err(ExecutionError::Unimplemented {
            address: 0,
            instruction: Instruction::PUSH(RegisterPair::BC),
        })
    );
    assert_eq!(cpu.stack_pointer(), 0xffff);
}

#[test]
fn opcode_without_length_is_reported() {
    let mut cpu = cpu_with(&[0x00, 0xcb]);
    cpu.fetch_decode_execute().unwrap();
    let error = cpu.fetch_decode_execute().unwrap_err();
    assert_eq!(
        error,
        ExecutionError::UnknownOpcode {
            address: 1,
            opcode: 0xcb,
        }
    );
    assert_eq!(error.to_string(), "unknown opcode #$cb at $0001");
    assert_eq!(cpu.program_counter(), 1);
}

#[test]
fn unknown_instruction_is_reported() {
    let mut cpu = CPU::new();
    let error = cpu.execute(&Instruction::Unknown, 1).unwrap_err();
    assert_eq!(error, ExecutionError::UnknownInstruction { address: 0 });
    assert_eq!(error.to_string(), "unknown instruction at $0000");
    assert_eq!(cpu.program_counter(), 0);
}

#[test]
fn ldax_through_other_pairs_has_no_rule() {
    let mut cpu = CPU::new();
    for pair in [RegisterPair::HL, RegisterPair::SP] {
        assert_eq!(
            cpu.execute(&Instruction::LDAX(pair), 1),
            Err(ExecutionError::Unimplemented {
                address: 0,
                instruction: Instruction::LDAX(pair),
            })
        );
    }
    assert_eq!(cpu.program_counter(), 0);
}

#[test]
fn operands_past_the_end_of_memory_are_reported() {
    // JMP $ffff, and at $ffff an opcode that asks for two more bytes
    let mut cpu = cpu_with(&image(&[0xc3, 0xff, 0xff], &[0xc3]));
    cpu.fetch_decode_execute().unwrap();
    assert_eq!(cpu.program_counter(), 0xffff);
    let error = cpu.fetch_decode_execute().unwrap_err();
    assert_eq!(
        error,
        ExecutionError::MemoryOverrun {
            address: 0xffff,
            opcode: 0xc3,
        }
    );
    assert_eq!(
        error.to_string(),
        "operands beyond the end of memory for opcode #$c3 at $ffff"
    );
    assert_eq!(cpu.program_counter(), 0xffff);
}

#[test]
fn one_operand_byte_past_the_end_is_reported() {
    let mut cpu = cpu_with(&image(&[0xc3, 0xfe, 0xff], &[0xc3, 0x00]));
    cpu.fetch_decode_execute().unwrap();
    assert_eq!(
        cpu.fetch_decode_execute(),
        Err(ExecutionError::MemoryOverrun {
            address: 0xfffe,
            opcode: 0xc3,
        })
    );
}

#[test]
fn instruction_may_end_at_the_last_byte() {
    let mut cpu = cpu_with(&image(&[0xc3, 0xfe, 0xff], &[0x3e, 0x09]));
    run(&mut cpu, 2);
    assert_eq!(cpu.register(Register::A), 9);
    assert_eq!(cpu.program_counter(), 0x0000);
}

#[test]
fn program_counter_wraps_after_the_last_byte() {
    let mut cpu = cpu_with(&image(&[0xc3, 0xff, 0xff], &[0x00]));
    run(&mut cpu, 2);
    assert_eq!(cpu.program_counter(), 0x0000);
}

#[test]
fn error_texts() {
    assert_eq!(
        ExecutionError::Halted { address: 0x0100 }.to_string(),
        "halted at $0100"
    );
    assert_eq!(
        ExecutionError::DecodeFailure {
            address: 0xabcd,
            opcode: 0x0a,
        }
        .to_string(),
        "no instruction for opcode #$0a at $abcd"
    );
    assert_eq!(
        ExecutionError::Unimplemented {
            address: 0x0010,
            instruction: Instruction::MVI(Register::M, 0x0f),
        }
        .to_string(),
        "unimplemented instruction at $0010: MVI M,#$0f"
    );
}

#[test]
fn execute_advances_to_the_given_address() {
    let mut cpu = CPU::new();
    assert_eq!(cpu.execute(&Instruction::NOP, 0x0123), Ok(()));
    assert_eq!(cpu.program_counter(), 0x0123);
    assert_eq!(cpu.execute(&Instruction::MVI(Register::E, 9), 0x0125), Ok(()));
    assert_eq!(cpu.register(Register::E), 9);
    assert_eq!(cpu.program_counter(), 0x0125);
}
