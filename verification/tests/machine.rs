use chip8::cpu::Cpu;
use chip8::cpu::Fault;
use chip8::cpu::FaultKind;
use chip8::cpu::Stack;
use chip8::cpu::FONT_BASE_ADDRESS;
use chip8::cpu::START_ADDRESS;

/// Store an instruction word big-endian at `addr`: high byte first.
fn load_word(cpu: &mut Cpu, addr: u16, word: u16) {
    cpu.write_mem(addr, (word >> 8) as u8);
    cpu.write_mem(addr + 1, (word & 0xff) as u8);
}

#[test]
fn fresh_machine_state() {
    let cpu = Cpu::new();
    assert_eq!(cpu.pc(), START_ADDRESS);
    assert_eq!(cpu.index(), 0);
    assert_eq!(cpu.delay_timer(), 0);
    assert_eq!(cpu.sound_timer(), 0);
    assert_eq!(cpu.stack_sp(), 0);
    for x in 0..16u8 {
        assert_eq!(cpu.read_reg(x), 0);
    }
    assert_eq!(cpu.read_mem(0), 0);
    assert_eq!(cpu.read_mem(4095), 0);
}

#[test]
fn load_add_font_scenario() {
    // Load immediate, add immediate, then font lookup through VA.
    let mut cpu = Cpu::new();
    load_word(&mut cpu, 0x200, 0x6A05);
    load_word(&mut cpu, 0x202, 0x7A03);
    load_word(&mut cpu, 0x204, 0xFA29);
    cpu.cycle().unwrap();
    cpu.cycle().unwrap();
    cpu.cycle().unwrap();
    assert_eq!(cpu.read_reg(0xA), 8);
    assert_eq!(cpu.index(), FONT_BASE_ADDRESS + 8 * 5);
    assert_eq!(cpu.pc(), 0x206);
}

#[test]
fn call_then_ret_scenario() {
    let mut cpu = Cpu::new();
    load_word(&mut cpu, 0x200, 0x2300);
    load_word(&mut cpu, 0x300, 0x00EE);
    let sp_before = cpu.stack_sp();
    cpu.cycle().unwrap();
    assert_eq!(cpu.pc(), 0x300);
    assert_eq!(cpu.stack_sp(), sp_before + 1);
    cpu.cycle().unwrap();
    assert_eq!(cpu.pc(), 0x202);
    assert_eq!(cpu.stack_sp(), sp_before);
}

#[test]
fn store_registers_scenario() {
    // Store V0 through V3 at memory[I..I+4], leaving memory[I+4] untouched.
    let mut cpu = Cpu::new();
    load_word(&mut cpu, 0x200, 0xF355);
    cpu.set_index(0x300);
    cpu.write_reg(0, 1);
    cpu.write_reg(1, 2);
    cpu.write_reg(2, 3);
    cpu.write_reg(3, 4);
    cpu.cycle().unwrap();
    assert_eq!(cpu.read_mem(0x300), 1);
    assert_eq!(cpu.read_mem(0x301), 2);
    assert_eq!(cpu.read_mem(0x302), 3);
    assert_eq!(cpu.read_mem(0x303), 4);
    assert_eq!(cpu.read_mem(0x304), 0);
    assert_eq!(cpu.pc(), 0x202);
}

#[test]
fn load_registers_from_memory() {
    let mut cpu = Cpu::new();
    load_word(&mut cpu, 0x200, 0xF265);
    cpu.set_index(0x320);
    cpu.write_mem(0x320, 11);
    cpu.write_mem(0x321, 22);
    cpu.write_mem(0x322, 33);
    cpu.write_mem(0x323, 44);
    cpu.write_reg(3, 77);
    cpu.cycle().unwrap();
    assert_eq!(cpu.read_reg(0), 11);
    assert_eq!(cpu.read_reg(1), 22);
    assert_eq!(cpu.read_reg(2), 33);
    // V3 is beyond the requested range and keeps its value.
    assert_eq!(cpu.read_reg(3), 77);
}

#[test]
fn skip_equal_immediate() {
    // Taken: PC advances by 4 in total.
    let mut cpu = Cpu::new();
    load_word(&mut cpu, 0x200, 0x3A05);
    cpu.write_reg(0xA, 0x05);
    cpu.cycle().unwrap();
    assert_eq!(cpu.pc(), 0x204);

    // Not taken: PC advances by 2.
    let mut cpu = Cpu::new();
    load_word(&mut cpu, 0x200, 0x3A05);
    cpu.write_reg(0xA, 0x06);
    cpu.cycle().unwrap();
    assert_eq!(cpu.pc(), 0x202);
}

#[test]
fn skip_not_equal_immediate() {
    let mut cpu = Cpu::new();
    load_word(&mut cpu, 0x200, 0x4A05);
    cpu.write_reg(0xA, 0x06);
    cpu.cycle().unwrap();
    assert_eq!(cpu.pc(), 0x204);

    let mut cpu = Cpu::new();
    load_word(&mut cpu, 0x200, 0x4A05);
    cpu.write_reg(0xA, 0x05);
    cpu.cycle().unwrap();
    assert_eq!(cpu.pc(), 0x202);
}

#[test]
fn skip_register_comparisons() {
    let mut cpu = Cpu::new();
    load_word(&mut cpu, 0x200, 0x5AB0);
    cpu.write_reg(0xA, 9);
    cpu.write_reg(0xB, 9);
    cpu.cycle().unwrap();
    assert_eq!(cpu.pc(), 0x204);

    let mut cpu = Cpu::new();
    load_word(&mut cpu, 0x200, 0x9AB0);
    cpu.write_reg(0xA, 9);
    cpu.write_reg(0xB, 8);
    cpu.cycle().unwrap();
    assert_eq!(cpu.pc(), 0x204);

    let mut cpu = Cpu::new();
    load_word(&mut cpu, 0x200, 0x9AB0);
    cpu.write_reg(0xA, 9);
    cpu.write_reg(0xB, 9);
    cpu.cycle().unwrap();
    assert_eq!(cpu.pc(), 0x202);
}

#[test]
fn add_immediate_wraps_without_flag() {
    let mut cpu = Cpu::new();
    load_word(&mut cpu, 0x200, 0x7AFF);
    cpu.write_reg(0xA, 2);
    cpu.write_reg(0xF, 7);
    cpu.cycle().unwrap();
    assert_eq!(cpu.read_reg(0xA), 1);
    // The immediate add never touches the flag register.
    assert_eq!(cpu.read_reg(0xF), 7);
}

#[test]
fn bitwise_register_operations() {
    let mut cpu = Cpu::new();
    load_word(&mut cpu, 0x200, 0x8AB0);
    load_word(&mut cpu, 0x202, 0x8CD1);
    load_word(&mut cpu, 0x204, 0x8452);
    load_word(&mut cpu, 0x206, 0x8673);
    cpu.write_reg(0xB, 0x5A);
    cpu.write_reg(0xC, 0xF0);
    cpu.write_reg(0xD, 0x0F);
    cpu.write_reg(0x4, 0xCC);
    cpu.write_reg(0x5, 0xAA);
    cpu.write_reg(0x6, 0xCC);
    cpu.write_reg(0x7, 0xAA);
    cpu.cycle().unwrap();
    cpu.cycle().unwrap();
    cpu.cycle().unwrap();
    cpu.cycle().unwrap();
    assert_eq!(cpu.read_reg(0xA), 0x5A); // move
    assert_eq!(cpu.read_reg(0xC), 0xFF); // or
    assert_eq!(cpu.read_reg(0x4), 0x88); // and
    assert_eq!(cpu.read_reg(0x6), 0x66); // xor
}

#[test]
fn add_register_carry_flag() {
    let mut cpu = Cpu::new();
    load_word(&mut cpu, 0x200, 0x8AB4);
    cpu.write_reg(0xA, 200);
    cpu.write_reg(0xB, 100);
    cpu.cycle().unwrap();
    assert_eq!(cpu.read_reg(0xA), 44);
    assert_eq!(cpu.read_reg(0xF), 1);

    let mut cpu = Cpu::new();
    load_word(&mut cpu, 0x200, 0x8AB4);
    cpu.write_reg(0xA, 200);
    cpu.write_reg(0xB, 55);
    cpu.cycle().unwrap();
    assert_eq!(cpu.read_reg(0xA), 255);
    assert_eq!(cpu.read_reg(0xF), 0);
}

#[test]
fn sub_register_borrow_flag() {
    let mut cpu = Cpu::new();
    load_word(&mut cpu, 0x200, 0x8AB5);
    cpu.write_reg(0xA, 5);
    cpu.write_reg(0xB, 3);
    cpu.cycle().unwrap();
    assert_eq!(cpu.read_reg(0xA), 2);
    assert_eq!(cpu.read_reg(0xF), 1);

    let mut cpu = Cpu::new();
    load_word(&mut cpu, 0x200, 0x8AB5);
    cpu.write_reg(0xA, 3);
    cpu.write_reg(0xB, 5);
    cpu.cycle().unwrap();
    assert_eq!(cpu.read_reg(0xA), 254);
    assert_eq!(cpu.read_reg(0xF), 0);
}

#[test]
fn subn_register_borrow_flag() {
    let mut cpu = Cpu::new();
    load_word(&mut cpu, 0x200, 0x8AB7);
    cpu.write_reg(0xA, 3);
    cpu.write_reg(0xB, 5);
    cpu.cycle().unwrap();
    assert_eq!(cpu.read_reg(0xA), 2);
    assert_eq!(cpu.read_reg(0xF), 1);

    let mut cpu = Cpu::new();
    load_word(&mut cpu, 0x200, 0x8AB7);
    cpu.write_reg(0xA, 5);
    cpu.write_reg(0xB, 3);
    cpu.cycle().unwrap();
    assert_eq!(cpu.read_reg(0xA), 254);
    assert_eq!(cpu.read_reg(0xF), 0);
}

#[test]
fn shift_right_flag_is_low_bit() {
    let mut cpu = Cpu::new();
    load_word(&mut cpu, 0x200, 0x8AB6);
    cpu.write_reg(0xA, 5);
    cpu.cycle().unwrap();
    assert_eq!(cpu.read_reg(0xA), 2);
    assert_eq!(cpu.read_reg(0xF), 1);

    let mut cpu = Cpu::new();
    load_word(&mut cpu, 0x200, 0x8AB6);
    cpu.write_reg(0xA, 4);
    cpu.cycle().unwrap();
    assert_eq!(cpu.read_reg(0xA), 2);
    assert_eq!(cpu.read_reg(0xF), 0);
}

#[test]
fn shift_left_flag_is_high_bit() {
    let mut cpu = Cpu::new();
    load_word(&mut cpu, 0x200, 0x8ABE);
    cpu.write_reg(0xA, 0x81);
    cpu.cycle().unwrap();
    assert_eq!(cpu.read_reg(0xA), 0x02);
    assert_eq!(cpu.read_reg(0xF), 1);

    let mut cpu = Cpu::new();
    load_word(&mut cpu, 0x200, 0x8ABE);
    cpu.write_reg(0xA, 0x40);
    cpu.cycle().unwrap();
    assert_eq!(cpu.read_reg(0xA), 0x80);
    assert_eq!(cpu.read_reg(0xF), 0);
}

#[test]
fn flag_written_after_result_when_destination_is_vf() {
    // With VF as the destination the flag value wins, since it is written
    // after the primary result.
    let mut cpu = Cpu::new();
    load_word(&mut cpu, 0x200, 0x8FB4);
    cpu.write_reg(0xF, 200);
    cpu.write_reg(0xB, 100);
    cpu.cycle().unwrap();
    assert_eq!(cpu.read_reg(0xF), 1);
}

#[test]
fn stack_is_last_in_first_out() {
    let mut stack = Stack::new();
    for v in 1..=16u16 {
        stack.push(v * 100);
    }
    assert_eq!(stack.sp(), 0);
    for v in (1..=16u16).rev() {
        assert_eq!(stack.pop(), v * 100);
    }
    assert_eq!(stack.sp(), 0);
}

#[test]
fn seventeenth_push_overwrites_oldest_slot() {
    let mut stack = Stack::new();
    for v in 1..=16u16 {
        stack.push(v);
    }
    stack.push(99);
    assert_eq!(stack.sp(), 1);
    assert_eq!(stack.pop(), 99);
    assert_eq!(stack.pop(), 16);
    assert_eq!(stack.pop(), 15);
}

#[test]
fn jumps() {
    let mut cpu = Cpu::new();
    load_word(&mut cpu, 0x200, 0x1ABC);
    cpu.cycle().unwrap();
    assert_eq!(cpu.pc(), 0xABC);

    let mut cpu = Cpu::new();
    load_word(&mut cpu, 0x200, 0xB300);
    cpu.write_reg(0, 5);
    cpu.cycle().unwrap();
    assert_eq!(cpu.pc(), 0x305);
}

#[test]
fn load_index_and_add_index() {
    let mut cpu = Cpu::new();
    load_word(&mut cpu, 0x200, 0xA123);
    load_word(&mut cpu, 0x202, 0xFA1E);
    cpu.write_reg(0xA, 0x10);
    cpu.cycle().unwrap();
    assert_eq!(cpu.index(), 0x123);
    cpu.cycle().unwrap();
    assert_eq!(cpu.index(), 0x133);
}

#[test]
fn add_index_wraps_at_sixteen_bits() {
    let mut cpu = Cpu::new();
    load_word(&mut cpu, 0x200, 0xFA1E);
    cpu.set_index(0xFFFF);
    cpu.write_reg(0xA, 3);
    cpu.cycle().unwrap();
    assert_eq!(cpu.index(), 2);
}

#[test]
fn timers_read_and_write() {
    let mut cpu = Cpu::new();
    load_word(&mut cpu, 0x200, 0xFA15);
    load_word(&mut cpu, 0x202, 0xFB07);
    load_word(&mut cpu, 0x204, 0xFC18);
    cpu.write_reg(0xA, 42);
    cpu.write_reg(0xC, 77);
    cpu.cycle().unwrap();
    assert_eq!(cpu.delay_timer(), 42);
    cpu.cycle().unwrap();
    assert_eq!(cpu.read_reg(0xB), 42);
    cpu.cycle().unwrap();
    assert_eq!(cpu.sound_timer(), 77);
}

#[test]
fn binary_coded_decimal() {
    let mut cpu = Cpu::new();
    load_word(&mut cpu, 0x200, 0xFA33);
    cpu.set_index(0x300);
    cpu.write_reg(0xA, 234);
    cpu.cycle().unwrap();
    assert_eq!(cpu.read_mem(0x300), 2);
    assert_eq!(cpu.read_mem(0x301), 3);
    assert_eq!(cpu.read_mem(0x302), 4);
}

#[test]
fn font_address_for_largest_digit() {
    let mut cpu = Cpu::new();
    load_word(&mut cpu, 0x200, 0xF029);
    cpu.write_reg(0, 0xF);
    cpu.cycle().unwrap();
    assert_eq!(cpu.index(), FONT_BASE_ADDRESS + 15 * 5);
}

#[test]
fn invalid_instruction_faults_and_preserves_state() {
    let mut cpu = Cpu::new();
    load_word(&mut cpu, 0x200, 0xFFFF);
    let fault = cpu.cycle().unwrap_err();
    assert_eq!(
        fault,
        Fault { kind: FaultKind::InvalidInstruction, pc: 0x200, word: 0xFFFF }
    );
    assert_eq!(cpu.pc(), 0x200);
}

#[test]
fn fetch_out_of_bounds_faults() {
    let mut cpu = Cpu::new();
    load_word(&mut cpu, 0x200, 0x1FFF);
    cpu.cycle().unwrap();
    assert_eq!(cpu.pc(), 0xFFF);
    let fault = cpu.cycle().unwrap_err();
    assert_eq!(
        fault,
        Fault { kind: FaultKind::MemoryOutOfBounds, pc: 0xFFF, word: 0 }
    );
    assert_eq!(cpu.pc(), 0xFFF);
}

#[test]
fn register_store_out_of_bounds_faults() {
    let mut cpu = Cpu::new();
    load_word(&mut cpu, 0x200, 0xF355);
    cpu.set_index(0xFFD);
    cpu.write_reg(0, 9);
    let fault = cpu.cycle().unwrap_err();
    assert_eq!(
        fault,
        Fault { kind: FaultKind::MemoryOutOfBounds, pc: 0x200, word: 0xF355 }
    );
    // The fault leaves everything unchanged, the program counter included.
    assert_eq!(cpu.pc(), 0x200);
    assert_eq!(cpu.read_mem(0xFFD), 0);
}

#[test]
fn decimal_store_out_of_bounds_faults() {
    let mut cpu = Cpu::new();
    load_word(&mut cpu, 0x200, 0xFA33);
    cpu.set_index(0xFFE);
    let fault = cpu.cycle().unwrap_err();
    assert_eq!(
        fault,
        Fault { kind: FaultKind::MemoryOutOfBounds, pc: 0x200, word: 0xFA33 }
    );
    assert_eq!(cpu.pc(), 0x200);
}

#[test]
fn peripheral_instructions_fault() {
    let words: Vec<u16> = vec![0x00E0, 0xCA55, 0xD123, 0xEA9E, 0xEAA1, 0xFA0A];
    for word in words {
        let mut cpu = Cpu::new();
        load_word(&mut cpu, 0x200, word);
        let fault = cpu.cycle().unwrap_err();
        assert_eq!(
            fault,
            Fault { kind: FaultKind::NeedsPeripheral, pc: 0x200, word }
        );
        assert_eq!(cpu.pc(), 0x200);
    }
}
