use nes_emu::addressing::{opcode_len, Mode};
use nes_emu::assembler::{assemble, encode};
use nes_emu::base::{Processor, Reg};
use nes_emu::debug::opcode_name;
use nes_emu::memory::{Memory, ROM_START};
use nes_emu::nes::{Cartridge, CartridgeError, Nes};
use nes_emu::opcodes::{Fault, Instruction};
use nes_emu::program::ProgramError;
use nes_emu::status::{B_FLAG, C_FLAG, D_FLAG, F_FLAG, I_FLAG, N_FLAG, V_FLAG, Z_FLAG};

/// A processor with `code` at `ROM_START` and PC pointing at it.
fn with_code(code: &[u8]) -> Processor {
    let mut cpu = Processor::new(None);
    cpu.mem.load(ROM_START, code);
    cpu.state.pc = ROM_START;
    cpu
}

#[test]
fn mirror_reads_follow_the_ram_window() {
    let mut mem = Memory::new();
    mem.write(0x0123, 7);
    for k in 0..4 {
        assert_eq!(mem.read(0x0123 + 0x800 * k), 7);
    }
    // A write into a mirror is not seen through the window.
    mem.write(0x0923, 9);
    assert_eq!(mem.read(0x0923), 7);
    assert_eq!(mem.read(0x0123), 7);
    // Above the mirrored range reads are literal.
    mem.write(0x2123, 5);
    assert_eq!(mem.read(0x2123), 5);
    assert_eq!(mem.read(0x0123), 7);
}

#[test]
fn load_copies_bytes_in_place() {
    let mut mem = Memory::new();
    mem.load(0x9000, &[1, 2, 3]);
    assert_eq!(mem.read(0x8fff), 0);
    assert_eq!(mem.read(0x9000), 1);
    assert_eq!(mem.read(0x9002), 3);
    assert_eq!(mem.read(0x9003), 0);
}

#[test]
fn adc_signed_overflow() {
    let mut cpu = with_code(&[0x69, 0x50]);
    cpu.state.a = 0x50;
    cpu.adc(Mode::Immediate);
    assert_eq!(cpu.state.a, 0xA0);
    assert_eq!(cpu.state.status & N_FLAG, N_FLAG);
    assert_eq!(cpu.state.status & V_FLAG, V_FLAG);
    assert_eq!(cpu.state.status & C_FLAG, 0);
    assert_eq!(cpu.state.status & Z_FLAG, 0);
    assert_eq!(cpu.state.pc, ROM_START + 2);
    assert_eq!(cpu.cycles, 2);
}

#[test]
fn adc_unsigned_carry() {
    let mut cpu = with_code(&[0x69, 0xFF]);
    cpu.state.a = 0xFF;
    cpu.state.status = C_FLAG;
    cpu.adc(Mode::Immediate);
    assert_eq!(cpu.state.a, 0xFF);
    assert_eq!(cpu.state.status & C_FLAG, C_FLAG);
    assert_eq!(cpu.state.status & N_FLAG, N_FLAG);
    assert_eq!(cpu.state.status & V_FLAG, 0);
}

#[test]
fn and_sets_negative() {
    let mut cpu = with_code(&[0x29, 0x80]);
    cpu.state.a = 0xFF;
    cpu.and(Mode::Immediate);
    assert_eq!(cpu.state.a, 0x80);
    assert_eq!(cpu.state.status & N_FLAG, N_FLAG);
    assert_eq!(cpu.state.status & Z_FLAG, 0);
}

#[test]
fn sbc_subtracts_with_borrow() {
    // 5 - 3 with carry set (no borrow) is 2, carry stays set.
    let mut cpu = with_code(&[0xE9, 0x03]);
    cpu.state.a = 5;
    cpu.state.status = C_FLAG;
    cpu.exec().unwrap();
    assert_eq!(cpu.state.a, 2);
    assert_eq!(cpu.state.status & C_FLAG, C_FLAG);
    // 3 - 5 borrows: 0xFE, carry clear, negative.
    let mut cpu = with_code(&[0xE9, 0x05]);
    cpu.state.a = 3;
    cpu.state.status = C_FLAG;
    cpu.exec().unwrap();
    assert_eq!(cpu.state.a, 0xFE);
    assert_eq!(cpu.state.status & C_FLAG, 0);
    assert_eq!(cpu.state.status & N_FLAG, N_FLAG);
}

#[test]
fn cmp_and_dcp_compare() {
    let mut cpu = with_code(&[0xC9, 0x10]);
    cpu.state.a = 0x10;
    cpu.exec().unwrap();
    assert_eq!(cpu.state.status & (Z_FLAG | C_FLAG), Z_FLAG | C_FLAG);
    // DCP $40: memory 0x11 becomes 0x10, then equals A.
    let mut cpu = with_code(&[0xC7, 0x40]);
    cpu.mem.write(0x40, 0x11);
    cpu.state.a = 0x10;
    cpu.exec().unwrap();
    assert_eq!(cpu.mem.read(0x40), 0x10);
    assert_eq!(cpu.state.status & (Z_FLAG | C_FLAG), Z_FLAG | C_FLAG);
    assert_eq!(cpu.state.pc, ROM_START + 2);
}

#[test]
fn bit_copies_operand_bits() {
    let mut cpu = with_code(&[0x24, 0x10]);
    cpu.mem.write(0x10, 0xC0);
    cpu.state.a = 0x01;
    cpu.exec().unwrap();
    assert_eq!(cpu.state.status, N_FLAG | V_FLAG | Z_FLAG);
    assert_eq!(cpu.state.a, 0x01);
}

#[test]
fn asl_in_memory_and_accumulator() {
    let mut cpu = with_code(&[0x06, 0x20, 0x0A]);
    cpu.mem.write(0x20, 0x81);
    cpu.state.a = 0x40;
    cpu.exec().unwrap();
    assert_eq!(cpu.mem.read(0x20), 0x02);
    assert_eq!(cpu.state.status & C_FLAG, C_FLAG);
    cpu.exec().unwrap();
    assert_eq!(cpu.state.a, 0x80);
    assert_eq!(cpu.state.status & (N_FLAG | C_FLAG), N_FLAG);
}

#[test]
fn branch_round_trip() {
    // SEC; BCS +3; NOP; CLC; BCC -5
    let mut cpu = with_code(&[0x38, 0xB0, 0x03, 0xEA, 0x18, 0x90, 0xFB]);
    for _ in 0..4 {
        cpu.exec().unwrap();
    }
    assert_eq!(cpu.state.pc, ROM_START);
}

#[test]
fn branch_costs() {
    // Not taken: two cycles, PC past the branch.
    let mut cpu = with_code(&[0x90, 0x10]);
    cpu.state.status = C_FLAG;
    cpu.exec().unwrap();
    assert_eq!(cpu.state.pc, ROM_START + 2);
    assert_eq!(cpu.cycles, 2);
    // Taken within the page: three cycles.
    let mut cpu = with_code(&[0x90, 0x10]);
    cpu.exec().unwrap();
    assert_eq!(cpu.state.pc, ROM_START + 0x10);
    assert_eq!(cpu.cycles, 3);
    // Taken across a page: four cycles.
    let mut cpu = with_code(&[0x90, 0xF0]);
    cpu.exec().unwrap();
    assert_eq!(cpu.state.pc, ROM_START - 0x10);
    assert_eq!(cpu.cycles, 4);
}

#[test]
fn absolute_x_page_penalty() {
    // LDA $80FF,X with X = 1 crosses into the next page.
    let mut cpu = with_code(&[0xBD, 0xFF, 0x80]);
    cpu.mem.write(0x8100, 0x42);
    cpu.state.x = 1;
    cpu.exec().unwrap();
    assert_eq!(cpu.state.a, 0x42);
    assert_eq!(cpu.cycles, 5);
}

#[test]
fn stack_round_trip_and_wrap() {
    let mut cpu = Processor::new(None);
    cpu.state.sp = 0x00;
    cpu.stack_push(0x5A);
    assert_eq!(cpu.state.sp, 0xFF);
    assert_eq!(cpu.stack_pop(), 0x5A);
    assert_eq!(cpu.state.sp, 0x00);
    cpu.state.sp = 0xFF;
    cpu.mem.write(0x100, 0x77);
    assert_eq!(cpu.stack_pop(), 0x77);
    assert_eq!(cpu.state.sp, 0x00);
    assert_eq!(cpu.stack_top(), 0x100);
}

#[test]
fn jsr_rts_round_trip() {
    // JSR to 0x9000 (low byte first), where an RTS waits.
    let mut cpu = with_code(&[0x20, 0x00, 0x90]);
    cpu.mem.write(0x9000, 0x60);
    cpu.state.sp = 0xFF;
    cpu.exec().unwrap();
    assert_eq!(cpu.state.pc, 0x9000);
    assert_eq!(cpu.state.sp, 0xFD);
    assert_eq!(cpu.mem.read(0x1FF), 0x80);
    assert_eq!(cpu.mem.read(0x1FE), 0x02);
    cpu.exec().unwrap();
    assert_eq!(cpu.state.pc, ROM_START + 3);
    assert_eq!(cpu.state.sp, 0xFF);
}

#[test]
fn brk_rti_round_trip() {
    let mut cpu = with_code(&[0x00]);
    cpu.mem.load(0xFFFE, &[0x00, 0xA0]);
    cpu.mem.write(0xA000, 0x40);
    cpu.state.sp = 0xFF;
    cpu.state.status = C_FLAG;
    cpu.exec().unwrap();
    assert_eq!(cpu.state.pc, 0xA000);
    assert_eq!(cpu.state.status, C_FLAG | I_FLAG);
    assert_eq!(cpu.mem.read(0x1FD), C_FLAG | B_FLAG | F_FLAG);
    cpu.exec().unwrap();
    assert_eq!(cpu.state.pc, ROM_START + 2);
    assert_eq!(cpu.state.status, C_FLAG);
    assert_eq!(cpu.state.sp, 0xFF);
}

#[test]
fn php_plp_force_bits() {
    // PHP; PLP
    let mut cpu = with_code(&[0x08, 0x28]);
    cpu.state.sp = 0xFF;
    cpu.state.status = D_FLAG;
    cpu.exec().unwrap();
    assert_eq!(cpu.mem.read(0x1FF), D_FLAG | B_FLAG | F_FLAG);
    assert_eq!(cpu.state.status, D_FLAG);
    cpu.exec().unwrap();
    assert_eq!(cpu.state.status, D_FLAG | F_FLAG);
}

#[test]
fn pha_pla_restore_accumulator() {
    let mut cpu = with_code(&[0x48, 0x68]);
    cpu.state.sp = 0xFF;
    cpu.state.a = 0x80;
    cpu.exec().unwrap();
    cpu.state.a = 0;
    cpu.exec().unwrap();
    assert_eq!(cpu.state.a, 0x80);
    assert_eq!(cpu.state.status & N_FLAG, N_FLAG);
}

#[test]
fn decode_is_total() {
    let cpu = Processor::new(None);
    let mut jams = 0;
    for value in 0..=255u8 {
        let (instruction, mode) = cpu.decode(value);
        if instruction == Instruction::Nop {
            assert_eq!(value, 0xEA);
        }
        if instruction == Instruction::Jam {
            assert_eq!(mode, Mode::Implied);
            jams += 1;
        }
        if value & 3 == 3 && value >> 5 != 6 {
            assert_eq!(instruction, Instruction::Jam);
        }
    }
    assert_eq!(cpu.decode(0xEA), (Instruction::Nop, Mode::Implied));
    assert_eq!(cpu.decode(0x69), (Instruction::Adc, Mode::Immediate));
    assert_eq!(cpu.decode(0x7D), (Instruction::Adc, Mode::AbsoluteX));
    assert_eq!(cpu.decode(0x79), (Instruction::Adc, Mode::AbsoluteY));
    assert_eq!(cpu.decode(0x61), (Instruction::Adc, Mode::IndexedX));
    assert_eq!(cpu.decode(0x71), (Instruction::Adc, Mode::IndexedY));
    assert_eq!(cpu.decode(0xC3), (Instruction::Dcp, Mode::IndexedX));
    assert_eq!(cpu.decode(0x89), (Instruction::Jam, Mode::Implied));
    assert!(jams > 0);
}

#[test]
fn jam_is_a_fault() {
    let mut cpu = with_code(&[0x02]);
    assert_eq!(cpu.exec(), Err(Fault::Jam { opcode: 0x02, pc: ROM_START }));
    assert_eq!(cpu.state.pc, ROM_START);
    assert_eq!(cpu.cycles, 0);
}

#[test]
fn opcode_lengths() {
    assert_eq!(opcode_len(Mode::Implied), 1);
    assert_eq!(opcode_len(Mode::Accumulator), 1);
    assert_eq!(opcode_len(Mode::Immediate), 2);
    assert_eq!(opcode_len(Mode::Relative), 2);
    assert_eq!(opcode_len(Mode::Absolute), 3);
    assert_eq!(opcode_len(Mode::Indirect), 3);
}

#[test]
fn update_pc_wraps() {
    let mut cpu = Processor::new(None);
    cpu.update_pc(-1);
    assert_eq!(cpu.get_pc(), 0xFFFF);
    cpu.update_pc(2);
    assert_eq!(cpu.get_pc(), 1);
}

#[test]
fn registers_by_name() {
    let mut cpu = Processor::new(None);
    cpu.set_reg(Reg::X, 3);
    cpu.set_reg(Reg::Y, 4);
    cpu.set_reg(Reg::S, 5);
    assert_eq!(cpu.get_reg(Reg::X), 3);
    assert_eq!(cpu.get_reg(Reg::Y), 4);
    assert_eq!(cpu.get_reg(Reg::S), 5);
    assert_eq!(cpu.get_reg(Reg::A), 0);
    cpu.update_cycles(7);
    assert_eq!(cpu.cycles, 7);
}

#[test]
fn stalled_program_is_reported() {
    // JMP to itself never moves PC.
    let mut cpu = Processor::new(None);
    let r = cpu.run_program(&String::from("JMP $8000;"));
    assert_eq!(r, Err(ProgramError::Fault(Fault::Stalled { pc: ROM_START })));
}

#[test]
fn program_errors() {
    let mut cpu = Processor::new(None);
    assert_eq!(
        cpu.run_program(&String::from("LDA #$1;")),
        Err(ProgramError::Syntax)
    );
    assert_eq!(cpu.state.pc, 0);
    let long = "NOP;\n".repeat(0x8001);
    assert_eq!(cpu.run_program(&long), Err(ProgramError::TooLong));
    let mut cpu = Processor::new(None);
    cpu.mem.write(0xFF, 0);
    assert_eq!(
        cpu.run_program(&String::from(".byte;")),
        Err(ProgramError::Syntax)
    );
}

#[test]
fn jam_in_program_is_reported() {
    // STA has no immediate form: 0x89 locks the bus.
    let mut cpu = Processor::new(None);
    let r = cpu.run_program(&String::from("NOP;\nSTA #$05;"));
    assert_eq!(r, Err(ProgramError::Fault(Fault::Jam { opcode: 0x89, pc: ROM_START + 1 })));
    assert_eq!(cpu.state.pc, ROM_START + 1);
}

#[test]
fn assemble_lines() {
    let code = assemble(&String::from("  LDA #$01;\n\tSTA $10 ; keep\r\nBRK;  \n")).unwrap();
    assert_eq!(code, vec![0xA9, 0x01, 0x85, 0x10, 0x00]);
    assert_eq!(assemble(&String::from("   ")).unwrap(), Vec::<u8>::new());
    assert!(assemble(&String::from("LDA #$01;\n\nNOP;")).is_none());
    assert!(encode(&String::from("lda #$01;")).is_none());
    assert!(encode(&String::from("LDA #$01")).is_none());
    assert_eq!(encode(&String::from("XYZ;")).unwrap(), vec![0xEA]);
    assert_eq!(encode(&String::from("ASL A;")).unwrap(), vec![0x0A]);
    assert_eq!(encode(&String::from("BMI !$FA;")).unwrap(), vec![0x30, 0xFA]);
}

fn image(trainer: bool, units: u8) -> Vec<u8> {
    let mut data = vec![0u8; 16];
    data[0] = b'N';
    data[1] = b'E';
    data[2] = b'S';
    data[3] = 0x1A;
    data[4] = units;
    if trainer {
        data[6] = 0b0000_0100;
        data.extend(vec![0xEEu8; 512]);
    }
    for i in 0..(units as usize * 16384) {
        data.push((i % 251) as u8);
    }
    data
}

#[test]
fn cartridge_load() {
    let mut cart = Cartridge::new();
    assert_eq!(cart.header, "empty");
    assert_eq!(cart.load(&image(false, 1)), Ok(()));
    assert_eq!(cart.header, "NES");
    assert_eq!(cart.rom.len(), 16384);
    assert_eq!(cart.rom[0], 0);
    assert_eq!(cart.rom[300], (300 % 251) as u8);

    let mut cart = Cartridge::new();
    assert_eq!(cart.load(&image(true, 1)), Ok(()));
    assert_eq!(cart.rom[0], 0);
    assert_eq!(cart.rom.len(), 16384);

    let mut cart = Cartridge::new();
    let mut short = image(false, 1);
    short.pop();
    assert_eq!(cart.load(&short), Err(CartridgeError::Truncated));
    assert_eq!(cart.load(&vec![0u8; 6]), Err(CartridgeError::Truncated));
    assert_eq!(cart.header, "empty");
}

#[test]
fn nes_reset_and_run() {
    let mut nes = Nes::new(Processor::new(None));
    let mut data = image(false, 1);
    // The first PRG-ROM byte locks the bus.
    data[16] = 0x02;
    nes.cartridge.load(&data).unwrap();
    nes.reset(None);
    assert_eq!(nes.cpu.state.pc, ROM_START);
    assert_eq!(nes.cpu.state.sp, 0xFF);
    assert_eq!(nes.cpu.mem.read(0xC000), 0x02);
    assert_eq!(nes.cpu.mem.read(0xC000 + 300), (300 % 251) as u8);
    assert_eq!(nes.run(), Err(Fault::Jam { opcode: 0x02, pc: ROM_START }));

    nes.reset(Some(0xC001));
    assert_eq!(nes.cpu.state.pc, 0xC001);
    assert_eq!(nes.cpu.mem.read(0xFFFC), 0x01);
    assert_eq!(nes.cpu.mem.read(0xFFFD), 0xC0);
}

#[test]
fn opcode_names() {
    assert_eq!(opcode_name(0x69), "ADC");
    assert_eq!(opcode_name(0x20), "JSR");
    assert_eq!(opcode_name(0xEA), "NOP");
    assert_eq!(opcode_name(0xC7), "DCP");
    assert_eq!(opcode_name(0x02), "JAM");
    assert_eq!(opcode_name(0x1A), "NOP");
}

#[test]
fn shifts_and_rotates() {
    // LSR A: bit 0 goes to C.
    let mut cpu = with_code(&[0x4A]);
    cpu.state.a = 0x03;
    cpu.exec().unwrap();
    assert_eq!(cpu.state.a, 0x01);
    assert_eq!(cpu.state.status & C_FLAG, C_FLAG);
    // ROL A with C set: 0x80 becomes 0x01, C set.
    let mut cpu = with_code(&[0x2A]);
    cpu.state.a = 0x80;
    cpu.state.status = C_FLAG;
    cpu.exec().unwrap();
    assert_eq!(cpu.state.a, 0x01);
    assert_eq!(cpu.state.status & C_FLAG, C_FLAG);
    // ROR $10 with C set: 0x02 becomes 0x81, C clear, N set.
    let mut cpu = with_code(&[0x66, 0x10]);
    cpu.mem.write(0x10, 0x02);
    cpu.state.status = C_FLAG;
    cpu.exec().unwrap();
    assert_eq!(cpu.mem.read(0x10), 0x81);
    assert_eq!(cpu.state.status & (C_FLAG | N_FLAG), N_FLAG);
    assert_eq!(cpu.cycles, 5);
    // The assembler knows them.
    assert_eq!(encode(&String::from("LSR A;")).unwrap(), vec![0x4A]);
    assert_eq!(encode(&String::from("ROR $10;")).unwrap(), vec![0x66, 0x10]);
}

#[test]
fn index_compares() {
    // CPX #$05 with X = 7: C set, not zero.
    let mut cpu = with_code(&[0xE0, 0x05]);
    cpu.state.x = 7;
    cpu.exec().unwrap();
    assert_eq!(cpu.state.status & (C_FLAG | Z_FLAG), C_FLAG);
    // CPY $20 with Y equal to memory: Z and C set.
    let mut cpu = with_code(&[0xC4, 0x20]);
    cpu.mem.write(0x20, 9);
    cpu.state.y = 9;
    cpu.exec().unwrap();
    assert_eq!(cpu.state.status & (C_FLAG | Z_FLAG), C_FLAG | Z_FLAG);
    assert_eq!(opcode_name(0xE0), "CPX");
    assert_eq!(opcode_name(0x6A), "ROR");
}

#[test]
fn index_register_loads_and_stores() {
    // LDX #$80; LDY $10; STX $20,Y; STY $3412
    let mut cpu = with_code(&[0xA2, 0x80, 0xA4, 0x10, 0x96, 0x20, 0x8C, 0x12, 0x34]);
    cpu.mem.write(0x10, 0x05);
    cpu.exec().unwrap();
    assert_eq!(cpu.state.x, 0x80);
    assert_eq!(cpu.state.status & N_FLAG, N_FLAG);
    cpu.exec().unwrap();
    assert_eq!(cpu.state.y, 0x05);
    assert_eq!(cpu.state.status & N_FLAG, 0);
    cpu.exec().unwrap();
    assert_eq!(cpu.mem.read(0x25), 0x80);
    cpu.exec().unwrap();
    assert_eq!(cpu.mem.read(0x3412), 0x05);
    assert_eq!(cpu.state.pc, ROM_START + 9);
}

#[test]
fn register_steps_and_transfers() {
    // DEX; INY; TXA; TAY; TSX; TXS
    let mut cpu = with_code(&[0xCA, 0xC8, 0x8A, 0xA8, 0xBA, 0x9A]);
    cpu.state.x = 0;
    cpu.state.y = 0xFF;
    cpu.state.sp = 0x42;
    cpu.exec().unwrap();
    assert_eq!(cpu.state.x, 0xFF);
    assert_eq!(cpu.state.status & N_FLAG, N_FLAG);
    cpu.exec().unwrap();
    assert_eq!(cpu.state.y, 0);
    assert_eq!(cpu.state.status & (N_FLAG | Z_FLAG), Z_FLAG);
    cpu.exec().unwrap();
    assert_eq!(cpu.state.a, 0xFF);
    cpu.exec().unwrap();
    assert_eq!(cpu.state.y, 0xFF);
    cpu.exec().unwrap();
    assert_eq!(cpu.state.x, 0x42);
    cpu.state.x = 0x10;
    cpu.exec().unwrap();
    assert_eq!(cpu.state.sp, 0x10);
    assert_eq!(cpu.cycles, 12);
}

#[test]
fn memory_increment_and_decrement() {
    // INC $30; DEC $31
    let mut cpu = with_code(&[0xE6, 0x30, 0xC6, 0x31]);
    cpu.mem.write(0x30, 0xFF);
    cpu.mem.write(0x31, 0x01);
    cpu.exec().unwrap();
    assert_eq!(cpu.mem.read(0x30), 0);
    assert_eq!(cpu.state.status & Z_FLAG, Z_FLAG);
    cpu.exec().unwrap();
    assert_eq!(cpu.mem.read(0x31), 0);
    assert_eq!(opcode_name(0xE6), "INC");
    assert_eq!(encode(&String::from("INX;")).unwrap(), vec![0xE8]);
    assert_eq!(encode(&String::from("STX $10;")).unwrap(), vec![0x86, 0x10]);
}

#[test]
fn pointers_are_little_endian() {
    // JMP ($9000): the target is stored low byte first.
    let mut cpu = with_code(&[0x6C, 0x00, 0x90]);
    cpu.mem.load(0x9000, &[0x34, 0x92]);
    cpu.exec().unwrap();
    assert_eq!(cpu.state.pc, 0x9234);
    // LDA ($10),Y with the pointer 0x9000 and Y = 1.
    let mut cpu = with_code(&[0xB1, 0x10]);
    cpu.mem.load(0x10, &[0x00, 0x90]);
    cpu.mem.write(0x9001, 0x77);
    cpu.state.y = 1;
    cpu.exec().unwrap();
    assert_eq!(cpu.state.a, 0x77);
    // LDA ($0E,X) with X = 2 reads the pointer at 0x10.
    let mut cpu = with_code(&[0xA1, 0x0E]);
    cpu.mem.load(0x10, &[0x01, 0x90]);
    cpu.mem.write(0x9001, 0x55);
    cpu.state.x = 2;
    cpu.exec().unwrap();
    assert_eq!(cpu.state.a, 0x55);
    // LDA $3412 reads bytes 12 34.
    let mut cpu = with_code(&[0xAD, 0x12, 0x34]);
    cpu.mem.write(0x3412, 0x66);
    cpu.exec().unwrap();
    assert_eq!(cpu.state.a, 0x66);
}

#[test]
fn published_opcode_names() {
    assert_eq!(opcode_name(0x00), "BRK");
    assert_eq!(opcode_name(0x03), "SLO");
    assert_eq!(opcode_name(0x0B), "ANC");
    assert_eq!(opcode_name(0x41), "EOR");
    assert_eq!(opcode_name(0x80), "NOP");
    assert_eq!(opcode_name(0x8F), "SAX");
    assert_eq!(opcode_name(0xFF), "ISC");
    assert!(assemble(&String::from("\u{a0}NOP;")).is_none());
}
