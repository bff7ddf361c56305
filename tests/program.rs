use nes_emu::assembler::{
    apply_address_mode, encode, ADC, MODE_ABS, MODE_ABX, MODE_ABY, MODE_IMM, MODE_IML, MODE_IND,
    MODE_INX, MODE_INY, MODE_ZPG, MODE_ZPX, MODE_ZPY,
};
use nes_emu::base::Processor;
use nes_emu::memory::ROM_START;

#[test]
fn test_math() {
    let mut cpu = Processor::new(None);
    let _ = cpu.run_program(&String::from(
        "
            LDA #$01; load accumulator
            SEC     ; set carry flag
            ADC #$01; add with carry
        ",
    ));
    // a + operand + carry_flag
    assert_eq!(cpu.state.a, 3, "ADC result should be {}", 3);

    let _ = cpu.run_program(&String::from(
        "
        LDA #$03;
        AND #$02;",
    ));

    assert_eq!(cpu.state.a, 0b10, "AND result should be {}", 0b10);

    let _ = cpu.run_program(&String::from(
        "
        LDA #$02;
        ASL A;
        ",
    ));
    assert_eq!(cpu.state.a, 4, "ASL A result should be {}", 4);
}

#[test]
fn test_branches() {
    let mut cpu = Processor::new(None);
    let _ = cpu.run_program(&String::from(
        "
        SEC     ; set accumulator
        BCS !$03; brach foward +3 because accumulator is set
        NOP     ; this should be skipped
        CLC     ; carry clear should cause the next instruction to jump back
        BCC !$FB; branch to start because accumulator is clear
        ",
    ));
    assert_eq!(
        cpu.state.pc, ROM_START,
        "Branch BCS and reverse branch with BCC"
    );

    let _ = cpu.run_program(&String::from(
        "
        LDA #$00;
        BEQ !$FE;
        ",
    ));
    assert_eq!(cpu.state.pc, ROM_START, "Branch via BEQ");

    // Testing BIT as well as BMI below
    let _ = cpu.run_program(&String::from(
        "
        LDA #$80;
        STA $FF ;
        BIT $FF ; bit test with value using zero-page
        BMI !$FA; branch -6
       ",
    ));
    assert_eq!(cpu.state.pc, ROM_START, "Branch via BMI");

    let _ = cpu.run_program(&String::from(
        "
        BIT $00FF; the operand is stored low byte first
        BMI !$FD ;
        ",
    ));
    assert_eq!(cpu.state.pc, ROM_START, "Branch via BMI");

    let _ = cpu.run_program(&String::from(
        "
        LDA #$01;
        BNE !$FE;
        ",
    ));
    assert_eq!(cpu.state.pc, ROM_START, "Branch via BNE");

    let _ = cpu.run_program(&String::from(
        "
        LDA #$01;
        BPL !$FE;
        ",
    ));
    assert_eq!(cpu.state.pc, ROM_START, "Branch via BPL");
}

#[test]
fn test_cld() {
    let mut cpu = Processor::new(None);
    let _ = cpu.run_program(&String::from(
        "
        LDA #$08; load bit 4 into A. This equals Decimal flag
        STA $FF; save it at address 0xFF
        SED    ;
        CLD    ;
        BRK    ; force exit
        ",
    ));

    assert_eq!(cpu.state.status, 0);
}

#[test]
fn test_encode() {
    let program = encode(&String::from("ADC;")).unwrap();
    assert_eq!(program[0], apply_address_mode(ADC, MODE_IML));

    // test comments
    let program = encode(&String::from("ADC; this is a comment")).unwrap();
    assert_eq!(program[0], apply_address_mode(ADC, MODE_IML));

    let program = encode(&String::from(
        "ADC     ;semi-colon can be spaced however needed",
    ))
    .unwrap();
    assert_eq!(program[0], apply_address_mode(ADC, MODE_IML));

    let program = encode(&String::from("ADC #$A0;")).unwrap();
    assert_eq!(program[0], apply_address_mode(ADC, MODE_IMM));
    assert_eq!(program[1], 0xa0);

    let program = encode(&String::from("ADC $A0;")).unwrap();
    assert_eq!(program[0], apply_address_mode(ADC, MODE_ZPG));
    assert_eq!(program[1], 0xa0);

    let program = encode(&String::from("ADC $A0,X;")).unwrap();
    assert_eq!(program[0], apply_address_mode(ADC, MODE_ZPX));
    assert_eq!(program[1], 0xa0);

    let program = encode(&String::from("ADC $A0,Y;")).unwrap();
    assert_eq!(program[0], apply_address_mode(ADC, MODE_ZPY));
    assert_eq!(program[1], 0xa0);

    let program = encode(&String::from("ADC $A0FF;")).unwrap();
    assert_eq!(program[0], apply_address_mode(ADC, MODE_ABS));
    assert_eq!(program[1], 0xff);
    assert_eq!(program[2], 0xa0);

    let program = encode(&String::from("ADC $A0FF,X;")).unwrap();
    assert_eq!(program[0], apply_address_mode(ADC, MODE_ABX));
    assert_eq!(program[1], 0xff);
    assert_eq!(program[2], 0xa0);

    let program = encode(&String::from("ADC $A0FF,Y;")).unwrap();
    assert_eq!(program[0], apply_address_mode(ADC, MODE_ABY));
    assert_eq!(program[1], 0xff);
    assert_eq!(program[2], 0xa0);

    // indirect instruction encoding. Note that ADC does not actually have an indirect
    // version on the real cpu. This is for testing purposes only.
    let program = encode(&String::from("ADC ($AABB);")).unwrap();
    assert_eq!(program[0], apply_address_mode(ADC, MODE_IND));
    assert_eq!(program[1], 0xbb);
    assert_eq!(program[2], 0xaa);

    let program = encode(&String::from("ADC ($AA,X);")).unwrap();
    assert_eq!(program[0], apply_address_mode(ADC, MODE_INX));
    assert_eq!(program[1], 0xaa);

    let program = encode(&String::from("ADC ($BB),Y;")).unwrap();
    assert_eq!(program[0], apply_address_mode(ADC, MODE_INY));
    assert_eq!(program[1], 0xbb);
}
