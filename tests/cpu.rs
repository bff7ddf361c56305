use nes_emu::alu::{self, State};
use nes_emu::memory::Memory;
use nes_emu::status::{C_FLAG, N_FLAG, V_FLAG, Z_FLAG};

#[test]
fn cpu_test_memory() {
    let mut mem = Memory::new();
    mem.write(0, 24);

    assert_eq!(mem.read(0), 24);
    assert_eq!(mem.read(0x800), 24);
    assert_eq!(mem.read(0x800 * 2), 24);
    assert_eq!(mem.read(0x800 * 3), 24);
}

#[test]
fn cpu_test_status_flags() {
    //  http://www.righto.com/2012/12/the-6502-overflow-flag-explained.html
    let overflow_table = [
        // "#0 No unsigned carry or signed overflow",
        (0x50, 0x10, 0x60, 0b0000_0000),
        // "#1 No unsigned carry but signed overflow",
        (0x50, 0x50, 0xae, 0b0100_0000),
        // "#2 No unsigned carry or signed overflow",
        (0x50, 0x90, 0xe0, 0b0000_0000),
        // "#3 Unsigned carry, but no signed overflow",
        (0x50, 0xd0, 0x120, 0b0000_0000),
        // "#4 No unsigned carry or signed overflow",
        (0xd0, 0x10, 0xe0, 0b0000_0000),
        // "#5 Unsigned carry but no signed overflow",
        (0xd0, 0x50, 0x120, 0b0000_0000),
        // "#6 Unsigned carry and signed overflow",
        (0xd0, 0x90, 0x160, 0b0100_0000),
        // "#7 Unsigned carry, but no signed overflow",
        (0xd0, 0xd0, 0x1a0, 0b0000_0000),
    ];

    for i in 0..overflow_table.len() {
        let (m, n, result, expected) = overflow_table[i];
        let status = alu::calc_status(0, (m, n, result as u8, V_FLAG));
        assert_eq!(
            status, expected,
            "VFLAG m: {} n: {} result: {}",
            m, n, result
        );
    }
}

#[test]
fn test_adc() {
    let base = State {
        pc: 0,
        a: 0,
        x: 0,
        y: 0,
        status: 0,
        cycles: 0,
    };
    // a + operand + carry_flag
    let state = alu::adc(
        State {
            a: 1,
            status: 0 | C_FLAG,
            ..base
        },
        1,
    );
    assert_eq!(state.a, 3);
    assert_eq!(state.pc, 2);
    assert_eq!(state.cycles, 2);

    let state = alu::adc(State { a: 1, ..base }, 0xFF);
    assert_eq!(state.a, 0);
    assert_eq!(state.status, Z_FLAG | C_FLAG);

    // This will check the overflow logic of 0xFF + 0xFF + 1 = 0xFF
    let state = alu::adc(
        State {
            a: 0xFF,
            status: C_FLAG,
            ..base
        },
        0xFF,
    );
    assert_eq!(state.a, 0xFF);
    assert_eq!(state.status, N_FLAG | C_FLAG);

    let state = alu::adc(State { a: 0x50, ..base }, 0x50);
    assert_eq!(state.a, 0xa0);
    assert_eq!(state.status, N_FLAG | V_FLAG);
}

#[test]
fn test_and() {
    let base = State {
        pc: 0,
        a: 0,
        x: 0,
        y: 0,
        status: 0,
        cycles: 0,
    };
    let state = alu::and(State { a: 0b11, ..base }, 0b10);
    assert_eq!(state.a, 0b10);
    assert_eq!(state.cycles, 2);

    // Negative flag
    let state = alu::and(State { a: 0xff, ..base }, N_FLAG);
    assert_eq!(state.a, 0b1000_0000);
    assert_eq!(state.status, N_FLAG);

    // Zero flag
    let state = alu::and(State { a: 0xff, ..base }, 0);
    assert_eq!(state.a, 0);
    assert_eq!(state.status, Z_FLAG);
}
