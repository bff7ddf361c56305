//! A small line assembler for test programs: `"MNEMONIC operand; comment"`
//! per line. Program text is ASCII: the whitespace trimmed from the text and
//! from each line is ASCII whitespace only, so a line that begins or ends
//! with other Unicode whitespace (such as U+00A0) does not assemble.

use vstd::prelude::*;
use vstd::slice::slice_subrange;
use vstd::utf8::encode_utf8;

verus! {

/// Opcodes of a few instructions in their usual mode.
pub const ADC: u8 = 0x69;

pub const BCC: u8 = 0x90;

pub const BCS: u8 = 0xb0;

pub const BEQ: u8 = 0xf0;

pub const BIT_Z: u8 = 0x24;

pub const BIT_A: u8 = 0x2c;

pub const BMI: u8 = 0x30;

pub const BNE: u8 = 0xd0;

pub const BPL: u8 = 0x10;

pub const CLC: u8 = 0x18;

pub const SEC: u8 = 0x38;

pub const NOP: u8 = 0xea;

pub const LDA: u8 = 0xa9;

/// Mode bits (the `bbb` field) merged into a base opcode.
pub const MODE_IML: u8 = 0b0000_0000;

pub const MODE_ZPG: u8 = 0b0000_0100;

pub const MODE_IMM: u8 = 0b0000_1000;

pub const MODE_ACC: u8 = 0b0000_1000;

pub const MODE_ABS: u8 = 0b0000_1100;

pub const MODE_IND: u8 = 0b0000_1100;

pub const MODE_INX: u8 = 0b0000_0000;

pub const MODE_INY: u8 = 0b0001_0000;

pub const MODE_REL: u8 = 0b0001_0000;

pub const MODE_ZPX: u8 = 0b0001_0100;

pub const MODE_ZPY: u8 = 0b0001_0100;

pub const MODE_ABY: u8 = 0b0001_1000;

pub const MODE_ABX: u8 = 0b0001_1100;

/// ASCII `A`.
pub const LETTER_A: u8 = 0x41;

/// ASCII `F`.
pub const LETTER_F: u8 = 0x46;

/// ASCII `X`.
pub const LETTER_X: u8 = 0x58;

/// ASCII `Y`.
pub const LETTER_Y: u8 = 0x59;

/// ASCII `Z`.
pub const LETTER_Z: u8 = 0x5A;

/// ASCII `0`.
pub const DIGIT_0: u8 = 0x30;

/// ASCII `9`.
pub const DIGIT_9: u8 = 0x39;

/// ASCII space.
pub const SPACE: u8 = 0x20;

/// ASCII `$`.
pub const DOLLAR: u8 = 0x24;

/// ASCII `#`.
pub const HASH: u8 = 0x23;

/// ASCII `!`.
pub const BANG: u8 = 0x21;

/// ASCII `,`.
pub const COMMA: u8 = 0x2C;

/// ASCII `(`.
pub const OPEN_PAREN: u8 = 0x28;

/// ASCII `)`.
pub const CLOSE_PAREN: u8 = 0x29;

/// ASCII `;`.
pub const SEMICOLON: u8 = 0x3B;

/// ASCII line feed.
pub const LINE_FEED: u8 = 0x0A;

/// `opcode` with its mode field replaced by `mode`; the implied mode leaves
/// the opcode as it is.
pub open spec fn with_mode_bits(opcode: u8, mode: u8) -> u8 {
    if mode == MODE_IML {
        opcode
    } else {
        (opcode & 0b1110_0011) | mode
    }
}

/// Merges the mode bits `mode` into `opcode`.
pub fn apply_address_mode(opcode: u8, mode: u8) -> (r: u8)
    ensures
        r == with_mode_bits(opcode, mode),
{
    // Several implied-mode instructions do not share the implied mask, so
    // the implied mode leaves the opcode alone.
    if mode == MODE_IML {
        return opcode;
    }
    (opcode & 0b1110_0011) | mode
}

/// Base opcode of a three-letter mnemonic; an unknown one assembles as `NOP`.
pub open spec fn mnemonic_opcode(n0: u8, n1: u8, n2: u8) -> u8 {
    if n0 == 0x41 && n1 == 0x44 && n2 == 0x43 {  // ADC
        ADC
    } else if n0 == 0x41 && n1 == 0x4E && n2 == 0x44 {  // AND
        0x29
    } else if n0 == 0x41 && n1 == 0x53 && n2 == 0x4C {  // ASL
        0x06
    } else if n0 == 0x42 && n1 == 0x43 && n2 == 0x43 {  // BCC
        BCC
    } else if n0 == 0x42 && n1 == 0x43 && n2 == 0x53 {  // BCS
        BCS
    } else if n0 == 0x42 && n1 == 0x45 && n2 == 0x51 {  // BEQ
        BEQ
    } else if n0 == 0x42 && n1 == 0x49 && n2 == 0x54 {  // BIT
        BIT_Z
    } else if n0 == 0x42 && n1 == 0x4D && n2 == 0x49 {  // BMI
        BMI
    } else if n0 == 0x42 && n1 == 0x4E && n2 == 0x45 {  // BNE
        BNE
    } else if n0 == 0x42 && n1 == 0x50 && n2 == 0x4C {  // BPL
        BPL
    } else if n0 == 0x42 && n1 == 0x52 && n2 == 0x4B {  // BRK
        0x00
    } else if n0 == 0x42 && n1 == 0x56 && n2 == 0x43 {  // BVC
        0x50
    } else if n0 == 0x42 && n1 == 0x56 && n2 == 0x53 {  // BVS
        0x70
    } else if n0 == 0x43 && n1 == 0x4C && n2 == 0x43 {  // CLC
        CLC
    } else if n0 == 0x53 && n1 == 0x45 && n2 == 0x43 {  // SEC
        SEC
    } else if n0 == 0x53 && n1 == 0x45 && n2 == 0x44 {  // SED
        0xf8
    } else if n0 == 0x53 && n1 == 0x54 && n2 == 0x41 {  // STA
        0x85
    } else if n0 == 0x4E && n1 == 0x4F && n2 == 0x50 {  // NOP
        NOP
    } else if n0 == 0x4C && n1 == 0x44 && n2 == 0x41 {  // LDA
        LDA
    } else if n0 == 0x43 && n1 == 0x4C && n2 == 0x44 {  // CLD
        0xd8
    } else if n0 == 0x43 && n1 == 0x4C && n2 == 0x49 {  // CLI
        0x58
    } else if n0 == 0x53 && n1 == 0x45 && n2 == 0x49 {  // SEI
        0x78
    } else if n0 == 0x43 && n1 == 0x4C && n2 == 0x56 {  // CLV
        0xb8
    } else if n0 == 0x43 && n1 == 0x4D && n2 == 0x50 {  // CMP
        0xc9
    } else if n0 == 0x45 && n1 == 0x4F && n2 == 0x52 {  // EOR
        0x49
    } else if n0 == 0x4F && n1 == 0x52 && n2 == 0x41 {  // ORA
        0x09
    } else if n0 == 0x53 && n1 == 0x42 && n2 == 0x43 {  // SBC
        0xe9
    } else if n0 == 0x4A && n1 == 0x4D && n2 == 0x50 {  // JMP
        0x4c
    } else if n0 == 0x52 && n1 == 0x54 && n2 == 0x53 {  // RTS
        0x60
    } else if n0 == 0x52 && n1 == 0x54 && n2 == 0x49 {  // RTI
        0x40
    } else if n0 == 0x50 && n1 == 0x48 && n2 == 0x41 {  // PHA
        0x48
    } else if n0 == 0x50 && n1 == 0x48 && n2 == 0x50 {  // PHP
        0x08
    } else if n0 == 0x50 && n1 == 0x4C && n2 == 0x41 {  // PLA
        0x68
    } else if n0 == 0x50 && n1 == 0x4C && n2 == 0x50 {  // PLP
        0x28
    } else if n0 == 0x4C && n1 == 0x53 && n2 == 0x52 {  // LSR
        0x46
    } else if n0 == 0x52 && n1 == 0x4F && n2 == 0x4C {  // ROL
        0x26
    } else if n0 == 0x52 && n1 == 0x4F && n2 == 0x52 {  // ROR
        0x66
    } else if n0 == 0x53 && n1 == 0x54 && n2 == 0x58 {  // STX
        0x86
    } else if n0 == 0x53 && n1 == 0x54 && n2 == 0x59 {  // STY
        0x84
    } else if n0 == 0x49 && n1 == 0x4E && n2 == 0x43 {  // INC
        0xe6
    } else if n0 == 0x44 && n1 == 0x45 && n2 == 0x43 {  // DEC
        0xc6
    } else if n0 == 0x49 && n1 == 0x4E && n2 == 0x58 {  // INX
        0xe8
    } else if n0 == 0x49 && n1 == 0x4E && n2 == 0x59 {  // INY
        0xc8
    } else if n0 == 0x44 && n1 == 0x45 && n2 == 0x58 {  // DEX
        0xca
    } else if n0 == 0x44 && n1 == 0x45 && n2 == 0x59 {  // DEY
        0x88
    } else if n0 == 0x54 && n1 == 0x41 && n2 == 0x58 {  // TAX
        0xaa
    } else if n0 == 0x54 && n1 == 0x41 && n2 == 0x59 {  // TAY
        0xa8
    } else if n0 == 0x54 && n1 == 0x58 && n2 == 0x41 {  // TXA
        0x8a
    } else if n0 == 0x54 && n1 == 0x59 && n2 == 0x41 {  // TYA
        0x98
    } else if n0 == 0x54 && n1 == 0x53 && n2 == 0x58 {  // TSX
        0xba
    } else if n0 == 0x54 && n1 == 0x58 && n2 == 0x53 {  // TXS
        0x9a
    } else {
        NOP
    }
}

fn lookup_mnemonic(n0: u8, n1: u8, n2: u8) -> (r: u8)
    ensures
        r == mnemonic_opcode(n0, n1, n2),
{
    if n0 == 0x41 && n1 == 0x44 && n2 == 0x43 {  // ADC
        ADC
    } else if n0 == 0x41 && n1 == 0x4E && n2 == 0x44 {  // AND
        0x29
    } else if n0 == 0x41 && n1 == 0x53 && n2 == 0x4C {  // ASL
        0x06
    } else if n0 == 0x42 && n1 == 0x43 && n2 == 0x43 {  // BCC
        BCC
    } else if n0 == 0x42 && n1 == 0x43 && n2 == 0x53 {  // BCS
        BCS
    } else if n0 == 0x42 && n1 == 0x45 && n2 == 0x51 {  // BEQ
        BEQ
    } else if n0 == 0x42 && n1 == 0x49 && n2 == 0x54 {  // BIT
        BIT_Z
    } else if n0 == 0x42 && n1 == 0x4D && n2 == 0x49 {  // BMI
        BMI
    } else if n0 == 0x42 && n1 == 0x4E && n2 == 0x45 {  // BNE
        BNE
    } else if n0 == 0x42 && n1 == 0x50 && n2 == 0x4C {  // BPL
        BPL
    } else if n0 == 0x42 && n1 == 0x52 && n2 == 0x4B {  // BRK
        0x00
    } else if n0 == 0x42 && n1 == 0x56 && n2 == 0x43 {  // BVC
        0x50
    } else if n0 == 0x42 && n1 == 0x56 && n2 == 0x53 {  // BVS
        0x70
    } else if n0 == 0x43 && n1 == 0x4C && n2 == 0x43 {  // CLC
        CLC
    } else if n0 == 0x53 && n1 == 0x45 && n2 == 0x43 {  // SEC
        SEC
    } else if n0 == 0x53 && n1 == 0x45 && n2 == 0x44 {  // SED
        0xf8
    } else if n0 == 0x53 && n1 == 0x54 && n2 == 0x41 {  // STA
        0x85
    } else if n0 == 0x4E && n1 == 0x4F && n2 == 0x50 {  // NOP
        NOP
    } else if n0 == 0x4C && n1 == 0x44 && n2 == 0x41 {  // LDA
        LDA
    } else if n0 == 0x43 && n1 == 0x4C && n2 == 0x44 {  // CLD
        0xd8
    } else if n0 == 0x43 && n1 == 0x4C && n2 == 0x49 {  // CLI
        0x58
    } else if n0 == 0x53 && n1 == 0x45 && n2 == 0x49 {  // SEI
        0x78
    } else if n0 == 0x43 && n1 == 0x4C && n2 == 0x56 {  // CLV
        0xb8
    } else if n0 == 0x43 && n1 == 0x4D && n2 == 0x50 {  // CMP
        0xc9
    } else if n0 == 0x45 && n1 == 0x4F && n2 == 0x52 {  // EOR
        0x49
    } else if n0 == 0x4F && n1 == 0x52 && n2 == 0x41 {  // ORA
        0x09
    } else if n0 == 0x53 && n1 == 0x42 && n2 == 0x43 {  // SBC
        0xe9
    } else if n0 == 0x4A && n1 == 0x4D && n2 == 0x50 {  // JMP
        0x4c
    } else if n0 == 0x52 && n1 == 0x54 && n2 == 0x53 {  // RTS
        0x60
    } else if n0 == 0x52 && n1 == 0x54 && n2 == 0x49 {  // RTI
        0x40
    } else if n0 == 0x50 && n1 == 0x48 && n2 == 0x41 {  // PHA
        0x48
    } else if n0 == 0x50 && n1 == 0x48 && n2 == 0x50 {  // PHP
        0x08
    } else if n0 == 0x50 && n1 == 0x4C && n2 == 0x41 {  // PLA
        0x68
    } else if n0 == 0x50 && n1 == 0x4C && n2 == 0x50 {  // PLP
        0x28
    } else if n0 == 0x4C && n1 == 0x53 && n2 == 0x52 {  // LSR
        0x46
    } else if n0 == 0x52 && n1 == 0x4F && n2 == 0x4C {  // ROL
        0x26
    } else if n0 == 0x52 && n1 == 0x4F && n2 == 0x52 {  // ROR
        0x66
    } else if n0 == 0x53 && n1 == 0x54 && n2 == 0x58 {  // STX
        0x86
    } else if n0 == 0x53 && n1 == 0x54 && n2 == 0x59 {  // STY
        0x84
    } else if n0 == 0x49 && n1 == 0x4E && n2 == 0x43 {  // INC
        0xe6
    } else if n0 == 0x44 && n1 == 0x45 && n2 == 0x43 {  // DEC
        0xc6
    } else if n0 == 0x49 && n1 == 0x4E && n2 == 0x58 {  // INX
        0xe8
    } else if n0 == 0x49 && n1 == 0x4E && n2 == 0x59 {  // INY
        0xc8
    } else if n0 == 0x44 && n1 == 0x45 && n2 == 0x58 {  // DEX
        0xca
    } else if n0 == 0x44 && n1 == 0x45 && n2 == 0x59 {  // DEY
        0x88
    } else if n0 == 0x54 && n1 == 0x41 && n2 == 0x58 {  // TAX
        0xaa
    } else if n0 == 0x54 && n1 == 0x41 && n2 == 0x59 {  // TAY
        0xa8
    } else if n0 == 0x54 && n1 == 0x58 && n2 == 0x41 {  // TXA
        0x8a
    } else if n0 == 0x54 && n1 == 0x59 && n2 == 0x41 {  // TYA
        0x98
    } else if n0 == 0x54 && n1 == 0x53 && n2 == 0x58 {  // TSX
        0xba
    } else if n0 == 0x54 && n1 == 0x58 && n2 == 0x53 {  // TXS
        0x9a
    } else {
        NOP
    }
}

pub open spec fn is_upper(c: u8) -> bool {
    LETTER_A <= c <= LETTER_Z
}

pub open spec fn is_hex_digit(c: u8) -> bool {
    (DIGIT_0 <= c <= DIGIT_9) || (LETTER_A <= c <= LETTER_F)
}

pub open spec fn hex_value(c: u8) -> int {
    if c <= DIGIT_9 {
        c - DIGIT_0
    } else {
        c - LETTER_A + 10
    }
}

/// Two hex digits at `i`.
pub open spec fn hex_pair(s: Seq<u8>, i: int) -> bool {
    i + 2 <= s.len() && is_hex_digit(s[i]) && is_hex_digit(s[i + 1])
}

/// The byte that the two hex digits at `i` spell.
pub open spec fn hex_byte(s: Seq<u8>, i: int) -> u8 {
    (hex_value(s[i]) * 16 + hex_value(s[i + 1])) as u8
}

/// `s` holds `c` at `i`.
pub open spec fn has(s: Seq<u8>, i: int, c: u8) -> bool {
    i < s.len() && s[i] == c
}

/// No line feed from `i` on.
pub open spec fn no_newline_from(s: Seq<u8>, i: int) -> bool {
    forall|k: int| i <= k < s.len() ==> s[k] != LINE_FEED
}

/// From `i` on, `s` is spaces, a semicolon, then a comment.
pub open spec fn tail_at(s: Seq<u8>, i: int) -> bool
    decreases s.len() - i,
{
    if i < 0 || i >= s.len() {
        false
    } else if s[i] == SPACE {
        tail_at(s, i + 1)
    } else {
        s[i] == SEMICOLON && no_newline_from(s, i + 1)
    }
}

/// The operand syntax after the mnemonic: the mode bits it selects and the
/// operand bytes it encodes (of two bytes, the last two digits first).
pub open spec fn operand_form(s: Seq<u8>) -> Option<(u8, Seq<u8>)> {
    let sp = has(s, 3, SPACE);
    if sp && has(s, 4, DOLLAR) && hex_pair(s, 5) && hex_pair(s, 7) && tail_at(s, 9) {
        Some((MODE_ABS, seq![hex_byte(s, 7), hex_byte(s, 5)]))
    } else if sp && has(s, 4, LETTER_A) && tail_at(s, 5) {
        Some((MODE_ACC, seq![]))
    } else if sp && has(s, 4, DOLLAR) && hex_pair(s, 5) && hex_pair(s, 7) && has(s, 9, COMMA)
        && has(s, 10, LETTER_X) && tail_at(s, 11) {
        Some((MODE_ABX, seq![hex_byte(s, 7), hex_byte(s, 5)]))
    } else if sp && has(s, 4, DOLLAR) && hex_pair(s, 5) && hex_pair(s, 7) && has(s, 9, COMMA)
        && has(s, 10, LETTER_Y) && tail_at(s, 11) {
        Some((MODE_ABY, seq![hex_byte(s, 7), hex_byte(s, 5)]))
    } else if sp && has(s, 4, HASH) && has(s, 5, DOLLAR) && hex_pair(s, 6) && tail_at(s, 8) {
        Some((MODE_IMM, seq![hex_byte(s, 6)]))
    } else if sp && has(s, 4, BANG) && has(s, 5, DOLLAR) && hex_pair(s, 6) && tail_at(s, 8) {
        Some((MODE_REL, seq![hex_byte(s, 6)]))
    } else if sp && has(s, 4, DOLLAR) && hex_pair(s, 5) && tail_at(s, 7) {
        Some((MODE_ZPG, seq![hex_byte(s, 5)]))
    } else if sp && has(s, 4, OPEN_PAREN) && has(s, 5, DOLLAR) && hex_pair(s, 6) && hex_pair(s, 8)
        && has(s, 10, CLOSE_PAREN) && tail_at(s, 11) {
        Some((MODE_IND, seq![hex_byte(s, 8), hex_byte(s, 6)]))
    } else if sp && has(s, 4, OPEN_PAREN) && has(s, 5, DOLLAR) && hex_pair(s, 6) && has(s, 8, COMMA)
        && has(s, 9, LETTER_X) && has(s, 10, CLOSE_PAREN) && tail_at(s, 11) {
        Some((MODE_INX, seq![hex_byte(s, 6)]))
    } else if sp && has(s, 4, OPEN_PAREN) && has(s, 5, DOLLAR) && hex_pair(s, 6) && has(s, 8, CLOSE_PAREN)
        && has(s, 9, COMMA) && has(s, 10, LETTER_Y) && tail_at(s, 11) {
        Some((MODE_INY, seq![hex_byte(s, 6)]))
    } else if sp && has(s, 4, DOLLAR) && hex_pair(s, 5) && has(s, 7, COMMA) && has(s, 8, LETTER_X)
        && tail_at(s, 9) {
        Some((MODE_ZPX, seq![hex_byte(s, 5)]))
    } else if sp && has(s, 4, DOLLAR) && hex_pair(s, 5) && has(s, 7, COMMA) && has(s, 8, LETTER_Y)
        && tail_at(s, 9) {
        Some((MODE_ZPY, seq![hex_byte(s, 5)]))
    } else if tail_at(s, 3) {
        Some((MODE_IML, seq![]))
    } else {
        None
    }
}

/// The bytes one line of assembly (`"MNEMONIC operand; comment"`) encodes
/// to: the opcode with the mode bits merged in, then the operand bytes.
pub open spec fn encode_line(s: Seq<u8>) -> Option<Seq<u8>> {
    if s.len() >= 3 && is_upper(s[0]) && is_upper(s[1]) && is_upper(s[2]) {
        match operand_form(s) {
            Some((mode, operand)) => Some(
                seq![with_mode_bits(mnemonic_opcode(s[0], s[1], s[2]), mode)] + operand,
            ),
            None => None,
        }
    } else {
        None
    }
}

fn has_at(s: &[u8], i: usize, c: u8) -> (r: bool)
    ensures
        r == has(s@, i as int, c),
{
    i < s.len() && s[i] == c
}

fn hex_digit(c: u8) -> (r: bool)
    ensures
        r == is_hex_digit(c),
{
    (DIGIT_0 <= c && c <= DIGIT_9) || (LETTER_A <= c && c <= LETTER_F)
}

fn hex_pair_at(s: &[u8], i: usize) -> (r: bool)
    ensures
        r == hex_pair(s@, i as int),
{
    i < s.len() && s.len() - i >= 2 && hex_digit(s[i]) && hex_digit(s[i + 1])
}

fn hex_digit_value(c: u8) -> (r: u8)
    requires
        is_hex_digit(c),
    ensures
        r == hex_value(c),
        r < 16,
{
    if c <= DIGIT_9 {
        c - DIGIT_0
    } else {
        c - LETTER_A + 10
    }
}

fn hex_byte_at(s: &[u8], i: usize) -> (r: u8)
    requires
        hex_pair(s@, i as int),
    ensures
        r == hex_byte(s@, i as int),
{
    hex_digit_value(s[i]) * 16 + hex_digit_value(s[i + 1])
}

fn tail_ok(s: &[u8], i: usize) -> (r: bool)
    ensures
        r == tail_at(s@, i as int),
{
    if i >= s.len() {
        return false;
    }
    let mut j: usize = i;
    while j < s.len() && s[j] == SPACE
        invariant
            i <= j <= s.len(),
            tail_at(s@, i as int) == tail_at(s@, j as int),
        decreases s.len() - j,
    {
        j = j + 1;
    }
    if j >= s.len() || s[j] != SEMICOLON {
        return false;
    }
    let mut k: usize = j + 1;
    while k < s.len()
        invariant
            j < k <= s.len(),
            s@[j as int] == SEMICOLON,
            tail_at(s@, i as int) == tail_at(s@, j as int),
            forall|q: int| j < q < k ==> s@[q] != LINE_FEED,
        decreases s.len() - k,
    {
        if s[k] == LINE_FEED {
            assert(s@[k as int] == LINE_FEED);
            assert(!no_newline_from(s@, j + 1));
            return false;
        }
        k = k + 1;
    }
    true
}

/// The mode bits and operand bytes of a line's operand syntax.
fn operand_syntax(s: &[u8]) -> (r: Option<(u8, Vec<u8>)>)
    ensures
        match operand_form(s@) {
            Some((mode, operand)) => r matches Some((m, v)) && m == mode && v@ == operand,
            None => r is None,
        },
{
    let sp = has_at(s, 3, SPACE);
    if sp && has_at(s, 4, DOLLAR) && hex_pair_at(s, 5) && hex_pair_at(s, 7) && tail_ok(s, 9) {
        Some((MODE_ABS, vec![hex_byte_at(s, 7), hex_byte_at(s, 5)]))
    } else if sp && has_at(s, 4, LETTER_A) && tail_ok(s, 5) {
        Some((MODE_ACC, vec![]))
    } else if sp && has_at(s, 4, DOLLAR) && hex_pair_at(s, 5) && hex_pair_at(s, 7) && has_at(
        s,
        9,
        COMMA,
    ) && has_at(s, 10, LETTER_X) && tail_ok(s, 11) {
        Some((MODE_ABX, vec![hex_byte_at(s, 7), hex_byte_at(s, 5)]))
    } else if sp && has_at(s, 4, DOLLAR) && hex_pair_at(s, 5) && hex_pair_at(s, 7) && has_at(
        s,
        9,
        COMMA,
    ) && has_at(s, 10, LETTER_Y) && tail_ok(s, 11) {
        Some((MODE_ABY, vec![hex_byte_at(s, 7), hex_byte_at(s, 5)]))
    } else if sp && has_at(s, 4, HASH) && has_at(s, 5, DOLLAR) && hex_pair_at(s, 6) && tail_ok(
        s,
        8,
    ) {
        Some((MODE_IMM, vec![hex_byte_at(s, 6)]))
    } else if sp && has_at(s, 4, BANG) && has_at(s, 5, DOLLAR) && hex_pair_at(s, 6) && tail_ok(
        s,
        8,
    ) {
        Some((MODE_REL, vec![hex_byte_at(s, 6)]))
    } else if sp && has_at(s, 4, DOLLAR) && hex_pair_at(s, 5) && tail_ok(s, 7) {
        Some((MODE_ZPG, vec![hex_byte_at(s, 5)]))
    } else if sp && has_at(s, 4, OPEN_PAREN) && has_at(s, 5, DOLLAR) && hex_pair_at(s, 6) && hex_pair_at(
        s,
        8,
    ) && has_at(s, 10, CLOSE_PAREN) && tail_ok(s, 11) {
        Some((MODE_IND, vec![hex_byte_at(s, 8), hex_byte_at(s, 6)]))
    } else if sp && has_at(s, 4, OPEN_PAREN) && has_at(s, 5, DOLLAR) && hex_pair_at(s, 6) && has_at(
        s,
        8,
        COMMA,
    ) && has_at(s, 9, LETTER_X) && has_at(s, 10, CLOSE_PAREN) && tail_ok(s, 11) {
        Some((MODE_INX, vec![hex_byte_at(s, 6)]))
    } else if sp && has_at(s, 4, OPEN_PAREN) && has_at(s, 5, DOLLAR) && hex_pair_at(s, 6) && has_at(
        s,
        8,
        CLOSE_PAREN,
    ) && has_at(s, 9, COMMA) && has_at(s, 10, LETTER_Y) && tail_ok(s, 11) {
        Some((MODE_INY, vec![hex_byte_at(s, 6)]))
    } else if sp && has_at(s, 4, DOLLAR) && hex_pair_at(s, 5) && has_at(s, 7, COMMA) && has_at(
        s,
        8,
        LETTER_X,
    ) && tail_ok(s, 9) {
        Some((MODE_ZPX, vec![hex_byte_at(s, 5)]))
    } else if sp && has_at(s, 4, DOLLAR) && hex_pair_at(s, 5) && has_at(s, 7, COMMA) && has_at(
        s,
        8,
        LETTER_Y,
    ) && tail_ok(s, 9) {
        Some((MODE_ZPY, vec![hex_byte_at(s, 5)]))
    } else if tail_ok(s, 3) {
        Some((MODE_IML, vec![]))
    } else {
        None
    }
}

/// Assembles one line given as bytes.
pub fn encode_bytes(s: &[u8]) -> (r: Option<Vec<u8>>)
    ensures
        match encode_line(s@) {
            Some(code) => r matches Some(v) && v@ == code,
            None => r is None,
        },
{
    if s.len() < 3 || !(LETTER_A <= s[0] && s[0] <= LETTER_Z) || !(LETTER_A <= s[1] && s[1] <= LETTER_Z) || !(
    LETTER_A <= s[2] && s[2] <= LETTER_Z) {
        return None;
    }
    match operand_syntax(s) {
        Some((mode, operand)) => {
            let opcode = apply_address_mode(lookup_mnemonic(s[0], s[1], s[2]), mode);
            let mut code: Vec<u8> = vec![opcode];
            let mut i: usize = 0;
            while i < operand.len()
                invariant
                    i <= operand@.len(),
                    code@ =~= seq![opcode] + operand@.take(i as int),
                decreases operand@.len() - i,
            {
                code.push(operand[i]);
                i = i + 1;
                assert(code@ =~= seq![opcode] + operand@.take(i as int));
            }
            assert(operand@.take(i as int) =~= operand@);
            Some(code)
        },
        None => None,
    }
}

/// Assembles one line of text, `"MNEMONIC operand; comment"`: the opcode
/// with the mode bits merged in, then the operand bytes, or `None` when the
/// line follows none of the operand forms.
pub fn encode(line: &String) -> (r: Option<Vec<u8>>)
    ensures
        match encode_line(encode_utf8(line@)) {
            Some(code) => r matches Some(v) && v@ == code,
            None => r is None,
        },
{
    encode_bytes(line.as_str().as_bytes())
}

/// ASCII whitespace: space, and tab through carriage return. Other Unicode
/// whitespace is not trimmed.
pub open spec fn is_space(c: u8) -> bool {
    c == SPACE || (0x09 <= c <= 0x0D)
}

/// `s` without its leading whitespace.
pub open spec fn trim_start(s: Seq<u8>) -> Seq<u8>
    decreases s.len(),
{
    if s.len() > 0 && is_space(s[0]) {
        trim_start(s.drop_first())
    } else {
        s
    }
}

/// `s` without its trailing whitespace.
pub open spec fn trim_end(s: Seq<u8>) -> Seq<u8>
    decreases s.len(),
{
    if s.len() > 0 && is_space(s.last()) {
        trim_end(s.drop_last())
    } else {
        s
    }
}

/// `s` without leading and trailing whitespace.
pub open spec fn trimmed(s: Seq<u8>) -> Seq<u8> {
    trim_end(trim_start(s))
}

/// `code` in front of an assembled rest, if the rest assembled.
pub open spec fn prepend(code: Seq<u8>, rest: Option<Seq<u8>>) -> Option<Seq<u8>> {
    match rest {
        Some(r) => Some(code + r),
        None => None,
    }
}

/// Assembles the lines of `t` from the line that starts at `start`, with
/// `i` scanning that line for its end.
pub open spec fn assemble_from(t: Seq<u8>, start: int, i: int) -> Option<Seq<u8>>
    decreases t.len() - i,
{
    if i >= t.len() {
        encode_line(trimmed(t.subrange(start, t.len() as int)))
    } else if t[i] == LINE_FEED {
        match encode_line(trimmed(t.subrange(start, i))) {
            Some(code) => prepend(code, assemble_from(t, i + 1, i + 1)),
            None => None,
        }
    } else {
        assemble_from(t, start, i + 1)
    }
}

/// The program a text assembles to: the text is trimmed, split at line
/// feeds, and each line, trimmed, must encode.
pub open spec fn assemble_text(text: Seq<u8>) -> Option<Seq<u8>> {
    let t = trimmed(text);
    if t.len() == 0 {
        Some(seq![])
    } else {
        assemble_from(t, 0, 0)
    }
}

/// The bounds of `s` without its leading and trailing whitespace.
fn trim_bounds(s: &[u8]) -> (r: (usize, usize))
    ensures
        r.0 <= r.1 <= s@.len(),
        s@.subrange(r.0 as int, r.1 as int) == trimmed(s@),
{
    let mut lo: usize = 0;
    assert(s@.subrange(0, s@.len() as int) =~= s@);
    while lo < s.len() && (s[lo] == SPACE || (0x09 <= s[lo] && s[lo] <= 0x0D))
        invariant
            lo <= s@.len(),
            trim_start(s@) == trim_start(s@.subrange(lo as int, s@.len() as int)),
        decreases s@.len() - lo,
    {
        assert(s@.subrange(lo as int, s@.len() as int).drop_first() =~= s@.subrange(
            lo + 1,
            s@.len() as int,
        ));
        lo = lo + 1;
    }
    assert(s@.subrange(lo as int, s@.len() as int) == trim_start(s@));
    let mut hi: usize = s.len();
    while hi > lo && (s[hi - 1] == SPACE || (0x09 <= s[hi - 1] && s[hi - 1] <= 0x0D))
        invariant
            lo <= hi <= s@.len(),
            trimmed(s@) == trim_end(s@.subrange(lo as int, hi as int)),
        decreases hi,
    {
        assert(s@.subrange(lo as int, hi as int).drop_last() =~= s@.subrange(
            lo as int,
            hi - 1,
        ));
        hi = hi - 1;
    }
    (lo, hi)
}

/// Assembles the trimmed line `t[start..end]` and appends its code.
fn append_line(t: &[u8], start: usize, end: usize, program: &mut Vec<u8>) -> (ok: bool)
    requires
        start <= end <= t@.len(),
    ensures
        match encode_line(trimmed(t@.subrange(start as int, end as int))) {
            Some(code) => ok && final(program)@ == old(program)@ + code,
            None => !ok,
        },
{
    let line = slice_subrange(t, start, end);
    let (lo, hi) = trim_bounds(line);
    match encode_bytes(slice_subrange(line, lo, hi)) {
        Some(code) => {
            let ghost before = program@;
            let mut i: usize = 0;
            while i < code.len()
                invariant
                    i <= code@.len(),
                    program@ =~= before + code@.take(i as int),
                decreases code@.len() - i,
            {
                program.push(code[i]);
                i = i + 1;
                assert(program@ =~= before + code@.take(i as int));
            }
            assert(code@.take(i as int) =~= code@);
            true
        },
        None => false,
    }
}

/// Assembles a program text: lines separated by line feeds, each one
/// instruction; `None` when a line does not encode. The text and each line
/// are trimmed of ASCII whitespace only.
pub fn assemble(text: &String) -> (r: Option<Vec<u8>>)
    ensures
        match assemble_text(encode_utf8(text@)) {
            Some(code) => r matches Some(v) && v@ == code,
            None => r is None,
        },
{
    let bytes = text.as_str().as_bytes();
    let (lo, hi) = trim_bounds(bytes);
    let t = slice_subrange(bytes, lo, hi);
    let mut program: Vec<u8> = Vec::new();
    if t.len() == 0 {
        assert(program@ =~= seq![]);
        return Some(program);
    }
    let mut start: usize = 0;
    let mut i: usize = 0;
    loop
        invariant
            start <= i <= t@.len(),
            t@ == trimmed(encode_utf8(text@)),
            t@.len() > 0,
            assemble_text(encode_utf8(text@)) == prepend(program@, assemble_from(t@, start as int, i as int)),
        decreases t@.len() - i,
    {
        if i >= t.len() {
            if !append_line(t, start, i, &mut program) {
                return None;
            }
            assert(program@ =~= program@ + seq![]);
            return Some(program);
        }
        if t[i] == LINE_FEED {
            let ghost before = program@;
            if !append_line(t, start, i, &mut program) {
                return None;
            }
            proof {
                let code = encode_line(trimmed(t@.subrange(start as int, i as int))).unwrap();
                match assemble_from(t@, i + 1, i + 1) {
                    Some(rest) => {
                        assert(before + (code + rest) =~= (before + code) + rest);
                    },
                    None => {},
                }
            }
            start = i + 1;
        }
        i = i + 1;
    }
}

} // verus!
