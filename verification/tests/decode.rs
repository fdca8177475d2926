use chip8::instruction::DecodeFault;
use chip8::instruction::Instruction;

#[test]
fn decode_test() {
    let decode_table: Vec<(u16, Instruction)> = vec![
        (0x00E0, Instruction::Cls),
        (0x00EE, Instruction::Ret),
        (0x10ff, Instruction::JpImm(0x0ff)),
        (0x2fcc, Instruction::Call(0xfcc)),
        (0x3381, Instruction::SeImm(3, 0x81)),
        (0x4242, Instruction::SneImm(2, 0x42)),
        (0x5a80, Instruction::SeReg(0xa, 0x8)),
        (0x6555, Instruction::LdImm(5, 0x55)),
        (0x8980, Instruction::LdReg(9, 8)),
        (0xA123, Instruction::LdI(0x123)),
    ];

    for (bytes, instr) in decode_table {
        assert_eq!(Instruction::decode(bytes), Ok(instr))
    }
}

#[test]
fn decode_every_family() {
    let decode_table: Vec<(u16, Instruction)> = vec![
        (0x00E0, Instruction::Cls),
        (0x00EE, Instruction::Ret),
        (0x1abc, Instruction::JpImm(0xabc)),
        (0x2def, Instruction::Call(0xdef)),
        (0x3412, Instruction::SeImm(4, 0x12)),
        (0x4534, Instruction::SneImm(5, 0x34)),
        (0x5670, Instruction::SeReg(6, 7)),
        (0x6756, Instruction::LdImm(7, 0x56)),
        (0x7878, Instruction::AddImm(8, 0x78)),
        (0x8120, Instruction::LdReg(1, 2)),
        (0x8341, Instruction::OrReg(3, 4)),
        (0x8562, Instruction::AndReg(5, 6)),
        (0x8783, Instruction::XorReg(7, 8)),
        (0x89a4, Instruction::AddReg(9, 0xa)),
        (0x8bc5, Instruction::SubReg(0xb, 0xc)),
        (0x8de6, Instruction::Shr(0xd, 0xe)),
        (0x8f07, Instruction::Subn(0xf, 0)),
        (0x812e, Instruction::Shl(1, 2)),
        (0x9340, Instruction::SneReg(3, 4)),
        (0xa987, Instruction::LdI(0x987)),
        (0xb654, Instruction::JpReg(0x654)),
        (0xc29a, Instruction::Rnd(2, 0x9a)),
        (0xd123, Instruction::Drw(1, 2, 3)),
        (0xe49e, Instruction::Skp(4)),
        (0xe5a1, Instruction::Sknp(5)),
        (0xf607, Instruction::LdRegDt(6)),
        (0xf70a, Instruction::LdRegK(7)),
        (0xf815, Instruction::LdDtReg(8)),
        (0xf918, Instruction::LdStReg(9)),
        (0xfa1e, Instruction::AddI(0xa)),
        (0xfb29, Instruction::LdF(0xb)),
        (0xfc33, Instruction::LdB(0xc)),
        (0xfd55, Instruction::LdMemReg(0xd)),
        (0xfe65, Instruction::LdRegMem(0xe)),
    ];

    for (bytes, instr) in decode_table {
        assert_eq!(Instruction::decode(bytes), Ok(instr))
    }
}

#[test]
fn decode_rejects_undefined_words() {
    let bad_words: Vec<u16> = vec![
        0x0000, // 0x0 family, neither clear nor return
        0x00E1, // near-miss on the low byte
        0x01E0, // 0x0 family with a stray nibble
        0x5ab1, // skip-equal-register wants low nibble 0
        0x8ab8, // no ALU sub-opcode 0x8
        0x8abf, // no ALU sub-opcode 0xf
        0x9cd2, // skip-not-equal-register wants low nibble 0
        0xe09f, // key skips accept only 0x9e and 0xa1
        0xe0a2,
        0xf000, // no such miscellaneous sub-opcode
        0xf030,
        0xf066,
        0xffff,
    ];

    for word in bad_words {
        assert_eq!(Instruction::decode(word), Err(DecodeFault { word }));
    }
}
