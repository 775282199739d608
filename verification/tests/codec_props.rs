//! Codec-level properties on concrete words: unrecognized opcodes decode
//! to `Undefined`, immediates sign-extend to their extreme values, shift
//! amounts mask to their field widths, and encoding then decoding is the
//! identity.

use rv64_emulator::encode::encode;
use rv64_emulator::instruction::{decode, AbiRegister, Instruction, Register};

/// Every word whose opcode is outside the recognized set decodes to
/// `Undefined`, for all 128 opcodes and a spread of upper bits.
#[test]
fn unrecognized_opcodes_decode_undefined() {
    let recognized = [
        0x03u32, 0x0f, 0x13, 0x17, 0x1b, 0x23, 0x33, 0x37, 0x3b, 0x63, 0x67, 0x6f, 0x73,
    ];
    for op in 0u32..128 {
        if !recognized.contains(&op) {
            assert_eq!(decode(op), Instruction::Undefined);
            assert_eq!(decode(op | 0xffff_ff80), Instruction::Undefined);
            assert_eq!(decode(op | 0x5555_5580), Instruction::Undefined);
        }
    }
}

/// The zero word and the all-ones word match no recognized encoding.
#[test]
fn degenerate_words_decode_undefined() {
    assert_eq!(decode(0x0000_0000), Instruction::Undefined);
    assert_eq!(decode(0xffff_ffff), Instruction::Undefined);
}

/// I-format: the all-ones immediate field is -1, and the two extreme
/// encodable immediates come back exactly.
#[test]
fn i_imm_sign_extension_extremes() {
    // addi x1, x0, imm with the raw field at 0xfff, 0x800, 0x7ff.
    let base = (1u32 << 7) | 0x13;
    assert_eq!(
        decode((0xfffu32 << 20) | base),
        Instruction::Addi { rd: Register::X1, rs1: Register::X0, imm: -1 }
    );
    assert_eq!(
        decode((0x800u32 << 20) | base),
        Instruction::Addi { rd: Register::X1, rs1: Register::X0, imm: -2048 }
    );
    assert_eq!(
        decode((0x7ffu32 << 20) | base),
        Instruction::Addi { rd: Register::X1, rs1: Register::X0, imm: 2047 }
    );
}

/// S-format: the split immediate reassembles and sign-extends to the two
/// extreme encodable values.
#[test]
fn s_imm_sign_extension_extremes() {
    // sw x1, imm(x0): opcode 0x23, funct3 2, rs2 = x1.
    let base = (1u32 << 20) | (2 << 12) | 0x23;
    assert_eq!(
        decode((0x40u32 << 25) | base),
        Instruction::Sw { rs2: Register::X1, rs1: Register::X0, imm: -2048 }
    );
    assert_eq!(
        decode((0x3fu32 << 25) | (0x1f << 7) | base),
        Instruction::Sw { rs2: Register::X1, rs1: Register::X0, imm: 2047 }
    );
}

/// B-format: the scattered immediate reassembles and sign-extends to the
/// two extreme encodable values, always even.
#[test]
fn b_imm_sign_extension_extremes() {
    // beq x0, x0, imm.
    assert_eq!(
        decode((1u32 << 31) | 0x63),
        Instruction::Beq { rs1: Register::X0, rs2: Register::X0, imm: -4096 }
    );
    assert_eq!(
        decode((0x3fu32 << 25) | (0xf << 8) | (1 << 7) | 0x63),
        Instruction::Beq { rs1: Register::X0, rs2: Register::X0, imm: 4094 }
    );
}

/// U-format: the upper immediate sits at bits 31:12 with bit 31 as the
/// sign, so the all-ones field reads as -4096.
#[test]
fn u_imm_sign_extension_extremes() {
    assert_eq!(
        decode(0xffff_f037),
        Instruction::Lui { rd: Register::X0, imm: -4096 }
    );
    assert_eq!(
        decode(0x7fff_f037),
        Instruction::Lui { rd: Register::X0, imm: 0x7fff_f000 }
    );
}

/// J-format: the scattered 21-bit immediate sign-extends; the all-ones
/// pattern is -2.
#[test]
fn j_imm_sign_extension_extremes() {
    assert_eq!(
        decode(0xffff_f06f),
        Instruction::Jal { rd: Register::X0, imm: -2 }
    );
    assert_eq!(
        decode(0x7fff_f06f),
        Instruction::Jal { rd: Register::X0, imm: 0xf_fffe }
    );
}

/// A shift-immediate with the raw amount field at 63 decodes with the
/// full 6-bit amount for the 64-bit operation and masked to 5 bits for
/// the word variant.
#[test]
fn shift_amount_masking() {
    // srli x0, x0, with raw field 63 and the right-shift type bit clear.
    assert_eq!(
        decode((63u32 << 20) | (5 << 12) | 0x13),
        Instruction::Srli { rd: Register::X0, rs1: Register::X0, shamt: 63 }
    );
    // The same raw bits under the word-variant opcode keep only 5 bits.
    assert_eq!(
        decode((63u32 << 20) | (5 << 12) | 0x1b),
        Instruction::Srliw { rd: Register::X0, rs1: Register::X0, shamt: 31 }
    );
}

/// The arithmetic right-shift immediates carry bit 30 of the word, which
/// never folds into the shift amount.
#[test]
fn right_shift_type_selection() {
    assert_eq!(
        decode((0x400u32 << 20) | (63 << 20) | (5 << 12) | 0x13),
        Instruction::Srai { rd: Register::X0, rs1: Register::X0, shamt: 63 }
    );
    // Any other value of the two type bits is undefined.
    assert_eq!(decode((0x800u32 << 20) | (5 << 12) | 0x13), Instruction::Undefined);
}

/// Packing a variant back into 32 bits and decoding it yields the same
/// variant and operands, across all the formats.
#[test]
fn encode_decode_round_trip() {
    let samples = [
        Instruction::Beq { rs1: Register::X5, rs2: Register::X6, imm: -4096 },
        Instruction::Bgeu { rs1: Register::X31, rs2: Register::X1, imm: 4094 },
        Instruction::Lb { rd: Register::X3, rs1: Register::X4, imm: -2048 },
        Instruction::Ld { rd: Register::X9, rs1: Register::X8, imm: 2047 },
        Instruction::Fence {
            rd: Register::X0,
            rs1: Register::X0,
            succ: 0x3,
            pred: 0xc,
            fm: 0x8,
        },
        Instruction::Addi { rd: Register::X10, rs1: Register::X11, imm: -1 },
        Instruction::Slli { rd: Register::X1, rs1: Register::X2, shamt: 63 },
        Instruction::Srai { rd: Register::X1, rs1: Register::X2, shamt: 63 },
        Instruction::Sraiw { rd: Register::X1, rs1: Register::X2, shamt: 31 },
        Instruction::Jalr { rd: Register::X1, rs1: Register::X13, imm: -104 },
        Instruction::Jal { rd: Register::X1, imm: -2 },
        Instruction::Add { rd: Register::X8, rs1: Register::X15, rs2: Register::X8 },
        Instruction::Sub { rd: Register::X12, rs1: Register::X12, rs2: Register::X10 },
        Instruction::Sraw { rd: Register::X10, rs1: Register::X10, rs2: Register::X15 },
        Instruction::Sb { rs2: Register::X15, rs1: Register::X3, imm: -160 },
        Instruction::Sd { rs2: Register::X8, rs1: Register::X2, imm: 0 },
        Instruction::Auipc { rd: Register::X5, imm: 0x7fff_f000 },
        Instruction::Lui { rd: Register::X10, imm: -2147479552 },
        Instruction::Ecall,
        Instruction::Ebreak,
        Instruction::Undefined,
    ];
    for instruction in samples.iter() {
        assert_eq!(decode(encode(instruction)), *instruction);
    }
}

/// Register indices and ABI names agree on the mapping the tests above
/// rely on.
#[test]
fn abi_register_mapping() {
    assert_eq!(Register::from(AbiRegister::Zero), Register::X0);
    assert_eq!(Register::from(AbiRegister::Ra), Register::X1);
    assert_eq!(Register::from(AbiRegister::Sp), Register::X2);
    assert_eq!(Register::from(AbiRegister::A0), Register::X10);
    assert_eq!(Register::from(AbiRegister::T6), Register::X31);
    assert_eq!(Register::X7.index(), 7);
    assert_eq!(Register::from_index(31), Register::X31);
}
