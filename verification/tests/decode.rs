//! Decoder tests over concrete instruction words.

use rv64_emulator::instruction::{decode, AbiRegister, Instruction, Register};

#[test]
fn decode_lui() {
    assert_eq!(
        decode(0x00010537),
        Instruction::Lui {
            rd: Register::from(AbiRegister::A0),
            imm: 0x10000
        }
    );
}
#[test]
fn decode_auipc() {
    assert_eq!(
        decode(0x00000297),
        Instruction::Auipc {
            rd: Register::from(AbiRegister::T0),
            imm: 0x0
        }
    );
}
#[test]
fn decode_jal() {
    assert_eq!(
        decode(0x008000ef),
        Instruction::Jal { rd: Register::from(AbiRegister::Ra), imm: 8 }
    );
}
#[test]
fn decode_jalr() {
    assert_eq!(
        decode(0xf98680e7),
        Instruction::Jalr {
            rd: Register::from(AbiRegister::Ra),
            rs1: Register::from(AbiRegister::A3),
            imm: -104
        }
    );
}
#[test]
fn decode_beq() {
    assert_eq!(
        decode(0x05778063),
        Instruction::Beq {
            rs1: Register::from(AbiRegister::A5),
            rs2: Register::from(AbiRegister::S7),
            imm: 0x12d98 - 0x12d58
        }
    );
}
#[test]
fn decode_bne() {
    assert_eq!(
        decode(0xff3416e3),
        Instruction::Bne {
            rs1: Register::from(AbiRegister::S0Fp),
            rs2: Register::from(AbiRegister::S3),
            imm: 0x12d50 - 0x12d64
        }
    );
}
#[test]
fn decode_blt() {
    assert_eq!(
        decode(0x08e84663),
        Instruction::Blt {
            rs1: Register::from(AbiRegister::A6),
            rs2: Register::from(AbiRegister::A4),
            imm: 0x1f460 - 0x1f3d4
        }
    );
}
#[test]
fn decode_bge() {
    assert_eq!(
        decode(0x0149d463),
        Instruction::Bge {
            rs1: Register::from(AbiRegister::S3),
            rs2: Register::from(AbiRegister::S4),
            imm: 0x107a0 - 0x10798
        }
    );
}
#[test]
fn decode_bltu() {
    assert_eq!(
        decode(0xfed76ae3),
        Instruction::Bltu {
            rs1: Register::from(AbiRegister::A4),
            rs2: Register::from(AbiRegister::A3),
            imm: 0x1031c - 0x10328
        }
    );
}
#[test]
fn decode_bgeu() {
    assert_eq!(
        decode(0xf6c374e3),
        Instruction::Bgeu {
            rs1: Register::from(AbiRegister::T1),
            rs2: Register::from(AbiRegister::A2),
            imm: 0x10334 - 0x103cc
        }
    );
}
#[test]
fn decode_lb() {
    assert_eq!(
        decode(0x00078b03),
        Instruction::Lb {
            rd: Register::from(AbiRegister::S6),
            rs1: Register::from(AbiRegister::A5),
            imm: 0
        }
    );
}
#[test]
fn decode_lh() {
    assert_eq!(
        decode(0x01099703),
        Instruction::Lh {
            rd: Register::from(AbiRegister::A4),
            rs1: Register::from(AbiRegister::S3),
            imm: 16
        }
    );
}
#[test]
fn decode_lw() {
    assert_eq!(
        decode(0xfec42703),
        Instruction::Lw {
            rd: Register::from(AbiRegister::A4),
            rs1: Register::from(AbiRegister::S0Fp),
            imm: -20
        }
    );
}
#[test]
fn decode_lbu() {
    assert_eq!(
        decode(0xf601c703),
        Instruction::Lbu {
            rd: Register::from(AbiRegister::A4),
            rs1: Register::from(AbiRegister::Gp),
            imm: -160
        }
    );
}
#[test]
fn decode_lhu() {
    assert_eq!(
        decode(0x010c5783),
        Instruction::Lhu {
            rd: Register::from(AbiRegister::A5),
            rs1: Register::from(AbiRegister::S8),
            imm: 16
        }
    );
}
#[test]
fn decode_sb() {
    assert_eq!(
        decode(0xf6f18023),
        Instruction::Sb {
            rs2: Register::from(AbiRegister::A5),
            rs1: Register::from(AbiRegister::Gp),
            imm: -160
        }
    );
}
#[test]
fn decode_sh() {
    assert_eq!(
        decode(0x0ef11023),
        Instruction::Sh {
            rs2: Register::from(AbiRegister::A5),
            rs1: Register::from(AbiRegister::Sp),
            imm: 224
        }
    );
}
#[test]
fn decode_sw() {
    assert_eq!(
        decode(0xfe042623),
        Instruction::Sw {
            rs2: Register::from(AbiRegister::Zero),
            rs1: Register::from(AbiRegister::S0Fp),
            imm: -20
        }
    );
}
#[test]
fn decode_addi() {
    assert_eq!(
        decode(0x4a850513),
        Instruction::Addi {
            rd: Register::from(AbiRegister::A0),
            rs1: Register::from(AbiRegister::A0),
            imm: 1192
        }
    );
}
#[test]
fn decode_slti() {
    assert_eq!(
        decode(0x000b2f13),
        Instruction::Slti {
            rd: Register::from(AbiRegister::T5),
            rs1: Register::from(AbiRegister::S6),
            imm: 0
        }
    );
}
#[test]
fn decode_sltiu() {
    assert_eq!(
        decode(0x3b0b3a13),
        Instruction::Sltiu {
            rd: Register::from(AbiRegister::S4),
            rs1: Register::from(AbiRegister::S6),
            imm: 944
        }
    );
}
#[test]
fn decode_xori() {
    assert_eq!(
        decode(0x8307c793),
        Instruction::Xori {
            rd: Register::from(AbiRegister::A5),
            rs1: Register::from(AbiRegister::A5),
            imm: -2000
        }
    );
}
#[test]
fn decode_ori() {
    assert_eq!(
        decode(0x01096913),
        Instruction::Ori {
            rd: Register::from(AbiRegister::S2),
            rs1: Register::from(AbiRegister::S2),
            imm: 16
        }
    );
}
#[test]
fn decode_andi() {
    assert_eq!(
        decode(0x00f77793),
        Instruction::Andi {
            rd: Register::from(AbiRegister::A5),
            rs1: Register::from(AbiRegister::A4),
            imm: 15
        }
    );
}
#[test]
fn decode_add() {
    assert_eq!(
        decode(0x00878433),
        Instruction::Add {
            rd: Register::from(AbiRegister::S0Fp),
            rs1: Register::from(AbiRegister::A5),
            rs2: Register::from(AbiRegister::S0Fp),
        }
    );
}
#[test]
fn decode_sub() {
    assert_eq!(
        decode(0x40a60633),
        Instruction::Sub {
            rd: Register::from(AbiRegister::A2),
            rs1: Register::from(AbiRegister::A2),
            rs2: Register::from(AbiRegister::A0),
        }
    );
}
#[test]
fn decode_sll() {
    assert_eq!(
        decode(0x00c797b3),
        Instruction::Sll {
            rd: Register::from(AbiRegister::A5),
            rs1: Register::from(AbiRegister::A5),
            rs2: Register::from(AbiRegister::A2),
        }
    );
}
#[test]
fn decode_slt() {
    assert_eq!(
        decode(0x00632e33),
        Instruction::Slt {
            rd: Register::from(AbiRegister::T3),
            rs1: Register::from(AbiRegister::T1),
            rs2: Register::from(AbiRegister::T1),
        }
    );
}
#[test]
fn decode_sltu() {
    assert_eq!(
        decode(0x0123bfb3),
        Instruction::Sltu {
            rd: Register::from(AbiRegister::T6),
            rs1: Register::from(AbiRegister::T2),
            rs2: Register::from(AbiRegister::S2),
        }
    );
}
#[test]
fn decode_xor() {
    assert_eq!(
        decode(0x00facab3),
        Instruction::Xor {
            rd: Register::from(AbiRegister::S5),
            rs1: Register::from(AbiRegister::S5),
            rs2: Register::from(AbiRegister::A5),
        }
    );
}
#[test]
fn decode_srl() {
    assert_eq!(
        decode(0x00a457b3),
        Instruction::Srl {
            rd: Register::from(AbiRegister::A5),
            rs1: Register::from(AbiRegister::S0Fp),
            rs2: Register::from(AbiRegister::A0),
        }
    );
}
#[test]
fn decode_sra() {
    assert_eq!(
        decode(0b01000000101001000101011110110011),
        Instruction::Sra {
            rd: Register::from(AbiRegister::A5),
            rs1: Register::from(AbiRegister::S0Fp),
            rs2: Register::from(AbiRegister::A0),
        }
    );
}
#[test]
fn decode_or() {
    assert_eq!(
        decode(0x00c8e8b3),
        Instruction::Or {
            rd: Register::from(AbiRegister::A7),
            rs1: Register::from(AbiRegister::A7),
            rs2: Register::from(AbiRegister::A2),
        }
    );
}
#[test]
fn decode_and() {
    assert_eq!(
        decode(0x00d7f7b3),
        Instruction::And {
            rd: Register::from(AbiRegister::A5),
            rs1: Register::from(AbiRegister::A5),
            rs2: Register::from(AbiRegister::A3),
        }
    );
}
#[test]
fn decode_fence() {
    assert_eq!(
        decode(0x0ff0000f),
        Instruction::Fence {
            rd: Register::from(AbiRegister::Zero),
            rs1: Register::from(AbiRegister::Zero),
            succ: 0xf,
            pred: 0xf,
            fm: 0x0,
        }
    );
}
#[test]
fn decode_ecall() {
    assert_eq!(decode(0x00000073), Instruction::Ecall);
}
#[test]
fn decode_ebreak() {
    assert_eq!(decode(0x00100073), Instruction::Ebreak);
}
#[test]
fn decode_lwu() {
    assert_eq!(
        decode(0x0000e903),
        Instruction::Lwu {
            rd: Register::from(AbiRegister::S2),
            rs1: Register::from(AbiRegister::Ra),
            imm: 0
        }
    );
}
#[test]
fn decode_ld() {
    assert_eq!(
        decode(0xf581b503),
        Instruction::Ld {
            rd: Register::from(AbiRegister::A0),
            rs1: Register::from(AbiRegister::Gp),
            imm: -168,
        }
    );
}
#[test]
fn decode_sd() {
    assert_eq!(
        decode(0x00813023),
        Instruction::Sd {
            rs2: Register::from(AbiRegister::S0Fp),
            rs1: Register::from(AbiRegister::Sp),
            imm: 0,
        }
    );
}
#[test]
fn decode_slli() {
    assert_eq!(
        decode(0x00269693),
        Instruction::Slli {
            rd: Register::from(AbiRegister::A3),
            rs1: Register::from(AbiRegister::A3),
            shamt: 0x2
        }
    );
}
#[test]
fn decode_srli() {
    assert_eq!(
        decode(0x01e75793),
        Instruction::Srli {
            rd: Register::from(AbiRegister::A5),
            rs1: Register::from(AbiRegister::A4),
            shamt: 0x1e
        }
    );
}
#[test]
fn decode_srai() {
    assert_eq!(
        decode(0x4037d493),
        Instruction::Srai {
            rd: Register::from(AbiRegister::S1),
            rs1: Register::from(AbiRegister::A5),
            shamt: 0x3
        }
    );
}
#[test]
fn decode_addiw() {
    assert_eq!(
        decode(0xfff4841b),
        Instruction::Addiw {
            rd: Register::from(AbiRegister::S0Fp),
            rs1: Register::from(AbiRegister::S1),
            imm: -1
        }
    );
}
#[test]
fn decode_slliw() {
    assert_eq!(
        decode(0x0054141b),
        Instruction::Slliw {
            rd: Register::from(AbiRegister::S0Fp),
            rs1: Register::from(AbiRegister::S0Fp),
            shamt: 0x5
        }
    );
}
#[test]
fn decode_srliw() {
    assert_eq!(
        decode(0x01f6d49b),
        Instruction::Srliw {
            rd: Register::from(AbiRegister::S1),
            rs1: Register::from(AbiRegister::A3),
            shamt: 0x1f
        }
    );
}
#[test]
fn decode_sraiw() {
    assert_eq!(
        decode(0x4014d49b),
        Instruction::Sraiw {
            rd: Register::from(AbiRegister::S1),
            rs1: Register::from(AbiRegister::S1),
            shamt: 0x1
        }
    );
}
#[test]
fn decode_addw() {
    assert_eq!(
        decode(0x00f707bb),
        Instruction::Addw {
            rd: Register::from(AbiRegister::A5),
            rs1: Register::from(AbiRegister::A4),
            rs2: Register::from(AbiRegister::A5),
        }
    );
}
#[test]
fn decode_subw() {
    assert_eq!(
        decode(0x41b404bb),
        Instruction::Subw {
            rd: Register::from(AbiRegister::S1),
            rs1: Register::from(AbiRegister::S0Fp),
            rs2: Register::from(AbiRegister::S11),
        }
    );
}
#[test]
fn decode_sllw() {
    assert_eq!(
        decode(0x008a96bb),
        Instruction::Sllw {
            rd: Register::from(AbiRegister::A3),
            rs1: Register::from(AbiRegister::S5),
            rs2: Register::from(AbiRegister::S0Fp),
        }
    );
}
#[test]
fn decode_srlw() {
    assert_eq!(
        decode(0x00b7573b),
        Instruction::Srlw {
            rd: Register::from(AbiRegister::A4),
            rs1: Register::from(AbiRegister::A4),
            rs2: Register::from(AbiRegister::A1),
        }
    );
}
#[test]
fn decode_sraw() {
    assert_eq!(
        decode(0x40f5553b),
        Instruction::Sraw {
            rd: Register::from(AbiRegister::A0),
            rs1: Register::from(AbiRegister::A0),
            rs2: Register::from(AbiRegister::A5),
        }
    );
}
