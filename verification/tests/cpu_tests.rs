use invaders::cpu::CPU;
use invaders::invaders::SpaceInvadersIO;
use invaders::register::Reg8::{A, B, C, D, E, H, L, M};
use invaders::register::Reg16::{BC, DE, HL, SP, PC};
use invaders::register::Flag::{Carry, Parity, Sign, AuxCarry, Zero};

#[test]
fn test_memory_accessors() {
    let mut cpu = CPU::new();

    cpu.memory.set(0x0, 0x34);
    cpu.memory.set(0x1, 0x11);
    cpu.memory.set(0x2, 0x24);
    cpu.memory.set(0x3, 0x31);
    cpu.memory.set(0x4, 0x47);

    assert_eq!(cpu.read_byte_at_address(0x0), 0x34);
    assert_eq!(cpu.read_byte_at_address(0x1), 0x11);
    assert_eq!(cpu.read_byte_at_address(0x2), 0x24);
    assert_eq!(cpu.read_byte_at_address(0x3), 0x31);
    assert_eq!(cpu.read_byte_at_address(0x4), 0x47);

    assert_eq!(cpu.read_word_at_address(0x0), 0x1134);
    assert_eq!(cpu.read_word_at_address(0x1), 0x2411);

    cpu.reg.set16(PC, 0x0);
    assert_eq!(cpu.read_byte_immediate(), 0x11);
    cpu.reg.set16(PC, 0x1);
    assert_eq!(cpu.read_byte_immediate(), 0x24);
    assert_eq!(cpu.read_word_immediate(), 0x3124);
}

#[test]
fn test_write_word() {
    let mut cpu = CPU::new();

    cpu.write_word_to_memory(0, 0xAABB);
    assert_eq!(cpu.memory.get(0), 0xBB);
    assert_eq!(cpu.memory.get(1), 0xAA);
}

#[test]
fn test_add() {
    let mut cpu = CPU::new();
    let mut io = SpaceInvadersIO::new();

    cpu.memory.set(0, 0x80);
    cpu.memory.set(1, 0x81);
    cpu.memory.set(2, 0x82);
    cpu.memory.set(3, 0x83);
    cpu.memory.set(4, 0x84);
    cpu.memory.set(5, 0x85);
    cpu.memory.set(6, 0x87);
    cpu.memory.set(7, 0x86);

    cpu.reg.set8(A, 0b1);
    cpu.reg.set8(B, 0b1);
    cpu.tick(&mut io);
    assert_eq!(cpu.reg.get8(A), 0b10);
    assert_eq!(cpu.reg.get_flag(Zero), false);
    assert_eq!(cpu.reg.get_flag(Sign), false);
    assert_eq!(cpu.reg.get_flag(Parity), false);
    assert_eq!(cpu.reg.get_flag(Carry), false);
    assert_eq!(cpu.reg.get_flag(AuxCarry), false);

    cpu.reg.set8(C, 0x1);
    cpu.tick(&mut io);
    assert_eq!(cpu.reg.get8(A), 0b11);
    assert_eq!(cpu.reg.get_flag(Zero), false);
    assert_eq!(cpu.reg.get_flag(Sign), false);
    assert_eq!(cpu.reg.get_flag(Parity), true);
    assert_eq!(cpu.reg.get_flag(Carry), false);
    assert_eq!(cpu.reg.get_flag(AuxCarry), false);

    cpu.reg.set8(D, 0x1);
    cpu.tick(&mut io);
    assert_eq!(cpu.reg.get8(A), 0b100);
    assert_eq!(cpu.reg.get_flag(Zero), false);
    assert_eq!(cpu.reg.get_flag(Sign), false);
    assert_eq!(cpu.reg.get_flag(Parity), false);
    assert_eq!(cpu.reg.get_flag(Carry), false);
    assert_eq!(cpu.reg.get_flag(AuxCarry), false);

    cpu.reg.set8(E, 0x1);
    cpu.tick(&mut io);
    assert_eq!(cpu.reg.get8(A), 0b101);
    assert_eq!(cpu.reg.get_flag(Zero), false);
    assert_eq!(cpu.reg.get_flag(Sign), false);
    assert_eq!(cpu.reg.get_flag(Parity), true);
    assert_eq!(cpu.reg.get_flag(Carry), false);
    assert_eq!(cpu.reg.get_flag(AuxCarry), false);

    cpu.reg.set8(H, 0x1);
    cpu.tick(&mut io);
    assert_eq!(cpu.reg.get8(A), 0b110);
    assert_eq!(cpu.reg.get_flag(Zero), false);
    assert_eq!(cpu.reg.get_flag(Sign), false);
    assert_eq!(cpu.reg.get_flag(Parity), true);
    assert_eq!(cpu.reg.get_flag(Carry), false);
    assert_eq!(cpu.reg.get_flag(AuxCarry), false);

    cpu.reg.set8(L, 0x1);
    cpu.tick(&mut io);
    assert_eq!(cpu.reg.get8(A), 0b111);
    assert_eq!(cpu.reg.get_flag(Zero), false);
    assert_eq!(cpu.reg.get_flag(Sign), false);
    assert_eq!(cpu.reg.get_flag(Parity), false);
    assert_eq!(cpu.reg.get_flag(Carry), false);
    assert_eq!(cpu.reg.get_flag(AuxCarry), false);

    cpu.tick(&mut io);
    assert_eq!(cpu.reg.get8(A), 0b1110);
    assert_eq!(cpu.reg.get_flag(Zero), false);
    assert_eq!(cpu.reg.get_flag(Sign), false);
    assert_eq!(cpu.reg.get_flag(Parity), false);
    assert_eq!(cpu.reg.get_flag(Carry), false);
    assert_eq!(cpu.reg.get_flag(AuxCarry), false);

    cpu.reg.set8(A, 0x0);
    cpu.memory.set(0x1001, 0xFF);
    cpu.reg.set16(HL, 0x1001);

    cpu.tick(&mut io);

    assert_eq!(cpu.reg.get8(A), 0xFF);

    assert_eq!(cpu.reg.get_flag(Zero), false);
    assert_eq!(cpu.reg.get_flag(Sign), true);
    assert_eq!(cpu.reg.get_flag(Parity), true);
    assert_eq!(cpu.reg.get_flag(Carry), false);
}

#[test]
fn test_pc_increment() {
    let mut cpu = CPU::new();
    let mut io = SpaceInvadersIO::new();

    cpu.reg.set8(A, 0x1);
    cpu.reg.set8(B, 0x1);

    cpu.memory.set(0, 0x80);

    cpu.tick(&mut io);

    assert_eq!(cpu.reg.get16(PC), 0x1);
}

#[test]
fn test_lxi() {
    let mut cpu = CPU::new();
    let mut io = SpaceInvadersIO::new();

    cpu.memory.set(0, 0x1);
    cpu.memory.set(1, 0x35);
    cpu.memory.set(2, 0x76);

    cpu.memory.set(3, 0x11);
    cpu.memory.set(4, 0x35);
    cpu.memory.set(5, 0x76);

    cpu.memory.set(6, 0x21);
    cpu.memory.set(7, 0x35);
    cpu.memory.set(8, 0x76);

    cpu.memory.set(9, 0x31);
    cpu.memory.set(10, 0x35);
    cpu.memory.set(11, 0x76);

    cpu.tick(&mut io);
    assert_eq!(cpu.reg.get16(BC), 0x7635);

    cpu.tick(&mut io);
    assert_eq!(cpu.reg.get16(DE), 0x7635);

    cpu.tick(&mut io);
    assert_eq!(cpu.reg.get16(HL), 0x7635);

    cpu.tick(&mut io);
    assert_eq!(cpu.reg.get16(SP), 0x7635);
}

#[test]
fn test_stax() {
    let mut cpu = CPU::new();
    let mut io = SpaceInvadersIO::new();

    cpu.memory.set(0, 0x2);
    cpu.reg.set8(A, 0x42);
    cpu.reg.set16(BC, 0xF00F);

    cpu.tick(&mut io);

    assert_eq!(cpu.memory.get(0xF00F), 0x42);

    cpu.memory.set(1, 0x12);
    cpu.reg.set8(A, 0x82);
    cpu.reg.set16(DE, 0xEA3);

    cpu.tick(&mut io);

    assert_eq!(cpu.memory.get(0xEA3), 0x82);
}

#[test]
fn test_inx() {
    let mut cpu = CPU::new();
    let mut io = SpaceInvadersIO::new();

    cpu.memory.set(0, 0x3);
    cpu.memory.set(1, 0x13);
    cpu.memory.set(2, 0x23);

    cpu.reg.set16(BC, 0);
    cpu.reg.set16(DE, 0);
    cpu.reg.set16(HL, 0);

    cpu.tick(&mut io);
    cpu.tick(&mut io);
    cpu.tick(&mut io);

    assert_eq!(cpu.reg.get16(BC), 0x1);
    assert_eq!(cpu.reg.get16(DE), 0x1);
    assert_eq!(cpu.reg.get16(HL), 0x1);
}

#[test]
fn test_inr() {
    let mut cpu = CPU::new();
    let mut io = SpaceInvadersIO::new();

    cpu.memory.set(0, 0x4);
    cpu.memory.set(1, 0xC);
    cpu.memory.set(2, 0x14);
    cpu.memory.set(3, 0x1C);
    cpu.memory.set(4, 0x24);
    cpu.memory.set(5, 0x2C);
    cpu.memory.set(6, 0x3C);
    cpu.memory.set(7, 0x34); // M runs last because it reads the changed L

    for _ in 0..7 {
        cpu.tick(&mut io);
    }

    assert_eq!(cpu.reg.get8(A), 1);
    assert_eq!(cpu.reg.get8(B), 1);
    assert_eq!(cpu.reg.get8(C), 1);
    assert_eq!(cpu.reg.get8(D), 1);
    assert_eq!(cpu.reg.get8(E), 1);
    assert_eq!(cpu.reg.get8(H), 1);
    assert_eq!(cpu.reg.get8(L), 1);

    cpu.reg.set16(HL, 8);
    cpu.tick(&mut io);
    assert_eq!(cpu.memory.get(8), 1);
}

#[test]
fn test_dcr() {
    let mut cpu = CPU::new();
    let mut io = SpaceInvadersIO::new();

    cpu.reg.set8(A, 2);
    cpu.reg.set8(B, 2);
    cpu.reg.set8(C, 2);
    cpu.reg.set8(D, 2);
    cpu.reg.set8(E, 2);
    cpu.reg.set8(H, 2);
    cpu.reg.set8(L, 2);

    cpu.memory.set(0, 0x5);
    cpu.memory.set(1, 0xD);
    cpu.memory.set(2, 0x15);
    cpu.memory.set(3, 0x1D);
    cpu.memory.set(4, 0x25);
    cpu.memory.set(5, 0x2D);
    cpu.memory.set(6, 0x3D);
    cpu.memory.set(7, 0x35); // M runs last because it reads the changed L

    for _ in 0..7 {
        cpu.tick(&mut io);
    }

    assert_eq!(cpu.reg.get8(A), 1);
    assert_eq!(cpu.reg.get8(B), 1);
    assert_eq!(cpu.reg.get8(C), 1);
    assert_eq!(cpu.reg.get8(D), 1);
    assert_eq!(cpu.reg.get8(E), 1);
    assert_eq!(cpu.reg.get8(H), 1);
    assert_eq!(cpu.reg.get8(L), 1);

    cpu.memory.set(8, 2);
    cpu.reg.set16(HL, 8);
    cpu.tick(&mut io);
    assert_eq!(cpu.memory.get(8), 1);
}

#[test]
fn test_mvi() {
    let mut cpu = CPU::new();
    let mut io = SpaceInvadersIO::new();

    cpu.memory.set(0, 0x06);
    cpu.memory.set(1, 0x10);
    cpu.memory.set(2, 0x0E);
    cpu.memory.set(3, 0x10);
    cpu.memory.set(4, 0x16);
    cpu.memory.set(5, 0x10);
    cpu.memory.set(6, 0x1E);
    cpu.memory.set(7, 0x10);
    cpu.memory.set(8, 0x26);
    cpu.memory.set(9, 0x10);
    cpu.memory.set(10, 0x2E);
    cpu.memory.set(11, 0x10);
    cpu.memory.set(12, 0x3E);
    cpu.memory.set(13, 0x10);
    cpu.memory.set(14, 0x36);
    cpu.memory.set(15, 0x10);

    for _ in 0..7 {
        cpu.tick(&mut io);
    }

    assert_eq!(cpu.reg.get8(A), 0x10);
    assert_eq!(cpu.reg.get8(B), 0x10);
    assert_eq!(cpu.reg.get8(C), 0x10);
    assert_eq!(cpu.reg.get8(D), 0x10);
    assert_eq!(cpu.reg.get8(E), 0x10);
    assert_eq!(cpu.reg.get8(H), 0x10);
    assert_eq!(cpu.reg.get8(L), 0x10);

    cpu.reg.set16(HL, 0xFF);
    cpu.tick(&mut io);
    assert_eq!(cpu.memory.get(0xFF), 0x10);
}

#[test]
fn test_dad() {
    let mut cpu = CPU::new();
    let mut io = SpaceInvadersIO::new();

    cpu.memory.set(0, 0x9);
    cpu.memory.set(1, 0x19);
    cpu.memory.set(2, 0x29);
    cpu.reg.set16(BC, 0x1);
    cpu.reg.set16(DE, 0x1);
    cpu.reg.set16(HL, 0x1);

    cpu.tick(&mut io);
    cpu.tick(&mut io);
    cpu.tick(&mut io);

    assert_eq!(cpu.reg.get16(HL), 0x6);

    cpu.memory.set(3, 0x39);
    cpu.reg.set16(SP, 1);
    cpu.tick(&mut io);
    assert_eq!(cpu.reg.get16(HL), 0x7);
}

#[test]
fn test_ldax() {
    let mut cpu = CPU::new();
    let mut io = SpaceInvadersIO::new();

    cpu.memory.set(0, 0x0A);
    cpu.memory.set(1, 0x1A);

    cpu.memory.set(0xF1, 0x10);
    cpu.memory.set(0xF2, 0x20);

    cpu.reg.set16(BC, 0xF1);
    cpu.reg.set16(DE, 0xF2);

    cpu.tick(&mut io);
    assert_eq!(cpu.reg.get8(A), 0x10);
    cpu.tick(&mut io);
    assert_eq!(cpu.reg.get8(A), 0x20);
}

#[test]
fn test_dcx() {
    let mut cpu = CPU::new();
    let mut io = SpaceInvadersIO::new();

    cpu.memory.set(0, 0x0B);
    cpu.memory.set(1, 0x1B);
    cpu.memory.set(2, 0x2B);
    cpu.memory.set(3, 0x3B);

    cpu.reg.set16(BC, 1);
    cpu.reg.set16(DE, 1);
    cpu.reg.set16(HL, 1);
    cpu.reg.set16(SP, 1);

    for _ in 0..4 {
        cpu.tick(&mut io);
    }

    assert_eq!(cpu.reg.get16(BC), 0);
    assert_eq!(cpu.reg.get16(DE), 0);
    assert_eq!(cpu.reg.get16(HL), 0);
    assert_eq!(cpu.reg.get16(SP), 0);
}

#[test]
fn test_rlc() {
    let mut cpu = CPU::new();
    let mut io = SpaceInvadersIO::new();

    cpu.memory.set(0, 0x07);
    cpu.reg.set8(A, 0b10101010);

    cpu.tick(&mut io);
    assert_eq!(cpu.reg.get8(A), 0b01010101);
    assert_eq!(cpu.reg.get_flag(Carry), true);

    cpu.reg.set16(PC, 0);
    cpu.tick(&mut io);

    assert_eq!(cpu.reg.get8(A), 0b10101010);
    assert_eq!(cpu.reg.get_flag(Carry), false);
}

#[test]
fn test_rrc() {
    let mut cpu = CPU::new();
    let mut io = SpaceInvadersIO::new();

    cpu.memory.set(0, 0x0F);
    cpu.reg.set8(A, 0b10000001);

    cpu.tick(&mut io);
    assert_eq!(cpu.reg.get8(A), 0b11000000);
    assert_eq!(cpu.reg.get_flag(Carry), true);

    cpu.reg.set16(PC, 0);
    cpu.tick(&mut io);
    cpu.reg.set8(A, 0b01100000);
    assert_eq!(cpu.reg.get_flag(Carry), false);
}

#[test]
fn test_ral() {
    let mut cpu = CPU::new();
    let mut io = SpaceInvadersIO::new();

    cpu.memory.set(0, 0x17);
    cpu.reg.set8(A, 0b10101010);

    cpu.tick(&mut io);
    assert_eq!(cpu.reg.get8(A), 0b01010100);
    assert_eq!(cpu.reg.get_flag(Carry), true);

    cpu.reg.set16(PC, 0);
    cpu.tick(&mut io);

    assert_eq!(cpu.reg.get8(A), 0b10101001);
    assert_eq!(cpu.reg.get_flag(Carry), false);
}

#[test]
fn test_rar() {
    let mut cpu = CPU::new();
    let mut io = SpaceInvadersIO::new();

    cpu.memory.set(0, 0x1F);
    cpu.reg.set8(A, 0b10000001);

    cpu.tick(&mut io);
    assert_eq!(cpu.reg.get8(A), 0b01000000);
    assert_eq!(cpu.reg.get_flag(Carry), true);

    cpu.reg.set16(PC, 0);
    cpu.tick(&mut io);

    assert_eq!(cpu.reg.get8(A), 0b10100000);
}

#[test]
fn test_shld() {
    let mut cpu = CPU::new();
    let mut io = SpaceInvadersIO::new();

    cpu.memory.set(0, 0x22);
    cpu.memory.set(1, 0xAA);
    cpu.memory.set(2, 0xAA);
    cpu.reg.set8(L, 0xCC);
    cpu.reg.set8(H, 0xDD);

    cpu.tick(&mut io);

    assert_eq!(cpu.memory.get(0xAAAA), 0xCC);
    assert_eq!(cpu.memory.get(0xAAAB), 0xDD);
}

#[test]
fn test_lhld() {
    let mut cpu = CPU::new();
    let mut io = SpaceInvadersIO::new();

    cpu.memory.set(0, 0x2a);
    cpu.memory.set(1, 0xAA);
    cpu.memory.set(2, 0xAA);
    cpu.memory.set(0xAAAA, 0xEE);
    cpu.memory.set(0xAAAB, 0xFF);
    cpu.reg.set8(L, 0xCC);
    cpu.reg.set8(H, 0xDD);

    cpu.tick(&mut io);

    assert_eq!(cpu.reg.get8(L), 0xEE);
    assert_eq!(cpu.reg.get8(H), 0xFF);
}

#[test]
fn test_cma() {
    let mut cpu = CPU::new();
    let mut io = SpaceInvadersIO::new();

    cpu.memory.set(0, 0x2f);
    cpu.reg.set8(A, 0b00000001);
    cpu.tick(&mut io);
    assert_eq!(cpu.reg.get8(A), 0b11111110);
}

#[test]
fn test_sta() {
    let mut cpu = CPU::new();
    let mut io = SpaceInvadersIO::new();

    cpu.memory.set(0, 0x32);
    cpu.memory.set(1, 0xBB);
    cpu.memory.set(2, 0xAA);
    cpu.reg.set8(A, 0xFF);
    cpu.tick(&mut io);
    assert_eq!(cpu.memory.get(0xAABB), 0xFF);
}

#[test]
fn test_inxsp() {
    let mut cpu = CPU::new();
    let mut io = SpaceInvadersIO::new();

    cpu.memory.set(0, 0x33);
    cpu.tick(&mut io);
    assert_eq!(cpu.reg.get16(SP), 1);
}

#[test]
fn test_stc() {
    let mut cpu = CPU::new();
    let mut io = SpaceInvadersIO::new();

    cpu.memory.set(0, 0x37);
    cpu.tick(&mut io);
    assert_eq!(cpu.reg.get_flag(Carry), true);
}

#[test]
fn test_lda() {
    let mut cpu = CPU::new();
    let mut io = SpaceInvadersIO::new();

    cpu.memory.set(0, 0x3a);
    cpu.memory.set(1, 0xFF);
    cpu.memory.set(2, 0x00);
    cpu.memory.set(0x00FF, 0xAA);
    cpu.tick(&mut io);
    assert_eq!(cpu.reg.get8(A), 0xAA);
}

#[test]
fn test_cmc() {
    let mut cpu = CPU::new();
    let mut io = SpaceInvadersIO::new();

    cpu.memory.set(0, 0x3F);
    cpu.memory.set(1, 0x3F);
    cpu.tick(&mut io);
    assert_eq!(cpu.reg.get_flag(Carry), true);
    cpu.tick(&mut io);
    assert_eq!(cpu.reg.get_flag(Carry), false);
}

#[test]
fn test_mov() {
    let mut cpu = CPU::new();
    let mut io = SpaceInvadersIO::new();

    let mut index: u16 = 0;

    for x in 0x40..0x80u16 {
        cpu.memory.set(index, x as u8);
        index += 1;
    }

    let registers = [B, C, D, E, H, L, M, A];

    for &dest_register in registers.iter() {
        for &source_register in registers.iter() {
            if source_register == M {
                cpu.reg.set16(HL, 0xFFFE);
                cpu.memory.set(0xFFFE, 0x1);
            }
            if source_register != M {
                cpu.reg.set8(source_register, 0x1);
            }

            cpu.tick(&mut io);

            if source_register != M && dest_register != M {
                assert_eq!(cpu.reg.get8(dest_register), cpu.reg.get8(source_register));
            }
        }
    }
}

#[test]
fn test_adc() {
    let mut cpu = CPU::new();
    let mut io = SpaceInvadersIO::new();

    cpu.memory.set(0, 0x80);
    cpu.memory.set(1, 0x88);
    cpu.memory.set(2, 0x89);
    cpu.memory.set(3, 0x8a);
    cpu.memory.set(4, 0x8b);
    cpu.memory.set(5, 0x8c);
    cpu.memory.set(6, 0x8d);
    cpu.memory.set(7, 0x8e);
    cpu.memory.set(8, 0x8f);

    cpu.reg.set8(A, 0b11111111);
    cpu.reg.set8(B, 0b00000001);

    cpu.tick(&mut io);
    assert_eq!(cpu.reg.get8(A), 0b00000000);

    cpu.tick(&mut io);
    assert_eq!(cpu.reg.get8(A), 0b00000010);

    cpu.reg.set8(C, 1);
    cpu.reg.set8(D, 1);
    cpu.reg.set8(E, 1);
    cpu.reg.set8(H, 1);
    cpu.reg.set8(L, 1);
    cpu.memory.set(cpu.reg.get16(HL), 1);

    for _ in 0..6 {
        cpu.tick(&mut io);
    }

    assert_eq!(cpu.reg.get8(A), 0b1000);

    cpu.tick(&mut io);

    assert_eq!(cpu.reg.get8(A), 0b10000);
}

#[test]
fn test_sub() {
    let mut cpu = CPU::new();
    let mut io = SpaceInvadersIO::new();

    let mut index: u16 = 0;

    for x in 0x90..0x98u16 {
        cpu.memory.set(index, x as u8);
        index += 1;
    }

    cpu.reg.set8(A, 0b0000000);
    cpu.reg.set8(B, 0b0000001);
    cpu.reg.set8(C, 0b0000001);
    cpu.reg.set8(D, 0b0000001);
    cpu.reg.set8(E, 0b0000001);
    cpu.reg.set8(H, 0b0000001);
    cpu.reg.set8(L, 0b0000001);
    cpu.memory.set(cpu.reg.get16(HL), 0b0000001);

    cpu.tick(&mut io);
    assert_eq!(cpu.reg.get8(A), 0b11111111);
    assert_eq!(cpu.reg.get_flag(Carry), true);

    for _ in 0..6 {
        cpu.tick(&mut io);
    }

    assert_eq!(cpu.reg.get8(A), 0b11111111 - 6);

    cpu.tick(&mut io);

    assert_eq!(cpu.reg.get8(A), 0);
}

#[test]
fn test_sbb() {
    let mut cpu = CPU::new();
    let mut io = SpaceInvadersIO::new();

    let mut index: u16 = 0;

    for x in 0x98..0xa0u16 {
        cpu.memory.set(index, x as u8);
        index += 1;
    }

    cpu.reg.set8(A, 0b0000000);
    cpu.reg.set8(B, 0b0000001);
    cpu.reg.set8(C, 0b0000001);
    cpu.reg.set8(D, 0b0000001);
    cpu.reg.set8(E, 0b0000001);
    cpu.reg.set8(H, 0b0000001);
    cpu.reg.set8(L, 0b0000001);
    cpu.memory.set(cpu.reg.get16(HL), 0b0000001);

    cpu.tick(&mut io);
    assert_eq!(cpu.reg.get8(A), 0b11111111);
    assert_eq!(cpu.reg.get_flag(Carry), true);

    for _ in 0..6 {
        cpu.tick(&mut io);
    }

    assert_eq!(cpu.reg.get8(A), 0b11111111 - 7);

    cpu.tick(&mut io);

    assert_eq!(cpu.reg.get8(A), 0);
}

#[test]
fn test_ana() {
    let registers = [A, B, C, D, E, H, L];

    let values = [
        0b11111111u8, // Initial
        0b11111110, // B
        0b11111100, // C
        0b11111000, // D
        0b11110000, // E
        0b11100000, // H
        0b11000000, // L
        0b10000000, // M
    ];

    let mut cpu = CPU::new();
    let mut io = SpaceInvadersIO::new();

    let mut index: u16 = 0;

    for x in 0xa0..0xa8u16 {
        cpu.memory.set(index, x as u8);
        index += 1;
    }

    for x in 0..7 {
        cpu.reg.set8(registers[x], values[x]);
    }

    let mut expected_index: usize = 1;
    for x in 0xa0..0xa8u16 {
        if x == 0xa6 {
            cpu.reg.set16(HL, 0xDDDD);
            cpu.memory.set(0xDDDD, 0b10000000);
        }

        cpu.tick(&mut io);

        if x == 0xa6 {
            assert_eq!(cpu.reg.get8(A), 0b10000000);
        } else {
            assert_eq!(cpu.reg.get8(A), values[expected_index]);
        }
        if expected_index != 7 {
            expected_index += 1;
        }
    }
}

#[test]
fn test_xra() {
    let registers = [A, B, C, D, E, H, L];

    let values = [
        0b11111111u8, // Initial
        0b11111110, // B
        0b00000011, // C
        0b00000110, // D
        0b00001100, // E
        0b00011000, // H
        0b00110000, // L
        0b01100000, // M
    ];

    let mut results: Vec<u8> = Vec::new();

    results.push(values[0] ^ values[1]);

    for x in 1..7 {
        results.push(results[x - 1] ^ values[x + 1]);
    }

    results.push(0b00000000);

    let mut cpu = CPU::new();
    let mut io = SpaceInvadersIO::new();

    let mut index: u16 = 0;
    for x in 0xa8..0xb0u16 {
        cpu.memory.set(index, x as u8);
        index += 1;
    }

    for x in 0..7 {
        cpu.reg.set8(registers[x], values[x]);
    }

    let mut result_index: usize = 0;
    for x in 0xa8..0xb0u16 {
        if x == 0xae {
            cpu.reg.set16(HL, 0xDDDD);
            cpu.memory.set(0xDDDD, 0b01100000);
        }

        cpu.tick(&mut io);

        assert_eq!(cpu.reg.get8(A), results[result_index]);

        if result_index != 7 {
            result_index += 1;
        }
    }
}

#[test]
fn test_ora() {
    let registers = [A, B, C, D, E, H, L];

    let values = [
        0b11111111u8, // Initial
        0b11111110, // B
        0b00000011, // C
        0b00000110, // D
        0b00001100, // E
        0b00011000, // H
        0b00110000, // L
        0b01100000, // M
    ];

    let mut results: Vec<u8> = Vec::new();

    results.push(values[0] | values[1]);

    for x in 1..7 {
        results.push(results[x - 1] | values[x + 1]);
    }

    results.push(0b11111111);

    let mut cpu = CPU::new();
    let mut io = SpaceInvadersIO::new();

    let mut index: u16 = 0;
    for x in 0xb0..0xb8u16 {
        cpu.memory.set(index, x as u8);
        index += 1;
    }

    for x in 0..7 {
        cpu.reg.set8(registers[x], values[x]);
    }

    let mut result_index: usize = 0;
    for x in 0xa8..0xb0u16 {
        if x == 0xae {
            cpu.reg.set16(HL, 0xDDDD);
            cpu.memory.set(0xDDDD, 0b01100000);
        }

        cpu.tick(&mut io);

        assert_eq!(cpu.reg.get8(A), results[result_index]);

        if result_index != 7 {
            result_index += 1;
        }
    }
}

#[test]
fn test_cmp() {
    let mut cpu = CPU::new();
    let mut io = SpaceInvadersIO::new();

    cpu.memory.set(0, 0xb8);
    cpu.memory.set(1, 0xb9);
    cpu.memory.set(2, 0xba);

    cpu.reg.set8(A, 0b00001111);
    cpu.reg.set8(B, 0b00001111); // Zero set
    cpu.reg.set8(C, 0b00011111); // Carry set
    cpu.reg.set8(D, 0b00000001); // Both reset

    cpu.tick(&mut io);

    assert_eq!(cpu.reg.get_flag(Zero), true);
    assert_eq!(cpu.reg.get_flag(Carry), false);

    cpu.tick(&mut io);

    assert_eq!(cpu.reg.get_flag(Zero), false);
    assert_eq!(cpu.reg.get_flag(Carry), true);

    cpu.tick(&mut io);

    assert_eq!(cpu.reg.get_flag(Zero), false);
    assert_eq!(cpu.reg.get_flag(Carry), false);
}

#[test]
fn test_push_pop() {
    let mut cpu = CPU::new();
    let mut io = SpaceInvadersIO::new();

    cpu.memory.set(0, 0xc5);
    cpu.memory.set(1, 0xd1);
    cpu.reg.set16(BC, 0xABBA);
    cpu.reg.set16(SP, 0xDDDD);

    cpu.tick(&mut io);
    cpu.tick(&mut io);

    assert_eq!(cpu.reg.get16(BC), cpu.reg.get16(DE));
}

#[test]
fn test_jmp() {
    let mut cpu = CPU::new();
    let mut io = SpaceInvadersIO::new();

    cpu.memory.set(0, 0xc3);
    cpu.memory.set(1, 0xBB);
    cpu.memory.set(2, 0xAA);

    cpu.tick(&mut io);

    assert_eq!(cpu.reg.get16(PC), 0xAABB);
}

#[test]
fn test_jnz() {
    let mut cpu = CPU::new();
    let mut io = SpaceInvadersIO::new();

    cpu.memory.set(0, 0xc2);
    cpu.memory.set(1, 0xBB);
    cpu.memory.set(2, 0xAA);
    cpu.memory.set(3, 0xc2);
    cpu.memory.set(4, 0xBB);
    cpu.memory.set(5, 0xAA);
    cpu.reg.set_flag(Zero, true);

    cpu.tick(&mut io);

    assert_eq!(cpu.reg.get16(PC), 3);

    cpu.reg.set_flag(Zero, false);

    cpu.tick(&mut io);

    assert_eq!(cpu.reg.get16(PC), 0xAABB);
}

#[test]
fn test_call_ret() {
    let mut cpu = CPU::new();
    let mut io = SpaceInvadersIO::new();

    cpu.reg.set16(SP, 0x100);

    cpu.reg.set8(B, 1);
    cpu.reg.set8(C, 2);

    cpu.memory.set(0, 0xcd);
    cpu.memory.set(1, 0xBB);
    cpu.memory.set(2, 0xAA);
    cpu.memory.set(0xAABB, 0x80);
    cpu.memory.set(0xAABC, 0xc9);
    cpu.memory.set(3, 0x81);

    for _ in 0..4 {
        cpu.tick(&mut io);
    }

    assert_eq!(cpu.reg.get16(PC), 0x4);
    assert_eq!(cpu.reg.get8(A), 0x3);
}

#[test]
fn test_pchl() {
    let mut cpu = CPU::new();
    let mut io = SpaceInvadersIO::new();

    cpu.memory.set(0, 0xe9);
    cpu.reg.set16(HL, 0xBB);

    cpu.tick(&mut io);

    assert_eq!(cpu.reg.get16(PC), 0xBB);
}

#[test]
fn test_sphl() {
    let mut cpu = CPU::new();
    let mut io = SpaceInvadersIO::new();

    cpu.memory.set(0, 0xf9);
    cpu.reg.set16(HL, 0xFF);
    cpu.tick(&mut io);

    assert_eq!(cpu.reg.get16(SP), 0xFF);
}

#[test]
fn test_xchg() {
    let mut cpu = CPU::new();
    let mut io = SpaceInvadersIO::new();

    cpu.memory.set(0, 0xeb);
    cpu.reg.set16(DE, 0xAA);
    cpu.reg.set16(HL, 0xBB);

    cpu.tick(&mut io);

    assert_eq!(cpu.reg.get16(DE), 0xBB);
    assert_eq!(cpu.reg.get16(HL), 0xAA);
}

#[test]
fn test_xthl() {
    let mut cpu = CPU::new();
    let mut io = SpaceInvadersIO::new();

    cpu.memory.set(0, 0xe3);
    cpu.reg.set16(SP, 0x100);
    cpu.memory.set(0x100, 0xAA);
    cpu.memory.set(0x101, 0xBB);
    cpu.reg.set8(H, 0xEE);
    cpu.reg.set8(L, 0xFF);

    cpu.tick(&mut io);

    assert_eq!(cpu.reg.get8(L), 0xAA);
    assert_eq!(cpu.reg.get8(H), 0xBB);

    assert_eq!(cpu.memory.get(0x100), 0xFF);
    assert_eq!(cpu.memory.get(0x101), 0xEE);
}

#[test]
fn test_cpi() {
    let mut cpu = CPU::new();
    let mut io = SpaceInvadersIO::new();

    cpu.memory.set(0, 0xfe);
    cpu.memory.set(1, 0x1);
    cpu.reg.set8(A, 0x1);

    cpu.tick(&mut io);

    assert_eq!(cpu.reg.get_flag(Carry), false);
    assert_eq!(cpu.reg.get_flag(Zero), true);

    cpu.memory.set(2, 0xfe);
    cpu.memory.set(3, 0x2);
    cpu.reg.set8(A, 0x1);

    cpu.tick(&mut io);

    assert_eq!(cpu.reg.get_flag(Carry), true);
    assert_eq!(cpu.reg.get_flag(Zero), false);

    cpu.memory.set(4, 0xfe);
    cpu.memory.set(5, 0x1);
    cpu.reg.set8(A, 0x2);

    cpu.tick(&mut io);

    assert_eq!(cpu.reg.get_flag(Carry), false);
    assert_eq!(cpu.reg.get_flag(Zero), false);
}

#[test]
fn test_aci() {
    let mut cpu = CPU::new();
    let mut io = SpaceInvadersIO::new();

    cpu.reg.set_flag(Carry, true);
    cpu.reg.set8(A, 0xF5);

    cpu.memory.set(0, 0xCE);
    cpu.memory.set(1, 0xA);
    cpu.memory.set(2, 0xCE);
    cpu.memory.set(3, 0xA);

    cpu.tick(&mut io);

    assert_eq!(cpu.reg.get_flag(Carry), true);

    cpu.tick(&mut io);

    assert_eq!(cpu.reg.get8(A), 0xB);
}

#[test]
fn test_sui() {
    let mut cpu = CPU::new();
    let mut io = SpaceInvadersIO::new();

    cpu.reg.set8(A, 0xB);

    cpu.memory.set(0, 0xD6);
    cpu.memory.set(1, 0xC);

    cpu.tick(&mut io);

    assert_eq!(cpu.reg.get8(A), 0xFF);
    assert_eq!(cpu.reg.get_flag(Carry), true);

    cpu.memory.set(2, 0xD6);
    cpu.memory.set(3, 0xF);

    cpu.tick(&mut io);

    assert_eq!(cpu.reg.get8(A), 0xF0);
    assert_eq!(cpu.reg.get_flag(Carry), false);
}
