//! The port bus: shift register behaviour through IN/OUT, the input
//! latches, and the key wiring of the second bus implementation.

use invaders::cpu::CPU;
use invaders::invaders::{SpaceInvadersIO, IO};
use invaders::machine::{SpaceInvadersMachine, Keys, mask_for_key};
use invaders::register::Reg8::A;

#[test]
fn io_initial_latches() {
    let io = SpaceInvadersIO::new();
    // Port 1 idles with only its always-one bit 3; bit 7 always reads 0.
    assert_eq!(io.read_port(1), 0b0000_1000);
    assert_eq!(io.read_port(2), 0);
    assert_eq!(io.read_port(3), 0);
}

#[test]
fn io_port1_constant_bits() {
    // Bit 3 of port 1 reads 1 and bit 7 reads 0 whatever is driven onto
    // the latch.
    let mut io = SpaceInvadersIO::new();
    io.set_key(1, 3, false);
    io.set_key(1, 7, true);
    let v = io.read_port(1);
    assert_eq!(v & 0b0000_1000, 0b0000_1000);
    assert_eq!(v & 0b1000_0000, 0);
}

#[test]
fn io_shift_register_window() {
    let mut io = SpaceInvadersIO::new();
    // First byte lands in shift1; the next push moves it down to shift0.
    io.write_port(4, 0xAA);
    io.write_port(4, 0xFF);
    // Offset 0: the freshest byte.
    io.write_port(2, 0);
    assert_eq!(io.read_port(3), 0xFF);
    // Offset 2: two bits of the older byte slide in.
    io.write_port(2, 2);
    assert_eq!(io.read_port(3), 0xFE);
    // Offset 7: mostly the older byte.
    io.write_port(2, 7);
    assert_eq!(io.read_port(3), 0xD5);
    // Sound and watchdog writes change nothing.
    io.write_port(3, 0x55);
    io.write_port(5, 0x55);
    io.write_port(6, 0x55);
    assert_eq!(io.read_port(3), 0xD5);
}

#[test]
fn io_through_cpu_in_out() {
    // MVI A,0xAA; OUT 4; MVI A,0xFF; OUT 4; MVI A,2; OUT 2; IN 3.
    let program = [0x3E, 0xAA, 0xD3, 0x04, 0x3E, 0xFF, 0xD3, 0x04, 0x3E, 0x02, 0xD3, 0x02, 0xDB, 0x03];
    let mut cpu = CPU::new();
    cpu.memory.load(0, &program);
    let mut io = SpaceInvadersIO::new();
    let mut cycles: u64 = 0;
    for _ in 0..7 {
        cycles += cpu.tick(&mut io);
    }
    assert_eq!(cpu.reg.get8(A), 0xFE);
    // Three MVI at 7 each, three OUT and one IN at 10 each.
    assert_eq!(cycles, 61);
}

#[test]
fn io_in_reads_latch_into_a() {
    let program = [0xDB, 0x01];
    let mut cpu = CPU::new();
    cpu.memory.load(0, &program);
    let mut io = SpaceInvadersIO::new();
    cpu.tick(&mut io);
    assert_eq!(cpu.reg.get8(A), 0b0000_1000);
}

#[test]
fn io_set_key_latches() {
    let mut io = SpaceInvadersIO::new();
    // Coin is bit 0 of port 1; the always-one bit 3 reads alongside it.
    io.set_key(1, 0, true);
    assert_eq!(io.read_port(1), 0b0000_1001);
    io.set_key(1, 0, false);
    assert_eq!(io.read_port(1), 0b0000_1000);
    // P2 shoot is bit 4 of port 2 (no constant lines there).
    io.set_key(2, 4, true);
    assert_eq!(io.read_port(2), 0b0001_0000);
    io.set_key(2, 4, false);
    assert_eq!(io.read_port(2), 0);
}

#[test]
fn machine_key_masks() {
    assert_eq!(mask_for_key(Keys::Coin), 1 << 0);
    assert_eq!(mask_for_key(Keys::Start2), 1 << 1);
    assert_eq!(mask_for_key(Keys::Start1), 1 << 2);
    assert_eq!(mask_for_key(Keys::Shoot1), 1 << 4);
    assert_eq!(mask_for_key(Keys::Left1), 1 << 5);
    assert_eq!(mask_for_key(Keys::Right1), 1 << 6);
    assert_eq!(mask_for_key(Keys::Shoot2), 1 << 12);
    assert_eq!(mask_for_key(Keys::Left2), 1 << 13);
    assert_eq!(mask_for_key(Keys::Right2), 1 << 14);
}

#[test]
fn machine_press_release() {
    let mut m = SpaceInvadersMachine::new();
    // Port 1 always carries its constant bit 3.
    assert_eq!(m.read_port(1), 0b0000_1000);
    assert_eq!(m.read_port(2), 0);
    m.press_key(Keys::Coin);
    m.press_key(Keys::Shoot1);
    m.press_key(Keys::Left2);
    assert_eq!(m.read_port(1), 0b0001_1001);
    assert_eq!(m.read_port(2), 0b0010_0000);
    m.release_key(Keys::Coin);
    assert_eq!(m.read_port(1), 0b0001_1000);
    m.release_key(Keys::Shoot1);
    m.release_key(Keys::Left2);
    assert_eq!(m.read_port(1), 0b0000_1000);
    assert_eq!(m.read_port(2), 0);
}

#[test]
fn machine_shift_register() {
    let mut m = SpaceInvadersMachine::new();
    m.output(4, 0x12);
    m.output(4, 0x34);
    m.output(2, 4);
    // Window at offset 4 over 0x3412.
    assert_eq!(m.input(3), 0x41);
}
