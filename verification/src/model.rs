//! Ghost model of the 8080: processor state, flag construction, and one
//! spec-level transition function per instruction.  The executable `CPU` is
//! proved to implement `spec_execute` step for step.

use vstd::prelude::*;
use crate::register::{Reg8, Reg16, Flag};

verus! {

// ---------------------------------------------------------------------------
// State models

/// Register file: eight 8-bit registers and the two 16-bit ones.
#[verifier::ext_equal]
pub ghost struct RegModel {
    pub a: u8,
    pub b: u8,
    pub c: u8,
    pub d: u8,
    pub e: u8,
    pub h: u8,
    pub l: u8,
    pub f: u8,
    pub sp: u16,
    pub pc: u16,
}

/// Whole processor: registers, the 64 KiB memory image, the interrupt-enable
/// latch, and the count of interrupts taken so far.
#[verifier::ext_equal]
pub ghost struct CpuModel {
    pub reg: RegModel,
    pub mem: Seq<u8>,
    pub ie: bool,
    pub num_interrupts: u64,
}

/// The Space Invaders port bus: 16-bit shift register (`shift1:shift0`),
/// its read offset, and the three input-port latches.
#[verifier::ext_equal]
pub ghost struct IoModel {
    pub shift0: u8,
    pub shift1: u8,
    pub shift_amount: u8,
    pub port0: u8,
    pub port1: u8,
    pub port2: u8,
}

// ---------------------------------------------------------------------------
// Flag byte
//
// F packs the five status bits as S Z 0 AC 0 P 1 C (bit 7 down to bit 0);
// bits 5 and 3 always read as zero and bit 1 always reads as one.

pub open spec fn b2i(b: bool) -> int {
    if b { 1 } else { 0 }
}

/// The bit of `x` whose place value is `m` (`m` one of 1, 2, 4, ..., 128).
pub open spec fn bit_of(x: u8, m: u8) -> bool {
    ((x as int) / (m as int)) % 2 == 1
}

pub open spec fn flag_s(f: u8) -> bool { bit_of(f, 128) }

pub open spec fn flag_z(f: u8) -> bool { bit_of(f, 64) }

pub open spec fn flag_ac(f: u8) -> bool { bit_of(f, 16) }

pub open spec fn flag_p(f: u8) -> bool { bit_of(f, 4) }

pub open spec fn flag_c(f: u8) -> bool { bit_of(f, 1) }

pub open spec fn flag_of(f: u8, fl: Flag) -> bool {
    match fl {
        Flag::Sign => flag_s(f),
        Flag::Zero => flag_z(f),
        Flag::AuxCarry => flag_ac(f),
        Flag::Parity => flag_p(f),
        Flag::Carry => flag_c(f),
    }
}

/// The one F byte with the given five flags and the reserved bits at their
/// fixed values.
pub open spec fn make_f(s: bool, z: bool, ac: bool, p: bool, c: bool) -> u8 {
    (b2i(s) * 128 + b2i(z) * 64 + b2i(ac) * 16 + b2i(p) * 4 + 2 + b2i(c)) as u8
}

/// Keep only the five defined flag positions of `v` (what POP PSW stores).
pub open spec fn canon_f(v: u8) -> u8 {
    make_f(flag_s(v), flag_z(v), flag_ac(v), flag_p(v), flag_c(v))
}

/// F's reserved bits obey the layout: bits 5 and 3 zero, bit 1 one.
pub open spec fn f_canonical(f: u8) -> bool {
    f == canon_f(f)
}

/// `f` with the one flag `fl` replaced by `on`.
pub open spec fn upd_flag(f: u8, fl: Flag, on: bool) -> u8 {
    make_f(
        if fl is Sign { on } else { flag_s(f) },
        if fl is Zero { on } else { flag_z(f) },
        if fl is AuxCarry { on } else { flag_ac(f) },
        if fl is Parity { on } else { flag_p(f) },
        if fl is Carry { on } else { flag_c(f) },
    )
}

// ---------------------------------------------------------------------------
// Results of 8-bit arithmetic

pub open spec fn bitsum(x: u8) -> int {
    (x as int) % 2 + ((x as int) / 2) % 2 + ((x as int) / 4) % 2 + ((x as int) / 8) % 2
        + ((x as int) / 16) % 2 + ((x as int) / 32) % 2 + ((x as int) / 64) % 2
        + ((x as int) / 128) % 2
}

/// Even parity: set when the number of one bits in `x` is even.
pub open spec fn parity_of(x: u8) -> bool {
    bitsum(x) % 2 == 0
}

pub open spec fn sign_of(x: u8) -> bool {
    x >= 128
}

pub open spec fn zero_of(x: u8) -> bool {
    x == 0
}

/// Flags after an arithmetic or logical operation that sets all five.
pub open spec fn f_arith(r: u8, c: bool, ac: bool) -> u8 {
    make_f(sign_of(r), zero_of(r), ac, parity_of(r), c)
}

/// Flags after INR/DCR: S, Z, P, AC from the result, C kept.
pub open spec fn f_szpac(f: u8, r: u8, ac: bool) -> u8 {
    make_f(sign_of(r), zero_of(r), ac, parity_of(r), flag_c(f))
}

/// Flags with only C replaced (rotates, STC, CMC, DAD).
pub open spec fn f_carry(f: u8, c: bool) -> u8 {
    upd_flag(f, Flag::Carry, c)
}

pub open spec fn add_r(a: u8, v: u8, cin: int) -> u8 {
    ((a + v + cin) % 256) as u8
}

pub open spec fn add_c(a: u8, v: u8, cin: int) -> bool {
    a + v + cin > 255
}

pub open spec fn add_ac(a: u8, v: u8, cin: int) -> bool {
    (a as int) % 16 + (v as int) % 16 + cin > 15
}

pub open spec fn sub_r(a: u8, v: u8, cin: int) -> u8 {
    ((a + 256 - v - cin) % 256) as u8
}

pub open spec fn sub_c(a: u8, v: u8, cin: int) -> bool {
    (a as int) < v + cin
}

/// AC after subtraction: set when the low nibble borrows nothing.
pub open spec fn sub_ac(a: u8, v: u8, cin: int) -> bool {
    !((a as int) % 16 < (v as int) % 16 + cin)
}

// ---------------------------------------------------------------------------
// 16-bit helpers and memory

pub open spec fn pair16(hi: u8, lo: u8) -> u16 {
    (hi * 256 + lo) as u16
}

pub open spec fn hi8(w: u16) -> u8 {
    ((w as int) / 256) as u8
}

pub open spec fn lo8(w: u16) -> u8 {
    ((w as int) % 256) as u8
}

/// 16-bit address arithmetic, modulo 2^16.
pub open spec fn winc(a: u16, k: int) -> u16 {
    ((a + k) % 0x10000) as u16
}

pub open spec fn mrd(m: Seq<u8>, a: u16) -> u8 {
    m[a as int]
}

pub open spec fn mwr(m: Seq<u8>, a: u16, v: u8) -> Seq<u8> {
    m.update(a as int, v)
}

/// Little-endian word read over `a` and `a+1` (16-bit wrap).
pub open spec fn mrd16(m: Seq<u8>, a: u16) -> u16 {
    pair16(mrd(m, winc(a, 1)), mrd(m, a))
}

/// Little-endian word write: low byte at `a`, high byte at `a+1`.
pub open spec fn mwr16(m: Seq<u8>, a: u16, w: u16) -> Seq<u8> {
    mwr(mwr(m, a, lo8(w)), winc(a, 1), hi8(w))
}

// ---------------------------------------------------------------------------
// Register selection

impl RegModel {
    /// The byte register named by `r` (M is no storage; it selects nothing).
    pub open spec fn sel8(self, r: Reg8) -> u8 {
        match r {
            Reg8::A => self.a,
            Reg8::B => self.b,
            Reg8::C => self.c,
            Reg8::D => self.d,
            Reg8::E => self.e,
            Reg8::H => self.h,
            Reg8::L => self.l,
            Reg8::F => self.f,
            Reg8::M => 0,
        }
    }

    /// Write the byte register named by `r`; a write to F keeps only the five
    /// defined flag positions.
    pub open spec fn upd8(self, r: Reg8, v: u8) -> RegModel {
        match r {
            Reg8::A => RegModel { a: v, ..self },
            Reg8::B => RegModel { b: v, ..self },
            Reg8::C => RegModel { c: v, ..self },
            Reg8::D => RegModel { d: v, ..self },
            Reg8::E => RegModel { e: v, ..self },
            Reg8::H => RegModel { h: v, ..self },
            Reg8::L => RegModel { l: v, ..self },
            Reg8::F => RegModel { f: canon_f(v), ..self },
            Reg8::M => self,
        }
    }

    pub open spec fn sel16(self, r: Reg16) -> u16 {
        match r {
            Reg16::BC => pair16(self.b, self.c),
            Reg16::DE => pair16(self.d, self.e),
            Reg16::HL => pair16(self.h, self.l),
            Reg16::SP => self.sp,
            Reg16::PC => self.pc,
            Reg16::PSW => pair16(self.a, self.f),
        }
    }

    pub open spec fn upd16(self, r: Reg16, w: u16) -> RegModel {
        match r {
            Reg16::BC => RegModel { b: hi8(w), c: lo8(w), ..self },
            Reg16::DE => RegModel { d: hi8(w), e: lo8(w), ..self },
            Reg16::HL => RegModel { h: hi8(w), l: lo8(w), ..self },
            Reg16::SP => RegModel { sp: w, ..self },
            Reg16::PC => RegModel { pc: w, ..self },
            Reg16::PSW => RegModel { a: hi8(w), f: canon_f(lo8(w)), ..self },
        }
    }
}

// ---------------------------------------------------------------------------
// Per-instruction transitions.  Each function gives the complete effect of
// one instruction on the processor model, PC advance excluded (the dispatcher
// adds the instruction length afterwards).

impl CpuModel {
    pub open spec fn with_reg(self, reg: RegModel) -> CpuModel {
        CpuModel { reg, ..self }
    }

    pub open spec fn hl(self) -> u16 {
        pair16(self.reg.h, self.reg.l)
    }
}

/// ADD/ADC r or immediate: A + v (+ C), all five flags.
pub open spec fn sem_add(s: CpuModel, v: u8, with_carry: bool) -> CpuModel {
    let cin = b2i(with_carry && flag_c(s.reg.f));
    let r = add_r(s.reg.a, v, cin);
    s.with_reg(RegModel { a: r, f: f_arith(r, add_c(s.reg.a, v, cin), add_ac(s.reg.a, v, cin)), ..s.reg })
}

/// SUB/SBB r or immediate: A - v (- C), all five flags.
pub open spec fn sem_sub(s: CpuModel, v: u8, with_borrow: bool) -> CpuModel {
    let cin = b2i(with_borrow && flag_c(s.reg.f));
    let r = sub_r(s.reg.a, v, cin);
    s.with_reg(RegModel { a: r, f: f_arith(r, sub_c(s.reg.a, v, cin), sub_ac(s.reg.a, v, cin)), ..s.reg })
}

/// CMP/CPI: flags as for SUB, A kept.
pub open spec fn sem_cmp(s: CpuModel, v: u8) -> CpuModel {
    let r = sub_r(s.reg.a, v, 0);
    s.with_reg(RegModel { f: f_arith(r, sub_c(s.reg.a, v, 0), sub_ac(s.reg.a, v, 0)), ..s.reg })
}

/// ANA/ANI: A & v; C cleared, AC from bit 3 of A | v.
pub open spec fn sem_ana(s: CpuModel, v: u8) -> CpuModel {
    let r = s.reg.a & v;
    s.with_reg(RegModel { a: r, f: f_arith(r, false, bit_of(s.reg.a | v, 8)), ..s.reg })
}

/// XRA/XRI: A ^ v; C and AC cleared.
pub open spec fn sem_xra(s: CpuModel, v: u8) -> CpuModel {
    let r = s.reg.a ^ v;
    s.with_reg(RegModel { a: r, f: f_arith(r, false, false), ..s.reg })
}

/// ORA/ORI: A | v; C and AC cleared.
pub open spec fn sem_ora(s: CpuModel, v: u8) -> CpuModel {
    let r = s.reg.a | v;
    s.with_reg(RegModel { a: r, f: f_arith(r, false, false), ..s.reg })
}

/// INR r: wrapping +1; S, Z, P, AC set, C kept.
pub open spec fn sem_inr(s: CpuModel, r: Reg8) -> CpuModel {
    let x = s.reg.sel8(r);
    let nr = add_r(x, 1, 0);
    s.with_reg(RegModel { f: f_szpac(s.reg.f, nr, add_ac(x, 1, 0)), ..s.reg.upd8(r, nr) })
}

/// DCR r: wrapping -1; S, Z, P, AC set, C kept.
pub open spec fn sem_dcr(s: CpuModel, r: Reg8) -> CpuModel {
    let x = s.reg.sel8(r);
    let nr = sub_r(x, 1, 0);
    s.with_reg(RegModel { f: f_szpac(s.reg.f, nr, sub_ac(x, 1, 0)), ..s.reg.upd8(r, nr) })
}

/// INR M: as INR on memory[HL].
pub open spec fn sem_inr_m(s: CpuModel) -> CpuModel {
    let x = mrd(s.mem, s.hl());
    let nr = add_r(x, 1, 0);
    CpuModel {
        reg: RegModel { f: f_szpac(s.reg.f, nr, add_ac(x, 1, 0)), ..s.reg },
        mem: mwr(s.mem, s.hl(), nr),
        ..s
    }
}

/// DCR M: as DCR on memory[HL].
pub open spec fn sem_dcr_m(s: CpuModel) -> CpuModel {
    let x = mrd(s.mem, s.hl());
    let nr = sub_r(x, 1, 0);
    CpuModel {
        reg: RegModel { f: f_szpac(s.reg.f, nr, sub_ac(x, 1, 0)), ..s.reg },
        mem: mwr(s.mem, s.hl(), nr),
        ..s
    }
}

/// INX rp: 16-bit wrapping +1, no flags.
pub open spec fn sem_inx(s: CpuModel, rp: Reg16) -> CpuModel {
    s.with_reg(s.reg.upd16(rp, winc(s.reg.sel16(rp), 1)))
}

/// DCX rp: 16-bit wrapping -1, no flags.
pub open spec fn sem_dcx(s: CpuModel, rp: Reg16) -> CpuModel {
    s.with_reg(s.reg.upd16(rp, winc(s.reg.sel16(rp), -1)))
}

/// DAD rp: HL + rp, 17-bit; only C changes.
pub open spec fn sem_dad(s: CpuModel, rp: Reg16) -> CpuModel {
    let sum = s.hl() + s.reg.sel16(rp);
    let nf = f_carry(s.reg.f, sum > 0xFFFF);
    s.with_reg(RegModel { f: nf, ..s.reg.upd16(Reg16::HL, (sum % 0x10000) as u16) })
}

/// RLC: rotate A left through itself; only C changes (the bit rotated out).
pub open spec fn sem_rlc(s: CpuModel) -> CpuModel {
    let a = s.reg.a;
    let na = ((a as int) % 128 * 2 + (a as int) / 128) as u8;
    s.with_reg(RegModel { a: na, f: f_carry(s.reg.f, a >= 128), ..s.reg })
}

/// RRC: rotate A right through itself; only C changes.
pub open spec fn sem_rrc(s: CpuModel) -> CpuModel {
    let a = s.reg.a;
    let na = ((a as int) / 2 + (a as int) % 2 * 128) as u8;
    s.with_reg(RegModel { a: na, f: f_carry(s.reg.f, a % 2 == 1), ..s.reg })
}

/// RAL: rotate A left through C (9-bit rotate).
pub open spec fn sem_ral(s: CpuModel) -> CpuModel {
    let a = s.reg.a;
    let na = ((a as int) % 128 * 2 + b2i(flag_c(s.reg.f))) as u8;
    s.with_reg(RegModel { a: na, f: f_carry(s.reg.f, a >= 128), ..s.reg })
}

/// RAR: rotate A right through C (9-bit rotate).
pub open spec fn sem_rar(s: CpuModel) -> CpuModel {
    let a = s.reg.a;
    let na = ((a as int) / 2 + b2i(flag_c(s.reg.f)) * 128) as u8;
    s.with_reg(RegModel { a: na, f: f_carry(s.reg.f, a % 2 == 1), ..s.reg })
}

/// CMA: complement A, no flags.
pub open spec fn sem_cma(s: CpuModel) -> CpuModel {
    s.with_reg(RegModel { a: (255 - s.reg.a) as u8, ..s.reg })
}

/// CMC: toggle C.
pub open spec fn sem_cmc(s: CpuModel) -> CpuModel {
    s.with_reg(RegModel { f: f_carry(s.reg.f, !flag_c(s.reg.f)), ..s.reg })
}

/// STC: set C.
pub open spec fn sem_stc(s: CpuModel) -> CpuModel {
    s.with_reg(RegModel { f: f_carry(s.reg.f, true), ..s.reg })
}

/// MOV dst,src; M on either side names memory[HL].  No flags.
pub open spec fn sem_mov(s: CpuModel, dest: Reg8, src: Reg8) -> CpuModel {
    if dest is M {
        CpuModel { mem: mwr(s.mem, s.hl(), s.reg.sel8(src)), ..s }
    } else if src is M {
        s.with_reg(s.reg.upd8(dest, mrd(s.mem, s.hl())))
    } else {
        s.with_reg(s.reg.upd8(dest, s.reg.sel8(src)))
    }
}

/// MVI r, imm8.
pub open spec fn sem_mvi(s: CpuModel, r: Reg8, v: u8) -> CpuModel {
    s.with_reg(s.reg.upd8(r, v))
}

/// MVI M, imm8.
pub open spec fn sem_mvi_m(s: CpuModel, v: u8) -> CpuModel {
    CpuModel { mem: mwr(s.mem, s.hl(), v), ..s }
}

/// LXI rp, imm16.
pub open spec fn sem_lxi(s: CpuModel, rp: Reg16, w: u16) -> CpuModel {
    s.with_reg(s.reg.upd16(rp, w))
}

/// LDA addr.
pub open spec fn sem_lda(s: CpuModel, addr: u16) -> CpuModel {
    s.with_reg(RegModel { a: mrd(s.mem, addr), ..s.reg })
}

/// STA addr.
pub open spec fn sem_sta(s: CpuModel, addr: u16) -> CpuModel {
    CpuModel { mem: mwr(s.mem, addr, s.reg.a), ..s }
}

/// LDAX rp (BC or DE).
pub open spec fn sem_ldax(s: CpuModel, rp: Reg16) -> CpuModel {
    s.with_reg(RegModel { a: mrd(s.mem, s.reg.sel16(rp)), ..s.reg })
}

/// STAX rp (BC or DE).
pub open spec fn sem_stax(s: CpuModel, rp: Reg16) -> CpuModel {
    CpuModel { mem: mwr(s.mem, s.reg.sel16(rp), s.reg.a), ..s }
}

/// LHLD addr: L from memory[addr], H from memory[addr+1].
pub open spec fn sem_lhld(s: CpuModel, addr: u16) -> CpuModel {
    s.with_reg(RegModel { l: mrd(s.mem, addr), h: mrd(s.mem, winc(addr, 1)), ..s.reg })
}

/// SHLD addr: the symmetric store.
pub open spec fn sem_shld(s: CpuModel, addr: u16) -> CpuModel {
    CpuModel { mem: mwr(mwr(s.mem, addr, s.reg.l), winc(addr, 1), s.reg.h), ..s }
}

/// Push a word: SP -= 2, then the word at the new SP.
pub open spec fn sem_push_word(s: CpuModel, w: u16) -> CpuModel {
    let nsp = winc(s.reg.sp, -2);
    CpuModel { reg: RegModel { sp: nsp, ..s.reg }, mem: mwr16(s.mem, nsp, w), ..s }
}

/// PUSH rp (PSW pushes A high, F low).
pub open spec fn sem_push(s: CpuModel, rp: Reg16) -> CpuModel {
    sem_push_word(s, s.reg.sel16(rp))
}

/// POP rp (POP PSW keeps only the defined flag positions of the low byte).
pub open spec fn sem_pop(s: CpuModel, rp: Reg16) -> CpuModel {
    let w = mrd16(s.mem, s.reg.sp);
    s.with_reg(RegModel { sp: winc(s.reg.sp, 2), ..s.reg.upd16(rp, w) })
}

/// XTHL: exchange (L, H) with memory[SP], memory[SP+1].
pub open spec fn sem_xthl(s: CpuModel) -> CpuModel {
    let sp = s.reg.sp;
    CpuModel {
        reg: RegModel { l: mrd(s.mem, sp), h: mrd(s.mem, winc(sp, 1)), ..s.reg },
        mem: mwr(mwr(s.mem, sp, s.reg.l), winc(sp, 1), s.reg.h),
        ..s
    }
}

/// XCHG: exchange DE and HL.
pub open spec fn sem_xchg(s: CpuModel) -> CpuModel {
    s.with_reg(RegModel { d: s.reg.h, e: s.reg.l, h: s.reg.d, l: s.reg.e, ..s.reg })
}

/// SPHL: SP from HL.
pub open spec fn sem_sphl(s: CpuModel) -> CpuModel {
    s.with_reg(RegModel { sp: s.hl(), ..s.reg })
}

/// PCHL: PC from HL (length 0: nothing is re-added).
pub open spec fn sem_pchl(s: CpuModel) -> CpuModel {
    s.with_reg(RegModel { pc: s.hl(), ..s.reg })
}

/// JMP (and taken conditional jumps).
pub open spec fn sem_jmp(s: CpuModel, target: u16) -> CpuModel {
    s.with_reg(RegModel { pc: target, ..s.reg })
}

/// CALL (and taken conditional calls): push the address after the 3-byte
/// instruction, then jump.
pub open spec fn sem_call(s: CpuModel, target: u16) -> CpuModel {
    sem_jmp(sem_push_word(s, winc(s.reg.pc, 3)), target)
}

/// RET (and taken conditional returns).
pub open spec fn sem_ret(s: CpuModel) -> CpuModel {
    s.with_reg(RegModel { pc: mrd16(s.mem, s.reg.sp), sp: winc(s.reg.sp, 2), ..s.reg })
}

/// RST: push the address of the following byte, jump to the vector.
pub open spec fn sem_rst(s: CpuModel, vector: u16) -> CpuModel {
    sem_jmp(sem_push_word(s, winc(s.reg.pc, 1)), vector)
}

/// EI: the simple immediate-effect model.
pub open spec fn sem_ei(s: CpuModel) -> CpuModel {
    CpuModel { ie: true, ..s }
}

/// DI.
pub open spec fn sem_di(s: CpuModel) -> CpuModel {
    CpuModel { ie: false, ..s }
}

/// Interrupt delivery between ticks: a no-op while disabled; otherwise clear
/// the latch, push PC, jump to vector 8*n.
pub open spec fn sem_interrupt(s: CpuModel, n: u16) -> CpuModel {
    if s.ie {
        let pushed = sem_push_word(s, s.reg.pc);
        CpuModel {
            reg: RegModel { pc: (8 * n) as u16, ..pushed.reg },
            mem: pushed.mem,
            ie: false,
            num_interrupts: (s.num_interrupts + 1) as u64,
        }
    } else {
        s
    }
}

// ---------------------------------------------------------------------------
// The port bus

pub open spec fn pow2(n: int) -> int
    decreases n,
{
    if n <= 0 { 1 } else { 2 * pow2(n - 1) }
}

/// Reading port 3 returns the window `[15-offset .. 8-offset]` of the 16-bit
/// shift value.
pub open spec fn shift_window(io: IoModel) -> u8 {
    (((io.shift1 * 256 + io.shift0) / pow2(8 - io.shift_amount)) % 256) as u8
}

pub open spec fn in_port_ok(port: u8) -> bool {
    port == 1 || port == 2 || port == 3
}

pub open spec fn out_port_ok(port: u8) -> bool {
    2 <= port <= 6
}

/// Reading port 1 forces its constant lines: bit 3 always reads 1 and
/// bit 7 always reads 0, whatever the latch holds.
pub open spec fn io_input(io: IoModel, port: u8) -> u8 {
    if port == 1 {
        (io.port1 | 8) & 0x7F
    } else if port == 2 {
        io.port2
    } else if port == 3 {
        shift_window(io)
    } else {
        0
    }
}

/// Output port 2 sets the shift offset (low 3 bits); port 4 shifts a new byte
/// in; ports 3, 5, 6 (sound, watchdog) are discarded.
pub open spec fn io_output(io: IoModel, port: u8, value: u8) -> IoModel {
    if port == 2 {
        IoModel { shift_amount: (value % 8) as u8, ..io }
    } else if port == 4 {
        IoModel { shift0: io.shift1, shift1: value, ..io }
    } else {
        io
    }
}

// ---------------------------------------------------------------------------
// Decode tables

/// Instruction length as a pure function of the opcode: the natural PC
/// advance whenever no branch is taken.
pub open spec fn instr_len(op: u8) -> int {
    if op == 0x01 || op == 0x11 || op == 0x21 || op == 0x31  // LXI
        || op == 0x22 || op == 0x2a || op == 0x32 || op == 0x3a  // SHLD LHLD STA LDA
        || op == 0xc3 || op == 0xcd  // JMP CALL
        || op == 0xc2 || op == 0xca || op == 0xd2 || op == 0xda  // conditional jumps
        || op == 0xe2 || op == 0xea || op == 0xf2 || op == 0xfa
        || op == 0xc4 || op == 0xcc || op == 0xd4 || op == 0xdc  // conditional calls
        || op == 0xe4 || op == 0xec || op == 0xf4 || op == 0xfc
    {
        3
    } else if op == 0x06 || op == 0x0e || op == 0x16 || op == 0x1e  // MVI
        || op == 0x26 || op == 0x2e || op == 0x36 || op == 0x3e
        || op == 0xc6 || op == 0xce || op == 0xd6 || op == 0xde  // immediate ALU
        || op == 0xe6 || op == 0xee || op == 0xf6 || op == 0xfe
        || op == 0xd3 || op == 0xdb  // OUT IN
    {
        2
    } else {
        1
    }
}

/// The condition tested by a conditional jump, call or return, read from the
/// low octal digit of the opcode: NZ Z NC C PO PE P M.
pub open spec fn cond_holds(f: u8, op: u8) -> bool {
    let sel = ((op as int) / 8) % 8;
    if sel == 0 { !flag_z(f) }
    else if sel == 1 { flag_z(f) }
    else if sel == 2 { !flag_c(f) }
    else if sel == 3 { flag_c(f) }
    else if sel == 4 { !flag_p(f) }
    else if sel == 5 { flag_p(f) }
    else if sel == 6 { !flag_s(f) }
    else { flag_s(f) }
}

pub open spec fn is_cond_jmp(op: u8) -> bool {
    op == 0xc2 || op == 0xca || op == 0xd2 || op == 0xda
        || op == 0xe2 || op == 0xea || op == 0xf2 || op == 0xfa
}

pub open spec fn is_cond_call(op: u8) -> bool {
    op == 0xc4 || op == 0xcc || op == 0xd4 || op == 0xdc
        || op == 0xe4 || op == 0xec || op == 0xf4 || op == 0xfc
}

pub open spec fn is_cond_ret(op: u8) -> bool {
    op == 0xc0 || op == 0xc8 || op == 0xd0 || op == 0xd8
        || op == 0xe0 || op == 0xe8 || op == 0xf0 || op == 0xf8
}

pub open spec fn is_rst(op: u8) -> bool {
    op == 0xc7 || op == 0xcf || op == 0xd7 || op == 0xdf
        || op == 0xe7 || op == 0xef || op == 0xf7 || op == 0xff
}

/// Whether this step overwrites PC instead of advancing it.
pub open spec fn takes_branch(s: CpuModel, op: u8) -> bool {
    if op == 0xc3 || op == 0xcd || op == 0xc9 || op == 0xe9 || is_rst(op) {
        true
    } else if is_cond_jmp(op) || is_cond_call(op) || is_cond_ret(op) {
        cond_holds(s.reg.f, op)
    } else {
        false
    }
}

/// Where a taken branch lands.
pub open spec fn branch_target(s: CpuModel, op: u8) -> u16 {
    if op == 0xc9 || is_cond_ret(op) {
        mrd16(s.mem, s.reg.sp)
    } else if op == 0xe9 {
        s.hl()
    } else if is_rst(op) {
        (8 * (((op as int) / 8) % 8)) as u16
    } else {
        mrd16(s.mem, winc(s.reg.pc, 1))
    }
}

// ---------------------------------------------------------------------------
// Dispatch

/// The immediate byte and word after the opcode at PC.
pub open spec fn imm8(s: CpuModel) -> u8 {
    mrd(s.mem, winc(s.reg.pc, 1))
}

pub open spec fn imm16(s: CpuModel) -> u16 {
    mrd16(s.mem, winc(s.reg.pc, 1))
}

/// The register operand order of the MOV and ALU blocks: B C D E H L M A.
pub open spec fn reg_code(n: int) -> Reg8 {
    if n == 0 { Reg8::B }
    else if n == 1 { Reg8::C }
    else if n == 2 { Reg8::D }
    else if n == 3 { Reg8::E }
    else if n == 4 { Reg8::H }
    else if n == 5 { Reg8::L }
    else if n == 6 { Reg8::M }
    else { Reg8::A }
}

/// Effect and cost of opcodes 0x00..0x3F (moves, 16-bit arithmetic, rotates,
/// flag operations; the undocumented slots and the DAA and HLT stubs are
/// 1-byte NOPs).
#[verifier::opaque]
pub open spec fn sem_op_misc(s: CpuModel, op: u8) -> (CpuModel, int, u16) {
    if op == 0x01 { (sem_lxi(s, Reg16::BC, imm16(s)), 3, 10) }
    else if op == 0x02 { (sem_stax(s, Reg16::BC), 1, 7) }
    else if op == 0x03 { (sem_inx(s, Reg16::BC), 1, 5) }
    else if op == 0x04 { (sem_inr(s, Reg8::B), 1, 5) }
    else if op == 0x05 { (sem_dcr(s, Reg8::B), 1, 5) }
    else if op == 0x06 { (sem_mvi(s, Reg8::B, imm8(s)), 2, 7) }
    else if op == 0x07 { (sem_rlc(s), 1, 4) }
    else if op == 0x09 { (sem_dad(s, Reg16::BC), 1, 10) }
    else if op == 0x0a { (sem_ldax(s, Reg16::BC), 1, 7) }
    else if op == 0x0b { (sem_dcx(s, Reg16::BC), 1, 5) }
    else if op == 0x0c { (sem_inr(s, Reg8::C), 1, 5) }
    else if op == 0x0d { (sem_dcr(s, Reg8::C), 1, 5) }
    else if op == 0x0e { (sem_mvi(s, Reg8::C, imm8(s)), 2, 7) }
    else if op == 0x0f { (sem_rrc(s), 1, 4) }
    else if op == 0x11 { (sem_lxi(s, Reg16::DE, imm16(s)), 3, 10) }
    else if op == 0x12 { (sem_stax(s, Reg16::DE), 1, 7) }
    else if op == 0x13 { (sem_inx(s, Reg16::DE), 1, 5) }
    else if op == 0x14 { (sem_inr(s, Reg8::D), 1, 5) }
    else if op == 0x15 { (sem_dcr(s, Reg8::D), 1, 5) }
    else if op == 0x16 { (sem_mvi(s, Reg8::D, imm8(s)), 2, 7) }
    else if op == 0x17 { (sem_ral(s), 1, 4) }
    else if op == 0x19 { (sem_dad(s, Reg16::DE), 1, 10) }
    else if op == 0x1a { (sem_ldax(s, Reg16::DE), 1, 7) }
    else if op == 0x1b { (sem_dcx(s, Reg16::DE), 1, 5) }
    else if op == 0x1c { (sem_inr(s, Reg8::E), 1, 5) }
    else if op == 0x1d { (sem_dcr(s, Reg8::E), 1, 5) }
    else if op == 0x1e { (sem_mvi(s, Reg8::E, imm8(s)), 2, 7) }
    else if op == 0x1f { (sem_rar(s), 1, 4) }
    else if op == 0x21 { (sem_lxi(s, Reg16::HL, imm16(s)), 3, 10) }
    else if op == 0x22 { (sem_shld(s, imm16(s)), 3, 16) }
    else if op == 0x23 { (sem_inx(s, Reg16::HL), 1, 5) }
    else if op == 0x24 { (sem_inr(s, Reg8::H), 1, 5) }
    else if op == 0x25 { (sem_dcr(s, Reg8::H), 1, 5) }
    else if op == 0x26 { (sem_mvi(s, Reg8::H, imm8(s)), 2, 7) }
    else if op == 0x29 { (sem_dad(s, Reg16::HL), 1, 10) }
    else if op == 0x2a { (sem_lhld(s, imm16(s)), 3, 16) }
    else if op == 0x2b { (sem_dcx(s, Reg16::HL), 1, 5) }
    else if op == 0x2c { (sem_inr(s, Reg8::L), 1, 5) }
    else if op == 0x2d { (sem_dcr(s, Reg8::L), 1, 5) }
    else if op == 0x2e { (sem_mvi(s, Reg8::L, imm8(s)), 2, 7) }
    else if op == 0x2f { (sem_cma(s), 1, 4) }
    else if op == 0x31 { (sem_lxi(s, Reg16::SP, imm16(s)), 3, 10) }
    else if op == 0x32 { (sem_sta(s, imm16(s)), 3, 13) }
    else if op == 0x33 { (sem_inx(s, Reg16::SP), 1, 5) }
    else if op == 0x34 { (sem_inr_m(s), 1, 10) }
    else if op == 0x35 { (sem_dcr_m(s), 1, 10) }
    else if op == 0x36 { (sem_mvi_m(s, imm8(s)), 2, 10) }
    else if op == 0x37 { (sem_stc(s), 1, 4) }
    else if op == 0x39 { (sem_dad(s, Reg16::SP), 1, 10) }
    else if op == 0x3a { (sem_lda(s, imm16(s)), 3, 13) }
    else if op == 0x3b { (sem_dcx(s, Reg16::SP), 1, 5) }
    else if op == 0x3c { (sem_inr(s, Reg8::A), 1, 5) }
    else if op == 0x3d { (sem_dcr(s, Reg8::A), 1, 5) }
    else if op == 0x3e { (sem_mvi(s, Reg8::A, imm8(s)), 2, 7) }
    else if op == 0x3f { (sem_cmc(s), 1, 4) }
    else { (s, 1, 4) }  // NOP, the undocumented duplicates, DAA stub
}

/// Effect and cost of the MOV matrix 0x40..0x7F, with HLT (0x76) stubbed as
/// a NOP.
#[verifier::opaque]
pub open spec fn sem_op_mov(s: CpuModel, op: u8) -> (CpuModel, int, u16) {
    if op == 0x76 {
        (s, 1, 4)
    } else {
        let dest = reg_code(((op as int) - 0x40) / 8);
        let src = reg_code((op as int) % 8);
        let cyc: u16 = if dest is M || src is M { 7 } else { 5 };
        (sem_mov(s, dest, src), 1, cyc)
    }
}

/// Effect and cost of the ALU matrix 0x80..0xBF: ADD ADC SUB SBB ANA XRA ORA
/// CMP, each over B C D E H L M A.
#[verifier::opaque]
pub open spec fn sem_op_alu(s: CpuModel, op: u8) -> (CpuModel, int, u16) {
    let src = reg_code((op as int) % 8);
    let v = if src is M { mrd(s.mem, s.hl()) } else { s.reg.sel8(src) };
    let cyc: u16 = if src is M { 7 } else { 4 };
    let grp = ((op as int) - 0x80) / 8;
    let ns = if grp == 0 { sem_add(s, v, false) }
        else if grp == 1 { sem_add(s, v, true) }
        else if grp == 2 { sem_sub(s, v, false) }
        else if grp == 3 { sem_sub(s, v, true) }
        else if grp == 4 { sem_ana(s, v) }
        else if grp == 5 { sem_xra(s, v) }
        else if grp == 6 { sem_ora(s, v) }
        else { sem_cmp(s, v) };
    (ns, 1, cyc)
}

/// Effect and cost of opcodes 0xC0..0xFF: branches, stack, immediates, I/O.
#[verifier::opaque]
pub open spec fn sem_op_ctl(s: CpuModel, io: IoModel, op: u8) -> (CpuModel, IoModel, int, u16) {
    if is_cond_ret(op) {
        if cond_holds(s.reg.f, op) { (sem_ret(s), io, 0, 11) } else { (s, io, 1, 5) }
    } else if is_cond_jmp(op) {
        if cond_holds(s.reg.f, op) { (sem_jmp(s, imm16(s)), io, 0, 10) } else { (s, io, 3, 10) }
    } else if is_cond_call(op) {
        if cond_holds(s.reg.f, op) { (sem_call(s, imm16(s)), io, 0, 17) } else { (s, io, 3, 11) }
    } else if is_rst(op) {
        (sem_rst(s, (8 * (((op as int) / 8) % 8)) as u16), io, 0, 11)
    } else if op == 0xc1 { (sem_pop(s, Reg16::BC), io, 1, 10) }
    else if op == 0xc3 { (sem_jmp(s, imm16(s)), io, 0, 10) }
    else if op == 0xc5 { (sem_push(s, Reg16::BC), io, 1, 11) }
    else if op == 0xc6 { (sem_add(s, imm8(s), false), io, 2, 7) }
    else if op == 0xc9 { (sem_ret(s), io, 0, 10) }
    else if op == 0xcd { (sem_call(s, imm16(s)), io, 0, 17) }
    else if op == 0xce { (sem_add(s, imm8(s), true), io, 2, 7) }
    else if op == 0xd1 { (sem_pop(s, Reg16::DE), io, 1, 10) }
    else if op == 0xd3 { (s, io_output(io, imm8(s), s.reg.a), 2, 10) }
    else if op == 0xd5 { (sem_push(s, Reg16::DE), io, 1, 11) }
    else if op == 0xd6 { (sem_sub(s, imm8(s), false), io, 2, 7) }
    else if op == 0xdb { (s.with_reg(RegModel { a: io_input(io, imm8(s)), ..s.reg }), io, 2, 10) }
    else if op == 0xde { (sem_sub(s, imm8(s), true), io, 2, 7) }
    else if op == 0xe1 { (sem_pop(s, Reg16::HL), io, 1, 10) }
    else if op == 0xe3 { (sem_xthl(s), io, 1, 18) }
    else if op == 0xe5 { (sem_push(s, Reg16::HL), io, 1, 11) }
    else if op == 0xe6 { (sem_ana(s, imm8(s)), io, 2, 7) }
    else if op == 0xe9 { (sem_pchl(s), io, 0, 5) }
    else if op == 0xeb { (sem_xchg(s), io, 1, 5) }
    else if op == 0xee { (sem_xra(s, imm8(s)), io, 2, 7) }
    else if op == 0xf1 { (sem_pop(s, Reg16::PSW), io, 1, 10) }
    else if op == 0xf3 { (sem_di(s), io, 1, 4) }
    else if op == 0xf5 { (sem_push(s, Reg16::PSW), io, 1, 11) }
    else if op == 0xf6 { (sem_ora(s, imm8(s)), io, 2, 7) }
    else if op == 0xf9 { (sem_sphl(s), io, 1, 5) }
    else if op == 0xfb { (sem_ei(s), io, 1, 4) }
    else if op == 0xfe { (sem_cmp(s, imm8(s)), io, 2, 7) }
    else { (s, io, 1, 4) }  // the undocumented duplicates 0xCB 0xD9 0xDD 0xED 0xFD
}

/// One instruction's full effect (PC advance excluded) with its natural
/// length and cycle cost.
pub open spec fn sem_dispatch(s: CpuModel, io: IoModel, op: u8) -> (CpuModel, IoModel, int, u16) {
    if op < 0x40 {
        let (ns, len, cyc) = sem_op_misc(s, op);
        (ns, io, len, cyc)
    } else if op < 0x80 {
        let (ns, len, cyc) = sem_op_mov(s, op);
        (ns, io, len, cyc)
    } else if op < 0xc0 {
        let (ns, len, cyc) = sem_op_alu(s, op);
        (ns, io, len, cyc)
    } else {
        sem_op_ctl(s, io, op)
    }
}

/// Executing `op` against the state `s` and bus `io`: the dispatch effect,
/// then PC advanced by the remaining length.  Returns the new processor, the
/// new bus, and the cycle cost.
pub open spec fn spec_execute(s: CpuModel, io: IoModel, op: u8) -> (CpuModel, IoModel, u16) {
    let (s1, io1, len, cyc) = sem_dispatch(s, io, op);
    (s1.with_reg(RegModel { pc: winc(s1.reg.pc, len), ..s1.reg }), io1, cyc)
}

/// One `tick`: fetch the opcode at PC and execute it.
pub open spec fn spec_step(s: CpuModel, io: IoModel) -> (CpuModel, IoModel, u16) {
    spec_execute(s, io, mrd(s.mem, s.reg.pc))
}

/// `IN` and `OUT` hand their immediate byte to the bus, which panics on a
/// port it does not serve; a step is safe when the ports named by the
/// instruction at PC (if any) are ones the cabinet wires up.
pub open spec fn step_ports_ok(s: CpuModel) -> bool {
    let op = mrd(s.mem, s.reg.pc);
    &&& op == 0xdb ==> in_port_ok(imm8(s))
    &&& op == 0xd3 ==> out_port_ok(imm8(s))
}

} // verus!
