//! The 8080 interpreter.  `tick` fetches the opcode at PC, dispatches it,
//! mutates register, flag, memory and bus state, advances PC by the
//! instruction length and reports the cycle cost — and is proved equal to
//! the one-step transition `spec_step` of the ghost model.

use vstd::prelude::*;
use vstd::string::StringExecFns;
use crate::model::{
    CpuModel, RegModel, flag_c, parity_of, f_arith, f_szpac, winc, mrd, mrd16, mwr16,
    sem_add, sem_sub, sem_cmp, sem_ana, sem_xra, sem_ora,
    sem_inr, sem_dcr, sem_inr_m, sem_dcr_m, sem_inx, sem_dcx, sem_dad,
    sem_rlc, sem_rrc, sem_ral, sem_rar, sem_cma, sem_cmc, sem_stc,
    sem_mov, sem_mvi, sem_mvi_m, sem_lxi, sem_lda, sem_sta, sem_ldax, sem_stax,
    sem_lhld, sem_shld,
    sem_push, sem_pop, sem_xthl, sem_xchg, sem_sphl, sem_pchl,
    sem_jmp, sem_call, sem_ret, sem_rst, sem_ei, sem_di, sem_interrupt,
    in_port_ok, out_port_ok, imm8, imm16, reg_code,
    sem_op_misc, sem_op_mov, sem_op_alu, sem_op_ctl,
    spec_execute, spec_step, step_ports_ok, instr_len, takes_branch, branch_target,
    hi8, lo8,
};
use crate::register::{Register, Reg8, Reg16, Flag, flags_chars};
use crate::memory::Memory;
use crate::invaders::SpaceInvadersIO;

verus! {

pub struct CPU {
    pub reg: Register,
    pub memory: Memory,
    pub interrupts_enabled: bool,
    pub num_interrupts: u64,
}

impl View for CPU {
    type V = CpuModel;

    open spec fn view(&self) -> CpuModel {
        CpuModel {
            reg: self.reg@,
            mem: self.memory.contents(),
            ie: self.interrupts_enabled,
            num_interrupts: self.num_interrupts,
        }
    }
}

/// Even parity of a byte, computed bit by bit.
fn parity_even(x: u8) -> (b: bool)
    ensures
        b == parity_of(x),
{
    let t: u8 = x % 2 + (x / 2) % 2 + (x / 4) % 2 + (x / 8) % 2 + (x / 16) % 2 + (x / 32) % 2
        + (x / 64) % 2 + (x / 128) % 2;
    t % 2 == 0
}

impl CPU {
    /// Power-up state: zero memory, clear registers, interrupts disabled.
    pub fn new() -> (cpu: CPU)
        ensures
            cpu@ == (CpuModel {
                reg: RegModel { a: 0, b: 0, c: 0, d: 0, e: 0, h: 0, l: 0, f: 2, sp: 0, pc: 0 },
                mem: Seq::new(0x10000, |i: int| 0u8),
                ie: false,
                num_interrupts: 0,
            }),
    {
        CPU {
            reg: Register::new(),
            memory: Memory::new(),
            interrupts_enabled: false,
            num_interrupts: 0,
        }
    }

    /// The opcode at PC.
    pub fn fetch(&self) -> (op: u8)
        ensures
            op == mrd(self@.mem, self@.reg.pc),
    {
        self.memory.get(self.reg.get16(Reg16::PC))
    }
}

impl CPU { // Helper functions
    pub fn read_byte_at_address(&self, address: u16) -> (v: u8)
        ensures
            v == mrd(self@.mem, address),
    {
        self.memory.get(address)
    }

    pub fn read_word_at_address(&self, address: u16) -> (w: u16)
        ensures
            w == mrd16(self@.mem, address),
    {
        let lo = self.memory.get(address);
        let hi = self.memory.get(address.wrapping_add(1));
        (hi as u16) * 256 + (lo as u16)
    }

    pub fn read_byte_immediate(&self) -> (v: u8)
        ensures
            v == imm8(self@),
    {
        self.read_byte_at_address(self.reg.get16(Reg16::PC).wrapping_add(1))
    }

    pub fn read_bytes_immediate(&self) -> (r: (u8, u8))
        ensures
            r.0 == imm8(self@),
            r.1 == mrd(self@.mem, winc(self@.reg.pc, 2)),
    {
        let pc = self.reg.get16(Reg16::PC);
        (self.read_byte_at_address(pc.wrapping_add(1)), self.read_byte_at_address(pc.wrapping_add(2)))
    }

    pub fn read_word_immediate(&self) -> (w: u16)
        ensures
            w == imm16(self@),
    {
        self.read_word_at_address(self.reg.get16(Reg16::PC).wrapping_add(1))
    }

    pub fn write_word_to_memory(&mut self, address: u16, word: u16)
        ensures
            final(self)@ == (CpuModel { mem: mwr16(old(self)@.mem, address, word), ..old(self)@ }),
    {
        self.memory.set(address, (word % 256) as u8);
        self.memory.set(address.wrapping_add(1), (word / 256) as u8);
    }

    /// Set all five flags: S, Z, P from the result, C and AC as given.
    fn set_flags_on_result(&mut self, result: u8, carry: bool, aux: bool)
        ensures
            final(self)@ == (CpuModel {
                reg: RegModel { f: f_arith(result, carry, aux), ..old(self)@.reg },
                ..old(self)@
            }),
    {
        let p = parity_even(result);
        self.reg.set_flags(result >= 128, result == 0, aux, p, carry);
    }

    /// Set S, Z, P from the result and AC as given; C is kept (INR/DCR).
    fn set_zspac_flags_on_byte(&mut self, byte: u8, aux: bool)
        ensures
            final(self)@ == (CpuModel {
                reg: RegModel { f: f_szpac(old(self)@.reg.f, byte, aux), ..old(self)@.reg },
                ..old(self)@
            }),
    {
        let p = parity_even(byte);
        let c = self.reg.get_flag(Flag::Carry);
        self.reg.set_flags(byte >= 128, byte == 0, aux, p, c);
    }
}

impl CPU { // ARITHMETIC GROUP
    fn add(&mut self, byte: u8)
        ensures
            final(self)@ == sem_add(old(self)@, byte, false),
    {
        let a = self.reg.get8(Reg8::A);
        let sum: u16 = a as u16 + byte as u16;
        let r = (sum % 256) as u8;
        let ac = a % 16 + byte % 16 > 15;
        self.set_flags_on_result(r, sum > 255, ac);
        self.reg.set8(Reg8::A, r);
    }

    fn adc(&mut self, byte: u8)
        ensures
            final(self)@ == sem_add(old(self)@, byte, true),
    {
        let a = self.reg.get8(Reg8::A);
        let cin: u8 = if self.reg.get_flag(Flag::Carry) { 1 } else { 0 };
        let sum: u16 = a as u16 + byte as u16 + cin as u16;
        let r = (sum % 256) as u8;
        let ac = a % 16 + byte % 16 + cin > 15;
        self.set_flags_on_result(r, sum > 255, ac);
        self.reg.set8(Reg8::A, r);
    }

    fn sub(&mut self, byte: u8)
        ensures
            final(self)@ == sem_sub(old(self)@, byte, false),
    {
        let a = self.reg.get8(Reg8::A);
        let r = ((a as u16 + 256 - byte as u16) % 256) as u8;
        let ac = !(a % 16 < byte % 16);
        self.set_flags_on_result(r, a < byte, ac);
        self.reg.set8(Reg8::A, r);
    }

    fn sbb(&mut self, byte: u8)
        ensures
            final(self)@ == sem_sub(old(self)@, byte, true),
    {
        let a = self.reg.get8(Reg8::A);
        let cin: u8 = if self.reg.get_flag(Flag::Carry) { 1 } else { 0 };
        let r = ((a as u16 + 256 - byte as u16 - cin as u16) % 256) as u8;
        let ac = !(a % 16 < byte % 16 + cin);
        self.set_flags_on_result(r, (a as u16) < byte as u16 + cin as u16, ac);
        self.reg.set8(Reg8::A, r);
    }

    fn inr(&mut self, x: Reg8)
        requires
            !(x is M),
            !(x is F),
        ensures
            final(self)@ == sem_inr(old(self)@, x),
    {
        let v = self.reg.get8(x);
        let nr = ((v as u16 + 1) % 256) as u8;
        let ac = v % 16 + 1 > 15;
        self.reg.set8(x, nr);
        self.set_zspac_flags_on_byte(nr, ac);
    }

    fn inr_m(&mut self)
        ensures
            final(self)@ == sem_inr_m(old(self)@),
    {
        let addr = self.reg.get16(Reg16::HL);
        let v = self.memory.get(addr);
        let nr = ((v as u16 + 1) % 256) as u8;
        let ac = v % 16 + 1 > 15;
        self.memory.set(addr, nr);
        self.set_zspac_flags_on_byte(nr, ac);
    }

    fn dcr(&mut self, x: Reg8)
        requires
            !(x is M),
            !(x is F),
        ensures
            final(self)@ == sem_dcr(old(self)@, x),
    {
        let v = self.reg.get8(x);
        let nr = ((v as u16 + 255) % 256) as u8;
        let ac = !(v % 16 < 1);
        self.reg.set8(x, nr);
        self.set_zspac_flags_on_byte(nr, ac);
    }

    fn dcr_m(&mut self)
        ensures
            final(self)@ == sem_dcr_m(old(self)@),
    {
        let addr = self.reg.get16(Reg16::HL);
        let v = self.memory.get(addr);
        let nr = ((v as u16 + 255) % 256) as u8;
        let ac = !(v % 16 < 1);
        self.memory.set(addr, nr);
        self.set_zspac_flags_on_byte(nr, ac);
    }

    #[verifier::rlimit(30)]
    fn inx(&mut self, x: Reg16)
        ensures
            final(self)@ == sem_inx(old(self)@, x),
    {
        let v = self.reg.get16(x);
        self.reg.set16(x, v.wrapping_add(1));
    }

    #[verifier::rlimit(30)]
    fn dcx(&mut self, x: Reg16)
        ensures
            final(self)@ == sem_dcx(old(self)@, x),
    {
        let v = self.reg.get16(x);
        let nv = v.wrapping_sub(1);
        proof {
            assert(nv == winc(v, -1));
        }
        self.reg.set16(x, nv);
    }

    fn dad(&mut self, x: Reg16)
        ensures
            final(self)@ == sem_dad(old(self)@, x),
    {
        let hl = self.reg.get16(Reg16::HL);
        let v = self.reg.get16(x);
        let sum: u32 = hl as u32 + v as u32;
        self.reg.set16(Reg16::HL, (sum % 0x10000) as u16);
        self.reg.set_flag(Flag::Carry, sum > 0xFFFF);
    }

    fn adi(&mut self)
        ensures
            final(self)@ == sem_add(old(self)@, imm8(old(self)@), false),
    {
        let v = self.read_byte_immediate();
        self.add(v);
    }

    fn aci(&mut self)
        ensures
            final(self)@ == sem_add(old(self)@, imm8(old(self)@), true),
    {
        let v = self.read_byte_immediate();
        self.adc(v);
    }

    fn sui(&mut self)
        ensures
            final(self)@ == sem_sub(old(self)@, imm8(old(self)@), false),
    {
        let v = self.read_byte_immediate();
        self.sub(v);
    }

    fn sbi(&mut self)
        ensures
            final(self)@ == sem_sub(old(self)@, imm8(old(self)@), true),
    {
        let v = self.read_byte_immediate();
        self.sbb(v);
    }
}

impl CPU { // LOGICAL GROUP
    fn ana(&mut self, byte: u8)
        ensures
            final(self)@ == sem_ana(old(self)@, byte),
    {
        let a = self.reg.get8(Reg8::A);
        let r = a & byte;
        let t = a | byte;
        let ac = (t / 8) % 2 == 1;
        self.set_flags_on_result(r, false, ac);
        self.reg.set8(Reg8::A, r);
    }

    fn xra(&mut self, byte: u8)
        ensures
            final(self)@ == sem_xra(old(self)@, byte),
    {
        let a = self.reg.get8(Reg8::A);
        let r = a ^ byte;
        self.set_flags_on_result(r, false, false);
        self.reg.set8(Reg8::A, r);
    }

    fn ora(&mut self, byte: u8)
        ensures
            final(self)@ == sem_ora(old(self)@, byte),
    {
        let a = self.reg.get8(Reg8::A);
        let r = a | byte;
        self.set_flags_on_result(r, false, false);
        self.reg.set8(Reg8::A, r);
    }

    fn cmp(&mut self, byte: u8)
        ensures
            final(self)@ == sem_cmp(old(self)@, byte),
    {
        let a = self.reg.get8(Reg8::A);
        let r = ((a as u16 + 256 - byte as u16) % 256) as u8;
        let ac = !(a % 16 < byte % 16);
        self.set_flags_on_result(r, a < byte, ac);
    }

    fn cma(&mut self)
        ensures
            final(self)@ == sem_cma(old(self)@),
    {
        let a = self.reg.get8(Reg8::A);
        self.reg.set8(Reg8::A, 255 - a);
    }

    fn cmc(&mut self)
        ensures
            final(self)@ == sem_cmc(old(self)@),
    {
        let c = self.reg.get_flag(Flag::Carry);
        self.reg.set_flag(Flag::Carry, !c);
    }

    fn stc(&mut self)
        ensures
            final(self)@ == sem_stc(old(self)@),
    {
        self.reg.set_flag(Flag::Carry, true);
    }

    fn rlc(&mut self)
        ensures
            final(self)@ == sem_rlc(old(self)@),
    {
        let a = self.reg.get8(Reg8::A);
        self.reg.set8(Reg8::A, (a % 128) * 2 + a / 128);
        self.reg.set_flag(Flag::Carry, a >= 128);
    }

    fn rrc(&mut self)
        ensures
            final(self)@ == sem_rrc(old(self)@),
    {
        let a = self.reg.get8(Reg8::A);
        self.reg.set8(Reg8::A, a / 2 + (a % 2) * 128);
        self.reg.set_flag(Flag::Carry, a % 2 == 1);
    }

    fn ral(&mut self)
        ensures
            final(self)@ == sem_ral(old(self)@),
    {
        let a = self.reg.get8(Reg8::A);
        let cin: u8 = if self.reg.get_flag(Flag::Carry) { 1 } else { 0 };
        self.reg.set8(Reg8::A, (a % 128) * 2 + cin);
        self.reg.set_flag(Flag::Carry, a >= 128);
    }

    fn rar(&mut self)
        ensures
            final(self)@ == sem_rar(old(self)@),
    {
        let a = self.reg.get8(Reg8::A);
        let cin: u8 = if self.reg.get_flag(Flag::Carry) { 1 } else { 0 };
        self.reg.set8(Reg8::A, a / 2 + cin * 128);
        self.reg.set_flag(Flag::Carry, a % 2 == 1);
    }

    fn ani(&mut self)
        ensures
            final(self)@ == sem_ana(old(self)@, imm8(old(self)@)),
    {
        let v = self.read_byte_immediate();
        self.ana(v);
    }

    fn xri(&mut self)
        ensures
            final(self)@ == sem_xra(old(self)@, imm8(old(self)@)),
    {
        let v = self.read_byte_immediate();
        self.xra(v);
    }

    fn ori(&mut self)
        ensures
            final(self)@ == sem_ora(old(self)@, imm8(old(self)@)),
    {
        let v = self.read_byte_immediate();
        self.ora(v);
    }

    fn cpi(&mut self)
        ensures
            final(self)@ == sem_cmp(old(self)@, imm8(old(self)@)),
    {
        let v = self.read_byte_immediate();
        self.cmp(v);
    }
}

impl CPU { // DATA TRANSFER GROUP
    fn mov(&mut self, dest: Reg8, src: Reg8) -> (r: (u16, u16))
        requires
            !(dest is M && src is M),
        ensures
            final(self)@ == sem_mov(old(self)@, dest, src),
            r == (1u16, if dest is M || src is M { 7u16 } else { 5u16 }),
    {
        if matches!(dest, Reg8::M) {
            let v = self.reg.get8(src);
            let addr = self.reg.get16(Reg16::HL);
            self.memory.set(addr, v);
            (1, 7)
        } else if matches!(src, Reg8::M) {
            let addr = self.reg.get16(Reg16::HL);
            let v = self.memory.get(addr);
            self.reg.set8(dest, v);
            (1, 7)
        } else {
            let v = self.reg.get8(src);
            self.reg.set8(dest, v);
            (1, 5)
        }
    }

    fn mvi(&mut self, x: Reg8)
        requires
            !(x is M),
        ensures
            final(self)@ == sem_mvi(old(self)@, x, imm8(old(self)@)),
    {
        let v = self.read_byte_immediate();
        self.reg.set8(x, v);
    }

    fn mvi_m(&mut self)
        ensures
            final(self)@ == sem_mvi_m(old(self)@, imm8(old(self)@)),
    {
        let v = self.read_byte_immediate();
        let addr = self.reg.get16(Reg16::HL);
        self.memory.set(addr, v);
    }

    fn lda(&mut self)
        ensures
            final(self)@ == sem_lda(old(self)@, imm16(old(self)@)),
    {
        let addr = self.read_word_immediate();
        let v = self.memory.get(addr);
        self.reg.set8(Reg8::A, v);
    }

    fn ldax(&mut self, x: Reg16)
        ensures
            final(self)@ == sem_ldax(old(self)@, x),
    {
        let addr = self.reg.get16(x);
        let v = self.memory.get(addr);
        self.reg.set8(Reg8::A, v);
    }

    fn shld(&mut self)
        ensures
            final(self)@ == sem_shld(old(self)@, imm16(old(self)@)),
    {
        let address = self.read_word_immediate();
        let l = self.reg.get8(Reg8::L);
        let h = self.reg.get8(Reg8::H);
        self.memory.set(address, l);
        self.memory.set(address.wrapping_add(1), h);
    }

    fn lhld(&mut self)
        ensures
            final(self)@ == sem_lhld(old(self)@, imm16(old(self)@)),
    {
        let address = self.read_word_immediate();
        let lv = self.read_byte_at_address(address);
        let hv = self.read_byte_at_address(address.wrapping_add(1));
        self.reg.set8(Reg8::L, lv);
        self.reg.set8(Reg8::H, hv);
    }

    fn lxi(&mut self, x: Reg16)
        ensures
            final(self)@ == sem_lxi(old(self)@, x, imm16(old(self)@)),
    {
        let w = self.read_word_immediate();
        self.reg.set16(x, w);
    }

    fn stax(&mut self, x: Reg16)
        ensures
            final(self)@ == sem_stax(old(self)@, x),
    {
        let addr = self.reg.get16(x);
        let a = self.reg.get8(Reg8::A);
        self.memory.set(addr, a);
    }

    fn sta(&mut self)
        ensures
            final(self)@ == sem_sta(old(self)@, imm16(old(self)@)),
    {
        let address = self.read_word_immediate();
        let a = self.reg.get8(Reg8::A);
        self.memory.set(address, a);
    }
}

impl CPU { // BRANCH GROUP
    #[verifier::rlimit(30)]
    fn call(&mut self)
        ensures
            final(self)@ == sem_call(old(self)@, imm16(old(self)@)),
    {
        let target = self.read_word_immediate();
        let pc = self.reg.get16(Reg16::PC);
        let sp = self.reg.get16(Reg16::SP).wrapping_sub(2);
        self.reg.set16(Reg16::SP, sp);
        self.write_word_to_memory(sp, pc.wrapping_add(3));
        self.reg.set16(Reg16::PC, target);
    }

    fn cc(&mut self) -> (r: (u16, u16))
        ensures
            flag_c(old(self)@.reg.f) ==> final(self)@ == sem_call(old(self)@, imm16(old(self)@))
                && r == (0u16, 17u16),
            !flag_c(old(self)@.reg.f) ==> final(self)@ == old(self)@ && r == (3u16, 11u16),
    {
        if self.reg.get_flag(Flag::Carry) {
            self.call();
            (0, 17)
        } else {
            (3, 11)
        }
    }

    fn cnc(&mut self) -> (r: (u16, u16))
        ensures
            !flag_c(old(self)@.reg.f) ==> final(self)@ == sem_call(old(self)@, imm16(old(self)@))
                && r == (0u16, 17u16),
            flag_c(old(self)@.reg.f) ==> final(self)@ == old(self)@ && r == (3u16, 11u16),
    {
        if !self.reg.get_flag(Flag::Carry) {
            self.call();
            (0, 17)
        } else {
            (3, 11)
        }
    }

    fn cp(&mut self) -> (r: (u16, u16))
        ensures
            !crate::model::flag_s(old(self)@.reg.f) ==> final(self)@ == sem_call(
                old(self)@,
                imm16(old(self)@),
            ) && r == (0u16, 17u16),
            crate::model::flag_s(old(self)@.reg.f) ==> final(self)@ == old(self)@ && r == (
                3u16,
                11u16,
            ),
    {
        if !self.reg.get_flag(Flag::Sign) {
            self.call();
            (0, 17)
        } else {
            (3, 11)
        }
    }

    fn cm(&mut self) -> (r: (u16, u16))
        ensures
            crate::model::flag_s(old(self)@.reg.f) ==> final(self)@ == sem_call(
                old(self)@,
                imm16(old(self)@),
            ) && r == (0u16, 17u16),
            !crate::model::flag_s(old(self)@.reg.f) ==> final(self)@ == old(self)@ && r == (
                3u16,
                11u16,
            ),
    {
        if self.reg.get_flag(Flag::Sign) {
            self.call();
            (0, 17)
        } else {
            (3, 11)
        }
    }

    fn cz(&mut self) -> (r: (u16, u16))
        ensures
            crate::model::flag_z(old(self)@.reg.f) ==> final(self)@ == sem_call(
                old(self)@,
                imm16(old(self)@),
            ) && r == (0u16, 17u16),
            !crate::model::flag_z(old(self)@.reg.f) ==> final(self)@ == old(self)@ && r == (
                3u16,
                11u16,
            ),
    {
        if self.reg.get_flag(Flag::Zero) {
            self.call();
            (0, 17)
        } else {
            (3, 11)
        }
    }

    fn cnz(&mut self) -> (r: (u16, u16))
        ensures
            !crate::model::flag_z(old(self)@.reg.f) ==> final(self)@ == sem_call(
                old(self)@,
                imm16(old(self)@),
            ) && r == (0u16, 17u16),
            crate::model::flag_z(old(self)@.reg.f) ==> final(self)@ == old(self)@ && r == (
                3u16,
                11u16,
            ),
    {
        if !self.reg.get_flag(Flag::Zero) {
            self.call();
            (0, 17)
        } else {
            (3, 11)
        }
    }

    fn cpe(&mut self) -> (r: (u16, u16))
        ensures
            crate::model::flag_p(old(self)@.reg.f) ==> final(self)@ == sem_call(
                old(self)@,
                imm16(old(self)@),
            ) && r == (0u16, 17u16),
            !crate::model::flag_p(old(self)@.reg.f) ==> final(self)@ == old(self)@ && r == (
                3u16,
                11u16,
            ),
    {
        if self.reg.get_flag(Flag::Parity) {
            self.call();
            (0, 17)
        } else {
            (3, 11)
        }
    }

    fn cpo(&mut self) -> (r: (u16, u16))
        ensures
            !crate::model::flag_p(old(self)@.reg.f) ==> final(self)@ == sem_call(
                old(self)@,
                imm16(old(self)@),
            ) && r == (0u16, 17u16),
            crate::model::flag_p(old(self)@.reg.f) ==> final(self)@ == old(self)@ && r == (
                3u16,
                11u16,
            ),
    {
        if !self.reg.get_flag(Flag::Parity) {
            self.call();
            (0, 17)
        } else {
            (3, 11)
        }
    }

    fn ret(&mut self)
        ensures
            final(self)@ == sem_ret(old(self)@),
    {
        let sp = self.reg.get16(Reg16::SP);
        let target = self.read_word_at_address(sp);
        self.reg.set16(Reg16::PC, target);
        self.reg.set16(Reg16::SP, sp.wrapping_add(2));
    }

    fn rc(&mut self) -> (r: (u16, u16))
        ensures
            flag_c(old(self)@.reg.f) ==> final(self)@ == sem_ret(old(self)@) && r == (0u16, 11u16),
            !flag_c(old(self)@.reg.f) ==> final(self)@ == old(self)@ && r == (1u16, 5u16),
    {
        if self.reg.get_flag(Flag::Carry) {
            self.ret();
            (0, 11)
        } else {
            (1, 5)
        }
    }

    fn rnc(&mut self) -> (r: (u16, u16))
        ensures
            !flag_c(old(self)@.reg.f) ==> final(self)@ == sem_ret(old(self)@) && r == (0u16, 11u16),
            flag_c(old(self)@.reg.f) ==> final(self)@ == old(self)@ && r == (1u16, 5u16),
    {
        if !self.reg.get_flag(Flag::Carry) {
            self.ret();
            (0, 11)
        } else {
            (1, 5)
        }
    }

    fn rp(&mut self) -> (r: (u16, u16))
        ensures
            !crate::model::flag_s(old(self)@.reg.f) ==> final(self)@ == sem_ret(old(self)@) && r
                == (0u16, 11u16),
            crate::model::flag_s(old(self)@.reg.f) ==> final(self)@ == old(self)@ && r == (
                1u16,
                5u16,
            ),
    {
        if !self.reg.get_flag(Flag::Sign) {
            self.ret();
            (0, 11)
        } else {
            (1, 5)
        }
    }

    fn rm(&mut self) -> (r: (u16, u16))
        ensures
            crate::model::flag_s(old(self)@.reg.f) ==> final(self)@ == sem_ret(old(self)@) && r
                == (0u16, 11u16),
            !crate::model::flag_s(old(self)@.reg.f) ==> final(self)@ == old(self)@ && r == (
                1u16,
                5u16,
            ),
    {
        if self.reg.get_flag(Flag::Sign) {
            self.ret();
            (0, 11)
        } else {
            (1, 5)
        }
    }

    fn rz(&mut self) -> (r: (u16, u16))
        ensures
            crate::model::flag_z(old(self)@.reg.f) ==> final(self)@ == sem_ret(old(self)@) && r
                == (0u16, 11u16),
            !crate::model::flag_z(old(self)@.reg.f) ==> final(self)@ == old(self)@ && r == (
                1u16,
                5u16,
            ),
    {
        if self.reg.get_flag(Flag::Zero) {
            self.ret();
            (0, 11)
        } else {
            (1, 5)
        }
    }

    fn rnz(&mut self) -> (r: (u16, u16))
        ensures
            !crate::model::flag_z(old(self)@.reg.f) ==> final(self)@ == sem_ret(old(self)@) && r
                == (0u16, 11u16),
            crate::model::flag_z(old(self)@.reg.f) ==> final(self)@ == old(self)@ && r == (
                1u16,
                5u16,
            ),
    {
        if !self.reg.get_flag(Flag::Zero) {
            self.ret();
            (0, 11)
        } else {
            (1, 5)
        }
    }

    fn rpe(&mut self) -> (r: (u16, u16))
        ensures
            crate::model::flag_p(old(self)@.reg.f) ==> final(self)@ == sem_ret(old(self)@) && r
                == (0u16, 11u16),
            !crate::model::flag_p(old(self)@.reg.f) ==> final(self)@ == old(self)@ && r == (
                1u16,
                5u16,
            ),
    {
        if self.reg.get_flag(Flag::Parity) {
            self.ret();
            (0, 11)
        } else {
            (1, 5)
        }
    }

    fn rpo(&mut self) -> (r: (u16, u16))
        ensures
            !crate::model::flag_p(old(self)@.reg.f) ==> final(self)@ == sem_ret(old(self)@) && r
                == (0u16, 11u16),
            crate::model::flag_p(old(self)@.reg.f) ==> final(self)@ == old(self)@ && r == (
                1u16,
                5u16,
            ),
    {
        if !self.reg.get_flag(Flag::Parity) {
            self.ret();
            (0, 11)
        } else {
            (1, 5)
        }
    }

    fn jmp(&mut self)
        ensures
            final(self)@ == sem_jmp(old(self)@, imm16(old(self)@)),
    {
        let target = self.read_word_immediate();
        self.reg.set16(Reg16::PC, target);
    }

    fn jc(&mut self) -> (r: (u16, u16))
        ensures
            flag_c(old(self)@.reg.f) ==> final(self)@ == sem_jmp(old(self)@, imm16(old(self)@))
                && r == (0u16, 10u16),
            !flag_c(old(self)@.reg.f) ==> final(self)@ == old(self)@ && r == (3u16, 10u16),
    {
        if self.reg.get_flag(Flag::Carry) {
            self.jmp();
            (0, 10)
        } else {
            (3, 10)
        }
    }

    fn jnc(&mut self) -> (r: (u16, u16))
        ensures
            !flag_c(old(self)@.reg.f) ==> final(self)@ == sem_jmp(old(self)@, imm16(old(self)@))
                && r == (0u16, 10u16),
            flag_c(old(self)@.reg.f) ==> final(self)@ == old(self)@ && r == (3u16, 10u16),
    {
        if !self.reg.get_flag(Flag::Carry) {
            self.jmp();
            (0, 10)
        } else {
            (3, 10)
        }
    }

    fn jp(&mut self) -> (r: (u16, u16))
        ensures
            !crate::model::flag_s(old(self)@.reg.f) ==> final(self)@ == sem_jmp(
                old(self)@,
                imm16(old(self)@),
            ) && r == (0u16, 10u16),
            crate::model::flag_s(old(self)@.reg.f) ==> final(self)@ == old(self)@ && r == (
                3u16,
                10u16,
            ),
    {
        if !self.reg.get_flag(Flag::Sign) {
            self.jmp();
            (0, 10)
        } else {
            (3, 10)
        }
    }

    fn jm(&mut self) -> (r: (u16, u16))
        ensures
            crate::model::flag_s(old(self)@.reg.f) ==> final(self)@ == sem_jmp(
                old(self)@,
                imm16(old(self)@),
            ) && r == (0u16, 10u16),
            !crate::model::flag_s(old(self)@.reg.f) ==> final(self)@ == old(self)@ && r == (
                3u16,
                10u16,
            ),
    {
        if self.reg.get_flag(Flag::Sign) {
            self.jmp();
            (0, 10)
        } else {
            (3, 10)
        }
    }

    fn jz(&mut self) -> (r: (u16, u16))
        ensures
            crate::model::flag_z(old(self)@.reg.f) ==> final(self)@ == sem_jmp(
                old(self)@,
                imm16(old(self)@),
            ) && r == (0u16, 10u16),
            !crate::model::flag_z(old(self)@.reg.f) ==> final(self)@ == old(self)@ && r == (
                3u16,
                10u16,
            ),
    {
        if self.reg.get_flag(Flag::Zero) {
            self.jmp();
            (0, 10)
        } else {
            (3, 10)
        }
    }

    fn jnz(&mut self) -> (r: (u16, u16))
        ensures
            !crate::model::flag_z(old(self)@.reg.f) ==> final(self)@ == sem_jmp(
                old(self)@,
                imm16(old(self)@),
            ) && r == (0u16, 10u16),
            crate::model::flag_z(old(self)@.reg.f) ==> final(self)@ == old(self)@ && r == (
                3u16,
                10u16,
            ),
    {
        if !self.reg.get_flag(Flag::Zero) {
            self.jmp();
            (0, 10)
        } else {
            (3, 10)
        }
    }

    fn jpe(&mut self) -> (r: (u16, u16))
        ensures
            crate::model::flag_p(old(self)@.reg.f) ==> final(self)@ == sem_jmp(
                old(self)@,
                imm16(old(self)@),
            ) && r == (0u16, 10u16),
            !crate::model::flag_p(old(self)@.reg.f) ==> final(self)@ == old(self)@ && r == (
                3u16,
                10u16,
            ),
    {
        if self.reg.get_flag(Flag::Parity) {
            self.jmp();
            (0, 10)
        } else {
            (3, 10)
        }
    }

    fn jpo(&mut self) -> (r: (u16, u16))
        ensures
            !crate::model::flag_p(old(self)@.reg.f) ==> final(self)@ == sem_jmp(
                old(self)@,
                imm16(old(self)@),
            ) && r == (0u16, 10u16),
            crate::model::flag_p(old(self)@.reg.f) ==> final(self)@ == old(self)@ && r == (
                3u16,
                10u16,
            ),
    {
        if !self.reg.get_flag(Flag::Parity) {
            self.jmp();
            (0, 10)
        } else {
            (3, 10)
        }
    }

    fn rst(&mut self, address: u16)
        ensures
            final(self)@ == sem_rst(old(self)@, address),
    {
        let pc = self.reg.get16(Reg16::PC);
        let sp = self.reg.get16(Reg16::SP).wrapping_sub(2);
        self.reg.set16(Reg16::SP, sp);
        self.write_word_to_memory(sp, pc.wrapping_add(1));
        self.reg.set16(Reg16::PC, address);
    }
}

impl CPU { // STACK GROUP
    fn push(&mut self, x: Reg16)
        ensures
            final(self)@ == sem_push(old(self)@, x),
    {
        let w = self.reg.get16(x);
        let sp = self.reg.get16(Reg16::SP).wrapping_sub(2);
        self.reg.set16(Reg16::SP, sp);
        self.write_word_to_memory(sp, w);
    }

    fn pop(&mut self, x: Reg16)
        ensures
            final(self)@ == sem_pop(old(self)@, x),
    {
        let sp = self.reg.get16(Reg16::SP);
        let w = self.read_word_at_address(sp);
        self.reg.set16(x, w);
        self.reg.set16(Reg16::SP, sp.wrapping_add(2));
    }

    fn xthl(&mut self)
        ensures
            final(self)@ == sem_xthl(old(self)@),
    {
        let sp = self.reg.get16(Reg16::SP);
        let tmp_l = self.reg.get8(Reg8::L);
        let tmp_h = self.reg.get8(Reg8::H);
        let mem_l = self.memory.get(sp);
        let mem_h = self.memory.get(sp.wrapping_add(1));
        self.reg.set8(Reg8::L, mem_l);
        self.reg.set8(Reg8::H, mem_h);
        self.memory.set(sp, tmp_l);
        self.memory.set(sp.wrapping_add(1), tmp_h);
    }

    fn pchl(&mut self)
        ensures
            final(self)@ == sem_pchl(old(self)@),
    {
        let hl = self.reg.get16(Reg16::HL);
        self.reg.set16(Reg16::PC, hl);
    }

    fn xchg(&mut self)
        ensures
            final(self)@ == sem_xchg(old(self)@),
    {
        let de = self.reg.get16(Reg16::DE);
        let hl = self.reg.get16(Reg16::HL);
        self.reg.set16(Reg16::HL, de);
        self.reg.set16(Reg16::DE, hl);
    }

    fn sphl(&mut self)
        ensures
            final(self)@ == sem_sphl(old(self)@),
    {
        let hl = self.reg.get16(Reg16::HL);
        self.reg.set16(Reg16::SP, hl);
    }
}

impl CPU { // INTERRUPT CONTROL
    fn ei(&mut self)
        ensures
            final(self)@ == sem_ei(old(self)@),
    {
        self.interrupts_enabled = true;
    }

    fn di(&mut self)
        ensures
            final(self)@ == sem_di(old(self)@),
    {
        self.interrupts_enabled = false;
    }

    /// Deliver interrupt `n` between ticks: a no-op while the latch is
    /// clear; otherwise push PC, jump to vector 8*n and clear the latch.
    pub fn interrupt(&mut self, interrupt_num: u16)
        requires
            interrupt_num <= 7,
            old(self)@.num_interrupts < u64::MAX,
        ensures
            final(self)@ == sem_interrupt(old(self)@, interrupt_num),
    {
        if self.interrupts_enabled {
            self.num_interrupts = self.num_interrupts + 1;
            let pc = self.reg.get16(Reg16::PC);
            let sp = self.reg.get16(Reg16::SP).wrapping_sub(2);
            self.reg.set16(Reg16::SP, sp);
            self.write_word_to_memory(sp, pc);
            self.reg.set16(Reg16::PC, 8 * interrupt_num);
            self.interrupts_enabled = false;
        }
    }
}

impl CPU { // DECODER / INTERPRETER
    /// The operand order of the MOV and ALU blocks: B C D E H L M A.
    fn reg_decode(n: u8) -> (r: Reg8)
        requires
            n < 8,
        ensures
            r == reg_code(n as int),
    {
        match n {
            0 => Reg8::B,
            1 => Reg8::C,
            2 => Reg8::D,
            3 => Reg8::E,
            4 => Reg8::H,
            5 => Reg8::L,
            6 => Reg8::M,
            _ => Reg8::A,
        }
    }

    /// Opcodes 0x00..0x3F: moves, 16-bit arithmetic, rotates, flag ops.
    #[verifier::rlimit(100)]
    fn exec_misc(&mut self, opcode: u8) -> (r: (u16, u16))
        requires
            opcode < 0x40,
        ensures
            ({
                let (s1, len, cyc) = sem_op_misc(old(self)@, opcode);
                &&& final(self)@ == s1
                &&& r.0 == len
                &&& r.1 == cyc
                &&& len == instr_len(opcode)
                &&& s1.reg.pc == old(self)@.reg.pc
            }),
    {
        proof {
            reveal(sem_op_misc);
        }
        match opcode {
            0x01 => { self.lxi(Reg16::BC); (3, 10) },
            0x02 => { self.stax(Reg16::BC); (1, 7) },
            0x03 => { self.inx(Reg16::BC); (1, 5) },
            0x04 => { self.inr(Reg8::B); (1, 5) },
            0x05 => { self.dcr(Reg8::B); (1, 5) },
            0x06 => { self.mvi(Reg8::B); (2, 7) },
            0x07 => { self.rlc(); (1, 4) },
            0x09 => { self.dad(Reg16::BC); (1, 10) },
            0x0a => { self.ldax(Reg16::BC); (1, 7) },
            0x0b => { self.dcx(Reg16::BC); (1, 5) },
            0x0c => { self.inr(Reg8::C); (1, 5) },
            0x0d => { self.dcr(Reg8::C); (1, 5) },
            0x0e => { self.mvi(Reg8::C); (2, 7) },
            0x0f => { self.rrc(); (1, 4) },
            0x11 => { self.lxi(Reg16::DE); (3, 10) },
            0x12 => { self.stax(Reg16::DE); (1, 7) },
            0x13 => { self.inx(Reg16::DE); (1, 5) },
            0x14 => { self.inr(Reg8::D); (1, 5) },
            0x15 => { self.dcr(Reg8::D); (1, 5) },
            0x16 => { self.mvi(Reg8::D); (2, 7) },
            0x17 => { self.ral(); (1, 4) },
            0x19 => { self.dad(Reg16::DE); (1, 10) },
            0x1a => { self.ldax(Reg16::DE); (1, 7) },
            0x1b => { self.dcx(Reg16::DE); (1, 5) },
            0x1c => { self.inr(Reg8::E); (1, 5) },
            0x1d => { self.dcr(Reg8::E); (1, 5) },
            0x1e => { self.mvi(Reg8::E); (2, 7) },
            0x1f => { self.rar(); (1, 4) },
            0x21 => { self.lxi(Reg16::HL); (3, 10) },
            0x22 => { self.shld(); (3, 16) },
            0x23 => { self.inx(Reg16::HL); (1, 5) },
            0x24 => { self.inr(Reg8::H); (1, 5) },
            0x25 => { self.dcr(Reg8::H); (1, 5) },
            0x26 => { self.mvi(Reg8::H); (2, 7) },
            0x29 => { self.dad(Reg16::HL); (1, 10) },
            0x2a => { self.lhld(); (3, 16) },
            0x2b => { self.dcx(Reg16::HL); (1, 5) },
            0x2c => { self.inr(Reg8::L); (1, 5) },
            0x2d => { self.dcr(Reg8::L); (1, 5) },
            0x2e => { self.mvi(Reg8::L); (2, 7) },
            0x2f => { self.cma(); (1, 4) },
            0x31 => { self.lxi(Reg16::SP); (3, 10) },
            0x32 => { self.sta(); (3, 13) },
            0x33 => { self.inx(Reg16::SP); (1, 5) },
            0x34 => { self.inr_m(); (1, 10) },
            0x35 => { self.dcr_m(); (1, 10) },
            0x36 => { self.mvi_m(); (2, 10) },
            0x37 => { self.stc(); (1, 4) },
            0x39 => { self.dad(Reg16::SP); (1, 10) },
            0x3a => { self.lda(); (3, 13) },
            0x3b => { self.dcx(Reg16::SP); (1, 5) },
            0x3c => { self.inr(Reg8::A); (1, 5) },
            0x3d => { self.dcr(Reg8::A); (1, 5) },
            0x3e => { self.mvi(Reg8::A); (2, 7) },
            0x3f => { self.cmc(); (1, 4) },
            _ => (1, 4),  // NOP, the undocumented duplicates, DAA stub
        }
    }

    /// The MOV matrix 0x40..0x7F, with HLT (0x76) stubbed as a NOP.
    #[verifier::rlimit(100)]
    fn exec_mov_block(&mut self, opcode: u8) -> (r: (u16, u16))
        requires
            0x40 <= opcode < 0x80,
        ensures
            ({
                let (s1, len, cyc) = sem_op_mov(old(self)@, opcode);
                &&& final(self)@ == s1
                &&& r.0 == len
                &&& r.1 == cyc
                &&& len == instr_len(opcode)
                &&& s1.reg.pc == old(self)@.reg.pc
            }),
    {
        proof {
            reveal(sem_op_mov);
        }
        if opcode == 0x76 {
            (1, 4)  // HLT stub
        } else {
            let code = opcode - 0x40;
            let dest = Self::reg_decode(code / 8);
            let src = Self::reg_decode(code % 8);
            self.mov(dest, src)
        }
    }

    /// The ALU matrix 0x80..0xBF: ADD ADC SUB SBB ANA XRA ORA CMP over
    /// B C D E H L M A.
    #[verifier::rlimit(100)]
    fn exec_alu_block(&mut self, opcode: u8) -> (r: (u16, u16))
        requires
            0x80 <= opcode < 0xc0,
        ensures
            ({
                let (s1, len, cyc) = sem_op_alu(old(self)@, opcode);
                &&& final(self)@ == s1
                &&& r.0 == len
                &&& r.1 == cyc
                &&& len == instr_len(opcode)
                &&& s1.reg.pc == old(self)@.reg.pc
            }),
    {
        proof {
            reveal(sem_op_alu);
        }
        let src = Self::reg_decode(opcode % 8);
        let from_m = matches!(src, Reg8::M);
        let v = if from_m {
            let addr = self.reg.get16(Reg16::HL);
            self.memory.get(addr)
        } else {
            self.reg.get8(src)
        };
        let cyc: u16 = if from_m { 7 } else { 4 };
        let grp = (opcode - 0x80) / 8;
        if grp == 0 { self.add(v) }
        else if grp == 1 { self.adc(v) }
        else if grp == 2 { self.sub(v) }
        else if grp == 3 { self.sbb(v) }
        else if grp == 4 { self.ana(v) }
        else if grp == 5 { self.xra(v) }
        else if grp == 6 { self.ora(v) }
        else { self.cmp(v) }
        (1, cyc)
    }

    /// Opcodes 0xC0..0xFF: branches, stack, immediates, I/O.
    #[verifier::rlimit(100)]
    fn exec_ctl(&mut self, opcode: u8, io: &mut SpaceInvadersIO) -> (r: (u16, u16))
        requires
            0xc0 <= opcode,
            opcode == 0xdb ==> in_port_ok(imm8(old(self)@)),
            opcode == 0xd3 ==> out_port_ok(imm8(old(self)@)),
        ensures
            ({
                let (s1, io1, len, cyc) = sem_op_ctl(old(self)@, old(io)@, opcode);
                &&& final(self)@ == s1
                &&& final(io)@ == io1
                &&& r.0 == len
                &&& r.1 == cyc
                &&& !takes_branch(old(self)@, opcode) ==> len == instr_len(opcode) && s1.reg.pc
                    == old(self)@.reg.pc
                &&& takes_branch(old(self)@, opcode) ==> len == 0 && s1.reg.pc == branch_target(
                    old(self)@,
                    opcode,
                )
            }),
    {
        proof {
            reveal(sem_op_ctl);
        }
        match opcode {
            0xc0 => self.rnz(),
            0xc1 => { self.pop(Reg16::BC); (1, 10) },
            0xc2 => self.jnz(),
            0xc3 => { self.jmp(); (0, 10) },
            0xc4 => self.cnz(),
            0xc5 => { self.push(Reg16::BC); (1, 11) },
            0xc6 => { self.adi(); (2, 7) },
            0xc7 => { self.rst(0x0); (0, 11) },
            0xc8 => self.rz(),
            0xc9 => { self.ret(); (0, 10) },
            0xca => self.jz(),
            0xcc => self.cz(),
            0xcd => { self.call(); (0, 17) },
            0xce => { self.aci(); (2, 7) },
            0xcf => { self.rst(0x8); (0, 11) },
            0xd0 => self.rnc(),
            0xd1 => { self.pop(Reg16::DE); (1, 10) },
            0xd2 => self.jnc(),
            0xd3 => {
                let port = self.read_byte_immediate();
                let a = self.reg.get8(Reg8::A);
                io.write_port(port, a);
                (2, 10)
            },
            0xd4 => self.cnc(),
            0xd5 => { self.push(Reg16::DE); (1, 11) },
            0xd6 => { self.sui(); (2, 7) },
            0xd7 => { self.rst(0x10); (0, 11) },
            0xd8 => self.rc(),
            0xda => self.jc(),
            0xdb => {
                let port = self.read_byte_immediate();
                let v = io.read_port(port);
                self.reg.set8(Reg8::A, v);
                (2, 10)
            },
            0xdc => self.cc(),
            0xde => { self.sbi(); (2, 7) },
            0xdf => { self.rst(0x18); (0, 11) },
            0xe0 => self.rpo(),
            0xe1 => { self.pop(Reg16::HL); (1, 10) },
            0xe2 => self.jpo(),
            0xe3 => { self.xthl(); (1, 18) },
            0xe4 => self.cpo(),
            0xe5 => { self.push(Reg16::HL); (1, 11) },
            0xe6 => { self.ani(); (2, 7) },
            0xe7 => { self.rst(0x20); (0, 11) },
            0xe8 => self.rpe(),
            0xe9 => { self.pchl(); (0, 5) },
            0xea => self.jpe(),
            0xeb => { self.xchg(); (1, 5) },
            0xec => self.cpe(),
            0xee => { self.xri(); (2, 7) },
            0xef => { self.rst(0x28); (0, 11) },
            0xf0 => self.rp(),
            0xf1 => { self.pop(Reg16::PSW); (1, 10) },
            0xf2 => self.jp(),
            0xf3 => { self.di(); (1, 4) },
            0xf4 => self.cp(),
            0xf5 => { self.push(Reg16::PSW); (1, 11) },
            0xf6 => { self.ori(); (2, 7) },
            0xf7 => { self.rst(0x30); (0, 11) },
            0xf8 => self.rm(),
            0xf9 => { self.sphl(); (1, 5) },
            0xfa => self.jm(),
            0xfb => { self.ei(); (1, 4) },
            0xfc => self.cm(),
            0xfe => { self.cpi(); (2, 7) },
            0xff => { self.rst(0x38); (0, 11) },
            _ => (1, 4),  // the undocumented duplicates 0xCB 0xD9 0xDD 0xED 0xFD
        }
    }

    /// Execute one already-fetched opcode against the bus, advance PC by the
    /// remaining instruction length, and report the cycle cost.  Whenever no
    /// branch is taken, PC advances by exactly the length the decode table
    /// gives the opcode; a taken branch lands on its target.
    #[verifier::rlimit(100)]
    pub fn execute_opcode(&mut self, opcode: u8, io: &mut SpaceInvadersIO) -> (cycles: u16)
        requires
            opcode == 0xdb ==> in_port_ok(imm8(old(self)@)),
            opcode == 0xd3 ==> out_port_ok(imm8(old(self)@)),
        ensures
            ({
                let (s2, io2, cyc) = spec_execute(old(self)@, old(io)@, opcode);
                &&& final(self)@ == s2
                &&& final(io)@ == io2
                &&& cycles == cyc
            }),
            !takes_branch(old(self)@, opcode) ==> final(self)@.reg.pc == winc(
                old(self)@.reg.pc,
                instr_len(opcode),
            ),
            takes_branch(old(self)@, opcode) ==> final(self)@.reg.pc == branch_target(
                old(self)@,
                opcode,
            ),
    {
        let (op_length, cycles) = if opcode < 0x40 {
            self.exec_misc(opcode)
        } else if opcode < 0x80 {
            self.exec_mov_block(opcode)
        } else if opcode < 0xc0 {
            self.exec_alu_block(opcode)
        } else {
            self.exec_ctl(opcode, io)
        };
        let pc = self.reg.get16(Reg16::PC);
        self.reg.set16(Reg16::PC, pc.wrapping_add(op_length));
        cycles
    }

    /// One instruction: fetch the opcode at PC, execute it, report its cycle
    /// cost.
    pub fn tick(&mut self, io: &mut SpaceInvadersIO) -> (cycles: u64)
        requires
            step_ports_ok(old(self)@),
        ensures
            ({
                let (s2, io2, cyc) = spec_step(old(self)@, old(io)@);
                &&& final(self)@ == s2
                &&& final(io)@ == io2
                &&& cycles == cyc
            }),
    {
        let opcode = self.fetch();
        self.execute_opcode(opcode, io) as u64
    }
}

/// One hexadecimal digit.
pub open spec fn hex_digit(n: int) -> char {
    if n == 0 { '0' } else if n == 1 { '1' } else if n == 2 { '2' } else if n == 3 { '3' }
    else if n == 4 { '4' } else if n == 5 { '5' } else if n == 6 { '6' } else if n == 7 { '7' }
    else if n == 8 { '8' } else if n == 9 { '9' } else if n == 10 { 'a' } else if n == 11 { 'b' }
    else if n == 12 { 'c' } else if n == 13 { 'd' } else if n == 14 { 'e' } else { 'f' }
}

/// A byte as two hexadecimal digits.
pub open spec fn hex2_chars(v: u8) -> Seq<char> {
    seq![hex_digit((v / 16) as int), hex_digit((v % 16) as int)]
}

/// A word as four hexadecimal digits.
pub open spec fn hex4_chars(w: u16) -> Seq<char> {
    hex2_chars(hi8(w)) + hex2_chars(lo8(w))
}

/// The full trace line `state_string` produces: PC, SP, the eight byte
/// registers in hexadecimal, and the lettered flag view.
pub open spec fn state_chars(s: CpuModel) -> Seq<char> {
    "pc="@ + hex4_chars(s.reg.pc) + " sp="@ + hex4_chars(s.reg.sp) + " a="@ + hex2_chars(s.reg.a)
        + " b="@ + hex2_chars(s.reg.b) + " c="@ + hex2_chars(s.reg.c) + " d="@ + hex2_chars(
        s.reg.d,
    ) + " e="@ + hex2_chars(s.reg.e) + " h="@ + hex2_chars(s.reg.h) + " l="@ + hex2_chars(
        s.reg.l,
    ) + " flags="@ + flags_chars(s.reg.f)
}

impl CPU { // DEBUG VIEW
    fn hex_str(n: u8) -> (r: &'static str)
        requires
            n < 16,
        ensures
            r@ == seq![hex_digit(n as int)],
    {
        proof {
            reveal_strlit("0");
            reveal_strlit("1");
            reveal_strlit("2");
            reveal_strlit("3");
            reveal_strlit("4");
            reveal_strlit("5");
            reveal_strlit("6");
            reveal_strlit("7");
            reveal_strlit("8");
            reveal_strlit("9");
            reveal_strlit("a");
            reveal_strlit("b");
            reveal_strlit("c");
            reveal_strlit("d");
            reveal_strlit("e");
            reveal_strlit("f");
        }
        let r = match n {
            0 => "0",
            1 => "1",
            2 => "2",
            3 => "3",
            4 => "4",
            5 => "5",
            6 => "6",
            7 => "7",
            8 => "8",
            9 => "9",
            10 => "a",
            11 => "b",
            12 => "c",
            13 => "d",
            14 => "e",
            _ => "f",
        };
        proof {
            assert(r@ =~= seq![hex_digit(n as int)]);
        }
        r
    }

    fn push_hex2(s: &mut String, v: u8)
        ensures
            final(s)@ == old(s)@ + hex2_chars(v),
    {
        s.append(Self::hex_str(v / 16));
        s.append(Self::hex_str(v % 16));
        proof {
            assert(s@ =~= old(s)@ + hex2_chars(v));
        }
    }

    fn push_hex4(s: &mut String, w: u16)
        ensures
            final(s)@ == old(s)@ + hex4_chars(w),
    {
        Self::push_hex2(s, (w / 256) as u8);
        Self::push_hex2(s, (w % 256) as u8);
        proof {
            assert(s@ =~= old(s)@ + hex4_chars(w));
        }
    }

    /// A formatted view of the processor state for debug traces: PC, SP,
    /// the byte registers in hexadecimal and the flags spelt out.
    pub fn state_string(&self) -> (r: String)
        ensures
            r@ == state_chars(self@),
    {
        let mut r = String::new();
        r.append("pc=");
        Self::push_hex4(&mut r, self.reg.get16(Reg16::PC));
        r.append(" sp=");
        Self::push_hex4(&mut r, self.reg.get16(Reg16::SP));
        r.append(" a=");
        Self::push_hex2(&mut r, self.reg.get8(Reg8::A));
        r.append(" b=");
        Self::push_hex2(&mut r, self.reg.get8(Reg8::B));
        r.append(" c=");
        Self::push_hex2(&mut r, self.reg.get8(Reg8::C));
        r.append(" d=");
        Self::push_hex2(&mut r, self.reg.get8(Reg8::D));
        r.append(" e=");
        Self::push_hex2(&mut r, self.reg.get8(Reg8::E));
        r.append(" h=");
        Self::push_hex2(&mut r, self.reg.get8(Reg8::H));
        r.append(" l=");
        Self::push_hex2(&mut r, self.reg.get8(Reg8::L));
        r.append(" flags=");
        let fs = self.reg.flags_string();
        r.append(fs.as_str());
        proof {
            assert(r@ =~= state_chars(self@));
        }
        r
    }
}

} // verus!
