//! The register file: eight 8-bit registers (A, B, C, D, E, H, L, F) and two
//! 16-bit ones (SP, PC), with the paired views BC, DE, HL and PSW.  F always
//! holds its reserved bits at their fixed values (bits 5 and 3 zero, bit 1
//! one), so PUSH PSW is bit-exact by construction.

use vstd::prelude::*;
use vstd::string::StringExecFns;
use crate::model::{
    RegModel, canon_f, f_canonical, flag_of, make_f, upd_flag,
    flag_s, flag_z, flag_ac, flag_p, flag_c,
};

verus! {

/// The byte registers; `M` is the memory pseudo-operand and selects no
/// storage here.
#[derive(Clone, Copy, PartialEq, Eq, Structural, Debug)]
pub enum Reg8 {
    A,
    B,
    C,
    D,
    E,
    H,
    L,
    F,
    M,
}

/// The 16-bit registers and pairs.
#[derive(Clone, Copy, PartialEq, Eq, Structural, Debug)]
pub enum Reg16 {
    BC,
    DE,
    HL,
    SP,
    PC,
    PSW,
}

/// The five status flags inside F.
#[derive(Clone, Copy, PartialEq, Eq, Structural, Debug)]
pub enum Flag {
    Carry,
    Parity,
    AuxCarry,
    Sign,
    Zero,
}

/// For every choice of the five flags, each accessor reads back from the
/// packed byte exactly the flag it was built from, and the byte is its own
/// canonical form.
pub proof fn lemma_make_f(s: bool, z: bool, ac: bool, p: bool, c: bool)
    ensures
        crate::model::flag_s(make_f(s, z, ac, p, c)) == s,
        crate::model::flag_z(make_f(s, z, ac, p, c)) == z,
        crate::model::flag_ac(make_f(s, z, ac, p, c)) == ac,
        crate::model::flag_p(make_f(s, z, ac, p, c)) == p,
        crate::model::flag_c(make_f(s, z, ac, p, c)) == c,
        f_canonical(make_f(s, z, ac, p, c)),
{
}

/// The five-letter flag trace: one letter per set flag, a dot per clear
/// one, in the order S Z AC P C.
pub open spec fn flags_chars(f: u8) -> Seq<char> {
    seq![
        if flag_s(f) { 's' } else { '.' },
        if flag_z(f) { 'z' } else { '.' },
        if flag_ac(f) { 'a' } else { '.' },
        if flag_p(f) { 'p' } else { '.' },
        if flag_c(f) { 'c' } else { '.' },
    ]
}

pub struct Register {
    a: u8,
    b: u8,
    c: u8,
    d: u8,
    e: u8,
    h: u8,
    l: u8,
    f: u8,
    sp: u16,
    pc: u16,
}

impl View for Register {
    type V = RegModel;

    closed spec fn view(&self) -> RegModel {
        RegModel {
            a: self.a,
            b: self.b,
            c: self.c,
            d: self.d,
            e: self.e,
            h: self.h,
            l: self.l,
            f: self.f,
            sp: self.sp,
            pc: self.pc,
        }
    }
}

impl Register {
    /// F's reserved bits hold their fixed values on every observation.
    #[verifier::type_invariant]
    spec fn inv(&self) -> bool {
        f_canonical(self.f)
    }

    /// All registers clear; F holds only its constant bit 1.
    pub fn new() -> (r: Register)
        ensures
            r@ == (RegModel { a: 0, b: 0, c: 0, d: 0, e: 0, h: 0, l: 0, f: 2, sp: 0, pc: 0 }),
    {
        proof {
            lemma_make_f(false, false, false, false, false);
        }
        Register { a: 0, b: 0, c: 0, d: 0, e: 0, h: 0, l: 0, f: 2, sp: 0, pc: 0 }
    }

    /// Pack five flag values into F.
    fn flags_byte(s: bool, z: bool, ac: bool, p: bool, c: bool) -> (r: u8)
        ensures
            r == make_f(s, z, ac, p, c),
    {
        let sv: u8 = if s { 128 } else { 0 };
        let zv: u8 = if z { 64 } else { 0 };
        let av: u8 = if ac { 16 } else { 0 };
        let pv: u8 = if p { 4 } else { 0 };
        let cv: u8 = if c { 1 } else { 0 };
        sv + zv + av + pv + 2 + cv
    }

    /// Read one byte register.  `M` is no storage and may not be named here.
    pub fn get8(&self, r: Reg8) -> (v: u8)
        requires
            !(r is M),
        ensures
            v == self@.sel8(r),
    {
        match r {
            Reg8::A => self.a,
            Reg8::B => self.b,
            Reg8::C => self.c,
            Reg8::D => self.d,
            Reg8::E => self.e,
            Reg8::H => self.h,
            Reg8::L => self.l,
            Reg8::F => self.f,
            Reg8::M => 0,
        }
    }

    /// Write one byte register; a write to F keeps only the five defined
    /// flag positions.
    pub fn set8(&mut self, r: Reg8, v: u8)
        requires
            !(r is M),
        ensures
            final(self)@ == old(self)@.upd8(r, v),
    {
        proof {
            use_type_invariant(&*self);
        }
        match r {
            Reg8::A => self.a = v,
            Reg8::B => self.b = v,
            Reg8::C => self.c = v,
            Reg8::D => self.d = v,
            Reg8::E => self.e = v,
            Reg8::H => self.h = v,
            Reg8::L => self.l = v,
            Reg8::F => self.f = Self::canon_exec(v),
            Reg8::M => (),
        }
    }

    /// The canonical form of a byte written to F.
    fn canon_exec(v: u8) -> (r: u8)
        ensures
            r == canon_f(v),
            f_canonical(r),
    {
        let s = (v / 128) % 2 == 1;
        let z = (v / 64) % 2 == 1;
        let ac = (v / 16) % 2 == 1;
        let p = (v / 4) % 2 == 1;
        let c = v % 2 == 1;
        proof {
            lemma_make_f(s, z, ac, p, c);
        }
        Self::flags_byte(s, z, ac, p, c)
    }

    /// Read a 16-bit register; a pair assembles `(high << 8) | low`.
    pub fn get16(&self, r: Reg16) -> (w: u16)
        ensures
            w == self@.sel16(r),
    {
        match r {
            Reg16::BC => (self.b as u16) * 256 + (self.c as u16),
            Reg16::DE => (self.d as u16) * 256 + (self.e as u16),
            Reg16::HL => (self.h as u16) * 256 + (self.l as u16),
            Reg16::SP => self.sp,
            Reg16::PC => self.pc,
            Reg16::PSW => (self.a as u16) * 256 + (self.f as u16),
        }
    }

    /// Write a 16-bit register; writing a pair splits the word, and the low
    /// byte of a PSW write passes through the F mask.
    pub fn set16(&mut self, r: Reg16, w: u16)
        ensures
            final(self)@ == old(self)@.upd16(r, w),
    {
        proof {
            use_type_invariant(&*self);
        }
        let hi = (w / 256) as u8;
        let lo = (w % 256) as u8;
        match r {
            Reg16::BC => {
                self.b = hi;
                self.c = lo;
            },
            Reg16::DE => {
                self.d = hi;
                self.e = lo;
            },
            Reg16::HL => {
                self.h = hi;
                self.l = lo;
            },
            Reg16::SP => self.sp = w,
            Reg16::PC => self.pc = w,
            Reg16::PSW => {
                self.a = hi;
                self.f = Self::canon_exec(lo);
            },
        }
    }

    /// Read one status flag out of F.
    pub fn get_flag(&self, flag: Flag) -> (b: bool)
        ensures
            b == flag_of(self@.f, flag),
    {
        let m: u8 = match flag {
            Flag::Carry => 1,
            Flag::Parity => 4,
            Flag::AuxCarry => 16,
            Flag::Zero => 64,
            Flag::Sign => 128,
        };
        (self.f / m) % 2 == 1
    }

    /// Set or clear one status flag, leaving the others.
    pub fn set_flag(&mut self, flag: Flag, set: bool)
        ensures
            final(self)@ == (RegModel { f: upd_flag(old(self)@.f, flag, set), ..old(self)@ }),
    {
        proof {
            use_type_invariant(&*self);
        }
        let s = if flag_is(flag, Flag::Sign) { set } else { self.get_flag(Flag::Sign) };
        let z = if flag_is(flag, Flag::Zero) { set } else { self.get_flag(Flag::Zero) };
        let ac = if flag_is(flag, Flag::AuxCarry) { set } else { self.get_flag(Flag::AuxCarry) };
        let p = if flag_is(flag, Flag::Parity) { set } else { self.get_flag(Flag::Parity) };
        let c = if flag_is(flag, Flag::Carry) { set } else { self.get_flag(Flag::Carry) };
        proof {
            lemma_make_f(s, z, ac, p, c);
        }
        self.f = Self::flags_byte(s, z, ac, p, c);
    }

    /// The formatted view of the flags for debug traces: `szapc` with a
    /// dot in place of each clear flag.
    pub fn flags_string(&self) -> (r: String)
        ensures
            r@ == flags_chars(self@.f),
    {
        proof {
            reveal_strlit("s");
            reveal_strlit("z");
            reveal_strlit("a");
            reveal_strlit("p");
            reveal_strlit("c");
            reveal_strlit(".");
        }
        let mut r = String::new();
        r.append(if self.get_flag(Flag::Sign) { "s" } else { "." });
        r.append(if self.get_flag(Flag::Zero) { "z" } else { "." });
        r.append(if self.get_flag(Flag::AuxCarry) { "a" } else { "." });
        r.append(if self.get_flag(Flag::Parity) { "p" } else { "." });
        r.append(if self.get_flag(Flag::Carry) { "c" } else { "." });
        proof {
            assert(r@ =~= flags_chars(self@.f));
        }
        r
    }

    /// Set all five flags at once.
    pub(crate) fn set_flags(&mut self, s: bool, z: bool, ac: bool, p: bool, c: bool)
        ensures
            final(self)@ == (RegModel { f: make_f(s, z, ac, p, c), ..old(self)@ }),
    {
        proof {
            use_type_invariant(&*self);
            lemma_make_f(s, z, ac, p, c);
        }
        self.f = Self::flags_byte(s, z, ac, p, c);
    }
}

/// Variant equality for `Flag` (each variant carries no data).
fn flag_is(x: Flag, y: Flag) -> (r: bool)
    ensures
        r == (x == y),
{
    match (x, y) {
        (Flag::Carry, Flag::Carry) => true,
        (Flag::Parity, Flag::Parity) => true,
        (Flag::AuxCarry, Flag::AuxCarry) => true,
        (Flag::Sign, Flag::Sign) => true,
        (Flag::Zero, Flag::Zero) => true,
        _ => false,
    }
}

} // verus!
