//! Laws of the instruction semantics, each proved from the transition
//! functions that the `CPU` contracts speak of.  The PC-advance law (every
//! opcode moves PC by its decoded length, or to the branch target when one
//! is taken) is stated directly on `CPU::execute_opcode` in `cpu`.

use vstd::prelude::*;
use crate::model::{
    CpuModel, bit_of, flag_s, flag_z, flag_ac, flag_p, flag_c, make_f, canon_f, f_canonical,
    f_arith, f_szpac, parity_of, sign_of, zero_of, pair16, hi8, lo8, winc, mrd16,
    sem_add, sem_sub, sem_cmp, sem_ana, sem_xra, sem_ora,
    sem_inr, sem_dcr, sem_inx, sem_dcx,
    sem_rlc, sem_rrc, sem_ral,
    sem_cma, sem_cmc, sem_stc,
    sem_push, sem_pop, sem_xchg, sem_xthl,
};
use crate::register::{Reg8, Reg16, lemma_make_f};

verus! {

/// The high and low byte of an assembled pair are the bytes it was
/// assembled from.
pub proof fn lemma_pair_split(hi: u8, lo: u8) by (nonlinear_arith)
    ensures
        hi8(pair16(hi, lo)) == hi,
        lo8(pair16(hi, lo)) == lo,
{
}

/// ADD, SUB, AND, OR, XOR and CMP between A and an operand of zero produce
/// exactly the flags the flag rules predict: S, Z and P follow the result
/// byte (the accumulator, or zero for AND), C is always clear, and AC is
/// clear for ADD, set for SUB and CMP (no low-nibble borrow), bit 3 of A
/// for AND, and clear for OR and XOR — for every accumulator value and
/// every prior flag setting.
pub proof fn lemma_alu_zero_operand(s: CpuModel)
    ensures
        sem_add(s, 0, false).reg.a == s.reg.a,
        sem_add(s, 0, false).reg.f == make_f(
            sign_of(s.reg.a),
            zero_of(s.reg.a),
            false,
            parity_of(s.reg.a),
            false,
        ),
        sem_sub(s, 0, false).reg.a == s.reg.a,
        sem_sub(s, 0, false).reg.f == make_f(
            sign_of(s.reg.a),
            zero_of(s.reg.a),
            true,
            parity_of(s.reg.a),
            false,
        ),
        sem_ana(s, 0).reg.a == 0,
        sem_ana(s, 0).reg.f == make_f(false, true, bit_of(s.reg.a, 8), true, false),
        sem_ora(s, 0).reg.a == s.reg.a,
        sem_ora(s, 0).reg.f == make_f(
            sign_of(s.reg.a),
            zero_of(s.reg.a),
            false,
            parity_of(s.reg.a),
            false,
        ),
        sem_xra(s, 0).reg.a == s.reg.a,
        sem_xra(s, 0).reg.f == make_f(
            sign_of(s.reg.a),
            zero_of(s.reg.a),
            false,
            parity_of(s.reg.a),
            false,
        ),
        sem_cmp(s, 0).reg.a == s.reg.a,
        sem_cmp(s, 0).reg.f == make_f(
            sign_of(s.reg.a),
            zero_of(s.reg.a),
            true,
            parity_of(s.reg.a),
            false,
        ),
{
    assert(forall|x: u8| (x & 0) == 0 && (x | 0) == x && (x ^ 0) == x) by (bit_vector);
    assert((s.reg.a as int + 0 + 0) % 256 == s.reg.a as int);
    assert((s.reg.a as int + 256 - 0 - 0) % 256 == s.reg.a as int);
}

/// PUSH rp; POP rp restores the pair exactly, and SP; for PSW the flag byte
/// comes back in its canonical form (reserved bits at their fixed values),
/// which is the byte that was pushed whenever F was canonical.
pub proof fn lemma_push_pop(s: CpuModel, rp: Reg16)
    requires
        s.mem.len() == 0x10000,
        rp is BC || rp is DE || rp is HL || rp is PSW,
    ensures
        !(rp is PSW) ==> sem_pop(sem_push(s, rp), rp).reg.sel16(rp) == s.reg.sel16(rp),
        rp is PSW ==> sem_pop(sem_push(s, rp), rp).reg.a == s.reg.a,
        rp is PSW ==> sem_pop(sem_push(s, rp), rp).reg.f == canon_f(s.reg.f),
        sem_pop(sem_push(s, rp), rp).reg.sp == s.reg.sp,
{
    let w = s.reg.sel16(rp);
    let nsp = winc(s.reg.sp, -2);
    let pushed = sem_push(s, rp);
    assert(winc(nsp, 1) != nsp);
    assert(mrd16(pushed.mem, nsp) == pair16(hi8(w), lo8(w)));
    assert(pair16(hi8(w), lo8(w)) == w);
    match rp {
        Reg16::BC => {
            lemma_pair_split(s.reg.b, s.reg.c);
        },
        Reg16::DE => {
            lemma_pair_split(s.reg.d, s.reg.e);
        },
        Reg16::HL => {
            lemma_pair_split(s.reg.h, s.reg.l);
        },
        Reg16::PSW => {
            lemma_pair_split(s.reg.a, s.reg.f);
        },
        _ => {},
    }
}

/// INR then DCR restores a byte register; the flags need not come back.
#[verifier::rlimit(50)]
pub proof fn lemma_inr_dcr(s: CpuModel, r: Reg8)
    requires
        !(r is M),
        !(r is F),
    ensures
        sem_dcr(sem_inr(s, r), r).reg.sel8(r) == s.reg.sel8(r),
        sem_inr(sem_dcr(s, r), r).reg.sel8(r) == s.reg.sel8(r),
{
    let x = s.reg.sel8(r);
    assert(crate::model::sub_r(crate::model::add_r(x, 1, 0), 1, 0) == x);
    assert(crate::model::add_r(crate::model::sub_r(x, 1, 0), 1, 0) == x);
}

/// INX then DCX restores any 16-bit pair (and the other way round).
pub proof fn lemma_inx_dcx(s: CpuModel, rp: Reg16)
    requires
        !(rp is PSW),
    ensures
        sem_dcx(sem_inx(s, rp), rp).reg.sel16(rp) == s.reg.sel16(rp),
        sem_inx(sem_dcx(s, rp), rp).reg.sel16(rp) == s.reg.sel16(rp),
{
    let w = s.reg.sel16(rp);
    lemma_pair_split(hi8(winc(w, 1)), lo8(winc(w, 1)));
    lemma_pair_split(hi8(winc(w, -1)), lo8(winc(w, -1)));
    assert(winc(winc(w, 1), -1) == w);
    assert(winc(winc(w, -1), 1) == w);
}

/// Eight RLC restore the accumulator.
pub proof fn lemma_rlc_eight(s: CpuModel)
    ensures
        sem_rlc(sem_rlc(sem_rlc(sem_rlc(sem_rlc(sem_rlc(sem_rlc(sem_rlc(s)))))))).reg.a
            == s.reg.a,
{
    let a0 = s.reg.a;
    let a1 = sem_rlc(s).reg.a;
    let a2 = sem_rlc(sem_rlc(s)).reg.a;
    let a3 = sem_rlc(sem_rlc(sem_rlc(s))).reg.a;
    let a4 = sem_rlc(sem_rlc(sem_rlc(sem_rlc(s)))).reg.a;
    let a5 = sem_rlc(sem_rlc(sem_rlc(sem_rlc(sem_rlc(s))))).reg.a;
    let a6 = sem_rlc(sem_rlc(sem_rlc(sem_rlc(sem_rlc(sem_rlc(s)))))).reg.a;
    let a7 = sem_rlc(sem_rlc(sem_rlc(sem_rlc(sem_rlc(sem_rlc(sem_rlc(s))))))).reg.a;
    let a8 = sem_rlc(sem_rlc(sem_rlc(sem_rlc(sem_rlc(sem_rlc(sem_rlc(sem_rlc(s)))))))).reg.a;
    assert(a8 == a0) by (bit_vector)
        requires
            a1 as int == a0 as int % 128 * 2 + a0 as int / 128,
            a2 as int == a1 as int % 128 * 2 + a1 as int / 128,
            a3 as int == a2 as int % 128 * 2 + a2 as int / 128,
            a4 as int == a3 as int % 128 * 2 + a3 as int / 128,
            a5 as int == a4 as int % 128 * 2 + a4 as int / 128,
            a6 as int == a5 as int % 128 * 2 + a5 as int / 128,
            a7 as int == a6 as int % 128 * 2 + a6 as int / 128,
            a8 as int == a7 as int % 128 * 2 + a7 as int / 128,
    ;
}

/// Eight RRC restore the accumulator.
pub proof fn lemma_rrc_eight(s: CpuModel)
    ensures
        sem_rrc(sem_rrc(sem_rrc(sem_rrc(sem_rrc(sem_rrc(sem_rrc(sem_rrc(s)))))))).reg.a
            == s.reg.a,
{
    let a0 = s.reg.a;
    let a1 = sem_rrc(s).reg.a;
    let a2 = sem_rrc(sem_rrc(s)).reg.a;
    let a3 = sem_rrc(sem_rrc(sem_rrc(s))).reg.a;
    let a4 = sem_rrc(sem_rrc(sem_rrc(sem_rrc(s)))).reg.a;
    let a5 = sem_rrc(sem_rrc(sem_rrc(sem_rrc(sem_rrc(s))))).reg.a;
    let a6 = sem_rrc(sem_rrc(sem_rrc(sem_rrc(sem_rrc(sem_rrc(s)))))).reg.a;
    let a7 = sem_rrc(sem_rrc(sem_rrc(sem_rrc(sem_rrc(sem_rrc(sem_rrc(s))))))).reg.a;
    let a8 = sem_rrc(sem_rrc(sem_rrc(sem_rrc(sem_rrc(sem_rrc(sem_rrc(sem_rrc(s)))))))).reg.a;
    assert(a8 == a0) by (bit_vector)
        requires
            a1 as int == a0 as int / 2 + a0 as int % 2 * 128,
            a2 as int == a1 as int / 2 + a1 as int % 2 * 128,
            a3 as int == a2 as int / 2 + a2 as int % 2 * 128,
            a4 as int == a3 as int / 2 + a3 as int % 2 * 128,
            a5 as int == a4 as int / 2 + a4 as int % 2 * 128,
            a6 as int == a5 as int / 2 + a5 as int % 2 * 128,
            a7 as int == a6 as int / 2 + a6 as int % 2 * 128,
            a8 as int == a7 as int / 2 + a7 as int % 2 * 128,
    ;
}

/// Eight RAL with the carry observed unchanged after every step restore the
/// accumulator.  (RAL is a 9-bit rotate through C, so this needs the carry
/// hypothesis; an unconditioned eight-fold RAL does not return.)
pub proof fn lemma_ral_eight(s: CpuModel)
    requires
        flag_c(sem_ral(s).reg.f) == flag_c(s.reg.f),
        flag_c(sem_ral(sem_ral(s)).reg.f) == flag_c(s.reg.f),
        flag_c(sem_ral(sem_ral(sem_ral(s))).reg.f) == flag_c(s.reg.f),
        flag_c(sem_ral(sem_ral(sem_ral(sem_ral(s)))).reg.f) == flag_c(s.reg.f),
        flag_c(sem_ral(sem_ral(sem_ral(sem_ral(sem_ral(s))))).reg.f) == flag_c(s.reg.f),
        flag_c(sem_ral(sem_ral(sem_ral(sem_ral(sem_ral(sem_ral(s)))))).reg.f) == flag_c(s.reg.f),
        flag_c(sem_ral(sem_ral(sem_ral(sem_ral(sem_ral(sem_ral(sem_ral(s))))))).reg.f) == flag_c(
            s.reg.f,
        ),
        flag_c(
            sem_ral(sem_ral(sem_ral(sem_ral(sem_ral(sem_ral(sem_ral(sem_ral(s)))))))).reg.f,
        ) == flag_c(s.reg.f),
    ensures
        sem_ral(sem_ral(sem_ral(sem_ral(sem_ral(sem_ral(sem_ral(sem_ral(s)))))))).reg.a
            == s.reg.a,
{
    let c: u8 = if flag_c(s.reg.f) { 1 } else { 0 };
    let s1 = sem_ral(s);
    let s2 = sem_ral(s1);
    let s3 = sem_ral(s2);
    let s4 = sem_ral(s3);
    let s5 = sem_ral(s4);
    let s6 = sem_ral(s5);
    let s7 = sem_ral(s6);
    let s8 = sem_ral(s7);
    let a0 = s.reg.a;
    let a1 = s1.reg.a;
    let a2 = s2.reg.a;
    let a3 = s3.reg.a;
    let a4 = s4.reg.a;
    let a5 = s5.reg.a;
    let a6 = s6.reg.a;
    let a7 = s7.reg.a;
    let a8 = s8.reg.a;
    // Each step stores the bit rotated out in C; the hypothesis pins every
    // such bit to the initial carry, and each step keeps the carry it sees.
    lemma_make_f(flag_s(s.reg.f), flag_z(s.reg.f), flag_ac(s.reg.f), flag_p(s.reg.f), a0 >= 128);
    lemma_make_f(flag_s(s1.reg.f), flag_z(s1.reg.f), flag_ac(s1.reg.f), flag_p(s1.reg.f), a1 >= 128);
    lemma_make_f(flag_s(s2.reg.f), flag_z(s2.reg.f), flag_ac(s2.reg.f), flag_p(s2.reg.f), a2 >= 128);
    lemma_make_f(flag_s(s3.reg.f), flag_z(s3.reg.f), flag_ac(s3.reg.f), flag_p(s3.reg.f), a3 >= 128);
    lemma_make_f(flag_s(s4.reg.f), flag_z(s4.reg.f), flag_ac(s4.reg.f), flag_p(s4.reg.f), a4 >= 128);
    lemma_make_f(flag_s(s5.reg.f), flag_z(s5.reg.f), flag_ac(s5.reg.f), flag_p(s5.reg.f), a5 >= 128);
    lemma_make_f(flag_s(s6.reg.f), flag_z(s6.reg.f), flag_ac(s6.reg.f), flag_p(s6.reg.f), a6 >= 128);
    lemma_make_f(flag_s(s7.reg.f), flag_z(s7.reg.f), flag_ac(s7.reg.f), flag_p(s7.reg.f), a7 >= 128);
    assert(a8 == a0) by (bit_vector)
        requires
            c <= 1,
            a1 as int == a0 as int % 128 * 2 + c,
            a2 as int == a1 as int % 128 * 2 + c,
            a3 as int == a2 as int % 128 * 2 + c,
            a4 as int == a3 as int % 128 * 2 + c,
            a5 as int == a4 as int % 128 * 2 + c,
            a6 as int == a5 as int % 128 * 2 + c,
            a7 as int == a6 as int % 128 * 2 + c,
            a8 as int == a7 as int % 128 * 2 + c,
            (a0 >= 128) <==> (c == 1),
            (a1 >= 128) <==> (c == 1),
            (a2 >= 128) <==> (c == 1),
            (a3 >= 128) <==> (c == 1),
            (a4 >= 128) <==> (c == 1),
            (a5 >= 128) <==> (c == 1),
            (a6 >= 128) <==> (c == 1),
            (a7 >= 128) <==> (c == 1),
    ;
}

/// P is set iff the result byte has an even number of one bits, after any
/// operation that writes the data flags.
pub proof fn lemma_parity_flag(r: u8, f: u8, c: bool, ac: bool)
    ensures
        flag_p(f_arith(r, c, ac)) == parity_of(r),
        flag_p(f_szpac(f, r, ac)) == parity_of(r),
{
    lemma_make_f(sign_of(r), zero_of(r), ac, parity_of(r), c);
    lemma_make_f(sign_of(r), zero_of(r), ac, parity_of(r), flag_c(f));
}

/// Z is set iff the result byte is zero, and S iff its bit 7 is one, after
/// any operation that writes the data flags.
pub proof fn lemma_zero_sign_flags(r: u8, f: u8, c: bool, ac: bool)
    ensures
        flag_z(f_arith(r, c, ac)) <==> r == 0,
        flag_s(f_arith(r, c, ac)) <==> bit_of(r, 128),
        flag_z(f_szpac(f, r, ac)) <==> r == 0,
        flag_s(f_szpac(f, r, ac)) <==> bit_of(r, 128),
{
    lemma_make_f(sign_of(r), zero_of(r), ac, parity_of(r), c);
    lemma_make_f(sign_of(r), zero_of(r), ac, parity_of(r), flag_c(f));
}

/// XCHG twice is the identity.
pub proof fn lemma_xchg_twice(s: CpuModel)
    ensures
        sem_xchg(sem_xchg(s)) == s,
{
    assert(sem_xchg(sem_xchg(s)) =~= s);
}

/// XTHL twice is the identity, on registers and on memory.
pub proof fn lemma_xthl_twice(s: CpuModel)
    requires
        s.mem.len() == 0x10000,
    ensures
        sem_xthl(sem_xthl(s)) == s,
{
    assert(winc(s.reg.sp, 1) != s.reg.sp);
    assert(sem_xthl(sem_xthl(s)).mem =~= s.mem);
    assert(sem_xthl(sem_xthl(s)) =~= s);
}

/// CMA twice is the identity on the accumulator, and on the whole state.
pub proof fn lemma_cma_twice(s: CpuModel)
    ensures
        sem_cma(sem_cma(s)) == s,
{
    assert(sem_cma(sem_cma(s)) =~= s);
}

/// CMC toggles C, and twice over is the identity on any state whose F is
/// canonical; STC then CMC clears C whatever C held before.
pub proof fn lemma_carry_toggles(s: CpuModel)
    requires
        f_canonical(s.reg.f),
    ensures
        flag_c(sem_cmc(s).reg.f) == !flag_c(s.reg.f),
        sem_cmc(sem_cmc(s)) == s,
        flag_c(sem_cmc(sem_stc(s)).reg.f) == false,
{
    lemma_make_f(flag_s(s.reg.f), flag_z(s.reg.f), flag_ac(s.reg.f), flag_p(s.reg.f), true);
    lemma_make_f(flag_s(s.reg.f), flag_z(s.reg.f), flag_ac(s.reg.f), flag_p(s.reg.f), false);
    lemma_make_f(
        flag_s(s.reg.f),
        flag_z(s.reg.f),
        flag_ac(s.reg.f),
        flag_p(s.reg.f),
        !flag_c(s.reg.f),
    );
    lemma_make_f(
        flag_s(s.reg.f),
        flag_z(s.reg.f),
        flag_ac(s.reg.f),
        flag_p(s.reg.f),
        flag_c(s.reg.f),
    );
    assert(sem_cmc(sem_cmc(s)) =~= s);
}

/// SUB A,A (subtracting the accumulator from itself) always yields zero
/// with Z set, C clear and P set.
pub proof fn lemma_sub_self(s: CpuModel)
    ensures
        sem_sub(s, s.reg.a, false).reg.a == 0,
        flag_z(sem_sub(s, s.reg.a, false).reg.f),
        !flag_c(sem_sub(s, s.reg.a, false).reg.f),
        flag_p(sem_sub(s, s.reg.a, false).reg.f),
{
    let a = s.reg.a;
    assert((a as int + 256 - a - 0) % 256 == 0);
    lemma_make_f(false, true, true, true, false);
    assert(parity_of(0));
}

} // verus!
