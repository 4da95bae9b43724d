//! A word-granular model of how the frame instructions act on a machine
//! state, and the round-trip laws of the frame code: the prologue composed
//! with the epilogue restores the frame registers, and clobber-save composed
//! with clobber-restore restores every register.

use vstd::prelude::*;
use crate::regs::{spec_x_reg, RealReg, Reg, RegClass, Writable};
use crate::inst::{spec_load_const_insts, AMode, AluOPRRI, Inst};
use crate::imm::{spec_align16, Imm12};
use crate::abi::{
    spec_clobber_load_inst, spec_clobber_loads_upto, spec_clobber_restore_insts,
    spec_clobber_save_insts, spec_clobber_store_insts, spec_clobber_stores_upto,
    spec_epilogue_insts, spec_prologue_insts,
};

verus! {

/// A machine state as far as the frame code observes it: a value for every
/// register, and a word of memory at every byte address. Every access the
/// frame code makes is a whole word at an 8-aligned stack offset, so one
/// word per address is a faithful granularity for these sequences.
pub struct MachineState {
    pub regs: Map<Reg, int>,
    pub mem: Map<int, int>,
}

impl MachineState {
    /// Every register has a value.
    pub open spec fn well_formed(self) -> bool {
        forall|r: Reg| self.regs.dom().contains(r)
    }
}

/// The address an addressing mode denotes in a state.
pub open spec fn spec_amode_addr(s: MachineState, mem: AMode) -> int {
    match mem {
        AMode::SPOffset(off, _) => s.regs[spec_x_reg(2)] + off,
        AMode::FPOffset(off, _) => s.regs[spec_x_reg(8)] + off,
        AMode::NominalSPOffset(off, _) => s.regs[spec_x_reg(2)] + off,
        AMode::RegOffset(r, off, _) => s.regs[r] + off,
    }
}

/// How one instruction transforms a state. Only the instructions the frame
/// sequences contain move data: stack-pointer adjusts, stores, loads and
/// moves. Everything else leaves this view of the state unchanged.
pub open spec fn spec_step(s: MachineState, i: Inst) -> MachineState {
    match i {
        Inst::AdjustSp { amount } => MachineState {
            regs: s.regs.insert(spec_x_reg(2), s.regs[spec_x_reg(2)] + amount),
            mem: s.mem,
        },
        Inst::Store { to, op: _, flags: _, src } => MachineState {
            regs: s.regs,
            mem: s.mem.insert(spec_amode_addr(s, to), s.regs[src]),
        },
        Inst::Load { rd, op: _, flags: _, from } => MachineState {
            regs: s.regs.insert(rd.reg, s.mem[spec_amode_addr(s, from)]),
            mem: s.mem,
        },
        Inst::Mov { rd, rm, ty: _ } => MachineState {
            regs: s.regs.insert(rd.reg, s.regs[rm]),
            mem: s.mem,
        },
        _ => s,
    }
}

/// Run a whole instruction sequence, first instruction first.
pub open spec fn spec_run(s: MachineState, insts: Seq<Inst>) -> MachineState
    decreases insts.len(),
{
    if insts.len() == 0 {
        s
    } else {
        spec_run(spec_step(s, insts.first()), insts.drop_first())
    }
}

/// Running a concatenation runs the parts in order.
pub proof fn lemma_run_append(s: MachineState, a: Seq<Inst>, b: Seq<Inst>)
    ensures
        spec_run(s, a + b) == spec_run(spec_run(s, a), b),
    decreases a.len(),
{
    if a.len() == 0 {
        assert(a + b =~= b);
    } else {
        assert((a + b).first() == a.first());
        assert((a + b).drop_first() =~= a.drop_first() + b);
        lemma_run_append(spec_step(s, a.first()), a.drop_first(), b);
    }
}

pub proof fn lemma_run_one(s: MachineState, i: Inst)
    ensures
        spec_run(s, seq![i]) == spec_step(s, i),
{
    reveal_with_fuel(spec_run, 2);
    assert(seq![i].drop_first() =~= Seq::<Inst>::empty());
    assert(seq![i].first() == i);
}

/// The prologue followed directly by its matching epilogue restores the
/// stack pointer, the frame pointer and the return-address register to
/// their values before the prologue.
pub proof fn lemma_prologue_epilogue_restores_frame(s: MachineState, unwind_info: bool)
    requires
        s.well_formed(),
    ensures
        ({
            let s2 = spec_run(s, spec_prologue_insts(unwind_info) + spec_epilogue_insts());
            &&& s2.regs[spec_x_reg(2)] == s.regs[spec_x_reg(2)]
            &&& s2.regs[spec_x_reg(8)] == s.regs[spec_x_reg(8)]
            &&& s2.regs[spec_x_reg(1)] == s.regs[spec_x_reg(1)]
        }),
{
    reveal_with_fuel(spec_run, 7);
    let p = spec_prologue_insts(unwind_info);
    let e = spec_epilogue_insts();
    lemma_run_append(s, p, e);
    let sa = spec_step(s, p[0]);
    let sb = spec_step(sa, p[1]);
    let sc = spec_step(sb, p[2]);
    if unwind_info {
        assert(p.len() == 5);
        let sd = spec_step(sc, p[3]);
        let se = spec_step(sd, p[4]);
        assert(spec_run(s, p) == se) by {
            assert(p.drop_first().drop_first().drop_first().drop_first().drop_first()
                =~= Seq::<Inst>::empty());
            assert(p.drop_first().drop_first().drop_first().drop_first().first() == p[4]);
            assert(p.drop_first().drop_first().drop_first().first() == p[3]);
            assert(p.drop_first().drop_first().first() == p[2]);
            assert(p.drop_first().first() == p[1]);
        }
        lemma_epilogue_from(se, s);
    } else {
        assert(p.len() == 4);
        let sd = spec_step(sc, p[3]);
        assert(spec_run(s, p) == sd) by {
            assert(p.drop_first().drop_first().drop_first().drop_first()
                =~= Seq::<Inst>::empty());
            assert(p.drop_first().drop_first().drop_first().first() == p[3]);
            assert(p.drop_first().drop_first().first() == p[2]);
            assert(p.drop_first().first() == p[1]);
        }
        lemma_epilogue_from(sd, s);
    }
}

/// The epilogue, run from the state the prologue leaves behind, restores
/// the three frame registers of the state before the prologue.
proof fn lemma_epilogue_from(t: MachineState, s: MachineState)
    requires
        t.regs == s.regs.insert(spec_x_reg(2), s.regs[spec_x_reg(2)] - 16).insert(
            spec_x_reg(8),
            s.regs[spec_x_reg(2)] - 16,
        ),
        t.mem == s.mem.insert(s.regs[spec_x_reg(2)] - 16 + 8, s.regs[spec_x_reg(1)]).insert(
            s.regs[spec_x_reg(2)] - 16,
            s.regs[spec_x_reg(8)],
        ),
    ensures
        ({
            let s2 = spec_run(t, spec_epilogue_insts());
            &&& s2.regs[spec_x_reg(2)] == s.regs[spec_x_reg(2)]
            &&& s2.regs[spec_x_reg(8)] == s.regs[spec_x_reg(8)]
            &&& s2.regs[spec_x_reg(1)] == s.regs[spec_x_reg(1)]
        }),
{
    reveal_with_fuel(spec_run, 5);
    let e = spec_epilogue_insts();
    let ta = spec_step(t, e[0]);
    let tb = spec_step(ta, e[1]);
    let tc = spec_step(tb, e[2]);
    assert(spec_run(t, e) == tc) by {
        assert(e.drop_first().drop_first().drop_first() =~= Seq::<Inst>::empty());
        assert(e.drop_first().drop_first().first() == e[2]);
        assert(e.drop_first().first() == e[1]);
    }
}

/// Whether a register name occurs among the first `n` entries of a
/// clobbered-register list.
pub open spec fn spec_reg_in_list(regs: Seq<Writable<RealReg>>, n: int, r: Reg) -> bool {
    exists|i: int| 0 <= i < n && Reg::Real((#[trigger] regs[i]).reg) == r
}

/// Running the clobber stores changes no register, and leaves each saved
/// register's value in its slot at the stack pointer plus its 8-byte
/// offset.
proof fn lemma_stores_effect(s: MachineState, regs: Seq<Writable<RealReg>>, n: int, unwind: bool)
    requires
        0 <= n <= regs.len(),
        regs.len() <= 64,
        forall|i: int| 0 <= i < regs.len() ==> (#[trigger] regs[i]).reg.class != RegClass::Int
            || regs[i].reg.enc != 2,
    ensures
        ({
            let s2 = spec_run(s, spec_clobber_stores_upto(regs, n, unwind));
            &&& s2.regs == s.regs
            &&& forall|i: int|
                0 <= i < n ==> s2.mem[s.regs[spec_x_reg(2)] + 8 * i] == s.regs[Reg::Real(
                    (#[trigger] regs[i]).reg,
                )]
        }),
    decreases n,
{
    reveal_with_fuel(spec_run, 4);
    if n > 0 {
        lemma_stores_effect(s, regs, n - 1, unwind);
        let prefix = spec_clobber_stores_upto(regs, n - 1, unwind);
        let step_insts = spec_clobber_store_insts(regs[n - 1].reg, 8 * (n - 1), unwind);
        lemma_run_append(s, prefix, step_insts);
        let s1 = spec_run(s, prefix);
        if unwind {
            assert(step_insts.len() == 2);
            let sa = spec_step(s1, step_insts[0]);
            let sb = spec_step(sa, step_insts[1]);
            assert(spec_run(s1, step_insts) == sb) by {
                assert(step_insts.drop_first().drop_first() =~= Seq::<Inst>::empty());
                assert(step_insts.drop_first().first() == step_insts[1]);
            }
        } else {
            assert(step_insts.len() == 1);
            lemma_run_one(s1, step_insts[0]);
        }
    }
}

/// Running the clobber loads changes no memory, writes each listed register
/// from its slot, and leaves every other register alone. Needs the listed
/// registers distinct and the stack pointer not among them.
proof fn lemma_loads_effect(s: MachineState, regs: Seq<Writable<RealReg>>, n: int, vals: Seq<int>)
    requires
        0 <= n <= regs.len(),
        regs.len() <= 64,
        vals.len() == regs.len(),
        forall|i: int, j: int|
            0 <= i < regs.len() && 0 <= j < regs.len() && i != j ==> (#[trigger] regs[i]).reg != (
            #[trigger] regs[j]).reg,
        forall|i: int| 0 <= i < regs.len() ==> (#[trigger] regs[i]).reg.class != RegClass::Int
            || regs[i].reg.enc != 2,
        forall|i: int|
            0 <= i < regs.len() ==> s.mem[s.regs[spec_x_reg(2)] + 8 * i] == #[trigger] vals[i],
    ensures
        ({
            let s2 = spec_run(s, spec_clobber_loads_upto(regs, n));
            &&& s2.mem == s.mem
            &&& s.regs.dom().subset_of(s2.regs.dom())
            &&& forall|i: int| 0 <= i < n ==> s2.regs[Reg::Real((#[trigger] regs[i]).reg)]
                == vals[i]
            &&& forall|r: Reg| !spec_reg_in_list(regs, n, r) ==> #[trigger] s2.regs[r] == s.regs[r]
        }),
    decreases n,
{
    if n > 0 {
        lemma_loads_effect(s, regs, n - 1, vals);
        let prefix = spec_clobber_loads_upto(regs, n - 1);
        let s1 = spec_run(s, prefix);
        let load = spec_clobber_load_inst(regs[n - 1].reg, 8 * (n - 1));
        assert(spec_clobber_loads_upto(regs, n) =~= prefix + seq![load]);
        lemma_run_append(s, prefix, seq![load]);
        lemma_run_one(s1, load);
        let s2 = spec_step(s1, load);
        assert(!spec_reg_in_list(regs, n - 1, spec_x_reg(2)));
        assert(s1.regs[spec_x_reg(2)] == s.regs[spec_x_reg(2)]);
        assert(s2.regs[Reg::Real(regs[n - 1].reg)] == vals[n - 1]);
        assert(forall|i: int|
            0 <= i < n - 1 ==> !spec_reg_in_list(regs, n - 1, Reg::Real((#[trigger] regs[i]).reg))
                == false);
        assert(forall|r: Reg|
            !spec_reg_in_list(regs, n, r) ==> !spec_reg_in_list(regs, n - 1, r));
    }
}

/// Clobber-save followed by clobber-restore for the same clobbered list and
/// fixed-frame size restores every register to its value before the save:
/// the round trip is the identity on register contents. The list must be
/// duplicate-free and must not contain the stack pointer, which holds of
/// every allocator-reported clobber set; with a duplicated register the
/// second slot would reload a stale value.
pub proof fn lemma_clobber_save_restore_round_trip(
    s: MachineState,
    regs: Seq<Writable<RealReg>>,
    fixed: u32,
    setup_frame: bool,
    unwind: bool,
)
    requires
        s.well_formed(),
        regs.len() <= 64,
        forall|i: int, j: int|
            0 <= i < regs.len() && 0 <= j < regs.len() && i != j ==> (#[trigger] regs[i]).reg != (
            #[trigger] regs[j]).reg,
        forall|i: int| 0 <= i < regs.len() ==> (#[trigger] regs[i]).reg.class != RegClass::Int
            || regs[i].reg.enc != 2,
    ensures
        ({
            let cs = spec_align16(8 * regs.len() as int);
            let ss = fixed + cs;
            let s1 = spec_run(s, spec_clobber_save_insts(setup_frame, unwind, regs, cs, ss));
            let s2 = spec_run(s1, spec_clobber_restore_insts(regs, ss));
            s2.regs == s.regs
        }),
{
    let cs = spec_align16(8 * regs.len() as int);
    let ss = fixed + cs;
    let save = spec_clobber_save_insts(setup_frame, unwind, regs, cs, ss);
    let restore = spec_clobber_restore_insts(regs, ss);
    let header: Seq<Inst> = if unwind && setup_frame {
        save.take(1)
    } else {
        Seq::empty()
    };
    crate::imm::lemma_align16_props(8 * regs.len() as int);
    let ghost vals = Seq::new(regs.len(), |i: int| s.regs[Reg::Real(regs[i].reg)]);
    if ss > 0 {
        let body = seq![(Inst::AdjustSp { amount: (-1 * ss) as i64 })] + spec_clobber_stores_upto(
            regs,
            regs.len() as int,
            unwind,
        );
        assert(save =~= header + body);
        lemma_run_append(s, header, body);
        let sh = spec_run(s, header);
        assert(sh == s) by {
            if unwind && setup_frame {
                assert(header =~= seq![save[0]]);
                lemma_run_one(s, save[0]);
            }
        }
        let adj = body.first();
        lemma_run_append(s, seq![adj], body.drop_first());
        lemma_run_one(s, adj);
        let sa = spec_step(s, adj);
        assert(body.drop_first() =~= spec_clobber_stores_upto(regs, regs.len() as int, unwind));
        lemma_stores_effect(sa, regs, regs.len() as int, unwind);
        let s1 = spec_run(sa, spec_clobber_stores_upto(regs, regs.len() as int, unwind));
        assert(spec_run(s, save) == s1);
        // After the save: the stack pointer moved down by the whole frame,
        // no other register changed, and slot i holds the old value of
        // register i.
        assert(s1.regs == sa.regs);
        assert(forall|i: int|
            0 <= i < regs.len() ==> s1.mem[s1.regs[spec_x_reg(2)] + 8 * i] == #[trigger] vals[i]);
        // The restore: loads in the same order, then one adjust back up.
        let loads = spec_clobber_loads_upto(regs, regs.len() as int);
        let back = seq![(Inst::AdjustSp { amount: ss as i64 })];
        assert(restore =~= loads + back);
        lemma_run_append(s1, loads, back);
        lemma_loads_effect(s1, regs, regs.len() as int, vals);
        let sl = spec_run(s1, loads);
        lemma_run_one(sl, back[0]);
        let s2 = spec_step(sl, back[0]);
        assert(spec_run(s1, restore) == s2);
        assert(!spec_reg_in_list(regs, regs.len() as int, spec_x_reg(2)));
        assert(s2.regs[spec_x_reg(2)] == s.regs[spec_x_reg(2)]);
        assert forall|r: Reg| #[trigger] s2.regs[r] == s.regs[r] by {
            if r == spec_x_reg(2) {
            } else if spec_reg_in_list(regs, regs.len() as int, r) {
                let i = choose|i: int|
                    0 <= i < regs.len() && Reg::Real((#[trigger] regs[i]).reg) == r;
                assert(sl.regs[Reg::Real(regs[i].reg)] == vals[i]);
                assert(vals[i] == s.regs[r]);
                assert(s2.regs[r] == sl.regs[r]);
            } else {
                assert(sl.regs[r] == s1.regs[r]);
                assert(s2.regs[r] == sl.regs[r]);
                assert(sa.regs[r] == s.regs[r]);
            }
        }
        assert forall|r: Reg| s2.regs.dom().contains(r) && s.regs.dom().contains(r) by {
            assert(s.regs.dom().contains(r));
            assert(sa.regs.dom().contains(r));
            assert(sl.regs.dom().contains(r));
            assert(s2.regs.dom().contains(r));
        }
        assert(s2.regs.dom() =~= s.regs.dom());
        assert(s2.regs =~= s.regs);
    } else {
        assert(regs.len() == 0);
        assert(save =~= header);
        assert(spec_clobber_loads_upto(regs, 0) =~= Seq::<Inst>::empty());
        assert(restore =~= Seq::<Inst>::empty());
        if unwind && setup_frame {
            lemma_run_one(s, save[0]);
        }
    }
}


/// How one step of a constant-load sequence transforms the accumulated
/// value: an add-immediate from the zero register sets it to the
/// sign-extended immediate, a shift-left-immediate shifts it, and an
/// or-immediate merges the immediate in. Other instructions leave it.
pub open spec fn spec_const_step(acc: u64, i: Inst) -> u64 {
    match i {
        Inst::AluRRImm12 { alu_op: AluOPRRI::Addi, imm12, .. } => spec_sext_imm(imm12),
        Inst::AluRRImm12 { alu_op: AluOPRRI::Slli, imm12, .. } => acc << spec_sext_imm(imm12),
        Inst::AluRRImm12 { alu_op: AluOPRRI::Ori, imm12, .. } => acc | spec_sext_imm(imm12),
        _ => acc,
    }
}

/// The 64-bit pattern a sign-extended 12-bit immediate denotes.
pub open spec fn spec_sext_imm(imm: Imm12) -> u64 {
    if imm.bits >= 0 {
        imm.bits as u64
    } else {
        (imm.bits + 0x1_0000_0000_0000_0000) as u64
    }
}

/// The value accumulated by the first `n` steps of a constant-load
/// sequence, starting from zero.
pub open spec fn spec_const_eval_upto(insts: Seq<Inst>, n: int) -> u64
    decreases n,
{
    if n <= 0 {
        0
    } else {
        spec_const_step(spec_const_eval_upto(insts, n - 1), insts[n - 1])
    }
}

/// The constant-load sequence, read as the arithmetic it encodes,
/// reproduces exactly the requested value: the short form sets the
/// sign-extended immediate, and the long form reassembles the value from
/// its top nine bits and five 11-bit chunks.
pub proof fn lemma_constant_load_reassembles(rd: Writable<Reg>, val: u64)
    ensures
        ({
            let insts = spec_load_const_insts(rd, val);
            spec_const_eval_upto(insts, insts.len() as int) == val
        }),
{
    let insts = spec_load_const_insts(rd, val);
    if Imm12::spec_fits_in_imm12(val) {
        reveal_with_fuel(spec_const_eval_upto, 2);
        if val <= 2047 {
            assert(spec_sext_imm(Imm12::spec_from_u64(val)) == val);
        } else {
            assert(Imm12::spec_from_u64(val).bits == val - 0x1_0000_0000_0000_0000);
            assert(spec_sext_imm(Imm12::spec_from_u64(val)) == val);
        }
    } else {
        reveal_with_fuel(spec_const_eval_upto, 12);
        let c0 = val >> 55;
        let c1 = (val >> 44) & 0x7ff;
        let c2 = (val >> 33) & 0x7ff;
        let c3 = (val >> 22) & 0x7ff;
        let c4 = (val >> 11) & 0x7ff;
        let c5 = val & 0x7ff;
        assert(val >> 55 <= 2047 && (val >> 44) & 0x7ff <= 2047 && (val >> 33) & 0x7ff <= 2047
            && (val >> 22) & 0x7ff <= 2047 && (val >> 11) & 0x7ff <= 2047 && val & 0x7ff <= 2047)
            by (bit_vector);
        assert((val >> 55) as i16 as u64 == val >> 55) by (bit_vector);
        assert(((val >> 44) & 0x7ff) as i16 as u64 == (val >> 44) & 0x7ff) by (bit_vector);
        assert(((val >> 33) & 0x7ff) as i16 as u64 == (val >> 33) & 0x7ff) by (bit_vector);
        assert(((val >> 22) & 0x7ff) as i16 as u64 == (val >> 22) & 0x7ff) by (bit_vector);
        assert(((val >> 11) & 0x7ff) as i16 as u64 == (val >> 11) & 0x7ff) by (bit_vector);
        assert((val & 0x7ff) as i16 as u64 == val & 0x7ff) by (bit_vector);
        assert(11i16 as u64 == 11);
        assert(((((((((((val >> 55) << 11) | ((val >> 44) & 0x7ff)) << 11) | ((val >> 33)
            & 0x7ff)) << 11) | ((val >> 22) & 0x7ff)) << 11 | ((val >> 11) & 0x7ff)) << 11) | (val
            & 0x7ff)) == val) by (bit_vector);
    }
}

} // verus!
