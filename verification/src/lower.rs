//! The lowering helper layer: the machine context that rules emit through
//! (temporary allocation, instruction emission, value materialization), the
//! helper constructors the rules call, and the rule-driven dispatch entry
//! points.

use vstd::prelude::*;
use crate::types::{
    ExternalName, Flags, FloatCC, IntCC, MemFlags, Offset32, RiscvFlags, Type,
};
use crate::regs::{
    spec_class_of_type, spec_canonical_type_for_class, spec_x_reg, canonical_type_for_class,
    class_of_type, writable_zero_reg as make_writable_zero_reg, x_reg as make_x_reg, zero_reg
    as make_zero_reg, Reg, RegClass, VirtualReg, Writable,
};
use crate::imm::Imm12;
use crate::inst::{
    spec_load_const_insts, AMode, AluOPRRI, AluOPRRR, AMO, BranchTarget, FloatCompare, FpuOPRR,
    FRM, Inst, IntegerCompare, LoadOP, MachLabel, Opcode, StoreOP,
};
use crate::extern_specs::{inst_seq, inst_vec_append, inst_vec_new, inst_vec_push, InstVec};

verus! {

/// The one or two registers that carry one IR value.
#[derive(Clone, Copy, PartialEq, Eq, Structural, Debug)]
pub enum ValueRegs {
    One(Reg),
    Two(Reg, Reg),
}

impl ValueRegs {
    pub open spec fn view(self) -> Seq<Reg> {
        match self {
            ValueRegs::One(r) => seq![r],
            ValueRegs::Two(a, b) => seq![a, b],
        }
    }

    pub fn one(r: Reg) -> (v: ValueRegs)
        ensures
            v == ValueRegs::One(r),
    {
        ValueRegs::One(r)
    }

    pub fn two(a: Reg, b: Reg) -> (v: ValueRegs)
        ensures
            v == ValueRegs::Two(a, b),
    {
        ValueRegs::Two(a, b)
    }

    pub fn len(self) -> (r: usize)
        ensures
            r == self.view().len(),
    {
        match self {
            ValueRegs::One(_) => 1,
            ValueRegs::Two(_, _) => 2,
        }
    }

    /// The register at a position.
    pub fn reg(self, i: usize) -> (r: Reg)
        requires
            i < self.view().len(),
        ensures
            r == self.view()[i as int],
    {
        match self {
            ValueRegs::One(r) => r,
            ValueRegs::Two(a, b) => if i == 0 {
                a
            } else {
                b
            },
        }
    }

    pub fn first(self) -> (r: Reg)
        ensures
            r == self.view()[0],
    {
        match self {
            ValueRegs::One(r) => r,
            ValueRegs::Two(a, _) => a,
        }
    }
}

/// The one or two writable registers a lowered value is built into.
#[derive(Clone, Copy, PartialEq, Eq, Structural, Debug)]
pub enum WritableValueRegs {
    One(Writable<Reg>),
    Two(Writable<Reg>, Writable<Reg>),
}

impl WritableValueRegs {
    pub open spec fn view(self) -> Seq<Writable<Reg>> {
        match self {
            WritableValueRegs::One(r) => seq![r],
            WritableValueRegs::Two(a, b) => seq![a, b],
        }
    }

    pub open spec fn spec_to_value_regs(self) -> ValueRegs {
        match self {
            WritableValueRegs::One(r) => ValueRegs::One(r.reg),
            WritableValueRegs::Two(a, b) => ValueRegs::Two(a.reg, b.reg),
        }
    }

    /// The same registers, no longer writable.
    pub fn to_value_regs(self) -> (r: ValueRegs)
        ensures
            r == self.spec_to_value_regs(),
    {
        match self {
            WritableValueRegs::One(r) => ValueRegs::One(r.reg),
            WritableValueRegs::Two(a, b) => ValueRegs::Two(a.reg, b.reg),
        }
    }
}

/// The register bundles one lowered instruction defines.
#[derive(Clone, PartialEq, Debug)]
pub struct InstOutput {
    pub outs: Vec<ValueRegs>,
}

impl InstOutput {
    pub fn new() -> (r: InstOutput)
        ensures
            r.outs@ == Seq::<ValueRegs>::empty(),
    {
        InstOutput { outs: Vec::new() }
    }
}

/// An IR value name.
#[derive(Clone, Copy, PartialEq, Eq, Structural, Debug)]
pub struct Value {
    pub index: u32,
}

/// An IR instruction name.
#[derive(Clone, Copy, PartialEq, Eq, Structural, Debug)]
pub struct IrInst {
    pub index: u32,
}

/// The payload of one IR instruction, as far as this layer inspects it.
#[derive(Clone, PartialEq, Debug)]
pub enum IrData {
    Iconst { ty: Type, imm: u64 },
    Bconst { ty: Type, imm: bool },
    FloatConst { ty: Type, bits: u64 },
    Icmp { cc: IntCC, a: Value, b: Value, ty: Type },
    Ifcmp { a: Value, b: Value, ty: Type },
    Ffcmp { a: Value, b: Value, ty: Type },
    IaddIfcout { a: Value, b: Value, ty: Type },
    Ret { rets: Vec<Value> },
    Brz { arg: Value, ty: Type },
    Brnz { arg: Value, ty: Type },
    BrIcmp { cc: IntCC, a: Value, b: Value, ty: Type },
    BrFcmp { cc: FloatCC, a: Value, b: Value, ty: Type },
    BrTable { index: Value },
    Jump,
}

impl IrData {
    pub open spec fn spec_opcode(self) -> Opcode {
        match self {
            IrData::Iconst { .. } => Opcode::Iconst,
            IrData::Bconst { .. } => Opcode::Bconst,
            IrData::FloatConst { ty, .. } => if ty == Type::F32 {
                Opcode::F32const
            } else {
                Opcode::F64const
            },
            IrData::Icmp { .. } => Opcode::Icmp,
            IrData::Ifcmp { .. } => Opcode::Ifcmp,
            IrData::Ffcmp { .. } => Opcode::Ffcmp,
            IrData::IaddIfcout { .. } => Opcode::IaddIfcout,
            IrData::Ret { .. } => Opcode::Return,
            IrData::Brz { .. } => Opcode::Brz,
            IrData::Brnz { .. } => Opcode::Brnz,
            IrData::BrIcmp { .. } => Opcode::BrIcmp,
            IrData::BrFcmp { .. } => Opcode::Brif,
            IrData::BrTable { .. } => Opcode::BrTable,
            IrData::Jump => Opcode::Jump,
        }
    }

    pub fn opcode(&self) -> (r: Opcode)
        ensures
            r == self.spec_opcode(),
    {
        match self {
            IrData::Iconst { .. } => Opcode::Iconst,
            IrData::Bconst { .. } => Opcode::Bconst,
            IrData::FloatConst { ty, .. } => if *ty == Type::F32 {
                Opcode::F32const
            } else {
                Opcode::F64const
            },
            IrData::Icmp { .. } => Opcode::Icmp,
            IrData::Ifcmp { .. } => Opcode::Ifcmp,
            IrData::Ffcmp { .. } => Opcode::Ffcmp,
            IrData::IaddIfcout { .. } => Opcode::IaddIfcout,
            IrData::Ret { .. } => Opcode::Return,
            IrData::Brz { .. } => Opcode::Brz,
            IrData::Brnz { .. } => Opcode::Brnz,
            IrData::BrIcmp { .. } => Opcode::BrIcmp,
            IrData::BrFcmp { .. } => Opcode::Brif,
            IrData::BrTable { .. } => Opcode::BrTable,
            IrData::Jump => Opcode::Jump,
        }
    }
}

/// Where one IR value lives when lowering reaches a use of it: already in
/// registers, or a constant not yet materialized.
#[derive(Clone, Copy, PartialEq, Eq, Structural, Debug)]
pub enum ValueLoc {
    Regs(ValueRegs),
    ConstInt(u64),
}

/// Everything the context knows about one IR value.
#[derive(Clone, Copy, PartialEq, Eq, Structural, Debug)]
pub struct ValueDef {
    pub loc: ValueLoc,
    pub ty: Type,
    pub def: Option<IrInst>,
}

/// The machine context lowering rules work through: the per-function output
/// buffer, the temporary-register counter, and the read-only tables that
/// describe the function being lowered.
pub struct IsleContext {
    pub emitted: InstVec,
    pub next_vreg: u32,
    pub values: Vec<ValueDef>,
    pub insts: Vec<IrData>,
    pub retvals: Vec<ValueRegs>,
    pub stackslot_offsets: Vec<i64>,
    pub flags: Flags,
    pub isa_flags: RiscvFlags,
}

/// A sized stack slot of the current function's frame.
#[derive(Clone, Copy, PartialEq, Eq, Structural, Debug)]
pub struct StackSlot {
    pub index: u32,
}

/// A constant is canonicalized before materialization: boolean truth is the
/// all-ones pattern, never a bare one.
pub open spec fn spec_canon_imm(ty: Type, val: u64) -> u64 {
    if ty.spec_is_bool() && val != 0 {
        0xffff_ffff_ffff_ffff
    } else {
        val
    }
}

/// The fresh virtual register the context hands out next for a class.
pub open spec fn spec_fresh_reg(ctx: IsleContext, class: RegClass) -> Reg {
    Reg::Virtual((VirtualReg { class, index: ctx.next_vreg }))
}

/// What materializing one value yields, from its table entry and the
/// temporary counter: the backing registers, the instructions emitted to
/// produce them (none when the value already lives in registers), and the
/// counter afterwards.
pub open spec fn spec_put_from(vd: ValueDef, nv: u32) -> (ValueRegs, Seq<Inst>, u32) {
    match vd.loc {
        ValueLoc::Regs(r) => (r, Seq::empty(), nv),
        ValueLoc::ConstInt(c) => {
            let rd = Reg::Virtual((VirtualReg { class: spec_class_of_type(vd.ty), index: nv }));
            (
                ValueRegs::One(rd),
                spec_load_const_insts((Writable { reg: rd }), spec_canon_imm(vd.ty, c)),
                (nv + 1) as u32,
            )
        },
    }
}

/// What materializing one value of a context yields.
pub open spec fn spec_put_in_regs(ctx: IsleContext, val: Value) -> (ValueRegs, Seq<Inst>, u32) {
    spec_put_from(ctx.values@[val.index as int], ctx.next_vreg)
}

/// The first backing register of a value.
pub open spec fn spec_put_in_reg(ctx: IsleContext, val: Value) -> Reg {
    spec_put_in_regs(ctx, val).0.view()[0]
}

impl IsleContext {
    /// A value name is usable when it indexes the value table; a constant
    /// value must be one word or narrower, and a defining instruction must
    /// index the instruction table.
    pub open spec fn wf_value(self, val: Value) -> bool {
        &&& (val.index as int) < self.values@.len()
        &&& (self.values@[val.index as int].loc matches ValueLoc::ConstInt(_)
            ==> self.values@[val.index as int].ty.spec_bits() <= 64)
        &&& (self.values@[val.index as int].def matches Some(i) ==> (i.index as int)
            < self.insts@.len())
    }

    /// The read-only tables of the context: everything but the output
    /// buffer and the temporary counter.
    pub open spec fn same_tables(self, other: IsleContext) -> bool {
        &&& self.values == other.values
        &&& self.insts == other.insts
        &&& self.retvals == other.retvals
        &&& self.stackslot_offsets == other.stackslot_offsets
        &&& self.flags == other.flags
        &&& self.isa_flags == other.isa_flags
    }

    /// Append one instruction to the per-function output buffer.
    pub fn emit(&mut self, inst: Inst)
        ensures
            inst_seq(final(self).emitted) == inst_seq(old(self).emitted).push(inst),
            final(self).next_vreg == old(self).next_vreg,
            old(self).same_tables(*final(self)),
    {
        inst_vec_push(&mut self.emitted, inst);
    }

    /// Append a whole instruction sequence, in order.
    pub fn emit_list(&mut self, list: InstVec)
        ensures
            inst_seq(final(self).emitted) == inst_seq(old(self).emitted) + inst_seq(list),
            final(self).next_vreg == old(self).next_vreg,
            old(self).same_tables(*final(self)),
    {
        inst_vec_append(&mut self.emitted, list);
    }

    /// Allocate a fresh temporary register of the class that carries the
    /// given type.
    pub fn temp_writable_reg(&mut self, ty: Type) -> (r: Writable<Reg>)
        requires
            old(self).next_vreg < u32::MAX,
        ensures
            r == (Writable { reg: spec_fresh_reg(*old(self), spec_class_of_type(ty)) }),
            final(self).next_vreg == old(self).next_vreg + 1,
            final(self).emitted == old(self).emitted,
            old(self).same_tables(*final(self)),
    {
        let class = class_of_type(ty);
        let idx = self.next_vreg;
        self.next_vreg = self.next_vreg + 1;
        Writable { reg: Reg::Virtual(VirtualReg { class, index: idx }) }
    }

    /// Materialize a constant into a fresh register. Boolean truth becomes
    /// the all-ones pattern.
    pub fn imm(&mut self, ty: Type, val: u64) -> (r: Reg)
        requires
            old(self).next_vreg < u32::MAX,
        ensures
            r == spec_fresh_reg(*old(self), spec_class_of_type(ty)),
            final(self).next_vreg == old(self).next_vreg + 1,
            inst_seq(final(self).emitted) == inst_seq(old(self).emitted) + spec_load_const_insts(
                (Writable { reg: r }),
                spec_canon_imm(ty, val),
            ),
            old(self).same_tables(*final(self)),
    {
        let mut v = val;
        if ty.is_bool() && v != 0 {
            v = 0xffff_ffff_ffff_ffff;
        }
        let tmp = self.temp_writable_reg(ty);
        self.emit_list(Inst::load_constant_u64(tmp, v));
        tmp.to_reg()
    }

    /// The registers that back a value, materializing a constant into a
    /// fresh temporary when it has none yet.
    pub fn put_in_regs(&mut self, val: Value) -> (r: ValueRegs)
        requires
            old(self).wf_value(val),
            old(self).next_vreg < u32::MAX,
        ensures
            ({
                let (regs, insts, nv) = spec_put_in_regs(*old(self), val);
                &&& r == regs
                &&& inst_seq(final(self).emitted) == inst_seq(old(self).emitted) + insts
                &&& final(self).next_vreg == nv
                &&& old(self).same_tables(*final(self))
            }),
    {
        let vd = self.values[val.index as usize];
        match vd.loc {
            ValueLoc::Regs(r) => {
                proof {
                    assert(inst_seq(self.emitted) =~= inst_seq(self.emitted) + Seq::<
                        Inst,
                    >::empty());
                }
                r
            },
            ValueLoc::ConstInt(c) => {
                let reg = self.imm(vd.ty, c);
                ValueRegs::One(reg)
            },
        }
    }

    /// The single register that backs a one-register value.
    pub fn put_in_reg(&mut self, val: Value) -> (r: Reg)
        requires
            old(self).wf_value(val),
            old(self).next_vreg < u32::MAX,
        ensures
            ({
                let (regs, insts, nv) = spec_put_in_regs(*old(self), val);
                &&& r == regs.view()[0]
                &&& inst_seq(final(self).emitted) == inst_seq(old(self).emitted) + insts
                &&& final(self).next_vreg == nv
                &&& old(self).same_tables(*final(self))
            }),
    {
        let regs = self.put_in_regs(val);
        match regs {
            ValueRegs::One(r) => r,
            ValueRegs::Two(a, _) => a,
        }
    }
}

/// The destination bundle for a result of the given type: two full integer
/// registers for a double-word integer, one register otherwise.
pub fn construct_dest(ctx: &mut IsleContext, ty: Type) -> (r: WritableValueRegs)
    requires
        old(ctx).next_vreg + 2 <= u32::MAX,
        ty.spec_is_bool() || ty.spec_is_int() || ty.spec_is_float(),
    ensures
        ({
            let c = *old(ctx);
            &&& (if (ty.spec_is_bool() || ty.spec_is_int()) && ty.spec_bits() == 128 {
                r == WritableValueRegs::Two(
                    (Writable {
                        reg: Reg::Virtual((VirtualReg { class: RegClass::Int, index: c.next_vreg })),
                    }),
                    (Writable {
                        reg: Reg::Virtual(
                            (VirtualReg { class: RegClass::Int, index: (c.next_vreg + 1) as u32 }),
                        ),
                    }),
                ) && final(ctx).next_vreg == c.next_vreg + 2
            } else {
                r == WritableValueRegs::One(
                    (Writable {
                        reg: Reg::Virtual(
                            (VirtualReg { class: spec_class_of_type(ty), index: c.next_vreg }),
                        ),
                    }),
                ) && final(ctx).next_vreg == c.next_vreg + 1
            })
            &&& final(ctx).emitted == old(ctx).emitted
            &&& old(ctx).same_tables(*final(ctx))
        }),
{
    if ty.is_bool() || ty.is_int() {
        if ty.bits() == 128 {
            let a = ctx.temp_writable_reg(Type::I64);
            let b = ctx.temp_writable_reg(Type::I64);
            WritableValueRegs::Two(a, b)
        } else {
            WritableValueRegs::One(ctx.temp_writable_reg(Type::I64))
        }
    } else {
        WritableValueRegs::One(ctx.temp_writable_reg(Type::F64))
    }
}

/// The fresh destination bundle a copy for the given output type is built
/// into: two fresh integer temporaries for a double-word integer, one
/// fresh temporary of the type's class otherwise.
pub open spec fn spec_gen_moves_dests(c: IsleContext, out_ty: Type) -> WritableValueRegs {
    if (out_ty.spec_is_bool() || out_ty.spec_is_int()) && out_ty.spec_bits() == 128 {
        WritableValueRegs::Two(
            (Writable {
                reg: Reg::Virtual((VirtualReg { class: RegClass::Int, index: c.next_vreg })),
            }),
            (Writable {
                reg: Reg::Virtual(
                    (VirtualReg { class: RegClass::Int, index: (c.next_vreg + 1) as u32 }),
                ),
            }),
        )
    } else {
        WritableValueRegs::One(
            (Writable {
                reg: Reg::Virtual(
                    (VirtualReg { class: spec_class_of_type(out_ty), index: c.next_vreg }),
                ),
            }),
        )
    }
}

/// The moves that copy a source bundle into a destination bundle, one per
/// slot, each at the canonical full width of its source's class.
pub open spec fn spec_move_insts(dsts: Seq<Writable<Reg>>, srcs: Seq<Reg>) -> Seq<Inst> {
    Seq::new(
        srcs.len(),
        |i: int|
            (Inst::Mov {
                rd: dsts[i],
                rm: srcs[i],
                ty: spec_canonical_type_for_class(srcs[i].spec_class()),
            }),
    )
}

/// Copy each source register to the matching destination register, in slot
/// order.
pub fn gen_moves(dsts: WritableValueRegs, srcs: ValueRegs) -> (r: InstVec)
    requires
        dsts.view().len() == srcs.view().len(),
    ensures
        inst_seq(r) == spec_move_insts(dsts.view(), srcs.view()),
{
    let mut insts = inst_vec_new();
    match (dsts, srcs) {
        (WritableValueRegs::One(d), ValueRegs::One(s)) => {
            inst_vec_push(
                &mut insts,
                Inst::gen_move(d, s, canonical_type_for_class(s.class())),
            );
        },
        (WritableValueRegs::Two(d0, d1), ValueRegs::Two(s0, s1)) => {
            inst_vec_push(
                &mut insts,
                Inst::gen_move(d0, s0, canonical_type_for_class(s0.class())),
            );
            inst_vec_push(
                &mut insts,
                Inst::gen_move(d1, s1, canonical_type_for_class(s1.class())),
            );
        },
        _ => {
            proof {
                assert(false);
            }
        },
    }
    proof {
        assert(inst_seq(insts) =~= spec_move_insts(dsts.view(), srcs.view()));
    }
    insts
}

impl IsleContext {
    /// The value bundle behind a one- or two-register writable list.
    pub fn vec_regs_to_value_regs(&mut self, val: &Vec<Writable<Reg>>) -> (r: ValueRegs)
        requires
            1 <= val@.len() <= 2,
        ensures
            val@.len() == 1 ==> r == ValueRegs::One(val@[0].reg),
            val@.len() == 2 ==> r == ValueRegs::Two(val@[0].reg, val@[1].reg),
            *final(self) == *old(self),
    {
        if val.len() == 1 {
            ValueRegs::One(val[0].to_reg())
        } else {
            ValueRegs::Two(val[0].to_reg(), val[1].to_reg())
        }
    }

    /// A boolean-extension pattern is valid when it widens one boolean type
    /// to a wider one.
    pub fn valid_bextend_ty(&mut self, from: Type, to: Type) -> (r: Option<Type>)
        ensures
            r == (if from.spec_is_bool() && to.spec_is_bool() && from.spec_bits()
                < to.spec_bits() {
                Some(to)
            } else {
                Option::<Type>::None
            }),
            *final(self) == *old(self),
    {
        if from.is_bool() && to.is_bool() && from.bits() < to.bits() {
            Some(to)
        } else {
            None
        }
    }

    /// Load the saved return address from the frame header into a fresh
    /// temporary.
    pub fn load_ra(&mut self) -> (r: Reg)
        requires
            old(self).next_vreg < u32::MAX,
        ensures
            r == spec_fresh_reg(*old(self), RegClass::Int),
            final(self).next_vreg == old(self).next_vreg + 1,
            inst_seq(final(self).emitted) == inst_seq(old(self).emitted).push(
                (Inst::Load {
                    rd: (Writable { reg: r }),
                    op: LoadOP::Ld,
                    flags: (MemFlags { notrap: true, aligned: true }),
                    from: AMode::FPOffset(8, Type::I64),
                }),
            ),
            old(self).same_tables(*final(self)),
    {
        let tmp = self.temp_writable_reg(Type::I64);
        self.emit(
            Inst::Load {
                rd: tmp,
                op: LoadOP::Ld,
                flags: MemFlags::trusted(),
                from: AMode::FPOffset(8, Type::I64),
            },
        );
        tmp.to_reg()
    }

    /// The zero register, doubled for a two-register type.
    pub fn int_zero_reg(&mut self, ty: Type) -> (r: ValueRegs)
        requires
            ty.spec_is_int() || ty.spec_is_bool(),
        ensures
            r == (if ty.spec_bits() == 128 {
                ValueRegs::Two(spec_x_reg(0), spec_x_reg(0))
            } else {
                ValueRegs::One(spec_x_reg(0))
            }),
            *final(self) == *old(self),
    {
        if ty.bits() == 128 {
            ValueRegs::Two(make_zero_reg(), make_zero_reg())
        } else {
            ValueRegs::One(make_zero_reg())
        }
    }

    pub fn vec_label_get(&mut self, val: &Vec<MachLabel>, x: u8) -> (r: MachLabel)
        requires
            (x as int) < val@.len(),
        ensures
            r == val@[x as int],
            *final(self) == *old(self),
    {
        val[x as usize]
    }

    pub fn label_to_br_target(&mut self, label: MachLabel) -> (r: BranchTarget)
        ensures
            r == BranchTarget::Label(label),
            *final(self) == *old(self),
    {
        BranchTarget::Label(label)
    }

    /// An output of exactly two register bundles.
    pub fn output_2(&mut self, x: ValueRegs, y: ValueRegs) -> (r: InstOutput)
        ensures
            r.outs@ == seq![x, y],
            *final(self) == *old(self),
    {
        let mut outs: Vec<ValueRegs> = Vec::new();
        outs.push(x);
        outs.push(y);
        proof {
            assert(outs@ =~= seq![x, y]);
        }
        InstOutput { outs }
    }

    pub fn vec_writable_clone(&mut self, v: &Vec<Writable<Reg>>) -> (r: Vec<Writable<Reg>>)
        ensures
            r@ == v@,
            *final(self) == *old(self),
    {
        let mut out: Vec<Writable<Reg>> = Vec::new();
        let mut i: usize = 0;
        while i < v.len()
            invariant
                i <= v@.len(),
                out@ == v@.take(i as int),
            decreases v@.len() - i,
        {
            out.push(v[i]);
            i = i + 1;
            proof {
                assert(out@ =~= v@.take(i as int));
            }
        }
        proof {
            assert(out@ =~= v@);
        }
        out
    }

    /// The instruction that defines a value, when one does.
    pub fn value_inst(&mut self, val: Value) -> (r: Option<IrInst>)
        requires
            old(self).wf_value(val),
        ensures
            r == old(self).values@[val.index as int].def,
            *final(self) == *old(self),
    {
        self.values[val.index as usize].def
    }

    /// The bitwise and of an immediate with a mask.
    pub fn imm12_and(&mut self, imm: Imm12, andn: i32) -> (r: Imm12)
        ensures
            r.bits == imm.bits & (andn as i16),
            *final(self) == *old(self),
    {
        Imm12 { bits: imm.as_i16() & (#[verifier::truncate] (andn as i16)) }
    }

    /// Fresh writable registers for a result of the given type: two for a
    /// double-word integer, one otherwise.
    pub fn alloc_vec_writable(&mut self, ty: Type) -> (r: Vec<Writable<Reg>>)
        requires
            old(self).next_vreg + 2 <= u32::MAX,
            ty.spec_is_int() || ty.spec_is_bool() || ty.spec_is_float(),
        ensures
            ({
                let c = *old(self);
                &&& (if (ty.spec_is_int() || ty.spec_is_bool()) && ty.spec_bits() <= 64 {
                    r@ == seq![(Writable { reg: spec_fresh_reg(c, RegClass::Int) })]
                        && final(self).next_vreg == c.next_vreg + 1
                } else if ty.spec_is_int() || ty.spec_is_bool() {
                    r@ == seq![
                        (Writable { reg: spec_fresh_reg(c, RegClass::Int) }),
                        (Writable {
                            reg: Reg::Virtual(
                                (VirtualReg { class: RegClass::Int, index: (c.next_vreg + 1) as u32 }),
                            ),
                        }),
                    ] && final(self).next_vreg == c.next_vreg + 2
                } else {
                    r@ == seq![(Writable { reg: spec_fresh_reg(c, RegClass::Float) })]
                        && final(self).next_vreg == c.next_vreg + 1
                })
                &&& final(self).emitted == old(self).emitted
                &&& old(self).same_tables(*final(self))
            }),
    {
        let mut out: Vec<Writable<Reg>> = Vec::new();
        if ty.is_int() || ty.is_bool() {
            if ty.bits() <= 64 {
                out.push(self.temp_writable_reg(Type::I64));
            } else {
                out.push(self.temp_writable_reg(Type::I64));
                out.push(self.temp_writable_reg(Type::I64));
                proof {
                    assert(out@ =~= seq![out@[0], out@[1]]);
                }
            }
        } else {
            out.push(self.temp_writable_reg(ty));
        }
        out
    }

    pub fn imm12_from_u64(&mut self, arg0: u64) -> (r: Option<Imm12>)
        ensures
            r.is_some() <==> Imm12::spec_fits_in_imm12(arg0),
            r.is_some() ==> r.unwrap() == Imm12::spec_from_u64(arg0),
            *final(self) == *old(self),
    {
        Imm12::maybe_from_u64(arg0)
    }

    pub fn writable_zero_reg(&mut self) -> (r: Writable<Reg>)
        ensures
            r.reg == spec_x_reg(0),
            *final(self) == *old(self),
    {
        make_writable_zero_reg()
    }

    pub fn neg_imm12(&mut self, arg0: Imm12) -> (r: Imm12)
        requires
            arg0.well_formed(),
            arg0.bits != -2048,
        ensures
            r.bits == -arg0.bits,
            *final(self) == *old(self),
    {
        arg0.negate()
    }

    pub fn zero_reg(&mut self) -> (r: Reg)
        ensures
            r == spec_x_reg(0),
            *final(self) == *old(self),
    {
        make_zero_reg()
    }

    /// An immediate from a value already known to fit the field.
    pub fn imm_from_bits(&mut self, val: u64) -> (r: Imm12)
        requires
            Imm12::spec_fits_in_imm12(val),
        ensures
            r == Imm12::spec_from_u64(val),
            *final(self) == *old(self),
    {
        match Imm12::maybe_from_u64(val) {
            Some(imm) => imm,
            None => {
                proof {
                    assert(false);
                }
                Imm12::zero()
            },
        }
    }

    /// An immediate from a negative value already known to fit the field.
    pub fn imm_from_neg_bits(&mut self, val: i64) -> (r: Imm12)
        requires
            Imm12::spec_fits_in_imm12(val as u64),
        ensures
            r == Imm12::spec_from_u64(val as u64),
            *final(self) == *old(self),
    {
        match Imm12::maybe_from_u64(val as u64) {
            Some(imm) => imm,
            None => {
                proof {
                    assert(false);
                }
                Imm12::zero()
            },
        }
    }

    /// No explicit rounding mode: the default frm register state applies.
    pub fn gen_default_frm(&mut self) -> (r: Option<FRM>)
        ensures
            r is None,
            *final(self) == *old(self),
    {
        None
    }

    /// A conditional select into a fresh register of the first operand's
    /// class.
    pub fn gen_select_reg(&mut self, cc: IntCC, a: Reg, b: Reg, rs1: Reg, rs2: Reg) -> (r: Reg)
        requires
            old(self).next_vreg < u32::MAX,
        ensures
            r == spec_fresh_reg(*old(self), rs1.spec_class()),
            final(self).next_vreg == old(self).next_vreg + 1,
            inst_seq(final(self).emitted) == inst_seq(old(self).emitted).push(
                (Inst::SelectReg {
                    rd: (Writable { reg: r }),
                    rs1,
                    rs2,
                    condition: (IntegerCompare { kind: cc, rs1: a, rs2: b }),
                }),
            ),
            old(self).same_tables(*final(self)),
    {
        let rd = self.temp_writable_reg(canonical_type_for_class(rs1.class()));
        self.emit(
            Inst::SelectReg { rd, rs1, rs2, condition: IntegerCompare { kind: cc, rs1: a, rs2: b } },
        );
        rd.to_reg()
    }

    /// Materialize a 64-bit constant into a fresh integer temporary.
    pub fn load_u64_constant(&mut self, val: u64) -> (r: Reg)
        requires
            old(self).next_vreg < u32::MAX,
        ensures
            r == spec_fresh_reg(*old(self), RegClass::Int),
            final(self).next_vreg == old(self).next_vreg + 1,
            inst_seq(final(self).emitted) == inst_seq(old(self).emitted) + spec_load_const_insts(
                (Writable { reg: r }),
                val,
            ),
            old(self).same_tables(*final(self)),
    {
        let rd = self.temp_writable_reg(Type::I64);
        self.emit_list(Inst::load_constant_u64(rd, val));
        rd.to_reg()
    }

    pub fn u8_as_i32(&mut self, x: u8) -> (r: i32)
        ensures
            r == x as i32,
            *final(self) == *old(self),
    {
        x as i32
    }

    /// Extract the sign bit of a value of the given width into a fresh
    /// register.
    pub fn ext_sign_bit(&mut self, ty: Type, r: Reg) -> (res: Reg)
        requires
            ty.spec_is_int(),
            old(self).next_vreg < u32::MAX,
        ensures
            res == spec_fresh_reg(*old(self), RegClass::Int),
            final(self).next_vreg == old(self).next_vreg + 1,
            inst_seq(final(self).emitted) == inst_seq(old(self).emitted).push(
                (Inst::AluRRImm12 {
                    alu_op: AluOPRRI::Bexti,
                    rd: (Writable { reg: res }),
                    rs: r,
                    imm12: (Imm12 { bits: (ty.spec_bits() - 1) as i16 }),
                }),
            ),
            old(self).same_tables(*final(self)),
    {
        let rd = self.temp_writable_reg(Type::I64);
        let width = ty.bits();
        self.emit(
            Inst::AluRRImm12 {
                alu_op: AluOPRRI::Bexti,
                rd,
                rs: r,
                imm12: Imm12::from_bits((width - 1) as i16),
            },
        );
        rd.to_reg()
    }

    pub fn imm12_const(&mut self, val: i32) -> (r: Imm12)
        requires
            Imm12::spec_fits_in_imm12(val as u64),
        ensures
            r == Imm12::spec_from_u64(val as u64),
            *final(self) == *old(self),
    {
        match Imm12::maybe_from_u64(val as u64) {
            Some(imm) => imm,
            None => {
                proof {
                    assert(false);
                }
                Imm12::zero()
            },
        }
    }

    pub fn imm12_const_add(&mut self, val: i32, add: i32) -> (r: Imm12)
        requires
            i32::MIN <= val + add <= i32::MAX,
            Imm12::spec_fits_in_imm12(((val + add) as i32) as u64),
        ensures
            r == Imm12::spec_from_u64(((val + add) as i32) as u64),
            *final(self) == *old(self),
    {
        let sum: i32 = val + add;
        match Imm12::maybe_from_u64(sum as u64) {
            Some(imm) => imm,
            None => {
                proof {
                    assert(false);
                }
                Imm12::zero()
            },
        }
    }

    /// The first backing register of a value.
    pub fn valueregs_2_reg(&mut self, val: Value) -> (r: Reg)
        requires
            old(self).wf_value(val),
            old(self).next_vreg < u32::MAX,
        ensures
            ({
                let (regs, insts, nv) = spec_put_in_regs(*old(self), val);
                &&& r == regs.view()[0]
                &&& inst_seq(final(self).emitted) == inst_seq(old(self).emitted) + insts
                &&& final(self).next_vreg == nv
                &&& old(self).same_tables(*final(self))
            }),
    {
        self.put_in_reg(val)
    }

    pub fn inst_output_get(&mut self, x: &InstOutput, index: u8) -> (r: ValueRegs)
        requires
            (index as int) < x.outs@.len(),
        ensures
            r == x.outs@[index as int],
            *final(self) == *old(self),
    {
        x.outs[index as usize]
    }

    /// The operands and type of the integer-compare-with-flags instruction
    /// that defines a value, when one does.
    pub fn ifcmp_parameters(&mut self, val: Value) -> (r: Option<(Value, Value, Type)>)
        requires
            old(self).wf_value(val),
        ensures
            r == ({
                match old(self).values@[val.index as int].def {
                    Some(i) => match old(self).insts@[i.index as int] {
                        IrData::Ifcmp { a, b, ty } => Some((a, b, ty)),
                        _ => Option::<(Value, Value, Type)>::None,
                    },
                    None => Option::<(Value, Value, Type)>::None,
                }
            }),
            *final(self) == *old(self),
    {
        match self.values[val.index as usize].def {
            Some(i) => match self.insts[i.index as usize] {
                IrData::Ifcmp { a, b, ty } => Some((a, b, ty)),
                _ => None,
            },
            None => None,
        }
    }

    /// The operands and type of the add-with-carry-out instruction that
    /// defines a value, when one does.
    pub fn iadd_ifcout_parameter(&mut self, val: Value) -> (r: Option<(Value, Value, Type)>)
        requires
            old(self).wf_value(val),
        ensures
            r == ({
                match old(self).values@[val.index as int].def {
                    Some(i) => match old(self).insts@[i.index as int] {
                        IrData::IaddIfcout { a, b, ty } => Some((a, b, ty)),
                        _ => Option::<(Value, Value, Type)>::None,
                    },
                    None => Option::<(Value, Value, Type)>::None,
                }
            }),
            *final(self) == *old(self),
    {
        match self.values[val.index as usize].def {
            Some(i) => match self.insts[i.index as usize] {
                IrData::IaddIfcout { a, b, ty } => Some((a, b, ty)),
                _ => None,
            },
            None => None,
        }
    }

    /// The operands and type of the float-compare-with-flags instruction
    /// that defines a value, when one does.
    pub fn ffcmp_parameters(&mut self, val: Value) -> (r: Option<(Value, Value, Type)>)
        requires
            old(self).wf_value(val),
        ensures
            r == ({
                match old(self).values@[val.index as int].def {
                    Some(i) => match old(self).insts@[i.index as int] {
                        IrData::Ffcmp { a, b, ty } => Some((a, b, ty)),
                        _ => Option::<(Value, Value, Type)>::None,
                    },
                    None => Option::<(Value, Value, Type)>::None,
                }
            }),
            *final(self) == *old(self),
    {
        match self.values[val.index as usize].def {
            Some(i) => match self.insts[i.index as usize] {
                IrData::Ffcmp { a, b, ty } => Some((a, b, ty)),
                _ => None,
            },
            None => None,
        }
    }

    /// Materialize a floating-point constant from its bit pattern: load the
    /// bits into a fresh integer temporary, then move them raw into a fresh
    /// float register.
    pub fn load_float_const(&mut self, val: u64, ty: Type) -> (r: Reg)
        requires
            ty == Type::F32 || ty == Type::F64,
            old(self).next_vreg + 2 <= u32::MAX,
        ensures
            ({
                let c = *old(self);
                let result = spec_fresh_reg(c, RegClass::Float);
                let tmp = Reg::Virtual(
                    (VirtualReg { class: RegClass::Int, index: (c.next_vreg + 1) as u32 }),
                );
                &&& r == result
                &&& final(self).next_vreg == c.next_vreg + 2
                &&& inst_seq(final(self).emitted) == inst_seq(c.emitted) + spec_load_const_insts(
                    (Writable { reg: tmp }),
                    val,
                ).push(
                    (Inst::FpuRR {
                        op: if ty == Type::F32 {
                            FpuOPRR::FmvWX
                        } else {
                            FpuOPRR::FmvDX
                        },
                        frm: Option::<FRM>::None,
                        rd: (Writable { reg: result }),
                        rs: tmp,
                    }),
                )
                &&& c.same_tables(*final(self))
            }),
    {
        let result = self.temp_writable_reg(ty);
        let tmp = self.temp_writable_reg(Type::I64);
        self.emit_list(Inst::load_constant_u64(tmp, val));
        let op = if ty == Type::F32 {
            FpuOPRR::FmvWX
        } else {
            FpuOPRR::FmvDX
        };
        self.emit(Inst::FpuRR { op, frm: None, rd: result, rs: tmp.to_reg() });
        result.to_reg()
    }

    /// Move the raw bits of a float register into a fresh integer register.
    pub fn move_f_to_x(&mut self, r: Reg, ty: Type) -> (res: Reg)
        requires
            ty == Type::F32 || ty == Type::F64,
            old(self).next_vreg < u32::MAX,
        ensures
            res == spec_fresh_reg(*old(self), RegClass::Int),
            final(self).next_vreg == old(self).next_vreg + 1,
            inst_seq(final(self).emitted) == inst_seq(old(self).emitted).push(
                (Inst::FpuRR {
                    op: if ty == Type::F32 {
                        FpuOPRR::FmvXW
                    } else {
                        FpuOPRR::FmvXD
                    },
                    frm: Option::<FRM>::None,
                    rd: (Writable { reg: res }),
                    rs: r,
                }),
            ),
            old(self).same_tables(*final(self)),
    {
        let result = self.temp_writable_reg(Type::I64);
        let op = if ty == Type::F32 {
            FpuOPRR::FmvXW
        } else {
            FpuOPRR::FmvXD
        };
        self.emit(Inst::FpuRR { op, frm: None, rd: result, rs: r });
        result.to_reg()
    }

    /// Move the raw bits of an integer register into a fresh float register.
    pub fn move_x_to_f(&mut self, r: Reg, ty: Type) -> (res: Reg)
        requires
            ty == Type::F32 || ty == Type::F64,
            old(self).next_vreg < u32::MAX,
        ensures
            res == spec_fresh_reg(*old(self), RegClass::Float),
            final(self).next_vreg == old(self).next_vreg + 1,
            inst_seq(final(self).emitted) == inst_seq(old(self).emitted).push(
                (Inst::FpuRR {
                    op: if ty == Type::F32 {
                        FpuOPRR::FmvWX
                    } else {
                        FpuOPRR::FmvDX
                    },
                    frm: Option::<FRM>::None,
                    rd: (Writable { reg: res }),
                    rs: r,
                }),
            ),
            old(self).same_tables(*final(self)),
    {
        let result = self.temp_writable_reg(ty);
        let op = if ty == Type::F32 {
            FpuOPRR::FmvWX
        } else {
            FpuOPRR::FmvDX
        };
        self.emit(Inst::FpuRR { op, frm: None, rd: result, rs: r });
        result.to_reg()
    }

    pub fn offset32_imm(&mut self, offset: i32) -> (r: Offset32)
        ensures
            r == (Offset32 { value: offset }),
            *final(self) == *old(self),
    {
        Offset32::new(offset)
    }

    pub fn default_memflags(&mut self) -> (r: MemFlags)
        ensures
            r == (MemFlags { notrap: false, aligned: false }),
            *final(self) == *old(self),
    {
        MemFlags::new()
    }

    pub fn pack_float_rounding_mode(&mut self, f: FRM) -> (r: Option<FRM>)
        ensures
            r == Some(f),
            *final(self) == *old(self),
    {
        Some(f)
    }

    /// The conversion operation from a float type to an integer type.
    pub fn float_convert_2_int_op(&mut self, from: Type, is_signed: bool, to: Type) -> (r: FpuOPRR)
        requires
            from == Type::F32 || from == Type::F64,
            to.spec_is_int() && to.spec_bits() <= 64,
        ensures
            r == spec_float_convert_2_int_op(from, is_signed, to),
            *final(self) == *old(self),
    {
        if from == Type::F32 {
            if to.bits() <= 32 {
                if is_signed {
                    FpuOPRR::FcvtWS
                } else {
                    FpuOPRR::FcvtWuS
                }
            } else {
                if is_signed {
                    FpuOPRR::FcvtLS
                } else {
                    FpuOPRR::FcvtLuS
                }
            }
        } else {
            if to.bits() <= 32 {
                if is_signed {
                    FpuOPRR::FcvtWD
                } else {
                    FpuOPRR::FcvtWuD
                }
            } else {
                if is_signed {
                    FpuOPRR::FcvtLD
                } else {
                    FpuOPRR::FcvtLuD
                }
            }
        }
    }

    /// The conversion operation from an integer type to a float type.
    pub fn int_convert_2_float_op(&mut self, from: Type, is_signed: bool, to: Type) -> (r: FpuOPRR)
        requires
            from.spec_is_int() && from.spec_bits() <= 64,
            to == Type::F32 || to == Type::F64,
        ensures
            r == spec_int_convert_2_float_op(from, is_signed, to),
            *final(self) == *old(self),
    {
        if from.bits() <= 32 {
            if to == Type::F32 {
                if is_signed {
                    FpuOPRR::FcvtSW
                } else {
                    FpuOPRR::FcvtSWu
                }
            } else {
                if is_signed {
                    FpuOPRR::FcvtDW
                } else {
                    FpuOPRR::FcvtDWu
                }
            }
        } else {
            if to == Type::F32 {
                if is_signed {
                    FpuOPRR::FcvtSL
                } else {
                    FpuOPRR::FcvtSLu
                }
            } else {
                if is_signed {
                    FpuOPRR::FcvtDL
                } else {
                    FpuOPRR::FcvtDLu
                }
            }
        }
    }

    pub fn gen_amode(&mut self, base: Reg, offset: Offset32, ty: Type) -> (r: AMode)
        ensures
            r == AMode::RegOffset(base, offset.value as i64, ty),
            *final(self) == *old(self),
    {
        AMode::RegOffset(base, offset.value as i64, ty)
    }

    /// Only 32- and 64-bit integers may take part in an atomic transaction;
    /// any other width reports no match.
    pub fn valid_atomic_transaction(&mut self, ty: Type) -> (r: Option<Type>)
        ensures
            r == (if ty == Type::I32 || ty == Type::I64 {
                Some(ty)
            } else {
                Option::<Type>::None
            }),
            *final(self) == *old(self),
    {
        if ty == Type::I32 || ty == Type::I64 {
            Some(ty)
        } else {
            None
        }
    }

    pub fn load_op(&mut self, ty: Type) -> (r: LoadOP)
        ensures
            r == LoadOP::spec_from_type(ty),
            *final(self) == *old(self),
    {
        LoadOP::from_type(ty)
    }

    pub fn store_op(&mut self, ty: Type) -> (r: StoreOP)
        ensures
            r == StoreOP::spec_from_type(ty),
            *final(self) == *old(self),
    {
        StoreOP::from_type(ty)
    }

    /// Materialize the address of an external name into a fresh register.
    pub fn load_ext_name(&mut self, name: ExternalName, offset: i64) -> (r: Reg)
        requires
            old(self).next_vreg < u32::MAX,
        ensures
            r == spec_fresh_reg(*old(self), RegClass::Int),
            final(self).next_vreg == old(self).next_vreg + 1,
            inst_seq(final(self).emitted) == inst_seq(old(self).emitted).push(
                (Inst::LoadExtName { rd: (Writable { reg: r }), name, offset }),
            ),
            old(self).same_tables(*final(self)),
    {
        let tmp = self.temp_writable_reg(Type::I64);
        self.emit(Inst::LoadExtName { rd: tmp, name, offset });
        tmp.to_reg()
    }

    pub fn offset32_add(&mut self, a: Offset32, adden: i64) -> (r: Offset32)
        requires
            i32::MIN <= a.value + adden <= i32::MAX,
        ensures
            r.value == a.value + adden,
            *final(self) == *old(self),
    {
        Offset32 { value: (a.value as i64 + adden) as i32 }
    }

    /// A value together with its type.
    pub fn type_and_value(&mut self, val: Value) -> (r: (Type, Value))
        requires
            old(self).wf_value(val),
        ensures
            r == (old(self).values@[val.index as int].ty, val),
            *final(self) == *old(self),
    {
        let ty = self.values[val.index as usize].ty;
        (ty, val)
    }

    /// Materialize the address of a sized stack slot, at an offset within
    /// it, into a fresh register.
    pub fn gen_stack_addr(&mut self, slot: StackSlot, offset: Offset32) -> (r: Reg)
        requires
            (slot.index as int) < old(self).stackslot_offsets@.len(),
            i64::MIN <= old(self).stackslot_offsets@[slot.index as int] + offset.value <= i64::MAX,
            old(self).next_vreg < u32::MAX,
        ensures
            r == spec_fresh_reg(*old(self), RegClass::Int),
            final(self).next_vreg == old(self).next_vreg + 1,
            inst_seq(final(self).emitted) == inst_seq(old(self).emitted).push(
                (Inst::LoadAddr {
                    rd: (Writable { reg: r }),
                    mem: AMode::NominalSPOffset(
                        (old(self).stackslot_offsets@[slot.index as int] + offset.value) as i64,
                        Type::I64,
                    ),
                }),
            ),
            old(self).same_tables(*final(self)),
    {
        let result = self.temp_writable_reg(Type::I64);
        let base = self.stackslot_offsets[slot.index as usize];
        let addr: i64 = base + offset.value as i64;
        self.emit(Inst::LoadAddr { rd: result, mem: AMode::NominalSPOffset(addr, Type::I64) });
        result.to_reg()
    }

    /// Atomic accesses use the strongest ordering.
    pub fn atomic_amo(&mut self) -> (r: AMO)
        ensures
            r == AMO::SeqCst,
            *final(self) == *old(self),
    {
        AMO::SeqCst
    }

    /// Copy a register into a fresh temporary of the same type.
    pub fn gen_move(&mut self, r: Reg, ty: Type) -> (res: Reg)
        requires
            old(self).next_vreg < u32::MAX,
        ensures
            res == spec_fresh_reg(*old(self), spec_class_of_type(ty)),
            final(self).next_vreg == old(self).next_vreg + 1,
            inst_seq(final(self).emitted) == inst_seq(old(self).emitted).push(
                (Inst::Mov { rd: (Writable { reg: res }), rm: r, ty }),
            ),
            old(self).same_tables(*final(self)),
    {
        let tmp = self.temp_writable_reg(ty);
        self.emit(Inst::Mov { rd: tmp, rm: r, ty });
        tmp.to_reg()
    }

    /// Bring an integer value to full width, sign-extending a narrow one
    /// into a fresh register; a non-integer value reports no match.
    pub fn sext_int_if_need(&mut self, val: Value) -> (r: Option<(ValueRegs, Type)>)
        requires
            old(self).wf_value(val),
            old(self).next_vreg + 2 <= u32::MAX,
        ensures
            ({
                let ty = old(self).values@[val.index as int].ty;
                let (regs, pins, nv) = spec_put_in_regs(*old(self), val);
                if !ty.spec_is_int() {
                    r is None && *final(self) == *old(self)
                } else if ty.spec_bits() == 128 {
                    &&& r == Some((regs, ty))
                    &&& inst_seq(final(self).emitted) == inst_seq(old(self).emitted) + pins
                    &&& final(self).next_vreg == nv
                    &&& old(self).same_tables(*final(self))
                } else if ty.spec_bits() == 64 {
                    &&& r == Some((ValueRegs::One(regs.view()[0]), ty))
                    &&& inst_seq(final(self).emitted) == inst_seq(old(self).emitted) + pins
                    &&& final(self).next_vreg == nv
                    &&& old(self).same_tables(*final(self))
                } else {
                    let rd = Reg::Virtual((VirtualReg { class: RegClass::Int, index: nv }));
                    &&& r == Some((ValueRegs::One(rd), ty))
                    &&& inst_seq(final(self).emitted) == inst_seq(old(self).emitted) + pins.push(
                        (Inst::Extend {
                            rd: (Writable { reg: rd }),
                            rn: regs.view()[0],
                            signed: true,
                            from_bits: ty.spec_bits() as u8,
                            to_bits: 64,
                        }),
                    )
                    &&& final(self).next_vreg == nv + 1
                    &&& old(self).same_tables(*final(self))
                }
            }),
    {
        let ty = self.values[val.index as usize].ty;
        if !ty.is_int() {
            return None;
        }
        if ty.bits() == 128 {
            let regs = self.put_in_regs(val);
            Some((regs, ty))
        } else if ty.bits() == 64 {
            let reg = self.put_in_reg(val);
            Some((ValueRegs::One(reg), ty))
        } else {
            let rs = self.put_in_reg(val);
            let rd = self.temp_writable_reg(Type::I64);
            let width = ty.bits();
            self.emit(
                Inst::Extend { rd, rn: rs, signed: true, from_bits: width as u8, to_bits: 64 },
            );
            Some((ValueRegs::One(rd.to_reg()), ty))
        }
    }

    /// The pair of registers a shift lowering needs: the shift amount
    /// masked to the type's width, and the width minus that masked amount.
    pub fn gen_shamt(&mut self, ty: Type, shamt: Reg) -> (r: ValueRegs)
        requires
            ty.spec_is_int() || ty.spec_is_bool(),
            old(self).next_vreg + 2 <= u32::MAX,
        ensures
            ({
                let c = *old(self);
                let masked = spec_fresh_reg(c, RegClass::Int);
                let len_sub = Reg::Virtual(
                    (VirtualReg { class: RegClass::Int, index: (c.next_vreg + 1) as u32 }),
                );
                &&& r == ValueRegs::Two(masked, len_sub)
                &&& inst_seq(final(self).emitted) == inst_seq(c.emitted) + seq![
                    (Inst::AluRRImm12 {
                        alu_op: AluOPRRI::Andi,
                        rd: (Writable { reg: masked }),
                        rs: shamt,
                        imm12: (Imm12 { bits: (ty.spec_bits() - 1) as i16 }),
                    }),
                    (Inst::AluRRImm12 {
                        alu_op: AluOPRRI::Addi,
                        rd: (Writable { reg: len_sub }),
                        rs: spec_x_reg(0),
                        imm12: (Imm12 { bits: ty.spec_bits() as i16 }),
                    }),
                    (Inst::AluRRR {
                        alu_op: AluOPRRR::Sub,
                        rd: (Writable { reg: len_sub }),
                        rs1: len_sub,
                        rs2: masked,
                    }),
                ]
                &&& final(self).next_vreg == c.next_vreg + 2
                &&& c.same_tables(*final(self))
            }),
    {
        let width = ty.bits();
        let tmp = self.temp_writable_reg(Type::I64);
        self.emit(
            Inst::AluRRImm12 {
                alu_op: AluOPRRI::Andi,
                rd: tmp,
                rs: shamt,
                imm12: Imm12::from_bits((width - 1) as i16),
            },
        );
        let masked = tmp.to_reg();
        let len_sub_shamt = self.temp_writable_reg(Type::I64);
        self.emit(Inst::load_constant_imm12(len_sub_shamt, Imm12::from_bits(width as i16)));
        self.emit(
            Inst::AluRRR {
                alu_op: AluOPRRR::Sub,
                rd: len_sub_shamt,
                rs1: len_sub_shamt.to_reg(),
                rs2: masked,
            },
        );
        proof {
            assert(inst_seq(self.emitted) =~= inst_seq(old(self).emitted) + seq![
                inst_seq(self.emitted)[inst_seq(self.emitted).len() - 3],
                inst_seq(self.emitted)[inst_seq(self.emitted).len() - 2],
                inst_seq(self.emitted)[inst_seq(self.emitted).len() - 1],
            ]);
        }
        ValueRegs::Two(masked, len_sub_shamt.to_reg())
    }

    /// An ordered comparison kind, tagged with whether it is signed; an
    /// equality or overflow kind reports no match.
    pub fn intcc_is_ueq_compare(&mut self, cc: IntCC) -> (r: Option<(IntCC, bool)>)
        ensures
            r == (match cc {
                IntCC::SignedLessThan
                | IntCC::SignedGreaterThanOrEqual
                | IntCC::SignedGreaterThan
                | IntCC::SignedLessThanOrEqual => Some((cc, true)),
                IntCC::UnsignedLessThan
                | IntCC::UnsignedGreaterThanOrEqual
                | IntCC::UnsignedGreaterThan
                | IntCC::UnsignedLessThanOrEqual => Some((cc, false)),
                _ => Option::<(IntCC, bool)>::None,
            }),
            *final(self) == *old(self),
    {
        match cc {
            IntCC::SignedLessThan
            | IntCC::SignedGreaterThanOrEqual
            | IntCC::SignedGreaterThan
            | IntCC::SignedLessThanOrEqual => Some((cc, true)),
            IntCC::UnsignedLessThan
            | IntCC::UnsignedGreaterThanOrEqual
            | IntCC::UnsignedGreaterThan
            | IntCC::UnsignedLessThanOrEqual => Some((cc, false)),
            _ => None,
        }
    }

    pub fn intcc_is_eq_or_ne(&mut self, cc: IntCC) -> (r: Option<IntCC>)
        ensures
            r == (if cc == IntCC::Equal || cc == IntCC::NotEqual {
                Some(cc)
            } else {
                Option::<IntCC>::None
            }),
            *final(self) == *old(self),
    {
        if cc == IntCC::Equal || cc == IntCC::NotEqual {
            Some(cc)
        } else {
            None
        }
    }

    pub fn intcc_is_overflow_or_nof(&mut self, cc: IntCC) -> (r: Option<IntCC>)
        ensures
            r == (if cc == IntCC::Overflow || cc == IntCC::NotOverflow {
                Some(cc)
            } else {
                Option::<IntCC>::None
            }),
            *final(self) == *old(self),
    {
        if cc == IntCC::Overflow || cc == IntCC::NotOverflow {
            Some(cc)
        } else {
            None
        }
    }

    pub fn x_reg(&mut self, x: u8) -> (r: Reg)
        requires
            x < 32,
        ensures
            r == spec_x_reg(x as int),
            *final(self) == *old(self),
    {
        make_x_reg(x)
    }

    /// The registers that receive return value `i`.
    pub fn retval(&mut self, i: usize) -> (r: ValueRegs)
        requires
            (i as int) < old(self).retvals@.len(),
        ensures
            r == old(self).retvals@[i as int],
            *final(self) == *old(self),
    {
        self.retvals[i]
    }

    /// Copy a value into a fresh destination bundle for the output type.
    pub fn gen_moves(&mut self, rs: ValueRegs, _in_ty: Type, out_ty: Type) -> (r: ValueRegs)
        requires
            old(self).next_vreg + 2 <= u32::MAX,
            out_ty.spec_is_bool() || out_ty.spec_is_int() || out_ty.spec_is_float(),
            rs.view().len() == (if (out_ty.spec_is_bool() || out_ty.spec_is_int())
                && out_ty.spec_bits() == 128 {
                2int
            } else {
                1int
            }),
        ensures
            ({
                let c = *old(self);
                let dsts = spec_gen_moves_dests(c, out_ty);
                &&& r == dsts.spec_to_value_regs()
                &&& inst_seq(final(self).emitted) == inst_seq(c.emitted) + spec_move_insts(
                    dsts.view(),
                    rs.view(),
                )
                &&& final(self).next_vreg == c.next_vreg + dsts.view().len()
                &&& c.same_tables(*final(self))
            }),
    {
        let tmp = construct_dest(self, out_ty);
        let moves = gen_moves(tmp, rs);
        self.emit_list(moves);
        let result = tmp.to_value_regs();
        proof {
            assert(tmp == spec_gen_moves_dests(*old(self), out_ty));
            assert(inst_seq(self.emitted) == inst_seq(old(self).emitted) + spec_move_insts(
                tmp.view(),
                rs.view(),
            ));
        }
        result
    }

    /// The floating-point compare-and-branch: one conditional branch whose
    /// condition is the explicit (kind, left, right) triple, with the taken
    /// and not-taken labels.
    pub fn lower_br_fcmp(&mut self, cc: FloatCC, a: Reg, b: Reg, targets: &Vec<MachLabel>, ty: Type)
        -> (r: InstOutput)
        requires
            targets@.len() >= 2,
        ensures
            r.outs@.len() == 0,
            inst_seq(final(self).emitted) == inst_seq(old(self).emitted).push(
                (Inst::CondBrF {
                    taken: BranchTarget::Label(targets@[0]),
                    not_taken: BranchTarget::Label(targets@[1]),
                    kind: (FloatCompare { kind: cc, rs1: a, rs2: b, ty }),
                }),
            ),
            final(self).next_vreg == old(self).next_vreg,
            old(self).same_tables(*final(self)),
    {
        let taken = BranchTarget::Label(targets[0]);
        let not_taken = BranchTarget::Label(targets[1]);
        self.emit(
            Inst::CondBrF { taken, not_taken, kind: FloatCompare { kind: cc, rs1: a, rs2: b, ty } },
        );
        InstOutput::new()
    }

    /// The branch-if-zero and branch-if-not-zero lowering: a one-word
    /// operand is brought to full width with a zero extension when narrow
    /// and compared against the zero register in one conditional branch; a
    /// double-word operand's halves are first merged with one bitwise or,
    /// so both are tested in lockstep.
    pub fn lower_brz_or_nz(&mut self, cc: IntCC, a: Value, targets: &Vec<MachLabel>, ty: Type) -> (r:
        InstOutput)
        requires
            old(self).wf_value(a),
            old(self).next_vreg + 8 <= u32::MAX,
            targets@.len() >= 2,
            cc == IntCC::Equal || cc == IntCC::NotEqual,
            ty.spec_is_int() || ty.spec_is_bool(),
            ty.spec_bits() <= 64 || ty.spec_bits() == 128,
            old(self).values@[a.index as int].ty == ty,
            ty.spec_bits() == 128 ==> (old(self).values@[a.index as int].loc matches
                ValueLoc::Regs(rr) && rr.view().len() == 2),
        ensures
            spec_brz_effect(*old(self), *final(self), r, cc, a, targets@, ty),
    {
        let regs = self.put_in_regs(a);
        let (r0, r1) = match regs {
            ValueRegs::One(x) => (x, x),
            ValueRegs::Two(x, y) => (x, y),
        };
        let cmp: Reg = if ty.bits() == 64 {
            r0
        } else if ty.bits() == 128 {
            let rd = self.temp_writable_reg(Type::I64);
            self.emit(Inst::AluRRR { alu_op: AluOPRRR::Or, rd, rs1: r0, rs2: r1 });
            rd.to_reg()
        } else {
            let rd = self.temp_writable_reg(Type::I64);
            let width = ty.bits();
            self.emit(
                Inst::Extend { rd, rn: r0, signed: false, from_bits: width as u8, to_bits: 64 },
            );
            rd.to_reg()
        };
        let taken = BranchTarget::Label(targets[0]);
        let not_taken = BranchTarget::Label(targets[1]);
        self.emit(
            Inst::CondBr {
                taken,
                not_taken,
                kind: IntegerCompare { kind: cc, rs1: cmp, rs2: make_zero_reg() },
            },
        );
        InstOutput::new()
    }

    /// The integer compare-and-branch. One-word operands are brought to
    /// full width (sign-extended for a signed comparison kind,
    /// zero-extended otherwise) and one conditional branch carries the
    /// explicit triple. A double-word compare processes both halves in
    /// lockstep: an equality reduces the halves' differences with xor and
    /// or to one register, and an ordered kind combines a high-half compare
    /// with a low-half compare through a select on high-half equality;
    /// either ends in one conditional branch against the zero register.
    pub fn lower_br_icmp(&mut self, cc: IntCC, a: Value, b: Value, targets: &Vec<MachLabel>, ty:
        Type) -> (r: InstOutput)
        requires
            old(self).wf_value(a),
            old(self).wf_value(b),
            old(self).next_vreg + 8 <= u32::MAX,
            targets@.len() >= 2,
            ty.spec_is_int() || ty.spec_is_bool(),
            ty.spec_bits() <= 64 || (ty.spec_bits() == 128 && cc != IntCC::Overflow && cc
                != IntCC::NotOverflow),
            old(self).values@[a.index as int].ty == ty,
            old(self).values@[b.index as int].ty == ty,
            ty.spec_bits() == 128 ==> (old(self).values@[a.index as int].loc matches
                ValueLoc::Regs(rr) && rr.view().len() == 2),
            ty.spec_bits() == 128 ==> (old(self).values@[b.index as int].loc matches
                ValueLoc::Regs(rr) && rr.view().len() == 2),
        ensures
            spec_br_icmp_effect(*old(self), *final(self), r, cc, a, b, targets@, ty),
    {
        let ra = self.put_in_regs(a);
        let rb = self.put_in_regs(b);
        let (a0, a1) = match ra {
            ValueRegs::One(x) => (x, x),
            ValueRegs::Two(x, y) => (x, y),
        };
        let (b0, b1) = match rb {
            ValueRegs::One(x) => (x, x),
            ValueRegs::Two(x, y) => (x, y),
        };
        let taken = BranchTarget::Label(targets[0]);
        let not_taken = BranchTarget::Label(targets[1]);
        if ty.bits() == 64 {
            self.emit(
                Inst::CondBr {
                    taken,
                    not_taken,
                    kind: IntegerCompare { kind: cc, rs1: a0, rs2: b0 },
                },
            );
        } else if ty.bits() == 128 {
            if cc == IntCC::Equal || cc == IntCC::NotEqual {
                let t0 = self.temp_writable_reg(Type::I64);
                self.emit(Inst::AluRRR { alu_op: AluOPRRR::Xor, rd: t0, rs1: a0, rs2: b0 });
                let t1 = self.temp_writable_reg(Type::I64);
                self.emit(Inst::AluRRR { alu_op: AluOPRRR::Xor, rd: t1, rs1: a1, rs2: b1 });
                let t2 = self.temp_writable_reg(Type::I64);
                self.emit(
                    Inst::AluRRR { alu_op: AluOPRRR::Or, rd: t2, rs1: t0.to_reg(), rs2: t1.to_reg() },
                );
                self.emit(
                    Inst::CondBr {
                        taken,
                        not_taken,
                        kind: IntegerCompare { kind: cc, rs1: t2.to_reg(), rs2: make_zero_reg() },
                    },
                );
            } else {
                let swap = cc_128_swap(cc);
                let (xlo, xhi, ylo, yhi) = if swap {
                    (b0, b1, a0, a1)
                } else {
                    (a0, a1, b0, b1)
                };
                let hi_op = if cc_signed(cc) {
                    AluOPRRR::Slt
                } else {
                    AluOPRRR::SltU
                };
                let t0 = self.temp_writable_reg(Type::I64);
                self.emit(Inst::AluRRR { alu_op: hi_op, rd: t0, rs1: xhi, rs2: yhi });
                let t1 = self.temp_writable_reg(Type::I64);
                self.emit(Inst::AluRRR { alu_op: AluOPRRR::SltU, rd: t1, rs1: xlo, rs2: ylo });
                let t2 = self.temp_writable_reg(Type::I64);
                self.emit(
                    Inst::SelectReg {
                        rd: t2,
                        rs1: t1.to_reg(),
                        rs2: t0.to_reg(),
                        condition: IntegerCompare { kind: IntCC::Equal, rs1: xhi, rs2: yhi },
                    },
                );
                let bk = if cc_128_strict(cc) {
                    IntCC::NotEqual
                } else {
                    IntCC::Equal
                };
                self.emit(
                    Inst::CondBr {
                        taken,
                        not_taken,
                        kind: IntegerCompare { kind: bk, rs1: t2.to_reg(), rs2: make_zero_reg() },
                    },
                );
            }
        } else {
            let signed = cc_signed(cc);
            let width = ty.bits();
            let ea = self.temp_writable_reg(Type::I64);
            self.emit(
                Inst::Extend { rd: ea, rn: a0, signed, from_bits: width as u8, to_bits: 64 },
            );
            let eb = self.temp_writable_reg(Type::I64);
            self.emit(
                Inst::Extend { rd: eb, rn: b0, signed, from_bits: width as u8, to_bits: 64 },
            );
            self.emit(
                Inst::CondBr {
                    taken,
                    not_taken,
                    kind: IntegerCompare { kind: cc, rs1: ea.to_reg(), rs2: eb.to_reg() },
                },
            );
        }
        InstOutput::new()
    }

    /// The branch-table lowering: one instruction holding the default
    /// target, the ordered case targets, and a fresh scratch register for
    /// address computation.
    pub fn lower_br_table(&mut self, index: Reg, targets: &Vec<MachLabel>) -> (r: InstOutput)
        requires
            targets@.len() >= 1,
            old(self).next_vreg < u32::MAX,
        ensures
            ({
                let c = *old(self);
                let s = inst_seq(final(self).emitted);
                &&& r.outs@.len() == 0
                &&& s.len() == inst_seq(c.emitted).len() + 1
                &&& s.take(s.len() - 1) == inst_seq(c.emitted)
                &&& (s.last() matches Inst::BrTable {
                    index: i,
                    tmp1,
                    default_target,
                    targets: ts,
                } && {
                    &&& i == index
                    &&& tmp1 == (Writable { reg: spec_fresh_reg(c, RegClass::Int) })
                    &&& default_target == BranchTarget::Label(targets@[0])
                    &&& ts@ == Seq::new(
                        (targets@.len() - 1) as nat,
                        |k: int| BranchTarget::Label(targets@[k + 1]),
                    )
                })
                &&& final(self).next_vreg == c.next_vreg + 1
                &&& c.same_tables(*final(self))
            }),
    {
        let tmp = self.temp_writable_reg(Type::I64);
        let default_target = BranchTarget::Label(targets[0]);
        let mut case_targets: Vec<BranchTarget> = Vec::new();
        let mut k: usize = 1;
        while k < targets.len()
            invariant
                1 <= k <= targets@.len(),
                case_targets@ == Seq::new(
                    (k - 1) as nat,
                    |j: int| BranchTarget::Label(targets@[j + 1]),
                ),
            decreases targets@.len() - k,
        {
            case_targets.push(BranchTarget::Label(targets[k]));
            k = k + 1;
            proof {
                assert(case_targets@ =~= Seq::new(
                    (k - 1) as nat,
                    |j: int| BranchTarget::Label(targets@[j + 1]),
                ));
            }
        }
        self.emit(
            Inst::BrTable { index, tmp1: tmp, default_target, targets: case_targets },
        );
        proof {
            assert(inst_seq(self.emitted).take(inst_seq(self.emitted).len() - 1) =~= inst_seq(
                old(self).emitted,
            ));
        }
        InstOutput::new()
    }

    /// The return lowering: each returned value is materialized and moved,
    /// slot by slot, into the registers the signature assigns to that
    /// return position.
    pub fn gen_return(&mut self, vals: &Vec<Value>) -> (r: InstOutput)
        requires
            vals@.len() <= old(self).retvals@.len(),
            forall|k: int| 0 <= k < vals@.len() ==> old(self).wf_value(#[trigger] vals@[k]),
            old(self).next_vreg + vals@.len() <= u32::MAX,
            forall|k: int|
                0 <= k < vals@.len() ==> spec_put_from(
                    old(self).values@[(#[trigger] vals@[k]).index as int],
                    0,
                ).0.view().len() == old(self).retvals@[k].view().len(),
        ensures
            ({
                let c = *old(self);
                let (insts, nv) = spec_gen_return_upto(
                    c.values@,
                    c.retvals@,
                    vals@,
                    vals@.len() as int,
                    c.next_vreg,
                );
                &&& r.outs@.len() == 0
                &&& inst_seq(final(self).emitted) == inst_seq(c.emitted) + insts
                &&& final(self).next_vreg == nv
                &&& c.same_tables(*final(self))
            }),
    {
        let ghost c = *self;
        let mut i: usize = 0;
        while i < vals.len()
            invariant
                i <= vals@.len(),
                vals@.len() <= c.retvals@.len(),
                forall|k: int| 0 <= k < vals@.len() ==> c.wf_value(#[trigger] vals@[k]),
                forall|k: int|
                    0 <= k < vals@.len() ==> spec_put_from(
                        c.values@[(#[trigger] vals@[k]).index as int],
                        0,
                    ).0.view().len() == c.retvals@[k].view().len(),
                c.next_vreg + vals@.len() <= u32::MAX,
                self.next_vreg >= c.next_vreg,
                c.same_tables(*self),
                ({
                    let (insts, nv) = spec_gen_return_upto(
                        c.values@,
                        c.retvals@,
                        vals@,
                        i as int,
                        c.next_vreg,
                    );
                    &&& inst_seq(self.emitted) == inst_seq(c.emitted) + insts
                    &&& self.next_vreg == nv
                    &&& nv <= c.next_vreg + i
                }),
            decreases vals@.len() - i,
        {
            let v = vals[i];
            let src = self.put_in_regs(v);
            let dst = self.retvals[i];
            proof {
                assert(spec_put_from(c.values@[v.index as int], 0).0.view().len()
                    == spec_put_from(
                    c.values@[v.index as int],
                    spec_gen_return_upto(c.values@, c.retvals@, vals@, i as int, c.next_vreg).1,
                ).0.view().len());
            }
            match (src, dst) {
                (ValueRegs::One(s0), ValueRegs::One(d0)) => {
                    self.emit(
                        Inst::gen_move(
                            Writable { reg: d0 },
                            s0,
                            canonical_type_for_class(s0.class()),
                        ),
                    );
                },
                (ValueRegs::Two(s0, s1), ValueRegs::Two(d0, d1)) => {
                    self.emit(
                        Inst::gen_move(
                            Writable { reg: d0 },
                            s0,
                            canonical_type_for_class(s0.class()),
                        ),
                    );
                    self.emit(
                        Inst::gen_move(
                            Writable { reg: d1 },
                            s1,
                            canonical_type_for_class(s1.class()),
                        ),
                    );
                },
                _ => {
                    proof {
                        assert(false);
                    }
                },
            }
            i = i + 1;
            proof {
                assert(inst_seq(self.emitted) =~= inst_seq(c.emitted) + spec_gen_return_upto(
                    c.values@,
                    c.retvals@,
                    vals@,
                    i as int,
                    c.next_vreg,
                ).0);
            }
        }
        InstOutput::new()
    }
}

/// Whether a comparison kind reads its operands as signed values.
pub open spec fn spec_cc_signed(cc: IntCC) -> bool {
    match cc {
        IntCC::SignedLessThan
        | IntCC::SignedGreaterThanOrEqual
        | IntCC::SignedGreaterThan
        | IntCC::SignedLessThanOrEqual => true,
        _ => false,
    }
}

fn cc_signed(cc: IntCC) -> (r: bool)
    ensures
        r == spec_cc_signed(cc),
{
    match cc {
        IntCC::SignedLessThan
        | IntCC::SignedGreaterThanOrEqual
        | IntCC::SignedGreaterThan
        | IntCC::SignedLessThanOrEqual => true,
        _ => false,
    }
}

/// Whether a double-word ordered compare swaps its operands: the
/// greater-than and less-than-or-equal kinds are computed as the mirrored
/// less-than.
pub open spec fn spec_cc_128_swap(cc: IntCC) -> bool {
    match cc {
        IntCC::SignedGreaterThan
        | IntCC::SignedLessThanOrEqual
        | IntCC::UnsignedGreaterThan
        | IntCC::UnsignedLessThanOrEqual => true,
        _ => false,
    }
}

fn cc_128_swap(cc: IntCC) -> (r: bool)
    ensures
        r == spec_cc_128_swap(cc),
{
    match cc {
        IntCC::SignedGreaterThan
        | IntCC::SignedLessThanOrEqual
        | IntCC::UnsignedGreaterThan
        | IntCC::UnsignedLessThanOrEqual => true,
        _ => false,
    }
}

/// Whether a double-word ordered compare is strict: a strict kind takes
/// the branch when the computed less-than flag is set, a non-strict kind
/// when it is clear.
pub open spec fn spec_cc_128_strict(cc: IntCC) -> bool {
    match cc {
        IntCC::SignedLessThan
        | IntCC::SignedGreaterThan
        | IntCC::UnsignedLessThan
        | IntCC::UnsignedGreaterThan => true,
        _ => false,
    }
}

fn cc_128_strict(cc: IntCC) -> (r: bool)
    ensures
        r == spec_cc_128_strict(cc),
{
    match cc {
        IntCC::SignedLessThan
        | IntCC::SignedGreaterThan
        | IntCC::UnsignedLessThan
        | IntCC::UnsignedGreaterThan => true,
        _ => false,
    }
}

/// Everything `lower_brz_or_nz` does, as a relation between the context
/// before, the context after, and the result: the operand is materialized,
/// brought to one register (zero-extension when narrow, an or of the two
/// halves when double-word), and one conditional branch against the zero
/// register is emitted.
pub open spec fn spec_brz_effect(
    c: IsleContext,
    c2: IsleContext,
    out: InstOutput,
    cc: IntCC,
    a: Value,
    targets: Seq<MachLabel>,
    ty: Type,
) -> bool {
    let (regs, pins, nv) = spec_put_in_regs(c, a);
    let branch = |cmp: Reg|
        (Inst::CondBr {
            taken: BranchTarget::Label(targets[0]),
            not_taken: BranchTarget::Label(targets[1]),
            kind: (IntegerCompare { kind: cc, rs1: cmp, rs2: spec_x_reg(0) }),
        });
    &&& out.outs@.len() == 0
    &&& c.same_tables(c2)
    &&& (if ty.spec_bits() == 64 {
        inst_seq(c2.emitted) == inst_seq(c.emitted) + pins.push(branch(regs.view()[0]))
            && c2.next_vreg == nv
    } else if ty.spec_bits() == 128 {
        let t = Reg::Virtual((VirtualReg { class: RegClass::Int, index: nv }));
        inst_seq(c2.emitted) == inst_seq(c.emitted) + pins.push(
            (Inst::AluRRR {
                alu_op: AluOPRRR::Or,
                rd: (Writable { reg: t }),
                rs1: regs.view()[0],
                rs2: regs.view()[1],
            }),
        ).push(branch(t)) && c2.next_vreg == nv + 1
    } else {
        let rd = Reg::Virtual((VirtualReg { class: RegClass::Int, index: nv }));
        inst_seq(c2.emitted) == inst_seq(c.emitted) + pins.push(
            (Inst::Extend {
                rd: (Writable { reg: rd }),
                rn: regs.view()[0],
                signed: false,
                from_bits: ty.spec_bits() as u8,
                to_bits: 64,
            }),
        ).push(branch(rd)) && c2.next_vreg == nv + 1
    })
}

/// Everything `lower_br_icmp` does, as a relation between the context
/// before, the context after, and the result.
pub open spec fn spec_br_icmp_effect(
    c: IsleContext,
    c2: IsleContext,
    out: InstOutput,
    cc: IntCC,
    a: Value,
    b: Value,
    targets: Seq<MachLabel>,
    ty: Type,
) -> bool {
    let (ra, pa, nv1) = spec_put_in_regs(c, a);
    let (rb, pb, nv2) = spec_put_from(c.values@[b.index as int], nv1);
    let pre = inst_seq(c.emitted) + pa + pb;
    let branch = |k: IntCC, x: Reg, y: Reg|
        (Inst::CondBr {
            taken: BranchTarget::Label(targets[0]),
            not_taken: BranchTarget::Label(targets[1]),
            kind: (IntegerCompare { kind: k, rs1: x, rs2: y }),
        });
    &&& out.outs@.len() == 0
    &&& c.same_tables(c2)
    &&& (if ty.spec_bits() == 64 {
        inst_seq(c2.emitted) == pre.push(branch(cc, ra.view()[0], rb.view()[0]))
            && c2.next_vreg == nv2
    } else if ty.spec_bits() == 128 {
        let t0 = Reg::Virtual((VirtualReg { class: RegClass::Int, index: nv2 }));
        let t1 = Reg::Virtual((VirtualReg { class: RegClass::Int, index: (nv2 + 1) as u32 }));
        let t2 = Reg::Virtual((VirtualReg { class: RegClass::Int, index: (nv2 + 2) as u32 }));
        if cc == IntCC::Equal || cc == IntCC::NotEqual {
            inst_seq(c2.emitted) == pre.push(
                (Inst::AluRRR {
                    alu_op: AluOPRRR::Xor,
                    rd: (Writable { reg: t0 }),
                    rs1: ra.view()[0],
                    rs2: rb.view()[0],
                }),
            ).push(
                (Inst::AluRRR {
                    alu_op: AluOPRRR::Xor,
                    rd: (Writable { reg: t1 }),
                    rs1: ra.view()[1],
                    rs2: rb.view()[1],
                }),
            ).push(
                (Inst::AluRRR {
                    alu_op: AluOPRRR::Or,
                    rd: (Writable { reg: t2 }),
                    rs1: t0,
                    rs2: t1,
                }),
            ).push(branch(cc, t2, spec_x_reg(0))) && c2.next_vreg == nv2 + 3
        } else {
            let xlo = if spec_cc_128_swap(cc) {
                rb.view()[0]
            } else {
                ra.view()[0]
            };
            let xhi = if spec_cc_128_swap(cc) {
                rb.view()[1]
            } else {
                ra.view()[1]
            };
            let ylo = if spec_cc_128_swap(cc) {
                ra.view()[0]
            } else {
                rb.view()[0]
            };
            let yhi = if spec_cc_128_swap(cc) {
                ra.view()[1]
            } else {
                rb.view()[1]
            };
            let bk = if spec_cc_128_strict(cc) {
                IntCC::NotEqual
            } else {
                IntCC::Equal
            };
            inst_seq(c2.emitted) == pre.push(
                (Inst::AluRRR {
                    alu_op: if spec_cc_signed(cc) {
                        AluOPRRR::Slt
                    } else {
                        AluOPRRR::SltU
                    },
                    rd: (Writable { reg: t0 }),
                    rs1: xhi,
                    rs2: yhi,
                }),
            ).push(
                (Inst::AluRRR {
                    alu_op: AluOPRRR::SltU,
                    rd: (Writable { reg: t1 }),
                    rs1: xlo,
                    rs2: ylo,
                }),
            ).push(
                (Inst::SelectReg {
                    rd: (Writable { reg: t2 }),
                    rs1: t1,
                    rs2: t0,
                    condition: (IntegerCompare { kind: IntCC::Equal, rs1: xhi, rs2: yhi }),
                }),
            ).push(branch(bk, t2, spec_x_reg(0))) && c2.next_vreg == nv2 + 3
        }
    } else {
        let ea = Reg::Virtual((VirtualReg { class: RegClass::Int, index: nv2 }));
        let eb = Reg::Virtual((VirtualReg { class: RegClass::Int, index: (nv2 + 1) as u32 }));
        let sg = spec_cc_signed(cc);
        inst_seq(c2.emitted) == pre.push(
            (Inst::Extend {
                rd: (Writable { reg: ea }),
                rn: ra.view()[0],
                signed: sg,
                from_bits: ty.spec_bits() as u8,
                to_bits: 64,
            }),
        ).push(
            (Inst::Extend {
                rd: (Writable { reg: eb }),
                rn: rb.view()[0],
                signed: sg,
                from_bits: ty.spec_bits() as u8,
                to_bits: 64,
            }),
        ).push(branch(cc, ea, eb)) && c2.next_vreg == nv2 + 2
    })
}

/// The conversion operation from a float type to an integer type.
pub open spec fn spec_float_convert_2_int_op(from: Type, is_signed: bool, to: Type) -> FpuOPRR {
    if from == Type::F32 {
        if to.spec_bits() <= 32 {
            if is_signed {
                FpuOPRR::FcvtWS
            } else {
                FpuOPRR::FcvtWuS
            }
        } else {
            if is_signed {
                FpuOPRR::FcvtLS
            } else {
                FpuOPRR::FcvtLuS
            }
        }
    } else {
        if to.spec_bits() <= 32 {
            if is_signed {
                FpuOPRR::FcvtWD
            } else {
                FpuOPRR::FcvtWuD
            }
        } else {
            if is_signed {
                FpuOPRR::FcvtLD
            } else {
                FpuOPRR::FcvtLuD
            }
        }
    }
}

/// The conversion operation from an integer type to a float type.
pub open spec fn spec_int_convert_2_float_op(from: Type, is_signed: bool, to: Type) -> FpuOPRR {
    if from.spec_bits() <= 32 {
        if to == Type::F32 {
            if is_signed {
                FpuOPRR::FcvtSW
            } else {
                FpuOPRR::FcvtSWu
            }
        } else {
            if is_signed {
                FpuOPRR::FcvtDW
            } else {
                FpuOPRR::FcvtDWu
            }
        }
    } else {
        if to == Type::F32 {
            if is_signed {
                FpuOPRR::FcvtSL
            } else {
                FpuOPRR::FcvtSLu
            }
        } else {
            if is_signed {
                FpuOPRR::FcvtDL
            } else {
                FpuOPRR::FcvtDLu
            }
        }
    }
}

/// The moves that return one value: each source slot is copied into the
/// matching return register at the canonical width of its class.
pub open spec fn spec_ret_moves(src: ValueRegs, dst: ValueRegs) -> Seq<Inst> {
    Seq::new(
        src.view().len(),
        |j: int|
            (Inst::Mov {
                rd: (Writable { reg: dst.view()[j] }),
                rm: src.view()[j],
                ty: spec_canonical_type_for_class(src.view()[j].spec_class()),
            }),
    )
}

/// The instructions that return the first `n` values, and the temporary
/// counter afterwards: each value is materialized, then moved slot by slot
/// into its return registers.
pub open spec fn spec_gen_return_upto(
    values: Seq<ValueDef>,
    retvals: Seq<ValueRegs>,
    vals: Seq<Value>,
    n: int,
    nv0: u32,
) -> (Seq<Inst>, u32)
    decreases n,
{
    if n <= 0 {
        (Seq::empty(), nv0)
    } else {
        let (prev, nv) = spec_gen_return_upto(values, retvals, vals, n - 1, nv0);
        let (src, pins, nv2) = spec_put_from(values[vals[n - 1].index as int], nv);
        (prev + pins + spec_ret_moves(src, retvals[n - 1]), nv2)
    }
}

/// What a matched rule does.
#[derive(Clone, Copy, PartialEq, Eq, Structural, Debug)]
pub enum RuleAction {
    ConstInt,
    ConstBool,
    ConstFloat,
    Ret,
    BrZero,
    BrNonZero,
    BrIntCmp,
    BrFloatCmp,
    BrTableAction,
    JumpAction,
}

/// One rule of the dispatch table: an opcode pattern and an action.
#[derive(Clone, Copy, PartialEq, Eq, Structural, Debug)]
pub struct Rule {
    pub pat: Opcode,
    pub action: RuleAction,
}

/// The ordered rule table for non-branch instructions.
pub open spec fn spec_lower_rules() -> Seq<Rule> {
    seq![
        (Rule { pat: Opcode::Iconst, action: RuleAction::ConstInt }),
        (Rule { pat: Opcode::Bconst, action: RuleAction::ConstBool }),
        (Rule { pat: Opcode::F32const, action: RuleAction::ConstFloat }),
        (Rule { pat: Opcode::F64const, action: RuleAction::ConstFloat }),
        (Rule { pat: Opcode::Return, action: RuleAction::Ret }),
    ]
}

pub fn lower_rules() -> (r: Vec<Rule>)
    ensures
        r@ == spec_lower_rules(),
{
    let mut rules: Vec<Rule> = Vec::new();
    rules.push(Rule { pat: Opcode::Iconst, action: RuleAction::ConstInt });
    rules.push(Rule { pat: Opcode::Bconst, action: RuleAction::ConstBool });
    rules.push(Rule { pat: Opcode::F32const, action: RuleAction::ConstFloat });
    rules.push(Rule { pat: Opcode::F64const, action: RuleAction::ConstFloat });
    rules.push(Rule { pat: Opcode::Return, action: RuleAction::Ret });
    proof {
        assert(rules@ =~= spec_lower_rules());
    }
    rules
}

/// The ordered rule table for branch instructions.
pub open spec fn spec_branch_rules() -> Seq<Rule> {
    seq![
        (Rule { pat: Opcode::Jump, action: RuleAction::JumpAction }),
        (Rule { pat: Opcode::Brz, action: RuleAction::BrZero }),
        (Rule { pat: Opcode::Brnz, action: RuleAction::BrNonZero }),
        (Rule { pat: Opcode::BrIcmp, action: RuleAction::BrIntCmp }),
        (Rule { pat: Opcode::Brif, action: RuleAction::BrFloatCmp }),
        (Rule { pat: Opcode::BrTable, action: RuleAction::BrTableAction }),
    ]
}

pub fn branch_rules() -> (r: Vec<Rule>)
    ensures
        r@ == spec_branch_rules(),
{
    let mut rules: Vec<Rule> = Vec::new();
    rules.push(Rule { pat: Opcode::Jump, action: RuleAction::JumpAction });
    rules.push(Rule { pat: Opcode::Brz, action: RuleAction::BrZero });
    rules.push(Rule { pat: Opcode::Brnz, action: RuleAction::BrNonZero });
    rules.push(Rule { pat: Opcode::BrIcmp, action: RuleAction::BrIntCmp });
    rules.push(Rule { pat: Opcode::Brif, action: RuleAction::BrFloatCmp });
    rules.push(Rule { pat: Opcode::BrTable, action: RuleAction::BrTableAction });
    proof {
        assert(rules@ =~= spec_branch_rules());
    }
    rules
}

/// The action of the first rule whose pattern matches the opcode.
pub open spec fn spec_first_match(rules: Seq<Rule>, op: Opcode) -> Option<RuleAction>
    decreases rules.len(),
{
    if rules.len() == 0 {
        None
    } else if rules.first().pat == op {
        Some(rules.first().action)
    } else {
        spec_first_match(rules.drop_first(), op)
    }
}

/// The generic matcher: walk the ordered rule table and take the first
/// rule whose pattern matches.
pub fn first_match(rules: &Vec<Rule>, op: Opcode) -> (r: Option<RuleAction>)
    ensures
        r == spec_first_match(rules@, op),
{
    let mut i: usize = 0;
    proof {
        assert(rules@.skip(0) =~= rules@);
    }
    while i < rules.len()
        invariant
            i <= rules@.len(),
            spec_first_match(rules@, op) == spec_first_match(rules@.skip(i as int), op),
        decreases rules@.len() - i,
    {
        if rules[i].pat == op {
            proof {
                assert(rules@.skip(i as int).first() == rules@[i as int]);
            }
            return Some(rules[i].action);
        }
        i = i + 1;
        proof {
            assert(rules@.skip(i as int - 1).drop_first() =~= rules@.skip(i as int));
            assert(rules@.skip(i as int - 1).first() == rules@[i as int - 1]);
        }
    }
    proof {
        assert(rules@.skip(rules@.len() as int).len() == 0);
    }
    None
}

/// Everything materializing one integer or boolean constant does: the
/// canonicalized value is loaded into one fresh register of the type's
/// class, and the output is that register.
pub open spec fn spec_const_int_effect(
    c: IsleContext,
    c2: IsleContext,
    out: InstOutput,
    ty: Type,
    val: u64,
) -> bool {
    let rd = spec_fresh_reg(c, spec_class_of_type(ty));
    &&& inst_seq(c2.emitted) == inst_seq(c.emitted) + spec_load_const_insts(
        (Writable { reg: rd }),
        spec_canon_imm(ty, val),
    )
    &&& c2.next_vreg == c.next_vreg + 1
    &&& c.same_tables(c2)
    &&& out.outs@ == seq![ValueRegs::One(rd)]
}

/// Everything materializing one floating-point constant does: the bit
/// pattern is loaded into a fresh integer temporary, moved raw into a
/// fresh float register, and the output is that float register.
pub open spec fn spec_const_float_effect(
    c: IsleContext,
    c2: IsleContext,
    out: InstOutput,
    ty: Type,
    bits: u64,
) -> bool {
    let result = spec_fresh_reg(c, RegClass::Float);
    let tmp = Reg::Virtual((VirtualReg { class: RegClass::Int, index: (c.next_vreg + 1) as u32 }));
    &&& inst_seq(c2.emitted) == inst_seq(c.emitted) + spec_load_const_insts(
        (Writable { reg: tmp }),
        bits,
    ).push(
        (Inst::FpuRR {
            op: if ty == Type::F32 {
                FpuOPRR::FmvWX
            } else {
                FpuOPRR::FmvDX
            },
            frm: Option::<FRM>::None,
            rd: (Writable { reg: result }),
            rs: tmp,
        }),
    )
    &&& c2.next_vreg == c.next_vreg + 2
    &&& c.same_tables(c2)
    &&& out.outs@ == seq![ValueRegs::One(result)]
}

/// Whether an instruction's operand shape is one the rule actions
/// implement; an unsupported shape falls through every rule.
pub open spec fn spec_shape_supported(data: IrData) -> bool {
    match data {
        IrData::Iconst { ty, .. } => (ty.spec_is_int() || ty.spec_is_bool()) && ty.spec_bits()
            <= 64,
        IrData::Bconst { ty, .. } => ty.spec_is_bool() && ty.spec_bits() <= 64,
        IrData::FloatConst { ty, .. } => ty == Type::F32 || ty == Type::F64,
        IrData::Ret { .. } => true,
        IrData::Brz { ty, .. } => (ty.spec_is_int() || ty.spec_is_bool()) && (ty.spec_bits() <= 64
            || ty.spec_bits() == 128),
        IrData::Brnz { ty, .. } => (ty.spec_is_int() || ty.spec_is_bool()) && (ty.spec_bits()
            <= 64 || ty.spec_bits() == 128),
        IrData::BrIcmp { cc, ty, .. } => (ty.spec_is_int() || ty.spec_is_bool()) && (ty.spec_bits()
            <= 64 || (ty.spec_bits() == 128 && cc != IntCC::Overflow && cc != IntCC::NotOverflow)),
        IrData::BrFcmp { ty, .. } => ty == Type::F32 || ty == Type::F64,
        IrData::BrTable { .. } => true,
        IrData::Jump => true,
        _ => false,
    }
}

/// The well-formedness the non-branch rule actions need of their operands.
pub open spec fn spec_lower_args_wf(ctx: IsleContext, data: IrData) -> bool {
    match data {
        IrData::Ret { rets } => {
            &&& rets@.len() <= ctx.retvals@.len()
            &&& (forall|k: int| 0 <= k < rets@.len() ==> ctx.wf_value(#[trigger] rets@[k]))
            &&& (forall|k: int|
                0 <= k < rets@.len() ==> spec_put_from(
                    ctx.values@[(#[trigger] rets@[k]).index as int],
                    0,
                ).0.view().len() == ctx.retvals@[k].view().len())
            &&& ctx.next_vreg + rets@.len() <= u32::MAX
        },
        _ => ctx.next_vreg + 4 <= u32::MAX,
    }
}

/// The well-formedness the branch rule actions need of their operands and
/// target list.
pub open spec fn spec_branch_args_wf(ctx: IsleContext, data: IrData, targets: Seq<MachLabel>)
    -> bool {
    match data {
        IrData::Brz { arg, ty } => {
            &&& ctx.wf_value(arg)
            &&& ctx.values@[arg.index as int].ty == ty
            &&& targets.len() >= 2
            &&& ctx.next_vreg + 8 <= u32::MAX
            &&& (ty.spec_bits() == 128 ==> (ctx.values@[arg.index as int].loc matches
                ValueLoc::Regs(rr) && rr.view().len() == 2))
        },
        IrData::Brnz { arg, ty } => {
            &&& ctx.wf_value(arg)
            &&& ctx.values@[arg.index as int].ty == ty
            &&& targets.len() >= 2
            &&& ctx.next_vreg + 8 <= u32::MAX
            &&& (ty.spec_bits() == 128 ==> (ctx.values@[arg.index as int].loc matches
                ValueLoc::Regs(rr) && rr.view().len() == 2))
        },
        IrData::BrIcmp { a, b, ty, .. } => {
            &&& ctx.wf_value(a)
            &&& ctx.wf_value(b)
            &&& ctx.values@[a.index as int].ty == ty
            &&& ctx.values@[b.index as int].ty == ty
            &&& targets.len() >= 2
            &&& ctx.next_vreg + 8 <= u32::MAX
            &&& (ty.spec_bits() == 128 ==> (ctx.values@[a.index as int].loc matches
                ValueLoc::Regs(rr) && rr.view().len() == 2))
            &&& (ty.spec_bits() == 128 ==> (ctx.values@[b.index as int].loc matches
                ValueLoc::Regs(rr) && rr.view().len() == 2))
        },
        IrData::BrFcmp { a, b, .. } => {
            &&& ctx.wf_value(a)
            &&& ctx.wf_value(b)
            &&& targets.len() >= 2
            &&& ctx.next_vreg + 4 <= u32::MAX
        },
        IrData::BrTable { index } => {
            &&& ctx.wf_value(index)
            &&& targets.len() >= 1
            &&& ctx.next_vreg + 4 <= u32::MAX
        },
        IrData::Jump => targets.len() >= 1,
        _ => true,
    }
}

/// The entry point for lowering one non-branch instruction: the ordered
/// rule table is searched for the instruction's opcode, and the first
/// matching rule's action runs; an instruction no applicable rule covers is
/// reported as a failure, which the driver treats as an unsupported
/// construct.
pub fn lower(
    ctx: &mut IsleContext,
    _flags: &Flags,
    _triple: &target_lexicon::Triple,
    _isa_flags: &RiscvFlags,
    ir: IrInst,
) -> (r: Result<InstOutput, ()>)
    requires
        (ir.index as int) < old(ctx).insts@.len(),
        spec_lower_args_wf(*old(ctx), old(ctx).insts@[ir.index as int]),
    ensures
        ({
            let data = old(ctx).insts@[ir.index as int];
            &&& (r is Ok <==> (spec_first_match(spec_lower_rules(), data.spec_opcode()) is Some
                && spec_shape_supported(data)))
            &&& (r is Err ==> *final(ctx) == *old(ctx))
            &&& inst_seq(old(ctx).emitted).is_prefix_of(inst_seq(final(ctx).emitted))
            &&& old(ctx).same_tables(*final(ctx))
            &&& (match data {
                IrData::Iconst { ty, imm } => spec_shape_supported(data) ==> (r matches Ok(out)
                    && spec_const_int_effect(*old(ctx), *final(ctx), out, ty, imm)),
                IrData::Bconst { ty, imm } => spec_shape_supported(data) ==> (r matches Ok(out)
                    && spec_const_int_effect(
                    *old(ctx),
                    *final(ctx),
                    out,
                    ty,
                    if imm {
                        1
                    } else {
                        0
                    },
                )),
                IrData::FloatConst { ty, bits } => spec_shape_supported(data) ==> (r matches Ok(
                    out,
                ) && spec_const_float_effect(*old(ctx), *final(ctx), out, ty, bits)),
                IrData::Ret { rets } => r matches Ok(out) && {
                    let (insts, nv) = spec_gen_return_upto(
                        old(ctx).values@,
                        old(ctx).retvals@,
                        rets@,
                        rets@.len() as int,
                        old(ctx).next_vreg,
                    );
                    &&& inst_seq(final(ctx).emitted) == inst_seq(old(ctx).emitted) + insts
                    &&& final(ctx).next_vreg == nv
                    &&& out.outs@.len() == 0
                },
                _ => true,
            })
        }),
{
    let rules = lower_rules();
    let op = ctx.insts[ir.index as usize].opcode();
    let action = first_match(&rules, op);
    proof {
        reveal_with_fuel(spec_first_match, 8);
        assert(inst_seq(ctx.emitted).take(inst_seq(ctx.emitted).len() as int) =~= inst_seq(
            ctx.emitted,
        ));
    }
    match action {
        None => Err(()),
        Some(RuleAction::ConstInt) => {
            let (ty, v): (Type, u64) = match &ctx.insts[ir.index as usize] {
                IrData::Iconst { ty, imm } => (*ty, *imm),
                _ => { return Err(()) },
            };
            if !(ty.is_int() || ty.is_bool()) || ty.bits() > 64 {
                return Err(());
            }
            let reg = ctx.imm(ty, v);
            proof {
                assert(inst_seq(ctx.emitted).take(inst_seq(old(ctx).emitted).len() as int)
                    =~= inst_seq(old(ctx).emitted));
            }
            let mut outs: Vec<ValueRegs> = Vec::new();
            outs.push(ValueRegs::One(reg));
            Ok(InstOutput { outs })
        },
        Some(RuleAction::ConstBool) => {
            let (ty, v): (Type, bool) = match &ctx.insts[ir.index as usize] {
                IrData::Bconst { ty, imm } => (*ty, *imm),
                _ => { return Err(()) },
            };
            if !ty.is_bool() || ty.bits() > 64 {
                return Err(());
            }
            let reg = ctx.imm(ty, if v {
                1
            } else {
                0
            });
            proof {
                assert(inst_seq(ctx.emitted).take(inst_seq(old(ctx).emitted).len() as int)
                    =~= inst_seq(old(ctx).emitted));
            }
            let mut outs: Vec<ValueRegs> = Vec::new();
            outs.push(ValueRegs::One(reg));
            Ok(InstOutput { outs })
        },
        Some(RuleAction::ConstFloat) => {
            let (ty, bits): (Type, u64) = match &ctx.insts[ir.index as usize] {
                IrData::FloatConst { ty, bits } => (*ty, *bits),
                _ => { return Err(()) },
            };
            if !(ty == Type::F32 || ty == Type::F64) {
                return Err(());
            }
            let reg = ctx.load_float_const(bits, ty);
            proof {
                assert(inst_seq(ctx.emitted).take(inst_seq(old(ctx).emitted).len() as int)
                    =~= inst_seq(old(ctx).emitted));
            }
            let mut outs: Vec<ValueRegs> = Vec::new();
            outs.push(ValueRegs::One(reg));
            Ok(InstOutput { outs })
        },
        Some(RuleAction::Ret) => {
            let mut rets: Vec<Value> = Vec::new();
            match &ctx.insts[ir.index as usize] {
                IrData::Ret { rets: vs } => {
                    let mut k: usize = 0;
                    while k < vs.len()
                        invariant
                            k <= vs@.len(),
                            rets@ == vs@.take(k as int),
                        decreases vs@.len() - k,
                    {
                        rets.push(vs[k]);
                        k = k + 1;
                        proof {
                            assert(rets@ =~= vs@.take(k as int));
                        }
                    }
                    proof {
                        assert(rets@ =~= vs@);
                    }
                },
                _ => { return Err(()) },
            }
            let out = ctx.gen_return(&rets);
            proof {
                assert(inst_seq(ctx.emitted).take(inst_seq(old(ctx).emitted).len() as int)
                    =~= inst_seq(old(ctx).emitted));
            }
            Ok(out)
        },
        Some(_) => Err(()),
    }
}

/// The entry point for lowering one branch instruction, with the branch's
/// resolved target labels; the same ordered-rule dispatch as `lower`.
#[verifier::rlimit(60)]
pub fn lower_branch(
    ctx: &mut IsleContext,
    _triple: &target_lexicon::Triple,
    _flags: &Flags,
    _isa_flags: &RiscvFlags,
    branch: IrInst,
    targets: &Vec<MachLabel>,
) -> (r: Result<InstOutput, ()>)
    requires
        (branch.index as int) < old(ctx).insts@.len(),
        spec_branch_args_wf(*old(ctx), old(ctx).insts@[branch.index as int], targets@),
    ensures
        ({
            let data = old(ctx).insts@[branch.index as int];
            &&& (r is Ok <==> (spec_first_match(spec_branch_rules(), data.spec_opcode()) is Some
                && spec_shape_supported(data)))
            &&& (r is Err ==> *final(ctx) == *old(ctx))
            &&& inst_seq(old(ctx).emitted).is_prefix_of(inst_seq(final(ctx).emitted))
            &&& old(ctx).same_tables(*final(ctx))
            &&& (match data {
                IrData::Jump => r matches Ok(out) && {
                    &&& inst_seq(final(ctx).emitted) == inst_seq(old(ctx).emitted).push(
                        (Inst::Jal { dest: BranchTarget::Label(targets@[0]) }),
                    )
                    &&& final(ctx).next_vreg == old(ctx).next_vreg
                    &&& out.outs@.len() == 0
                },
                IrData::Brz { arg, ty } => spec_shape_supported(data) ==> (r matches Ok(out)
                    && spec_brz_effect(
                    *old(ctx),
                    *final(ctx),
                    out,
                    IntCC::Equal,
                    arg,
                    targets@,
                    ty,
                )),
                IrData::Brnz { arg, ty } => spec_shape_supported(data) ==> (r matches Ok(out)
                    && spec_brz_effect(
                    *old(ctx),
                    *final(ctx),
                    out,
                    IntCC::NotEqual,
                    arg,
                    targets@,
                    ty,
                )),
                IrData::BrIcmp { cc, a, b, ty } => spec_shape_supported(data) ==> (r matches Ok(
                    out,
                ) && spec_br_icmp_effect(*old(ctx), *final(ctx), out, cc, a, b, targets@, ty)),
                IrData::BrFcmp { cc, a, b, ty } => spec_shape_supported(data) ==> (r matches Ok(
                    out,
                ) && {
                    let (ra, pa, nv1) = spec_put_in_regs(*old(ctx), a);
                    let (rb, pb, nv2) = spec_put_from(
                        old(ctx).values@[b.index as int],
                        nv1,
                    );
                    &&& inst_seq(final(ctx).emitted) == inst_seq(old(ctx).emitted) + pa + pb.push(
                        (Inst::CondBrF {
                            taken: BranchTarget::Label(targets@[0]),
                            not_taken: BranchTarget::Label(targets@[1]),
                            kind: (FloatCompare {
                                kind: cc,
                                rs1: ra.view()[0],
                                rs2: rb.view()[0],
                                ty,
                            }),
                        }),
                    )
                    &&& final(ctx).next_vreg == nv2
                    &&& out.outs@.len() == 0
                }),
                IrData::BrTable { index } => r matches Ok(out) && {
                    let (ri, pi, nv1) = spec_put_in_regs(*old(ctx), index);
                    let s = inst_seq(final(ctx).emitted);
                    &&& s.len() == inst_seq(old(ctx).emitted).len() + pi.len() + 1
                    &&& s.take(s.len() - 1) == inst_seq(old(ctx).emitted) + pi
                    &&& (s.last() matches Inst::BrTable {
                        index: i,
                        tmp1,
                        default_target,
                        targets: ts,
                    } && {
                        &&& i == ri.view()[0]
                        &&& tmp1 == (Writable {
                            reg: Reg::Virtual((VirtualReg { class: RegClass::Int, index: nv1 })),
                        })
                        &&& default_target == BranchTarget::Label(targets@[0])
                        &&& ts@ == Seq::new(
                            (targets@.len() - 1) as nat,
                            |k: int| BranchTarget::Label(targets@[k + 1]),
                        )
                    })
                    &&& final(ctx).next_vreg == nv1 + 1
                    &&& out.outs@.len() == 0
                },
                _ => true,
            })
        }),
{
    let rules = branch_rules();
    let op = ctx.insts[branch.index as usize].opcode();
    let action = first_match(&rules, op);
    proof {
        reveal_with_fuel(spec_first_match, 8);
        assert(inst_seq(ctx.emitted).take(inst_seq(ctx.emitted).len() as int) =~= inst_seq(
            ctx.emitted,
        ));
    }
    match action {
        None => Err(()),
        Some(RuleAction::JumpAction) => {
            ctx.emit(Inst::Jal { dest: BranchTarget::Label(targets[0]) });
            proof {
                assert(inst_seq(ctx.emitted).take(inst_seq(old(ctx).emitted).len() as int)
                    =~= inst_seq(old(ctx).emitted));
            }
            Ok(InstOutput::new())
        },
        Some(RuleAction::BrZero) => {
            let (arg, ty): (Value, Type) = match &ctx.insts[branch.index as usize] {
                IrData::Brz { arg, ty } => (*arg, *ty),
                _ => { return Err(()) },
            };
            if !(ty.is_int() || ty.is_bool()) || (ty.bits() > 64 && ty.bits() != 128) {
                return Err(());
            }
            let out = ctx.lower_brz_or_nz(IntCC::Equal, arg, targets, ty);
            proof {
                assert(inst_seq(ctx.emitted).take(inst_seq(old(ctx).emitted).len() as int)
                    =~= inst_seq(old(ctx).emitted));
            }
            Ok(out)
        },
        Some(RuleAction::BrNonZero) => {
            let (arg, ty): (Value, Type) = match &ctx.insts[branch.index as usize] {
                IrData::Brnz { arg, ty } => (*arg, *ty),
                _ => { return Err(()) },
            };
            if !(ty.is_int() || ty.is_bool()) || (ty.bits() > 64 && ty.bits() != 128) {
                return Err(());
            }
            let out = ctx.lower_brz_or_nz(IntCC::NotEqual, arg, targets, ty);
            proof {
                assert(inst_seq(ctx.emitted).take(inst_seq(old(ctx).emitted).len() as int)
                    =~= inst_seq(old(ctx).emitted));
            }
            Ok(out)
        },
        Some(RuleAction::BrIntCmp) => {
            let (cc, a, b, ty): (IntCC, Value, Value, Type) = match &ctx.insts[branch.index
                as usize] {
                IrData::BrIcmp { cc, a, b, ty } => (*cc, *a, *b, *ty),
                _ => { return Err(()) },
            };
            if !(ty.is_int() || ty.is_bool()) || (ty.bits() > 64 && ty.bits() != 128) {
                return Err(());
            }
            if ty.bits() == 128 && (cc == IntCC::Overflow || cc == IntCC::NotOverflow) {
                return Err(());
            }
            let out = ctx.lower_br_icmp(cc, a, b, targets, ty);
            proof {
                assert(inst_seq(ctx.emitted).take(inst_seq(old(ctx).emitted).len() as int)
                    =~= inst_seq(old(ctx).emitted));
            }
            Ok(out)
        },
        Some(RuleAction::BrFloatCmp) => {
            let (cc, a, b, ty): (FloatCC, Value, Value, Type) = match &ctx.insts[branch.index
                as usize] {
                IrData::BrFcmp { cc, a, b, ty } => (*cc, *a, *b, *ty),
                _ => { return Err(()) },
            };
            if !(ty == Type::F32 || ty == Type::F64) {
                return Err(());
            }
            let ra = ctx.put_in_reg(a);
            let rb = ctx.put_in_reg(b);
            let out = ctx.lower_br_fcmp(cc, ra, rb, targets, ty);
            proof {
                assert(inst_seq(ctx.emitted).take(inst_seq(old(ctx).emitted).len() as int)
                    =~= inst_seq(old(ctx).emitted));
            }
            Ok(out)
        },
        Some(RuleAction::BrTableAction) => {
            let index: Value = match &ctx.insts[branch.index as usize] {
                IrData::BrTable { index } => *index,
                _ => { return Err(()) },
            };
            let ri = ctx.put_in_reg(index);
            let out = ctx.lower_br_table(ri, targets);
            proof {
                assert(inst_seq(ctx.emitted).take(inst_seq(old(ctx).emitted).len() as int)
                    =~= inst_seq(old(ctx).emitted));
            }
            Ok(out)
        },
        Some(_) => Err(()),
    }
}

} // verus!
