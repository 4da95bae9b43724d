use rv64_backend::extern_specs::{inst_vec_into_vec, inst_vec_new};
use rv64_backend::imm::Imm12;
use rv64_backend::inst::{
    AMode, AluOPRRI, AluOPRRR, BranchTarget, FloatCompare, FpuOPRR, Inst, IntegerCompare, LoadOP,
    MachLabel, Opcode,
};
use rv64_backend::lower::{
    construct_dest, lower, lower_branch, IrData, IrInst, IsleContext, Value, ValueDef, ValueLoc,
    ValueRegs, WritableValueRegs,
};
use rv64_backend::regs::{RealReg, Reg, RegClass, VirtualReg, Writable};
use rv64_backend::types::{FloatCC, Flags, IntCC, MemFlags, RiscvFlags, Type};

fn xr(enc: u8) -> Reg {
    Reg::Real(RealReg { class: RegClass::Int, enc })
}

fn vreg(index: u32) -> Reg {
    Reg::Virtual(VirtualReg { class: RegClass::Int, index })
}

fn label(index: u32) -> MachLabel {
    MachLabel { index }
}

fn ctx() -> IsleContext {
    IsleContext {
        emitted: inst_vec_new(),
        next_vreg: 0,
        values: Vec::new(),
        insts: Vec::new(),
        retvals: Vec::new(),
        stackslot_offsets: Vec::new(),
        flags: Flags::new(false),
        isa_flags: RiscvFlags {},
    }
}

fn reg_value(ctx: &mut IsleContext, reg: Reg, ty: Type) -> Value {
    ctx.values.push(ValueDef { loc: ValueLoc::Regs(ValueRegs::One(reg)), ty, def: None });
    Value { index: (ctx.values.len() - 1) as u32 }
}

fn const_value(ctx: &mut IsleContext, val: u64, ty: Type) -> Value {
    ctx.values.push(ValueDef { loc: ValueLoc::ConstInt(val), ty, def: None });
    Value { index: (ctx.values.len() - 1) as u32 }
}

#[test]
fn emit_appends_in_order() {
    let mut c = ctx();
    c.emit(Inst::AdjustSp { amount: -16 });
    c.emit(Inst::AdjustSp { amount: 16 });
    let insts = inst_vec_into_vec(c.emitted);
    assert_eq!(insts, vec![Inst::AdjustSp { amount: -16 }, Inst::AdjustSp { amount: 16 }]);
}

#[test]
fn temporaries_are_fresh_and_classed() {
    let mut c = ctx();
    let a = c.temp_writable_reg(Type::I32);
    let b = c.temp_writable_reg(Type::F64);
    assert_eq!(a.reg, Reg::Virtual(VirtualReg { class: RegClass::Int, index: 0 }));
    assert_eq!(b.reg, Reg::Virtual(VirtualReg { class: RegClass::Float, index: 1 }));
    assert_eq!(c.next_vreg, 2);
}

#[test]
fn boolean_truth_materializes_as_all_ones() {
    let mut c = ctx();
    let r = c.imm(Type::B64, 1);
    assert_eq!(r, vreg(0));
    let insts = inst_vec_into_vec(c.emitted);
    // The all-ones pattern fits the 12-bit field as the sign pattern -1.
    assert_eq!(insts.len(), 1);
    assert_eq!(
        insts[0],
        Inst::AluRRImm12 {
            alu_op: AluOPRRI::Addi,
            rd: Writable { reg: vreg(0) },
            rs: xr(0),
            imm12: Imm12 { bits: -1 },
        }
    );
}

#[test]
fn integer_immediate_keeps_its_value() {
    let mut c = ctx();
    c.imm(Type::I64, 1);
    let insts = inst_vec_into_vec(c.emitted);
    assert_eq!(insts.len(), 1);
    assert_eq!(
        insts[0],
        Inst::AluRRImm12 {
            alu_op: AluOPRRI::Addi,
            rd: Writable { reg: vreg(0) },
            rs: xr(0),
            imm12: Imm12 { bits: 1 },
        }
    );
}

#[test]
fn put_in_regs_returns_bound_registers_without_emitting() {
    let mut c = ctx();
    let v = reg_value(&mut c, xr(10), Type::I64);
    let regs = c.put_in_regs(v);
    assert_eq!(regs, ValueRegs::One(xr(10)));
    assert_eq!(inst_vec_into_vec(c.emitted).len(), 0);
}

#[test]
fn put_in_regs_materializes_constants() {
    let mut c = ctx();
    let v = const_value(&mut c, 7, Type::I64);
    let regs = c.put_in_regs(v);
    assert_eq!(regs, ValueRegs::One(vreg(0)));
    assert_eq!(inst_vec_into_vec(c.emitted).len(), 1);
}

#[test]
fn construct_dest_splits_double_words() {
    let mut c = ctx();
    let two = construct_dest(&mut c, Type::I128);
    assert_eq!(
        two,
        WritableValueRegs::Two(Writable { reg: vreg(0) }, Writable { reg: vreg(1) })
    );
    let one = construct_dest(&mut c, Type::I32);
    assert_eq!(one, WritableValueRegs::One(Writable { reg: vreg(2) }));
    let fl = construct_dest(&mut c, Type::F64);
    assert_eq!(
        fl,
        WritableValueRegs::One(Writable {
            reg: Reg::Virtual(VirtualReg { class: RegClass::Float, index: 3 })
        })
    );
}

#[test]
fn gen_moves_copies_both_halves_in_lockstep() {
    let mut c = ctx();
    let out = c.gen_moves(ValueRegs::Two(xr(10), xr(11)), Type::I128, Type::I128);
    assert_eq!(out, ValueRegs::Two(vreg(0), vreg(1)));
    let insts = inst_vec_into_vec(c.emitted);
    assert_eq!(
        insts,
        vec![
            Inst::Mov { rd: Writable { reg: vreg(0) }, rm: xr(10), ty: Type::I64 },
            Inst::Mov { rd: Writable { reg: vreg(1) }, rm: xr(11), ty: Type::I64 },
        ]
    );
}

#[test]
fn sext_widens_narrow_integers() {
    let mut c = ctx();
    let v = reg_value(&mut c, xr(10), Type::I8);
    let r = c.sext_int_if_need(v).unwrap();
    assert_eq!(r, (ValueRegs::One(vreg(0)), Type::I8));
    let insts = inst_vec_into_vec(c.emitted);
    assert_eq!(
        insts,
        vec![Inst::Extend {
            rd: Writable { reg: vreg(0) },
            rn: xr(10),
            signed: true,
            from_bits: 8,
            to_bits: 64,
        }]
    );
}

#[test]
fn sext_leaves_full_width_values_alone() {
    let mut c = ctx();
    let v = reg_value(&mut c, xr(10), Type::I64);
    let r = c.sext_int_if_need(v).unwrap();
    assert_eq!(r, (ValueRegs::One(xr(10)), Type::I64));
    assert_eq!(inst_vec_into_vec(c.emitted).len(), 0);
    let mut c2 = ctx();
    let f = reg_value(&mut c2, xr(10), Type::F64);
    assert!(c2.sext_int_if_need(f).is_none());
}

#[test]
fn gen_shamt_masks_and_complements() {
    let mut c = ctx();
    let r = c.gen_shamt(Type::I32, xr(10));
    assert_eq!(r, ValueRegs::Two(vreg(0), vreg(1)));
    let insts = inst_vec_into_vec(c.emitted);
    assert_eq!(
        insts,
        vec![
            Inst::AluRRImm12 {
                alu_op: AluOPRRI::Andi,
                rd: Writable { reg: vreg(0) },
                rs: xr(10),
                imm12: Imm12 { bits: 31 },
            },
            Inst::AluRRImm12 {
                alu_op: AluOPRRI::Addi,
                rd: Writable { reg: vreg(1) },
                rs: xr(0),
                imm12: Imm12 { bits: 32 },
            },
            Inst::AluRRR {
                alu_op: AluOPRRR::Sub,
                rd: Writable { reg: vreg(1) },
                rs1: vreg(1),
                rs2: vreg(0),
            },
        ]
    );
}

#[test]
fn float_const_loads_bits_then_moves_them() {
    let mut c = ctx();
    let r = c.load_float_const(0x3ff0_0000_0000_0000, Type::F64);
    assert_eq!(r, Reg::Virtual(VirtualReg { class: RegClass::Float, index: 0 }));
    let insts = inst_vec_into_vec(c.emitted);
    match insts.last().unwrap() {
        Inst::FpuRR { op, rd, rs, .. } => {
            assert_eq!(*op, FpuOPRR::FmvDX);
            assert_eq!(rd.reg, r);
            assert_eq!(*rs, vreg(1));
        }
        other => panic!("expected the raw move, got {:?}", other),
    }
}

#[test]
fn return_moves_values_into_return_registers() {
    let mut c = ctx();
    let v0 = reg_value(&mut c, xr(20), Type::I64);
    let v1 = reg_value(&mut c, xr(21), Type::I64);
    c.retvals.push(ValueRegs::One(xr(10)));
    c.retvals.push(ValueRegs::One(xr(11)));
    let out = c.gen_return(&vec![v0, v1]);
    assert_eq!(out.outs.len(), 0);
    let insts = inst_vec_into_vec(c.emitted);
    assert_eq!(
        insts,
        vec![
            Inst::Mov { rd: Writable { reg: xr(10) }, rm: xr(20), ty: Type::I64 },
            Inst::Mov { rd: Writable { reg: xr(11) }, rm: xr(21), ty: Type::I64 },
        ]
    );
}

#[test]
fn br_icmp_compares_directly_at_full_width() {
    let mut c = ctx();
    let a = reg_value(&mut c, xr(10), Type::I64);
    let b = reg_value(&mut c, xr(11), Type::I64);
    c.lower_br_icmp(IntCC::SignedLessThan, a, b, &vec![label(1), label(2)], Type::I64);
    let insts = inst_vec_into_vec(c.emitted);
    assert_eq!(
        insts,
        vec![Inst::CondBr {
            taken: BranchTarget::Label(label(1)),
            not_taken: BranchTarget::Label(label(2)),
            kind: IntegerCompare { kind: IntCC::SignedLessThan, rs1: xr(10), rs2: xr(11) },
        }]
    );
}

#[test]
fn br_icmp_extends_narrow_operands_by_signedness() {
    let mut c = ctx();
    let a = reg_value(&mut c, xr(10), Type::I16);
    let b = reg_value(&mut c, xr(11), Type::I16);
    c.lower_br_icmp(IntCC::UnsignedLessThan, a, b, &vec![label(1), label(2)], Type::I16);
    let insts = inst_vec_into_vec(c.emitted);
    assert_eq!(insts.len(), 3);
    assert_eq!(
        insts[0],
        Inst::Extend {
            rd: Writable { reg: vreg(0) },
            rn: xr(10),
            signed: false,
            from_bits: 16,
            to_bits: 64,
        }
    );
    match &insts[2] {
        Inst::CondBr { kind, .. } => {
            assert_eq!(kind.rs1, vreg(0));
            assert_eq!(kind.rs2, vreg(1));
        }
        other => panic!("expected the branch, got {:?}", other),
    }
}

#[test]
fn brz_compares_against_the_zero_register() {
    let mut c = ctx();
    let a = reg_value(&mut c, xr(10), Type::I64);
    c.lower_brz_or_nz(IntCC::Equal, a, &vec![label(3), label(4)], Type::I64);
    let insts = inst_vec_into_vec(c.emitted);
    assert_eq!(
        insts,
        vec![Inst::CondBr {
            taken: BranchTarget::Label(label(3)),
            not_taken: BranchTarget::Label(label(4)),
            kind: IntegerCompare { kind: IntCC::Equal, rs1: xr(10), rs2: xr(0) },
        }]
    );
}

#[test]
fn br_fcmp_is_one_branch_with_the_triple() {
    let mut c = ctx();
    let out = c.lower_br_fcmp(FloatCC::LessThan, xr(10), xr(11), &vec![label(1), label(2)],
        Type::F64);
    assert_eq!(out.outs.len(), 0);
    let insts = inst_vec_into_vec(c.emitted);
    assert_eq!(
        insts,
        vec![Inst::CondBrF {
            taken: BranchTarget::Label(label(1)),
            not_taken: BranchTarget::Label(label(2)),
            kind: FloatCompare { kind: FloatCC::LessThan, rs1: xr(10), rs2: xr(11), ty: Type::F64 },
        }]
    );
}

#[test]
fn br_table_keeps_default_and_case_order() {
    let mut c = ctx();
    c.lower_br_table(xr(10), &vec![label(9), label(1), label(2)]);
    let insts = inst_vec_into_vec(c.emitted);
    assert_eq!(insts.len(), 1);
    match &insts[0] {
        Inst::BrTable { index, tmp1, default_target, targets } => {
            assert_eq!(*index, xr(10));
            assert_eq!(tmp1.reg, vreg(0));
            assert_eq!(*default_target, BranchTarget::Label(label(9)));
            assert_eq!(
                *targets,
                vec![BranchTarget::Label(label(1)), BranchTarget::Label(label(2))]
            );
        }
        other => panic!("expected a branch table, got {:?}", other),
    }
}

#[test]
fn load_ra_reads_the_frame_header() {
    let mut c = ctx();
    let r = c.load_ra();
    assert_eq!(r, vreg(0));
    let insts = inst_vec_into_vec(c.emitted);
    assert_eq!(
        insts,
        vec![Inst::Load {
            rd: Writable { reg: vreg(0) },
            op: LoadOP::Ld,
            flags: MemFlags::trusted(),
            from: AMode::FPOffset(8, Type::I64),
        }]
    );
}

#[test]
fn helper_predicates_match_their_tables() {
    let mut c = ctx();
    assert_eq!(c.valid_bextend_ty(Type::B8, Type::B64), Some(Type::B64));
    assert_eq!(c.valid_bextend_ty(Type::B64, Type::B8), None);
    assert_eq!(c.valid_bextend_ty(Type::I8, Type::B64), None);
    assert_eq!(c.valid_atomic_transaction(Type::I32), Some(Type::I32));
    assert_eq!(c.valid_atomic_transaction(Type::I64), Some(Type::I64));
    assert_eq!(c.valid_atomic_transaction(Type::I16), None);
    assert_eq!(c.intcc_is_eq_or_ne(IntCC::Equal), Some(IntCC::Equal));
    assert_eq!(c.intcc_is_eq_or_ne(IntCC::SignedLessThan), None);
    assert_eq!(
        c.intcc_is_ueq_compare(IntCC::SignedLessThan),
        Some((IntCC::SignedLessThan, true))
    );
    assert_eq!(
        c.intcc_is_ueq_compare(IntCC::UnsignedGreaterThan),
        Some((IntCC::UnsignedGreaterThan, false))
    );
    assert_eq!(c.intcc_is_ueq_compare(IntCC::Equal), None);
    assert_eq!(c.intcc_is_overflow_or_nof(IntCC::Overflow), Some(IntCC::Overflow));
    assert_eq!(c.intcc_is_overflow_or_nof(IntCC::Equal), None);
    assert_eq!(c.float_convert_2_int_op(Type::F32, true, Type::I32), FpuOPRR::FcvtWS);
    assert_eq!(c.float_convert_2_int_op(Type::F64, false, Type::I64), FpuOPRR::FcvtLuD);
    assert_eq!(c.int_convert_2_float_op(Type::I32, true, Type::F64), FpuOPRR::FcvtDW);
    assert_eq!(c.int_convert_2_float_op(Type::I64, false, Type::F32), FpuOPRR::FcvtSLu);
}

#[test]
fn ifcmp_parameters_read_the_defining_instruction() {
    let mut c = ctx();
    let a = reg_value(&mut c, xr(10), Type::I64);
    let b = reg_value(&mut c, xr(11), Type::I64);
    c.insts.push(IrData::Ifcmp { a, b, ty: Type::I64 });
    c.values.push(ValueDef {
        loc: ValueLoc::Regs(ValueRegs::One(xr(12))),
        ty: Type::B1,
        def: Some(IrInst { index: 0 }),
    });
    let flags_val = Value { index: 2 };
    assert_eq!(c.ifcmp_parameters(flags_val), Some((a, b, Type::I64)));
    assert_eq!(c.ffcmp_parameters(flags_val), None);
    assert_eq!(c.iadd_ifcout_parameter(flags_val), None);
    assert_eq!(c.ifcmp_parameters(a), None);
}

#[test]
fn lower_dispatches_constants_through_the_rule_table() {
    let mut c = ctx();
    c.insts.push(IrData::Iconst { ty: Type::I64, imm: 42 });
    let triple = target_lexicon::Triple::host();
    let out = lower(&mut c, &Flags::new(false), &triple, &RiscvFlags {}, IrInst { index: 0 })
        .unwrap();
    assert_eq!(out.outs, vec![ValueRegs::One(vreg(0))]);
    let insts = inst_vec_into_vec(c.emitted);
    assert_eq!(insts.len(), 1);
    assert_eq!(
        insts[0],
        Inst::AluRRImm12 {
            alu_op: AluOPRRI::Addi,
            rd: Writable { reg: vreg(0) },
            rs: xr(0),
            imm12: Imm12 { bits: 42 },
        }
    );
}

#[test]
fn lower_rejects_an_instruction_no_rule_covers() {
    let mut c = ctx();
    let a = reg_value(&mut c, xr(10), Type::I64);
    let b = reg_value(&mut c, xr(11), Type::I64);
    c.insts.push(IrData::Ifcmp { a, b, ty: Type::I64 });
    let triple = target_lexicon::Triple::host();
    let r = lower(&mut c, &Flags::new(false), &triple, &RiscvFlags {}, IrInst { index: 0 });
    assert!(r.is_err());
    assert_eq!(inst_vec_into_vec(c.emitted).len(), 0);
}

#[test]
fn lower_rejects_an_unsupported_width() {
    let mut c = ctx();
    c.insts.push(IrData::Iconst { ty: Type::I128, imm: 42 });
    let triple = target_lexicon::Triple::host();
    let r = lower(&mut c, &Flags::new(false), &triple, &RiscvFlags {}, IrInst { index: 0 });
    assert!(r.is_err());
}

#[test]
fn lower_branch_dispatches_through_its_table() {
    let mut c = ctx();
    let a = reg_value(&mut c, xr(10), Type::I64);
    c.insts.push(IrData::Brnz { arg: a, ty: Type::I64 });
    let triple = target_lexicon::Triple::host();
    let targets = vec![label(1), label(2)];
    lower_branch(&mut c, &triple, &Flags::new(false), &RiscvFlags {}, IrInst { index: 0 },
        &targets)
        .unwrap();
    let insts = inst_vec_into_vec(c.emitted);
    assert_eq!(
        insts,
        vec![Inst::CondBr {
            taken: BranchTarget::Label(label(1)),
            not_taken: BranchTarget::Label(label(2)),
            kind: IntegerCompare { kind: IntCC::NotEqual, rs1: xr(10), rs2: xr(0) },
        }]
    );
}

#[test]
fn lower_branch_jump_emits_one_jal() {
    let mut c = ctx();
    c.insts.push(IrData::Jump);
    let triple = target_lexicon::Triple::host();
    lower_branch(&mut c, &triple, &Flags::new(false), &RiscvFlags {}, IrInst { index: 0 },
        &vec![label(7)])
        .unwrap();
    let insts = inst_vec_into_vec(c.emitted);
    assert_eq!(insts, vec![Inst::Jal { dest: BranchTarget::Label(label(7)) }]);
}

fn wide_value(ctx: &mut IsleContext, lo: Reg, hi: Reg) -> Value {
    ctx.values.push(ValueDef {
        loc: ValueLoc::Regs(ValueRegs::Two(lo, hi)),
        ty: Type::I128,
        def: None,
    });
    Value { index: (ctx.values.len() - 1) as u32 }
}

#[test]
fn double_word_zero_test_merges_both_halves() {
    let mut c = ctx();
    let a = wide_value(&mut c, xr(10), xr(11));
    c.lower_brz_or_nz(IntCC::Equal, a, &vec![label(1), label(2)], Type::I128);
    let insts = inst_vec_into_vec(c.emitted);
    assert_eq!(
        insts,
        vec![
            Inst::AluRRR {
                alu_op: AluOPRRR::Or,
                rd: Writable { reg: vreg(0) },
                rs1: xr(10),
                rs2: xr(11),
            },
            Inst::CondBr {
                taken: BranchTarget::Label(label(1)),
                not_taken: BranchTarget::Label(label(2)),
                kind: IntegerCompare { kind: IntCC::Equal, rs1: vreg(0), rs2: xr(0) },
            },
        ]
    );
}

#[test]
fn double_word_equality_reduces_with_xor_and_or() {
    let mut c = ctx();
    let a = wide_value(&mut c, xr(10), xr(11));
    let b = wide_value(&mut c, xr(12), xr(13));
    c.lower_br_icmp(IntCC::NotEqual, a, b, &vec![label(1), label(2)], Type::I128);
    let insts = inst_vec_into_vec(c.emitted);
    assert_eq!(
        insts,
        vec![
            Inst::AluRRR {
                alu_op: AluOPRRR::Xor,
                rd: Writable { reg: vreg(0) },
                rs1: xr(10),
                rs2: xr(12),
            },
            Inst::AluRRR {
                alu_op: AluOPRRR::Xor,
                rd: Writable { reg: vreg(1) },
                rs1: xr(11),
                rs2: xr(13),
            },
            Inst::AluRRR {
                alu_op: AluOPRRR::Or,
                rd: Writable { reg: vreg(2) },
                rs1: vreg(0),
                rs2: vreg(1),
            },
            Inst::CondBr {
                taken: BranchTarget::Label(label(1)),
                not_taken: BranchTarget::Label(label(2)),
                kind: IntegerCompare { kind: IntCC::NotEqual, rs1: vreg(2), rs2: xr(0) },
            },
        ]
    );
}

#[test]
fn double_word_ordered_compare_selects_on_high_halves() {
    let mut c = ctx();
    let a = wide_value(&mut c, xr(10), xr(11));
    let b = wide_value(&mut c, xr(12), xr(13));
    c.lower_br_icmp(IntCC::SignedLessThan, a, b, &vec![label(1), label(2)], Type::I128);
    let insts = inst_vec_into_vec(c.emitted);
    assert_eq!(
        insts,
        vec![
            Inst::AluRRR {
                alu_op: AluOPRRR::Slt,
                rd: Writable { reg: vreg(0) },
                rs1: xr(11),
                rs2: xr(13),
            },
            Inst::AluRRR {
                alu_op: AluOPRRR::SltU,
                rd: Writable { reg: vreg(1) },
                rs1: xr(10),
                rs2: xr(12),
            },
            Inst::SelectReg {
                rd: Writable { reg: vreg(2) },
                rs1: vreg(1),
                rs2: vreg(0),
                condition: IntegerCompare { kind: IntCC::Equal, rs1: xr(11), rs2: xr(13) },
            },
            Inst::CondBr {
                taken: BranchTarget::Label(label(1)),
                not_taken: BranchTarget::Label(label(2)),
                kind: IntegerCompare { kind: IntCC::NotEqual, rs1: vreg(2), rs2: xr(0) },
            },
        ]
    );
}

#[test]
fn double_word_non_strict_compare_swaps_and_inverts() {
    let mut c = ctx();
    let a = wide_value(&mut c, xr(10), xr(11));
    let b = wide_value(&mut c, xr(12), xr(13));
    // Unsigned less-than-or-equal is the mirrored strict compare taken
    // when the computed flag is clear.
    c.lower_br_icmp(IntCC::UnsignedLessThanOrEqual, a, b, &vec![label(1), label(2)], Type::I128);
    let insts = inst_vec_into_vec(c.emitted);
    assert_eq!(
        insts[0],
        Inst::AluRRR {
            alu_op: AluOPRRR::SltU,
            rd: Writable { reg: vreg(0) },
            rs1: xr(13),
            rs2: xr(11),
        }
    );
    match &insts[3] {
        Inst::CondBr { kind, .. } => {
            assert_eq!(kind.kind, IntCC::Equal);
            assert_eq!(kind.rs1, vreg(2));
        }
        other => panic!("expected the branch, got {:?}", other),
    }
}

#[test]
fn lower_branch_accepts_double_word_compare() {
    let mut c = ctx();
    let a = wide_value(&mut c, xr(10), xr(11));
    let b = wide_value(&mut c, xr(12), xr(13));
    c.insts.push(IrData::BrIcmp { cc: IntCC::Equal, a, b, ty: Type::I128 });
    let triple = target_lexicon::Triple::host();
    let r = lower_branch(&mut c, &triple, &Flags::new(false), &RiscvFlags {},
        IrInst { index: 0 }, &vec![label(1), label(2)]);
    assert!(r.is_ok());
    assert_eq!(inst_vec_into_vec(c.emitted).len(), 4);
}

#[test]
fn lower_branch_rejects_double_word_overflow_compare() {
    let mut c = ctx();
    let a = wide_value(&mut c, xr(10), xr(11));
    let b = wide_value(&mut c, xr(12), xr(13));
    c.insts.push(IrData::BrIcmp { cc: IntCC::Overflow, a, b, ty: Type::I128 });
    let triple = target_lexicon::Triple::host();
    let r = lower_branch(&mut c, &triple, &Flags::new(false), &RiscvFlags {},
        IrInst { index: 0 }, &vec![label(1), label(2)]);
    assert!(r.is_err());
    assert_eq!(inst_vec_into_vec(c.emitted).len(), 0);
}

#[test]
fn stack_addr_uses_the_slot_offset() {
    let mut c = ctx();
    c.stackslot_offsets.push(32);
    let r = c.gen_stack_addr(
        rv64_backend::lower::StackSlot { index: 0 },
        rv64_backend::types::Offset32 { value: 4 },
    );
    assert_eq!(r, vreg(0));
    let insts = inst_vec_into_vec(c.emitted);
    assert_eq!(
        insts,
        vec![Inst::LoadAddr {
            rd: Writable { reg: vreg(0) },
            mem: AMode::NominalSPOffset(36, Type::I64),
        }]
    );
}

#[test]
fn opcodes_follow_the_instruction_data() {
    assert_eq!(IrData::Iconst { ty: Type::I32, imm: 0 }.opcode(), Opcode::Iconst);
    assert_eq!(IrData::FloatConst { ty: Type::F32, bits: 0 }.opcode(), Opcode::F32const);
    assert_eq!(IrData::FloatConst { ty: Type::F64, bits: 0 }.opcode(), Opcode::F64const);
    assert_eq!(IrData::Jump.opcode(), Opcode::Jump);
}

#[test]
fn select_emits_the_condition_triple() {
    let mut c = ctx();
    let r = c.gen_select_reg(IntCC::SignedLessThan, xr(10), xr(11), xr(12), xr(13));
    assert_eq!(r, vreg(0));
    let insts = inst_vec_into_vec(c.emitted);
    assert_eq!(
        insts,
        vec![Inst::SelectReg {
            rd: Writable { reg: vreg(0) },
            rs1: xr(12),
            rs2: xr(13),
            condition: IntegerCompare { kind: IntCC::SignedLessThan, rs1: xr(10), rs2: xr(11) },
        }]
    );
}

#[test]
fn sign_bit_extraction_uses_the_width() {
    let mut c = ctx();
    let r = c.ext_sign_bit(Type::I32, xr(10));
    assert_eq!(r, vreg(0));
    let insts = inst_vec_into_vec(c.emitted);
    assert_eq!(
        insts,
        vec![Inst::AluRRImm12 {
            alu_op: AluOPRRI::Bexti,
            rd: Writable { reg: vreg(0) },
            rs: xr(10),
            imm12: Imm12 { bits: 31 },
        }]
    );
}

#[test]
fn raw_bit_moves_cross_the_register_files() {
    let mut c = ctx();
    let to_int = c.move_f_to_x(xr(10), Type::F32);
    let to_float = c.move_x_to_f(xr(11), Type::F64);
    let insts = inst_vec_into_vec(c.emitted);
    match &insts[0] {
        Inst::FpuRR { op, rd, .. } => {
            assert_eq!(*op, FpuOPRR::FmvXW);
            assert_eq!(rd.reg, to_int);
        }
        other => panic!("expected a raw move, got {:?}", other),
    }
    match &insts[1] {
        Inst::FpuRR { op, rd, .. } => {
            assert_eq!(*op, FpuOPRR::FmvDX);
            assert_eq!(rd.reg, to_float);
        }
        other => panic!("expected a raw move, got {:?}", other),
    }
}

#[test]
fn small_context_helpers_keep_their_values() {
    let mut c = ctx();
    assert_eq!(c.u8_as_i32(200), 200);
    assert_eq!(c.zero_reg(), xr(0));
    assert_eq!(c.writable_zero_reg().reg, xr(0));
    assert_eq!(c.x_reg(7), xr(7));
    assert_eq!(c.imm12_from_u64(100), Some(Imm12 { bits: 100 }));
    assert_eq!(c.imm12_from_u64(5000), None);
    assert_eq!(c.imm_from_bits(2047), Imm12 { bits: 2047 });
    assert_eq!(c.imm_from_neg_bits(-1), Imm12 { bits: -1 });
    assert_eq!(c.neg_imm12(Imm12 { bits: 100 }), Imm12 { bits: -100 });
    assert_eq!(c.imm12_and(Imm12 { bits: 0x7ff }, 0x70), Imm12 { bits: 0x70 });
    assert_eq!(c.imm12_const(-3), Imm12 { bits: -3 });
    assert_eq!(c.imm12_const_add(40, 2), Imm12 { bits: 42 });
    let off = c.offset32_add(rv64_backend::types::Offset32 { value: 30 }, 12);
    assert_eq!(off.value, 42);
    assert_eq!(c.int_zero_reg(Type::I64), ValueRegs::One(xr(0)));
    assert_eq!(c.int_zero_reg(Type::I128), ValueRegs::Two(xr(0), xr(0)));
    assert_eq!(inst_vec_into_vec(c.emitted).len(), 0);
}

#[test]
fn bundle_helpers_move_registers_around() {
    let mut c = ctx();
    let v = vec![Writable { reg: xr(10) }, Writable { reg: xr(11) }];
    assert_eq!(c.vec_regs_to_value_regs(&v), ValueRegs::Two(xr(10), xr(11)));
    assert_eq!(c.vec_writable_clone(&v), v);
    let one = c.alloc_vec_writable(Type::I32);
    assert_eq!(one, vec![Writable { reg: vreg(0) }]);
    let two = c.alloc_vec_writable(Type::I128);
    assert_eq!(two, vec![Writable { reg: vreg(1) }, Writable { reg: vreg(2) }]);
    let out = c.output_2(ValueRegs::One(xr(10)), ValueRegs::One(xr(11)));
    assert_eq!(c.inst_output_get(&out, 1), ValueRegs::One(xr(11)));
    assert_eq!(c.vec_label_get(&vec![label(4), label(5)], 1), label(5));
    assert_eq!(c.label_to_br_target(label(4)), BranchTarget::Label(label(4)));
}

#[test]
fn ext_name_and_constants_materialize_into_temporaries() {
    let mut c = ctx();
    let name = rv64_backend::types::ExternalName::User { namespace: 1, index: 2 };
    let r = c.load_ext_name(name, 8);
    assert_eq!(r, vreg(0));
    let k = c.load_u64_constant(9);
    assert_eq!(k, vreg(1));
    let insts = inst_vec_into_vec(c.emitted);
    assert_eq!(insts[0], Inst::LoadExtName { rd: Writable { reg: vreg(0) }, name, offset: 8 });
    assert_eq!(insts.len(), 2);
}

#[test]
fn value_metadata_helpers_read_the_tables() {
    let mut c = ctx();
    let v = reg_value(&mut c, xr(10), Type::I32);
    assert_eq!(c.type_and_value(v), (Type::I32, v));
    assert_eq!(c.value_inst(v), None);
    c.retvals.push(ValueRegs::One(xr(10)));
    assert_eq!(c.retval(0), ValueRegs::One(xr(10)));
    assert_eq!(c.valueregs_2_reg(v), xr(10));
    let m = c.gen_move(xr(10), Type::I64);
    assert_eq!(m, vreg(0));
    assert_eq!(
        inst_vec_into_vec(c.emitted),
        vec![Inst::Mov { rd: Writable { reg: vreg(0) }, rm: xr(10), ty: Type::I64 }]
    );
}
