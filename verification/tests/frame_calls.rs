use rv64_backend::abi::{
    compute_clobber_size, get_clobbered_callee_saves, is_reg_saved_in_prologue,
    special_purpose_register, Riscv64MachineDeps, Signature,
};
use rv64_backend::extern_specs::inst_vec_into_vec;
use rv64_backend::imm::Imm12;
use rv64_backend::inst::{
    AMode, AluOPRRI, AluOPRRR, CallDest, Inst, LoadOP, StoreOP, UnwindInst,
};
use rv64_backend::regs::{RealReg, Reg, RegClass, Writable};
use rv64_backend::types::{
    AbiParam, ArgumentPurpose, CallConv, ExternalName, Flags, IntCC, LibCall, MemFlags,
    RelocDistance, TrapCode, Type,
};

fn x_real(enc: u8) -> RealReg {
    RealReg { class: RegClass::Int, enc }
}

fn f_real(enc: u8) -> RealReg {
    RealReg { class: RegClass::Float, enc }
}

fn w(reg: RealReg) -> Writable<RealReg> {
    Writable { reg }
}

fn xr(enc: u8) -> Reg {
    Reg::Real(x_real(enc))
}

fn sig() -> Signature {
    Signature { params: Vec::new(), returns: Vec::new(), call_conv: CallConv::SystemV }
}

#[test]
fn prologue_and_epilogue_mirror_each_other() {
    let p = inst_vec_into_vec(Riscv64MachineDeps::gen_prologue_frame_setup(&Flags::new(false)));
    assert_eq!(p.len(), 4);
    assert_eq!(p[0], Inst::AdjustSp { amount: -16 });
    assert_eq!(
        p[1],
        Inst::Store {
            to: AMode::SPOffset(8, Type::I64),
            op: StoreOP::Sd,
            flags: MemFlags::trusted(),
            src: xr(1),
        }
    );
    assert_eq!(
        p[2],
        Inst::Store {
            to: AMode::SPOffset(0, Type::I64),
            op: StoreOP::Sd,
            flags: MemFlags::trusted(),
            src: xr(8),
        }
    );
    assert_eq!(p[3], Inst::Mov { rd: Writable { reg: xr(8) }, rm: xr(2), ty: Type::I64 });

    let e = inst_vec_into_vec(Riscv64MachineDeps::gen_epilogue_frame_restore(&Flags::new(false)));
    assert_eq!(e.len(), 3);
    assert_eq!(
        e[0],
        Inst::Load {
            rd: Writable { reg: xr(1) },
            op: LoadOP::Ld,
            flags: MemFlags::trusted(),
            from: AMode::SPOffset(8, Type::I64),
        }
    );
    assert_eq!(
        e[1],
        Inst::Load {
            rd: Writable { reg: xr(8) },
            op: LoadOP::Ld,
            flags: MemFlags::trusted(),
            from: AMode::SPOffset(0, Type::I64),
        }
    );
    assert_eq!(e[2], Inst::AdjustSp { amount: 16 });
}

#[test]
fn prologue_records_unwind_directive_when_enabled() {
    let p = inst_vec_into_vec(Riscv64MachineDeps::gen_prologue_frame_setup(&Flags::new(true)));
    assert_eq!(p.len(), 5);
    assert_eq!(
        p[3],
        Inst::Unwind { inst: UnwindInst::PushFrameRegs { offset_upward_to_caller_sp: 16 } }
    );
}

#[test]
fn clobber_save_then_restore_use_matching_offsets() {
    let clobbers = vec![w(x_real(9)), w(x_real(18))];
    let (size, save) = Riscv64MachineDeps::gen_clobber_save(
        CallConv::SystemV,
        true,
        &Flags::new(false),
        &clobbers,
        0,
        0,
    );
    assert_eq!(size, 16);
    let save = inst_vec_into_vec(save);
    assert_eq!(save.len(), 3);
    assert_eq!(save[0], Inst::AdjustSp { amount: -16 });
    assert_eq!(
        save[1],
        Inst::Store {
            to: AMode::SPOffset(0, Type::I64),
            op: StoreOP::Sd,
            flags: MemFlags::trusted(),
            src: xr(9),
        }
    );
    assert_eq!(
        save[2],
        Inst::Store {
            to: AMode::SPOffset(8, Type::I64),
            op: StoreOP::Sd,
            flags: MemFlags::trusted(),
            src: xr(18),
        }
    );

    let restore = inst_vec_into_vec(Riscv64MachineDeps::gen_clobber_restore(
        CallConv::SystemV,
        &sig(),
        &Flags::new(false),
        &clobbers,
        0,
        0,
    ));
    assert_eq!(restore.len(), 3);
    assert_eq!(
        restore[0],
        Inst::Load {
            rd: Writable { reg: xr(9) },
            op: LoadOP::Ld,
            flags: MemFlags::trusted(),
            from: AMode::SPOffset(0, Type::I64),
        }
    );
    assert_eq!(
        restore[1],
        Inst::Load {
            rd: Writable { reg: xr(18) },
            op: LoadOP::Ld,
            flags: MemFlags::trusted(),
            from: AMode::SPOffset(8, Type::I64),
        }
    );
    assert_eq!(restore[2], Inst::AdjustSp { amount: 16 });
}

#[test]
fn clobber_save_emits_unwind_directives() {
    let clobbers = vec![w(x_real(9))];
    let (_, save) = Riscv64MachineDeps::gen_clobber_save(
        CallConv::SystemV,
        true,
        &Flags::new(true),
        &clobbers,
        0,
        0,
    );
    let save = inst_vec_into_vec(save);
    assert_eq!(
        save[0],
        Inst::Unwind {
            inst: UnwindInst::DefineNewFrame {
                offset_downward_to_clobbers: 16,
                offset_upward_to_caller_sp: 16,
            }
        }
    );
    assert_eq!(
        save[2],
        Inst::Unwind { inst: UnwindInst::SaveReg { clobber_offset: 0, reg: x_real(9) } }
    );
}

#[test]
fn clobbered_callee_saves_are_filtered_and_sorted() {
    // x10 is caller-saved and drops out; the rest come back in the
    // deterministic save order: integer file first, by encoding.
    let regs = vec![w(x_real(18)), w(x_real(9)), w(x_real(10)), w(f_real(8))];
    let saves = get_clobbered_callee_saves(CallConv::SystemV, &Flags::new(false), &sig(), &regs);
    assert_eq!(saves, vec![w(x_real(9)), w(x_real(18)), w(f_real(8))]);
}

#[test]
fn callee_saved_partition_matches_the_convention() {
    assert!(is_reg_saved_in_prologue(CallConv::SystemV, x_real(2)));
    assert!(is_reg_saved_in_prologue(CallConv::SystemV, x_real(9)));
    assert!(is_reg_saved_in_prologue(CallConv::SystemV, x_real(27)));
    assert!(!is_reg_saved_in_prologue(CallConv::SystemV, x_real(10)));
    assert!(!is_reg_saved_in_prologue(CallConv::SystemV, x_real(31)));
    assert!(is_reg_saved_in_prologue(CallConv::SystemV, f_real(8)));
    assert!(is_reg_saved_in_prologue(CallConv::SystemV, f_real(18)));
    assert!(!is_reg_saved_in_prologue(CallConv::SystemV, f_real(0)));
}

#[test]
fn clobber_size_rounds_to_sixteen() {
    assert_eq!(compute_clobber_size(&vec![]), 0);
    assert_eq!(compute_clobber_size(&vec![w(x_real(9))]), 16);
    assert_eq!(compute_clobber_size(&vec![w(x_real(9)), w(f_real(8))]), 16);
    assert_eq!(compute_clobber_size(&vec![w(x_real(9)), w(x_real(18)), w(x_real(19))]), 32);
}

#[test]
fn no_purpose_claims_a_special_register() {
    let mut p = AbiParam::new(Type::I64);
    p.purpose = ArgumentPurpose::VMContext;
    assert!(special_purpose_register(p).is_none());
}

#[test]
fn near_user_symbol_calls_directly() {
    let name = ExternalName::User { namespace: 0, index: 5 };
    let insts = inst_vec_into_vec(Riscv64MachineDeps::gen_call(
        CallDest::ExtName(name, RelocDistance::Near),
        vec![xr(10)],
        Vec::new(),
        regalloc2::PRegSet::empty(),
        rv64_backend::inst::Opcode::Call,
        Writable { reg: xr(31) },
        CallConv::SystemV,
        CallConv::SystemV,
    ));
    assert_eq!(insts.len(), 1);
    match &insts[0] {
        Inst::Call { info } => {
            assert_eq!(info.dest, name);
            assert_eq!(info.uses, vec![xr(10)]);
        }
        other => panic!("expected a direct call, got {:?}", other),
    }
}

#[test]
fn far_symbol_materializes_then_calls_indirectly() {
    let name = ExternalName::User { namespace: 0, index: 5 };
    let insts = inst_vec_into_vec(Riscv64MachineDeps::gen_call(
        CallDest::ExtName(name, RelocDistance::Far),
        Vec::new(),
        Vec::new(),
        regalloc2::PRegSet::empty(),
        rv64_backend::inst::Opcode::Call,
        Writable { reg: xr(31) },
        CallConv::SystemV,
        CallConv::SystemV,
    ));
    assert_eq!(insts.len(), 2);
    assert_eq!(insts[0], Inst::LoadExtName { rd: Writable { reg: xr(31) }, name, offset: 0 });
    match &insts[1] {
        Inst::CallInd { info } => assert_eq!(info.rn, xr(31)),
        other => panic!("expected an indirect call, got {:?}", other),
    }
}

#[test]
fn register_destination_materializes_then_calls_indirectly() {
    let insts = inst_vec_into_vec(Riscv64MachineDeps::gen_call(
        CallDest::Reg(xr(5)),
        Vec::new(),
        Vec::new(),
        regalloc2::PRegSet::empty(),
        rv64_backend::inst::Opcode::CallIndirect,
        Writable { reg: xr(31) },
        CallConv::SystemV,
        CallConv::SystemV,
    ));
    assert_eq!(insts.len(), 2);
    assert_eq!(insts[0], Inst::Mov { rd: Writable { reg: xr(31) }, rm: xr(5), ty: Type::I64 });
    match &insts[1] {
        Inst::CallInd { info } => assert_eq!(info.rn, xr(31)),
        other => panic!("expected an indirect call, got {:?}", other),
    }
}

#[test]
fn memcpy_sets_up_arguments_and_clobbers() {
    let insts =
        inst_vec_into_vec(Riscv64MachineDeps::gen_memcpy(CallConv::SystemV, xr(20), xr(21), 64));
    assert_eq!(insts[0], Inst::Mov { rd: Writable { reg: xr(10) }, rm: xr(20), ty: Type::I64 });
    assert_eq!(insts[1], Inst::Mov { rd: Writable { reg: xr(11) }, rm: xr(21), ty: Type::I64 });
    match insts.last().unwrap() {
        Inst::Call { info } => {
            assert_eq!(info.dest, ExternalName::LibCall(LibCall::Memcpy));
            assert_eq!(info.uses, vec![xr(10), xr(11), xr(12)]);
            // The copy routine clobbers the caller-saved set: x1 in, x2 out.
            assert!(info.clobbers.contains(regalloc2::PReg::new(1, regalloc2::RegClass::Int)));
            assert!(!info.clobbers.contains(regalloc2::PReg::new(2, regalloc2::RegClass::Int)));
        }
        other => panic!("expected the copy call, got {:?}", other),
    }
}

#[test]
fn probestack_loads_size_and_calls_probe() {
    let insts = inst_vec_into_vec(Riscv64MachineDeps::gen_probestack(4096));
    assert_eq!(
        insts[0],
        Inst::AluRRImm12 {
            alu_op: AluOPRRI::Addi,
            rd: Writable { reg: xr(10) },
            rs: xr(0),
            imm12: Imm12 { bits: 0 },
        }
    );
    match insts.last().unwrap() {
        Inst::Call { info } => {
            assert_eq!(info.dest, ExternalName::LibCall(LibCall::Probestack));
            assert_eq!(info.clobbers.len(), 0);
        }
        other => panic!("expected the probe call, got {:?}", other),
    }
}

#[test]
fn caller_saved_set_matches_the_tables() {
    let set = Riscv64MachineDeps::get_regs_clobbered_by_call(CallConv::SystemV);
    assert!(set.contains(regalloc2::PReg::new(1, regalloc2::RegClass::Int)));
    assert!(set.contains(regalloc2::PReg::new(17, regalloc2::RegClass::Int)));
    assert!(!set.contains(regalloc2::PReg::new(2, regalloc2::RegClass::Int)));
    assert!(!set.contains(regalloc2::PReg::new(9, regalloc2::RegClass::Int)));
    assert!(set.contains(regalloc2::PReg::new(0, regalloc2::RegClass::Float)));
    assert!(!set.contains(regalloc2::PReg::new(8, regalloc2::RegClass::Float)));
    assert_eq!(set.len(), 16 + 21);
}

#[test]
fn add_imm_uses_short_form_when_it_fits() {
    let insts = inst_vec_into_vec(Riscv64MachineDeps::gen_add_imm(
        Writable { reg: xr(5) },
        xr(6),
        32,
    ));
    assert_eq!(insts.len(), 1);
    assert_eq!(
        insts[0],
        Inst::AluRRImm12 {
            alu_op: AluOPRRI::Addi,
            rd: Writable { reg: xr(5) },
            rs: xr(6),
            imm12: Imm12 { bits: 32 },
        }
    );
}

#[test]
fn add_imm_uses_constant_load_when_wide() {
    let insts = inst_vec_into_vec(Riscv64MachineDeps::gen_add_imm(
        Writable { reg: xr(5) },
        xr(6),
        0x12345,
    ));
    assert_eq!(insts.len(), 12);
    assert_eq!(
        insts[11],
        Inst::AluRRR {
            alu_op: AluOPRRR::Add,
            rd: Writable { reg: xr(5) },
            rs1: xr(30),
            rs2: xr(6),
        }
    );
}

#[test]
fn stack_bound_trap_compares_unsigned() {
    let insts = inst_vec_into_vec(Riscv64MachineDeps::gen_stack_lower_bound_trap(xr(31)));
    assert_eq!(insts.len(), 1);
    assert_eq!(
        insts[0],
        Inst::TrapIf {
            cc: IntCC::UnsignedLessThan,
            rs1: xr(2),
            rs2: xr(31),
            trap_code: TrapCode::StackOverflow,
        }
    );
}

#[test]
fn sp_adjust_of_zero_emits_nothing() {
    assert_eq!(inst_vec_into_vec(Riscv64MachineDeps::gen_sp_reg_adjust(0)).len(), 0);
    let insts = inst_vec_into_vec(Riscv64MachineDeps::gen_sp_reg_adjust(-32));
    assert_eq!(insts, vec![Inst::AdjustSp { amount: -32 }]);
}

#[test]
fn constant_load_round_trips_through_its_chunks() {
    for &val in &[0u64, 5, 2047, 2048, 0x12345, 0x1234_5678_9abc_def0, u64::MAX, 1 << 63] {
        let insts = inst_vec_into_vec(Inst::load_constant_u64(Writable { reg: xr(7) }, val));
        let mut acc: u64 = 0;
        for inst in &insts {
            match inst {
                Inst::AluRRImm12 { alu_op: AluOPRRI::Addi, imm12, .. } => {
                    acc = imm12.bits as i64 as u64;
                }
                Inst::AluRRImm12 { alu_op: AluOPRRI::Slli, imm12, .. } => {
                    acc = acc << imm12.bits;
                }
                Inst::AluRRImm12 { alu_op: AluOPRRI::Ori, imm12, .. } => {
                    acc = acc | (imm12.bits as i64 as u64);
                }
                other => panic!("unexpected instruction {:?}", other),
            }
        }
        assert_eq!(acc, val, "constant load of {:#x} reassembles wrongly", val);
    }
}

#[test]
fn imm12_accepts_exactly_the_sign_patterns() {
    assert_eq!(Imm12::maybe_from_u64(0).unwrap().bits, 0);
    assert_eq!(Imm12::maybe_from_u64(2047).unwrap().bits, 2047);
    assert!(Imm12::maybe_from_u64(2048).is_none());
    assert_eq!(Imm12::maybe_from_u64(u64::MAX).unwrap().bits, -1);
    assert_eq!(Imm12::maybe_from_u64(0xffff_ffff_ffff_f800).unwrap().bits, -2048);
    assert!(Imm12::maybe_from_u64(0xffff_ffff_ffff_f7ff).is_none());
}

#[test]
fn small_helpers_report_fixed_facts() {
    assert_eq!(Riscv64MachineDeps::word_bits(), 64);
    assert_eq!(Riscv64MachineDeps::stack_align(CallConv::SystemV), 16);
    assert_eq!(Riscv64MachineDeps::fp_to_arg_offset(CallConv::SystemV, &Flags::new(false)), 16);
    assert!(Riscv64MachineDeps::is_frame_setup_needed(true, 0, 0, 0));
    assert_eq!(
        Riscv64MachineDeps::get_number_of_spillslots_for_value(RegClass::Float, 16),
        1
    );
    assert_eq!(Riscv64MachineDeps::get_stacklimit_reg(), xr(31));
}
