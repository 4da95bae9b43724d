//! The target instruction set: the closed set of instruction variants the
//! ABI and lowering layers emit, together with their constructors.

use vstd::prelude::*;
use crate::types::{
    CallConv, ExternalName, FloatCC, IntCC, MemFlags, RelocDistance, TrapCode, Type,
};
use crate::regs::{spec_x_reg, zero_reg, RealReg, Reg, Writable};
use crate::imm::Imm12;
use crate::extern_specs::{inst_vec_new, inst_vec_push, inst_seq, InstVec};

verus! {

/// An addressing mode for loads, stores and address computations.
#[derive(Clone, Copy, PartialEq, Eq, Structural, Debug)]
pub enum AMode {
    RegOffset(Reg, i64, Type),
    SPOffset(i64, Type),
    FPOffset(i64, Type),
    NominalSPOffset(i64, Type),
}

/// A stack-relative location, before conversion to a full addressing mode.
#[derive(Clone, Copy, PartialEq, Eq, Structural, Debug)]
pub enum StackAMode {
    SPOffset(i64, Type),
    FPOffset(i64, Type),
    NominalSPOffset(i64, Type),
}

impl StackAMode {
    pub open spec fn spec_into_amode(self) -> AMode {
        match self {
            StackAMode::SPOffset(off, ty) => AMode::SPOffset(off, ty),
            StackAMode::FPOffset(off, ty) => AMode::FPOffset(off, ty),
            StackAMode::NominalSPOffset(off, ty) => AMode::NominalSPOffset(off, ty),
        }
    }

    #[verifier::when_used_as_spec(spec_into_amode)]
    pub fn into_amode(self) -> (r: AMode)
        ensures
            r == self.spec_into_amode(),
    {
        match self {
            StackAMode::SPOffset(off, ty) => AMode::SPOffset(off, ty),
            StackAMode::FPOffset(off, ty) => AMode::FPOffset(off, ty),
            StackAMode::NominalSPOffset(off, ty) => AMode::NominalSPOffset(off, ty),
        }
    }
}

/// Arithmetic-with-immediate operations.
#[derive(Clone, Copy, PartialEq, Eq, Structural, Debug)]
pub enum AluOPRRI {
    Addi,
    Andi,
    Ori,
    Xori,
    Slli,
    Srli,
    Srai,
    Bexti,
}

/// Register-register arithmetic operations.
#[derive(Clone, Copy, PartialEq, Eq, Structural, Debug)]
pub enum AluOPRRR {
    Add,
    Sub,
    Sll,
    Srl,
    Sra,
    Slt,
    SltU,
    And,
    Or,
    Xor,
}

/// Memory load operations, by width and destination class.
#[derive(Clone, Copy, PartialEq, Eq, Structural, Debug)]
pub enum LoadOP {
    Lb,
    Lbu,
    Lh,
    Lhu,
    Lw,
    Lwu,
    Ld,
    Flw,
    Fld,
}

impl LoadOP {
    pub open spec fn spec_from_type(ty: Type) -> LoadOP {
        match ty {
            Type::I8 => LoadOP::Lb,
            Type::B1 | Type::B8 => LoadOP::Lbu,
            Type::I16 => LoadOP::Lh,
            Type::B16 => LoadOP::Lhu,
            Type::I32 => LoadOP::Lw,
            Type::B32 | Type::R32 => LoadOP::Lwu,
            Type::F32 => LoadOP::Flw,
            Type::F64 => LoadOP::Fld,
            _ => LoadOP::Ld,
        }
    }

    #[verifier::when_used_as_spec(spec_from_type)]
    pub fn from_type(ty: Type) -> (r: LoadOP)
        ensures
            r == LoadOP::spec_from_type(ty),
    {
        match ty {
            Type::I8 => LoadOP::Lb,
            Type::B1 | Type::B8 => LoadOP::Lbu,
            Type::I16 => LoadOP::Lh,
            Type::B16 => LoadOP::Lhu,
            Type::I32 => LoadOP::Lw,
            Type::B32 | Type::R32 => LoadOP::Lwu,
            Type::F32 => LoadOP::Flw,
            Type::F64 => LoadOP::Fld,
            _ => LoadOP::Ld,
        }
    }
}

/// Memory store operations, by width and source class.
#[derive(Clone, Copy, PartialEq, Eq, Structural, Debug)]
pub enum StoreOP {
    Sb,
    Sh,
    Sw,
    Sd,
    Fsw,
    Fsd,
}

impl StoreOP {
    pub open spec fn spec_from_type(ty: Type) -> StoreOP {
        match ty {
            Type::I8 | Type::B1 | Type::B8 => StoreOP::Sb,
            Type::I16 | Type::B16 => StoreOP::Sh,
            Type::I32 | Type::B32 | Type::R32 => StoreOP::Sw,
            Type::F32 => StoreOP::Fsw,
            Type::F64 => StoreOP::Fsd,
            _ => StoreOP::Sd,
        }
    }

    #[verifier::when_used_as_spec(spec_from_type)]
    pub fn from_type(ty: Type) -> (r: StoreOP)
        ensures
            r == StoreOP::spec_from_type(ty),
    {
        match ty {
            Type::I8 | Type::B1 | Type::B8 => StoreOP::Sb,
            Type::I16 | Type::B16 => StoreOP::Sh,
            Type::I32 | Type::B32 | Type::R32 => StoreOP::Sw,
            Type::F32 => StoreOP::Fsw,
            Type::F64 => StoreOP::Fsd,
            _ => StoreOP::Sd,
        }
    }
}

/// Register-to-register floating-point unit operations: raw bit moves
/// between the files and conversions.
#[derive(Clone, Copy, PartialEq, Eq, Structural, Debug)]
pub enum FpuOPRR {
    FmvXW,
    FmvWX,
    FmvXD,
    FmvDX,
    FcvtWS,
    FcvtWuS,
    FcvtLS,
    FcvtLuS,
    FcvtWD,
    FcvtWuD,
    FcvtLD,
    FcvtLuD,
    FcvtSW,
    FcvtSWu,
    FcvtSL,
    FcvtSLu,
    FcvtDW,
    FcvtDWu,
    FcvtDL,
    FcvtDLu,
}

/// Floating-point rounding modes.
#[derive(Clone, Copy, PartialEq, Eq, Structural, Debug)]
pub enum FRM {
    RNE,
    RTZ,
    RDN,
    RUP,
    RMM,
}

/// Atomic memory-ordering levels.
#[derive(Clone, Copy, PartialEq, Eq, Structural, Debug)]
pub enum AMO {
    Relaxed,
    Acquire,
    Release,
    AcqRel,
    SeqCst,
}

/// A label in the per-function instruction stream.
#[derive(Clone, Copy, PartialEq, Eq, Structural, Debug)]
pub struct MachLabel {
    pub index: u32,
}

/// A branch destination.
#[derive(Clone, Copy, PartialEq, Eq, Structural, Debug)]
pub enum BranchTarget {
    Label(MachLabel),
}

/// An explicit integer comparison: kind, left register, right register.
#[derive(Clone, Copy, PartialEq, Eq, Structural, Debug)]
pub struct IntegerCompare {
    pub kind: IntCC,
    pub rs1: Reg,
    pub rs2: Reg,
}

/// An explicit floating-point comparison, with the operand width.
#[derive(Clone, Copy, PartialEq, Eq, Structural, Debug)]
pub struct FloatCompare {
    pub kind: FloatCC,
    pub rs1: Reg,
    pub rs2: Reg,
    pub ty: Type,
}

/// Structured frame-layout records handed to the unwind-info serializer.
#[derive(Clone, Copy, PartialEq, Eq, Structural, Debug)]
pub enum UnwindInst {
    PushFrameRegs { offset_upward_to_caller_sp: u32 },
    DefineNewFrame { offset_downward_to_clobbers: u32, offset_upward_to_caller_sp: u32 },
    SaveReg { clobber_offset: u32, reg: RealReg },
}

/// Opcodes of the intermediate representation this layer inspects.
#[derive(Clone, Copy, PartialEq, Eq, Structural, Debug)]
pub enum Opcode {
    Call,
    CallIndirect,
    Iconst,
    Bconst,
    F32const,
    F64const,
    Return,
    Icmp,
    Ifcmp,
    Ffcmp,
    IaddIfcout,
    Jump,
    Brz,
    Brnz,
    BrIcmp,
    Brif,
    BrTable,
}

/// Everything attached to a direct call.
#[derive(Clone, PartialEq, Debug)]
pub struct CallInfo {
    pub dest: ExternalName,
    pub uses: Vec<Reg>,
    pub defs: Vec<Writable<Reg>>,
    pub clobbers: regalloc2::PRegSet,
    pub opcode: Opcode,
    pub caller_callconv: CallConv,
    pub callee_callconv: CallConv,
}

/// Everything attached to an indirect call through a register.
#[derive(Clone, PartialEq, Debug)]
pub struct CallIndInfo {
    pub rn: Reg,
    pub uses: Vec<Reg>,
    pub defs: Vec<Writable<Reg>>,
    pub clobbers: regalloc2::PRegSet,
    pub opcode: Opcode,
    pub caller_callconv: CallConv,
    pub callee_callconv: CallConv,
}

/// A call destination as seen by the call-sequence generator.
#[derive(Clone, Copy, PartialEq, Eq, Structural, Debug)]
pub enum CallDest {
    ExtName(ExternalName, RelocDistance),
    Reg(Reg),
}

/// A target instruction: the closed set of variants the ABI and lowering
/// layers produce.
#[derive(Clone, PartialEq, Debug)]
pub enum Inst {
    Mov { rd: Writable<Reg>, rm: Reg, ty: Type },
    Load { rd: Writable<Reg>, op: LoadOP, flags: MemFlags, from: AMode },
    Store { to: AMode, op: StoreOP, flags: MemFlags, src: Reg },
    AluRRImm12 { alu_op: AluOPRRI, rd: Writable<Reg>, rs: Reg, imm12: Imm12 },
    AluRRR { alu_op: AluOPRRR, rd: Writable<Reg>, rs1: Reg, rs2: Reg },
    FpuRR { op: FpuOPRR, frm: Option<FRM>, rd: Writable<Reg>, rs: Reg },
    Extend { rd: Writable<Reg>, rn: Reg, signed: bool, from_bits: u8, to_bits: u8 },
    AdjustSp { amount: i64 },
    VirtualSPOffsetAdj { amount: i64 },
    TrapIf { cc: IntCC, rs1: Reg, rs2: Reg, trap_code: TrapCode },
    LoadAddr { rd: Writable<Reg>, mem: AMode },
    Call { info: CallInfo },
    CallInd { info: CallIndInfo },
    Ret { rets: Vec<Reg> },
    Jal { dest: BranchTarget },
    CondBr { taken: BranchTarget, not_taken: BranchTarget, kind: IntegerCompare },
    CondBrF { taken: BranchTarget, not_taken: BranchTarget, kind: FloatCompare },
    BrTable { index: Reg, tmp1: Writable<Reg>, default_target: BranchTarget, targets: Vec<BranchTarget> },
    SelectReg { rd: Writable<Reg>, rs1: Reg, rs2: Reg, condition: IntegerCompare },
    LoadExtName { rd: Writable<Reg>, name: ExternalName, offset: i64 },
    Unwind { inst: UnwindInst },
}

impl Inst {
    /// A load from the given addressing mode, with the width chosen by type.
    pub fn gen_load(into_reg: Writable<Reg>, mem: AMode, ty: Type, flags: MemFlags) -> (r: Inst)
        ensures
            r == (Inst::Load { rd: into_reg, op: LoadOP::spec_from_type(ty), flags, from: mem }),
    {
        Inst::Load { rd: into_reg, op: LoadOP::from_type(ty), flags, from: mem }
    }

    /// A store to the given addressing mode, with the width chosen by type.
    pub fn gen_store(mem: AMode, from_reg: Reg, ty: Type, flags: MemFlags) -> (r: Inst)
        ensures
            r == (Inst::Store { to: mem, op: StoreOP::spec_from_type(ty), flags, src: from_reg }),
    {
        Inst::Store { to: mem, op: StoreOP::from_type(ty), flags, src: from_reg }
    }

    /// A register-to-register move within one class.
    pub fn gen_move(to_reg: Writable<Reg>, from_reg: Reg, ty: Type) -> (r: Inst)
        ensures
            r == (Inst::Mov { rd: to_reg, rm: from_reg, ty }),
    {
        Inst::Mov { rd: to_reg, rm: from_reg, ty }
    }

    /// Load a small constant with a single add-immediate from the zero
    /// register.
    pub fn load_constant_imm12(rd: Writable<Reg>, imm: Imm12) -> (r: Inst)
        ensures
            r == (Inst::AluRRImm12 { alu_op: AluOPRRI::Addi, rd, rs: spec_x_reg(0), imm12: imm }),
    {
        Inst::AluRRImm12 { alu_op: AluOPRRI::Addi, rd, rs: zero_reg(), imm12: imm }
    }

    /// Load an arbitrary 64-bit constant into a register, using the short
    /// add-immediate form when the value fits the 12-bit field, and a
    /// shift-and-or chunk sequence otherwise.
    pub fn load_constant_u64(rd: Writable<Reg>, val: u64) -> (r: InstVec)
        ensures
            inst_seq(r) == spec_load_const_insts(rd, val),
    {
        let mut insts = inst_vec_new();
        if let Some(imm12) = Imm12::maybe_from_u64(val) {
            inst_vec_push(&mut insts, Inst::load_constant_imm12(rd, imm12));
        } else {
            let shift = Imm12::from_bits(11);
            let c0: u64 = val >> 55;
            let c1: u64 = (val >> 44) & 0x7ff;
            let c2: u64 = (val >> 33) & 0x7ff;
            let c3: u64 = (val >> 22) & 0x7ff;
            let c4: u64 = (val >> 11) & 0x7ff;
            let c5: u64 = val & 0x7ff;
            assert(val >> 55 <= 2047 && (val >> 44) & 0x7ff <= 2047 && (val >> 33) & 0x7ff <= 2047
                && (val >> 22) & 0x7ff <= 2047 && (val >> 11) & 0x7ff <= 2047 && val & 0x7ff <= 2047)
                by (bit_vector);
            inst_vec_push(&mut insts, Inst::AluRRImm12 {
                alu_op: AluOPRRI::Addi,
                rd,
                rs: zero_reg(),
                imm12: Imm12 { bits: c0 as i16 },
            });
            inst_vec_push(&mut insts, Inst::AluRRImm12 {
                alu_op: AluOPRRI::Slli, rd, rs: rd.to_reg(), imm12: shift,
            });
            inst_vec_push(&mut insts, Inst::AluRRImm12 {
                alu_op: AluOPRRI::Ori, rd, rs: rd.to_reg(), imm12: Imm12 { bits: c1 as i16 },
            });
            inst_vec_push(&mut insts, Inst::AluRRImm12 {
                alu_op: AluOPRRI::Slli, rd, rs: rd.to_reg(), imm12: shift,
            });
            inst_vec_push(&mut insts, Inst::AluRRImm12 {
                alu_op: AluOPRRI::Ori, rd, rs: rd.to_reg(), imm12: Imm12 { bits: c2 as i16 },
            });
            inst_vec_push(&mut insts, Inst::AluRRImm12 {
                alu_op: AluOPRRI::Slli, rd, rs: rd.to_reg(), imm12: shift,
            });
            inst_vec_push(&mut insts, Inst::AluRRImm12 {
                alu_op: AluOPRRI::Ori, rd, rs: rd.to_reg(), imm12: Imm12 { bits: c3 as i16 },
            });
            inst_vec_push(&mut insts, Inst::AluRRImm12 {
                alu_op: AluOPRRI::Slli, rd, rs: rd.to_reg(), imm12: shift,
            });
            inst_vec_push(&mut insts, Inst::AluRRImm12 {
                alu_op: AluOPRRI::Ori, rd, rs: rd.to_reg(), imm12: Imm12 { bits: c4 as i16 },
            });
            inst_vec_push(&mut insts, Inst::AluRRImm12 {
                alu_op: AluOPRRI::Slli, rd, rs: rd.to_reg(), imm12: shift,
            });
            inst_vec_push(&mut insts, Inst::AluRRImm12 {
                alu_op: AluOPRRI::Ori, rd, rs: rd.to_reg(), imm12: Imm12 { bits: c5 as i16 },
            });
            proof {
                assert(inst_seq(insts) =~= spec_load_const_insts(rd, val));
            }
        }
        insts
    }

    /// Load a constant that fits 32 bits.
    pub fn load_constant_u32(rd: Writable<Reg>, val: u64) -> (r: InstVec)
        requires
            val <= u32::MAX,
        ensures
            inst_seq(r) == spec_load_const_insts(rd, val),
    {
        Inst::load_constant_u64(rd, val)
    }
}

/// The shift-left-by-11 step of the long constant-load form.
pub open spec fn spec_shift_step(rd: Writable<Reg>) -> Inst {
    Inst::AluRRImm12 { alu_op: AluOPRRI::Slli, rd, rs: rd.reg, imm12: Imm12 { bits: 11 } }
}

/// The or-immediate step of the long constant-load form, carrying an
/// 11-bit chunk of the value.
pub open spec fn spec_or_step(rd: Writable<Reg>, chunk: u64) -> Inst {
    Inst::AluRRImm12 { alu_op: AluOPRRI::Ori, rd, rs: rd.reg, imm12: Imm12 { bits: chunk as i16 } }
}

/// The exact instruction sequence that loads a 64-bit constant: one
/// add-immediate when the value fits the 12-bit field, else the top nine
/// bits by add-immediate followed by five shift-and-or chunk pairs.
pub open spec fn spec_load_const_insts(rd: Writable<Reg>, val: u64) -> Seq<Inst> {
    if Imm12::spec_fits_in_imm12(val) {
        seq![
            Inst::AluRRImm12 {
                alu_op: AluOPRRI::Addi,
                rd,
                rs: spec_x_reg(0),
                imm12: Imm12::spec_from_u64(val),
            },
        ]
    } else {
        seq![
            Inst::AluRRImm12 {
                alu_op: AluOPRRI::Addi,
                rd,
                rs: spec_x_reg(0),
                imm12: Imm12 { bits: (val >> 55) as i16 },
            },
            spec_shift_step(rd),
            spec_or_step(rd, (val >> 44) & 0x7ff),
            spec_shift_step(rd),
            spec_or_step(rd, (val >> 33) & 0x7ff),
            spec_shift_step(rd),
            spec_or_step(rd, (val >> 22) & 0x7ff),
            spec_shift_step(rd),
            spec_or_step(rd, (val >> 11) & 0x7ff),
            spec_shift_step(rd),
            spec_or_step(rd, val & 0x7ff),
        ]
    }
}

} // verus!
