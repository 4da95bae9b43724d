//! The calling-convention implementation: argument and return-value location
//! assignment, frame construction, clobber save and restore, and call
//! sequences.

use vstd::prelude::*;
use crate::types::{
    AbiParam, ArgsOrRets, ArgumentExtension, ArgumentPurpose, CallConv, CodegenError, ExternalName,
    Flags, LibCall, MemFlags, RelocDistance, TrapCode, Type,
};
use crate::regs::{
    caller_save_f, caller_save_x, callee_save_f, callee_save_x, spec_callee_save_f,
    spec_callee_save_x, spec_caller_save_f, spec_caller_save_x, spec_canonical_type_for_class,
    spec_x_reg, canonical_type_for_class, link_reg, fp_reg, spilltmp_reg, spilltmp_reg2,
    stack_reg, writable_a0, writable_a1, writable_a2, writable_fp_reg, writable_link_reg,
    writable_spilltmp_reg2, RealReg, Reg, RegClass, Writable,
};
use crate::imm::{align16_u32, align16_u64, spec_align16, Imm12};
use crate::inst::{
    AMode, AluOPRRI, AluOPRRR, CallDest, CallIndInfo, CallInfo, Inst, LoadOP, Opcode, StackAMode,
    StoreOP, UnwindInst, spec_load_const_insts,
};
use crate::extern_specs::{
    arg_seq, arg_vec_len, arg_vec_new, arg_vec_push, inst_seq, inst_vec_append, inst_vec_new,
    inst_vec_push, preg_set, preg_set_add, preg_set_empty, ArgVec, InstVec,
};

verus! {

/// The limit on the byte size of the on-stack argument and return-value
/// area: 128 MiB. A larger area risks 32-bit offset-arithmetic overflow
/// downstream, so it is rejected as a recoverable error.
pub const STACK_ARG_RET_SIZE_LIMIT: u64 = 128 * 1024 * 1024;

/// One slot of an argument's location: a physical register or a stack
/// offset, with the slot's type and extension mode.
#[derive(Clone, Copy, PartialEq, Eq, Structural, Debug)]
pub enum ABIArgSlot {
    Reg { reg: RealReg, ty: Type, extension: ArgumentExtension },
    Stack { offset: i64, ty: Type, extension: ArgumentExtension },
}

/// The one or two slots an argument occupies. A value wider than one
/// machine word takes exactly two; nothing ever takes more.
#[derive(Clone, Copy, PartialEq, Eq, Structural, Debug)]
pub enum ABIArgSlots {
    One(ABIArgSlot),
    Two(ABIArgSlot, ABIArgSlot),
}

/// A computed argument or return-value location. Immutable once computed.
#[derive(Clone, Copy, PartialEq, Eq, Debug)]
pub enum ABIArg {
    Slots { slots: ABIArgSlots, purpose: ArgumentPurpose },
    StructArg { pointer: Option<RealReg>, offset: i64, size: u64, purpose: ArgumentPurpose },
}

impl ABIArg {
    /// A one-register location.
    pub fn reg(reg: RealReg, ty: Type, extension: ArgumentExtension, purpose: ArgumentPurpose) -> (
        r: ABIArg)
        ensures
            r == spec_reg_arg(reg, ty, extension, purpose),
    {
        ABIArg::Slots { slots: ABIArgSlots::One(ABIArgSlot::Reg { reg, ty, extension }), purpose }
    }

    /// A one-stack-slot location.
    pub fn stack(offset: i64, ty: Type, extension: ArgumentExtension, purpose: ArgumentPurpose)
        -> (r: ABIArg)
        ensures
            r == spec_stack_arg(offset as int, ty, extension, purpose),
    {
        ABIArg::Slots { slots: ABIArgSlots::One(ABIArgSlot::Stack { offset, ty, extension }), purpose }
    }
}

pub open spec fn spec_reg_arg(
    reg: RealReg,
    ty: Type,
    extension: ArgumentExtension,
    purpose: ArgumentPurpose,
) -> ABIArg {
    ABIArg::Slots { slots: ABIArgSlots::One(ABIArgSlot::Reg { reg, ty, extension }), purpose }
}

pub open spec fn spec_stack_arg(
    offset: int,
    ty: Type,
    extension: ArgumentExtension,
    purpose: ArgumentPurpose,
) -> ABIArg {
    ABIArg::Slots {
        slots: ABIArgSlots::One(ABIArgSlot::Stack { offset: offset as i64, ty, extension }),
        purpose,
    }
}

pub open spec fn spec_x_real(enc: int) -> RealReg {
    RealReg { class: RegClass::Int, enc: enc as u8 }
}

pub open spec fn spec_f_real(enc: int) -> RealReg {
    RealReg { class: RegClass::Float, enc: enc as u8 }
}

/// The last argument register of each class: x10-x17 and f10-f17 carry
/// arguments; only the first two of each carry return values.
pub open spec fn spec_reg_last(args_or_rets: ArgsOrRets) -> int {
    if args_or_rets == ArgsOrRets::Args {
        17
    } else {
        11
    }
}

/// One step of location assignment: the state is (locations so far, next
/// integer register, next float register, next stack offset).
pub open spec fn spec_assign_step(
    st: (Seq<ABIArg>, int, int, int),
    p: AbiParam,
    last: int,
) -> (Seq<ABIArg>, int, int, int) {
    let args = st.0;
    let nx = st.1;
    let nf = st.2;
    let ns = st.3;
    match p.purpose {
        ArgumentPurpose::StructArgument(size) => (
            args.push(
                ABIArg::StructArg {
                    pointer: None,
                    offset: ns as i64,
                    size: size as u64,
                    purpose: p.purpose,
                },
            ),
            nx,
            nf,
            ns + size,
        ),
        _ => {
            if p.value_type.spec_is_float() {
                if nf <= last {
                    (
                        args.push(spec_reg_arg(spec_f_real(nf), p.value_type, p.extension, p.purpose)),
                        nx,
                        nf + 1,
                        ns,
                    )
                } else {
                    (
                        args.push(spec_stack_arg(ns, p.value_type, p.extension, p.purpose)),
                        nx,
                        nf,
                        ns + 8,
                    )
                }
            } else if p.value_type.spec_bits() == 128 {
                let elem_type = if p.value_type == Type::I128 {
                    Type::I64
                } else {
                    Type::B64
                };
                if nx + 1 <= last {
                    (
                        args.push(
                            ABIArg::Slots {
                                slots: ABIArgSlots::Two(
                                    ABIArgSlot::Reg {
                                        reg: spec_x_real(nx),
                                        ty: elem_type,
                                        extension: p.extension,
                                    },
                                    ABIArgSlot::Reg {
                                        reg: spec_x_real(nx + 1),
                                        ty: elem_type,
                                        extension: p.extension,
                                    },
                                ),
                                purpose: ArgumentPurpose::Normal,
                            },
                        ),
                        nx + 2,
                        nf,
                        ns,
                    )
                } else if nx <= last {
                    (
                        args.push(
                            ABIArg::Slots {
                                slots: ABIArgSlots::Two(
                                    ABIArgSlot::Reg {
                                        reg: spec_x_real(nx),
                                        ty: elem_type,
                                        extension: p.extension,
                                    },
                                    ABIArgSlot::Stack {
                                        offset: ns as i64,
                                        ty: elem_type,
                                        extension: p.extension,
                                    },
                                ),
                                purpose: ArgumentPurpose::Normal,
                            },
                        ),
                        nx + 1,
                        nf,
                        ns + 8,
                    )
                } else {
                    (
                        args.push(
                            ABIArg::Slots {
                                slots: ABIArgSlots::Two(
                                    ABIArgSlot::Stack {
                                        offset: ns as i64,
                                        ty: elem_type,
                                        extension: p.extension,
                                    },
                                    ABIArgSlot::Stack {
                                        offset: (ns + 8) as i64,
                                        ty: elem_type,
                                        extension: p.extension,
                                    },
                                ),
                                purpose: ArgumentPurpose::Normal,
                            },
                        ),
                        nx,
                        nf,
                        ns + 16,
                    )
                }
            } else {
                if nx <= last {
                    (
                        args.push(spec_reg_arg(spec_x_real(nx), p.value_type, p.extension, p.purpose)),
                        nx + 1,
                        nf,
                        ns,
                    )
                } else {
                    (
                        args.push(spec_stack_arg(ns, p.value_type, p.extension, p.purpose)),
                        nx,
                        nf,
                        ns + 8,
                    )
                }
            }
        },
    }
}

/// The assignment state after the first `n` parameters, starting from the
/// first argument register of each class and an empty stack area.
pub open spec fn spec_assign_upto(params: Seq<AbiParam>, n: int, last: int) -> (
    Seq<ABIArg>,
    int,
    int,
    int,
)
    decreases n,
{
    if n <= 0 {
        (Seq::empty(), 10, 10, 0)
    } else {
        spec_assign_step(spec_assign_upto(params, n - 1, last), params[n - 1], last)
    }
}

/// The stack cursor never moves backward as parameters are assigned.
pub proof fn lemma_assign_ns_monotone(params: Seq<AbiParam>, i: int, j: int, last: int)
    requires
        0 <= i <= j,
    ensures
        spec_assign_upto(params, i, last).3 <= spec_assign_upto(params, j, last).3,
    decreases j - i,
{
    if i < j {
        lemma_assign_ns_monotone(params, i, j - 1, last);
    }
}

/// The appended return-area pointer, when requested: the next integer
/// register if one is free, else the next stack slot. The result is the
/// final location list, the final stack size before alignment, and the
/// pointer's index in the list.
pub open spec fn spec_with_ret_ptr(
    st: (Seq<ABIArg>, int, int, int),
    add_ret_area_ptr: bool,
    last: int,
) -> (Seq<ABIArg>, int, Option<int>) {
    if !add_ret_area_ptr {
        (st.0, st.3, None)
    } else if st.1 <= last {
        (
            st.0.push(
                spec_reg_arg(
                    spec_x_real(st.1),
                    Type::I64,
                    ArgumentExtension::NoExtension,
                    ArgumentPurpose::Normal,
                ),
            ),
            st.3,
            Some(st.0.len() as int),
        )
    } else {
        (
            st.0.push(
                spec_stack_arg(
                    st.3,
                    Type::I64,
                    ArgumentExtension::NoExtension,
                    ArgumentPurpose::Normal,
                ),
            ),
            st.3 + 8,
            Some(st.0.len() as int),
        )
    }
}

/// The complete specification of argument-location assignment for one
/// descriptor list.
pub open spec fn spec_arg_locs(
    params: Seq<AbiParam>,
    args_or_rets: ArgsOrRets,
    add_ret_area_ptr: bool,
) -> (Seq<ABIArg>, int, Option<int>) {
    spec_with_ret_ptr(
        spec_assign_upto(params, params.len() as int, spec_reg_last(args_or_rets)),
        add_ret_area_ptr,
        spec_reg_last(args_or_rets),
    )
}

/// Assign a location to every parameter (or return value) of a signature,
/// walking the list in order: a scalar takes the next free register of its
/// class, or an 8-byte stack slot once that class's registers are
/// exhausted; a double-word integer takes two sequential slots; a struct
/// argument always takes its byte size on the stack. Returns the location
/// list in input order, the 16-byte-aligned stack-area size, and the index
/// of the appended return-area pointer when one was requested; fails if and
/// only if the stack area would exceed the 128 MiB limit.
pub fn compute_arg_locs(
    call_conv: CallConv,
    _flags: &Flags,
    params: &Vec<AbiParam>,
    args_or_rets: ArgsOrRets,
    add_ret_area_ptr: bool,
) -> (r: Result<(ArgVec, i64, Option<usize>), CodegenError>)
    requires
        forall|i: int| 0 <= i < params@.len() ==> (#[trigger] params@[i]).purpose.spec_supported(),
        forall|i: int|
            0 <= i < params@.len() ==> match (#[trigger] params@[i]).purpose {
                ArgumentPurpose::StructArgument(size) => size % 8 == 0,
                _ => true,
            },
        add_ret_area_ptr ==> args_or_rets == ArgsOrRets::Args,
    ensures
        ({
            let (locs, stack, pos) = spec_arg_locs(params@, args_or_rets, add_ret_area_ptr);
            &&& (r is Err <==> spec_align16(stack) > STACK_ARG_RET_SIZE_LIMIT)
            &&& (r is Err ==> r == Result::<(ArgVec, i64, Option<usize>), CodegenError>::Err(
                CodegenError::ImplLimitExceeded,
            ))
            &&& (r matches Ok(ok) ==> {
                &&& arg_seq(ok.0) == locs
                &&& ok.1 == spec_align16(stack)
                &&& match (ok.2, pos) {
                    (Some(a), Some(b)) => a == b,
                    (None, None) => true,
                    _ => false,
                }
            })
        }),
{
    let ghost last: int = spec_reg_last(args_or_rets);
    let reg_end: u8 = if args_or_rets == ArgsOrRets::Args {
        17
    } else {
        11
    };
    let x_end: u8 = reg_end;
    let f_end: u8 = reg_end;
    let mut next_x_reg: u8 = 10;
    let mut next_f_reg: u8 = 10;
    let mut next_stack: u64 = 0;
    let mut abi_args = arg_vec_new();
    let mut i: usize = 0;
    while i < params.len()
        invariant
            i <= params@.len(),
            x_end == spec_reg_last(args_or_rets),
            f_end == spec_reg_last(args_or_rets),
            last == spec_reg_last(args_or_rets),
            forall|k: int|
                0 <= k < params@.len() ==> (#[trigger] params@[k]).purpose.spec_supported(),
            forall|k: int|
                0 <= k < params@.len() ==> match (#[trigger] params@[k]).purpose {
                    ArgumentPurpose::StructArgument(size) => size % 8 == 0,
                    _ => true,
                },
            (arg_seq(abi_args), next_x_reg as int, next_f_reg as int, next_stack as int)
                == spec_assign_upto(params@, i as int, last),
            next_stack <= STACK_ARG_RET_SIZE_LIMIT,
            10 <= next_x_reg <= 18,
            10 <= next_f_reg <= 18,
        decreases params@.len() - i,
    {
        let param = params[i];
        match param.purpose {
            ArgumentPurpose::StructArgument(size) => {
                let offset = next_stack;
                arg_vec_push(
                    &mut abi_args,
                    ABIArg::StructArg {
                        pointer: None,
                        offset: offset as i64,
                        size: size as u64,
                        purpose: param.purpose,
                    },
                );
                next_stack = next_stack + size as u64;
            },
            _ => {
                if param.value_type.is_float() {
                    if next_f_reg <= f_end {
                        let arg = ABIArg::reg(
                            RealReg { class: RegClass::Float, enc: next_f_reg },
                            param.value_type,
                            param.extension,
                            param.purpose,
                        );
                        arg_vec_push(&mut abi_args, arg);
                        next_f_reg = next_f_reg + 1;
                    } else {
                        let arg = ABIArg::stack(
                            next_stack as i64,
                            param.value_type,
                            param.extension,
                            param.purpose,
                        );
                        arg_vec_push(&mut abi_args, arg);
                        next_stack = next_stack + 8;
                    }
                } else if param.value_type.bits() == 128 {
                    let elem_type = if param.value_type == Type::I128 {
                        Type::I64
                    } else {
                        Type::B64
                    };
                    if next_x_reg + 1 <= x_end {
                        arg_vec_push(
                            &mut abi_args,
                            ABIArg::Slots {
                                slots: ABIArgSlots::Two(
                                    ABIArgSlot::Reg {
                                        reg: RealReg { class: RegClass::Int, enc: next_x_reg },
                                        ty: elem_type,
                                        extension: param.extension,
                                    },
                                    ABIArgSlot::Reg {
                                        reg: RealReg { class: RegClass::Int, enc: next_x_reg + 1 },
                                        ty: elem_type,
                                        extension: param.extension,
                                    },
                                ),
                                purpose: ArgumentPurpose::Normal,
                            },
                        );
                        next_x_reg = next_x_reg + 2;
                    } else if next_x_reg <= x_end {
                        arg_vec_push(
                            &mut abi_args,
                            ABIArg::Slots {
                                slots: ABIArgSlots::Two(
                                    ABIArgSlot::Reg {
                                        reg: RealReg { class: RegClass::Int, enc: next_x_reg },
                                        ty: elem_type,
                                        extension: param.extension,
                                    },
                                    ABIArgSlot::Stack {
                                        offset: next_stack as i64,
                                        ty: elem_type,
                                        extension: param.extension,
                                    },
                                ),
                                purpose: ArgumentPurpose::Normal,
                            },
                        );
                        next_x_reg = next_x_reg + 1;
                        next_stack = next_stack + 8;
                    } else {
                        arg_vec_push(
                            &mut abi_args,
                            ABIArg::Slots {
                                slots: ABIArgSlots::Two(
                                    ABIArgSlot::Stack {
                                        offset: next_stack as i64,
                                        ty: elem_type,
                                        extension: param.extension,
                                    },
                                    ABIArgSlot::Stack {
                                        offset: (next_stack + 8) as i64,
                                        ty: elem_type,
                                        extension: param.extension,
                                    },
                                ),
                                purpose: ArgumentPurpose::Normal,
                            },
                        );
                        next_stack = next_stack + 16;
                    }
                } else {
                    if next_x_reg <= x_end {
                        let arg = ABIArg::reg(
                            RealReg { class: RegClass::Int, enc: next_x_reg },
                            param.value_type,
                            param.extension,
                            param.purpose,
                        );
                        arg_vec_push(&mut abi_args, arg);
                        next_x_reg = next_x_reg + 1;
                    } else {
                        let arg = ABIArg::stack(
                            next_stack as i64,
                            param.value_type,
                            param.extension,
                            param.purpose,
                        );
                        arg_vec_push(&mut abi_args, arg);
                        next_stack = next_stack + 8;
                    }
                }
            },
        }
        i = i + 1;
        if next_stack > STACK_ARG_RET_SIZE_LIMIT {
            proof {
                lemma_assign_ns_monotone(params@, i as int, params@.len() as int, last);
            }
            return Err(CodegenError::ImplLimitExceeded);
        }
    }
    let pos: Option<usize> = if add_ret_area_ptr {
        if next_x_reg <= x_end {
            let arg = ABIArg::reg(
                RealReg { class: RegClass::Int, enc: next_x_reg },
                Type::I64,
                ArgumentExtension::NoExtension,
                ArgumentPurpose::Normal,
            );
            arg_vec_push(&mut abi_args, arg);
            Some(arg_vec_len(&abi_args) - 1)
        } else {
            let arg = ABIArg::stack(
                next_stack as i64,
                Type::I64,
                ArgumentExtension::NoExtension,
                ArgumentPurpose::Normal,
            );
            arg_vec_push(&mut abi_args, arg);
            next_stack = next_stack + 8;
            Some(arg_vec_len(&abi_args) - 1)
        }
    } else {
        None
    };
    if next_stack > STACK_ARG_RET_SIZE_LIMIT {
        return Err(CodegenError::ImplLimitExceeded);
    }
    let next_stack_aligned = align16_u64(next_stack);
    if next_stack_aligned > STACK_ARG_RET_SIZE_LIMIT {
        return Err(CodegenError::ImplLimitExceeded);
    }
    Ok((abi_args, next_stack_aligned as i64, pos))
}

/// A normal scalar integer-class parameter: integer, boolean or reference,
/// at most one machine word wide.
pub open spec fn spec_normal_int_scalar(p: AbiParam) -> bool {
    &&& p.purpose == ArgumentPurpose::Normal
    &&& !p.value_type.spec_is_float()
    &&& p.value_type.spec_bits() <= 64
}

/// How a list made only of normal integer-class scalars is assigned, step
/// by step: the first eight take the argument registers x10-x17 in input
/// order, and every further one takes the next 8-byte stack slot, at
/// strictly increasing offsets.
pub proof fn lemma_int_scalar_assignment(params: Seq<AbiParam>, n: int)
    requires
        0 <= n <= params.len(),
        forall|i: int| 0 <= i < params.len() ==> spec_normal_int_scalar(#[trigger] params[i]),
    ensures
        ({
            let st = spec_assign_upto(params, n, 17);
            &&& st.0.len() == n
            &&& st.2 == 10
            &&& (forall|i: int|
                0 <= i < n && i < 8 ==> st.0[i] == spec_reg_arg(
                    spec_x_real(10 + i),
                    params[i].value_type,
                    params[i].extension,
                    ArgumentPurpose::Normal,
                ))
            &&& (n <= 8 ==> st.1 == 10 + n && st.3 == 0)
            &&& (n > 8 ==> st.1 == 18 && st.3 == 8 * (n - 8) && (forall|i: int|
                8 <= i < n ==> st.0[i] == spec_stack_arg(
                    8 * (i - 8),
                    params[i].value_type,
                    params[i].extension,
                    ArgumentPurpose::Normal,
                )))
        }),
    decreases n,
{
    if n > 0 {
        lemma_int_scalar_assignment(params, n - 1);
    }
}

/// When no more parameters than there are argument registers arrive, all of
/// one class and one word wide, every one of them is assigned a register,
/// the registers are pairwise distinct and follow the input order, and the
/// stack area stays empty.
pub proof fn lemma_few_params_all_in_registers(params: Seq<AbiParam>)
    requires
        params.len() <= 8,
        forall|i: int| 0 <= i < params.len() ==> spec_normal_int_scalar(#[trigger] params[i]),
    ensures
        ({
            let (locs, stack, pos) = spec_arg_locs(params, ArgsOrRets::Args, false);
            &&& locs.len() == params.len()
            &&& stack == 0
            &&& (forall|i: int|
                0 <= i < params.len() ==> locs[i] == spec_reg_arg(
                    spec_x_real(10 + i),
                    params[i].value_type,
                    params[i].extension,
                    ArgumentPurpose::Normal,
                ))
            &&& (forall|i: int, j: int|
                0 <= i < params.len() && 0 <= j < params.len() && i != j ==> #[trigger] spec_x_real(
                    i + 10,
                ) != #[trigger] spec_x_real(j + 10))
        }),
{
    lemma_int_scalar_assignment(params, params.len() as int);
}

/// With more one-word parameters of one class than there are argument
/// registers, the first eight keep their register assignment, and each
/// following parameter lands on the stack in input order, at strictly
/// increasing 8-byte-aligned offsets starting at zero.
pub proof fn lemma_overflow_params_on_stack(params: Seq<AbiParam>)
    requires
        params.len() > 8,
        forall|i: int| 0 <= i < params.len() ==> spec_normal_int_scalar(#[trigger] params[i]),
    ensures
        ({
            let (locs, stack, pos) = spec_arg_locs(params, ArgsOrRets::Args, false);
            &&& locs.len() == params.len()
            &&& (forall|i: int|
                0 <= i < 8 ==> locs[i] == spec_reg_arg(
                    spec_x_real(10 + i),
                    params[i].value_type,
                    params[i].extension,
                    ArgumentPurpose::Normal,
                ))
            &&& (forall|i: int|
                8 <= i < params.len() ==> locs[i] == spec_stack_arg(
                    8 * (i - 8),
                    params[i].value_type,
                    params[i].extension,
                    ArgumentPurpose::Normal,
                ))
            &&& stack == 8 * (params.len() - 8)
        }),
{
    lemma_int_scalar_assignment(params, params.len() as int);
}

/// A normal scalar float-class parameter.
pub open spec fn spec_normal_float_scalar(p: AbiParam) -> bool {
    &&& p.purpose == ArgumentPurpose::Normal
    &&& p.value_type.spec_is_float()
}

/// How a list made only of float scalars is assigned, step by step: the
/// first eight take the argument registers f10-f17 in input order, and
/// every further one takes the next 8-byte stack slot, at strictly
/// increasing offsets.
pub proof fn lemma_float_scalar_assignment(params: Seq<AbiParam>, n: int)
    requires
        0 <= n <= params.len(),
        forall|i: int| 0 <= i < params.len() ==> spec_normal_float_scalar(#[trigger] params[i]),
    ensures
        ({
            let st = spec_assign_upto(params, n, 17);
            &&& st.0.len() == n
            &&& st.1 == 10
            &&& (forall|i: int|
                0 <= i < n && i < 8 ==> st.0[i] == spec_reg_arg(
                    spec_f_real(10 + i),
                    params[i].value_type,
                    params[i].extension,
                    ArgumentPurpose::Normal,
                ))
            &&& (n <= 8 ==> st.2 == 10 + n && st.3 == 0)
            &&& (n > 8 ==> st.2 == 18 && st.3 == 8 * (n - 8) && (forall|i: int|
                8 <= i < n ==> st.0[i] == spec_stack_arg(
                    8 * (i - 8),
                    params[i].value_type,
                    params[i].extension,
                    ArgumentPurpose::Normal,
                )))
        }),
    decreases n,
{
    if n > 0 {
        lemma_float_scalar_assignment(params, n - 1);
    }
}

/// The register-assignment and stack-overflow laws hold of the float class
/// exactly as of the integer class: no more float parameters than float
/// argument registers all land in distinct registers in input order with an
/// empty stack area, and any further ones land on the stack in input order
/// at strictly increasing 8-byte offsets.
pub proof fn lemma_float_params_assignment(params: Seq<AbiParam>)
    requires
        forall|i: int| 0 <= i < params.len() ==> spec_normal_float_scalar(#[trigger] params[i]),
    ensures
        ({
            let (locs, stack, pos) = spec_arg_locs(params, ArgsOrRets::Args, false);
            &&& locs.len() == params.len()
            &&& (forall|i: int|
                0 <= i < params.len() && i < 8 ==> locs[i] == spec_reg_arg(
                    spec_f_real(10 + i),
                    params[i].value_type,
                    params[i].extension,
                    ArgumentPurpose::Normal,
                ))
            &&& (params.len() <= 8 ==> stack == 0)
            &&& (forall|i: int|
                8 <= i < params.len() ==> locs[i] == spec_stack_arg(
                    8 * (i - 8),
                    params[i].value_type,
                    params[i].extension,
                    ArgumentPurpose::Normal,
                ))
            &&& (params.len() > 8 ==> stack == 8 * (params.len() - 8))
        }),
{
    lemma_float_scalar_assignment(params, params.len() as int);
}

/// A double-word integer parameter that meets exactly one free integer
/// register splits into a register slot then a stack slot, in that order,
/// and the two halves stay sequential in the location list.
pub proof fn lemma_double_word_split(st: (Seq<ABIArg>, int, int, int), p: AbiParam)
    requires
        p.purpose == ArgumentPurpose::Normal,
        p.value_type == Type::I128,
        st.1 == 17,
    ensures
        ({
            let st2 = spec_assign_step(st, p, 17);
            &&& st2.0 == st.0.push(
                ABIArg::Slots {
                    slots: ABIArgSlots::Two(
                        ABIArgSlot::Reg {
                            reg: spec_x_real(17),
                            ty: Type::I64,
                            extension: p.extension,
                        },
                        ABIArgSlot::Stack {
                            offset: st.3 as i64,
                            ty: Type::I64,
                            extension: p.extension,
                        },
                    ),
                    purpose: ArgumentPurpose::Normal,
                },
            )
            &&& st2.1 == 18
            &&& st2.3 == st.3 + 8
        }),
{
}

/// A function signature as this layer sees it.
#[derive(Clone, PartialEq, Debug)]
pub struct Signature {
    pub params: Vec<AbiParam>,
    pub returns: Vec<AbiParam>,
    pub call_conv: CallConv,
}

/// Per-function emission state: the running virtual stack-pointer offset
/// and the nominal-stack-pointer-to-frame-pointer offset.
#[derive(Clone, Copy, PartialEq, Eq, Structural, Debug)]
pub struct EmitState {
    pub virtual_sp_offset: i64,
    pub nominal_sp_to_fp: i64,
}

/// Whether a register must be preserved by a function that uses it.
pub open spec fn spec_is_reg_saved_in_prologue(reg: RealReg) -> bool {
    if reg.class == RegClass::Int {
        spec_callee_save_x(reg.enc as int)
    } else {
        spec_callee_save_f(reg.enc as int)
    }
}

/// Whether the callee must save this register before using it: the fixed
/// callee-saved partition of each register file.
pub fn is_reg_saved_in_prologue(_conv: CallConv, reg: RealReg) -> (r: bool)
    ensures
        r == spec_is_reg_saved_in_prologue(reg),
{
    if reg.class == RegClass::Int {
        callee_save_x(reg.enc)
    } else {
        callee_save_f(reg.enc)
    }
}

/// The clobber-save area size: 8 bytes per saved register, rounded up to
/// the 16-byte stack alignment.
pub fn compute_clobber_size(clobbers: &Vec<Writable<RealReg>>) -> (r: u32)
    requires
        clobbers@.len() <= 64,
    ensures
        r == spec_align16(8 * clobbers@.len() as int),
{
    let mut clobbered_size: u32 = 0;
    let mut i: usize = 0;
    while i < clobbers.len()
        invariant
            i <= clobbers@.len() <= 64,
            clobbered_size == 8 * i,
        decreases clobbers@.len() - i,
    {
        match clobbers[i].reg.class {
            RegClass::Int => {
                clobbered_size = clobbered_size + 8;
            },
            RegClass::Float => {
                clobbered_size = clobbered_size + 8;
            },
        }
        i = i + 1;
    }
    align16_u32(clobbered_size)
}

/// No argument purpose currently claims a convention-fixed register on this
/// target; the hook exists so a purpose could be given one without touching
/// the general assignment walk.
pub fn special_purpose_register(p: AbiParam) -> (r: Option<ABIArg>)
    ensures
        r is None,
{
    match p.purpose {
        _ => None,
    }
}

/// The physical register at position `k` of the canonical save order:
/// integer registers by encoding first, then float registers by encoding.
pub open spec fn spec_key_reg(k: int) -> RealReg {
    if k < 32 {
        RealReg { class: RegClass::Int, enc: k as u8 }
    } else {
        RealReg { class: RegClass::Float, enc: (k - 32) as u8 }
    }
}

pub open spec fn spec_contains_reg(s: Seq<Writable<RealReg>>, t: RealReg) -> bool {
    exists|i: int| 0 <= i < s.len() && (#[trigger] s[i]).reg == t
}

/// The callee-saved registers of a clobber list, in the canonical save
/// order, considering the first `k` positions of that order.
pub open spec fn spec_canonical_saves_upto(regs: Seq<Writable<RealReg>>, k: int) -> Seq<
    Writable<RealReg>,
>
    decreases k,
{
    if k <= 0 {
        Seq::empty()
    } else {
        spec_canonical_saves_upto(regs, k - 1) + (if spec_contains_reg(regs, spec_key_reg(k - 1))
            && spec_is_reg_saved_in_prologue(spec_key_reg(k - 1)) {
            seq![(Writable { reg: spec_key_reg(k - 1) })]
        } else {
            Seq::empty()
        })
    }
}

/// The clobbered callee-saved set of a function, in canonical order.
pub open spec fn spec_clobbered_callee_saves(regs: Seq<Writable<RealReg>>) -> Seq<
    Writable<RealReg>,
> {
    spec_canonical_saves_upto(regs, 64)
}

pub proof fn lemma_canonical_saves_len(regs: Seq<Writable<RealReg>>, k: int)
    requires
        k >= 0,
    ensures
        spec_canonical_saves_upto(regs, k).len() <= k,
    decreases k,
{
    if k > 0 {
        lemma_canonical_saves_len(regs, k - 1);
    }
}

fn reg_list_contains(regs: &Vec<Writable<RealReg>>, target: RealReg) -> (r: bool)
    ensures
        r == spec_contains_reg(regs@, target),
{
    let mut i: usize = 0;
    while i < regs.len()
        invariant
            i <= regs@.len(),
            forall|k: int| 0 <= k < i ==> (#[trigger] regs@[k]).reg != target,
        decreases regs@.len() - i,
    {
        if regs[i].reg == target {
            return true;
        }
        i = i + 1;
    }
    false
}

/// The registers a function actually clobbered that its callee must have
/// preserved, in the deterministic save order: integer registers by
/// encoding, then float registers by encoding. Save and restore both walk
/// this order, which must match exactly.
pub fn get_clobbered_callee_saves(
    _call_conv: CallConv,
    _flags: &Flags,
    _sig: &Signature,
    regs: &Vec<Writable<RealReg>>,
) -> (r: Vec<Writable<RealReg>>)
    ensures
        r@ == spec_clobbered_callee_saves(regs@),
        r@.len() <= 64,
{
    proof {
        lemma_canonical_saves_len(regs@, 64);
    }
    let mut out: Vec<Writable<RealReg>> = Vec::new();
    let mut enc: u8 = 0;
    while enc < 32
        invariant
            enc <= 32,
            out@ == spec_canonical_saves_upto(regs@, enc as int),
        decreases 32 - enc,
    {
        let reg = RealReg { class: RegClass::Int, enc };
        if reg_list_contains(regs, reg) && is_reg_saved_in_prologue(_call_conv, reg) {
            out.push(Writable { reg });
        }
        enc = enc + 1;
        proof {
            assert(out@ =~= spec_canonical_saves_upto(regs@, enc as int));
        }
    }
    let mut k: u8 = 32;
    while k < 64
        invariant
            32 <= k <= 64,
            out@ == spec_canonical_saves_upto(regs@, k as int),
        decreases 64 - k,
    {
        let reg = RealReg { class: RegClass::Float, enc: k - 32 };
        if reg_list_contains(regs, reg) && is_reg_saved_in_prologue(_call_conv, reg) {
            out.push(Writable { reg });
        }
        k = k + 1;
        proof {
            assert(out@ =~= spec_canonical_saves_upto(regs@, k as int));
        }
    }
    out
}

/// The (class position, encoding) pairs of every caller-saved register of
/// both files: what a call is assumed to clobber.
pub open spec fn spec_caller_saved_set() -> Set<(int, int)> {
    Set::new(
        |p: (int, int)|
            (p.0 == 0 && 0 <= p.1 < 32 && spec_caller_save_x(p.1)) || (p.0 == 1 && 0 <= p.1 < 32
                && spec_caller_save_f(p.1)),
    )
}

/// One step of the prologue's store pattern or the clobber area: the
/// instructions that save one register at one clobber-area offset.
pub open spec fn spec_clobber_store_insts(reg: RealReg, off: int, unwind: bool) -> Seq<Inst> {
    let ty = spec_canonical_type_for_class(reg.class);
    (if unwind {
        seq![
            (Inst::Unwind {
                inst: UnwindInst::SaveReg { clobber_offset: off as u32, reg },
            }),
        ]
    } else {
        Seq::empty()
    }) + seq![
        (Inst::Store {
            to: AMode::SPOffset(off as i64, ty),
            op: StoreOP::spec_from_type(ty),
            flags: (MemFlags { notrap: true, aligned: true }),
            src: Reg::Real(reg),
        }),
    ]
}

/// The stores that save the first `n` clobbered registers at sequential
/// 8-byte offsets from the stack pointer.
pub open spec fn spec_clobber_stores_upto(regs: Seq<Writable<RealReg>>, n: int, unwind: bool) -> Seq<
    Inst,
>
    decreases n,
{
    if n <= 0 {
        Seq::empty()
    } else {
        spec_clobber_stores_upto(regs, n - 1, unwind) + spec_clobber_store_insts(
            regs[n - 1].reg,
            8 * (n - 1),
            unwind,
        )
    }
}

/// The whole clobber-save sequence: the unwind frame definition when
/// enabled, then one stack-pointer decrement covering clobbers and the
/// fixed frame, then the register stores.
pub open spec fn spec_clobber_save_insts(
    setup_frame: bool,
    unwind: bool,
    regs: Seq<Writable<RealReg>>,
    clobbered_size: int,
    stack_size: int,
) -> Seq<Inst> {
    (if unwind && setup_frame {
        seq![
            (Inst::Unwind {
                inst: UnwindInst::DefineNewFrame {
                    offset_downward_to_clobbers: clobbered_size as u32,
                    offset_upward_to_caller_sp: 16,
                },
            }),
        ]
    } else {
        Seq::empty()
    }) + (if stack_size > 0 {
        seq![(Inst::AdjustSp { amount: (-1 * stack_size) as i64 })] + spec_clobber_stores_upto(
            regs,
            regs.len() as int,
            unwind,
        )
    } else {
        Seq::empty()
    })
}



/// The load that restores one clobbered register from its clobber-area
/// offset.
pub open spec fn spec_clobber_load_inst(reg: RealReg, off: int) -> Inst {
    let ty = spec_canonical_type_for_class(reg.class);
    Inst::Load {
        rd: (Writable { reg: Reg::Real(reg) }),
        op: LoadOP::spec_from_type(ty),
        flags: (MemFlags { notrap: true, aligned: true }),
        from: AMode::SPOffset(off as i64, ty),
    }
}

/// The loads that restore the first `n` clobbered registers.
pub open spec fn spec_clobber_loads_upto(regs: Seq<Writable<RealReg>>, n: int) -> Seq<Inst>
    decreases n,
{
    if n <= 0 {
        Seq::empty()
    } else {
        spec_clobber_loads_upto(regs, n - 1).push(spec_clobber_load_inst(regs[n - 1].reg, 8 * (n - 1)))
    }
}

/// The whole clobber-restore sequence: reload each register in the same
/// order the save used, then pop the clobber area and fixed frame at once.
pub open spec fn spec_clobber_restore_insts(regs: Seq<Writable<RealReg>>, stack_size: int) -> Seq<
    Inst,
> {
    spec_clobber_loads_upto(regs, regs.len() as int) + (if stack_size > 0 {
        seq![(Inst::AdjustSp { amount: stack_size as i64 })]
    } else {
        Seq::empty()
    })
}



/// The fixed prologue: allocate the 16-byte frame header, save the return
/// address and the old frame pointer into it, record the frame when unwind
/// info is enabled, then point the frame pointer at the new stack top.
pub open spec fn spec_prologue_insts(unwind_info: bool) -> Seq<Inst> {
    seq![
        (Inst::AdjustSp { amount: -16i64 }),
        (Inst::Store {
            to: AMode::SPOffset(8, Type::I64),
            op: StoreOP::Sd,
            flags: (MemFlags { notrap: true, aligned: true }),
            src: spec_x_reg(1),
        }),
        (Inst::Store {
            to: AMode::SPOffset(0, Type::I64),
            op: StoreOP::Sd,
            flags: (MemFlags { notrap: true, aligned: true }),
            src: spec_x_reg(8),
        }),
    ] + (if unwind_info {
        seq![
            (Inst::Unwind {
                inst: UnwindInst::PushFrameRegs { offset_upward_to_caller_sp: 16 },
            }),
        ]
    } else {
        Seq::empty()
    }) + seq![
        (Inst::Mov { rd: (Writable { reg: spec_x_reg(8) }), rm: spec_x_reg(2), ty: Type::I64 }),
    ]
}

/// The fixed epilogue, the prologue's reverse: reload the return address
/// and the old frame pointer from the header, then free the header.
pub open spec fn spec_epilogue_insts() -> Seq<Inst> {
    seq![
        (Inst::Load {
            rd: (Writable { reg: spec_x_reg(1) }),
            op: LoadOP::Ld,
            flags: (MemFlags { notrap: true, aligned: true }),
            from: AMode::SPOffset(8, Type::I64),
        }),
        (Inst::Load {
            rd: (Writable { reg: spec_x_reg(8) }),
            op: LoadOP::Ld,
            flags: (MemFlags { notrap: true, aligned: true }),
            from: AMode::SPOffset(0, Type::I64),
        }),
        (Inst::AdjustSp { amount: 16i64 }),
    ]
}

/// A struct argument of byte size `s` takes exactly `s` bytes at the
/// current stack offset, and the next stack allocation starts right after
/// it.
pub proof fn lemma_struct_arg_extent(st: (Seq<ABIArg>, int, int, int), p: AbiParam, size: u32)
    requires
        p.purpose == ArgumentPurpose::StructArgument(size),
    ensures
        ({
            let st2 = spec_assign_step(st, p, 17);
            &&& st2.0 == st.0.push(
                ABIArg::StructArg {
                    pointer: None,
                    offset: st.3 as i64,
                    size: size as u64,
                    purpose: p.purpose,
                },
            )
            &&& st2.3 == st.3 + size
        }),
{
}

/// Whether a call destination can be reached with one direct call: a named
/// user symbol within near linkage distance.
pub open spec fn spec_use_direct_call(name: ExternalName, distance: RelocDistance) -> bool {
    (name matches ExternalName::User { .. }) && distance == RelocDistance::Near
}

/// The implementation point of this target's ABI behavior.
pub struct Riscv64MachineDeps {
}

impl Riscv64MachineDeps {
    /// The machine word is 64 bits.
    pub fn word_bits() -> (r: u32)
        ensures
            r == 64,
    {
        64
    }

    /// The required stack alignment in bytes.
    pub fn stack_align(_call_conv: CallConv) -> (r: u32)
        ensures
            r == 16,
    {
        16
    }

    /// The frame-pointer-to-argument-area distance: the 16-byte header that
    /// holds the return address and the old frame pointer.
    pub fn fp_to_arg_offset(_call_conv: CallConv, _flags: &Flags) -> (r: i64)
        ensures
            r == 16,
    {
        16
    }

    pub fn gen_load_stack(mem: StackAMode, into_reg: Writable<Reg>, ty: Type) -> (r: Inst)
        ensures
            r == (Inst::Load {
                rd: into_reg,
                op: LoadOP::spec_from_type(ty),
                flags: (MemFlags { notrap: true, aligned: true }),
                from: mem.spec_into_amode(),
            }),
    {
        Inst::gen_load(into_reg, mem.into_amode(), ty, MemFlags::trusted())
    }

    pub fn gen_store_stack(mem: StackAMode, from_reg: Reg, ty: Type) -> (r: Inst)
        ensures
            r == (Inst::Store {
                to: mem.spec_into_amode(),
                op: StoreOP::spec_from_type(ty),
                flags: (MemFlags { notrap: true, aligned: true }),
                src: from_reg,
            }),
    {
        Inst::gen_store(mem.into_amode(), from_reg, ty, MemFlags::trusted())
    }

    pub fn gen_move(to_reg: Writable<Reg>, from_reg: Reg, ty: Type) -> (r: Inst)
        ensures
            r == (Inst::Mov { rd: to_reg, rm: from_reg, ty }),
    {
        Inst::gen_move(to_reg, from_reg, ty)
    }

    /// A widening of a narrower value to more bits, signed or unsigned.
    pub fn gen_extend(
        to_reg: Writable<Reg>,
        from_reg: Reg,
        signed: bool,
        from_bits: u8,
        to_bits: u8,
    ) -> (r: Inst)
        requires
            from_bits < to_bits,
        ensures
            r == (Inst::Extend { rd: to_reg, rn: from_reg, signed, from_bits, to_bits }),
    {
        Inst::Extend { rd: to_reg, rn: from_reg, signed, from_bits, to_bits }
    }

    /// The extension a parameter actually receives: exactly the one its
    /// descriptor specifies.
    pub fn get_ext_mode(_call_conv: CallConv, specified: ArgumentExtension) -> (r:
        ArgumentExtension)
        ensures
            r == specified,
    {
        specified
    }

    pub fn gen_ret(_setup_frame: bool, _isa_flags: &crate::types::RiscvFlags, rets: Vec<Reg>) -> (r:
        Inst)
        ensures
            r == (Inst::Ret { rets }),
    {
        Inst::Ret { rets }
    }

    /// The scratch register that receives a computed stack limit.
    pub fn get_stacklimit_reg() -> (r: Reg)
        ensures
            r == spec_x_reg(31),
    {
        spilltmp_reg()
    }

    /// Add an unsigned immediate to a register: one add-immediate when the
    /// value fits the 12-bit field, else a constant load into the second
    /// spill temporary followed by a register-register add.
    pub fn gen_add_imm(into_reg: Writable<Reg>, from_reg: Reg, imm: u32) -> (r: InstVec)
        ensures
            inst_seq(r) == (if Imm12::spec_fits_in_imm12(imm as u64) {
                seq![
                    (Inst::AluRRImm12 {
                        alu_op: AluOPRRI::Addi,
                        rd: into_reg,
                        rs: from_reg,
                        imm12: Imm12::spec_from_u64(imm as u64),
                    }),
                ]
            } else {
                spec_load_const_insts((Writable { reg: spec_x_reg(30) }), imm as u64) + seq![
                    (Inst::AluRRR {
                        alu_op: AluOPRRR::Add,
                        rd: into_reg,
                        rs1: spec_x_reg(30),
                        rs2: from_reg,
                    }),
                ]
            }),
    {
        let mut insts = inst_vec_new();
        if let Some(imm12) = Imm12::maybe_from_u64(imm as u64) {
            inst_vec_push(
                &mut insts,
                Inst::AluRRImm12 { alu_op: AluOPRRI::Addi, rd: into_reg, rs: from_reg, imm12 },
            );
        } else {
            inst_vec_append(
                &mut insts,
                Inst::load_constant_u32(writable_spilltmp_reg2(), imm as u64),
            );
            inst_vec_push(
                &mut insts,
                Inst::AluRRR {
                    alu_op: AluOPRRR::Add,
                    rd: into_reg,
                    rs1: spilltmp_reg2(),
                    rs2: from_reg,
                },
            );
        }
        insts
    }

    /// The stack-overflow check: trap when the stack pointer is unsigned
    /// below the supplied limit register.
    pub fn gen_stack_lower_bound_trap(limit_reg: Reg) -> (r: InstVec)
        ensures
            inst_seq(r) == seq![
                (Inst::TrapIf {
                    cc: crate::types::IntCC::UnsignedLessThan,
                    rs1: spec_x_reg(2),
                    rs2: limit_reg,
                    trap_code: TrapCode::StackOverflow,
                }),
            ],
    {
        let mut insts = inst_vec_new();
        inst_vec_push(
            &mut insts,
            Inst::TrapIf {
                cc: crate::types::IntCC::UnsignedLessThan,
                rs1: stack_reg(),
                rs2: limit_reg,
                trap_code: TrapCode::StackOverflow,
            },
        );
        insts
    }

    pub fn gen_get_stack_addr(mem: StackAMode, into_reg: Writable<Reg>, _ty: Type) -> (r: Inst)
        ensures
            r == (Inst::LoadAddr { rd: into_reg, mem: mem.spec_into_amode() }),
    {
        Inst::LoadAddr { rd: into_reg, mem: mem.into_amode() }
    }

    pub fn gen_load_base_offset(into_reg: Writable<Reg>, base: Reg, offset: i32, ty: Type) -> (r:
        Inst)
        ensures
            r == (Inst::Load {
                rd: into_reg,
                op: LoadOP::spec_from_type(ty),
                flags: (MemFlags { notrap: true, aligned: true }),
                from: AMode::RegOffset(base, offset as i64, ty),
            }),
    {
        let mem = AMode::RegOffset(base, offset as i64, ty);
        Inst::gen_load(into_reg, mem, ty, MemFlags::trusted())
    }

    pub fn gen_store_base_offset(base: Reg, offset: i32, from_reg: Reg, ty: Type) -> (r: Inst)
        ensures
            r == (Inst::Store {
                to: AMode::RegOffset(base, offset as i64, ty),
                op: StoreOP::spec_from_type(ty),
                flags: (MemFlags { notrap: true, aligned: true }),
                src: from_reg,
            }),
    {
        let mem = AMode::RegOffset(base, offset as i64, ty);
        Inst::gen_store(mem, from_reg, ty, MemFlags::trusted())
    }

    /// A stack-pointer adjustment, or nothing when the amount is zero.
    pub fn gen_sp_reg_adjust(amount: i32) -> (r: InstVec)
        ensures
            inst_seq(r) == (if amount == 0 {
                Seq::<Inst>::empty()
            } else {
                seq![(Inst::AdjustSp { amount: amount as i64 })]
            }),
    {
        let mut insts = inst_vec_new();
        if amount == 0 {
            return insts;
        }
        inst_vec_push(&mut insts, Inst::AdjustSp { amount: amount as i64 });
        insts
    }

    /// The bookkeeping record of a nominal stack-pointer change.
    pub fn gen_nominal_sp_adj(offset: i32) -> (r: Inst)
        ensures
            r == (Inst::VirtualSPOffsetAdj { amount: offset as i64 }),
    {
        Inst::VirtualSPOffsetAdj { amount: offset as i64 }
    }

    pub fn gen_prologue_frame_setup(flags: &Flags) -> (r: InstVec)
        ensures
            inst_seq(r) == spec_prologue_insts(flags.unwind_info),
    {
        let mut insts = inst_vec_new();
        inst_vec_push(&mut insts, Inst::AdjustSp { amount: -16 });
        inst_vec_push(
            &mut insts,
            Self::gen_store_stack(StackAMode::SPOffset(8, Type::I64), link_reg(), Type::I64),
        );
        inst_vec_push(
            &mut insts,
            Self::gen_store_stack(StackAMode::SPOffset(0, Type::I64), fp_reg(), Type::I64),
        );
        if flags.unwind_info {
            inst_vec_push(
                &mut insts,
                Inst::Unwind { inst: UnwindInst::PushFrameRegs { offset_upward_to_caller_sp: 16 } },
            );
        }
        inst_vec_push(&mut insts, Inst::Mov { rd: writable_fp_reg(), rm: stack_reg(), ty: Type::I64 });
        proof {
            assert(inst_seq(insts) =~= spec_prologue_insts(flags.unwind_info));
        }
        insts
    }

    pub fn gen_epilogue_frame_restore(_flags: &Flags) -> (r: InstVec)
        ensures
            inst_seq(r) == spec_epilogue_insts(),
    {
        let mut insts = inst_vec_new();
        inst_vec_push(
            &mut insts,
            Self::gen_load_stack(StackAMode::SPOffset(8, Type::I64), writable_link_reg(), Type::I64),
        );
        inst_vec_push(
            &mut insts,
            Self::gen_load_stack(StackAMode::SPOffset(0, Type::I64), writable_fp_reg(), Type::I64),
        );
        inst_vec_push(&mut insts, Inst::AdjustSp { amount: 16 });
        proof {
            assert(inst_seq(insts) =~= spec_epilogue_insts());
        }
        insts
    }

    /// The stack probe for large frames: materialize the frame size into the
    /// first argument register and call the guarded runtime probe routine.
    pub fn gen_probestack(frame_size: u32) -> (r: InstVec)
        ensures
            ({
                let s = inst_seq(r);
                let loads = spec_load_const_insts((Writable { reg: spec_x_reg(10) }), frame_size as u64);
                &&& s.len() == loads.len() + 1
                &&& s.take(loads.len() as int) == loads
                &&& (s.last() matches Inst::Call { info } && {
                    &&& info.dest == ExternalName::LibCall(LibCall::Probestack)
                    &&& info.uses@ == seq![spec_x_reg(10)]
                    &&& info.defs@ == Seq::<Writable<Reg>>::empty()
                    &&& preg_set(info.clobbers) == Set::<(int, int)>::empty()
                    &&& info.opcode == Opcode::Call
                    &&& info.caller_callconv == CallConv::SystemV
                    &&& info.callee_callconv == CallConv::SystemV
                })
            }),
    {
        let mut insts = inst_vec_new();
        inst_vec_append(&mut insts, Inst::load_constant_u32(writable_a0(), frame_size as u64));
        let mut uses: Vec<Reg> = Vec::new();
        uses.push(crate::regs::a0());
        let defs: Vec<Writable<Reg>> = Vec::new();
        inst_vec_push(
            &mut insts,
            Inst::Call {
                info: CallInfo {
                    dest: ExternalName::LibCall(LibCall::Probestack),
                    uses,
                    defs,
                    clobbers: preg_set_empty(),
                    opcode: Opcode::Call,
                    caller_callconv: CallConv::SystemV,
                    callee_callconv: CallConv::SystemV,
                },
            },
        );
        insts
    }

    /// Save the clobbered callee-saved registers: decrement the stack pointer
    /// by the clobber area plus the fixed frame, then store each register at
    /// sequential 8-byte offsets, with one save-register unwind directive per
    /// register when unwind info is enabled. Returns the clobber-area size and
    /// the instructions; the caller accounts for the nominal stack pointer.
    pub fn gen_clobber_save(
        _call_conv: CallConv,
        setup_frame: bool,
        flags: &Flags,
        clobbered_callee_saves: &Vec<Writable<RealReg>>,
        fixed_frame_storage_size: u32,
        _outgoing_args_size: u32,
    ) -> (r: (u64, InstVec))
        requires
            clobbered_callee_saves@.len() <= 64,
            fixed_frame_storage_size + 528 <= u32::MAX,
        ensures
            r.0 == spec_align16(8 * clobbered_callee_saves@.len() as int),
            inst_seq(r.1) == spec_clobber_save_insts(
                setup_frame,
                flags.unwind_info,
                clobbered_callee_saves@,
                r.0 as int,
                fixed_frame_storage_size + r.0,
            ),
    {
        let mut insts = inst_vec_new();
        let clobbered_size = compute_clobber_size(clobbered_callee_saves);
        let stack_size: u32 = fixed_frame_storage_size + clobbered_size;
        if flags.unwind_info && setup_frame {
            inst_vec_push(
                &mut insts,
                Inst::Unwind {
                    inst: UnwindInst::DefineNewFrame {
                        offset_downward_to_clobbers: clobbered_size,
                        offset_upward_to_caller_sp: 16,
                    },
                },
            );
        }
        if stack_size > 0 {
            inst_vec_push(&mut insts, Inst::AdjustSp { amount: -(stack_size as i64) });
            let ghost header = inst_seq(insts);
            let mut cur_offset: u32 = 0;
            let mut i: usize = 0;
            while i < clobbered_callee_saves.len()
                invariant
                    i <= clobbered_callee_saves@.len() <= 64,
                    cur_offset == 8 * i,
                    inst_seq(insts) == header + spec_clobber_stores_upto(
                        clobbered_callee_saves@,
                        i as int,
                        flags.unwind_info,
                    ),
                decreases clobbered_callee_saves@.len() - i,
            {
                let r_reg = clobbered_callee_saves[i].reg;
                let ty = canonical_type_for_class(r_reg.class);
                if flags.unwind_info {
                    inst_vec_push(
                        &mut insts,
                        Inst::Unwind {
                            inst: UnwindInst::SaveReg { clobber_offset: cur_offset, reg: r_reg },
                        },
                    );
                }
                inst_vec_push(
                    &mut insts,
                    Inst::gen_store(
                        AMode::SPOffset(cur_offset as i64, ty),
                        Reg::Real(r_reg),
                        ty,
                        MemFlags::trusted(),
                    ),
                );
                cur_offset = cur_offset + 8;
                i = i + 1;
                proof {
                    assert(inst_seq(insts) =~= header + spec_clobber_stores_upto(
                        clobbered_callee_saves@,
                        i as int,
                        flags.unwind_info,
                    ));
                }
            }
        }
        proof {
            assert(inst_seq(insts) =~= spec_clobber_save_insts(
                setup_frame,
                flags.unwind_info,
                clobbered_callee_saves@,
                spec_align16(8 * clobbered_callee_saves@.len() as int),
                fixed_frame_storage_size + spec_align16(8 * clobbered_callee_saves@.len() as int),
            ));
        }
        (clobbered_size as u64, insts)
    }

    /// Restore the clobbered callee-saved registers: recompute the same
    /// clobbered set and order the save used, reload each register from its
    /// offset, then increment the stack pointer by the same total.
    pub fn gen_clobber_restore(
        call_conv: CallConv,
        sig: &Signature,
        _flags: &Flags,
        clobbers: &Vec<Writable<RealReg>>,
        fixed_frame_storage_size: u32,
        _outgoing_args_size: u32,
    ) -> (r: InstVec)
        requires
            fixed_frame_storage_size + 528 <= u32::MAX,
        ensures
            inst_seq(r) == spec_clobber_restore_insts(
                spec_clobbered_callee_saves(clobbers@),
                fixed_frame_storage_size + spec_align16(8 * spec_clobbered_callee_saves(clobbers@).len() as int),
            ),
    {
        let mut insts = inst_vec_new();
        let clobbered_callee_saves = get_clobbered_callee_saves(call_conv, _flags, sig, clobbers);
        let clobbered_size = compute_clobber_size(&clobbered_callee_saves);
        let stack_size: u32 = fixed_frame_storage_size + clobbered_size;
        let mut cur_offset: u32 = 0;
        let mut i: usize = 0;
        while i < clobbered_callee_saves.len()
            invariant
                i <= clobbered_callee_saves@.len() <= 64,
                cur_offset == 8 * i,
                inst_seq(insts) == spec_clobber_loads_upto(clobbered_callee_saves@, i as int),
            decreases clobbered_callee_saves@.len() - i,
        {
            let rreg = clobbered_callee_saves[i].reg;
            let ty = canonical_type_for_class(rreg.class);
            inst_vec_push(
                &mut insts,
                Inst::gen_load(
                    Writable { reg: Reg::Real(rreg) },
                    AMode::SPOffset(cur_offset as i64, ty),
                    ty,
                    MemFlags::trusted(),
                ),
            );
            cur_offset = cur_offset + 8;
            i = i + 1;
        }
        if stack_size > 0 {
            inst_vec_push(&mut insts, Inst::AdjustSp { amount: stack_size as i64 });
        }
        proof {
            assert(inst_seq(insts) =~= spec_clobber_restore_insts(
                spec_clobbered_callee_saves(clobbers@),
                fixed_frame_storage_size + spec_align16(8 * spec_clobbered_callee_saves(clobbers@).len() as int),
            ));
        }
        insts
    }

    /// The call sequence for one call site. A near user symbol takes one
    /// direct call; every other destination takes an address
    /// materialization into the scratch register then one indirect call.
    pub fn gen_call(
        dest: CallDest,
        uses: Vec<Reg>,
        defs: Vec<Writable<Reg>>,
        clobbers: regalloc2::PRegSet,
        opcode: Opcode,
        tmp: Writable<Reg>,
        callee_conv: CallConv,
        caller_conv: CallConv,
    ) -> (r: InstVec)
        ensures
            ({
                let s = inst_seq(r);
                match dest {
                    CallDest::ExtName(name, distance) => {
                        if spec_use_direct_call(name, distance) {
                            s == seq![
                                (Inst::Call {
                                    info: (CallInfo {
                                        dest: name,
                                        uses,
                                        defs,
                                        clobbers,
                                        opcode,
                                        caller_callconv: caller_conv,
                                        callee_callconv: callee_conv,
                                    }),
                                }),
                            ]
                        } else {
                            s == seq![
                                (Inst::LoadExtName { rd: tmp, name, offset: 0 }),
                                (Inst::CallInd {
                                    info: (CallIndInfo {
                                        rn: tmp.reg,
                                        uses,
                                        defs,
                                        clobbers,
                                        opcode,
                                        caller_callconv: caller_conv,
                                        callee_callconv: callee_conv,
                                    }),
                                }),
                            ]
                        }
                    },
                    CallDest::Reg(reg) => s == seq![
                        (Inst::Mov { rd: tmp, rm: reg, ty: Type::I64 }),
                        (Inst::CallInd {
                            info: (CallIndInfo {
                                rn: tmp.reg,
                                uses,
                                defs,
                                clobbers,
                                opcode,
                                caller_callconv: caller_conv,
                                callee_callconv: callee_conv,
                            }),
                        }),
                    ],
                }
            }),
    {
        let mut insts = inst_vec_new();
        match dest {
            CallDest::ExtName(name, distance) => {
                let direct = match name {
                    ExternalName::User { .. } => distance == RelocDistance::Near,
                    _ => false,
                };
                if direct {
                    inst_vec_push(
                        &mut insts,
                        Inst::Call {
                            info: CallInfo {
                                dest: name,
                                uses,
                                defs,
                                clobbers,
                                opcode,
                                caller_callconv: caller_conv,
                                callee_callconv: callee_conv,
                            },
                        },
                    );
                } else {
                    inst_vec_push(&mut insts, Inst::LoadExtName { rd: tmp, name, offset: 0 });
                    inst_vec_push(
                        &mut insts,
                        Inst::CallInd {
                            info: CallIndInfo {
                                rn: tmp.to_reg(),
                                uses,
                                defs,
                                clobbers,
                                opcode,
                                caller_callconv: caller_conv,
                                callee_callconv: callee_conv,
                            },
                        },
                    );
                }
            },
            CallDest::Reg(reg) => {
                inst_vec_push(&mut insts, Inst::Mov { rd: tmp, rm: reg, ty: Type::I64 });
                inst_vec_push(
                    &mut insts,
                    Inst::CallInd {
                        info: CallIndInfo {
                            rn: tmp.to_reg(),
                            uses,
                            defs,
                            clobbers,
                            opcode,
                            caller_callconv: caller_conv,
                            callee_callconv: callee_conv,
                        },
                    },
                );
            },
        }
        insts
    }

    /// The inlined block copy: move the destination and source pointers into
    /// the first two argument registers, materialize the byte count into
    /// the third, and call the runtime copy routine, which clobbers the
    /// full caller-saved set.
    pub fn gen_memcpy(call_conv: CallConv, dst: Reg, src: Reg, size: usize) -> (r: InstVec)
        ensures
            ({
                let s = inst_seq(r);
                let loads = spec_load_const_insts((Writable { reg: spec_x_reg(12) }), size as u64);
                &&& s.len() == 2 + loads.len() + 1
                &&& s[0] == (Inst::Mov {
                    rd: (Writable { reg: spec_x_reg(10) }),
                    rm: dst,
                    ty: Type::I64,
                })
                &&& s[1] == (Inst::Mov {
                    rd: (Writable { reg: spec_x_reg(11) }),
                    rm: src,
                    ty: Type::I64,
                })
                &&& s.subrange(2, s.len() - 1) == loads
                &&& (s.last() matches Inst::Call { info } && {
                    &&& info.dest == ExternalName::LibCall(LibCall::Memcpy)
                    &&& info.uses@ == seq![spec_x_reg(10), spec_x_reg(11), spec_x_reg(12)]
                    &&& info.defs@ == Seq::<Writable<Reg>>::empty()
                    &&& preg_set(info.clobbers) == spec_caller_saved_set()
                    &&& info.opcode == Opcode::Call
                    &&& info.caller_callconv == call_conv
                    &&& info.callee_callconv == call_conv
                })
            }),
    {
        let mut insts = inst_vec_new();
        let arg0 = writable_a0();
        let arg1 = writable_a1();
        let arg2 = writable_a2();
        inst_vec_push(&mut insts, Inst::gen_move(arg0, dst, Type::I64));
        inst_vec_push(&mut insts, Inst::gen_move(arg1, src, Type::I64));
        inst_vec_append(&mut insts, Inst::load_constant_u64(arg2, size as u64));
        let mut uses: Vec<Reg> = Vec::new();
        uses.push(arg0.to_reg());
        uses.push(arg1.to_reg());
        uses.push(arg2.to_reg());
        let defs: Vec<Writable<Reg>> = Vec::new();
        inst_vec_push(
            &mut insts,
            Inst::Call {
                info: CallInfo {
                    dest: ExternalName::LibCall(LibCall::Memcpy),
                    uses,
                    defs,
                    clobbers: Self::get_regs_clobbered_by_call(call_conv),
                    opcode: Opcode::Call,
                    caller_callconv: call_conv,
                    callee_callconv: call_conv,
                },
            },
        );
        insts
    }

    /// Every value spills to one 8-byte slot, whatever its class.
    pub fn get_number_of_spillslots_for_value(_rc: RegClass, _target_vector_bytes: u32) -> (r: u32)
        ensures
            r == 1,
    {
        1
    }

    /// The current virtual stack-pointer offset of an emission state.
    pub fn get_virtual_sp_offset_from_state(s: &EmitState) -> (r: i64)
        ensures
            r == s.virtual_sp_offset,
    {
        s.virtual_sp_offset
    }

    /// The nominal-stack-pointer-to-frame-pointer offset of an emission
    /// state.
    pub fn get_nominal_sp_to_fp(s: &EmitState) -> (r: i64)
        ensures
            r == s.nominal_sp_to_fp,
    {
        s.nominal_sp_to_fp
    }

    /// The register set a call invalidates: every caller-saved register of
    /// both files.
    pub fn get_regs_clobbered_by_call(_call_conv_of_callee: CallConv) -> (r: regalloc2::PRegSet)
        ensures
            preg_set(r) == spec_caller_saved_set(),
    {
        let mut v = preg_set_empty();
        let mut k: u8 = 0;
        while k < 32
            invariant
                k <= 32,
                preg_set(v) == Set::new(
                    |p: (int, int)| p.0 == 0 && 0 <= p.1 < k && spec_caller_save_x(p.1),
                ),
            decreases 32 - k,
        {
            if caller_save_x(k) {
                preg_set_add(&mut v, RegClass::Int, k);
            }
            k = k + 1;
            proof {
                assert(preg_set(v) =~= Set::new(
                    |p: (int, int)| p.0 == 0 && 0 <= p.1 < k && spec_caller_save_x(p.1),
                ));
            }
        }
        let mut j: u8 = 0;
        while j < 32
            invariant
                j <= 32,
                preg_set(v) == Set::new(
                    |p: (int, int)|
                        (p.0 == 0 && 0 <= p.1 < 32 && spec_caller_save_x(p.1)) || (p.0 == 1 && 0
                            <= p.1 < j && spec_caller_save_f(p.1)),
                ),
            decreases 32 - j,
        {
            if caller_save_f(j) {
                preg_set_add(&mut v, RegClass::Float, j);
            }
            j = j + 1;
            proof {
                assert(preg_set(v) =~= Set::new(
                    |p: (int, int)|
                        (p.0 == 0 && 0 <= p.1 < 32 && spec_caller_save_x(p.1)) || (p.0 == 1 && 0
                            <= p.1 < j && spec_caller_save_f(p.1)),
                ));
            }
        }
        proof {
            assert(preg_set(v) =~= spec_caller_saved_set());
        }
        v
    }

    /// Every function gets a full frame-pointer-based frame, whatever its
    /// shape: uniform, simple unwinding is preferred over prologue savings.
    pub fn is_frame_setup_needed(
        _is_leaf: bool,
        _stack_args_size: u32,
        _num_clobbered_callee_saves: usize,
        _fixed_frame_storage_size: u32,
    ) -> (r: bool)
        ensures
            r == true,
    {
        true
    }
}

} // verus!
