use rv64_backend::abi::{compute_arg_locs, ABIArg, ABIArgSlot, ABIArgSlots, STACK_ARG_RET_SIZE_LIMIT};
use rv64_backend::extern_specs::arg_vec_into_vec;
use rv64_backend::regs::{RealReg, RegClass};
use rv64_backend::types::{
    AbiParam, ArgsOrRets, ArgumentExtension, ArgumentPurpose, CallConv, CodegenError, Flags, Type,
};

fn flags() -> Flags {
    Flags::new(false)
}

fn int_param() -> AbiParam {
    AbiParam::new(Type::I64)
}

fn x_real(enc: u8) -> RealReg {
    RealReg { class: RegClass::Int, enc }
}

fn f_real(enc: u8) -> RealReg {
    RealReg { class: RegClass::Float, enc }
}

fn reg_arg(reg: RealReg, ty: Type) -> ABIArg {
    ABIArg::Slots {
        slots: ABIArgSlots::One(ABIArgSlot::Reg {
            reg,
            ty,
            extension: ArgumentExtension::NoExtension,
        }),
        purpose: ArgumentPurpose::Normal,
    }
}

fn stack_arg(offset: i64, ty: Type) -> ABIArg {
    ABIArg::Slots {
        slots: ABIArgSlots::One(ABIArgSlot::Stack {
            offset,
            ty,
            extension: ArgumentExtension::NoExtension,
        }),
        purpose: ArgumentPurpose::Normal,
    }
}

#[test]
fn few_int_params_all_in_registers() {
    let params = vec![int_param(), int_param(), int_param(), int_param()];
    let (locs, size, pos) =
        compute_arg_locs(CallConv::SystemV, &flags(), &params, ArgsOrRets::Args, false).unwrap();
    let locs = arg_vec_into_vec(locs);
    assert_eq!(locs.len(), 4);
    for (i, loc) in locs.iter().enumerate() {
        assert_eq!(*loc, reg_arg(x_real(10 + i as u8), Type::I64));
    }
    assert_eq!(size, 0);
    assert!(pos.is_none());
}

#[test]
fn few_float_params_all_in_registers() {
    let params = vec![AbiParam::new(Type::F64), AbiParam::new(Type::F32)];
    let (locs, size, _) =
        compute_arg_locs(CallConv::SystemV, &flags(), &params, ArgsOrRets::Args, false).unwrap();
    let locs = arg_vec_into_vec(locs);
    assert_eq!(locs[0], reg_arg(f_real(10), Type::F64));
    assert_eq!(locs[1], reg_arg(f_real(11), Type::F32));
    assert_eq!(size, 0);
}

#[test]
fn overflow_float_params_go_to_stack_in_order() {
    let params: Vec<AbiParam> = (0..10).map(|_| AbiParam::new(Type::F64)).collect();
    let (locs, size, _) =
        compute_arg_locs(CallConv::SystemV, &flags(), &params, ArgsOrRets::Args, false).unwrap();
    let locs = arg_vec_into_vec(locs);
    for i in 0..8usize {
        assert_eq!(locs[i], reg_arg(f_real(10 + i as u8), Type::F64));
    }
    assert_eq!(locs[8], stack_arg(0, Type::F64));
    assert_eq!(locs[9], stack_arg(8, Type::F64));
    assert_eq!(size, 16);
}

#[test]
fn overflow_params_go_to_stack_in_order() {
    let params: Vec<AbiParam> = (0..10).map(|_| int_param()).collect();
    let (locs, size, _) =
        compute_arg_locs(CallConv::SystemV, &flags(), &params, ArgsOrRets::Args, false).unwrap();
    let locs = arg_vec_into_vec(locs);
    assert_eq!(locs.len(), 10);
    for i in 0..8usize {
        assert_eq!(locs[i], reg_arg(x_real(10 + i as u8), Type::I64));
    }
    assert_eq!(locs[8], stack_arg(0, Type::I64));
    assert_eq!(locs[9], stack_arg(8, Type::I64));
    assert_eq!(size, 16);
}

#[test]
fn nine_int_params_scenario() {
    let params: Vec<AbiParam> = (0..9).map(|_| int_param()).collect();
    let (locs, size, _) =
        compute_arg_locs(CallConv::SystemV, &flags(), &params, ArgsOrRets::Args, false).unwrap();
    let locs = arg_vec_into_vec(locs);
    for i in 0..8usize {
        assert_eq!(locs[i], reg_arg(x_real(10 + i as u8), Type::I64));
    }
    assert_eq!(locs[8], stack_arg(0, Type::I64));
    assert_eq!(size, 16);
}

#[test]
fn double_word_split_with_one_register_left() {
    let mut params: Vec<AbiParam> = (0..7).map(|_| int_param()).collect();
    params.push(AbiParam::new(Type::I128));
    let (locs, size, _) =
        compute_arg_locs(CallConv::SystemV, &flags(), &params, ArgsOrRets::Args, false).unwrap();
    let locs = arg_vec_into_vec(locs);
    assert_eq!(
        locs[7],
        ABIArg::Slots {
            slots: ABIArgSlots::Two(
                ABIArgSlot::Reg {
                    reg: x_real(17),
                    ty: Type::I64,
                    extension: ArgumentExtension::NoExtension,
                },
                ABIArgSlot::Stack {
                    offset: 0,
                    ty: Type::I64,
                    extension: ArgumentExtension::NoExtension,
                },
            ),
            purpose: ArgumentPurpose::Normal,
        }
    );
    assert_eq!(size, 16);
}

#[test]
fn double_word_in_two_registers() {
    let params = vec![AbiParam::new(Type::I128)];
    let (locs, size, _) =
        compute_arg_locs(CallConv::SystemV, &flags(), &params, ArgsOrRets::Args, false).unwrap();
    let locs = arg_vec_into_vec(locs);
    assert_eq!(
        locs[0],
        ABIArg::Slots {
            slots: ABIArgSlots::Two(
                ABIArgSlot::Reg {
                    reg: x_real(10),
                    ty: Type::I64,
                    extension: ArgumentExtension::NoExtension,
                },
                ABIArgSlot::Reg {
                    reg: x_real(11),
                    ty: Type::I64,
                    extension: ArgumentExtension::NoExtension,
                },
            ),
            purpose: ArgumentPurpose::Normal,
        }
    );
    assert_eq!(size, 0);
}

#[test]
fn struct_arg_takes_its_size_on_the_stack() {
    let mut s24 = AbiParam::new(Type::I64);
    s24.purpose = ArgumentPurpose::StructArgument(24);
    let params: Vec<AbiParam> = {
        let mut v: Vec<AbiParam> = (0..8).map(|_| int_param()).collect();
        v.push(s24);
        v.push(int_param());
        v
    };
    let (locs, size, _) =
        compute_arg_locs(CallConv::SystemV, &flags(), &params, ArgsOrRets::Args, false).unwrap();
    let locs = arg_vec_into_vec(locs);
    assert_eq!(
        locs[8],
        ABIArg::StructArg {
            pointer: None,
            offset: 0,
            size: 24,
            purpose: ArgumentPurpose::StructArgument(24),
        }
    );
    // The next stack allocation starts right after the 24-byte extent.
    assert_eq!(locs[9], stack_arg(24, Type::I64));
    assert_eq!(size, 32);
}

#[test]
fn stack_area_at_limit_succeeds() {
    let mut p = AbiParam::new(Type::I64);
    p.purpose = ArgumentPurpose::StructArgument(STACK_ARG_RET_SIZE_LIMIT as u32);
    let params = vec![p];
    let (_, size, _) =
        compute_arg_locs(CallConv::SystemV, &flags(), &params, ArgsOrRets::Args, false).unwrap();
    assert_eq!(size as u64, STACK_ARG_RET_SIZE_LIMIT);
}

#[test]
fn stack_area_over_limit_fails() {
    let mut p = AbiParam::new(Type::I64);
    p.purpose = ArgumentPurpose::StructArgument(STACK_ARG_RET_SIZE_LIMIT as u32 + 8);
    let params = vec![p];
    match compute_arg_locs(CallConv::SystemV, &flags(), &params, ArgsOrRets::Args, false) {
        Err(err) => assert_eq!(err, CodegenError::ImplLimitExceeded),
        Ok(_) => panic!("an oversized stack area must be rejected"),
    }
}

#[test]
fn ret_area_pointer_takes_next_register() {
    let params = vec![int_param(), int_param()];
    let (locs, _, pos) =
        compute_arg_locs(CallConv::SystemV, &flags(), &params, ArgsOrRets::Args, true).unwrap();
    let locs = arg_vec_into_vec(locs);
    assert_eq!(pos, Some(2));
    assert_eq!(locs[2], reg_arg(x_real(12), Type::I64));
}

#[test]
fn ret_area_pointer_spills_after_register_exhaustion() {
    let params: Vec<AbiParam> = (0..8).map(|_| int_param()).collect();
    let (locs, size, pos) =
        compute_arg_locs(CallConv::SystemV, &flags(), &params, ArgsOrRets::Args, true).unwrap();
    let locs = arg_vec_into_vec(locs);
    assert_eq!(pos, Some(8));
    assert_eq!(locs[8], stack_arg(0, Type::I64));
    assert_eq!(size, 16);
}

#[test]
fn return_values_use_two_registers_only() {
    let params = vec![int_param(), int_param(), int_param()];
    let (locs, _, _) =
        compute_arg_locs(CallConv::SystemV, &flags(), &params, ArgsOrRets::Rets, false).unwrap();
    let locs = arg_vec_into_vec(locs);
    assert_eq!(locs[0], reg_arg(x_real(10), Type::I64));
    assert_eq!(locs[1], reg_arg(x_real(11), Type::I64));
    assert_eq!(locs[2], stack_arg(0, Type::I64));
}

#[test]
fn mixed_classes_use_independent_cursors() {
    let params = vec![
        AbiParam::new(Type::I32),
        AbiParam::new(Type::F64),
        AbiParam::new(Type::I8),
        AbiParam::new(Type::F32),
    ];
    let (locs, size, _) =
        compute_arg_locs(CallConv::SystemV, &flags(), &params, ArgsOrRets::Args, false).unwrap();
    let locs = arg_vec_into_vec(locs);
    assert_eq!(locs[0], reg_arg(x_real(10), Type::I32));
    assert_eq!(locs[1], reg_arg(f_real(10), Type::F64));
    assert_eq!(locs[2], reg_arg(x_real(11), Type::I8));
    assert_eq!(locs[3], reg_arg(f_real(11), Type::F32));
    assert_eq!(size, 0);
}
