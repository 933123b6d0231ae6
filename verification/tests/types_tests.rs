use rustc_codegen_tpde::context::{CodegenCx, TargetLayout};
use rustc_codegen_tpde::ffi::{ArgExtension, ArgInfo, ArgKind, ModuleTpde, Type};
use rustc_codegen_tpde::ir::FullType;
use rustc_codegen_tpde::types::{
    cast_backend_type, float_width, function_signature, int_width,
    map_arg_extension, reg_to_ir_type, scalar_pair_element_backend_type,
    tpde_scalar_type, type_from_float, type_from_integer, type_isize, type_kind, type_ptr_ext,
    AbiArgExtension, ArgAbi, BackendRepr, CastTarget, Float, FnAbi, Integer, PassMode, Primitive,
    Reg, RegKind, Scalar, TypeKind,
};

fn cx() -> CodegenCx {
    CodegenCx::new(ModuleTpde::new(), "cgu", TargetLayout { pointer_size: 8, big_endian: false }, 16)
}

fn int_scalar(i: Integer, signed: bool) -> Scalar {
    Scalar::Initialized { value: Primitive::Int(i, signed), valid_start: 0, valid_end: u128::MAX }
}

fn bool_scalar() -> Scalar {
    Scalar::Initialized { value: Primitive::Int(Integer::I8, false), valid_start: 0, valid_end: 1 }
}

#[test]
fn bool_scalar_is_recognised() {
    assert!(bool_scalar().is_bool());
    assert!(!int_scalar(Integer::I8, false).is_bool());
    let u8_from_one = Scalar::Initialized {
        value: Primitive::Int(Integer::I8, false),
        valid_start: 1,
        valid_end: 1,
    };
    assert!(!u8_from_one.is_bool());
    assert!(!Scalar::Union { value: Primitive::Int(Integer::I8, false) }.is_bool());
}

#[test]
fn scalar_types() {
    assert_eq!(tpde_scalar_type(bool_scalar()), FullType::Single(Type::Bool));
    assert_eq!(tpde_scalar_type(int_scalar(Integer::I32, true)), FullType::Single(Type::i32));
    assert_eq!(tpde_scalar_type(int_scalar(Integer::I128, false)), FullType::Single(Type::i128));
    assert_eq!(
        tpde_scalar_type(Scalar::Union { value: Primitive::Float(Float::F32) }),
        FullType::Single(Type::F32)
    );
    assert_eq!(
        tpde_scalar_type(Scalar::Union { value: Primitive::Pointer(3) }),
        FullType::Single(Type::ptr)
    );
}

#[test]
fn integer_and_float_types() {
    assert_eq!(type_from_integer(Integer::I8), FullType::Single(Type::i8));
    assert_eq!(type_from_integer(Integer::I16), FullType::Single(Type::i16));
    assert_eq!(type_from_integer(Integer::I64), FullType::Single(Type::i64));
    assert_eq!(type_from_float(Float::F64), FullType::Single(Type::F64));
    assert_eq!(type_isize(), FullType::Single(Type::i64));
    assert_eq!(type_ptr_ext(1), FullType::Single(Type::ptr));
}

#[test]
fn direct_types_of_layouts() {
    let pair = BackendRepr::ScalarPair {
        a: Scalar::Union { value: Primitive::Pointer(0) },
        b: int_scalar(Integer::I64, false),
        b_offset: 8,
    };
    assert_eq!(cx().tpde_direct_type(pair), FullType::Pair(Type::ptr, Type::i64, 8));
    assert_eq!(
        cx().tpde_direct_type(BackendRepr::Memory { sized: true }),
        FullType::Memory { sized: true }
    );
    assert_eq!(
        cx().tpde_direct_type(BackendRepr::Scalar(bool_scalar())),
        FullType::Single(Type::Bool)
    );
    assert_eq!(scalar_pair_element_backend_type(pair, 0, true), FullType::Single(Type::ptr));
    assert_eq!(scalar_pair_element_backend_type(pair, 1, false), FullType::Single(Type::i64));
}

#[test]
fn kinds_and_widths() {
    assert_eq!(type_kind(FullType::Single(Type::Void)), TypeKind::Void);
    assert_eq!(type_kind(FullType::Single(Type::Bool)), TypeKind::Integer);
    assert_eq!(type_kind(FullType::Single(Type::F64)), TypeKind::Float);
    assert_eq!(type_kind(FullType::Single(Type::ptr)), TypeKind::Pointer);
    assert_eq!(type_kind(FullType::Pair(Type::i8, Type::i8, 1)), TypeKind::Struct);
    assert_eq!(float_width(FullType::Single(Type::F32)), 32);
    assert_eq!(float_width(FullType::Single(Type::F64)), 64);
    assert_eq!(int_width(FullType::Single(Type::i8)), 8);
    assert_eq!(int_width(FullType::Single(Type::i16)), 16);
    assert_eq!(int_width(FullType::Single(Type::i32)), 32);
    assert_eq!(int_width(FullType::Single(Type::i64)), 64);
    assert_eq!(int_width(FullType::Single(Type::i128)), 128);
}

#[test]
fn registers_to_types() {
    let int = |size| Reg { kind: RegKind::Integer, size };
    assert_eq!(reg_to_ir_type(&int(1)), Type::i8);
    assert_eq!(reg_to_ir_type(&int(2)), Type::i16);
    assert_eq!(reg_to_ir_type(&int(3)), Type::i32);
    assert_eq!(reg_to_ir_type(&int(4)), Type::i32);
    assert_eq!(reg_to_ir_type(&int(7)), Type::i64);
    assert_eq!(reg_to_ir_type(&int(16)), Type::i128);
    assert_eq!(reg_to_ir_type(&Reg { kind: RegKind::Float, size: 4 }), Type::F32);
    assert_eq!(reg_to_ir_type(&Reg { kind: RegKind::Float, size: 8 }), Type::F64);
}

#[test]
fn cast_of_one_and_two_registers() {
    let single = CastTarget {
        prefix: vec![],
        rest_unit: Reg { kind: RegKind::Integer, size: 8 },
        rest_total: 8,
    };
    assert_eq!(cast_backend_type(&single), FullType::Single(Type::i64));
    let two = CastTarget {
        prefix: vec![],
        rest_unit: Reg { kind: RegKind::Integer, size: 8 },
        rest_total: 16,
    };
    assert_eq!(cast_backend_type(&two), FullType::Pair(Type::i64, Type::i64, 8));
    let mixed = CastTarget {
        prefix: vec![Reg { kind: RegKind::Float, size: 4 }],
        rest_unit: Reg { kind: RegKind::Integer, size: 4 },
        rest_total: 4,
    };
    assert_eq!(cast_backend_type(&mixed), FullType::Pair(Type::F32, Type::i32, 4));
}

#[test]
fn argument_extensions() {
    assert_eq!(map_arg_extension(AbiArgExtension::NoExtension), ArgExtension::NoExtension);
    assert_eq!(map_arg_extension(AbiArgExtension::Zext), ArgExtension::zExt);
    assert_eq!(map_arg_extension(AbiArgExtension::Sext), ArgExtension::sExt);
}

fn direct(ext: AbiArgExtension, s: Scalar) -> ArgAbi {
    ArgAbi { layout: BackendRepr::Scalar(s), mode: PassMode::Direct(ext) }
}

#[test]
fn signature_of_a_calling_convention() {
    let fn_abi = FnAbi {
        args: vec![
            direct(AbiArgExtension::Zext, bool_scalar()),
            ArgAbi {
                layout: BackendRepr::ScalarPair {
                    a: Scalar::Union { value: Primitive::Pointer(0) },
                    b: int_scalar(Integer::I64, false),
                    b_offset: 8,
                },
                mode: PassMode::Pair(AbiArgExtension::NoExtension, AbiArgExtension::NoExtension),
            },
            ArgAbi { layout: BackendRepr::Memory { sized: true }, mode: PassMode::Ignore },
            ArgAbi {
                layout: BackendRepr::Memory { sized: true },
                mode: PassMode::Indirect {
                    pointee_size: 32,
                    pointee_align: Some(16),
                    has_meta: false,
                    on_stack: true,
                },
            },
            ArgAbi {
                layout: BackendRepr::Memory { sized: true },
                mode: PassMode::Indirect {
                    pointee_size: 32,
                    pointee_align: None,
                    has_meta: true,
                    on_stack: false,
                },
            },
        ],
        ret: ArgAbi {
            layout: BackendRepr::Memory { sized: true },
            mode: PassMode::Indirect {
                pointee_size: 24,
                pointee_align: None,
                has_meta: false,
                on_stack: false,
            },
        },
        c_variadic: false,
        fixed_count: 5,
    };
    let sig = cx().create_function_signature(&fn_abi);
    assert_eq!(sig.args, vec![Type::ptr, Type::Bool, Type::ptr, Type::i64, Type::ptr, Type::ptr]);
    let plain = ArgInfo::default();
    assert_eq!(
        sig.arg_infos,
        vec![
            ArgInfo { kind: ArgKind::sRet, extension: ArgExtension::NoExtension, size: 24, align: 1 },
            ArgInfo { kind: ArgKind::Direct, extension: ArgExtension::zExt, size: 0, align: 0 },
            ArgInfo { kind: ArgKind::Direct, extension: ArgExtension::NoExtension, size: 0, align: 0 },
            ArgInfo { kind: ArgKind::Direct, extension: ArgExtension::NoExtension, size: 0, align: 0 },
            ArgInfo { kind: ArgKind::ByVal, extension: ArgExtension::NoExtension, size: 32, align: 16 },
            plain,
        ]
    );
    assert_eq!(sig.ret, Some(FullType::Memory { sized: true }));
}

#[test]
fn variadic_arguments_get_no_slots() {
    let fn_abi = FnAbi {
        args: vec![
            direct(AbiArgExtension::NoExtension, Scalar::Union { value: Primitive::Pointer(0) }),
            direct(AbiArgExtension::Sext, int_scalar(Integer::I32, true)),
        ],
        ret: direct(AbiArgExtension::Sext, int_scalar(Integer::I32, true)),
        c_variadic: true,
        fixed_count: 1,
    };
    let sig = cx().create_function_signature(&fn_abi);
    assert_eq!(sig.args, vec![Type::ptr]);
    assert_eq!(sig.arg_infos.len(), 1);
    assert_eq!(sig.ret, Some(FullType::Single(Type::i32)));
}

#[test]
fn cast_arguments_take_their_registers() {
    let fn_abi = FnAbi {
        args: vec![ArgAbi {
            layout: BackendRepr::Memory { sized: true },
            mode: PassMode::Cast(CastTarget {
                prefix: vec![],
                rest_unit: Reg { kind: RegKind::Integer, size: 8 },
                rest_total: 16,
            }),
        }],
        ret: ArgAbi { layout: BackendRepr::Memory { sized: true }, mode: PassMode::Ignore },
        c_variadic: false,
        fixed_count: 1,
    };
    let sig = cx().create_function_signature(&fn_abi);
    assert_eq!(sig.args, vec![Type::i64, Type::i64]);
    assert_eq!(sig.arg_infos, vec![ArgInfo::default(), ArgInfo::default()]);
    assert_eq!(sig.ret, None);
}

#[test]
fn signature_from_types() {
    let sig = function_signature(
        &[FullType::Single(Type::i32), FullType::Pair(Type::ptr, Type::i64, 8)],
        Some(FullType::Single(Type::Bool)),
    );
    assert_eq!(sig.args, vec![Type::i32, Type::ptr, Type::i64]);
    assert_eq!(sig.arg_infos, vec![ArgInfo::default(); 3]);
    assert_eq!(sig.ret, Some(FullType::Single(Type::Bool)));
}
