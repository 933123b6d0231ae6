use rustc_codegen_tpde::builder::{
    Builder, IntPredicate, Intrinsic, OperandValue, OverflowOp, RealPredicate,
};
use rustc_codegen_tpde::context::{CodegenCx, TargetLayout};
use rustc_codegen_tpde::ffi::{ArgInfo, InstructionKind, ModuleTpde, Type};
use rustc_codegen_tpde::ir::{
    BasicBlock, FullType, Function, FunctionSignature, Linkage, Slot,
};
use rustc_codegen_tpde::types::{
    type_i32, AbiArgExtension, ArgAbi, BackendRepr, CastTarget, Integer, PassMode, Primitive, Reg, RegKind, Scalar,
};

fn sig(args: Vec<Type>, ret: Option<FullType>) -> FunctionSignature {
    let n = args.len();
    FunctionSignature { args, arg_infos: vec![ArgInfo::default(); n], ret }
}

/// A module with `f(i32, i32, f64, ptr)` and its entry block.
fn setup() -> (ModuleTpde, Function, Builder) {
    let mut m = ModuleTpde::new();
    let f = m.add_function(
        "f",
        &sig(vec![Type::i32, Type::i32, Type::F64, Type::ptr], None),
        Linkage::External,
    );
    let bb = Builder::append_block(&mut m, f, "entry");
    (m, f, Builder::build(bb))
}

fn kinds(m: &ModuleTpde, f: Function, block: usize) -> Vec<InstructionKind> {
    m.functions[f.0].basic_blocks[block].instructions.iter().map(|i| i.kind).collect()
}

#[test]
fn blocks_and_positioning() {
    let (mut m, f, mut b) = setup();
    assert_eq!(b.llbb(), BasicBlock { function: f, index: 0 });
    let next = b.append_sibling_block(&mut m, "next");
    assert_eq!(next, BasicBlock { function: f, index: 1 });
    assert_eq!(m.functions[0].basic_blocks[1].name, "next");
    b.br(&mut m, next);
    b.switch_to_block(next);
    assert_eq!(b.llbb(), next);
    b.unreachable(&mut m);
    assert_eq!(kinds(&m, f, 0), vec![InstructionKind::Br]);
    assert_eq!(kinds(&m, f, 1), vec![InstructionKind::Unreachable]);
}

#[test]
fn binary_arithmetic_takes_lhs_type() {
    let (mut m, f, b) = setup();
    let x = b.get_param(&m, 0);
    let y = b.get_param(&m, 1);
    assert_eq!(x, Slot::Value(f, 0));
    let s = b.add(&mut m, x, y);
    assert_eq!(s, Slot::Value(f, 4));
    assert_eq!(m.type_of_slot(s), FullType::Single(Type::i32));
    let p = b.mul(&mut m, s, y);
    assert_eq!(p, Slot::Value(f, 5));
    let q = b.srem(&mut m, p, x);
    assert_eq!(m.type_of_slot(q), FullType::Single(Type::i32));
    let n = b.neg(&mut m, q);
    let d = b.get_param(&m, 2);
    let z = b.fneg(&mut m, d);
    assert_eq!(m.type_of_slot(z), FullType::Single(Type::F64));
    let _ = n;
    assert_eq!(
        kinds(&m, f, 0),
        vec![
            InstructionKind::Add,
            InstructionKind::Mul,
            InstructionKind::sRem,
            InstructionKind::Neg,
            InstructionKind::fNeg
        ]
    );
}

#[test]
fn comparisons_are_booleans() {
    let (mut m, f, b) = setup();
    let x = b.get_param(&m, 0);
    let y = b.get_param(&m, 1);
    let c = b.icmp(&mut m, IntPredicate::IntSLT, x, y);
    assert_eq!(m.type_of_slot(c), FullType::Single(Type::Bool));
    let d = b.get_param(&m, 2);
    let e = b.fcmp(&mut m, RealPredicate::RealOLE, d, d);
    assert_eq!(m.type_of_slot(e), FullType::Single(Type::Bool));
    assert_eq!(kinds(&m, f, 0), vec![InstructionKind::CMPslt, InstructionKind::RealOLE]);
}

#[test]
fn unsigned_checked_add_compares_result() {
    let (mut m, f, b) = setup();
    let x = b.get_param(&m, 0);
    let y = b.get_param(&m, 1);
    let (r, flag) = b.checked_binop(&mut m, OverflowOp::Add, false, x, y);
    assert_eq!(r, Slot::Value(f, 4));
    assert_eq!(flag, Slot::Value(f, 5));
    assert_eq!(kinds(&m, f, 0), vec![InstructionKind::Add, InstructionKind::CMPult]);
    assert_eq!(m.type_of_slot(flag), FullType::Single(Type::Bool));
}

#[test]
fn signed_checked_mul_asks_the_flag() {
    let (mut m, f, b) = setup();
    let x = b.get_param(&m, 0);
    let (r, flag) = b.checked_binop(&mut m, OverflowOp::Mul, true, x, x);
    assert_eq!(r, Slot::Value(f, 4));
    assert_eq!(flag, Slot::Value(f, 5));
    assert_eq!(kinds(&m, f, 0), vec![InstructionKind::Mul, InstructionKind::OverflowCheck]);
}

#[test]
fn unsigned_checked_sub_compares_operands() {
    let (mut m, f, b) = setup();
    let x = b.get_param(&m, 0);
    let y = b.get_param(&m, 1);
    let _ = b.checked_binop(&mut m, OverflowOp::Sub, false, x, y);
    assert_eq!(kinds(&m, f, 0), vec![InstructionKind::Sub, InstructionKind::CMPult]);
}

#[test]
fn stack_loads_and_stores() {
    let (mut m, f, b) = setup();
    let a = b.alloca(&mut m, 16, 8);
    assert_eq!(a, Slot::Alloc(0));
    assert_eq!(m.functions[0].allocas[0].size, 16);
    assert_eq!(m.functions[0].allocas[0].align, 8);
    let x = b.get_param(&m, 0);
    b.store(&mut m, x, a, 4);
    let v = b.load(&mut m, type_i32(), a, 4);
    assert_eq!(m.type_of_slot(v), FullType::Single(Type::i32));
    b.ret(&mut m, v);
    assert_eq!(
        kinds(&m, f, 0),
        vec![InstructionKind::Store, InstructionKind::Load, InstructionKind::Ret]
    );
}

#[test]
fn casts_take_destination_type() {
    let (mut m, _f, b) = setup();
    let x = b.get_param(&m, 0);
    let w = b.zext(&mut m, x, FullType::Single(Type::i64));
    assert_eq!(m.type_of_slot(w), FullType::Single(Type::i64));
    let t = b.trunc(&mut m, w, FullType::Single(Type::i8));
    assert_eq!(m.type_of_slot(t), FullType::Single(Type::i8));
    let d = b.sitofp(&mut m, x, FullType::Single(Type::F64));
    assert_eq!(m.type_of_slot(d), FullType::Single(Type::F64));
}

#[test]
fn intrinsics() {
    let (mut m, f, b) = setup();
    let x = b.get_param(&m, 0);
    let bb = b.codegen_intrinsic_call(&mut m, Intrinsic::BlackBox, &[OperandValue::Immediate(x)]);
    assert_eq!(bb, OperandValue::Immediate(x));
    assert!(m.functions[0].basic_blocks[0].instructions.is_empty());
    let c = b.codegen_intrinsic_call(&mut m, Intrinsic::Ctpop, &[OperandValue::Immediate(x)]);
    assert_eq!(c, OperandValue::Immediate(Slot::Value(f, 4)));
    assert_eq!(kinds(&m, f, 0), vec![InstructionKind::ctpop]);
    assert_eq!(b.expect(x, true), x);
    assert_eq!(b.from_immediate(x), x);
    let s = Scalar::Union { value: Primitive::Int(Integer::I32, true) };
    assert_eq!(b.to_immediate_scalar(x, s), x);
    assert!(Builder::intrinsic_call_expects_place_always(Intrinsic::BlackBox));
    assert!(!Builder::intrinsic_call_expects_place_always(Intrinsic::Ctpop));
}

#[test]
fn landing_pad_sets_personality() {
    let (mut m, f, b) = setup();
    let pers = m.add_function("rust_eh_personality", &sig(vec![], None), Linkage::External);
    b.filter_landing_pad(&mut m, pers);
    assert!(m.functions[0].has_personality);
    assert_eq!(m.functions[0].personality, pers.0 as u32);
    assert_eq!(kinds(&m, f, 0), vec![InstructionKind::LandingPad, InstructionKind::AddRet]);
}

#[test]
fn calls_through_declared_signatures() {
    let (m, _f, b) = setup();
    let mut cx = CodegenCx::new(m, "cgu", TargetLayout { pointer_size: 8, big_endian: false }, 16);
    let s = cx.type_func(&[FullType::Single(Type::i32)], FullType::Single(Type::i64));
    let callee = cx
        .module
        .add_function("g", &sig(vec![Type::i32], Some(FullType::Single(Type::i64))), Linkage::External);
    let x = b.get_param(&cx.module, 0);
    let r = b.call(&mut cx, s, Slot::Func(callee), &[x]);
    assert_eq!(r, Slot::Value(Function(0), 4));
    assert_eq!(cx.module.type_of_slot(r), FullType::Single(Type::i64));
    assert_eq!(kinds(&cx.module, Function(0), 0), vec![InstructionKind::Call]);
}

#[test]
fn function_arguments_are_stored() {
    let (mut m, f, b) = setup();
    let dst = b.alloca(&mut m, 8, 4);
    let mut idx: usize = 0;
    let direct = ArgAbi {
        layout: BackendRepr::Memory { sized: true },
        mode: PassMode::Ignore,
    };
    b.store_fn_arg(&mut m, &direct, &mut idx, dst, 4);
    assert_eq!(idx, 0);
    let cast = ArgAbi {
        layout: BackendRepr::Memory { sized: true },
        mode: PassMode::Cast(CastTarget {
            prefix: vec![],
            rest_unit: Reg { kind: RegKind::Integer, size: 4 },
            rest_total: 8,
        }),
    };
    b.store_fn_arg(&mut m, &cast, &mut idx, dst, 4);
    assert_eq!(idx, 2);
    assert_eq!(
        kinds(&m, f, 0),
        vec![InstructionKind::Store, InstructionKind::GEP, InstructionKind::Store]
    );
    let pair = ArgAbi {
        layout: BackendRepr::ScalarPair {
            a: Scalar::Union { value: Primitive::Int(Integer::I32, false) },
            b: Scalar::Union { value: Primitive::Int(Integer::I32, false) },
            b_offset: 4,
        },
        mode: PassMode::Pair(AbiArgExtension::NoExtension, AbiArgExtension::NoExtension),
    };
    b.store_fn_arg(&mut m, &pair, &mut idx, dst, 8);
    assert_eq!(idx, 4);
    let insts = &m.functions[0].basic_blocks[0].instructions;
    assert_eq!(insts.len(), 6);
    assert_eq!(insts[3].kind, InstructionKind::Store);
    assert_eq!(insts[3].ops, vec![Slot::Value(f, 2).to_ffi(), dst.to_ffi(), Slot::Raw(8).to_ffi()]);
    assert_eq!(insts[4].kind, InstructionKind::GEP);
    assert_eq!(insts[5].kind, InstructionKind::Store);
    // The second half sits 4 bytes in, where only 4-byte alignment is known.
    assert_eq!(
        insts[5].ops,
        vec![Slot::Value(f, 3).to_ffi(), insts[4].result, Slot::Raw(4).to_ffi()]
    );
    let last_const = m.consts.len() - 1;
    assert_eq!(m.consts[last_const].data2, 4);
}
