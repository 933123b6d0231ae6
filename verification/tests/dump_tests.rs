use rustc_codegen_tpde::common::ConstScalar;
use rustc_codegen_tpde::consts::{Allocation, GlobalAlloc};
use rustc_codegen_tpde::context::{CodegenCx, TargetLayout};
use rustc_codegen_tpde::dump::{hex_dump, kind_name};
use rustc_codegen_tpde::ffi::{Instruction, InstructionKind, ModuleTpde, Type, Value};
use rustc_codegen_tpde::ir::{FullType, Function, Global, Linkage, Slot};
use rustc_codegen_tpde::symbols::to_base;

#[test]
fn numbers_in_other_bases() {
    assert_eq!(to_base(0, 10), "0");
    assert_eq!(to_base(1234567890, 10), "1234567890");
    assert_eq!(to_base(255, 16), "ff");
    assert_eq!(to_base(5, 2), "101");
    assert_eq!(to_base(63, 64), "$");
    assert_eq!(to_base(64, 64), "10");
}

#[test]
fn hex_dump_of_short_data() {
    assert_eq!(hex_dump(&[]), "(0 bytes)");
    assert_eq!(
        hex_dump(&[0x48, 0x69, 0x00]),
        "(3 bytes)\n  0000  48 69 00                                         |Hi.|"
    );
}

#[test]
fn hex_dump_of_two_lines() {
    let bytes: Vec<u8> = (0x1e..0x1e + 18).collect();
    assert_eq!(
        hex_dump(&bytes),
        "(18 bytes)\n  0000  1e 1f 20 21 22 23 24 25 26 27 28 29 2a 2b 2c 2d  |.. !\"#$%&'()*+,-|\n  0010  2e 2f                                            |./|"
    );
    let high: Vec<u8> = vec![0x7e, 0x7f, 0xff];
    assert!(hex_dump(&high).ends_with("7e 7f ff                                         |~..|"));
}

#[test]
fn slot_texts() {
    assert_eq!(Slot::Value(Function(3), 7).debug_text(), "[val: 7]");
    assert_eq!(Slot::Alloc(0).debug_text(), "[alloc: 0]");
    assert_eq!(Slot::Raw(42).debug_text(), "[raw: 42]");
    assert_eq!(Slot::Func(Function(12)).debug_text(), "[func: 12]");
    assert_eq!(Slot::Global(Global(1)).debug_text(), "[global: 1]");
    assert_eq!(Slot::Const(100).debug_text(), "[const: 100]");
}

#[test]
fn instruction_texts() {
    assert_eq!(kind_name(InstructionKind::fTos_sat), "fTos_sat");
    assert_eq!(kind_name(InstructionKind::CMPult), "CMPult");
    let add = Instruction {
        kind: InstructionKind::Add,
        ops: vec![Slot::Value(Function(0), 1).to_ffi(), Slot::Const(2).to_ffi()],
        has_result: true,
        result: Slot::Value(Function(0), 3).to_ffi(),
    };
    assert_eq!(add.debug_text(), "<Add> ([val: 1], [const: 2]) -> [val: 3]");
    let ret = Instruction { kind: InstructionKind::Ret, ops: vec![], has_result: false, result: 0 };
    assert_eq!(ret.debug_text(), "<Ret> ()");
}

fn new_cx() -> CodegenCx {
    CodegenCx::new(
        ModuleTpde::new(),
        "cgu",
        TargetLayout { pointer_size: 8, big_endian: true },
        16,
    )
}

#[test]
fn integer_scalars_are_sign_extended() {
    let mut cx = new_cx();
    let s = cx.scalar_to_backend(&ConstScalar::Int { bits: 0xff, size: 1 }, FullType::Single(Type::i8));
    assert_eq!(s, Slot::Const(0));
    let m = &cx.module;
    assert_eq!(m.consts[0], Value { ty: Type::i8, data1: u64::MAX, data2: u64::MAX });
    cx.scalar_to_backend(&ConstScalar::Int { bits: 0x7fff, size: 2 }, FullType::Single(Type::i16));
    assert_eq!(cx.module.consts[1], Value { ty: Type::i16, data1: 0, data2: 0x7fff });
    cx.scalar_to_backend(&ConstScalar::Int { bits: 0x8000_0000, size: 4 }, FullType::Single(Type::i32));
    assert_eq!(
        cx.module.consts[2],
        Value { ty: Type::i32, data1: u64::MAX, data2: 0xffff_ffff_8000_0000 }
    );
    let big = (1u128 << 127) | 9;
    cx.scalar_to_backend(&ConstScalar::Int { bits: big, size: 16 }, FullType::Single(Type::i128));
    assert_eq!(cx.module.consts[3], Value { ty: Type::i128, data1: 1 << 63, data2: 9 });
}

#[test]
fn pointer_scalars_point_at_globals() {
    let mut cx = new_cx();
    cx.predefine_static(4, Linkage::External, "S");
    let s = cx.scalar_to_backend(
        &ConstScalar::Ptr { target: GlobalAlloc::Static { def_id: 4, thread_local: false }, offset: 0 },
        FullType::Single(Type::ptr),
    );
    assert_eq!(s, Slot::Global(Global(0)));
    let target = GlobalAlloc::Memory {
        hash: 1,
        alloc: Allocation { bytes: vec![1], init_mask: vec![true], align: 1, ptrs: vec![] },
    };
    let s = cx.scalar_to_backend(&ConstScalar::Ptr { target, offset: 0 }, FullType::Single(Type::ptr));
    assert_eq!(s, Slot::Global(Global(1)));
    assert_eq!(cx.module.globals[1].name, "alloc_00000000000000000000000000000001");
}

#[test]
fn global_texts() {
    let mut m = ModuleTpde::new();
    let g = m.add_global("G", Linkage::Internal);
    m.global_set_align(g, 4);
    m.global_add_init_chunk(g, &[0x41, 0x00]);
    m.global_add_unit_chunk(g, 3);
    assert_eq!(
        m.globals[0].debug_text(),
        "G { size: 0, align: 4, thread_loc: false, flags: Flags { extern_link: false, only_local: true, weak_link: false }, chunks: [Chunk { type_: Init, data: 0 }, Chunk { type_: UnInit, data: 3 }], data: [(2 bytes)\n  0000  41 00                                            |A.|] }"
    );
    let empty = m.add_global("E", Linkage::External);
    assert_eq!(
        m.globals[empty.0].debug_text(),
        "E { size: 0, align: 0, thread_loc: false, flags: Flags { extern_link: false, only_local: false, weak_link: false }, chunks: [], data: [] }"
    );
}

#[test]
fn value_texts() {
    let v = |ty, data1, data2| Value { ty, data1, data2 };
    assert_eq!(v(Type::Bool, 0, 1).debug_text().unwrap(), "[Bool] (0 1) -> true");
    assert_eq!(v(Type::i8, 0, 0xff).debug_text().unwrap(), "[i8] (0 255) -> -1");
    assert_eq!(v(Type::i16, 0, 0x8000).debug_text().unwrap(), "[i16] (0 32768) -> -32768");
    assert_eq!(v(Type::i32, 0, 7).debug_text().unwrap(), "[i32] (0 7) -> 7");
    assert_eq!(
        v(Type::i64, 0, u64::MAX).debug_text().unwrap(),
        "[i64] (0 18446744073709551615) -> -1"
    );
    // The high half is read twice: shifted up, and again in the low bits.
    assert_eq!(v(Type::i128, 1, 5).debug_text().unwrap(), "[i128] (1 5) -> 18446744073709551617");
    assert_eq!(
        v(Type::i128, 1 << 63, 0).debug_text().unwrap(),
        "[i128] (9223372036854775808 0) -> -170141183460469231722463931679029329920"
    );
    assert_eq!(v(Type::ptr, 0, 64).debug_text().unwrap(), "[ptr] (0 64) -> [ptr: 64]");
    assert!(v(Type::F64, 0, 0).debug_text().is_none());
    assert!(v(Type::Void, 0, 0).debug_text().is_none());
}
