use rustc_codegen_tpde::ffi::{
    ArgExtension, ArgInfo, ArgKind, ChunkType, InstructionKind, ModuleTpde, PairRef, Type, Value,
};
use rustc_codegen_tpde::ir::{
    size_of_type, BasicBlock, FullType, Function, FunctionSignature, Global, Linkage, Slot,
    MARKER_CONST, MARKER_FUNC, MARKER_GLOBAL, MARKER_PTR, MARKER_RAW,
};

fn sig(args: Vec<Type>, ret: Option<FullType>) -> FunctionSignature {
    let n = args.len();
    FunctionSignature { args, arg_infos: vec![ArgInfo::default(); n], ret }
}

fn module_with_function() -> (ModuleTpde, Function, BasicBlock) {
    let mut m = ModuleTpde::new();
    let f = m.add_function("f", &sig(vec![Type::i32, Type::i64], None), Linkage::External);
    let bb = m.add_basic_block(&f, "entry");
    (m, f, bb)
}

#[test]
fn new_module_is_empty() {
    let m = ModuleTpde::new();
    assert!(m.functions.is_empty());
    assert!(m.consts.is_empty());
    assert!(m.const_pairs.is_empty());
    assert!(m.globals.is_empty());
    assert!(m.relocations.is_empty());
}

#[test]
fn add_function_records_signature() {
    let mut m = ModuleTpde::new();
    let s = FunctionSignature {
        args: vec![Type::ptr, Type::i8],
        arg_infos: vec![
            ArgInfo { kind: ArgKind::sRet, extension: ArgExtension::NoExtension, size: 24, align: 8 },
            ArgInfo { kind: ArgKind::Direct, extension: ArgExtension::zExt, size: 0, align: 0 },
        ],
        ret: None,
    };
    let f0 = m.add_function("first", &s, Linkage::Internal);
    let f1 = m.add_function("second", &s, Linkage::WeakAny);
    assert_eq!(f0, Function(0));
    assert_eq!(f1, Function(1));
    let func = &m.functions[0];
    assert_eq!(func.name, "first");
    assert_eq!(func.n_args, 2);
    assert!(!func.has_ret);
    assert_eq!(func.slots.len(), 2);
    assert_eq!(func.slots[0].ty, Type::ptr);
    assert_eq!(func.slots[1].ty, Type::i8);
    assert_eq!(func.args, s.arg_infos);
    assert!(func.flags.only_local && !func.flags.extern_link && !func.flags.weak_link);
    assert!(m.functions[1].flags.weak_link);
    assert!(func.basic_blocks.is_empty());
}

#[test]
fn linker_flags_of_each_linkage() {
    let cases = [
        (Linkage::External, false, false, false),
        (Linkage::AvailableExternally, true, false, false),
        (Linkage::LinkOnceAny, false, false, false),
        (Linkage::LinkOnceODR, false, false, false),
        (Linkage::WeakAny, false, false, true),
        (Linkage::WeakODR, false, false, true),
        (Linkage::Internal, false, true, false),
        (Linkage::ExternalWeak, false, false, true),
        (Linkage::Common, false, false, false),
    ];
    for (linkage, ext, local, weak) in cases {
        let mut m = ModuleTpde::new();
        let g = m.add_global("g", linkage);
        let flags = m.globals[g.0].flags;
        assert_eq!((flags.extern_link, flags.only_local, flags.weak_link), (ext, local, weak));
        // at most one flag is set
        assert!([flags.extern_link, flags.only_local, flags.weak_link].iter().filter(|b| **b).count() <= 1);
    }
}

#[test]
fn globals_and_their_chunks() {
    let mut m = ModuleTpde::new();
    let g = m.add_global("data", Linkage::External);
    assert_eq!(g, Global(0));
    m.global_set_align(g, 16);
    m.global_add_init_chunk(g, &[1, 2, 3]);
    m.global_add_unit_chunk(g, 5);
    m.global_add_reloc_chunk(g, 8, Slot::Global(g));
    m.global_add_init_chunk(g, &[9]);
    m.global_set_thread_local(g);
    let gl = &m.globals[0];
    assert_eq!(gl.name, "data");
    assert_eq!(gl.align, 16);
    assert_eq!(gl.size, 0);
    assert!(gl.thread_loc);
    assert_eq!(gl.data.len(), 2);
    assert_eq!(gl.data[0].data, vec![1, 2, 3]);
    assert_eq!(gl.data[1].data, vec![9]);
    let chunks: Vec<(ChunkType, u32)> = gl.chunks.iter().map(|c| (c.type_, c.data)).collect();
    assert_eq!(
        chunks,
        vec![(ChunkType::Init, 0), (ChunkType::UnInit, 5), (ChunkType::Reloc, 0), (ChunkType::Init, 1)]
    );
    assert_eq!(m.relocations.len(), 1);
    assert_eq!(m.relocations[0].offset, 8);
    assert_eq!(m.relocations[0].slot, Slot::Global(g).to_ffi());
}

#[test]
fn size_of_types() {
    assert_eq!(size_of_type(Type::Void), 0);
    assert_eq!(size_of_type(Type::Bool), 1);
    assert_eq!(size_of_type(Type::i8), 1);
    assert_eq!(size_of_type(Type::i16), 2);
    assert_eq!(size_of_type(Type::i32), 4);
    assert_eq!(size_of_type(Type::i64), 8);
}

#[test]
fn slot_encodings() {
    assert_eq!(Slot::Value(Function(4), 9).to_ffi(), 9);
    assert_eq!(Slot::Const(5).to_ffi(), 0x2000_0005);
    assert_eq!(Slot::Raw(7).to_ffi(), 0x4000_0007);
    assert_eq!(Slot::Alloc(1).to_ffi(), 0x6000_0001);
    assert_eq!(Slot::Func(Function(3)).to_ffi(), 0x8000_0003);
    assert_eq!(Slot::Global(Global(2)).to_ffi(), 0xA000_0002);
    assert_eq!(MARKER_CONST, 1 << 29);
    assert_eq!(MARKER_RAW, 2 << 29);
    assert_eq!(MARKER_PTR, 3 << 29);
    assert_eq!(MARKER_FUNC, 4 << 29);
    assert_eq!(MARKER_GLOBAL, 5 << 29);
}

#[test]
fn slot_decodings() {
    assert_eq!(Slot::from_ffi(9), Slot::Value(Function(0), 9));
    assert_eq!(Slot::from_ffi(0x2000_0005), Slot::Const(5));
    assert_eq!(Slot::from_ffi(0x4000_0007), Slot::Raw(7));
    assert_eq!(Slot::from_ffi(0x6000_0001), Slot::Alloc(1));
    assert_eq!(Slot::from_ffi(0x8000_0003), Slot::Func(Function(3)));
    assert_eq!(Slot::from_ffi(0xA000_0002), Slot::Global(Global(2)));
    assert_eq!(Slot::from_ffi(0x1FFF_FFFF), Slot::Value(Function(0), 0x1FFF_FFFF));
}

#[test]
fn decode_after_encode_round_trip() {
    let slots = [
        Slot::Const(0x1FFF_FFFF),
        Slot::Raw(0),
        Slot::Alloc(12),
        Slot::Func(Function(77)),
        Slot::Global(Global(5)),
        Slot::Value(Function(0), 3),
    ];
    for s in slots {
        assert_eq!(Slot::from_ffi(s.to_ffi()), s);
    }
    // a value forgets its function
    assert_eq!(Slot::from_ffi(Slot::Value(Function(6), 3).to_ffi()), Slot::Value(Function(0), 3));
}

#[test]
fn encode_after_decode_round_trip() {
    for x in [0u32, 1, 0x2000_0000, 0x3FFF_FFFF, 0x4000_0010, 0x7FFF_FFFF, 0x8000_0001, 0xBFFF_FFFF] {
        assert_eq!(Slot::from_ffi(x).to_ffi(), x);
    }
}

#[test]
fn get_func_of_slots() {
    assert_eq!(Slot::Value(Function(2), 1).get_func(), Some(Function(2)));
    assert_eq!(Slot::Pair(Function(3), 0).get_func(), Some(Function(3)));
    assert_eq!(Slot::Const(0).get_func(), None);
    assert_eq!(Slot::new_raw(4), Slot::Raw(4));
    assert_eq!(Slot::new_func(Function(1)), Slot::Func(Function(1)));
    assert_eq!(Slot::new_global(Global(1)), Slot::Global(Global(1)));
}

#[test]
fn constants_keep_their_halves() {
    let mut m = ModuleTpde::new();
    let v = (3u128 << 64) | 5;
    let s = m.add_const(Type::i128, v);
    assert_eq!(s, Slot::Const(0));
    assert_eq!(m.consts[0], Value { ty: Type::i128, data1: 3, data2: 5 });
    assert_eq!(m.type_of_slot(s), FullType::Single(Type::i128));
}

#[test]
fn value_data_reads_back_high_half_only_numbers() {
    let mut m = ModuleTpde::new();
    m.add_const(Type::i128, 7u128 << 64);
    assert_eq!(m.consts[0].data(), 7u128 << 64);
    // the low half widens the shift: data1 << (64 + data2)
    let c = Value { ty: Type::i128, data1: 3, data2: 5 };
    assert_eq!(c.data(), 3u128 << 69);
}

#[test]
fn const_pairs_and_their_type() {
    let mut m = ModuleTpde::new();
    let p = m.add_const_pair_values(Type::i64, Type::Bool, 8, 10, 1);
    assert_eq!(p, Slot::CPair(0));
    assert_eq!(m.consts.len(), 2);
    assert_eq!(m.const_pairs[0], PairRef { slot_a: 0x2000_0000, slot_b: 0x2000_0001, offset_b: 8 });
    assert_eq!(m.type_of_slot(p), FullType::Pair(Type::i64, Type::Bool, 8));
    assert_eq!(m.extract_vals(p), (Slot::Const(0), Slot::Const(1), 8));
    assert_eq!(p.pair_slots(&m), Some((Slot::Const(0), Slot::Const(1))));
    assert_eq!(Slot::Const(0).pair_slots(&m), None);
    let q = m.add_const_pair(Slot::Const(1), Slot::Raw(2), 4);
    assert_eq!(q, Slot::CPair(1));
    assert_eq!(m.const_pairs[1], PairRef { slot_a: 0x2000_0001, slot_b: 0x4000_0002, offset_b: 4 });
}

#[test]
fn slots_pairs_and_allocas_of_a_function() {
    let (mut m, f, _bb) = module_with_function();
    assert_eq!(m.get_slot(f, 1), Slot::Value(f, 1));
    let s = m.add_slot(f, Type::ptr);
    assert_eq!(s, Slot::Value(f, 2));
    assert_eq!(m.type_of_slot(s), FullType::Single(Type::ptr));
    assert_eq!(m.type_of_slot(Slot::Value(f, 0)), FullType::Single(Type::i32));
    let p = m.add_pair(f, Slot::Value(f, 0), s, 8);
    assert_eq!(p, Slot::Pair(f, 0));
    assert_eq!(m.type_of_slot(p), FullType::Pair(Type::i32, Type::ptr, 8));
    assert_eq!(m.extract_vals(p), (Slot::Value(Function(0), 0), Slot::Value(Function(0), 2), 8));
    let a = m.add_alloca(f, 32, 16);
    assert_eq!(a, Slot::Alloc(0));
    assert_eq!((m.functions[0].allocas[0].size, m.functions[0].allocas[0].align), (32, 16));
    assert_eq!(m.add_alloca(f, 8, 8), Slot::Alloc(1));
}

#[test]
fn blocks_and_instructions() {
    let (mut m, f, bb) = module_with_function();
    assert_eq!(bb, BasicBlock { function: f, index: 0 });
    assert_eq!(bb.function(), f);
    let bb2 = m.add_basic_block(&f, "next");
    assert_eq!(bb2.index, 1);
    assert_eq!(m.functions[0].basic_blocks[1].name, "next");
    m.add_instruction(bb, InstructionKind::Store, vec![Slot::Value(f, 0), Slot::Alloc(0), Slot::Raw(4)]);
    let r = m.add_instruction_ret(bb, InstructionKind::Load, vec![Slot::Alloc(0)], Type::i16);
    assert_eq!(r, Slot::Value(f, 2));
    let r2 = m.add_instruction_ret_first(bb, InstructionKind::Add, vec![Slot::Value(f, 1), Slot::Const(0)]);
    assert_eq!(m.type_of_slot(r2), FullType::Single(Type::i64));
    let r3 = m.add_instruction_ret_x(bb, InstructionKind::sRem, vec![Slot::Value(f, 1), Slot::Value(f, 2)], 1);
    assert_eq!(m.type_of_slot(r3), FullType::Single(Type::i16));
    m.add_br(bb, bb2);
    m.add_cond_br(bb2, Slot::Value(f, 0), bb, bb2);
    let instrs = &m.functions[0].basic_blocks[0].instructions;
    assert_eq!(instrs.len(), 5);
    assert_eq!(instrs[0].kind, InstructionKind::Store);
    assert_eq!(instrs[0].ops, vec![0, 0x6000_0000, 0x4000_0004]);
    assert!(!instrs[0].has_result);
    assert_eq!((instrs[1].has_result, instrs[1].result), (true, 2));
    assert_eq!(instrs[2].ops, vec![1, 0x2000_0000]);
    assert_eq!(instrs[2].result, 3);
    assert_eq!(instrs[3].result, 4);
    assert_eq!(instrs[4].kind, InstructionKind::Br);
    assert_eq!(instrs[4].ops, vec![0x4000_0001]);
    let other = &m.functions[0].basic_blocks[1].instructions;
    assert_eq!(other[0].kind, InstructionKind::CondBr);
    assert_eq!(other[0].ops, vec![0, 0x4000_0000, 0x4000_0001]);
}

#[test]
fn calls_with_pair_results_get_an_add_ret() {
    let (mut m, f, bb) = module_with_function();
    let callee_sig = sig(vec![Type::i32], Some(FullType::Pair(Type::i64, Type::i8, 8)));
    let callee = m.add_function("g", &callee_sig, Linkage::External);
    let r = m.add_call(bb, Slot::new_func(callee), &callee_sig, &[Slot::Value(f, 0)]);
    assert_eq!(r, Some(Slot::Pair(f, 0)));
    assert_eq!(m.type_of_slot(r.unwrap()), FullType::Pair(Type::i64, Type::i8, 8));
    let instrs = &m.functions[0].basic_blocks[0].instructions;
    assert_eq!(instrs.len(), 2);
    assert_eq!(instrs[0].kind, InstructionKind::Call);
    assert_eq!(instrs[0].ops, vec![0x8000_0001, 0]);
    assert_eq!((instrs[0].has_result, instrs[0].result), (true, 2));
    assert_eq!(instrs[1].kind, InstructionKind::AddRet);
    assert!(instrs[1].ops.is_empty());
    assert_eq!((instrs[1].has_result, instrs[1].result), (true, 3));
    assert_eq!(m.functions[0].slot_pairs[0], PairRef { slot_a: 2, slot_b: 3, offset_b: 8 });
    // a call without result
    let void_sig = sig(vec![], None);
    assert_eq!(m.add_call(bb, Slot::new_func(callee), &void_sig, &[]), None);
    assert!(!m.functions[0].basic_blocks[0].instructions[2].has_result);
}

#[test]
fn earlier_slots_keep_their_types() {
    let (mut m, f, bb) = module_with_function();
    let c = m.add_const(Type::Bool, 1);
    let before = [m.type_of_slot(Slot::Value(f, 0)), m.type_of_slot(Slot::Value(f, 1)), m.type_of_slot(c)];
    m.add_instruction_ret(bb, InstructionKind::Load, vec![Slot::Alloc(0)], Type::ptr);
    m.add_const_pair_values(Type::i8, Type::i8, 1, 0, 0);
    m.add_function("h", &sig(vec![Type::F64], None), Linkage::External);
    let after = [m.type_of_slot(Slot::Value(f, 0)), m.type_of_slot(Slot::Value(f, 1)), m.type_of_slot(c)];
    assert_eq!(before, after);
}

#[test]
fn personality_is_recorded() {
    let (mut m, f, _bb) = module_with_function();
    let p = m.add_function("rust_eh_personality", &sig(vec![], None), Linkage::External);
    m.add_personality(f, p);
    assert!(m.functions[0].has_personality);
    assert_eq!(m.functions[0].personality, 1);
}

#[test]
fn pairs_of_other_functions_read_function_zero() {
    // A pair record holds encoded values without their function, so its
    // halves are read from function 0.
    let mut m = ModuleTpde::new();
    let f0 = m.add_function("a", &sig(vec![Type::i8, Type::i8], None), Linkage::External);
    let f1 = m.add_function("b", &sig(vec![Type::i64, Type::i64], None), Linkage::External);
    let p = m.add_pair(f1, Slot::Value(f1, 0), Slot::Value(f1, 1), 8);
    assert_eq!(m.type_of_slot(p), FullType::Pair(Type::i8, Type::i8, 8));
    assert_eq!(f0, Function(0));
}

#[test]
fn chunk_indices_name_existing_blocks_and_relocations() {
    let mut m = ModuleTpde::new();
    let a = m.add_global("a", Linkage::Internal);
    let b = m.add_global("b", Linkage::Internal);
    m.global_add_init_chunk(a, &[1]);
    m.global_add_reloc_chunk(b, 0, Slot::Global(a));
    m.global_add_unit_chunk(a, 2);
    m.global_add_init_chunk(b, &[2]);
    m.global_add_reloc_chunk(a, 3, Slot::Global(b));
    m.global_add_init_chunk(a, &[3]);
    let mut reloc_seen = vec![0; m.relocations.len()];
    for g in &m.globals {
        let init: Vec<u32> =
            g.chunks.iter().filter(|c| c.type_ == ChunkType::Init).map(|c| c.data).collect();
        let expected: Vec<u32> = (0..g.data.len() as u32).collect();
        assert_eq!(init, expected);
        for c in g.chunks.iter().filter(|c| c.type_ == ChunkType::Reloc) {
            reloc_seen[c.data as usize] += 1;
        }
    }
    assert_eq!(reloc_seen, vec![1, 1]);
}
