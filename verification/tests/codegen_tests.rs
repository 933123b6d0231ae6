use rustc_codegen_tpde::allocator::{
    codegen, create_wrapper_function, usize_type_of, AllocatorMethod, AllocatorTy,
};
use rustc_codegen_tpde::backend::{target_feature_enabled, ModuleBuffer, TpdeCodegenBackend};
use rustc_codegen_tpde::common::{const_poison, const_uint, const_uint_big, const_usize};
use rustc_codegen_tpde::consts::{
    link_section_init_or_fini, range_as_init_chunks, Allocation, GlobalAlloc, InitChunk,
    IsInitOrFini, ProvenancePtr,
};
use rustc_codegen_tpde::context::{CodegenCx, TargetLayout};
use rustc_codegen_tpde::ffi::{ChunkType, InstructionKind, ModuleTpde, Type, Value};
use rustc_codegen_tpde::ir::{FullType, Function, Global, Linkage, Slot};
use rustc_codegen_tpde::symbols::{alloc_symbol_name, symbol_name, to_base_62, to_hex_32};
use rustc_codegen_tpde::types::{ArgAbi, BackendRepr, FnAbi, PassMode};

// -- names -------------------------------------------------------------------

#[test]
fn base_62_digits() {
    assert_eq!(to_base_62(0), "0");
    assert_eq!(to_base_62(9), "9");
    assert_eq!(to_base_62(10), "a");
    assert_eq!(to_base_62(35), "z");
    assert_eq!(to_base_62(36), "A");
    assert_eq!(to_base_62(61), "Z");
    assert_eq!(to_base_62(62), "10");
    assert_eq!(to_base_62(3843), "ZZ");
    assert_eq!(to_base_62(3844), "100");
    assert_eq!(to_base_62(u64::MAX), "lYGhA16ahyf");
}

#[test]
fn generated_symbol_names() {
    assert_eq!(symbol_name("str", 0), "str.0");
    assert_eq!(symbol_name("vtable", 63), "vtable.11");
    assert_eq!(symbol_name("", 61), ".Z");
}

#[test]
fn hexadecimal_alloc_names() {
    assert_eq!(to_hex_32(0), "00000000000000000000000000000000");
    assert_eq!(to_hex_32(0xdeadbeef), "000000000000000000000000deadbeef");
    assert_eq!(to_hex_32(u128::MAX), "ffffffffffffffffffffffffffffffff");
    assert_eq!(alloc_symbol_name(0x1234), "alloc_00000000000000000000000000001234");
}

// -- context -----------------------------------------------------------------

fn new_cx(threshold: usize) -> CodegenCx {
    CodegenCx::new(
        ModuleTpde::new(),
        "cgu",
        TargetLayout { pointer_size: 8, big_endian: false },
        threshold,
    )
}

fn unit_abi() -> FnAbi {
    FnAbi {
        args: vec![],
        ret: ArgAbi { layout: BackendRepr::Memory { sized: true }, mode: PassMode::Ignore },
        c_variadic: false,
        fixed_count: 0,
    }
}

#[test]
fn fresh_names_count_up() {
    let mut cx = new_cx(16);
    assert_eq!(cx.generate_local_symbol_name("str"), "str.0");
    assert_eq!(cx.generate_local_symbol_name("str"), "str.1");
    assert_eq!(cx.generate_global_symbol_name(), "cgu.0");
    assert_eq!(cx.generate_local_symbol_name("alloc"), "alloc.2");
    assert_eq!(cx.generate_global_symbol_name(), "cgu.1");
    assert_eq!(cx.local_gen_sym_counter, 3);
    assert_eq!(cx.global_gen_sym_counter, 2);
}

#[test]
fn get_global_declares_once() {
    let mut cx = new_cx(16);
    let g = cx.get_global(7, "FOO");
    let again = cx.get_global(7, "ignored");
    assert_eq!(g, again);
    assert_eq!(cx.module.globals.len(), 1);
    assert_eq!(cx.module.globals[0].name, "FOO");
    let other = cx.get_global(8, "BAR");
    assert_eq!(other, Global(1));
    assert_eq!(cx.module.globals.len(), 2);
}

#[test]
fn predefined_static_is_found() {
    let mut cx = new_cx(16);
    cx.predefine_static(3, Linkage::Internal, "LOCAL");
    assert_eq!(cx.get_global(3, "LOCAL"), Global(0));
    assert_eq!(cx.module.globals.len(), 1);
    assert!(cx.module.globals[0].flags.only_local);
}

#[test]
fn get_fn_declares_once() {
    let mut cx = new_cx(16);
    let abi = unit_abi();
    let f = cx.get_fn(11, "callee", &abi);
    assert_eq!(f, Function(0));
    assert_eq!(cx.get_fn(11, "callee", &abi), f);
    assert_eq!(cx.get_fn_addr(11, "callee", &abi), Slot::Func(f));
    assert_eq!(cx.module.functions.len(), 1);
    assert_eq!(cx.module.functions[0].name, "callee");
    assert!(!cx.module.functions[0].has_ret);
    cx.predefine_fn(12, "defined", &abi, Linkage::WeakODR);
    assert_eq!(cx.get_fn(12, "defined", &abi), Function(1));
    assert!(cx.module.functions[1].flags.weak_link);
    assert_eq!(cx.eh_personality(13, "rust_eh_personality", &abi), Function(2));
}

#[test]
fn entry_function_uses_declared_signature() {
    let mut cx = new_cx(16);
    let fn_type = cx.type_func(
        &[FullType::Single(Type::i32), FullType::Single(Type::ptr)],
        FullType::Single(Type::i32),
    );
    assert_eq!(fn_type, 0);
    let main = cx.declare_c_main("main", fn_type);
    assert_eq!(main, Some(Function(0)));
    let f = &cx.module.functions[0];
    assert_eq!(f.name, "main");
    assert_eq!(f.n_args, 2);
    assert!(f.has_ret);
    assert!(!f.flags.only_local);
    assert_eq!(cx.fn_decl_backend_type(&unit_abi()), 1);
}

#[test]
fn value_types() {
    let mut cx = new_cx(16);
    let c = const_usize(&mut cx.module, 5);
    assert_eq!(cx.val_ty(c), FullType::Single(Type::i64));
    let p = const_poison(&mut cx.module, FullType::Pair(Type::ptr, Type::i64, 8));
    assert_eq!(cx.val_ty(p), FullType::Pair(Type::ptr, Type::i64, 8));
}

/// The number of bytes the chunks of global `g` stand for.
fn initializer_size(m: &ModuleTpde, g: usize, pointer_size: usize) -> usize {
    let glob = &m.globals[g];
    glob.chunks
        .iter()
        .map(|c| match c.type_ {
            ChunkType::Init => glob.data[c.data as usize].data.len(),
            ChunkType::UnInit => c.data as usize,
            ChunkType::Reloc => pointer_size,
        })
        .sum()
}

fn plain_alloc(bytes: Vec<u8>, init_mask: Vec<bool>, ptrs: Vec<ProvenancePtr>) -> Allocation {
    Allocation { bytes, init_mask, align: 8, ptrs }
}

#[test]
fn static_addr_of_names_a_local_global() {
    let mut cx = new_cx(16);
    let alloc = plain_alloc(vec![1, 2, 3], vec![true; 3], vec![]);
    let s = cx.static_addr_of(&alloc, None);
    assert_eq!(s, Slot::Global(Global(0)));
    let s2 = cx.static_addr_of(&alloc, Some("str"));
    assert_eq!(s2, Slot::Global(Global(1)));
    let g = &cx.module.globals[0];
    assert_eq!(g.name, "global.0");
    assert!(g.flags.only_local);
    assert_eq!(g.align, 8);
    assert_eq!(g.chunks.len(), 1);
    assert_eq!(g.chunks[0].type_, ChunkType::Init);
    assert_eq!(g.data[0].data, vec![1, 2, 3]);
    assert_eq!(cx.module.globals[1].name, "str.1");
}

#[test]
fn codegen_static_fills_declared_global() {
    let mut cx = new_cx(16);
    cx.predefine_static(1, Linkage::External, "TLS");
    let alloc = plain_alloc(vec![0; 4], vec![true, true, false, false], vec![]);
    cx.codegen_static(1, true, Some(".tdata"), Some(&alloc));
    let g = &cx.module.globals[0];
    assert!(g.thread_loc);
    assert_eq!(g.chunks.len(), 2);
    assert_eq!(g.chunks[0].type_, ChunkType::Init);
    assert_eq!(g.chunks[1].type_, ChunkType::UnInit);
    assert_eq!(g.chunks[1].data, 2);

    cx.predefine_static(2, Linkage::External, "NONE");
    cx.codegen_static(2, true, None, None);
    assert!(!cx.module.globals[1].thread_loc);
    assert!(cx.module.globals[1].chunks.is_empty());
}

// -- constants and initializers ----------------------------------------------

#[test]
fn link_sections() {
    assert_eq!(link_section_init_or_fini(Some(".init_array")), IsInitOrFini::Yes);
    assert_eq!(link_section_init_or_fini(Some(".init_array.00100")), IsInitOrFini::Yes);
    assert_eq!(link_section_init_or_fini(Some(".fini_array")), IsInitOrFini::Yes);
    assert_eq!(link_section_init_or_fini(Some(".init")), IsInitOrFini::No);
    assert_eq!(link_section_init_or_fini(Some(".data")), IsInitOrFini::No);
    assert_eq!(link_section_init_or_fini(None), IsInitOrFini::No);
}

#[test]
fn init_runs_of_a_mask() {
    let mask = vec![true, true, false, true, false, false];
    assert_eq!(
        range_as_init_chunks(&mask, 0, 6),
        vec![
            InitChunk { init: true, start: 0, end: 2 },
            InitChunk { init: false, start: 2, end: 3 },
            InitChunk { init: true, start: 3, end: 4 },
            InitChunk { init: false, start: 4, end: 6 },
        ]
    );
    assert_eq!(
        range_as_init_chunks(&mask, 1, 3),
        vec![InitChunk { init: true, start: 1, end: 2 }, InitChunk { init: false, start: 2, end: 3 }]
    );
    assert!(range_as_init_chunks(&mask, 4, 4).is_empty());
}

#[test]
fn allocation_chunks_and_relocations() {
    let mut cx = new_cx(16);
    cx.predefine_static(5, Linkage::External, "S");
    let g = cx.module.add_global("g", Linkage::Internal);
    // 2 initialised bytes, 2 uninitialised, an 8-byte pointer, 1 trailing byte.
    let mut mask = vec![true, true, false, false];
    mask.extend(vec![true; 9]);
    let alloc = plain_alloc(
        vec![1, 2, 0, 0, 9, 9, 9, 9, 9, 9, 9, 9, 7],
        mask,
        vec![ProvenancePtr {
            offset: 4,
            target: GlobalAlloc::Static { def_id: 5, thread_local: false },
        }],
    );
    cx.const_alloc_to_tpde(g, &alloc, IsInitOrFini::No);
    assert_eq!(cx.module.globals.len(), 2);
    let glob = &cx.module.globals[1];
    assert_eq!(glob.align, 8);
    let kinds: Vec<ChunkType> = glob.chunks.iter().map(|c| c.type_).collect();
    assert_eq!(kinds, vec![ChunkType::Init, ChunkType::UnInit, ChunkType::Reloc, ChunkType::Init]);
    assert_eq!(glob.chunks[1].data, 2);
    assert_eq!(glob.chunks[2].data, 0);
    assert_eq!(glob.data.len(), 2);
    assert_eq!(glob.data[0].data, vec![1, 2]);
    assert_eq!(glob.data[1].data, vec![7]);
    assert_eq!(cx.module.relocations.len(), 1);
    // The pointer sits at byte 4 and points at the static's global.
    assert_eq!(cx.module.relocations[0].offset, 4);
    assert_eq!(cx.module.relocations[0].slot, Slot::Global(Global(0)).to_ffi());
    assert_eq!(initializer_size(&cx.module, 1, 8), 13);
}

#[test]
fn pointed_to_allocations_become_globals() {
    let mut cx = new_cx(16);
    let g = cx.module.add_global("outer", Linkage::Internal);
    let inner = plain_alloc(
        vec![0; 8],
        vec![true; 8],
        vec![ProvenancePtr {
            offset: 0,
            target: GlobalAlloc::Memory {
                hash: 0x22,
                alloc: plain_alloc(vec![5, 6], vec![true, true], vec![]),
            },
        }],
    );
    let outer = plain_alloc(
        vec![0; 16],
        vec![true; 16],
        vec![
            ProvenancePtr {
                offset: 0,
                    target: GlobalAlloc::Memory { hash: 0x11, alloc: inner },
            },
        ],
    );
    cx.const_alloc_to_tpde(g, &outer, IsInitOrFini::No);
    let names: Vec<&str> = cx.module.globals.iter().map(|g| g.name.as_str()).collect();
    assert_eq!(
        names,
        vec![
            "outer",
            "alloc_00000000000000000000000000000011",
            "alloc_00000000000000000000000000000022"
        ]
    );
    // The innermost allocation is written first, then the pointers to it.
    assert_eq!(cx.module.globals[2].data[0].data, vec![5, 6]);
    assert_eq!(cx.module.relocations.len(), 2);
    assert_eq!(cx.module.relocations[0].slot, Slot::Global(Global(2)).to_ffi());
    assert_eq!(cx.module.relocations[1].slot, Slot::Global(Global(1)).to_ffi());
    assert_eq!(cx.module.relocations[0].offset, 0);
    let outer_kinds: Vec<ChunkType> = cx.module.globals[0].chunks.iter().map(|c| c.type_).collect();
    assert_eq!(outer_kinds, vec![ChunkType::Reloc, ChunkType::Init]);
    assert_eq!(cx.module.globals[0].chunks[0].data, 1);
    assert!(cx.module.globals[1].flags.only_local);
    assert_eq!(initializer_size(&cx.module, 0, 8), 16);
    assert_eq!(initializer_size(&cx.module, 1, 8), 8);
    assert_eq!(initializer_size(&cx.module, 2, 8), 2);
}

#[test]
fn too_many_runs_become_one_chunk() {
    let mut cx = new_cx(3);
    let g = cx.module.add_global("g", Linkage::Internal);
    let alloc = plain_alloc(vec![1, 0, 3, 0], vec![true, false, true, false], vec![]);
    cx.const_alloc_to_tpde(g, &alloc, IsInitOrFini::No);
    let glob = &cx.module.globals[0];
    assert_eq!(glob.chunks.len(), 1);
    assert_eq!(glob.chunks[0].type_, ChunkType::Init);
    assert_eq!(glob.data[0].data, vec![1, 0, 3, 0]);

    let mut cx = new_cx(4);
    let g2 = cx.module.add_global("g2", Linkage::Internal);
    cx.const_alloc_to_tpde(g2, &alloc, IsInitOrFini::No);
    assert_eq!(cx.module.globals[0].chunks.len(), 4);
}

#[test]
fn integer_constants() {
    let mut m = ModuleTpde::new();
    assert_eq!(const_usize(&mut m, 42), Slot::Const(0));
    assert_eq!(m.consts[0], Value { ty: Type::i64, data1: 0, data2: 42 });
    assert_eq!(const_uint(&mut m, FullType::Single(Type::i8), 255), Slot::Const(1));
    assert_eq!(m.consts[1], Value { ty: Type::i8, data1: 0, data2: 255 });
    let big: u128 = (3u128 << 64) | 5;
    assert_eq!(const_uint_big(&mut m, FullType::Single(Type::i128), big), Slot::Const(2));
    assert_eq!(m.consts[2], Value { ty: Type::i128, data1: 3, data2: 5 });
    assert_eq!(const_poison(&mut m, FullType::Single(Type::F64)), Slot::Const(3));
    assert_eq!(m.consts[3], Value { ty: Type::F64, data1: 0, data2: 0 });
    assert_eq!(const_poison(&mut m, FullType::Pair(Type::ptr, Type::i64, 8)), Slot::CPair(0));
    assert_eq!(m.consts.len(), 6);
    assert_eq!(m.const_pairs[0].offset_b, 8);
}

#[test]
fn pointers_into_constant_memory() {
    let mut cx = new_cx(16);
    cx.predefine_static(9, Linkage::External, "S");
    let s = cx.ptr_to_backend(&GlobalAlloc::Static { def_id: 9, thread_local: false }, 0);
    assert_eq!(s, Slot::Global(Global(0)));
    assert_eq!(cx.module.globals.len(), 1);
    let target = GlobalAlloc::Memory {
        hash: 0xab,
        alloc: plain_alloc(vec![4, 5], vec![true, true], vec![]),
    };
    assert_eq!(cx.ptr_to_backend(&target, 0), Slot::Global(Global(1)));
    assert_eq!(cx.module.globals[1].name, "alloc_000000000000000000000000000000ab");
    assert!(cx.module.globals[1].flags.only_local);
    assert_eq!(cx.module.globals[1].data[0].data, vec![4, 5]);
}

// -- allocator shim and backend ------------------------------------------------

#[test]
fn usize_types() {
    assert_eq!(usize_type_of(16), FullType::Single(Type::i16));
    assert_eq!(usize_type_of(32), FullType::Single(Type::i32));
    assert_eq!(usize_type_of(64), FullType::Single(Type::i64));
}

#[test]
fn wrapper_calls_its_target() {
    let mut m = ModuleTpde::new();
    create_wrapper_function(
        &mut m,
        "__rust_alloc",
        Some("__rdl_alloc"),
        &[FullType::Single(Type::i64), FullType::Single(Type::i64)],
        Some(FullType::Single(Type::ptr)),
        false,
    );
    assert_eq!(m.functions.len(), 2);
    let caller = &m.functions[0];
    assert_eq!(caller.name, "__rust_alloc");
    assert_eq!(caller.n_args, 2);
    assert!(caller.has_ret);
    assert_eq!(caller.basic_blocks.len(), 1);
    assert_eq!(caller.basic_blocks[0].name, "entry");
    let insts = &caller.basic_blocks[0].instructions;
    assert_eq!(insts.len(), 2);
    assert_eq!(insts[0].kind, InstructionKind::Call);
    assert_eq!(insts[0].ops.len(), 3);
    assert!(insts[0].has_result);
    assert_eq!(insts[1].kind, InstructionKind::Ret);
    assert_eq!(insts[1].ops, vec![insts[0].result]);
    let callee = &m.functions[1];
    assert_eq!(callee.name, "__rdl_alloc");
    assert!(callee.flags.weak_link);
    assert!(callee.basic_blocks.is_empty());
}

#[test]
fn allocator_shim() {
    let mut m = ModuleTpde::new();
    let methods = vec![
        AllocatorMethod {
            inputs: vec![AllocatorTy::Layout],
            output: AllocatorTy::ResultPtr,
            from_name: "__rust_alloc".to_owned(),
            to_name: "__rdl_alloc".to_owned(),
        },
        AllocatorMethod {
            inputs: vec![AllocatorTy::Ptr, AllocatorTy::Layout],
            output: AllocatorTy::Unit,
            from_name: "__rust_dealloc".to_owned(),
            to_name: "__rdl_dealloc".to_owned(),
        },
    ];
    codegen(&mut m, 32, &methods, "__rust_no_alloc_shim_is_unstable");
    assert_eq!(m.functions.len(), 5);
    assert_eq!(m.functions[0].name, "__rust_alloc");
    assert_eq!(m.functions[0].n_args, 2);
    assert_eq!(m.functions[0].slots[0].ty, Type::i32);
    assert_eq!(m.functions[2].name, "__rust_dealloc");
    assert_eq!(m.functions[2].n_args, 3);
    assert_eq!(m.functions[2].slots[0].ty, Type::ptr);
    assert!(!m.functions[2].has_ret);
    let marker = &m.functions[4];
    assert_eq!(marker.name, "__rust_no_alloc_shim_is_unstable");
    assert_eq!(marker.basic_blocks[0].instructions.len(), 1);
    assert_eq!(marker.basic_blocks[0].instructions[0].kind, InstructionKind::Ret);
    assert!(marker.basic_blocks[0].instructions[0].ops.is_empty());
}

#[test]
fn backend_answers() {
    let backend = TpdeCodegenBackend::new();
    assert_eq!(backend.name(), "TPDE");
    assert!(!backend.thin_lto_supported());
    assert!(backend.replaced_intrinsics().is_empty());
    assert!(backend.fallback_intrinsics().is_empty());
    let m = backend.codegen_allocator();
    assert!(m.functions.is_empty() && m.globals.is_empty());
    assert!(ModuleBuffer().data().is_empty());
    assert!(target_feature_enabled("x87"));
    assert!(target_feature_enabled("sse2"));
    assert!(!target_feature_enabled("avx"));
    assert!(!target_feature_enabled("sse"));
}
