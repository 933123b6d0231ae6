//! The state of code generation for one codegen unit: the module being
//! built, the signatures declared so far, the functions and globals
//! declared for the compiler's items, and the counters of fresh names.
use crate::consts::{
    alloc_module, alloc_ok, alloc_relocs, chunks_size, link_section_init_or_fini, Allocation,
    IsInitOrFini,
};
use crate::ffi::{ModuleTpde, ModuleView};
use crate::ir::{
    new_function_view, new_global_view, Function, FullType, FunctionSignature, Global, Linkage,
    SignatureView, Slot,
};
use crate::symbols::{generated_name, symbol_name};
use crate::types::{
    abi_signature, fn_abi_supported, function_signature, no_memory,
    simple_signature, FnAbi,
};
use std::collections::HashMap;
use vstd::prelude::*;

verus! {

broadcast use vstd::std_specs::hash::group_hash_axioms;

/// The global of static `def_id` and the module and table after asking for
/// it: the known global, or a new external global named `name`.
pub open spec fn global_lookup(
    globals: Map<u64, Global>,
    m: ModuleView,
    def_id: u64,
    name: Seq<char>,
) -> (Global, ModuleView, Map<u64, Global>) {
    if globals.contains_key(def_id) {
        (globals[def_id], m, globals)
    } else {
        let g = Global(m.globals.len() as usize);
        (g, m.push_global(new_global_view(name, Linkage::External)), globals.insert(def_id, g))
    }
}

/// The function of `instance` and the module and table after asking for
/// it: the known function, or a new external function named `name` with
/// signature `sig`.
pub open spec fn function_lookup(
    functions: Map<u64, Function>,
    m: ModuleView,
    instance: u64,
    name: Seq<char>,
    sig: SignatureView,
) -> (Function, ModuleView, Map<u64, Function>) {
    if functions.contains_key(instance) {
        (functions[instance], m, functions)
    } else {
        let f = Function(m.functions.len() as usize);
        (f, m.push_function(new_function_view(name, sig, Linkage::External)), functions.insert(instance, f))
    }
}

/// What the code generator reads of the target's data layout.
#[derive(Debug, Copy, Clone, PartialEq, Eq, Structural)]
pub struct TargetLayout {
    /// The size of a pointer in bytes.
    pub pointer_size: usize,
    /// Whether numbers are stored most significant byte first.
    pub big_endian: bool,
}

/// The code generation context of one codegen unit. Items of the compiler
/// are identified by integers: a static by its definition, a function by
/// its instance.
pub struct CodegenCx {
    pub module: ModuleTpde,
    pub function_signatures: Vec<FunctionSignature>,
    pub functions: HashMap<u64, Function>,
    pub globals: HashMap<u64, Global>,
    pub global_gen_sym_counter: usize,
    pub local_gen_sym_counter: usize,
    /// The symbol name of the codegen unit, the prefix of global names.
    pub codegen_unit_name: String,
    pub data_layout: TargetLayout,
    /// The session's limit on the runs of equally initialised bytes that a
    /// constant is split into.
    pub uninit_const_chunk_threshold: usize,
}

impl CodegenCx {
    /// The signatures declared so far, by index.
    pub open spec fn signatures(&self) -> Seq<SignatureView> {
        self.function_signatures@.map_values(|s: FunctionSignature| s@)
    }

    /// Everything but the module and the item tables is as in `old`.
    pub open spec fn keeps_names(&self, old: &CodegenCx) -> bool {
        &&& self.signatures() == old.signatures()
        &&& self.global_gen_sym_counter == old.global_gen_sym_counter
        &&& self.local_gen_sym_counter == old.local_gen_sym_counter
        &&& self.codegen_unit_name@ == old.codegen_unit_name@
        &&& self.keeps_target(old)
    }

    /// The target's layout and the session's limits are as in `old`.
    pub open spec fn keeps_target(&self, old: &CodegenCx) -> bool {
        &&& self.data_layout == old.data_layout
        &&& self.uninit_const_chunk_threshold == old.uninit_const_chunk_threshold
    }

    /// The item tables are as in `old`.
    pub open spec fn keeps_items(&self, old: &CodegenCx) -> bool {
        &&& self.functions@ == old.functions@
        &&& self.globals@ == old.globals@
    }

    pub fn new(
        module: ModuleTpde,
        codegen_unit_name: &str,
        data_layout: TargetLayout,
        uninit_const_chunk_threshold: usize,
    ) -> (cx: Self)
        ensures
            cx.module@ == module@,
            cx.signatures() == Seq::<SignatureView>::empty(),
            cx.functions@ == Map::<u64, Function>::empty(),
            cx.globals@ == Map::<u64, Global>::empty(),
            cx.global_gen_sym_counter == 0,
            cx.local_gen_sym_counter == 0,
            cx.codegen_unit_name@ == codegen_unit_name@,
            cx.data_layout == data_layout,
            cx.uninit_const_chunk_threshold == uninit_const_chunk_threshold,
    {
        let cx = Self {
            module,
            function_signatures: Vec::new(),
            functions: HashMap::new(),
            globals: HashMap::new(),
            global_gen_sym_counter: 0,
            local_gen_sym_counter: 0,
            codegen_unit_name: codegen_unit_name.to_owned(),
            data_layout,
            uninit_const_chunk_threshold,
        };
        assert(cx.signatures() =~= Seq::<SignatureView>::empty());
        cx
    }

    /// Declares a signature and returns its index.
    fn push_signature(&mut self, sig: FunctionSignature) -> (index: usize)
        ensures
            index == old(self).signatures().len(),
            final(self).signatures() == old(self).signatures().push(sig@),
            final(self).module@ == old(self).module@,
            final(self).keeps_items(old(self)),
            final(self).global_gen_sym_counter == old(self).global_gen_sym_counter,
            final(self).local_gen_sym_counter == old(self).local_gen_sym_counter,
            final(self).codegen_unit_name@ == old(self).codegen_unit_name@,
            final(self).keeps_target(old(self)),
    {
        let ghost s0 = self.signatures();
        let ghost v = sig@;
        let signs = &mut self.function_signatures;
        signs.push(sig);
        let index = signs.len() - 1;
        assert(self.signatures() =~= s0.push(v));
        index
    }

    /// Declares the signature of a function from its argument and result
    /// types.
    pub fn type_func(&mut self, args: &[FullType], ret: FullType) -> (index: usize)
        requires
            no_memory(args@),
        ensures
            index == old(self).signatures().len(),
            final(self).signatures() == old(self).signatures().push(
                simple_signature(args@, Some(ret)),
            ),
            final(self).module@ == old(self).module@,
            final(self).keeps_items(old(self)),
            final(self).global_gen_sym_counter == old(self).global_gen_sym_counter,
            final(self).local_gen_sym_counter == old(self).local_gen_sym_counter,
            final(self).codegen_unit_name@ == old(self).codegen_unit_name@,
            final(self).keeps_target(old(self)),
    {
        let sig = function_signature(args, Some(ret));
        self.push_signature(sig)
    }

    /// Declares the signature of a calling convention.
    pub fn fn_decl_backend_type(&mut self, fn_abi: &FnAbi) -> (index: usize)
        requires
            fn_abi_supported(*fn_abi),
        ensures
            index == old(self).signatures().len(),
            final(self).signatures() == old(self).signatures().push(abi_signature(*fn_abi)),
            final(self).module@ == old(self).module@,
            final(self).keeps_items(old(self)),
            final(self).global_gen_sym_counter == old(self).global_gen_sym_counter,
            final(self).local_gen_sym_counter == old(self).local_gen_sym_counter,
            final(self).codegen_unit_name@ == old(self).codegen_unit_name@,
            final(self).keeps_target(old(self)),
    {
        let sig = self.create_function_signature(fn_abi);
        self.push_signature(sig)
    }

    /// Defines the program's entry function `entry_name` with a declared
    /// signature.
    pub fn declare_c_main(&mut self, entry_name: &str, fn_type: usize) -> (f: Option<Function>)
        requires
            fn_type < old(self).signatures().len(),
        ensures
            f == Some(Function(old(self).module@.functions.len() as usize)),
            final(self).module@ == old(self).module@.push_function(
                new_function_view(
                    entry_name@,
                    old(self).signatures()[fn_type as int],
                    Linkage::External,
                ),
            ),
            final(self).keeps_names(old(self)),
            final(self).keeps_items(old(self)),
    {
        let func = self.module.add_function(
            entry_name,
            &self.function_signatures[fn_type],
            Linkage::External,
        );
        Some(func)
    }

    /// A fresh name for a definition with internal linkage.
    pub fn generate_local_symbol_name(&mut self, prefix: &str) -> (name: String)
        requires
            old(self).local_gen_sym_counter < usize::MAX,
        ensures
            name@ == generated_name(prefix@, old(self).local_gen_sym_counter as nat),
            final(self).local_gen_sym_counter == old(self).local_gen_sym_counter + 1,
            final(self).global_gen_sym_counter == old(self).global_gen_sym_counter,
            final(self).module@ == old(self).module@,
            final(self).signatures() == old(self).signatures(),
            final(self).keeps_items(old(self)),
            final(self).codegen_unit_name@ == old(self).codegen_unit_name@,
            final(self).keeps_target(old(self)),
    {
        let idx = self.local_gen_sym_counter;
        self.local_gen_sym_counter = idx + 1;
        symbol_name(prefix, idx)
    }

    /// A fresh global name, prefixed with the codegen unit's name.
    pub fn generate_global_symbol_name(&mut self) -> (name: String)
        requires
            old(self).global_gen_sym_counter < usize::MAX,
        ensures
            name@ == generated_name(
                old(self).codegen_unit_name@,
                old(self).global_gen_sym_counter as nat,
            ),
            final(self).global_gen_sym_counter == old(self).global_gen_sym_counter + 1,
            final(self).local_gen_sym_counter == old(self).local_gen_sym_counter,
            final(self).module@ == old(self).module@,
            final(self).signatures() == old(self).signatures(),
            final(self).keeps_items(old(self)),
            final(self).codegen_unit_name@ == old(self).codegen_unit_name@,
            final(self).keeps_target(old(self)),
    {
        let idx = self.global_gen_sym_counter;
        self.global_gen_sym_counter = idx + 1;
        symbol_name(self.codegen_unit_name.as_str(), idx)
    }

    /// The type of a value.
    pub fn val_ty(&self, v: Slot) -> (t: FullType)
        requires
            self.module@.slot_typed(v),
        ensures
            t == self.module@.slot_type(v),
    {
        self.module.type_of_slot(v)
    }

    // -- items -----------------------------------------------------------------

    /// Declares the global of static `def_id` under `symbol_name`.
    pub fn declare_static(&mut self, def_id: u64, linkage: Linkage, symbol_name: &str) -> (g: Global)
        ensures
            g == Global(old(self).module@.globals.len() as usize),
            final(self).module@ == old(self).module@.push_global(
                new_global_view(symbol_name@, linkage),
            ),
            final(self).globals@ == old(self).globals@.insert(def_id, g),
            final(self).functions@ == old(self).functions@,
            final(self).keeps_names(old(self)),
    {
        let global = self.module.add_global(symbol_name, linkage);
        self.globals.insert(def_id, global);
        global
    }

    /// Predefines a static that this codegen unit defines.
    pub fn predefine_static(&mut self, def_id: u64, linkage: Linkage, symbol_name: &str)
        ensures
            final(self).module@ == old(self).module@.push_global(
                new_global_view(symbol_name@, linkage),
            ),
            final(self).globals@ == old(self).globals@.insert(
                def_id,
                Global(old(self).module@.globals.len() as usize),
            ),
            final(self).functions@ == old(self).functions@,
            final(self).keeps_names(old(self)),
    {
        self.declare_static(def_id, linkage, symbol_name);
    }

    /// The global of static `def_id`, declared with external linkage under
    /// `symbol_name` the first time it is asked for.
    pub fn get_global(&mut self, def_id: u64, symbol_name: &str) -> (g: Global)
        ensures
            (g, final(self).module@, final(self).globals@) == global_lookup(
                old(self).globals@,
                old(self).module@,
                def_id,
                symbol_name@,
            ),
            final(self).functions@ == old(self).functions@,
            final(self).keeps_names(old(self)),
    {
        match self.globals.get(&def_id) {
            Some(g) => *g,
            None => self.declare_static(def_id, Linkage::External, symbol_name),
        }
    }

    /// Declares the function of instance `instance` under `symbol_name`,
    /// with the signature of its calling convention.
    pub fn declare_fn(
        &mut self,
        instance: u64,
        symbol_name: &str,
        fn_abi: &FnAbi,
        linkage: Linkage,
    ) -> (f: Function)
        requires
            fn_abi_supported(*fn_abi),
        ensures
            f == Function(old(self).module@.functions.len() as usize),
            final(self).module@ == old(self).module@.push_function(
                new_function_view(symbol_name@, abi_signature(*fn_abi), linkage),
            ),
            final(self).functions@ == old(self).functions@.insert(instance, f),
            final(self).globals@ == old(self).globals@,
            final(self).keeps_names(old(self)),
    {
        let sig = self.create_function_signature(fn_abi);
        let func = self.module.add_function(symbol_name, &sig, linkage);
        self.functions.insert(instance, func);
        func
    }

    /// Predefines a function that this codegen unit defines.
    pub fn predefine_fn(&mut self, instance: u64, symbol_name: &str, fn_abi: &FnAbi, linkage: Linkage)
        requires
            fn_abi_supported(*fn_abi),
        ensures
            final(self).module@ == old(self).module@.push_function(
                new_function_view(symbol_name@, abi_signature(*fn_abi), linkage),
            ),
            final(self).functions@ == old(self).functions@.insert(
                instance,
                Function(old(self).module@.functions.len() as usize),
            ),
            final(self).globals@ == old(self).globals@,
            final(self).keeps_names(old(self)),
    {
        self.declare_fn(instance, symbol_name, fn_abi, linkage);
    }

    /// The function of `instance`, declared with external linkage the first
    /// time it is asked for.
    pub fn get_fn(&mut self, instance: u64, symbol_name: &str, fn_abi: &FnAbi) -> (f: Function)
        requires
            fn_abi_supported(*fn_abi),
        ensures
            (f, final(self).module@, final(self).functions@) == function_lookup(
                old(self).functions@,
                old(self).module@,
                instance,
                symbol_name@,
                abi_signature(*fn_abi),
            ),
            final(self).globals@ == old(self).globals@,
            final(self).keeps_names(old(self)),
    {
        match self.functions.get(&instance) {
            Some(f) => *f,
            None => self.declare_fn(instance, symbol_name, fn_abi, Linkage::External),
        }
    }

    /// The address of the function of `instance`.
    pub fn get_fn_addr(&mut self, instance: u64, symbol_name: &str, fn_abi: &FnAbi) -> (s: Slot)
        requires
            fn_abi_supported(*fn_abi),
        ensures
            ({
                let (f, m, t) = function_lookup(
                    old(self).functions@,
                    old(self).module@,
                    instance,
                    symbol_name@,
                    abi_signature(*fn_abi),
                );
                s == Slot::Func(f) && final(self).module@ == m && final(self).functions@ == t
            }),
            final(self).globals@ == old(self).globals@,
            final(self).keeps_names(old(self)),
    {
        Slot::new_func(self.get_fn(instance, symbol_name, fn_abi))
    }

    /// Declares the personality function, the instance of the language's
    /// `eh_personality` item.
    pub fn eh_personality(&mut self, instance: u64, symbol_name: &str, fn_abi: &FnAbi) -> (f: Function)
        requires
            fn_abi_supported(*fn_abi),
        ensures
            f == Function(old(self).module@.functions.len() as usize),
            final(self).module@ == old(self).module@.push_function(
                new_function_view(symbol_name@, abi_signature(*fn_abi), Linkage::External),
            ),
            final(self).functions@ == old(self).functions@.insert(instance, f),
            final(self).globals@ == old(self).globals@,
            final(self).keeps_names(old(self)),
    {
        self.declare_fn(instance, symbol_name, fn_abi, Linkage::External)
    }

    // -- statics ---------------------------------------------------------------

    /// Places a constant allocation in a fresh internal global named after
    /// `kind` (or "global") and the local counter; returns the global.
    pub fn static_addr_of(
        &mut self,
        alloc: &Allocation,
        kind: Option<&str>,
    ) -> (s: Slot)
        requires
            old(self).local_gen_sym_counter < usize::MAX,
            alloc_ok(old(self).globals@, *alloc, old(self).data_layout),
            alloc.bytes@.len() < u32::MAX,
            old(self).module@.relocations.len() + alloc_relocs(*alloc, alloc.ptrs@.len()) < u32::MAX,
        ensures
            ({
                let m = old(self).module@;
                let g = m.globals.len();
                let prefix = match kind {
                    Some(k) => k@,
                    _ => "global"@,
                };
                let name = generated_name(prefix, old(self).local_gen_sym_counter as nat);
                &&& s == Slot::Global(Global(g as usize))
                &&& final(self).module@ == alloc_module(
                    m.push_global(new_global_view(name, Linkage::Internal)),
                    old(self).globals@,
                    g as int,
                    *alloc,
                    old(self).data_layout.pointer_size,
                    old(self).uninit_const_chunk_threshold,
                )
                &&& chunks_size(
                    final(self).module@.globals[g as int].chunks,
                    final(self).module@.globals[g as int].data,
                    old(self).data_layout.pointer_size as nat,
                ) == alloc.bytes@.len()
            }),
            final(self).local_gen_sym_counter == old(self).local_gen_sym_counter + 1,
            final(self).global_gen_sym_counter == old(self).global_gen_sym_counter,
            final(self).signatures() == old(self).signatures(),
            final(self).keeps_items(old(self)),
            final(self).codegen_unit_name@ == old(self).codegen_unit_name@,
            final(self).keeps_target(old(self)),
    {
        let prefix = match kind {
            Some(k) => k,
            None => "global",
        };
        let global_name = self.generate_local_symbol_name(prefix);
        let g = self.module.add_global(global_name.as_str(), Linkage::Internal);
        let ghost fresh = self.module@.globals[g.0 as int];
        self.const_alloc_to_tpde(g, alloc, IsInitOrFini::No);
        proof {
            let last = self.module@.globals[g.0 as int];
            assert(last.chunks.skip(fresh.chunks.len() as int) =~= last.chunks);
        }
        Slot::new_global(g)
    }

    /// Writes the initializer of static `def_id`, declared before, into its
    /// global; a thread-local static's global becomes thread-local. Without
    /// an initializer (its evaluation failed and was reported) nothing
    /// changes.
    pub fn codegen_static(
        &mut self,
        def_id: u64,
        thread_local: bool,
        link_section: Option<&str>,
        alloc: Option<&Allocation>,
    )
        requires
            old(self).globals@.contains_key(def_id),
            old(self).module@.has_global(old(self).globals@[def_id]),
            alloc matches Some(a) ==> {
                &&& alloc_ok(old(self).globals@, *a, old(self).data_layout)
                &&& old(self).module@.globals[old(self).globals@[def_id].0 as int].data.len()
                    + a.bytes@.len() < u32::MAX
                &&& old(self).module@.relocations.len() + alloc_relocs(*a, a.ptrs@.len())
                    < u32::MAX
            },
        ensures
            ({
                let m = old(self).module@;
                let g = old(self).globals@[def_id].0 as int;
                match alloc {
                    Some(a) => final(self).module@ == alloc_module(
                        if thread_local {
                            m.set_global_thread_local(g)
                        } else {
                            m
                        },
                        old(self).globals@,
                        g,
                        *a,
                        old(self).data_layout.pointer_size,
                        old(self).uninit_const_chunk_threshold,
                    ),
                    _ => final(self).module@ == m,
                }
            }),
            final(self).keeps_names(old(self)),
            final(self).keeps_items(old(self)),
    {
        let g = match self.globals.get(&def_id) {
            Some(g) => *g,
            None => Global(0),
        };
        let alloc = match alloc {
            Some(a) => a,
            None => return,
        };
        if thread_local {
            self.module.global_set_thread_local(g);
        }
        let is_init_fini = link_section_init_or_fini(link_section);
        self.const_alloc_to_tpde(g, alloc, is_init_fini);
    }
}

} // verus!
