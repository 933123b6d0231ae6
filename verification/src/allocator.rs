//! The allocator shim: one wrapper function per allocator method, which
//! calls the default implementation of that method, and an empty marker
//! function.
use crate::ffi::{ModuleTpde, ModuleView, InstructionKind, Type};
use crate::ir::{
    new_block_view, new_function_view, BasicBlock, FullType, Function, Linkage, Slot,
};
use crate::types::{function_signature, no_memory, simple_signature, type_i16, type_i32, type_i64, type_ptr, types_slots};
use vstd::prelude::*;

verus! {

/// The types that appear in the signatures of allocator methods.
#[derive(Debug, Copy, Clone, PartialEq, Eq, Structural)]
pub enum AllocatorTy {
    Layout,
    Never,
    Ptr,
    ResultPtr,
    Unit,
    Usize,
}

/// An allocator method: its inputs and output, the (mangled) name of the
/// wrapper, and the name of the default implementation it calls.
pub struct AllocatorMethod {
    pub inputs: Vec<AllocatorTy>,
    pub output: AllocatorTy,
    pub from_name: String,
    pub to_name: String,
}

/// The value arguments of a wrapper: a layout is its size and alignment.
pub open spec fn method_args(inputs: Seq<AllocatorTy>, usize_ty: FullType) -> Seq<FullType>
    decreases inputs.len(),
{
    if inputs.len() == 0 {
        Seq::empty()
    } else {
        method_args(inputs.drop_last(), usize_ty) + match inputs.last() {
            AllocatorTy::Layout => seq![usize_ty, usize_ty],
            AllocatorTy::Ptr => seq![FullType::Single(Type::ptr)],
            _ => seq![usize_ty],
        }
    }
}

pub open spec fn method_output(output: AllocatorTy) -> Option<FullType> {
    match output {
        AllocatorTy::ResultPtr => Some(FullType::Single(Type::ptr)),
        _ => None,
    }
}

pub open spec fn input_allowed(t: AllocatorTy) -> bool {
    t == AllocatorTy::Layout || t == AllocatorTy::Ptr || t == AllocatorTy::Usize
}

pub open spec fn output_allowed(t: AllocatorTy) -> bool {
    t == AllocatorTy::ResultPtr || t == AllocatorTy::Unit || t == AllocatorTy::Never
}

/// The integer type of pointer-sized values on a target.
pub open spec fn usize_type(pointer_width: u32) -> FullType {
    if pointer_width == 16 {
        FullType::Single(Type::i16)
    } else if pointer_width == 32 {
        FullType::Single(Type::i32)
    } else {
        FullType::Single(Type::i64)
    }
}

/// The slots that stand for the first `n` arguments of a function.
pub open spec fn arg_values(f: Function, n: nat) -> Seq<Slot> {
    Seq::new(n, |i: int| Slot::Value(f, i as u32))
}

/// The module after defining wrapper `from`, which calls `to` with its
/// arguments and returns the result, or returns at once without `to`.
pub open spec fn wrapper_module(
    m: ModuleView,
    from: Seq<char>,
    to: Option<Seq<char>>,
    args: Seq<FullType>,
    output: Option<FullType>,
) -> ModuleView {
    let sig = simple_signature(args, output);
    let caller = Function(m.functions.len() as usize);
    let m2 = m.push_function(new_function_view(from, sig, Linkage::Common)).push_block(
        caller.0 as int,
        new_block_view("entry"@),
    );
    let bb = BasicBlock { function: caller, index: 0 };
    match to {
        Some(t) => {
            let callee = Function((m.functions.len() + 1) as usize);
            let m3 = m2.push_function(new_function_view(t, sig, Linkage::ExternalWeak));
            let ops = seq![Slot::Func(callee)] + arg_values(caller, args.len());
            let m4 = m3.emit(bb, InstructionKind::Call, ops, output);
            let ret = match m3.emit_result(bb, output) {
                Some(s) => seq![s],
                _ => Seq::empty(),
            };
            m4.emit(bb, InstructionKind::Ret, ret, None)
        },
        _ => m2.emit(bb, InstructionKind::Ret, Seq::empty(), None),
    }
}

/// The module after the wrappers of the first `n` methods.
pub open spec fn methods_module(
    m: ModuleView,
    pointer_width: u32,
    methods: Seq<AllocatorMethod>,
    n: nat,
) -> ModuleView
    decreases n,
{
    if n == 0 {
        m
    } else {
        let meth = methods[n - 1];
        wrapper_module(
            methods_module(m, pointer_width, methods, (n - 1) as nat),
            meth.from_name@,
            Some(meth.to_name@),
            method_args(meth.inputs@, usize_type(pointer_width)),
            method_output(meth.output),
        )
    }
}

/// Whether a method's wrapper can be generated.
pub open spec fn method_allowed(meth: AllocatorMethod, pointer_width: u32) -> bool {
    &&& forall|i: int| 0 <= i < meth.inputs@.len() ==> input_allowed(#[trigger] meth.inputs@[i])
    &&& output_allowed(meth.output)
    &&& types_slots(method_args(meth.inputs@, usize_type(pointer_width))).len() + 4 <= u32::MAX
}

proof fn lemma_method_args_no_memory(inputs: Seq<AllocatorTy>, usize_ty: FullType)
    requires
        usize_ty is Single,
    ensures
        no_memory(method_args(inputs, usize_ty)),
        method_args(inputs, usize_ty).len() <= 2 * inputs.len(),
    decreases inputs.len(),
{
    if inputs.len() > 0 {
        lemma_method_args_no_memory(inputs.drop_last(), usize_ty);
    }
}

/// Defines function `from_name` with one entry block. With `to_name` it
/// calls the weakly linked `to_name`, of the same signature, with its own
/// arguments and returns what the call returns; without, it returns at once.
pub fn create_wrapper_function(
    module: &mut ModuleTpde,
    from_name: &str,
    to_name: Option<&str>,
    args: &[FullType],
    output: Option<FullType>,
    no_return: bool,
)
    requires
        no_memory(args@),
        output is None || output->0 is Single,
        to_name is None ==> output is None,
        types_slots(args@).len() + 4 <= u32::MAX,
        old(module)@.functions.len() + 2 <= usize::MAX,
    ensures
        final(module)@ == wrapper_module(
            old(module)@,
            from_name@,
            match to_name {
                Some(t) => Some(t@),
                _ => None,
            },
            args@,
            output,
        ),
{
    let ghost m0 = module@;
    let sign = function_signature(args, output);
    let caller = module.add_function(from_name, &sign, Linkage::Common);
    let bb = module.add_basic_block(&caller, "entry");
    let mut ret: Vec<Slot> = Vec::new();
    match to_name {
        Some(to_name) => {
            let callee = module.add_function(to_name, &sign, Linkage::ExternalWeak);
            let ghost m3 = module@;
            let mut slots: Vec<Slot> = Vec::new();
            let mut i: usize = 0;
            while i < args.len()
                invariant
                    i <= args.len(),
                    slots@ =~= arg_values(caller, i as nat),
                decreases args.len() - i,
            {
                slots.push(module.get_slot(caller, i as u32));
                i = i + 1;
            }
            assert(slots@ =~= arg_values(caller, args.len() as nat));
            assert(m3.slot_count(caller) == types_slots(args@).len());
            assert(crate::ir::all_encodable(seq![Slot::Func(callee)] + slots@));
            let out = module.add_call(bb, Slot::new_func(callee), &sign, slots.as_slice());
            match out {
                Some(slot) => ret.push(slot),
                None => {},
            }
        },
        None => {},
    }
    module.add_instruction(bb, InstructionKind::Ret, ret);
    assert(module@ =~= wrapper_module(
        m0,
        from_name@,
        match to_name {
            Some(t) => Some(t@),
            _ => None,
        },
        args@,
        output,
    ));
}

/// The pointer-sized integer type of a target with pointers of
/// `pointer_width` bits.
pub fn usize_type_of(pointer_width: u32) -> (t: FullType)
    requires
        pointer_width == 16 || pointer_width == 32 || pointer_width == 64,
    ensures
        t == usize_type(pointer_width),
{
    match pointer_width {
        16 => type_i16(),
        32 => type_i32(),
        _ => type_i64(),
    }
}

/// Defines the allocator shim: a wrapper per method, then the marker
/// function `no_alloc_shim_name`, which returns at once.
pub fn codegen(
    module: &mut ModuleTpde,
    pointer_width: u32,
    methods: &[AllocatorMethod],
    no_alloc_shim_name: &str,
)
    requires
        pointer_width == 16 || pointer_width == 32 || pointer_width == 64,
        forall|i: int| 0 <= i < methods@.len() ==> method_allowed(#[trigger] methods@[i], pointer_width),
        old(module)@.functions.len() + 2 * methods@.len() + 2 <= usize::MAX,
    ensures
        final(module)@ == wrapper_module(
            methods_module(old(module)@, pointer_width, methods@, methods@.len()),
            no_alloc_shim_name@,
            None,
            Seq::empty(),
            None,
        ),
{
    let ghost m0 = module@;
    let usize_ty = usize_type_of(pointer_width);
    let i8p = type_ptr();
    let mut k: usize = 0;
    while k < methods.len()
        invariant
            k <= methods@.len(),
            usize_ty == usize_type(pointer_width),
            i8p == FullType::Single(Type::ptr),
            forall|i: int| 0 <= i < methods@.len() ==> method_allowed(#[trigger] methods@[i], pointer_width),
            module@ == methods_module(m0, pointer_width, methods@, k as nat),
            module@.functions.len() == m0.functions.len() + 2 * k,
            m0.functions.len() + 2 * methods@.len() + 2 <= usize::MAX,
        decreases methods@.len() - k,
    {
        let method = &methods[k];
        let ghost meth = methods@[k as int];
        let mut args: Vec<FullType> = Vec::new();
        let mut j: usize = 0;
        while j < method.inputs.len()
            invariant
                j <= method.inputs@.len(),
                meth == *method,
                method_allowed(meth, pointer_width),
                usize_ty == usize_type(pointer_width),
                i8p == FullType::Single(Type::ptr),
                args@ == method_args(method.inputs@.take(j as int), usize_ty),
            decreases method.inputs@.len() - j,
        {
            assert(method.inputs@.take(j + 1).drop_last() =~= method.inputs@.take(j as int));
            assert(input_allowed(method.inputs@[j as int]));
            match method.inputs[j] {
                AllocatorTy::Layout => {
                    args.push(usize_ty);
                    args.push(usize_ty);
                },
                AllocatorTy::Ptr => args.push(i8p),
                _ => args.push(usize_ty),
            }
            j = j + 1;
            assert(args@ =~= method_args(method.inputs@.take(j as int), usize_ty));
        }
        assert(method.inputs@.take(j as int) =~= method.inputs@);
        let output = match method.output {
            AllocatorTy::ResultPtr => Some(i8p),
            _ => None,
        };
        let no_return = match method.output {
            AllocatorTy::Never => true,
            _ => false,
        };
        proof {
            lemma_method_args_no_memory(method.inputs@, usize_ty);
        }
        create_wrapper_function(
            module,
            method.from_name.as_str(),
            Some(method.to_name.as_str()),
            args.as_slice(),
            output,
            no_return,
        );
        k = k + 1;
    }
    assert(types_slots(Seq::<FullType>::empty()) =~= Seq::<Type>::empty());
    let no_args: Vec<FullType> = Vec::new();
    assert(no_args@ =~= Seq::<FullType>::empty());
    create_wrapper_function(module, no_alloc_shim_name, None, no_args.as_slice(), None, false);
}

} // verus!
