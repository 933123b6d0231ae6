//! Handles into a module (functions, globals, blocks, slots), the encoding
//! of slots as 32-bit operands, and the operations that grow a module.
use crate::ffi;
use crate::ffi::{
    ArgInfo, BlockView, Chunk, ChunkType, Flags, FunctionView, GlobalView,
    InstructionKind, InstructionView, ModuleTpde, ModuleView, PairRef, Relocation, Type, Value,
};
use vstd::prelude::*;

verus! {

/// A function of a module, by its index.
#[derive(Debug, Copy, Clone, PartialEq, Eq, Structural)]
pub struct Function(pub usize);

/// A global of a module, by its index.
#[derive(Debug, Copy, Clone, PartialEq, Eq, Structural)]
pub struct Global(pub usize);

/// A basic block: its function and its index among that function's blocks.
#[derive(Debug, Copy, Clone, PartialEq, Eq, Structural)]
pub struct BasicBlock {
    pub function: Function,
    pub index: usize,
}

/// A value during code generation. `Pair` and `CPair` only exist while a
/// module is built; the others can be encoded as instruction operands.
#[derive(Debug, Copy, Clone, PartialEq, Eq, Structural)]
pub enum Slot {
    Value(Function, u32),
    Pair(Function, u32),
    Const(u32),
    CPair(u32),
    Raw(u32),
    Alloc(u32),
    Func(Function),
    Global(Global),
}

/// The type of a value: one scalar, a pair of scalars with the byte offset
/// of the second, or memory.
#[derive(Debug, Copy, Clone, PartialEq, Eq, Structural)]
pub enum FullType {
    Single(Type),
    Pair(Type, Type, u8),
    Memory { sized: bool },
}

/// A function signature, by its index among the signatures of a context.
pub struct FunctionSignatureRef(pub usize);

/// The argument slots of a function, how each is passed, and its result.
pub struct FunctionSignature {
    pub args: Vec<Type>,
    pub arg_infos: Vec<ArgInfo>,
    pub ret: Option<FullType>,
}

#[verifier::ext_equal]
pub struct SignatureView {
    pub args: Seq<Type>,
    pub arg_infos: Seq<ArgInfo>,
    pub ret: Option<FullType>,
}

impl View for FunctionSignature {
    type V = SignatureView;

    open spec fn view(&self) -> SignatureView {
        SignatureView { args: self.args@, arg_infos: self.arg_infos@, ret: self.ret }
    }
}

/// The linkage of a symbol.
#[derive(Debug, Copy, Clone, PartialEq, Eq, Structural)]
pub enum Linkage {
    External,
    AvailableExternally,
    LinkOnceAny,
    LinkOnceODR,
    WeakAny,
    WeakODR,
    Internal,
    ExternalWeak,
    Common,
}

/// The byte size of a type; the code generator knows it up to 64-bit integers.
pub open spec fn type_size(ty: Type) -> u32 {
    match ty {
        Type::Void => 0,
        Type::Bool | Type::i8 => 1,
        Type::i16 => 2,
        Type::i32 => 4,
        _ => 8,
    }
}

pub open spec fn has_known_size(ty: Type) -> bool {
    matches!(ty, Type::Void | Type::Bool | Type::i8 | Type::i16 | Type::i32 | Type::i64)
}

pub fn size_of_type(ty: Type) -> (size: u32)
    requires
        has_known_size(ty),
    ensures
        size == type_size(ty),
{
    match ty {
        Type::Void => 0,
        Type::Bool | Type::i8 => 1,
        Type::i16 => 2,
        Type::i32 => 4,
        _ => 8,
    }
}

// ---------------------------------------------------------------------------
// Encoding of slots as operands
// ---------------------------------------------------------------------------

/// The top three bits of an operand say what kind of slot it is.
pub const MARKER_BLOCK: u32 = 0xE000_0000;
pub const MARKER_VAL: u32 = 0;
pub const MARKER_CONST: u32 = 0x2000_0000;
pub const MARKER_RAW: u32 = 0x4000_0000;
pub const MARKER_PTR: u32 = 0x6000_0000;
pub const MARKER_FUNC: u32 = 0x8000_0000;
pub const MARKER_GLOBAL: u32 = 0xA000_0000;

/// The largest index that an operand can carry below its marker, plus one.
pub open spec fn index_limit() -> int {
    0x2000_0000
}

/// Whether a slot can be encoded as an operand.
pub open spec fn encodable(s: Slot) -> bool {
    !(s is Pair || s is CPair)
}

/// The operand that encodes a slot: its index with the marker of its kind
/// or'ed in; a value slot is its bare index.
pub open spec fn slot_encoding(s: Slot) -> u32 {
    match s {
        Slot::Value(_, v) => v,
        Slot::Const(i) => i | MARKER_CONST,
        Slot::Alloc(p) => p | MARKER_PTR,
        Slot::Raw(r) => r | MARKER_RAW,
        Slot::Func(f) => (f.0 as u32) | MARKER_FUNC,
        Slot::Global(g) => (g.0 as u32) | MARKER_GLOBAL,
        _ => 0,
    }
}

/// Whether an operand carries one of the six markers that can be decoded.
pub open spec fn decodable(x: u32) -> bool {
    (x & MARKER_BLOCK) != 0xC000_0000 && (x & MARKER_BLOCK) != 0xE000_0000
}

/// The slot that an operand stands for. A value operand does not say its
/// function; it decodes as a value of function 0.
pub open spec fn decoded_slot(x: u32) -> Slot {
    let tag = x & MARKER_BLOCK;
    let u = x & !MARKER_BLOCK;
    if tag == MARKER_VAL {
        Slot::Value(Function(0), u)
    } else if tag == MARKER_CONST {
        Slot::Const(u)
    } else if tag == MARKER_PTR {
        Slot::Alloc(u)
    } else if tag == MARKER_RAW {
        Slot::Raw(u)
    } else if tag == MARKER_FUNC {
        Slot::Func(Function(u as usize))
    } else {
        Slot::Global(Global(u as usize))
    }
}

/// The encodings of a sequence of slots.
pub open spec fn encode_all(ops: Seq<Slot>) -> Seq<u32> {
    ops.map_values(|s: Slot| slot_encoding(s))
}

pub open spec fn all_encodable(ops: Seq<Slot>) -> bool {
    forall|i: int| 0 <= i < ops.len() ==> encodable(#[trigger] ops[i])
}

impl Slot {
    fn new_val(func: Function, index: u32) -> (s: Self)
        ensures
            s == Slot::Value(func, index),
    {
        Self::Value(func, index)
    }

    fn new_pair(func: Function, index: u32) -> (s: Self)
        ensures
            s == Slot::Pair(func, index),
    {
        Self::Pair(func, index)
    }

    fn new_const(index: u32) -> (s: Self)
        ensures
            s == Slot::Const(index),
    {
        Self::Const(index)
    }

    fn new_cpair(index: u32) -> (s: Self)
        ensures
            s == Slot::CPair(index),
    {
        Self::CPair(index)
    }

    fn new_alloc(index: u32) -> (s: Self)
        ensures
            s == Slot::Alloc(index),
    {
        Self::Alloc(index)
    }

    pub fn new_raw(u: u32) -> (s: Self)
        ensures
            s == Slot::Raw(u),
    {
        Self::Raw(u)
    }

    pub fn new_func(func: Function) -> (s: Self)
        ensures
            s == Slot::Func(func),
    {
        Self::Func(func)
    }

    pub fn new_global(global: Global) -> (s: Self)
        ensures
            s == Slot::Global(global),
    {
        Self::Global(global)
    }

    /// The operand that encodes this slot; pairs only exist while building.
    pub fn to_ffi(&self) -> (x: u32)
        requires
            encodable(*self),
        ensures
            x == slot_encoding(*self),
    {
        match self {
            Self::Value(_, v) => *v,
            Self::Const(i) => *i | MARKER_CONST,
            Self::Alloc(p) => *p | MARKER_PTR,
            Self::Raw(r) => *r | MARKER_RAW,
            Self::Func(f) => (f.0 as u32) | MARKER_FUNC,
            Self::Global(g) => (g.0 as u32) | MARKER_GLOBAL,
            Self::Pair(_, _) => 0,
            Self::CPair(_) => 0,
        }
    }

    /// The index carried by `ffi` when its marker is `marker`.
    fn is(ffi: u32, marker: u32) -> (r: Option<u32>)
        ensures
            r == (if (ffi & MARKER_BLOCK) == marker {
                Some(ffi & !MARKER_BLOCK)
            } else {
                None
            }),
    {
        if (ffi & MARKER_BLOCK) == marker {
            return Some(ffi & !MARKER_BLOCK);
        }
        None
    }

    /// The slot that an operand stands for.
    pub fn from_ffi(ffi: u32) -> (s: Self)
        requires
            decodable(ffi),
        ensures
            s == decoded_slot(ffi),
    {
        if let Some(u) = Self::is(ffi, MARKER_VAL) {
            return Self::Value(Function(0), u);
        }
        if let Some(u) = Self::is(ffi, MARKER_CONST) {
            return Self::Const(u);
        }
        if let Some(u) = Self::is(ffi, MARKER_PTR) {
            return Self::Alloc(u);
        }
        if let Some(u) = Self::is(ffi, MARKER_RAW) {
            return Self::Raw(u);
        }
        if let Some(f) = Self::is(ffi, MARKER_FUNC) {
            return Self::Func(Function(f as usize));
        }
        let g = ffi & !MARKER_BLOCK;
        Self::Global(Global(g as usize))
    }

    /// The function that a value or a pair belongs to.
    pub fn get_func(&self) -> (f: Option<Function>)
        ensures
            f == match *self {
                Slot::Value(func, _) => Some(func),
                Slot::Pair(func, _) => Some(func),
                _ => None,
            },
    {
        match self {
            Slot::Value(func, _) => Some(*func),
            Slot::Pair(func, _) => Some(*func),
            _ => None,
        }
    }
}

impl BasicBlock {
    fn new(function: Function, index: usize) -> (bb: BasicBlock)
        ensures
            bb == (BasicBlock { function, index }),
    {
        BasicBlock { function, index }
    }

    pub fn function(&self) -> (f: Function)
        ensures
            f == self.function,
    {
        self.function
    }

    fn index(&self) -> (i: usize)
        ensures
            i == self.index,
    {
        self.index
    }
}

// ---------------------------------------------------------------------------
// The model of a growing module
// ---------------------------------------------------------------------------

/// The linker flags of a linkage.
pub open spec fn linker_flags(linkage: Linkage) -> Flags {
    Flags {
        extern_link: linkage == Linkage::AvailableExternally,
        only_local: linkage == Linkage::Internal,
        weak_link: linkage == Linkage::WeakODR || linkage == Linkage::WeakAny || linkage
            == Linkage::ExternalWeak,
    }
}

/// A freshly declared function: one slot per argument type, no blocks.
pub open spec fn new_function_view(name: Seq<char>, sig: SignatureView, linkage: Linkage) -> FunctionView {
    FunctionView {
        name,
        n_args: sig.args.len() as usize,
        has_ret: sig.ret is Some,
        args: sig.arg_infos,
        slots: sig.args.map_values(|ty: Type| ffi::Slot { ty }),
        slot_pairs: Seq::empty(),
        flags: linker_flags(linkage),
        has_personality: false,
        personality: 0,
        allocas: Seq::empty(),
        basic_blocks: Seq::empty(),
        callee_infos: Seq::empty(),
    }
}

/// A freshly declared global: no size, no alignment, no initializer.
pub open spec fn new_global_view(name: Seq<char>, linkage: Linkage) -> GlobalView {
    GlobalView {
        name,
        size: 0,
        align: 0,
        thread_loc: false,
        flags: linker_flags(linkage),
        chunks: Seq::empty(),
        data: Seq::empty(),
    }
}

/// An empty basic block.
pub open spec fn new_block_view(name: Seq<char>) -> BlockView {
    BlockView { name, instructions: Seq::empty(), info1: 0, info2: 0 }
}

/// An instruction over encoded operands.
pub open spec fn instruction_view(
    kind: InstructionKind,
    ops: Seq<Slot>,
    has_result: bool,
    result: u32,
) -> InstructionView {
    InstructionView { kind, ops: encode_all(ops), has_result, result }
}

impl ModuleView {
    pub open spec fn empty() -> ModuleView {
        ModuleView {
            functions: Seq::empty(),
            consts: Seq::empty(),
            const_pairs: Seq::empty(),
            globals: Seq::empty(),
            relocations: Seq::empty(),
        }
    }

    pub open spec fn push_function(self, f: FunctionView) -> ModuleView {
        ModuleView { functions: self.functions.push(f), ..self }
    }

    pub open spec fn update_function(self, i: int, f: FunctionView) -> ModuleView {
        ModuleView { functions: self.functions.update(i, f), ..self }
    }

    pub open spec fn push_global(self, g: GlobalView) -> ModuleView {
        ModuleView { globals: self.globals.push(g), ..self }
    }

    pub open spec fn update_global(self, i: int, g: GlobalView) -> ModuleView {
        ModuleView { globals: self.globals.update(i, g), ..self }
    }

    pub open spec fn push_const(self, v: Value) -> ModuleView {
        ModuleView { consts: self.consts.push(v), ..self }
    }

    pub open spec fn push_const_pair(self, p: PairRef) -> ModuleView {
        ModuleView { const_pairs: self.const_pairs.push(p), ..self }
    }

    pub open spec fn push_relocation(self, r: Relocation) -> ModuleView {
        ModuleView { relocations: self.relocations.push(r), ..self }
    }

    pub open spec fn push_slot(self, f: int, ty: Type) -> ModuleView {
        self.update_function(
            f,
            FunctionView { slots: self.functions[f].slots.push(ffi::Slot { ty }), ..self.functions[f] },
        )
    }

    pub open spec fn push_slot_pair(self, f: int, p: PairRef) -> ModuleView {
        self.update_function(
            f,
            FunctionView { slot_pairs: self.functions[f].slot_pairs.push(p), ..self.functions[f] },
        )
    }

    pub open spec fn push_alloca(self, f: int, a: ffi::Alloca) -> ModuleView {
        self.update_function(
            f,
            FunctionView { allocas: self.functions[f].allocas.push(a), ..self.functions[f] },
        )
    }

    pub open spec fn push_block(self, f: int, b: BlockView) -> ModuleView {
        self.update_function(
            f,
            FunctionView {
                basic_blocks: self.functions[f].basic_blocks.push(b),
                ..self.functions[f]
            },
        )
    }

    pub open spec fn push_instruction(self, f: int, b: int, i: InstructionView) -> ModuleView {
        let fv = self.functions[f];
        let bv = fv.basic_blocks[b];
        self.update_function(
            f,
            FunctionView {
                basic_blocks: fv.basic_blocks.update(
                    b,
                    BlockView { instructions: bv.instructions.push(i), ..bv },
                ),
                ..fv
            },
        )
    }

    pub open spec fn set_personality(self, f: int, p: u32) -> ModuleView {
        self.update_function(
            f,
            FunctionView { has_personality: true, personality: p, ..self.functions[f] },
        )
    }

    pub open spec fn set_global_align(self, g: int, align: u32) -> ModuleView {
        self.update_global(g, GlobalView { align, ..self.globals[g] })
    }

    pub open spec fn set_global_thread_local(self, g: int) -> ModuleView {
        self.update_global(g, GlobalView { thread_loc: true, ..self.globals[g] })
    }

    pub open spec fn push_global_chunk(self, g: int, c: Chunk) -> ModuleView {
        self.update_global(g, GlobalView { chunks: self.globals[g].chunks.push(c), ..self.globals[g] })
    }

    pub open spec fn push_global_data(self, g: int, d: Seq<u8>) -> ModuleView {
        self.update_global(g, GlobalView { data: self.globals[g].data.push(d), ..self.globals[g] })
    }

    // -- reading the model ---------------------------------------------------

    pub open spec fn has_function(self, f: Function) -> bool {
        f.0 < self.functions.len()
    }

    pub open spec fn has_global(self, g: Global) -> bool {
        g.0 < self.globals.len()
    }

    pub open spec fn has_block(self, bb: BasicBlock) -> bool {
        &&& self.has_function(bb.function)
        &&& bb.index < self.functions[bb.function.0 as int].basic_blocks.len()
    }

    /// The instructions of a block.
    pub open spec fn block_instructions(self, bb: BasicBlock) -> Seq<InstructionView> {
        self.functions[bb.function.0 as int].basic_blocks[bb.index as int].instructions
    }

    /// The number of value slots of a function.
    pub open spec fn slot_count(self, f: Function) -> nat {
        self.functions[f.0 as int].slots.len()
    }

    /// Whether a slot is a value or a constant of this module.
    pub open spec fn scalar_defined(self, s: Slot) -> bool {
        match s {
            Slot::Value(f, i) => self.has_function(f) && i < self.slot_count(f),
            Slot::Const(i) => i < self.consts.len(),
            _ => false,
        }
    }

    /// The type of a value or a constant.
    pub open spec fn scalar_type(self, s: Slot) -> Type {
        match s {
            Slot::Value(f, i) => self.functions[f.0 as int].slots[i as int].ty,
            Slot::Const(i) => self.consts[i as int].ty,
            _ => Type::Void,
        }
    }

    /// Whether a slot is a pair or a constant pair of this module.
    pub open spec fn pair_defined(self, s: Slot) -> bool {
        match s {
            Slot::Pair(f, i) => self.has_function(f) && i < self.functions[f.0 as int].slot_pairs.len(),
            Slot::CPair(i) => i < self.const_pairs.len(),
            _ => false,
        }
    }

    /// The record of a pair.
    pub open spec fn pair_ref(self, s: Slot) -> PairRef {
        match s {
            Slot::Pair(f, i) => self.functions[f.0 as int].slot_pairs[i as int],
            Slot::CPair(i) => self.const_pairs[i as int],
            _ => PairRef { slot_a: 0, slot_b: 0, offset_b: 0 },
        }
    }

    /// Whether both halves of a pair record decode to values or constants.
    pub open spec fn pair_halves_typed(self, p: PairRef) -> bool {
        &&& decodable(p.slot_a)
        &&& decodable(p.slot_b)
        &&& self.scalar_defined(decoded_slot(p.slot_a))
        &&& self.scalar_defined(decoded_slot(p.slot_b))
    }

    /// Whether `type_of_slot` gives a type for the slot.
    pub open spec fn slot_typed(self, s: Slot) -> bool {
        ||| self.scalar_defined(s)
        ||| self.pair_defined(s) && self.pair_halves_typed(self.pair_ref(s))
    }

    /// The type of a slot.
    pub open spec fn slot_type(self, s: Slot) -> FullType {
        if self.pair_defined(s) {
            let p = self.pair_ref(s);
            FullType::Pair(
                self.scalar_type(decoded_slot(p.slot_a)),
                self.scalar_type(decoded_slot(p.slot_b)),
                p.offset_b,
            )
        } else {
            FullType::Single(self.scalar_type(s))
        }
    }

    /// Whether a pair's halves can be read back.
    pub open spec fn pair_readable(self, s: Slot) -> bool {
        &&& self.pair_defined(s)
        &&& decodable(self.pair_ref(s).slot_a)
        &&& decodable(self.pair_ref(s).slot_b)
    }

    /// Whether an operand gives its type to a result: a value of the block's
    /// own function or a constant.
    pub open spec fn operand_typed(self, bb: BasicBlock, op: Slot) -> bool {
        match op {
            Slot::Value(f, v) => f == bb.function && self.has_function(f) && v < self.slot_count(f),
            Slot::Const(v) => v < self.consts.len(),
            _ => false,
        }
    }

    // -- emitting instructions -----------------------------------------------

    /// Whether an instruction with these operands and this result type can be
    /// appended to the block: the slots of a result must be numbered in 32
    /// bits.
    pub open spec fn can_emit(self, bb: BasicBlock, ops: Seq<Slot>, ret: Option<FullType>) -> bool {
        &&& self.has_block(bb)
        &&& all_encodable(ops)
        &&& !(ret matches Some(FullType::Memory { .. }))
        &&& ret is Some ==> self.slot_count(bb.function) + 2 <= u32::MAX
    }

    /// The module after appending the instruction, with fresh slots for
    /// its result: one slot, or two slots joined in a pair whose second half
    /// an `AddRet` instruction defines.
    pub open spec fn emit(
        self,
        bb: BasicBlock,
        kind: InstructionKind,
        ops: Seq<Slot>,
        ret: Option<FullType>,
    ) -> ModuleView {
        let f = bb.function.0 as int;
        let b = bb.index as int;
        let n = self.slot_count(bb.function);
        match ret {
            Some(FullType::Single(ty)) => self.push_slot(f, ty).push_instruction(
                f,
                b,
                instruction_view(kind, ops, true, n as u32),
            ),
            Some(FullType::Pair(ty_a, ty_b, offset_b)) => self.push_slot(f, ty_a).push_slot(
                f,
                ty_b,
            ).push_slot_pair(
                f,
                PairRef { slot_a: n as u32, slot_b: (n + 1) as u32, offset_b },
            ).push_instruction(f, b, instruction_view(kind, ops, true, n as u32)).push_instruction(
                f,
                b,
                InstructionView {
                    kind: InstructionKind::AddRet,
                    ops: Seq::empty(),
                    has_result: true,
                    result: (n + 1) as u32,
                },
            ),
            _ => self.push_instruction(f, b, instruction_view(kind, ops, false, 0)),
        }
    }

    /// The slot that stands for the result of an emitted instruction.
    pub open spec fn emit_result(self, bb: BasicBlock, ret: Option<FullType>) -> Option<Slot> {
        match ret {
            Some(FullType::Single(_)) => Some(
                Slot::Value(bb.function, self.slot_count(bb.function) as u32),
            ),
            Some(FullType::Pair(_, _, _)) => Some(
                Slot::Pair(
                    bb.function,
                    self.functions[bb.function.0 as int].slot_pairs.len() as u32,
                ),
            ),
            _ => None,
        }
    }
}

// ---------------------------------------------------------------------------
// Building a module
// ---------------------------------------------------------------------------

impl ModuleTpde {
    /// An empty module.
    pub fn new() -> (m: Self)
        ensures
            m@ == ModuleView::empty(),
    {
        let m = Self {
            functions: Vec::new(),
            consts: Vec::new(),
            const_pairs: Vec::new(),
            globals: Vec::new(),
            relocations: Vec::new(),
        };
        assert(m@ =~= ModuleView::empty());
        m
    }

    fn create_linker_flags(linkage: Linkage) -> (flags: Flags)
        ensures
            flags == linker_flags(linkage),
    {
        Flags {
            extern_link: linkage == Linkage::AvailableExternally,
            only_local: linkage == Linkage::Internal,
            weak_link: linkage == Linkage::WeakODR || linkage == Linkage::WeakAny || linkage
                == Linkage::ExternalWeak,
        }
    }

    /// Declares a function with the slots and argument passing of `fn_sign`.
    pub fn add_function(&mut self, name: &str, fn_sign: &FunctionSignature, linkage: Linkage) -> (f: Function)
        ensures
            f == Function(old(self).functions.len() as usize),
            final(self)@ == old(self)@.push_function(new_function_view(name@, fn_sign@, linkage)),
    {
        let mut slots: Vec<ffi::Slot> = Vec::new();
        let mut i: usize = 0;
        while i < fn_sign.args.len()
            invariant
                i <= fn_sign.args.len(),
                slots@ =~= fn_sign.args@.take(i as int).map_values(|ty: Type| ffi::Slot { ty }),
            decreases fn_sign.args.len() - i,
        {
            slots.push(ffi::Slot { ty: fn_sign.args[i] });
            i = i + 1;
            assert(fn_sign.args@.take(i as int) =~= fn_sign.args@.take((i - 1) as int).push(fn_sign.args@[i - 1]));
        }
        assert(fn_sign.args@.take(i as int) =~= fn_sign.args@);
        let mut args: Vec<ArgInfo> = Vec::new();
        let mut j: usize = 0;
        while j < fn_sign.arg_infos.len()
            invariant
                j <= fn_sign.arg_infos.len(),
                args@ =~= fn_sign.arg_infos@.take(j as int),
            decreases fn_sign.arg_infos.len() - j,
        {
            args.push(fn_sign.arg_infos[j]);
            j = j + 1;
        }
        let func = ffi::Function {
            name: name.to_owned(),
            n_args: fn_sign.args.len(),
            has_ret: fn_sign.ret.is_some(),
            args,
            slots,
            slot_pairs: Vec::new(),
            flags: Self::create_linker_flags(linkage),
            has_personality: false,
            personality: 0,
            allocas: Vec::new(),
            basic_blocks: Vec::new(),
            callee_infos: Vec::new(),
        };
        assert(func@ =~= new_function_view(name@, fn_sign@, linkage));
        self.functions.push(func);
        assert(self@ =~= old(self)@.push_function(new_function_view(name@, fn_sign@, linkage)));
        Function(self.functions.len() - 1)
    }

    /// Declares a global without size, alignment or initializer.
    pub fn add_global(&mut self, name: &str, linkage: Linkage) -> (g: Global)
        ensures
            g == Global(old(self).globals.len() as usize),
            final(self)@ == old(self)@.push_global(new_global_view(name@, linkage)),
    {
        let global = ffi::Global {
            name: name.to_owned(),
            size: 0,
            align: 0,
            thread_loc: false,
            flags: Self::create_linker_flags(linkage),
            chunks: Vec::new(),
            data: Vec::new(),
        };
        assert(global@ =~= new_global_view(name@, linkage));
        self.globals.push(global);
        assert(self@ =~= old(self)@.push_global(new_global_view(name@, linkage)));
        Global(self.globals.len() - 1)
    }

    pub fn global_set_align(&mut self, global: Global, align: u32)
        requires
            old(self)@.has_global(global),
        ensures
            final(self)@ == old(self)@.set_global_align(global.0 as int, align),
    {
        self.globals[global.0].align = align;
        assert(self@ =~= old(self)@.set_global_align(global.0 as int, align));
    }

    /// Makes a global thread-local.
    pub fn global_set_thread_local(&mut self, global: Global)
        requires
            old(self)@.has_global(global),
        ensures
            final(self)@ == old(self)@.set_global_thread_local(global.0 as int),
    {
        self.globals[global.0].thread_loc = true;
        assert(self@ =~= old(self)@.set_global_thread_local(global.0 as int));
    }

    /// Appends an uninitialised chunk of `size` bytes to a global.
    pub fn global_add_unit_chunk(&mut self, global: Global, size: u32)
        requires
            old(self)@.has_global(global),
        ensures
            final(self)@ == old(self)@.push_global_chunk(
                global.0 as int,
                Chunk { type_: ChunkType::UnInit, data: size },
            ),
    {
        self.globals[global.0].chunks.push(Chunk { type_: ChunkType::UnInit, data: size });
        assert(self@ =~= old(self)@.push_global_chunk(
            global.0 as int,
            Chunk { type_: ChunkType::UnInit, data: size },
        ));
    }

    /// Appends an initialised chunk holding `chunk` to a global.
    pub fn global_add_init_chunk(&mut self, global: Global, chunk: &[u8])
        requires
            old(self)@.has_global(global),
            old(self)@.globals[global.0 as int].data.len() < u32::MAX,
        ensures
            final(self)@ == old(self)@.push_global_data(global.0 as int, chunk@).push_global_chunk(
                global.0 as int,
                Chunk {
                    type_: ChunkType::Init,
                    data: old(self)@.globals[global.0 as int].data.len() as u32,
                },
            ),
    {
        let ghost m0 = self@;
        let bytes = ffi::ChunkData { data: vstd::slice::slice_to_vec(chunk) };
        assert(bytes.data@ == chunk@);
        let g = &mut self.globals[global.0];
        g.data.push(bytes);
        let index = g.data.len() as u32 - 1;
        g.chunks.push(Chunk { type_: ChunkType::Init, data: index });
        assert(self.globals@[global.0 as int]@ =~= m0.push_global_data(global.0 as int, chunk@).push_global_chunk(
            global.0 as int,
            Chunk { type_: ChunkType::Init, data: index },
        ).globals[global.0 as int]);
        assert(self@ =~= m0.push_global_data(global.0 as int, chunk@).push_global_chunk(
            global.0 as int,
            Chunk { type_: ChunkType::Init, data: index },
        ));
    }

    /// Appends a relocation chunk to a global: a pointer at byte `offset`
    /// of its initializer to `ptr`; the relocation itself is recorded in the
    /// module.
    pub fn global_add_reloc_chunk(&mut self, global: Global, offset: u32, ptr: Slot)
        requires
            old(self)@.has_global(global),
            old(self)@.relocations.len() < u32::MAX,
            encodable(ptr),
        ensures
            final(self)@ == old(self)@.push_relocation(
                Relocation { offset, slot: slot_encoding(ptr) },
            ).push_global_chunk(
                global.0 as int,
                Chunk { type_: ChunkType::Reloc, data: old(self)@.relocations.len() as u32 },
            ),
    {
        let ghost m0 = self@;
        let slot = ptr.to_ffi();
        self.relocations.push(Relocation { offset, slot });
        let index = self.relocations.len() as u32 - 1;
        self.globals[global.0].chunks.push(Chunk { type_: ChunkType::Reloc, data: index });
        assert(self@ =~= m0.push_relocation(Relocation { offset, slot }).push_global_chunk(
            global.0 as int,
            Chunk { type_: ChunkType::Reloc, data: index },
        ));
    }

    /// The slot of the `index`-th value of a function (its arguments first).
    pub fn get_slot(&self, func: Function, index: u32) -> (s: Slot)
        ensures
            s == Slot::Value(func, index),
    {
        Slot::new_val(func, index)
    }

    fn get_function_mut(&mut self, func: &Function) -> (f: &mut ffi::Function)
        requires
            old(self)@.has_function(*func),
        ensures
            *f == old(self).functions@[func.0 as int],
            final(self).functions@ == old(self).functions@.update(func.0 as int, *final(f)),
            final(self).consts == old(self).consts,
            final(self).const_pairs == old(self).const_pairs,
            final(self).globals == old(self).globals,
            final(self).relocations == old(self).relocations,
    {
        &mut self.functions[func.0]
    }

    fn get_function(&self, func: &Function) -> (f: &ffi::Function)
        requires
            self@.has_function(*func),
        ensures
            *f == self.functions@[func.0 as int],
    {
        &self.functions[func.0]
    }

    /// Appends an empty basic block named `name` to a function.
    pub fn add_basic_block(&mut self, func: &Function, name: &str) -> (bb: BasicBlock)
        requires
            old(self)@.has_function(*func),
        ensures
            bb == (BasicBlock {
                function: *func,
                index: old(self)@.functions[func.0 as int].basic_blocks.len() as usize,
            }),
            final(self)@ == old(self)@.push_block(func.0 as int, new_block_view(name@)),
    {
        let ghost m0 = self@;
        let block = ffi::BasicBlock {
            name: name.to_owned(),
            instructions: Vec::new(),
            info1: 0,
            info2: 0,
        };
        assert(block@ =~= new_block_view(name@));
        let function = self.get_function_mut(func);
        function.basic_blocks.push(block);
        let index = function.basic_blocks.len() - 1;
        assert(self.functions@[func.0 as int]@ =~= m0.push_block(func.0 as int, new_block_view(name@)).functions[func.0 as int]);
        assert(self@ =~= m0.push_block(func.0 as int, new_block_view(name@)));
        BasicBlock::new(*func, index)
    }

    fn get_basic_block(&self, bb: BasicBlock) -> (b: &ffi::BasicBlock)
        requires
            self@.has_block(bb),
        ensures
            *b == self.functions@[bb.function.0 as int].basic_blocks@[bb.index as int],
    {
        let function = self.get_function(&bb.function());
        &function.basic_blocks[bb.index()]
    }

    /// The block `bb` of a function, to change in place.
    fn get_basic_block_mut_helper(func: &mut ffi::Function, bb: BasicBlock) -> (b: &mut ffi::BasicBlock)
        requires
            bb.index < old(func).basic_blocks@.len(),
        ensures
            *b == old(func).basic_blocks@[bb.index as int],
            *final(func) == (ffi::Function {
                basic_blocks: final(func).basic_blocks,
                ..*old(func)
            }),
            final(func).basic_blocks@ == old(func).basic_blocks@.update(bb.index as int, *final(b)),
    {
        &mut func.basic_blocks[bb.index()]
    }

    /// The block `bb`, to change in place.
    fn get_basic_block_mut(&mut self, bb: BasicBlock) -> (b: &mut ffi::BasicBlock)
        requires
            old(self)@.has_block(bb),
        ensures
            *b == old(self).functions@[bb.function.0 as int].basic_blocks@[bb.index as int],
            final(self).functions@ == old(self).functions@.update(
                bb.function.0 as int,
                ffi::Function {
                    basic_blocks: final(self).functions@[bb.function.0 as int].basic_blocks,
                    ..old(self).functions@[bb.function.0 as int]
                },
            ),
            final(self).functions@[bb.function.0 as int].basic_blocks@ == old(
                self,
            ).functions@[bb.function.0 as int].basic_blocks@.update(bb.index as int, *final(b)),
            final(self).consts == old(self).consts,
            final(self).const_pairs == old(self).const_pairs,
            final(self).globals == old(self).globals,
            final(self).relocations == old(self).relocations,
    {
        let function = self.get_function_mut(&bb.function());
        Self::get_basic_block_mut_helper(function, bb)
    }

    /// Appends an instruction record to a block.
    fn push_instruction(&mut self, bb: BasicBlock, instruction: ffi::Instruction)
        requires
            old(self)@.has_block(bb),
        ensures
            final(self)@ == old(self)@.push_instruction(
                bb.function.0 as int,
                bb.index as int,
                instruction@,
            ),
    {
        let ghost m0 = self@;
        let ghost iv = instruction@;
        let ghost f = bb.function.0 as int;
        let ghost b = bb.index as int;
        let basic_block = self.get_basic_block_mut(bb);
        basic_block.instructions.push(instruction);
        assert(self.functions@[f].basic_blocks@[b]@ =~= m0.push_instruction(f, b, iv).functions[f].basic_blocks[b]);
        assert(self.functions@[f]@ =~= m0.push_instruction(f, b, iv).functions[f]);
        assert(self@ =~= m0.push_instruction(f, b, iv));
    }

    /// Encodes each operand.
    fn encode_operands(ops: &[Slot]) -> (encoded: Vec<u32>)
        requires
            all_encodable(ops@),
        ensures
            encoded@ == encode_all(ops@),
    {
        let mut encoded: Vec<u32> = Vec::new();
        let mut i: usize = 0;
        while i < ops.len()
            invariant
                i <= ops.len(),
                all_encodable(ops@),
                encoded@ =~= encode_all(ops@.take(i as int)),
            decreases ops.len() - i,
        {
            encoded.push(ops[i].to_ffi());
            i = i + 1;
            assert(ops@.take(i as int) =~= ops@.take((i - 1) as int).push(ops@[i - 1]));
        }
        assert(ops@.take(i as int) =~= ops@);
        encoded
    }

    #[inline]
    fn add_instruction_raw_internal(
        &mut self,
        bb: BasicBlock,
        instr: InstructionKind,
        ops: &[Slot],
        ret: Option<FullType>,
    ) -> (r: Option<Slot>)
        requires
            old(self)@.can_emit(bb, ops@, ret),
        ensures
            r == old(self)@.emit_result(bb, ret),
            final(self)@ == old(self)@.emit(bb, instr, ops@, ret),
    {
        let ghost m0 = self@;
        let rtype: ReturnType = match ret {
            Some(FullType::Single(ty)) => ReturnType::Single(self.add_slot(bb.function, ty)),
            Some(FullType::Pair(ty_a, ty_b, offset_b)) => {
                let slot_a = self.add_slot(bb.function, ty_a);
                let slot_b = self.add_slot(bb.function, ty_b);
                let pair = self.add_pair(bb.function, slot_a, slot_b, offset_b);
                ReturnType::Pair(pair, slot_a, slot_b)
            },
            _ => ReturnType::Nothing,
        };
        let ghost m1 = self@;
        let instruction = ffi::Instruction {
            kind: instr,
            ops: Self::encode_operands(ops),
            has_result: rtype.num_ret() >= 1,
            result: rtype.result_a(),
        };
        self.push_instruction(bb, instruction);
        if rtype.num_ret() >= 2 {
            self.push_instruction(
                bb,
                ffi::Instruction {
                    kind: InstructionKind::AddRet,
                    ops: Vec::new(),
                    has_result: true,
                    result: rtype.result_b(),
                },
            );
        }
        assert(self@ =~= m0.emit(bb, instr, ops@, ret));
        rtype.result()
    }

    /// Appends an instruction without result.
    #[inline]
    pub fn add_instruction(&mut self, bb: BasicBlock, instr: InstructionKind, ops: Vec<Slot>)
        requires
            old(self)@.can_emit(bb, ops@, None),
        ensures
            final(self)@ == old(self)@.emit(bb, instr, ops@, None),
    {
        self.add_instruction_raw_internal(bb, instr, ops.as_slice(), None);
    }

    /// Appends an instruction whose result has type `ret`; returns its slot.
    #[inline]
    pub fn add_instruction_ret(
        &mut self,
        bb: BasicBlock,
        instr: InstructionKind,
        ops: Vec<Slot>,
        ret: Type,
    ) -> (s: Slot)
        requires
            old(self)@.can_emit(bb, ops@, Some(FullType::Single(ret))),
        ensures
            s == Slot::Value(bb.function, old(self)@.slot_count(bb.function) as u32),
            final(self)@ == old(self)@.emit(bb, instr, ops@, Some(FullType::Single(ret))),
    {
        let r = self.add_instruction_raw_internal(
            bb,
            instr,
            ops.as_slice(),
            Some(FullType::Single(ret)),
        );
        match r {
            Some(s) => s,
            None => Slot::Raw(0),
        }
    }

    /// Appends an instruction whose result has the type of its operand at
    /// position `x`, which must be a value of the same function or a constant.
    pub fn add_instruction_ret_x(
        &mut self,
        bb: BasicBlock,
        instr: InstructionKind,
        ops: Vec<Slot>,
        x: usize,
    ) -> (s: Slot)
        requires
            x < ops.len(),
            old(self)@.operand_typed(bb, ops@[x as int]),
            old(self)@.can_emit(bb, ops@, None),
            old(self)@.slot_count(bb.function) + 2 <= u32::MAX,
        ensures
            s == Slot::Value(bb.function, old(self)@.slot_count(bb.function) as u32),
            final(self)@ == old(self)@.emit(
                bb,
                instr,
                ops@,
                Some(FullType::Single(old(self)@.scalar_type(ops@[x as int]))),
            ),
    {
        let op = ops[x];
        let ret = match op {
            Slot::Value(_, v) => self.get_function(&bb.function()).slots[v as usize].ty,
            Slot::Const(v) => self.consts[v as usize].ty,
            _ => Type::Void,
        };
        self.add_instruction_ret(bb, instr, ops, ret)
    }

    /// Appends an instruction whose result has the type of its first
    /// operand, which must be a value of the same function or a constant.
    #[inline]
    pub fn add_instruction_ret_first(
        &mut self,
        bb: BasicBlock,
        instr: InstructionKind,
        ops: Vec<Slot>,
    ) -> (s: Slot)
        requires
            ops.len() >= 1,
            old(self)@.operand_typed(bb, ops@[0]),
            old(self)@.can_emit(bb, ops@, None),
            old(self)@.slot_count(bb.function) + 2 <= u32::MAX,
        ensures
            s == Slot::Value(bb.function, old(self)@.slot_count(bb.function) as u32),
            final(self)@ == old(self)@.emit(
                bb,
                instr,
                ops@,
                Some(FullType::Single(old(self)@.scalar_type(ops@[0]))),
            ),
    {
        let func = self.get_function(&bb.function());
        let op = ops[0];
        // create new slot with type of first arg
        let ret = match op {
            Slot::Value(_, v) => func.slots[v as usize].ty,
            Slot::Const(v) => self.consts[v as usize].ty,
            _ => Type::Void,
        };
        let r = self.add_instruction_raw_internal(
            bb,
            instr,
            ops.as_slice(),
            Some(FullType::Single(ret)),
        );
        match r {
            Some(s) => s,
            None => Slot::Raw(0),
        }
    }

    /// Appends a value slot of type `ty` to a function.
    #[inline]
    pub fn add_slot(&mut self, func: Function, ty: Type) -> (s: Slot)
        requires
            old(self)@.has_function(func),
            old(self)@.slot_count(func) < u32::MAX,
        ensures
            s == Slot::Value(func, old(self)@.slot_count(func) as u32),
            final(self)@ == old(self)@.push_slot(func.0 as int, ty),
    {
        let ghost m0 = self@;
        let slots = &mut self.functions[func.0].slots;
        slots.push(ffi::Slot { ty });
        let index = slots.len() as u32 - 1;
        assert(self.functions@[func.0 as int]@ =~= m0.push_slot(func.0 as int, ty).functions[func.0 as int]);
        assert(self@ =~= m0.push_slot(func.0 as int, ty));
        Slot::new_val(func, index)
    }

    /// Records a pair of two slots of a function.
    pub fn add_pair(&mut self, func: Function, slot_a: Slot, slot_b: Slot, offset_b: u8) -> (s: Slot)
        requires
            old(self)@.has_function(func),
            encodable(slot_a),
            encodable(slot_b),
        ensures
            s == Slot::Pair(func, old(self)@.functions[func.0 as int].slot_pairs.len() as u32),
            final(self)@ == old(self)@.push_slot_pair(
                func.0 as int,
                PairRef { slot_a: slot_encoding(slot_a), slot_b: slot_encoding(slot_b), offset_b },
            ),
    {
        let ghost m0 = self@;
        let pair = PairRef { slot_a: slot_a.to_ffi(), slot_b: slot_b.to_ffi(), offset_b };
        let slot_pairs = &mut self.functions[func.0].slot_pairs;
        slot_pairs.push(pair);
        let index = (slot_pairs.len() - 1) as u32;
        assert(self.functions@[func.0 as int]@ =~= m0.push_slot_pair(func.0 as int, pair).functions[func.0 as int]);
        assert(self@ =~= m0.push_slot_pair(func.0 as int, pair));
        Slot::new_pair(func, index)
    }
}

impl ModuleTpde {
    /// Appends a call of `func_ref` with `args`; its result, if the
    /// signature has one, gets fresh slots.
    pub fn add_call(
        &mut self,
        bb: BasicBlock,
        func_ref: Slot,
        func_sign: &FunctionSignature,
        args: &[Slot],
    ) -> (r: Option<Slot>)
        requires
            old(self)@.can_emit(bb, seq![func_ref] + args@, func_sign.ret),
        ensures
            r == old(self)@.emit_result(bb, func_sign.ret),
            final(self)@ == old(self)@.emit(
                bb,
                InstructionKind::Call,
                seq![func_ref] + args@,
                func_sign.ret,
            ),
    {
        let mut ops: Vec<Slot> = Vec::new();
        ops.push(func_ref);
        let mut i: usize = 0;
        while i < args.len()
            invariant
                i <= args.len(),
                ops@ =~= seq![func_ref] + args@.take(i as int),
            decreases args.len() - i,
        {
            ops.push(args[i]);
            i = i + 1;
        }
        assert(args@.take(i as int) =~= args@);
        self.add_instruction_raw_internal(bb, InstructionKind::Call, ops.as_slice(), func_sign.ret)
    }

    /// Reserves a stack allocation in a function.
    pub fn add_alloca(&mut self, func: Function, size: usize, align: usize) -> (s: Slot)
        requires
            old(self)@.has_function(func),
        ensures
            s == Slot::Alloc(old(self)@.functions[func.0 as int].allocas.len() as u32),
            final(self)@ == old(self)@.push_alloca(func.0 as int, ffi::Alloca { size, align }),
    {
        let ghost m0 = self@;
        let ghost fi = func.0 as int;
        let function = self.get_function_mut(&func);
        function.allocas.push(ffi::Alloca { size, align });
        let index = (function.allocas.len() - 1) as u32;
        assert(self.functions@[fi]@ =~= m0.push_alloca(fi, ffi::Alloca { size, align }).functions[fi]);
        assert(self@ =~= m0.push_alloca(fi, ffi::Alloca { size, align }));
        Slot::new_alloc(index)
    }

    /// Records a constant of type `ty` with the bits `data`.
    pub fn add_const(&mut self, ty: Type, data: u128) -> (s: Slot)
        ensures
            s == Slot::Const(old(self)@.consts.len() as u32),
            final(self)@ == old(self)@.push_const(
                Value { ty, data1: ffi::high_half(data), data2: ffi::low_half(data) },
            ),
    {
        let ghost m0 = self@;
        let consts = &mut self.consts;
        consts.push(Value::new(ty, data));
        let index = (consts.len() - 1) as u32;
        assert(self@ =~= m0.push_const(
            Value { ty, data1: ffi::high_half(data), data2: ffi::low_half(data) },
        ));
        Slot::new_const(index)
    }

    /// Records a constant pair of two encodable slots.
    pub fn add_const_pair(&mut self, slot_a: Slot, slot_b: Slot, offset_b: u8) -> (s: Slot)
        requires
            encodable(slot_a),
            encodable(slot_b),
        ensures
            s == Slot::CPair(old(self)@.const_pairs.len() as u32),
            final(self)@ == old(self)@.push_const_pair(
                PairRef { slot_a: slot_encoding(slot_a), slot_b: slot_encoding(slot_b), offset_b },
            ),
    {
        let ghost m0 = self@;
        let pair = PairRef { slot_a: slot_a.to_ffi(), slot_b: slot_b.to_ffi(), offset_b };
        let const_pairs = &mut self.const_pairs;
        const_pairs.push(pair);
        let index = (const_pairs.len() - 1) as u32;
        assert(self@ =~= m0.push_const_pair(pair));
        Slot::new_cpair(index)
    }

    /// Records two constants and the constant pair of them.
    pub fn add_const_pair_values(
        &mut self,
        ty_a: Type,
        ty_b: Type,
        offset_b: u8,
        data_a: u128,
        data_b: u128,
    ) -> (s: Slot)
        ensures
            s == Slot::CPair(old(self)@.const_pairs.len() as u32),
            final(self)@ == old(self)@.push_const(
                Value { ty: ty_a, data1: ffi::high_half(data_a), data2: ffi::low_half(data_a) },
            ).push_const(
                Value { ty: ty_b, data1: ffi::high_half(data_b), data2: ffi::low_half(data_b) },
            ).push_const_pair(
                PairRef {
                    slot_a: slot_encoding(Slot::Const(old(self)@.consts.len() as u32)),
                    slot_b: slot_encoding(Slot::Const((old(self)@.consts.len() + 1) as u32)),
                    offset_b,
                },
            ),
    {
        let slot_a = self.add_const(ty_a, data_a);
        let slot_b = self.add_const(ty_b, data_b);
        self.add_const_pair(slot_a, slot_b, offset_b)
    }

    /// The two halves of a pair and the offset of the second.
    pub fn extract_vals(&self, pair: Slot) -> (r: (Slot, Slot, u8))
        requires
            self@.pair_readable(pair),
        ensures
            r == (
                decoded_slot(self@.pair_ref(pair).slot_a),
                decoded_slot(self@.pair_ref(pair).slot_b),
                self@.pair_ref(pair).offset_b,
            ),
    {
        let v = match pair {
            Slot::CPair(ind) => self.const_pairs[ind as usize],
            Slot::Pair(func, ind) => self.functions[func.0].slot_pairs[ind as usize],
            _ => PairRef { slot_a: 0, slot_b: 0, offset_b: 0 },
        };
        (Slot::from_ffi(v.slot_a), Slot::from_ffi(v.slot_b), v.offset_b)
    }

    /// Appends a branch to `to`.
    pub fn add_br(&mut self, bb: BasicBlock, to: BasicBlock)
        requires
            old(self)@.can_emit(bb, seq![Slot::Raw(to.index as u32)], None),
        ensures
            final(self)@ == old(self)@.emit(
                bb,
                InstructionKind::Br,
                seq![Slot::Raw(to.index as u32)],
                None,
            ),
    {
        let mut ops: Vec<Slot> = Vec::new();
        ops.push(Slot::new_raw(to.index as u32));
        assert(ops@ =~= seq![Slot::Raw(to.index as u32)]);
        self.add_instruction(bb, InstructionKind::Br, ops);
    }

    /// Appends a conditional branch on `cond`.
    pub fn add_cond_br(
        &mut self,
        bb: BasicBlock,
        cond: Slot,
        thenbb: BasicBlock,
        elsebb: BasicBlock,
    )
        requires
            old(self)@.can_emit(
                bb,
                seq![cond, Slot::Raw(thenbb.index as u32), Slot::Raw(elsebb.index as u32)],
                None,
            ),
        ensures
            final(self)@ == old(self)@.emit(
                bb,
                InstructionKind::CondBr,
                seq![cond, Slot::Raw(thenbb.index as u32), Slot::Raw(elsebb.index as u32)],
                None,
            ),
    {
        let mut ops: Vec<Slot> = Vec::new();
        ops.push(cond);
        ops.push(Slot::new_raw(thenbb.index as u32));
        ops.push(Slot::new_raw(elsebb.index as u32));
        assert(ops@ =~= seq![cond, Slot::Raw(thenbb.index as u32), Slot::Raw(elsebb.index as u32)]);
        self.add_instruction(bb, InstructionKind::CondBr, ops);
    }

    /// The type of a slot: a scalar for values and constants, the two
    /// halves' types and the offset for pairs.
    pub fn type_of_slot(&self, slot: Slot) -> (t: FullType)
        requires
            self@.slot_typed(slot),
        ensures
            t == self@.slot_type(slot),
        decreases
                (if slot is Pair || slot is CPair {
                    1int
                } else {
                    0int
                }),
    {
        match slot {
            Slot::Value(func, ind) => FullType::Single(self.functions[func.0].slots[ind as usize].ty),
            Slot::Pair(func, ind) => {
                let func = &self.functions[func.0];
                let pair = func.slot_pairs[ind as usize];
                let slot_a = match self.type_of_slot(Slot::from_ffi(pair.slot_a)) {
                    FullType::Single(t) => t,
                    _ => Type::Void,
                };
                let slot_b = match self.type_of_slot(Slot::from_ffi(pair.slot_b)) {
                    FullType::Single(t) => t,
                    _ => Type::Void,
                };
                FullType::Pair(slot_a, slot_b, pair.offset_b)
            },
            Slot::Const(ind) => FullType::Single(self.consts[ind as usize].ty),
            Slot::CPair(ind) => {
                let pair = self.const_pairs[ind as usize];
                let slot_a = match self.type_of_slot(Slot::from_ffi(pair.slot_a)) {
                    FullType::Single(t) => t,
                    _ => Type::Void,
                };
                let slot_b = match self.type_of_slot(Slot::from_ffi(pair.slot_b)) {
                    FullType::Single(t) => t,
                    _ => Type::Void,
                };
                FullType::Pair(slot_a, slot_b, pair.offset_b)
            },
            _ => FullType::Memory { sized: false },
        }
    }

    /// Names `personality` as the personality function of `func`.
    pub fn add_personality(&mut self, func: Function, personality: Function)
        requires
            old(self)@.has_function(func),
        ensures
            final(self)@ == old(self)@.set_personality(func.0 as int, personality.0 as u32),
    {
        let ghost m0 = self@;
        let f = self.get_function_mut(&func);
        f.has_personality = true;
        f.personality = personality.0 as u32;
        assert(self.functions@[func.0 as int]@ =~= m0.set_personality(func.0 as int, personality.0 as u32).functions[func.0 as int]);
        assert(self@ =~= m0.set_personality(func.0 as int, personality.0 as u32));
    }
}

impl Slot {
    /// The two halves of a pair, or `None` for any other slot.
    pub fn pair_slots(&self, module: &ModuleTpde) -> (r: Option<(Slot, Slot)>)
        requires
            (self is Pair || self is CPair) ==> module@.pair_readable(*self),
        ensures
            r == (if self is Pair || self is CPair {
                Some(
                    (
                        decoded_slot(module@.pair_ref(*self).slot_a),
                        decoded_slot(module@.pair_ref(*self).slot_b),
                    ),
                )
            } else {
                None
            }),
    {
        let pair = match self {
            Slot::Pair(func, ind) => module.functions[func.0].slot_pairs[*ind as usize],
            Slot::CPair(ind) => module.const_pairs[*ind as usize],
            _ => return None,
        };
        Some((Slot::from_ffi(pair.slot_a), Slot::from_ffi(pair.slot_b)))
    }
}

/// The slots that stand for an instruction's result while it is emitted.
enum ReturnType {
    Nothing,
    Single(Slot),
    Pair(Slot, Slot, Slot),
}

impl ReturnType {
    fn num_ret(&self) -> (n: u8)
        ensures
            n == match *self {
                ReturnType::Nothing => 0u8,
                ReturnType::Single(_) => 1,
                ReturnType::Pair(_, _, _) => 2,
            },
    {
        match self {
            ReturnType::Nothing => 0,
            ReturnType::Single(_) => 1,
            ReturnType::Pair(_, _, _) => 2,
        }
    }

    fn result_a(&self) -> (x: u32)
        requires
            match *self {
                ReturnType::Nothing => true,
                ReturnType::Single(s) => encodable(s),
                ReturnType::Pair(_, a, _) => encodable(a),
            },
        ensures
            x == match *self {
                ReturnType::Nothing => 0u32,
                ReturnType::Single(s) => slot_encoding(s),
                ReturnType::Pair(_, a, _) => slot_encoding(a),
            },
    {
        match self {
            ReturnType::Nothing => 0,
            ReturnType::Single(slot) => slot.to_ffi(),
            ReturnType::Pair(_, a, _) => a.to_ffi(),
        }
    }

    fn result_b(&self) -> (x: u32)
        requires
            match *self {
                ReturnType::Pair(_, _, b) => encodable(b),
                _ => true,
            },
        ensures
            x == match *self {
                ReturnType::Pair(_, _, b) => slot_encoding(b),
                _ => 0u32,
            },
    {
        match self {
            ReturnType::Nothing => 0,
            ReturnType::Single(_) => 0,
            ReturnType::Pair(_, _, b) => b.to_ffi(),
        }
    }

    fn result(&self) -> (r: Option<Slot>)
        ensures
            r == match *self {
                ReturnType::Nothing => None,
                ReturnType::Single(s) => Some(s),
                ReturnType::Pair(p, _, _) => Some(p),
            },
    {
        match self {
            ReturnType::Nothing => None,
            ReturnType::Single(slot) => Some(*slot),
            ReturnType::Pair(slot, _, _) => Some(*slot),
        }
    }
}

} // verus!
