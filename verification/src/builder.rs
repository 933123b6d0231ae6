//! Emitting the instructions of one basic block: arithmetic, comparisons,
//! casts, memory accesses, calls and control flow.
use crate::context::CodegenCx;
use crate::ffi::{InstructionKind, ModuleTpde, ModuleView, Type};
use crate::ir::{
    decoded_slot, encodable, has_known_size, type_size, BasicBlock, FullType, Function, Slot,
};
use crate::types::{BackendRepr, Scalar, cast_backend_type, cast_supported, cast_type, int_width, int_width_of, is_int_type, type_i8, ArgAbi, PassMode};
use vstd::prelude::*;

verus! {

/// Emits instructions into the block it is positioned at.
#[derive(Debug, Copy, Clone, PartialEq, Eq, Structural)]
pub struct Builder {
    pub basic_block: BasicBlock,
}

/// The arithmetic of an overflow-checked operation.
#[derive(Debug, Copy, Clone, PartialEq, Eq, Structural)]
pub enum OverflowOp {
    Add,
    Sub,
    Mul,
}

/// The comparisons of integers.
#[derive(Debug, Copy, Clone, PartialEq, Eq, Structural)]
pub enum IntPredicate {
    IntEQ,
    IntNE,
    IntUGT,
    IntUGE,
    IntULT,
    IntULE,
    IntSGT,
    IntSGE,
    IntSLT,
    IntSLE,
}

/// The comparisons of floating-point numbers.
#[derive(Debug, Copy, Clone, PartialEq, Eq, Structural)]
pub enum RealPredicate {
    RealPredicateFalse,
    RealOEQ,
    RealOGT,
    RealOGE,
    RealOLT,
    RealOLE,
    RealONE,
    RealORD,
    RealUNO,
    RealUEQ,
    RealUGT,
    RealUGE,
    RealULT,
    RealULE,
    RealUNE,
    RealPredicateTrue,
}

/// The intrinsics that the code generator lowers itself.
#[derive(Debug, Copy, Clone, PartialEq, Eq, Structural)]
pub enum Intrinsic {
    BlackBox,
    Ctpop,
    /// Any other intrinsic, which the code generator does not implement.
    Other,
}

/// A loaded operand: one value, two values, or a place in memory.
#[derive(Debug, Copy, Clone, PartialEq, Eq, Structural)]
pub enum OperandValue {
    Immediate(Slot),
    Pair(Slot, Slot),
    Ref(Slot, u64),
}

// ---------------------------------------------------------------------------
// Specifications
// ---------------------------------------------------------------------------

/// Whether an instruction over `ops` whose result takes the type of operand
/// `x` can be emitted.
pub open spec fn can_emit_typed(m: ModuleView, bb: BasicBlock, ops: Seq<Slot>, x: int) -> bool {
    &&& 0 <= x < ops.len()
    &&& m.operand_typed(bb, ops[x])
    &&& m.can_emit(bb, ops, None)
    &&& m.slot_count(bb.function) + 2 <= u32::MAX
}

/// `new` is `old` after emitting an instruction whose result, `r`, takes the
/// type of operand `x`.
pub open spec fn emitted_typed(
    old: ModuleView,
    new: ModuleView,
    bb: BasicBlock,
    kind: InstructionKind,
    ops: Seq<Slot>,
    x: int,
    r: Slot,
) -> bool {
    &&& r == Slot::Value(bb.function, old.slot_count(bb.function) as u32)
    &&& new == old.emit(bb, kind, ops, Some(FullType::Single(old.scalar_type(ops[x]))))
}

/// `new` is `old` after emitting an instruction with a result of type `ty`.
pub open spec fn emitted_ret(
    old: ModuleView,
    new: ModuleView,
    bb: BasicBlock,
    kind: InstructionKind,
    ops: Seq<Slot>,
    ty: Type,
    r: Slot,
) -> bool {
    &&& r == Slot::Value(bb.function, old.slot_count(bb.function) as u32)
    &&& new == old.emit(bb, kind, ops, Some(FullType::Single(ty)))
}

/// The instruction that compares integers with a predicate.
pub open spec fn int_predicate_kind(op: IntPredicate) -> InstructionKind {
    match op {
        IntPredicate::IntEQ => InstructionKind::CMPeq,
        IntPredicate::IntNE => InstructionKind::CMPne,
        IntPredicate::IntUGT => InstructionKind::CMPugt,
        IntPredicate::IntUGE => InstructionKind::CMPuge,
        IntPredicate::IntULT => InstructionKind::CMPult,
        IntPredicate::IntULE => InstructionKind::CMPule,
        IntPredicate::IntSGT => InstructionKind::CMPsgt,
        IntPredicate::IntSGE => InstructionKind::CMPsge,
        IntPredicate::IntSLT => InstructionKind::CMPslt,
        IntPredicate::IntSLE => InstructionKind::CMPsle,
    }
}

/// The instruction that compares floating-point numbers with a predicate
/// other than the constant ones.
pub open spec fn real_predicate_kind(op: RealPredicate) -> InstructionKind {
    match op {
        RealPredicate::RealOEQ => InstructionKind::RealOEQ,
        RealPredicate::RealOGT => InstructionKind::RealOGT,
        RealPredicate::RealOGE => InstructionKind::RealOGE,
        RealPredicate::RealOLT => InstructionKind::RealOLT,
        RealPredicate::RealOLE => InstructionKind::RealOLE,
        RealPredicate::RealONE => InstructionKind::RealONE,
        RealPredicate::RealORD => InstructionKind::RealORD,
        RealPredicate::RealUNO => InstructionKind::RealUNO,
        RealPredicate::RealUEQ => InstructionKind::RealUEQ,
        RealPredicate::RealUGT => InstructionKind::RealUGT,
        RealPredicate::RealUGE => InstructionKind::RealUGE,
        RealPredicate::RealULT => InstructionKind::RealULT,
        RealPredicate::RealULE => InstructionKind::RealULE,
        _ => InstructionKind::RealUNE,
    }
}

/// The operands that return a value: both halves of a pair, else the value.
pub open spec fn ret_operands(m: ModuleView, v: Slot) -> Seq<Slot> {
    if v is Pair || v is CPair {
        seq![decoded_slot(m.pair_ref(v).slot_a), decoded_slot(m.pair_ref(v).slot_b)]
    } else {
        seq![v]
    }
}

/// The module after loading a pair: the first half at `ptr`, the second at
/// `ptr` advanced by `offset` bytes through a constant index of 1.
pub open spec fn load_pair_module(
    m: ModuleView,
    bb: BasicBlock,
    ptr: Slot,
    offset: u8,
    align: u64,
    ty_a: Type,
    ty_b: Type,
) -> ModuleView {
    let n = m.slot_count(bb.function);
    let c = m.consts.len();
    let m1 = m.emit(bb, InstructionKind::Load, seq![ptr, Slot::Raw(align as u32)], Some(FullType::Single(ty_a)));
    let m2 = m1.push_const(crate::ffi::Value { ty: Type::i64, data1: 0, data2: 1 });
    let m3 = m2.emit(
        bb,
        InstructionKind::GEP,
        seq![ptr, Slot::Raw(offset as u32), Slot::Const(c as u32)],
        Some(FullType::Single(Type::i64)),
    );
    m3.emit(
        bb,
        InstructionKind::Load,
        seq![Slot::Value(bb.function, (n + 1) as u32), Slot::Raw(align as u32)],
        Some(FullType::Single(ty_b)),
    )
}

/// The `k`-th value slot that the block's function gets from now on.
pub open spec fn fresh_value(m: ModuleView, bb: BasicBlock, k: nat) -> Slot {
    Slot::Value(bb.function, (m.slot_count(bb.function) + k) as u32)
}

/// The arithmetic instruction of an overflow-checked operation.
pub open spec fn overflow_op_kind(oop: OverflowOp) -> InstructionKind {
    match oop {
        OverflowOp::Add => InstructionKind::Add,
        OverflowOp::Sub => InstructionKind::Sub,
        OverflowOp::Mul => InstructionKind::Mul,
    }
}

/// The module after an overflow-checked operation: the arithmetic, then
/// the overflow flag. Unsigned addition overflows when the result is below
/// `lhs`, unsigned subtraction when `lhs` is below `rhs`; the other cases
/// ask the code generator for the flag.
pub open spec fn checked_binop_module(
    m: ModuleView,
    bb: BasicBlock,
    oop: OverflowOp,
    signed: bool,
    lhs: Slot,
    rhs: Slot,
) -> ModuleView {
    let n = m.slot_count(bb.function);
    let res = Slot::Value(bb.function, n as u32);
    let m1 = m.emit(bb, overflow_op_kind(oop), seq![lhs, rhs], Some(FullType::Single(m.scalar_type(lhs))));
    if !signed && oop == OverflowOp::Sub {
        m1.emit(bb, InstructionKind::CMPult, seq![lhs, rhs], Some(FullType::Single(Type::Bool)))
    } else if !signed && oop == OverflowOp::Add {
        m1.emit(bb, InstructionKind::CMPult, seq![res, lhs], Some(FullType::Single(Type::Bool)))
    } else {
        m1.emit(
            bb,
            InstructionKind::OverflowCheck,
            seq![Slot::Raw(if signed { 1u32 } else { 0u32 })],
            Some(FullType::Single(Type::Bool)),
        )
    }
}

/// The instruction that converts an integer of one width to another, or
/// none when the widths agree.
pub open spec fn intcast_kind(src_width: u64, dest_width: u64, is_signed: bool) -> Option<InstructionKind> {
    if src_width == dest_width {
        None
    } else if src_width > dest_width {
        Some(InstructionKind::Trunc)
    } else if is_signed {
        Some(InstructionKind::sExt)
    } else {
        Some(InstructionKind::zExt)
    }
}

/// The byte stride of an element type.
pub open spec fn gep_stride(ty: FullType) -> u32 {
    match ty {
        FullType::Single(t) => type_size(t),
        FullType::Pair(_, _, offset) => offset as u32,
        _ => 0,
    }
}

pub open spec fn gep_supported(ty: FullType) -> bool {
    match ty {
        FullType::Single(t) => has_known_size(t),
        FullType::Pair(_, _, _) => true,
        _ => false,
    }
}

/// The lowest set bit of `x`: the largest power of two that divides it.
pub open spec fn lowest_set_bit(x: u64) -> u64 {
    x & ((!x + 1) as u64)
}

/// The alignment that is still known at `offset` bytes past a place of
/// alignment `align`: `align`, or the largest power of two dividing the
/// offset if that is smaller.
pub open spec fn align_at_offset(align: u64, offset: u64) -> u64 {
    if offset == 0 || align <= lowest_set_bit(offset) {
        align
    } else {
        lowest_set_bit(offset)
    }
}

/// The module after storing value `a` at `dst` and value `b` at `offset`
/// bytes past it, the second with the alignment known there.
pub open spec fn store_two_module(
    m: ModuleView,
    bb: BasicBlock,
    a: Slot,
    b: Slot,
    dst: Slot,
    align: u64,
    offset: u64,
    align_b: u64,
) -> ModuleView {
    let f = bb.function;
    let m1 = m.emit(bb, InstructionKind::Store, seq![a, dst, Slot::Raw(align as u32)], None);
    let c = m1.consts.len();
    let m2 = m1.push_const(crate::ffi::Value { ty: Type::i64, data1: 0, data2: offset });
    let m3 = m2.emit(
        bb,
        InstructionKind::GEP,
        seq![dst, Slot::Raw(1), Slot::Const(c as u32)],
        Some(FullType::Single(Type::i64)),
    );
    let ptr = Slot::Value(f, m2.slot_count(f) as u32);
    m3.emit(bb, InstructionKind::Store, seq![b, ptr, Slot::Raw(align_b as u32)], None)
}

/// The module after storing the incoming argument slots of one argument,
/// numbered from `idx`, at `dst`, with the index of the next argument slot.
/// A pair stores its second half at the offset of the layout's second
/// scalar; a cast into two registers at the offset of its second register.
pub open spec fn fn_arg_module(
    m: ModuleView,
    bb: BasicBlock,
    arg: ArgAbi,
    idx: usize,
    dst: Slot,
    align: u64,
) -> (ModuleView, usize) {
    let f = bb.function;
    let a = Slot::Value(f, idx as u32);
    let b = Slot::Value(f, (idx + 1) as u32);
    let store_one = (
        m.emit(bb, InstructionKind::Store, seq![a, dst, Slot::Raw(align as u32)], None),
        (idx + 1) as usize,
    );
    match arg.mode {
        PassMode::Ignore => (m, idx),
        PassMode::Pair(_, _) => {
            let offset = arg.layout->b_offset;
            (
                store_two_module(m, bb, a, b, dst, align, offset, align_at_offset(align, offset)),
                (idx + 2) as usize,
            )
        },
        PassMode::Cast(cast) => match cast_type(cast) {
            FullType::Pair(_, _, offset_b) => (
                store_two_module(m, bb, a, b, dst, align, offset_b as u64, align),
                (idx + 2) as usize,
            ),
            _ => store_one,
        },
        _ => store_one,
    }
}

/// Whether the incoming slots of an argument can be stored: not an unsized
/// argument, whose place has metadata, and a pair only into a place laid
/// out as a pair of scalars.
pub open spec fn fn_arg_supported(arg: ArgAbi) -> bool {
    match arg.mode {
        PassMode::Indirect { has_meta, .. } => !has_meta,
        PassMode::Cast(cast) => cast_supported(cast),
        PassMode::Pair(_, _) => arg.layout is ScalarPair,
        _ => true,
    }
}

/// The alignment known at `offset` bytes past a place of alignment `align`.
fn align_at(align: u64, offset: u64) -> (a: u64)
    ensures
        a == align_at_offset(align, offset),
{
    if offset == 0 {
        return align;
    }
    assert(!offset < u64::MAX) by (bit_vector)
        requires
            offset != 0,
    ;
    let low = offset & (!offset + 1);
    if align <= low {
        align
    } else {
        low
    }
}

impl Builder {
    pub fn build(bb: BasicBlock) -> (b: Self)
        ensures
            b.basic_block == bb,
    {
        Builder { basic_block: bb }
    }

    pub fn llbb(&self) -> (bb: BasicBlock)
        ensures
            bb == self.basic_block,
    {
        self.basic_block
    }

    pub fn switch_to_block(&mut self, llbb: BasicBlock)
        ensures
            final(self).basic_block == llbb,
    {
        self.basic_block = llbb;
    }

    /// Appends a block named `name` to a function.
    pub fn append_block(module: &mut ModuleTpde, tpde_fn: Function, name: &str) -> (bb: BasicBlock)
        requires
            old(module)@.has_function(tpde_fn),
        ensures
            bb == (BasicBlock {
                function: tpde_fn,
                index: old(module)@.functions[tpde_fn.0 as int].basic_blocks.len() as usize,
            }),
            final(module)@ == old(module)@.push_block(
                tpde_fn.0 as int,
                crate::ir::new_block_view(name@),
            ),
    {
        module.add_basic_block(&tpde_fn, name)
    }

    /// Appends a block to the function of the current block.
    pub fn append_sibling_block(&self, module: &mut ModuleTpde, name: &str) -> (bb: BasicBlock)
        requires
            old(module)@.has_function(self.basic_block.function),
        ensures
            bb == (BasicBlock {
                function: self.basic_block.function,
                index: old(module)@.functions[self.basic_block.function.0 as int].basic_blocks.len() as usize,
            }),
            final(module)@ == old(module)@.push_block(
                self.basic_block.function.0 as int,
                crate::ir::new_block_view(name@),
            ),
    {
        Self::append_block(module, self.basic_block.function(), name)
    }

    pub fn ret_void(&self, module: &mut ModuleTpde)
        requires
            old(module)@.can_emit(self.basic_block, Seq::empty(), None),
        ensures
            final(module)@ == old(module)@.emit(
                self.basic_block,
                InstructionKind::Ret,
                Seq::empty(),
                None,
            ),
    {
        let ops: Vec<Slot> = Vec::new();
        assert(ops@ =~= Seq::<Slot>::empty());
        module.add_instruction(self.basic_block, InstructionKind::Ret, ops)
    }

    /// Returns `v`; a pair is returned as its two halves.
    pub fn ret(&self, module: &mut ModuleTpde, v: Slot)
        requires
            (v is Pair || v is CPair) ==> old(module)@.pair_readable(v),
            old(module)@.can_emit(self.basic_block, ret_operands(old(module)@, v), None),
        ensures
            final(module)@ == old(module)@.emit(
                self.basic_block,
                InstructionKind::Ret,
                ret_operands(old(module)@, v),
                None,
            ),
            (v is Pair || v is CPair) ==> final(module)@ == old(module)@.emit(
                self.basic_block,
                InstructionKind::Ret,
                seq![
                    decoded_slot(old(module)@.pair_ref(v).slot_a),
                    decoded_slot(old(module)@.pair_ref(v).slot_b),
                ],
                None,
            ),
            !(v is Pair || v is CPair) ==> final(module)@ == old(module)@.emit(
                self.basic_block,
                InstructionKind::Ret,
                seq![v],
                None,
            ),
    {
        let mut ops: Vec<Slot> = Vec::new();
        match v.pair_slots(module) {
            Some((slot_a, slot_b)) => {
                ops.push(slot_a);
                ops.push(slot_b);
            },
            None => ops.push(v),
        };
        assert(ops@ =~= ret_operands(module@, v));
        module.add_instruction(self.basic_block, InstructionKind::Ret, ops)
    }

    pub fn br(&self, module: &mut ModuleTpde, dest: BasicBlock)
        requires
            old(module)@.can_emit(self.basic_block, seq![Slot::Raw(dest.index as u32)], None),
        ensures
            final(module)@ == old(module)@.emit(
                self.basic_block,
                InstructionKind::Br,
                seq![Slot::Raw(dest.index as u32)],
                None,
            ),
    {
        module.add_br(self.basic_block, dest);
    }

    pub fn cond_br(&self, module: &mut ModuleTpde, cond: Slot, then_bb: BasicBlock, else_bb: BasicBlock)
        requires
            old(module)@.can_emit(
                self.basic_block,
                seq![cond, Slot::Raw(then_bb.index as u32), Slot::Raw(else_bb.index as u32)],
                None,
            ),
        ensures
            final(module)@ == old(module)@.emit(
                self.basic_block,
                InstructionKind::CondBr,
                seq![cond, Slot::Raw(then_bb.index as u32), Slot::Raw(else_bb.index as u32)],
                None,
            ),
    {
        module.add_cond_br(self.basic_block, cond, then_bb, else_bb)
    }

    pub fn unreachable(&self, module: &mut ModuleTpde)
        requires
            old(module)@.can_emit(self.basic_block, Seq::empty(), None),
        ensures
            final(module)@ == old(module)@.emit(
                self.basic_block,
                InstructionKind::Unreachable,
                Seq::empty(),
                None,
            ),
    {
        let ops: Vec<Slot> = Vec::new();
        assert(ops@ =~= Seq::<Slot>::empty());
        module.add_instruction(self.basic_block, InstructionKind::Unreachable, ops);
    }

    // -- arithmetic ------------------------------------------------------------

    /// Emits a binary instruction whose result has the type of `lhs`.
    fn binop_first(&self, module: &mut ModuleTpde, kind: InstructionKind, lhs: Slot, rhs: Slot) -> (r: Slot)
        requires
            can_emit_typed(old(module)@, self.basic_block, seq![lhs, rhs], 0),
        ensures
            emitted_typed(old(module)@, final(module)@, self.basic_block, kind, seq![lhs, rhs], 0, r),
    {
        let mut ops: Vec<Slot> = Vec::new();
        ops.push(lhs);
        ops.push(rhs);
        assert(ops@ =~= seq![lhs, rhs]);
        module.add_instruction_ret_first(self.basic_block, kind, ops)
    }

    /// Emits a binary instruction whose result has the type of `rhs`.
    fn binop_second(&self, module: &mut ModuleTpde, kind: InstructionKind, lhs: Slot, rhs: Slot) -> (r: Slot)
        requires
            can_emit_typed(old(module)@, self.basic_block, seq![lhs, rhs], 1),
        ensures
            emitted_typed(old(module)@, final(module)@, self.basic_block, kind, seq![lhs, rhs], 1, r),
    {
        let mut ops: Vec<Slot> = Vec::new();
        ops.push(lhs);
        ops.push(rhs);
        assert(ops@ =~= seq![lhs, rhs]);
        module.add_instruction_ret_x(self.basic_block, kind, ops, 1)
    }

    /// Emits a unary instruction whose result has the type of `v`.
    fn unop_first(&self, module: &mut ModuleTpde, kind: InstructionKind, v: Slot) -> (r: Slot)
        requires
            can_emit_typed(old(module)@, self.basic_block, seq![v], 0),
        ensures
            emitted_typed(old(module)@, final(module)@, self.basic_block, kind, seq![v], 0, r),
    {
        let mut ops: Vec<Slot> = Vec::new();
        ops.push(v);
        assert(ops@ =~= seq![v]);
        module.add_instruction_ret_first(self.basic_block, kind, ops)
    }

    pub fn add(&self, module: &mut ModuleTpde, lhs: Slot, rhs: Slot) -> (r: Slot)
        requires
            can_emit_typed(old(module)@, self.basic_block, seq![lhs, rhs], 0),
        ensures
            emitted_typed(
                old(module)@,
                final(module)@,
                self.basic_block,
                InstructionKind::Add,
                seq![lhs, rhs],
                0,
                r,
            ),
    {
        self.binop_first(module, InstructionKind::Add, lhs, rhs)
    }

    pub fn fadd(&self, module: &mut ModuleTpde, lhs: Slot, rhs: Slot) -> (r: Slot)
        requires
            can_emit_typed(old(module)@, self.basic_block, seq![lhs, rhs], 0),
        ensures
            emitted_typed(
                old(module)@,
                final(module)@,
                self.basic_block,
                InstructionKind::fAdd,
                seq![lhs, rhs],
                0,
                r,
            ),
    {
        self.binop_first(module, InstructionKind::fAdd, lhs, rhs)
    }

    pub fn sub(&self, module: &mut ModuleTpde, lhs: Slot, rhs: Slot) -> (r: Slot)
        requires
            can_emit_typed(old(module)@, self.basic_block, seq![lhs, rhs], 0),
        ensures
            emitted_typed(
                old(module)@,
                final(module)@,
                self.basic_block,
                InstructionKind::Sub,
                seq![lhs, rhs],
                0,
                r,
            ),
    {
        self.binop_first(module, InstructionKind::Sub, lhs, rhs)
    }

    pub fn fsub(&self, module: &mut ModuleTpde, lhs: Slot, rhs: Slot) -> (r: Slot)
        requires
            can_emit_typed(old(module)@, self.basic_block, seq![lhs, rhs], 0),
        ensures
            emitted_typed(
                old(module)@,
                final(module)@,
                self.basic_block,
                InstructionKind::fSub,
                seq![lhs, rhs],
                0,
                r,
            ),
    {
        self.binop_first(module, InstructionKind::fSub, lhs, rhs)
    }

    pub fn mul(&self, module: &mut ModuleTpde, lhs: Slot, rhs: Slot) -> (r: Slot)
        requires
            can_emit_typed(old(module)@, self.basic_block, seq![lhs, rhs], 0),
        ensures
            emitted_typed(
                old(module)@,
                final(module)@,
                self.basic_block,
                InstructionKind::Mul,
                seq![lhs, rhs],
                0,
                r,
            ),
    {
        self.binop_first(module, InstructionKind::Mul, lhs, rhs)
    }

    pub fn fmul(&self, module: &mut ModuleTpde, lhs: Slot, rhs: Slot) -> (r: Slot)
        requires
            can_emit_typed(old(module)@, self.basic_block, seq![lhs, rhs], 0),
        ensures
            emitted_typed(
                old(module)@,
                final(module)@,
                self.basic_block,
                InstructionKind::fMul,
                seq![lhs, rhs],
                0,
                r,
            ),
    {
        self.binop_first(module, InstructionKind::fMul, lhs, rhs)
    }

    pub fn udiv(&self, module: &mut ModuleTpde, lhs: Slot, rhs: Slot) -> (r: Slot)
        requires
            can_emit_typed(old(module)@, self.basic_block, seq![lhs, rhs], 0),
        ensures
            emitted_typed(
                old(module)@,
                final(module)@,
                self.basic_block,
                InstructionKind::uDiv,
                seq![lhs, rhs],
                0,
                r,
            ),
    {
        self.binop_first(module, InstructionKind::uDiv, lhs, rhs)
    }

    pub fn sdiv(&self, module: &mut ModuleTpde, lhs: Slot, rhs: Slot) -> (r: Slot)
        requires
            can_emit_typed(old(module)@, self.basic_block, seq![lhs, rhs], 0),
        ensures
            emitted_typed(
                old(module)@,
                final(module)@,
                self.basic_block,
                InstructionKind::sDiv,
                seq![lhs, rhs],
                0,
                r,
            ),
    {
        self.binop_first(module, InstructionKind::sDiv, lhs, rhs)
    }

    pub fn fdiv(&self, module: &mut ModuleTpde, lhs: Slot, rhs: Slot) -> (r: Slot)
        requires
            can_emit_typed(old(module)@, self.basic_block, seq![lhs, rhs], 0),
        ensures
            emitted_typed(
                old(module)@,
                final(module)@,
                self.basic_block,
                InstructionKind::fDiv,
                seq![lhs, rhs],
                0,
                r,
            ),
    {
        self.binop_first(module, InstructionKind::fDiv, lhs, rhs)
    }

    pub fn urem(&self, module: &mut ModuleTpde, lhs: Slot, rhs: Slot) -> (r: Slot)
        requires
            can_emit_typed(old(module)@, self.basic_block, seq![lhs, rhs], 0),
        ensures
            emitted_typed(
                old(module)@,
                final(module)@,
                self.basic_block,
                InstructionKind::uRem,
                seq![lhs, rhs],
                0,
                r,
            ),
    {
        self.binop_first(module, InstructionKind::uRem, lhs, rhs)
    }

    pub fn shl(&self, module: &mut ModuleTpde, lhs: Slot, rhs: Slot) -> (r: Slot)
        requires
            can_emit_typed(old(module)@, self.basic_block, seq![lhs, rhs], 0),
        ensures
            emitted_typed(
                old(module)@,
                final(module)@,
                self.basic_block,
                InstructionKind::Shl,
                seq![lhs, rhs],
                0,
                r,
            ),
    {
        self.binop_first(module, InstructionKind::Shl, lhs, rhs)
    }

    pub fn and(&self, module: &mut ModuleTpde, lhs: Slot, rhs: Slot) -> (r: Slot)
        requires
            can_emit_typed(old(module)@, self.basic_block, seq![lhs, rhs], 0),
        ensures
            emitted_typed(
                old(module)@,
                final(module)@,
                self.basic_block,
                InstructionKind::And,
                seq![lhs, rhs],
                0,
                r,
            ),
    {
        self.binop_first(module, InstructionKind::And, lhs, rhs)
    }

    pub fn or(&self, module: &mut ModuleTpde, lhs: Slot, rhs: Slot) -> (r: Slot)
        requires
            can_emit_typed(old(module)@, self.basic_block, seq![lhs, rhs], 0),
        ensures
            emitted_typed(
                old(module)@,
                final(module)@,
                self.basic_block,
                InstructionKind::Or,
                seq![lhs, rhs],
                0,
                r,
            ),
    {
        self.binop_first(module, InstructionKind::Or, lhs, rhs)
    }

    pub fn xor(&self, module: &mut ModuleTpde, lhs: Slot, rhs: Slot) -> (r: Slot)
        requires
            can_emit_typed(old(module)@, self.basic_block, seq![lhs, rhs], 0),
        ensures
            emitted_typed(
                old(module)@,
                final(module)@,
                self.basic_block,
                InstructionKind::Xor,
                seq![lhs, rhs],
                0,
                r,
            ),
    {
        self.binop_first(module, InstructionKind::Xor, lhs, rhs)
    }

    pub fn srem(&self, module: &mut ModuleTpde, lhs: Slot, rhs: Slot) -> (r: Slot)
        requires
            can_emit_typed(old(module)@, self.basic_block, seq![lhs, rhs], 1),
        ensures
            emitted_typed(
                old(module)@,
                final(module)@,
                self.basic_block,
                InstructionKind::sRem,
                seq![lhs, rhs],
                1,
                r,
            ),
    {
        self.binop_second(module, InstructionKind::sRem, lhs, rhs)
    }

    pub fn frem(&self, module: &mut ModuleTpde, lhs: Slot, rhs: Slot) -> (r: Slot)
        requires
            can_emit_typed(old(module)@, self.basic_block, seq![lhs, rhs], 1),
        ensures
            emitted_typed(
                old(module)@,
                final(module)@,
                self.basic_block,
                InstructionKind::fRem,
                seq![lhs, rhs],
                1,
                r,
            ),
    {
        self.binop_second(module, InstructionKind::fRem, lhs, rhs)
    }

    pub fn lshr(&self, module: &mut ModuleTpde, lhs: Slot, rhs: Slot) -> (r: Slot)
        requires
            can_emit_typed(old(module)@, self.basic_block, seq![lhs, rhs], 1),
        ensures
            emitted_typed(
                old(module)@,
                final(module)@,
                self.basic_block,
                InstructionKind::lShr,
                seq![lhs, rhs],
                1,
                r,
            ),
    {
        self.binop_second(module, InstructionKind::lShr, lhs, rhs)
    }

    pub fn ashr(&self, module: &mut ModuleTpde, lhs: Slot, rhs: Slot) -> (r: Slot)
        requires
            can_emit_typed(old(module)@, self.basic_block, seq![lhs, rhs], 1),
        ensures
            emitted_typed(
                old(module)@,
                final(module)@,
                self.basic_block,
                InstructionKind::aShr,
                seq![lhs, rhs],
                1,
                r,
            ),
    {
        self.binop_second(module, InstructionKind::aShr, lhs, rhs)
    }

    pub fn fadd_fast(&self, module: &mut ModuleTpde, lhs: Slot, rhs: Slot) -> (r: Slot)
        requires
            can_emit_typed(old(module)@, self.basic_block, seq![lhs, rhs], 0),
        ensures
            emitted_typed(
                old(module)@,
                final(module)@,
                self.basic_block,
                InstructionKind::fAdd,
                seq![lhs, rhs],
                0,
                r,
            ),
    {
        self.fadd(module, lhs, rhs)
    }

    pub fn fadd_algebraic(&self, module: &mut ModuleTpde, lhs: Slot, rhs: Slot) -> (r: Slot)
        requires
            can_emit_typed(old(module)@, self.basic_block, seq![lhs, rhs], 0),
        ensures
            emitted_typed(
                old(module)@,
                final(module)@,
                self.basic_block,
                InstructionKind::fAdd,
                seq![lhs, rhs],
                0,
                r,
            ),
    {
        self.fadd(module, lhs, rhs)
    }

    pub fn fsub_fast(&self, module: &mut ModuleTpde, lhs: Slot, rhs: Slot) -> (r: Slot)
        requires
            can_emit_typed(old(module)@, self.basic_block, seq![lhs, rhs], 0),
        ensures
            emitted_typed(
                old(module)@,
                final(module)@,
                self.basic_block,
                InstructionKind::fSub,
                seq![lhs, rhs],
                0,
                r,
            ),
    {
        self.fsub(module, lhs, rhs)
    }

    pub fn fsub_algebraic(&self, module: &mut ModuleTpde, lhs: Slot, rhs: Slot) -> (r: Slot)
        requires
            can_emit_typed(old(module)@, self.basic_block, seq![lhs, rhs], 0),
        ensures
            emitted_typed(
                old(module)@,
                final(module)@,
                self.basic_block,
                InstructionKind::fSub,
                seq![lhs, rhs],
                0,
                r,
            ),
    {
        self.fsub(module, lhs, rhs)
    }

    pub fn fmul_fast(&self, module: &mut ModuleTpde, lhs: Slot, rhs: Slot) -> (r: Slot)
        requires
            can_emit_typed(old(module)@, self.basic_block, seq![lhs, rhs], 0),
        ensures
            emitted_typed(
                old(module)@,
                final(module)@,
                self.basic_block,
                InstructionKind::fMul,
                seq![lhs, rhs],
                0,
                r,
            ),
    {
        self.fmul(module, lhs, rhs)
    }

    pub fn fmul_algebraic(&self, module: &mut ModuleTpde, lhs: Slot, rhs: Slot) -> (r: Slot)
        requires
            can_emit_typed(old(module)@, self.basic_block, seq![lhs, rhs], 0),
        ensures
            emitted_typed(
                old(module)@,
                final(module)@,
                self.basic_block,
                InstructionKind::fMul,
                seq![lhs, rhs],
                0,
                r,
            ),
    {
        self.fmul(module, lhs, rhs)
    }

    pub fn exactudiv(&self, module: &mut ModuleTpde, lhs: Slot, rhs: Slot) -> (r: Slot)
        requires
            can_emit_typed(old(module)@, self.basic_block, seq![lhs, rhs], 0),
        ensures
            emitted_typed(
                old(module)@,
                final(module)@,
                self.basic_block,
                InstructionKind::uDiv,
                seq![lhs, rhs],
                0,
                r,
            ),
    {
        self.udiv(module, lhs, rhs)
    }

    pub fn exactsdiv(&self, module: &mut ModuleTpde, lhs: Slot, rhs: Slot) -> (r: Slot)
        requires
            can_emit_typed(old(module)@, self.basic_block, seq![lhs, rhs], 0),
        ensures
            emitted_typed(
                old(module)@,
                final(module)@,
                self.basic_block,
                InstructionKind::sDiv,
                seq![lhs, rhs],
                0,
                r,
            ),
    {
        self.sdiv(module, lhs, rhs)
    }

    pub fn fdiv_fast(&self, module: &mut ModuleTpde, lhs: Slot, rhs: Slot) -> (r: Slot)
        requires
            can_emit_typed(old(module)@, self.basic_block, seq![lhs, rhs], 0),
        ensures
            emitted_typed(
                old(module)@,
                final(module)@,
                self.basic_block,
                InstructionKind::fDiv,
                seq![lhs, rhs],
                0,
                r,
            ),
    {
        self.fdiv(module, lhs, rhs)
    }

    pub fn fdiv_algebraic(&self, module: &mut ModuleTpde, lhs: Slot, rhs: Slot) -> (r: Slot)
        requires
            can_emit_typed(old(module)@, self.basic_block, seq![lhs, rhs], 0),
        ensures
            emitted_typed(
                old(module)@,
                final(module)@,
                self.basic_block,
                InstructionKind::fDiv,
                seq![lhs, rhs],
                0,
                r,
            ),
    {
        self.fdiv(module, lhs, rhs)
    }

    pub fn frem_fast(&self, module: &mut ModuleTpde, lhs: Slot, rhs: Slot) -> (r: Slot)
        requires
            can_emit_typed(old(module)@, self.basic_block, seq![lhs, rhs], 1),
        ensures
            emitted_typed(
                old(module)@,
                final(module)@,
                self.basic_block,
                InstructionKind::fRem,
                seq![lhs, rhs],
                1,
                r,
            ),
    {
        self.frem(module, lhs, rhs)
    }

    pub fn frem_algebraic(&self, module: &mut ModuleTpde, lhs: Slot, rhs: Slot) -> (r: Slot)
        requires
            can_emit_typed(old(module)@, self.basic_block, seq![lhs, rhs], 1),
        ensures
            emitted_typed(
                old(module)@,
                final(module)@,
                self.basic_block,
                InstructionKind::fRem,
                seq![lhs, rhs],
                1,
                r,
            ),
    {
        self.frem(module, lhs, rhs)
    }

    pub fn neg(&self, module: &mut ModuleTpde, v: Slot) -> (r: Slot)
        requires
            can_emit_typed(old(module)@, self.basic_block, seq![v], 0),
        ensures
            emitted_typed(
                old(module)@,
                final(module)@,
                self.basic_block,
                InstructionKind::Neg,
                seq![v],
                0,
                r,
            ),
    {
        self.unop_first(module, InstructionKind::Neg, v)
    }

    pub fn fneg(&self, module: &mut ModuleTpde, v: Slot) -> (r: Slot)
        requires
            can_emit_typed(old(module)@, self.basic_block, seq![v], 0),
        ensures
            emitted_typed(
                old(module)@,
                final(module)@,
                self.basic_block,
                InstructionKind::fNeg,
                seq![v],
                0,
                r,
            ),
    {
        self.unop_first(module, InstructionKind::fNeg, v)
    }

    pub fn not(&self, module: &mut ModuleTpde, v: Slot) -> (r: Slot)
        requires
            can_emit_typed(old(module)@, self.basic_block, seq![v], 0),
        ensures
            emitted_typed(
                old(module)@,
                final(module)@,
                self.basic_block,
                InstructionKind::Not,
                seq![v],
                0,
                r,
            ),
    {
        self.unop_first(module, InstructionKind::Not, v)
    }

    // -- comparisons -----------------------------------------------------------

    pub fn icmp(&self, module: &mut ModuleTpde, op: IntPredicate, lhs: Slot, rhs: Slot) -> (r: Slot)
        requires
            old(module)@.can_emit(self.basic_block, seq![lhs, rhs], Some(FullType::Single(Type::Bool))),
        ensures
            emitted_ret(
                old(module)@,
                final(module)@,
                self.basic_block,
                int_predicate_kind(op),
                seq![lhs, rhs],
                Type::Bool,
                r,
            ),
    {
        let instr = match op {
            IntPredicate::IntEQ => InstructionKind::CMPeq,
            IntPredicate::IntNE => InstructionKind::CMPne,
            IntPredicate::IntUGT => InstructionKind::CMPugt,
            IntPredicate::IntUGE => InstructionKind::CMPuge,
            IntPredicate::IntULT => InstructionKind::CMPult,
            IntPredicate::IntULE => InstructionKind::CMPule,
            IntPredicate::IntSGT => InstructionKind::CMPsgt,
            IntPredicate::IntSGE => InstructionKind::CMPsge,
            IntPredicate::IntSLT => InstructionKind::CMPslt,
            IntPredicate::IntSLE => InstructionKind::CMPsle,
        };
        let mut ops: Vec<Slot> = Vec::new();
        ops.push(lhs);
        ops.push(rhs);
        assert(ops@ =~= seq![lhs, rhs]);
        module.add_instruction_ret(self.basic_block, instr, ops, Type::Bool)
    }

    /// Compares floating-point numbers; the constant predicates would need
    /// boolean constants, which the code generator does not make.
    pub fn fcmp(&self, module: &mut ModuleTpde, op: RealPredicate, lhs: Slot, rhs: Slot) -> (r: Slot)
        requires
            op != RealPredicate::RealPredicateFalse,
            op != RealPredicate::RealPredicateTrue,
            old(module)@.can_emit(self.basic_block, seq![lhs, rhs], Some(FullType::Single(Type::Bool))),
        ensures
            emitted_ret(
                old(module)@,
                final(module)@,
                self.basic_block,
                real_predicate_kind(op),
                seq![lhs, rhs],
                Type::Bool,
                r,
            ),
    {
        let instr = match op {
            RealPredicate::RealOEQ => InstructionKind::RealOEQ,
            RealPredicate::RealOGT => InstructionKind::RealOGT,
            RealPredicate::RealOGE => InstructionKind::RealOGE,
            RealPredicate::RealOLT => InstructionKind::RealOLT,
            RealPredicate::RealOLE => InstructionKind::RealOLE,
            RealPredicate::RealONE => InstructionKind::RealONE,
            RealPredicate::RealORD => InstructionKind::RealORD,
            RealPredicate::RealUNO => InstructionKind::RealUNO,
            RealPredicate::RealUEQ => InstructionKind::RealUEQ,
            RealPredicate::RealUGT => InstructionKind::RealUGT,
            RealPredicate::RealUGE => InstructionKind::RealUGE,
            RealPredicate::RealULT => InstructionKind::RealULT,
            RealPredicate::RealULE => InstructionKind::RealULE,
            _ => InstructionKind::RealUNE,
        };
        let mut ops: Vec<Slot> = Vec::new();
        ops.push(lhs);
        ops.push(rhs);
        assert(ops@ =~= seq![lhs, rhs]);
        module.add_instruction_ret(self.basic_block, instr, ops, Type::Bool)
    }

    /// An arithmetic operation and its overflow flag.
    pub fn checked_binop(
        &self,
        module: &mut ModuleTpde,
        oop: OverflowOp,
        signed: bool,
        lhs: Slot,
        rhs: Slot,
    ) -> (r: (Slot, Slot))
        requires
            can_emit_typed(old(module)@, self.basic_block, seq![lhs, rhs], 0),
            old(module)@.slot_count(self.basic_block.function) + 3 <= u32::MAX,
        ensures
            r.0 == fresh_value(old(module)@, self.basic_block, 0),
            r.1 == fresh_value(old(module)@, self.basic_block, 1),
            final(module)@ == checked_binop_module(old(module)@, self.basic_block, oop, signed, lhs, rhs),
    {
        let res = match oop {
            OverflowOp::Sub => self.sub(module, lhs, rhs),
            OverflowOp::Add => self.add(module, lhs, rhs),
            OverflowOp::Mul => self.mul(module, lhs, rhs),
        };
        if !signed {
            match oop {
                OverflowOp::Sub => {
                    let flag = self.icmp(module, IntPredicate::IntULT, lhs, rhs);
                    return (res, flag);
                },
                OverflowOp::Add => {
                    let flag = self.icmp(module, IntPredicate::IntULT, res, lhs);
                    return (res, flag);
                },
                OverflowOp::Mul => {},
            }
        }
        let mut ops: Vec<Slot> = Vec::new();
        ops.push(Slot::Raw(if signed { 1 } else { 0 }));
        assert(ops@ =~= seq![Slot::Raw(if signed { 1u32 } else { 0u32 })]);
        let of = module.add_instruction_ret(
            self.basic_block,
            InstructionKind::OverflowCheck,
            ops,
            Type::Bool,
        );
        (res, of)
    }

    // -- memory ----------------------------------------------------------------

    /// Reserves `size` bytes on the stack of the current function.
    pub fn alloca(&self, module: &mut ModuleTpde, size: usize, align: usize) -> (r: Slot)
        requires
            old(module)@.has_function(self.basic_block.function),
        ensures
            r == Slot::Alloc(
                old(module)@.functions[self.basic_block.function.0 as int].allocas.len() as u32,
            ),
            final(module)@ == old(module)@.push_alloca(
                self.basic_block.function.0 as int,
                crate::ffi::Alloca { size, align },
            ),
    {
        module.add_alloca(self.basic_block.function(), size, align)
    }

    fn load_single(&self, module: &mut ModuleTpde, ptr: Slot, align: u64, ret_ty: Type) -> (r: Slot)
        requires
            old(module)@.can_emit(
                self.basic_block,
                seq![ptr, Slot::Raw(align as u32)],
                Some(FullType::Single(ret_ty)),
            ),
        ensures
            emitted_ret(
                old(module)@,
                final(module)@,
                self.basic_block,
                InstructionKind::Load,
                seq![ptr, Slot::Raw(align as u32)],
                ret_ty,
                r,
            ),
    {
        let mut ops: Vec<Slot> = Vec::new();
        ops.push(ptr);
        ops.push(Slot::new_raw(align as u32));
        assert(ops@ =~= seq![ptr, Slot::Raw(align as u32)]);
        module.add_instruction_ret(self.basic_block, InstructionKind::Load, ops, ret_ty)
    }

    fn load_pair(
        &self,
        module: &mut ModuleTpde,
        ptr: Slot,
        offset: u8,
        align: u64,
        ty_a: Type,
        ty_b: Type,
    ) -> (r: (Slot, Slot))
        requires
            old(module)@.has_block(self.basic_block),
            encodable(ptr),
            old(module)@.slot_count(self.basic_block.function) + 5 <= u32::MAX,
            old(module)@.consts.len() < u32::MAX,
        ensures
            r.0 == Slot::Value(
                self.basic_block.function,
                old(module)@.slot_count(self.basic_block.function) as u32,
            ),
            r.1 == Slot::Value(
                self.basic_block.function,
                (old(module)@.slot_count(self.basic_block.function) + 2) as u32,
            ),
            final(module)@ == load_pair_module(
                old(module)@,
                self.basic_block,
                ptr,
                offset,
                align,
                ty_a,
                ty_b,
            ),
    {
        let slot_a = self.load_single(module, ptr, align, ty_a);
        let ind = module.add_const(Type::i64, 1);
        assert(crate::ffi::high_half(1u128) == 0u64) by {
            assert(((1u128 >> 64u128) as u64) == 0u64) by (bit_vector);
        }
        assert(crate::ffi::low_half(1u128) == 1u64) by {
            assert((1u128 as u64) == 1u64) by (bit_vector);
        }
        let mut ops: Vec<Slot> = Vec::new();
        ops.push(ptr);
        ops.push(Slot::new_raw(offset as u32));
        ops.push(ind);
        assert(ops@ =~= seq![ptr, Slot::Raw(offset as u32), ind]);
        let ptr_b = module.add_instruction_ret(self.basic_block, InstructionKind::GEP, ops, Type::i64);
        let slot_b = self.load_single(module, ptr_b, align, ty_b);
        (slot_a, slot_b)
    }

    /// Loads a value of type `ty` from `ptr`; a pair is loaded half by half.
    pub fn load(&self, module: &mut ModuleTpde, ty: FullType, ptr: Slot, align: u64) -> (r: Slot)
        requires
            !(ty is Memory),
            old(module)@.has_block(self.basic_block),
            encodable(ptr),
            old(module)@.slot_count(self.basic_block.function) + 5 <= u32::MAX,
            old(module)@.consts.len() < u32::MAX,
        ensures
            match ty {
                FullType::Pair(ty_a, ty_b, offset) => {
                    let m = old(module)@;
                    let f = self.basic_block.function;
                    let n = m.slot_count(f);
                    let m4 = load_pair_module(m, self.basic_block, ptr, offset, align, ty_a, ty_b);
                    &&& r == Slot::Pair(f, m4.functions[f.0 as int].slot_pairs.len() as u32)
                    &&& final(module)@ == m4.push_slot_pair(
                        f.0 as int,
                        crate::ffi::PairRef { slot_a: n as u32, slot_b: (n + 2) as u32, offset_b: offset },
                    )
                },
                _ => emitted_ret(
                    old(module)@,
                    final(module)@,
                    self.basic_block,
                    InstructionKind::Load,
                    seq![ptr, Slot::Raw(align as u32)],
                    ty->Single_0,
                    r,
                ),
            },
    {
        match ty {
            FullType::Pair(ty_a, ty_b, offset) => {
                let (slot_a, slot_b) = self.load_pair(module, ptr, offset, align, ty_a, ty_b);
                module.add_pair(self.basic_block.function(), slot_a, slot_b, offset)
            },
            FullType::Single(ret_ty) => self.load_single(module, ptr, align, ret_ty),
            FullType::Memory { .. } => Slot::Raw(0),
        }
    }

    /// Loads the operand stored at `ptr` with layout `layout`: a scalar or a
    /// pair is loaded, memory stays in place.
    pub fn load_operand(
        &self,
        module: &mut ModuleTpde,
        layout: crate::types::BackendRepr,
        ptr: Slot,
        align: u64,
    ) -> (r: OperandValue)
        requires
            crate::types::repr_supported(layout),
            old(module)@.has_block(self.basic_block),
            encodable(ptr),
            old(module)@.slot_count(self.basic_block.function) + 5 <= u32::MAX,
            old(module)@.consts.len() < u32::MAX,
        ensures
            ({
                let m = old(module)@;
                let n = m.slot_count(self.basic_block.function);
                let f = self.basic_block.function;
                match crate::types::direct_type(layout) {
                    FullType::Single(ret_ty) => emitted_ret(
                        m,
                        final(module)@,
                        self.basic_block,
                        InstructionKind::Load,
                        seq![ptr, Slot::Raw(align as u32)],
                        ret_ty,
                        r->Immediate_0,
                    ) && r is Immediate,
                    FullType::Pair(ty_a, ty_b, offset) => {
                        &&& r == OperandValue::Pair(
                            Slot::Value(f, n as u32),
                            Slot::Value(f, (n + 2) as u32),
                        )
                        &&& final(module)@ == load_pair_module(
                            m,
                            self.basic_block,
                            ptr,
                            offset,
                            align,
                            ty_a,
                            ty_b,
                        )
                    },
                    _ => r == OperandValue::Ref(ptr, align) && final(module)@ == m,
                }
            }),
    {
        match crate::types::direct_backend_type(layout) {
            FullType::Single(ret_ty) => {
                let slot = self.load_single(module, ptr, align, ret_ty);
                OperandValue::Immediate(slot)
            },
            FullType::Pair(ty_a, ty_b, offset) => {
                let (slot_a, slot_b) = self.load_pair(module, ptr, offset, align, ty_a, ty_b);
                OperandValue::Pair(slot_a, slot_b)
            },
            FullType::Memory { .. } => OperandValue::Ref(ptr, align),
        }
    }

    /// Stores `val` at `ptr`; returns `val`.
    pub fn store(&self, module: &mut ModuleTpde, val: Slot, ptr: Slot, align: u64) -> (r: Slot)
        requires
            old(module)@.can_emit(self.basic_block, seq![val, ptr, Slot::Raw(align as u32)], None),
        ensures
            r == val,
            final(module)@ == old(module)@.emit(
                self.basic_block,
                InstructionKind::Store,
                seq![val, ptr, Slot::Raw(align as u32)],
                None,
            ),
    {
        let mut ops: Vec<Slot> = Vec::new();
        ops.push(val);
        ops.push(ptr);
        ops.push(Slot::new_raw(align as u32));
        assert(ops@ =~= seq![val, ptr, Slot::Raw(align as u32)]);
        module.add_instruction(self.basic_block, InstructionKind::Store, ops);
        val
    }

    /// Stores with memory flags, which the code generator does not use.
    pub fn store_with_flags(&self, module: &mut ModuleTpde, val: Slot, ptr: Slot, align: u64, flags: u16) -> (r: Slot)
        requires
            old(module)@.can_emit(self.basic_block, seq![val, ptr, Slot::Raw(align as u32)], None),
        ensures
            r == val,
            final(module)@ == old(module)@.emit(
                self.basic_block,
                InstructionKind::Store,
                seq![val, ptr, Slot::Raw(align as u32)],
                None,
            ),
    {
        self.store(module, val, ptr, align)
    }

    /// The address of element `indices[0]` of an array of `ty` at `ptr`.
    pub fn inbounds_gep(&self, module: &mut ModuleTpde, ty: FullType, ptr: Slot, indices: &[Slot]) -> (r: Slot)
        requires
            gep_supported(ty),
            indices.len() == 1,
            old(module)@.can_emit(
                self.basic_block,
                seq![ptr, Slot::Raw(gep_stride(ty)), indices@[0]],
                Some(FullType::Single(Type::i64)),
            ),
        ensures
            emitted_ret(
                old(module)@,
                final(module)@,
                self.basic_block,
                InstructionKind::GEP,
                seq![ptr, Slot::Raw(gep_stride(ty)), indices@[0]],
                Type::i64,
                r,
            ),
    {
        let offset = match ty {
            FullType::Single(ty) => crate::ir::size_of_type(ty),
            FullType::Pair(_, _, offset) => offset as u32,
            FullType::Memory { .. } => 0,
        };
        let mut ops: Vec<Slot> = Vec::new();
        ops.push(ptr);
        ops.push(Slot::new_raw(offset));
        ops.push(indices[0]);
        assert(ops@ =~= seq![ptr, Slot::Raw(gep_stride(ty)), indices@[0]]);
        module.add_instruction_ret(self.basic_block, InstructionKind::GEP, ops, Type::i64)
    }

    /// Copies `size` bytes from `src` to `dst`.
    pub fn memcpy(
        &self,
        module: &mut ModuleTpde,
        dst: Slot,
        dst_align: u64,
        src: Slot,
        src_align: u64,
        size: Slot,
    )
        requires
            old(module)@.can_emit(
                self.basic_block,
                seq![dst, Slot::Raw(dst_align as u32), src, Slot::Raw(src_align as u32), size],
                None,
            ),
        ensures
            final(module)@ == old(module)@.emit(
                self.basic_block,
                InstructionKind::MemCpy,
                seq![dst, Slot::Raw(dst_align as u32), src, Slot::Raw(src_align as u32), size],
                None,
            ),
    {
        let mut ops: Vec<Slot> = Vec::new();
        ops.push(dst);
        ops.push(Slot::new_raw(dst_align as u32));
        ops.push(src);
        ops.push(Slot::new_raw(src_align as u32));
        ops.push(size);
        assert(ops@ =~= seq![dst, Slot::Raw(dst_align as u32), src, Slot::Raw(src_align as u32), size]);
        module.add_instruction(self.basic_block, InstructionKind::MemCpy, ops);
    }

    // -- casts -----------------------------------------------------------------

    /// Emits a conversion of `val` to the scalar type `dest_ty`.
    fn unop(&self, module: &mut ModuleTpde, instr: InstructionKind, val: Slot, dest_ty: FullType) -> (r: Slot)
        requires
            dest_ty is Single,
            old(module)@.can_emit(self.basic_block, seq![val], Some(dest_ty)),
        ensures
            emitted_ret(old(module)@, final(module)@, self.basic_block, instr, seq![val], dest_ty->Single_0, r),
    {
        let dest = match dest_ty {
            FullType::Single(dest) => dest,
            _ => Type::Void,
        };
        let mut ops: Vec<Slot> = Vec::new();
        ops.push(val);
        assert(ops@ =~= seq![val]);
        module.add_instruction_ret(self.basic_block, instr, ops, dest)
    }

    pub fn trunc(&self, module: &mut ModuleTpde, val: Slot, dest_ty: FullType) -> (r: Slot)
        requires
            dest_ty is Single,
            old(module)@.can_emit(self.basic_block, seq![val], Some(dest_ty)),
        ensures
            emitted_ret(
                old(module)@,
                final(module)@,
                self.basic_block,
                InstructionKind::Trunc,
                seq![val],
                dest_ty->Single_0,
                r,
            ),
    {
        self.unop(module, InstructionKind::Trunc, val, dest_ty)
    }

    pub fn zext(&self, module: &mut ModuleTpde, val: Slot, dest_ty: FullType) -> (r: Slot)
        requires
            dest_ty is Single,
            old(module)@.can_emit(self.basic_block, seq![val], Some(dest_ty)),
        ensures
            emitted_ret(
                old(module)@,
                final(module)@,
                self.basic_block,
                InstructionKind::zExt,
                seq![val],
                dest_ty->Single_0,
                r,
            ),
    {
        self.unop(module, InstructionKind::zExt, val, dest_ty)
    }

    pub fn sext(&self, module: &mut ModuleTpde, val: Slot, dest_ty: FullType) -> (r: Slot)
        requires
            dest_ty is Single,
            old(module)@.can_emit(self.basic_block, seq![val], Some(dest_ty)),
        ensures
            emitted_ret(
                old(module)@,
                final(module)@,
                self.basic_block,
                InstructionKind::sExt,
                seq![val],
                dest_ty->Single_0,
                r,
            ),
    {
        self.unop(module, InstructionKind::sExt, val, dest_ty)
    }

    pub fn fptoui_sat(&self, module: &mut ModuleTpde, val: Slot, dest_ty: FullType) -> (r: Slot)
        requires
            dest_ty is Single,
            old(module)@.can_emit(self.basic_block, seq![val], Some(dest_ty)),
        ensures
            emitted_ret(
                old(module)@,
                final(module)@,
                self.basic_block,
                InstructionKind::fTou_sat,
                seq![val],
                dest_ty->Single_0,
                r,
            ),
    {
        self.unop(module, InstructionKind::fTou_sat, val, dest_ty)
    }

    pub fn fptosi_sat(&self, module: &mut ModuleTpde, val: Slot, dest_ty: FullType) -> (r: Slot)
        requires
            dest_ty is Single,
            old(module)@.can_emit(self.basic_block, seq![val], Some(dest_ty)),
        ensures
            emitted_ret(
                old(module)@,
                final(module)@,
                self.basic_block,
                InstructionKind::fTos_sat,
                seq![val],
                dest_ty->Single_0,
                r,
            ),
    {
        self.unop(module, InstructionKind::fTos_sat, val, dest_ty)
    }

    pub fn fptoui(&self, module: &mut ModuleTpde, val: Slot, dest_ty: FullType) -> (r: Slot)
        requires
            dest_ty is Single,
            old(module)@.can_emit(self.basic_block, seq![val], Some(dest_ty)),
        ensures
            emitted_ret(
                old(module)@,
                final(module)@,
                self.basic_block,
                InstructionKind::fTou,
                seq![val],
                dest_ty->Single_0,
                r,
            ),
    {
        self.unop(module, InstructionKind::fTou, val, dest_ty)
    }

    pub fn fptosi(&self, module: &mut ModuleTpde, val: Slot, dest_ty: FullType) -> (r: Slot)
        requires
            dest_ty is Single,
            old(module)@.can_emit(self.basic_block, seq![val], Some(dest_ty)),
        ensures
            emitted_ret(
                old(module)@,
                final(module)@,
                self.basic_block,
                InstructionKind::fTos,
                seq![val],
                dest_ty->Single_0,
                r,
            ),
    {
        self.unop(module, InstructionKind::fTos, val, dest_ty)
    }

    pub fn uitofp(&self, module: &mut ModuleTpde, val: Slot, dest_ty: FullType) -> (r: Slot)
        requires
            dest_ty is Single,
            old(module)@.can_emit(self.basic_block, seq![val], Some(dest_ty)),
        ensures
            emitted_ret(
                old(module)@,
                final(module)@,
                self.basic_block,
                InstructionKind::uTof,
                seq![val],
                dest_ty->Single_0,
                r,
            ),
    {
        self.unop(module, InstructionKind::uTof, val, dest_ty)
    }

    pub fn sitofp(&self, module: &mut ModuleTpde, val: Slot, dest_ty: FullType) -> (r: Slot)
        requires
            dest_ty is Single,
            old(module)@.can_emit(self.basic_block, seq![val], Some(dest_ty)),
        ensures
            emitted_ret(
                old(module)@,
                final(module)@,
                self.basic_block,
                InstructionKind::sTof,
                seq![val],
                dest_ty->Single_0,
                r,
            ),
    {
        self.unop(module, InstructionKind::sTof, val, dest_ty)
    }

    pub fn fptrunc(&self, module: &mut ModuleTpde, val: Slot, dest_ty: FullType) -> (r: Slot)
        requires
            dest_ty is Single,
            old(module)@.can_emit(self.basic_block, seq![val], Some(dest_ty)),
        ensures
            emitted_ret(
                old(module)@,
                final(module)@,
                self.basic_block,
                InstructionKind::fTrunc,
                seq![val],
                dest_ty->Single_0,
                r,
            ),
    {
        self.unop(module, InstructionKind::fTrunc, val, dest_ty)
    }

    pub fn fpext(&self, module: &mut ModuleTpde, val: Slot, dest_ty: FullType) -> (r: Slot)
        requires
            dest_ty is Single,
            old(module)@.can_emit(self.basic_block, seq![val], Some(dest_ty)),
        ensures
            emitted_ret(
                old(module)@,
                final(module)@,
                self.basic_block,
                InstructionKind::fExt,
                seq![val],
                dest_ty->Single_0,
                r,
            ),
    {
        self.unop(module, InstructionKind::fExt, val, dest_ty)
    }

    pub fn bitcast(&self, module: &mut ModuleTpde, val: Slot, dest_ty: FullType) -> (r: Slot)
        requires
            dest_ty is Single,
            old(module)@.can_emit(self.basic_block, seq![val], Some(dest_ty)),
        ensures
            emitted_ret(
                old(module)@,
                final(module)@,
                self.basic_block,
                InstructionKind::Cast,
                seq![val],
                dest_ty->Single_0,
                r,
            ),
    {
        self.unop(module, InstructionKind::Cast, val, dest_ty)
    }

    pub fn ptrtoint(&self, module: &mut ModuleTpde, val: Slot, dest_ty: FullType) -> (r: Slot)
        requires
            dest_ty is Single,
            old(module)@.can_emit(self.basic_block, seq![val], Some(dest_ty)),
        ensures
            emitted_ret(
                old(module)@,
                final(module)@,
                self.basic_block,
                InstructionKind::Cast,
                seq![val],
                dest_ty->Single_0,
                r,
            ),
    {
        self.bitcast(module, val, dest_ty)
    }

    pub fn inttoptr(&self, module: &mut ModuleTpde, val: Slot, dest_ty: FullType) -> (r: Slot)
        requires
            dest_ty is Single,
            old(module)@.can_emit(self.basic_block, seq![val], Some(dest_ty)),
        ensures
            emitted_ret(
                old(module)@,
                final(module)@,
                self.basic_block,
                InstructionKind::Cast,
                seq![val],
                dest_ty->Single_0,
                r,
            ),
    {
        self.bitcast(module, val, dest_ty)
    }

    pub fn pointercast(&self, module: &mut ModuleTpde, val: Slot, dest_ty: FullType) -> (r: Slot)
        requires
            dest_ty is Single,
            old(module)@.can_emit(self.basic_block, seq![val], Some(dest_ty)),
        ensures
            emitted_ret(
                old(module)@,
                final(module)@,
                self.basic_block,
                InstructionKind::Cast,
                seq![val],
                dest_ty->Single_0,
                r,
            ),
    {
        self.bitcast(module, val, dest_ty)
    }

    /// Converts an integer to the width of `dest_ty`: truncated when it is
    /// wider, extended by its sign or by zeros when it is narrower.
    pub fn intcast(&self, module: &mut ModuleTpde, val: Slot, dest_ty: FullType, is_signed: bool) -> (r: Slot)
        requires
            old(module)@.slot_typed(val),
            is_int_type(old(module)@.slot_type(val)),
            is_int_type(dest_ty),
            old(module)@.can_emit(self.basic_block, seq![val], Some(dest_ty)),
        ensures
            match intcast_kind(int_width_of(old(module)@.slot_type(val)), int_width_of(dest_ty), is_signed) {
                Some(kind) => emitted_ret(
                    old(module)@,
                    final(module)@,
                    self.basic_block,
                    kind,
                    seq![val],
                    dest_ty->Single_0,
                    r,
                ),
                _ => r == val && final(module)@ == old(module)@,
            },
    {
        let src_ty = module.type_of_slot(val);
        let src_width = int_width(src_ty);
        let dest_width = int_width(dest_ty);
        if src_width == dest_width {
            val
        } else if src_width > dest_width {
            self.trunc(module, val, dest_ty)
        } else if is_signed {
            self.sext(module, val, dest_ty)
        } else {
            self.zext(module, val, dest_ty)
        }
    }

    // -- pairs -----------------------------------------------------------------

    /// Half `idx` of a pair.
    pub fn extract_value(&self, module: &ModuleTpde, agg_val: Slot, idx: u64) -> (r: Slot)
        requires
            module@.pair_readable(agg_val),
            idx < 2,
        ensures
            r == decoded_slot(
                if idx == 0 {
                    module@.pair_ref(agg_val).slot_a
                } else {
                    module@.pair_ref(agg_val).slot_b
                },
            ),
    {
        let (slot_a, slot_b, _) = module.extract_vals(agg_val);
        if idx == 0 {
            slot_a
        } else {
            slot_b
        }
    }

    /// A new pair of the current function with half `idx` replaced by `elt`.
    pub fn insert_value(&self, module: &mut ModuleTpde, agg_val: Slot, elt: Slot, idx: u64) -> (r: Slot)
        requires
            old(module)@.pair_readable(agg_val),
            idx < 2,
            encodable(elt),
            old(module)@.has_function(self.basic_block.function),
        ensures
            ({
                let m = old(module)@;
                let p = m.pair_ref(agg_val);
                let f = self.basic_block.function;
                &&& r == Slot::Pair(f, m.functions[f.0 as int].slot_pairs.len() as u32)
                &&& final(module)@ == m.push_slot_pair(
                    f.0 as int,
                    crate::ffi::PairRef {
                        slot_a: if idx == 0 { crate::ir::slot_encoding(elt) } else { p.slot_a },
                        slot_b: if idx == 0 { p.slot_b } else { crate::ir::slot_encoding(elt) },
                        offset_b: p.offset_b,
                    },
                )
            }),
    {
        let (slot_a, slot_b, offset_b) = module.extract_vals(agg_val);
        proof {
            crate::laws::law_encode_after_decode(module@.pair_ref(agg_val).slot_a);
            crate::laws::law_encode_after_decode(module@.pair_ref(agg_val).slot_b);
        }
        if idx == 0 {
            module.add_pair(self.basic_block.function(), elt, slot_b, offset_b)
        } else {
            module.add_pair(self.basic_block.function(), slot_a, elt, offset_b)
        }
    }

    // -- exceptions ------------------------------------------------------------

    pub fn set_personality_fn(&self, module: &mut ModuleTpde, personality: Function)
        requires
            old(module)@.has_function(self.basic_block.function),
        ensures
            final(module)@ == old(module)@.set_personality(
                self.basic_block.function.0 as int,
                personality.0 as u32,
            ),
    {
        module.add_personality(self.basic_block.function(), personality);
    }

    /// Starts a landing pad: the exception pointer and its selector.
    pub fn filter_landing_pad(&self, module: &mut ModuleTpde, pers_fn: Function)
        requires
            old(module)@.has_block(self.basic_block),
            old(module)@.slot_count(self.basic_block.function) + 3 <= u32::MAX,
        ensures
            final(module)@ == old(module)@.set_personality(
                self.basic_block.function.0 as int,
                pers_fn.0 as u32,
            ).emit(
                self.basic_block,
                InstructionKind::LandingPad,
                Seq::empty(),
                Some(FullType::Single(Type::ptr)),
            ).emit(
                self.basic_block,
                InstructionKind::AddRet,
                Seq::empty(),
                Some(FullType::Single(Type::i32)),
            ),
    {
        self.set_personality_fn(module, pers_fn);
        let ops: Vec<Slot> = Vec::new();
        assert(ops@ =~= Seq::<Slot>::empty());
        module.add_instruction_ret(self.basic_block, InstructionKind::LandingPad, ops, Type::ptr);
        let ops: Vec<Slot> = Vec::new();
        assert(ops@ =~= Seq::<Slot>::empty());
        module.add_instruction_ret(self.basic_block, InstructionKind::AddRet, ops, Type::i32);
    }

    // -- calls and arguments ---------------------------------------------------

    /// Calls `fn_val` with the declared signature `func_sig`; a call without
    /// result gives the raw slot 0.
    pub fn call(&self, cx: &mut CodegenCx, func_sig: usize, fn_val: Slot, args: &[Slot]) -> (r: Slot)
        requires
            func_sig < old(cx).signatures().len(),
            old(cx).module@.can_emit(
                self.basic_block,
                seq![fn_val] + args@,
                old(cx).signatures()[func_sig as int].ret,
            ),
        ensures
            ({
                let ret = old(cx).signatures()[func_sig as int].ret;
                &&& r == match old(cx).module@.emit_result(self.basic_block, ret) {
                    Some(s) => s,
                    _ => Slot::Raw(0),
                }
                &&& final(cx).module@ == old(cx).module@.emit(
                    self.basic_block,
                    InstructionKind::Call,
                    seq![fn_val] + args@,
                    ret,
                )
                &&& final(cx).signatures() == old(cx).signatures()
                &&& final(cx).global_gen_sym_counter == old(cx).global_gen_sym_counter
                &&& final(cx).local_gen_sym_counter == old(cx).local_gen_sym_counter
                &&& final(cx).codegen_unit_name@ == old(cx).codegen_unit_name@
                &&& final(cx).keeps_target(old(cx))
                &&& final(cx).keeps_items(old(cx))
            }),
    {
        let func_sign = &cx.function_signatures[func_sig];
        let r = cx.module.add_call(self.basic_block, fn_val, func_sign, args);
        match r {
            Some(s) => s,
            None => Slot::new_raw(0),
        }
    }

    /// The `index`-th argument of the current function.
    pub fn get_param(&self, module: &ModuleTpde, index: usize) -> (r: Slot)
        ensures
            r == Slot::Value(self.basic_block.function, index as u32),
    {
        module.get_slot(self.basic_block.function(), index as u32)
    }

    /// Stores an argument at its place.
    pub fn store_arg(&self, module: &mut ModuleTpde, val: Slot, dst: Slot, dst_align: u64)
        requires
            old(module)@.can_emit(self.basic_block, seq![val, dst, Slot::Raw(dst_align as u32)], None),
        ensures
            final(module)@ == old(module)@.emit(
                self.basic_block,
                InstructionKind::Store,
                seq![val, dst, Slot::Raw(dst_align as u32)],
                None,
            ),
    {
        self.store(module, val, dst, dst_align);
    }

    // -- intrinsics ------------------------------------------------------------

    /// Lowers a call of an intrinsic: `black_box` is its argument, `ctpop`
    /// counts the set bits of its immediate argument.
    pub fn codegen_intrinsic_call(
        &self,
        module: &mut ModuleTpde,
        name: Intrinsic,
        args: &[OperandValue],
    ) -> (r: OperandValue)
        requires
            name != Intrinsic::Other,
            args.len() >= 1,
            name == Intrinsic::Ctpop ==> args@[0] is Immediate && can_emit_typed(
                old(module)@,
                self.basic_block,
                seq![args@[0]->Immediate_0],
                0,
            ),
        ensures
            name == Intrinsic::BlackBox ==> r == args@[0] && final(module)@ == old(module)@,
            name == Intrinsic::Ctpop ==> r is Immediate && emitted_typed(
                old(module)@,
                final(module)@,
                self.basic_block,
                InstructionKind::ctpop,
                seq![args@[0]->Immediate_0],
                0,
                r->Immediate_0,
            ),
    {
        match name {
            Intrinsic::Ctpop => {
                let input_val = match args[0] {
                    OperandValue::Immediate(v) => v,
                    _ => Slot::Raw(0),
                };
                let result = self.unop_first(module, InstructionKind::ctpop, input_val);
                OperandValue::Immediate(result)
            },
            _ => args[0],
        }
    }

    /// Branch hints are not used: the condition itself.
    pub fn expect(&self, cond: Slot, expected: bool) -> (r: Slot)
        ensures
            r == cond,
    {
        cond
    }

    /// Immediates are stored as they are.
    pub fn from_immediate(&self, val: Slot) -> (r: Slot)
        ensures
            r == val,
    {
        val
    }

    /// Scalars are used as they are loaded.
    pub fn to_immediate_scalar(&self, val: Slot, scalar: Scalar) -> (r: Slot)
        ensures
            r == val,
    {
        val
    }

    /// Only `black_box` takes its argument in memory.
    pub fn intrinsic_call_expects_place_always(name: Intrinsic) -> (b: bool)
        ensures
            b == (name == Intrinsic::BlackBox),
    {
        match name {
            Intrinsic::BlackBox => true,
            _ => false,
        }
    }

    /// Stores `a` at `dst` and `b` at `offset` bytes past it, with alignment
    /// `align_b`.
    fn store_two(
        &self,
        module: &mut ModuleTpde,
        a: Slot,
        b: Slot,
        dst: Slot,
        align: u64,
        offset: u64,
        align_b: u64,
    )
        requires
            old(module)@.has_block(self.basic_block),
            encodable(a),
            encodable(b),
            encodable(dst),
            old(module)@.slot_count(self.basic_block.function) + 3 <= u32::MAX,
            old(module)@.consts.len() < u32::MAX,
        ensures
            final(module)@ == store_two_module(
                old(module)@,
                self.basic_block,
                a,
                b,
                dst,
                align,
                offset,
                align_b,
            ),
    {
        self.store_arg(module, a, dst, align);
        let c = crate::common::const_usize(module, offset);
        let mut indices: Vec<Slot> = Vec::new();
        indices.push(c);
        let ptr = self.inbounds_gep(module, type_i8(), dst, indices.as_slice());
        let v = self.from_immediate(b);
        self.store(module, v, ptr, align_b);
    }

    /// Stores the incoming slots of an argument, starting at slot `*idx`, at
    /// `dst`, and advances `*idx` past them. A pair stores its second half at
    /// the offset of its layout's second scalar, with the alignment known
    /// there; a cast into two registers stores the second at the byte offset
    /// of its register.
    pub fn store_fn_arg(
        &self,
        module: &mut ModuleTpde,
        arg_abi: &ArgAbi,
        idx: &mut usize,
        dst: Slot,
        dst_align: u64,
    )
        requires
            fn_arg_supported(*arg_abi),
            old(module)@.has_block(self.basic_block),
            encodable(dst),
            old(module)@.slot_count(self.basic_block.function) + 3 <= u32::MAX,
            old(module)@.consts.len() < u32::MAX,
            *old(idx) + 2 <= usize::MAX,
        ensures
            (final(module)@, *final(idx)) == fn_arg_module(
                old(module)@,
                self.basic_block,
                *arg_abi,
                *old(idx),
                dst,
                dst_align,
            ),
    {
        match &arg_abi.mode {
            PassMode::Ignore => {},
            PassMode::Pair(_, _) => {
                let val_a = self.get_param(module, *idx);
                *idx = *idx + 1;
                let val_b = self.get_param(module, *idx);
                *idx = *idx + 1;
                let b_offset = match arg_abi.layout {
                    BackendRepr::ScalarPair { b_offset, .. } => b_offset,
                    _ => 0,
                };
                let align_b = align_at(dst_align, b_offset);
                self.store_two(module, val_a, val_b, dst, dst_align, b_offset, align_b);
            },
            PassMode::Cast(cast) => {
                match cast_backend_type(cast) {
                    FullType::Pair(_, _, offset_b) => {
                        let val_a = self.get_param(module, *idx);
                        *idx = *idx + 1;
                        let val_b = self.get_param(module, *idx);
                        *idx = *idx + 1;
                        self.store_two(module, val_a, val_b, dst, dst_align, offset_b as u64, dst_align);
                    },
                    _ => {
                        let val = self.get_param(module, *idx);
                        *idx = *idx + 1;
                        self.store_arg(module, val, dst, dst_align);
                    },
                }
            },
            _ => {
                let val = self.get_param(module, *idx);
                *idx = *idx + 1;
                self.store_arg(module, val, dst, dst_align);
            },
        }
    }
}

} // verus!
