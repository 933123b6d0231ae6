//! What the emitted instructions compute, and laws that tie the builder's
//! choices to that meaning: comparisons test the predicate they were asked
//! for, integer casts keep the value, the second half of a pair is loaded
//! from its offset, a pair is returned first half first, and the overflow
//! flag of unsigned arithmetic is set exactly when the result wrapped.
use crate::builder::{
    checked_binop_module, int_predicate_kind, intcast_kind, load_pair_module, real_predicate_kind,
    ret_operands, store_two_module, IntPredicate, OverflowOp, RealPredicate,
};
use crate::ffi::{InstructionKind, InstructionView, ModuleView, Type, Value};
use crate::ir::{
    decoded_slot, index_limit, instruction_view, slot_encoding, BasicBlock, FullType, Slot,
};
use vstd::prelude::*;

verus! {

// ---------------------------------------------------------------------------
// Integers of a width
// ---------------------------------------------------------------------------

/// The widths of the module's integer types.
pub open spec fn is_width(w: u64) -> bool {
    w == 8 || w == 16 || w == 32 || w == 64 || w == 128
}

/// The number of bit patterns of an integer of width `w`.
pub open spec fn modulus(w: u64) -> int {
    if w == 8 {
        0x100
    } else if w == 16 {
        0x1_0000
    } else if w == 32 {
        0x1_0000_0000
    } else if w == 64 {
        0x1_0000_0000_0000_0000
    } else {
        0x1_0000_0000_0000_0000_0000_0000_0000_0000int
    }
}

/// The signed number that the bit pattern `x` of width `w` stands for.
pub open spec fn as_signed(w: u64, x: int) -> int {
    if 2 * x >= modulus(w) {
        x - modulus(w)
    } else {
        x
    }
}

/// A bit pattern of width `w`.
pub open spec fn in_width(w: u64, x: int) -> bool {
    0 <= x < modulus(w)
}

// ---------------------------------------------------------------------------
// Comparisons
// ---------------------------------------------------------------------------

/// Whether a comparison instruction yields true on the bit patterns `a` and
/// `b` of width `w`.
pub open spec fn int_compare_holds(kind: InstructionKind, w: u64, a: int, b: int) -> bool {
    match kind {
        InstructionKind::CMPeq => a == b,
        InstructionKind::CMPne => a != b,
        InstructionKind::CMPugt => a > b,
        InstructionKind::CMPuge => a >= b,
        InstructionKind::CMPult => a < b,
        InstructionKind::CMPule => a <= b,
        InstructionKind::CMPsgt => as_signed(w, a) > as_signed(w, b),
        InstructionKind::CMPsge => as_signed(w, a) >= as_signed(w, b),
        InstructionKind::CMPslt => as_signed(w, a) < as_signed(w, b),
        InstructionKind::CMPsle => as_signed(w, a) <= as_signed(w, b),
        _ => false,
    }
}

/// Whether an integer predicate holds of the bit patterns `a` and `b` of
/// width `w`: equality, or an order of their unsigned or signed numbers.
pub open spec fn int_predicate_holds(op: IntPredicate, w: u64, a: int, b: int) -> bool {
    let (sa, sb) = (as_signed(w, a), as_signed(w, b));
    match op {
        IntPredicate::IntEQ => a == b,
        IntPredicate::IntNE => !(a == b),
        IntPredicate::IntUGT => b < a,
        IntPredicate::IntUGE => !(a < b),
        IntPredicate::IntULT => a < b,
        IntPredicate::IntULE => !(b < a),
        IntPredicate::IntSGT => sb < sa,
        IntPredicate::IntSGE => !(sa < sb),
        IntPredicate::IntSLT => sa < sb,
        IntPredicate::IntSLE => !(sb < sa),
    }
}

/// The integer comparison emitted for a predicate yields, on every pair of
/// bit patterns, exactly what the predicate says.
pub proof fn law_icmp_tests_its_predicate(op: IntPredicate, w: u64, a: int, b: int)
    requires
        is_width(w),
        in_width(w, a),
        in_width(w, b),
    ensures
        int_compare_holds(int_predicate_kind(op), w, a, b) == int_predicate_holds(op, w, a, b),
{
}

/// Whether a floating-point comparison instruction yields true on two
/// numbers, where `None` stands for NaN and numbers compare by their order.
pub open spec fn real_compare_holds(kind: InstructionKind, a: Option<int>, b: Option<int>) -> bool {
    let ordered = a is Some && b is Some;
    let (x, y) = (a.unwrap_or(0), b.unwrap_or(0));
    match kind {
        InstructionKind::RealOEQ => ordered && x == y,
        InstructionKind::RealOGT => ordered && x > y,
        InstructionKind::RealOGE => ordered && x >= y,
        InstructionKind::RealOLT => ordered && x < y,
        InstructionKind::RealOLE => ordered && x <= y,
        InstructionKind::RealONE => ordered && x != y,
        InstructionKind::RealORD => ordered,
        InstructionKind::RealUNO => !ordered,
        InstructionKind::RealUEQ => !ordered || x == y,
        InstructionKind::RealUGT => !ordered || x > y,
        InstructionKind::RealUGE => !ordered || x >= y,
        InstructionKind::RealULT => !ordered || x < y,
        InstructionKind::RealULE => !ordered || x <= y,
        InstructionKind::RealUNE => !ordered || x != y,
        _ => false,
    }
}

/// Whether a floating-point predicate holds: an ordered predicate needs two
/// numbers, an unordered one also holds when either is NaN.
pub open spec fn real_predicate_holds(op: RealPredicate, a: Option<int>, b: Option<int>) -> bool {
    let nan = a is None || b is None;
    let (x, y) = (a.unwrap_or(0), b.unwrap_or(0));
    match op {
        RealPredicate::RealPredicateFalse => false,
        RealPredicate::RealOEQ => !nan && x == y,
        RealPredicate::RealOGT => !nan && y < x,
        RealPredicate::RealOGE => !nan && !(x < y),
        RealPredicate::RealOLT => !nan && x < y,
        RealPredicate::RealOLE => !nan && !(y < x),
        RealPredicate::RealONE => !nan && !(x == y),
        RealPredicate::RealORD => !nan,
        RealPredicate::RealUNO => nan,
        RealPredicate::RealUEQ => nan || x == y,
        RealPredicate::RealUGT => nan || y < x,
        RealPredicate::RealUGE => nan || !(x < y),
        RealPredicate::RealULT => nan || x < y,
        RealPredicate::RealULE => nan || !(y < x),
        RealPredicate::RealUNE => nan || !(x == y),
        RealPredicate::RealPredicateTrue => true,
    }
}

/// The floating-point comparison emitted for a predicate yields exactly
/// what the predicate says, NaN included.
pub proof fn law_fcmp_tests_its_predicate(op: RealPredicate, a: Option<int>, b: Option<int>)
    requires
        op != RealPredicate::RealPredicateFalse,
        op != RealPredicate::RealPredicateTrue,
    ensures
        real_compare_holds(real_predicate_kind(op), a, b) == real_predicate_holds(op, a, b),
{
}

// ---------------------------------------------------------------------------
// Integer casts
// ---------------------------------------------------------------------------

/// The bit pattern of width `dest_w` that a cast instruction makes of the
/// pattern `x` of width `src_w`: truncation keeps the low bits, zero
/// extension the number, sign extension the signed number.
pub open spec fn int_cast_result(kind: InstructionKind, src_w: u64, dest_w: u64, x: int) -> int {
    match kind {
        InstructionKind::Trunc => x % modulus(dest_w),
        InstructionKind::zExt => x,
        InstructionKind::sExt => if as_signed(src_w, x) < 0 {
            as_signed(src_w, x) + modulus(dest_w)
        } else {
            as_signed(src_w, x)
        },
        _ => x,
    }
}

/// An integer cast keeps what can be kept: a widening cast keeps the signed
/// number when signed and the unsigned number when not, a narrowing cast
/// keeps the low bits, and a cast between equal widths emits nothing.
pub proof fn law_intcast_keeps_the_value(src_w: u64, dest_w: u64, is_signed: bool, x: int)
    requires
        is_width(src_w),
        is_width(dest_w),
        in_width(src_w, x),
    ensures
        match intcast_kind(src_w, dest_w, is_signed) {
            None => src_w == dest_w,
            Some(kind) => {
                let r = int_cast_result(kind, src_w, dest_w, x);
                &&& in_width(dest_w, r)
                &&& (src_w < dest_w && is_signed ==> as_signed(dest_w, r) == as_signed(src_w, x))
                &&& (src_w < dest_w && !is_signed ==> r == x)
                &&& (src_w > dest_w ==> r == x % modulus(dest_w))
            },
        },
{
}

// ---------------------------------------------------------------------------
// Instructions appended to a block
// ---------------------------------------------------------------------------

proof fn lemma_emit_single(m: ModuleView, bb: BasicBlock, kind: InstructionKind, ops: Seq<Slot>, ty: Type)
    requires
        m.has_block(bb),
    ensures
        ({
            let m2 = m.emit(bb, kind, ops, Some(FullType::Single(ty)));
            &&& m2.block_instructions(bb) == m.block_instructions(bb).push(
                instruction_view(kind, ops, true, m.slot_count(bb.function) as u32),
            )
            &&& m2.slot_count(bb.function) == m.slot_count(bb.function) + 1
            &&& m2.has_block(bb)
            &&& m2.consts == m.consts
        }),
{
    let m2 = m.emit(bb, kind, ops, Some(FullType::Single(ty)));
    assert(m2.block_instructions(bb) =~= m.block_instructions(bb).push(
        instruction_view(kind, ops, true, m.slot_count(bb.function) as u32),
    ));
}

/// The number a constant holds: its high half above its low half.
pub open spec fn const_number(v: Value) -> int {
    v.data1 * 0x1_0000_0000_0000_0000 + v.data2
}

// ---------------------------------------------------------------------------
// Loading a pair
// ---------------------------------------------------------------------------

/// Loading a pair emits three instructions: a load from `ptr` for the first
/// half, an address `offset` bytes past `ptr` (stride times constant
/// index), and a load from that address for the second half.
#[verifier::spinoff_prover]
pub proof fn law_load_pair_offsets(
    m: ModuleView,
    bb: BasicBlock,
    ptr: Slot,
    offset: u8,
    align: u64,
    ty_a: Type,
    ty_b: Type,
)
    requires
        m.has_block(bb),
        m.consts.len() < index_limit(),
        m.slot_count(bb.function) + 3 < index_limit(),
    ensures
        ({
            let m4 = load_pair_module(m, bb, ptr, offset, align, ty_a, ty_b);
            let k = m.block_instructions(bb).len();
            let ins = m4.block_instructions(bb);
            let first = ins[k as int];
            let gep = ins[k as int + 1];
            let second = ins[k as int + 2];
            &&& ins.len() == k + 3
            &&& first.kind == InstructionKind::Load
            &&& first.ops[0] == slot_encoding(ptr)
            &&& gep.kind == InstructionKind::GEP
            &&& gep.ops.len() == 3
            &&& gep.ops[0] == slot_encoding(ptr)
            &&& decoded_slot(gep.ops[1]) is Raw
            &&& decoded_slot(gep.ops[2]) is Const
            &&& decoded_slot(gep.ops[2])->Const_0 < m4.consts.len()
            &&& decoded_slot(gep.ops[1])->Raw_0 * const_number(
                m4.consts[decoded_slot(gep.ops[2])->Const_0 as int],
            ) == offset
            &&& second.kind == InstructionKind::Load
            &&& second.ops[0] == gep.result
            &&& first.result != second.result
        }),
{
    let n = m.slot_count(bb.function);
    let c = m.consts.len();
    let m1 = m.emit(bb, InstructionKind::Load, seq![ptr, Slot::Raw(align as u32)], Some(FullType::Single(ty_a)));
    lemma_emit_single(m, bb, InstructionKind::Load, seq![ptr, Slot::Raw(align as u32)], ty_a);
    let m2 = m1.push_const(Value { ty: Type::i64, data1: 0, data2: 1 });
    assert(m2.block_instructions(bb) == m1.block_instructions(bb));
    let gops = seq![ptr, Slot::Raw(offset as u32), Slot::Const(c as u32)];
    lemma_emit_single(m2, bb, InstructionKind::GEP, gops, Type::i64);
    let m3 = m2.emit(bb, InstructionKind::GEP, gops, Some(FullType::Single(Type::i64)));
    let lops = seq![Slot::Value(bb.function, (n + 1) as u32), Slot::Raw(align as u32)];
    lemma_emit_single(m3, bb, InstructionKind::Load, lops, ty_b);
    let m4 = m3.emit(bb, InstructionKind::Load, lops, Some(FullType::Single(ty_b)));
    assert(m4 == load_pair_module(m, bb, ptr, offset, align, ty_a, ty_b));
    crate::laws::law_decode_after_encode(Slot::Raw(offset as u32));
    crate::laws::law_decode_after_encode(Slot::Const(c as u32));
    let k = m.block_instructions(bb).len();
    let ins = m4.block_instructions(bb);
    assert(ins =~= m.block_instructions(bb).push(
        instruction_view(InstructionKind::Load, seq![ptr, Slot::Raw(align as u32)], true, n as u32),
    ).push(instruction_view(InstructionKind::GEP, gops, true, (n + 1) as u32)).push(
        instruction_view(InstructionKind::Load, lops, true, (n + 2) as u32),
    ));
    assert(m4.consts[c as int] == Value { ty: Type::i64, data1: 0, data2: 1 });
    assert(ins[k as int + 1].ops =~= crate::ir::encode_all(gops));
    assert(ins[k as int + 2].ops =~= crate::ir::encode_all(lops));
    assert(ins[k as int].ops =~= crate::ir::encode_all(seq![ptr, Slot::Raw(align as u32)]));
}

// ---------------------------------------------------------------------------
// Returning a pair
// ---------------------------------------------------------------------------

/// A pair is returned as its two halves in order: the operands have the
/// pair's first type, then its second type.
pub proof fn law_ret_pair_in_order(m: ModuleView, v: Slot)
    requires
        v is Pair || v is CPair,
        m.slot_typed(v),
    ensures
        ret_operands(m, v).len() == 2,
        m.slot_type(v) == FullType::Pair(
            m.scalar_type(ret_operands(m, v)[0]),
            m.scalar_type(ret_operands(m, v)[1]),
            m.pair_ref(v).offset_b,
        ),
{
}

// ---------------------------------------------------------------------------
// Overflow flags
// ---------------------------------------------------------------------------

/// The bit pattern an arithmetic instruction makes of `a` and `b` at width
/// `w`: the mathematical result, wrapped.
pub open spec fn int_arith_result(kind: InstructionKind, w: u64, a: int, b: int) -> int {
    match kind {
        InstructionKind::Add => (a + b) % modulus(w),
        InstructionKind::Sub => (a - b) % modulus(w),
        _ => 0,
    }
}

/// The value an encoded operand holds, given the values of the operands and
/// of the result.
pub open spec fn operand_value(
    enc: u32,
    lhs: Slot,
    rhs: Slot,
    res: Slot,
    x: int,
    y: int,
    r: int,
) -> int {
    if enc == slot_encoding(res) {
        r
    } else if enc == slot_encoding(lhs) {
        x
    } else if enc == slot_encoding(rhs) {
        y
    } else {
        0
    }
}

proof fn lemma_const_encoding_high(i: u32)
    by (bit_vector)
    ensures
        (i | 0x2000_0000u32) >= 0x2000_0000u32,
{
}

/// Unsigned checked addition and subtraction: the arithmetic instruction
/// computes the wrapped result from the operands, and the flag that
/// follows it is true exactly when the mathematical result leaves the
/// width: a sum at or above its modulus, a difference below zero.
#[verifier::spinoff_prover]
pub proof fn law_unsigned_overflow_flag(
    m: ModuleView,
    bb: BasicBlock,
    oop: OverflowOp,
    lhs: Slot,
    rhs: Slot,
    w: u64,
    x: int,
    y: int,
)
    requires
        oop == OverflowOp::Add || oop == OverflowOp::Sub,
        crate::builder::can_emit_typed(m, bb, seq![lhs, rhs], 0),
        m.operand_typed(bb, rhs),
        m.slot_count(bb.function) + 3 < index_limit(),
        is_width(w),
        in_width(w, x),
        in_width(w, y),
        slot_encoding(lhs) == slot_encoding(rhs) ==> x == y,
    ensures
        ({
            let m2 = checked_binop_module(m, bb, oop, false, lhs, rhs);
            let k = m.block_instructions(bb).len();
            let ins = m2.block_instructions(bb);
            let res = Slot::Value(bb.function, m.slot_count(bb.function) as u32);
            let arith = ins[k as int];
            let flag = ins[k as int + 1];
            let r = int_arith_result(
                arith.kind,
                w,
                operand_value(arith.ops[0], lhs, rhs, res, x, y, 0),
                operand_value(arith.ops[1], lhs, rhs, res, x, y, 0),
            );
            &&& ins.len() == k + 2
            &&& arith.result == slot_encoding(res)
            &&& r == if oop == OverflowOp::Add {
                (x + y) % modulus(w)
            } else {
                (x - y) % modulus(w)
            }
            &&& int_compare_holds(
                flag.kind,
                w,
                operand_value(flag.ops[0], lhs, rhs, res, x, y, r),
                operand_value(flag.ops[1], lhs, rhs, res, x, y, r),
            ) == if oop == OverflowOp::Add {
                x + y >= modulus(w)
            } else {
                x < y
            }
        }),
{
    let n = m.slot_count(bb.function);
    let res = Slot::Value(bb.function, n as u32);
    let kind = crate::builder::overflow_op_kind(oop);
    let m1 = m.emit(bb, kind, seq![lhs, rhs], Some(FullType::Single(m.scalar_type(lhs))));
    lemma_emit_single(m, bb, kind, seq![lhs, rhs], m.scalar_type(lhs));
    let fops = if oop == OverflowOp::Sub {
        seq![lhs, rhs]
    } else {
        seq![res, lhs]
    };
    lemma_emit_single(m1, bb, InstructionKind::CMPult, fops, Type::Bool);
    // The fresh result's encoding differs from both operands'.
    match lhs {
        Slot::Const(i) => lemma_const_encoding_high(i),
        _ => {},
    }
    match rhs {
        Slot::Const(i) => lemma_const_encoding_high(i),
        _ => {},
    }
    assert(slot_encoding(res) != slot_encoding(lhs));
    assert(slot_encoding(res) != slot_encoding(rhs));
}

// ---------------------------------------------------------------------------
// Storing two halves
// ---------------------------------------------------------------------------

/// Storing two halves emits a store of `a` at `dst`, an address `offset`
/// bytes past `dst` (stride times constant index), and a store of `b` at
/// that address.
#[verifier::spinoff_prover]
pub proof fn law_store_two_offsets(
    m: ModuleView,
    bb: BasicBlock,
    a: Slot,
    b: Slot,
    dst: Slot,
    align: u64,
    offset: u64,
    align_b: u64,
)
    requires
        m.has_block(bb),
        m.consts.len() < index_limit(),
        m.slot_count(bb.function) + 2 < index_limit(),
    ensures
        ({
            let m4 = store_two_module(m, bb, a, b, dst, align, offset, align_b);
            let k = m.block_instructions(bb).len();
            let ins = m4.block_instructions(bb);
            let first = ins[k as int];
            let gep = ins[k as int + 1];
            let second = ins[k as int + 2];
            &&& ins.len() == k + 3
            &&& first.kind == InstructionKind::Store
            &&& first.ops[0] == slot_encoding(a)
            &&& first.ops[1] == slot_encoding(dst)
            &&& gep.kind == InstructionKind::GEP
            &&& gep.ops[0] == slot_encoding(dst)
            &&& decoded_slot(gep.ops[1]) is Raw
            &&& decoded_slot(gep.ops[2]) is Const
            &&& decoded_slot(gep.ops[2])->Const_0 < m4.consts.len()
            &&& decoded_slot(gep.ops[1])->Raw_0 * const_number(
                m4.consts[decoded_slot(gep.ops[2])->Const_0 as int],
            ) == offset
            &&& second.kind == InstructionKind::Store
            &&& second.ops[0] == slot_encoding(b)
            &&& second.ops[1] == gep.result
        }),
{
    let f = bb.function;
    let m1 = m.emit(bb, InstructionKind::Store, seq![a, dst, Slot::Raw(align as u32)], None);
    assert(m1.block_instructions(bb) =~= m.block_instructions(bb).push(
        instruction_view(InstructionKind::Store, seq![a, dst, Slot::Raw(align as u32)], false, 0),
    ));
    assert(m1.slot_count(f) == m.slot_count(f));
    let c = m1.consts.len();
    let m2 = m1.push_const(Value { ty: Type::i64, data1: 0, data2: offset });
    assert(m2.block_instructions(bb) == m1.block_instructions(bb));
    let gops = seq![dst, Slot::Raw(1), Slot::Const(c as u32)];
    lemma_emit_single(m2, bb, InstructionKind::GEP, gops, Type::i64);
    let m3 = m2.emit(bb, InstructionKind::GEP, gops, Some(FullType::Single(Type::i64)));
    let ptr = Slot::Value(f, m2.slot_count(f) as u32);
    let sops = seq![b, ptr, Slot::Raw(align_b as u32)];
    assert(m3.emit(bb, InstructionKind::Store, sops, None).block_instructions(bb)
        =~= m3.block_instructions(bb).push(instruction_view(InstructionKind::Store, sops, false, 0)));
    crate::laws::law_decode_after_encode(Slot::Raw(1));
    crate::laws::law_decode_after_encode(Slot::Const(c as u32));
}

} // verus!
