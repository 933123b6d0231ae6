//! Properties of the module builder that span several operations.
use crate::ffi::{
    high_half, low_half, value_data, Chunk, ChunkType, GlobalView, InstructionKind, ModuleView, Type,
    Value,
};
use crate::ir::{
    decodable, decoded_slot, encodable, index_limit, linker_flags, new_global_view, slot_encoding, BasicBlock,
    FullType, Function, Linkage, Slot, MARKER_BLOCK, MARKER_CONST, MARKER_FUNC, MARKER_GLOBAL,
    MARKER_PTR, MARKER_RAW,
};
use vstd::prelude::*;

verus! {

// ---------------------------------------------------------------------------
// Operand encoding
// ---------------------------------------------------------------------------

/// Whether every index a slot carries fits below the marker bits.
pub open spec fn indices_fit(s: Slot) -> bool {
    match s {
        Slot::Value(_, v) => v < index_limit(),
        Slot::Const(i) => i < index_limit(),
        Slot::Alloc(i) => i < index_limit(),
        Slot::Raw(i) => i < index_limit(),
        Slot::Func(f) => f.0 < index_limit(),
        Slot::Global(g) => g.0 < index_limit(),
        _ => false,
    }
}

/// What survives an encoding round trip: a value forgets its function and
/// comes back as a value of function 0.
pub open spec fn encoding_normal_form(s: Slot) -> Slot {
    match s {
        Slot::Value(_, v) => Slot::Value(Function(0), v),
        _ => s,
    }
}

proof fn lemma_marker_bits(i: u32, m: u32)
    by (bit_vector)
    requires
        i < 0x2000_0000,
        m == 0 || m == 0x2000_0000 || m == 0x4000_0000 || m == 0x6000_0000 || m == 0x8000_0000
            || m == 0xA000_0000,
    ensures
        (i | m) & 0xE000_0000u32 == m,
        (i | m) & !0xE000_0000u32 == i,
        i | 0u32 == i,
{
}

proof fn lemma_split_bits(x: u32)
    by (bit_vector)
    ensures
        (x & !0xE000_0000u32) | (x & 0xE000_0000u32) == x,
        (x & !0xE000_0000u32) < 0x2000_0000,
        (x & 0xE000_0000u32) == 0 || (x & 0xE000_0000u32) == 0x2000_0000 || (x & 0xE000_0000u32)
            == 0x4000_0000 || (x & 0xE000_0000u32) == 0x6000_0000 || (x & 0xE000_0000u32)
            == 0x8000_0000 || (x & 0xE000_0000u32) == 0xA000_0000 || (x & 0xE000_0000u32)
            == 0xC000_0000 || (x & 0xE000_0000u32) == 0xE000_0000,
{
}

/// Decoding an encoded slot gives the slot back, except that a value
/// comes back as a value of function 0: the operand does not say its
/// function.
pub proof fn law_decode_after_encode(s: Slot)
    requires
        encodable(s),
        indices_fit(s),
    ensures
        decodable(slot_encoding(s)),
        decoded_slot(slot_encoding(s)) == encoding_normal_form(s),
{
    match s {
        Slot::Value(_, v) => lemma_marker_bits(v, 0),
        Slot::Const(i) => lemma_marker_bits(i, MARKER_CONST),
        Slot::Alloc(i) => lemma_marker_bits(i, MARKER_PTR),
        Slot::Raw(i) => lemma_marker_bits(i, MARKER_RAW),
        Slot::Func(f) => lemma_marker_bits(f.0 as u32, MARKER_FUNC),
        Slot::Global(g) => lemma_marker_bits(g.0 as u32, MARKER_GLOBAL),
        _ => {},
    }
}

/// Encoding a decoded operand gives the operand back.
pub proof fn law_encode_after_decode(x: u32)
    requires
        decodable(x),
    ensures
        encodable(decoded_slot(x)),
        indices_fit(decoded_slot(x)),
        slot_encoding(decoded_slot(x)) == x,
{
    lemma_split_bits(x);
    let u = x & !MARKER_BLOCK;
    lemma_marker_bits(u, x & MARKER_BLOCK);
}

// ---------------------------------------------------------------------------
// Constants
// ---------------------------------------------------------------------------

/// A constant built from 128 bits reads back as those bits when its low
/// half is zero; `Value::data` shifts the high half by `64 + data2`, so
/// other bits do not read back.
pub proof fn law_const_data_round_trip(ty: Type, v: u128)
    requires
        low_half(v) == 0,
    ensures
        ({
            let c = Value { ty, data1: high_half(v), data2: low_half(v) };
            c.data2 < 64 && value_data(c.data1, c.data2) == v
        }),
{
    assert(((v >> 64u128) as u64) as u128 == v >> 64u128) by (bit_vector);
    assert((v as u64) == 0 ==> (((v >> 64u128) as u64) as u128) << 64u128 == v) by (bit_vector);
}

// ---------------------------------------------------------------------------
// Linker flags
// ---------------------------------------------------------------------------

/// A linkage sets at most one of the three linker flags.
pub proof fn law_linker_flags_exclusive(linkage: Linkage)
    ensures
        !(linker_flags(linkage).extern_link && linker_flags(linkage).only_local),
        !(linker_flags(linkage).extern_link && linker_flags(linkage).weak_link),
        !(linker_flags(linkage).only_local && linker_flags(linkage).weak_link),
{
}

// ---------------------------------------------------------------------------
// Growth keeps what was built
// ---------------------------------------------------------------------------

/// `self` holds everything `old` holds, possibly with more appended: more
/// functions and constants, and longer slot and pair tables.
pub open spec fn extends(new: ModuleView, old: ModuleView) -> bool {
    &&& old.functions.len() <= new.functions.len()
    &&& forall|i: int|
        0 <= i < old.functions.len() ==> {
            &&& old.functions[i].slots.len() <= #[trigger] new.functions[i].slots.len()
            &&& old.functions[i].slots == new.functions[i].slots.take(
                old.functions[i].slots.len() as int,
            )
            &&& old.functions[i].slot_pairs.len() <= new.functions[i].slot_pairs.len()
            &&& old.functions[i].slot_pairs == new.functions[i].slot_pairs.take(
                old.functions[i].slot_pairs.len() as int,
            )
        }
    &&& old.consts.len() <= new.consts.len()
    &&& old.consts == new.consts.take(old.consts.len() as int)
    &&& old.const_pairs.len() <= new.const_pairs.len()
    &&& old.const_pairs == new.const_pairs.take(old.const_pairs.len() as int)
}

proof fn lemma_scalar_kept(new: ModuleView, old: ModuleView, s: Slot)
    requires
        extends(new, old),
        old.scalar_defined(s),
    ensures
        new.scalar_defined(s),
        new.scalar_type(s) == old.scalar_type(s),
{
    match s {
        Slot::Value(f, i) => {
            let fi = f.0 as int;
            assert(old.functions[fi].slots[i as int] == new.functions[fi].slots.take(
                old.functions[fi].slots.len() as int,
            )[i as int]);
        },
        Slot::Const(i) => {
            assert(old.consts[i as int] == new.consts.take(old.consts.len() as int)[i as int]);
        },
        _ => {},
    }
}

/// A slot that has a type keeps it while the module grows.
pub proof fn law_types_kept(new: ModuleView, old: ModuleView, s: Slot)
    requires
        extends(new, old),
        old.slot_typed(s),
    ensures
        new.slot_typed(s),
        new.slot_type(s) == old.slot_type(s),
{
    if old.scalar_defined(s) {
        lemma_scalar_kept(new, old, s);
    } else {
        let p = old.pair_ref(s);
        match s {
            Slot::Pair(f, i) => {
                let fi = f.0 as int;
                assert(old.functions[fi].slots.len() <= new.functions[fi].slots.len());
                assert(old.functions[fi].slot_pairs[i as int]
                    == new.functions[fi].slot_pairs.take(
                    old.functions[fi].slot_pairs.len() as int,
                )[i as int]);
            },
            Slot::CPair(i) => {
                assert(old.const_pairs[i as int] == new.const_pairs.take(
                    old.const_pairs.len() as int,
                )[i as int]);
            },
            _ => {},
        }
        assert(new.pair_ref(s) == p);
        lemma_scalar_kept(new, old, decoded_slot(p.slot_a));
        lemma_scalar_kept(new, old, decoded_slot(p.slot_b));
    }
}

/// Emitting an instruction only appends: the module after extends the
/// module before.
pub proof fn law_emit_extends(
    m: ModuleView,
    bb: BasicBlock,
    kind: InstructionKind,
    ops: Seq<Slot>,
    ret: Option<FullType>,
)
    requires
        m.can_emit(bb, ops, ret),
    ensures
        extends(m.emit(bb, kind, ops, ret), m),
{
    let n = m.emit(bb, kind, ops, ret);
    let f = bb.function.0 as int;
    assert forall|i: int| 0 <= i < m.functions.len() implies {
        &&& m.functions[i].slots.len() <= #[trigger] n.functions[i].slots.len()
        &&& m.functions[i].slots == n.functions[i].slots.take(m.functions[i].slots.len() as int)
        &&& m.functions[i].slot_pairs.len() <= n.functions[i].slot_pairs.len()
        &&& m.functions[i].slot_pairs == n.functions[i].slot_pairs.take(
            m.functions[i].slot_pairs.len() as int,
        )
    } by {
        assert(m.functions[i].slots =~= n.functions[i].slots.take(m.functions[i].slots.len() as int));
        assert(m.functions[i].slot_pairs =~= n.functions[i].slot_pairs.take(
            m.functions[i].slot_pairs.len() as int,
        ));
    }
    assert(m.consts =~= n.consts.take(m.consts.len() as int));
    assert(m.const_pairs =~= n.const_pairs.take(m.const_pairs.len() as int));
}

// ---------------------------------------------------------------------------
// What is written is read back
// ---------------------------------------------------------------------------

/// A slot added to a function has the type it was added with.
pub proof fn law_added_slot_type(m: ModuleView, f: Function, ty: Type)
    requires
        m.has_function(f),
        m.slot_count(f) < u32::MAX,
    ensures
        m.push_slot(f.0 as int, ty).slot_typed(Slot::Value(f, m.slot_count(f) as u32)),
        m.push_slot(f.0 as int, ty).slot_type(Slot::Value(f, m.slot_count(f) as u32))
            == FullType::Single(ty),
{
}

/// A constant has the type it was recorded with.
pub proof fn law_added_const_type(m: ModuleView, ty: Type, data: u128)
    requires
        m.consts.len() <= u32::MAX,
    ensures
        ({
            let m2 = m.push_const(Value { ty, data1: high_half(data), data2: low_half(data) });
            &&& m2.slot_typed(Slot::Const(m.consts.len() as u32))
            &&& m2.slot_type(Slot::Const(m.consts.len() as u32)) == FullType::Single(ty)
        }),
{
}

/// A constant pair made of two fresh constants has the pair type of
/// them, as long as the constants' indices fit in an operand.
pub proof fn law_const_pair_values_type(
    m: ModuleView,
    ty_a: Type,
    ty_b: Type,
    offset_b: u8,
    data_a: u128,
    data_b: u128,
)
    requires
        m.consts.len() + 1 < index_limit(),
        m.const_pairs.len() <= u32::MAX,
    ensures
        ({
            let n = m.consts.len();
            let m2 = m.push_const(
                Value { ty: ty_a, data1: high_half(data_a), data2: low_half(data_a) },
            ).push_const(
                Value { ty: ty_b, data1: high_half(data_b), data2: low_half(data_b) },
            ).push_const_pair(
                crate::ffi::PairRef {
                    slot_a: slot_encoding(Slot::Const(n as u32)),
                    slot_b: slot_encoding(Slot::Const((n + 1) as u32)),
                    offset_b,
                },
            );
            let s = Slot::CPair(m.const_pairs.len() as u32);
            &&& m2.slot_typed(s)
            &&& m2.slot_type(s) == FullType::Pair(ty_a, ty_b, offset_b)
        }),
{
    let n = m.consts.len();
    law_decode_after_encode(Slot::Const(n as u32));
    law_decode_after_encode(Slot::Const((n + 1) as u32));
}

/// The result of an instruction with a scalar result type has that type.
pub proof fn law_emit_single_result_type(
    m: ModuleView,
    bb: BasicBlock,
    kind: InstructionKind,
    ops: Seq<Slot>,
    ty: Type,
)
    requires
        m.can_emit(bb, ops, Some(FullType::Single(ty))),
    ensures
        ({
            let r = m.emit_result(bb, Some(FullType::Single(ty)));
            let m2 = m.emit(bb, kind, ops, Some(FullType::Single(ty)));
            &&& r is Some
            &&& m2.slot_typed(r->0)
            &&& m2.slot_type(r->0) == FullType::Single(ty)
        }),
{
}

/// The result of an instruction with a pair result type has that pair
/// type, for an instruction of function 0: the halves of a pair are read
/// back as values of function 0.
pub proof fn law_emit_pair_result_type(
    m: ModuleView,
    bb: BasicBlock,
    kind: InstructionKind,
    ops: Seq<Slot>,
    ty_a: Type,
    ty_b: Type,
    offset_b: u8,
)
    requires
        m.can_emit(bb, ops, Some(FullType::Pair(ty_a, ty_b, offset_b))),
        bb.function == Function(0),
        m.slot_count(bb.function) + 1 < index_limit(),
        m.functions[0].slot_pairs.len() <= u32::MAX,
    ensures
        ({
            let ret = Some(FullType::Pair(ty_a, ty_b, offset_b));
            let r = m.emit_result(bb, ret);
            let m2 = m.emit(bb, kind, ops, ret);
            &&& r is Some
            &&& m2.slot_typed(r->0)
            &&& m2.slot_type(r->0) == FullType::Pair(ty_a, ty_b, offset_b)
        }),
{
    let n = m.slot_count(bb.function);
    law_decode_after_encode(Slot::Value(bb.function, n as u32));
    law_decode_after_encode(Slot::Value(bb.function, (n + 1) as u32));
}

// ---------------------------------------------------------------------------
// Fresh names
// ---------------------------------------------------------------------------

/// Names generated with one prefix from different counter values differ.
pub proof fn law_generated_names_distinct(prefix: Seq<char>, a: nat, b: nat)
    requires
        a != b,
    ensures
        crate::symbols::generated_name(prefix, a) != crate::symbols::generated_name(prefix, b),
{
    let na = crate::symbols::generated_name(prefix, a);
    let nb = crate::symbols::generated_name(prefix, b);
    if na == nb {
        let k = prefix.len() + 1;
        assert(na.subrange(k as int, na.len() as int) =~= crate::symbols::base_62(a));
        assert(nb.subrange(k as int, nb.len() as int) =~= crate::symbols::base_62(b));
        crate::symbols::lemma_base_62_value(a);
        crate::symbols::lemma_base_62_value(b);
    }
}

// ---------------------------------------------------------------------------
// Items are declared once
// ---------------------------------------------------------------------------

/// Asking twice for the global of a static gives the same global, and the
/// second time changes nothing.
pub proof fn law_get_global_idempotent(
    globals: Map<u64, crate::ir::Global>,
    m: ModuleView,
    def_id: u64,
    name1: Seq<char>,
    name2: Seq<char>,
)
    ensures
        ({
            let (g1, m1, t1) = crate::context::global_lookup(globals, m, def_id, name1);
            crate::context::global_lookup(t1, m1, def_id, name2) == (g1, m1, t1)
        }),
{
}

/// Asking twice for the function of an instance gives the same function,
/// and the second time changes nothing.
pub proof fn law_get_fn_idempotent(
    functions: Map<u64, Function>,
    m: ModuleView,
    instance: u64,
    name1: Seq<char>,
    sig1: crate::ir::SignatureView,
    name2: Seq<char>,
    sig2: crate::ir::SignatureView,
)
    ensures
        ({
            let (f1, m1, t1) = crate::context::function_lookup(functions, m, instance, name1, sig1);
            crate::context::function_lookup(t1, m1, instance, name2, sig2) == (f1, m1, t1)
        }),
{
}

// ---------------------------------------------------------------------------
// Overflow checks
// ---------------------------------------------------------------------------

/// An overflow-checked operation gives a result of the type of its left
/// operand and a boolean overflow flag.
pub proof fn law_checked_binop_types(
    m: ModuleView,
    bb: BasicBlock,
    oop: crate::builder::OverflowOp,
    signed: bool,
    lhs: Slot,
    rhs: Slot,
)
    requires
        crate::builder::can_emit_typed(m, bb, seq![lhs, rhs], 0),
        m.slot_count(bb.function) + 3 <= u32::MAX,
    ensures
        ({
            let m2 = crate::builder::checked_binop_module(m, bb, oop, signed, lhs, rhs);
            let res = crate::builder::fresh_value(m, bb, 0);
            let flag = crate::builder::fresh_value(m, bb, 1);
            &&& m2.slot_typed(res)
            &&& m2.slot_type(res) == FullType::Single(m.scalar_type(lhs))
            &&& m2.slot_typed(flag)
            &&& m2.slot_type(flag) == FullType::Single(Type::Bool)
        }),
{
    let kind = crate::builder::overflow_op_kind(oop);
    let ret1 = Some(FullType::Single(m.scalar_type(lhs)));
    let m1 = m.emit(bb, kind, seq![lhs, rhs], ret1);
    law_emit_single_result_type(m, bb, kind, seq![lhs, rhs], m.scalar_type(lhs));
    let res = crate::builder::fresh_value(m, bb, 0);
    let ops2 = if !signed && oop == crate::builder::OverflowOp::Sub {
        seq![lhs, rhs]
    } else if !signed && oop == crate::builder::OverflowOp::Add {
        seq![res, lhs]
    } else {
        seq![Slot::Raw(if signed { 1u32 } else { 0u32 })]
    };
    let kind2 = if !signed && (oop == crate::builder::OverflowOp::Sub || oop
        == crate::builder::OverflowOp::Add) {
        InstructionKind::CMPult
    } else {
        InstructionKind::OverflowCheck
    };
    assert(m1.slot_count(bb.function) == m.slot_count(bb.function) + 1);
    assert(m1.has_block(bb));
    assert(crate::ir::all_encodable(ops2));
    assert(m1.can_emit(bb, ops2, Some(FullType::Single(Type::Bool))));
    let m2 = m1.emit(bb, kind2, ops2, Some(FullType::Single(Type::Bool)));
    assert(m2 == crate::builder::checked_binop_module(m, bb, oop, signed, lhs, rhs));
    law_emit_single_result_type(m1, bb, kind2, ops2, Type::Bool);
    law_emit_extends(m1, bb, kind2, ops2, Some(FullType::Single(Type::Bool)));
    law_types_kept(m2, m1, res);
}

// ---------------------------------------------------------------------------
// Chunk indices name what exists
// ---------------------------------------------------------------------------

/// The data indices that the initialised chunks of a global carry, in order.
pub open spec fn init_indices(cs: Seq<Chunk>) -> Seq<u32>
    decreases cs.len(),
{
    if cs.len() == 0 {
        Seq::empty()
    } else {
        init_indices(cs.drop_last()) + if cs.last().type_ == ChunkType::Init {
            seq![cs.last().data]
        } else {
            Seq::<u32>::empty()
        }
    }
}

/// How many relocation chunks of a global name relocation `r`.
pub open spec fn reloc_refs(cs: Seq<Chunk>, r: int) -> nat
    decreases cs.len(),
{
    if cs.len() == 0 {
        0
    } else {
        reloc_refs(cs.drop_last(), r) + if cs.last().type_ == ChunkType::Reloc && cs.last().data
            == r {
            1nat
        } else {
            0nat
        }
    }
}

/// How many relocation chunks of all globals name relocation `r`.
pub open spec fn all_reloc_refs(gs: Seq<GlobalView>, r: int) -> nat
    decreases gs.len(),
{
    if gs.len() == 0 {
        0
    } else {
        all_reloc_refs(gs.drop_last(), r) + reloc_refs(gs.last().chunks, r)
    }
}

/// The chunk indices of a module name what exists: the initialised chunks
/// of each global carry 0, 1, .. up to its number of data blocks, in order,
/// and each relocation of the module is named by exactly one relocation
/// chunk, and no relocation chunk names anything else.
pub open spec fn chunk_indices_wf(m: ModuleView) -> bool {
    &&& forall|g: int|
        0 <= g < m.globals.len() ==> init_indices(#[trigger] m.globals[g].chunks) == Seq::new(
            m.globals[g].data.len(),
            |i: int| i as u32,
        )
    &&& forall|r: int|
        #[trigger] all_reloc_refs(m.globals, r) == if 0 <= r < m.relocations.len() {
            1nat
        } else {
            0nat
        }
}

proof fn lemma_refs_update(gs: Seq<GlobalView>, g: int, new: GlobalView, r: int)
    requires
        0 <= g < gs.len(),
    ensures
        all_reloc_refs(gs.update(g, new), r) + reloc_refs(gs[g].chunks, r) == all_reloc_refs(gs, r)
            + reloc_refs(new.chunks, r),
    decreases gs.len(),
{
    let u = gs.update(g, new);
    if g == gs.len() - 1 {
        assert(u.drop_last() =~= gs.drop_last());
    } else {
        assert(u.drop_last() =~= gs.drop_last().update(g, new));
        lemma_refs_update(gs.drop_last(), g, new, r);
    }
}

/// A global whose chunks change, with `extra` relocations appended, and the
/// rest of the module as it was.
proof fn lemma_wf_global_changed(
    m: ModuleView,
    g: int,
    new: GlobalView,
    rels: Seq<crate::ffi::Relocation>,
    extra: int,
)
    requires
        chunk_indices_wf(m),
        0 <= g < m.globals.len(),
        init_indices(new.chunks) == Seq::new(new.data.len(), |i: int| i as u32),
        0 <= extra <= 1,
        rels.len() == m.relocations.len() + extra,
        forall|r: int|
            #[trigger] reloc_refs(new.chunks, r) == reloc_refs(m.globals[g].chunks, r) + if r
                == m.relocations.len() {
                extra as nat
            } else {
                0nat
            },
    ensures
        chunk_indices_wf(ModuleView { globals: m.globals.update(g, new), relocations: rels, ..m }),
{
    let m2 = ModuleView { globals: m.globals.update(g, new), relocations: rels, ..m };
    assert forall|r: int| #[trigger]
        all_reloc_refs(m2.globals, r) == if 0 <= r < m2.relocations.len() {
            1nat
        } else {
            0nat
        } by {
        lemma_refs_update(m.globals, g, new, r);
        assert(all_reloc_refs(m.globals, r) == if 0 <= r < m.relocations.len() {
            1nat
        } else {
            0nat
        });
        assert(reloc_refs(new.chunks, r) == reloc_refs(m.globals[g].chunks, r) + if r
            == m.relocations.len() {
            extra as nat
        } else {
            0nat
        });
    }
    assert forall|h: int| 0 <= h < m2.globals.len() implies init_indices(
        #[trigger] m2.globals[h].chunks,
    ) == Seq::new(m2.globals[h].data.len(), |i: int| i as u32) by {
        if h != g {
            assert(m2.globals[h] == m.globals[h]);
        }
    }
}

proof fn lemma_push_chunk(cs: Seq<Chunk>, c: Chunk, r: int)
    ensures
        init_indices(cs.push(c)) == init_indices(cs) + if c.type_ == ChunkType::Init {
            seq![c.data]
        } else {
            Seq::<u32>::empty()
        },
        reloc_refs(cs.push(c), r) == reloc_refs(cs, r) + if c.type_ == ChunkType::Reloc && c.data
            == r {
            1nat
        } else {
            0nat
        },
{
    assert(cs.push(c).drop_last() =~= cs);
}

/// An empty module names nothing.
pub proof fn law_chunk_indices_new()
    ensures
        chunk_indices_wf(ModuleView::empty()),
{
}

/// Adding a global keeps every chunk index naming what exists.
pub proof fn law_chunk_indices_add_global(m: ModuleView, name: Seq<char>, linkage: Linkage)
    requires
        chunk_indices_wf(m),
    ensures
        chunk_indices_wf(m.push_global(new_global_view(name, linkage))),
{
    let m2 = m.push_global(new_global_view(name, linkage));
    assert forall|r: int| #[trigger]
        all_reloc_refs(m2.globals, r) == if 0 <= r < m2.relocations.len() {
            1nat
        } else {
            0nat
        } by {
        assert(m2.globals.drop_last() =~= m.globals);
        assert(all_reloc_refs(m.globals, r) == if 0 <= r < m.relocations.len() {
            1nat
        } else {
            0nat
        });
    }
    assert forall|h: int| 0 <= h < m2.globals.len() implies init_indices(
        #[trigger] m2.globals[h].chunks,
    ) == Seq::new(m2.globals[h].data.len(), |i: int| i as u32) by {
        if h == m.globals.len() {
            assert(init_indices(m2.globals[h].chunks) =~= Seq::new(0, |i: int| i as u32));
        } else {
            assert(m2.globals[h] == m.globals[h]);
        }
    }
}

/// Setting a global's alignment or making it thread-local changes no chunk.
pub proof fn law_chunk_indices_set_align(m: ModuleView, g: int, align: u32)
    requires
        chunk_indices_wf(m),
        0 <= g < m.globals.len(),
    ensures
        chunk_indices_wf(m.set_global_align(g, align)),
        chunk_indices_wf(m.set_global_thread_local(g)),
{
    let ga = GlobalView { align, ..m.globals[g] };
    let gt = GlobalView { thread_loc: true, ..m.globals[g] };
    lemma_wf_global_changed(m, g, ga, m.relocations, 0);
    lemma_wf_global_changed(m, g, gt, m.relocations, 0);
    assert(m.set_global_align(g, align) == ModuleView { globals: m.globals.update(g, ga), relocations: m.relocations, ..m });
    assert(m.set_global_thread_local(g) == ModuleView { globals: m.globals.update(g, gt), relocations: m.relocations, ..m });
}

/// An uninitialised chunk names nothing.
pub proof fn law_chunk_indices_unit_chunk(m: ModuleView, g: int, size: u32)
    requires
        chunk_indices_wf(m),
        0 <= g < m.globals.len(),
    ensures
        chunk_indices_wf(m.push_global_chunk(g, Chunk { type_: ChunkType::UnInit, data: size })),
{
    let c = Chunk { type_: ChunkType::UnInit, data: size };
    let old_g = m.globals[g];
    let new = GlobalView { chunks: old_g.chunks.push(c), ..old_g };
    assert forall|r: int| #[trigger]
        reloc_refs(new.chunks, r) == reloc_refs(old_g.chunks, r) + if r == m.relocations.len() {
            0nat
        } else {
            0nat
        } by {
        lemma_push_chunk(old_g.chunks, c, r);
    }
    lemma_push_chunk(old_g.chunks, c, 0);
    assert(init_indices(new.chunks) =~= init_indices(old_g.chunks));
    lemma_wf_global_changed(m, g, new, m.relocations, 0);
    assert(m.push_global_chunk(g, c) == ModuleView {
        globals: m.globals.update(g, new),
        relocations: m.relocations,
        ..m
    });
}

/// An initialised chunk names the data block appended with it.
pub proof fn law_chunk_indices_init_chunk(m: ModuleView, g: int, d: Seq<u8>)
    requires
        chunk_indices_wf(m),
        0 <= g < m.globals.len(),
        m.globals[g].data.len() < u32::MAX,
    ensures
        chunk_indices_wf(
            m.push_global_data(g, d).push_global_chunk(
                g,
                Chunk { type_: ChunkType::Init, data: m.globals[g].data.len() as u32 },
            ),
        ),
{
    let old_g = m.globals[g];
    let c = Chunk { type_: ChunkType::Init, data: old_g.data.len() as u32 };
    let new = GlobalView { chunks: old_g.chunks.push(c), data: old_g.data.push(d), ..old_g };
    assert forall|r: int| #[trigger]
        reloc_refs(new.chunks, r) == reloc_refs(old_g.chunks, r) + if r == m.relocations.len() {
            0nat
        } else {
            0nat
        } by {
        lemma_push_chunk(old_g.chunks, c, r);
    }
    lemma_push_chunk(old_g.chunks, c, 0);
    assert(init_indices(new.chunks) =~= Seq::new(new.data.len(), |i: int| i as u32));
    lemma_wf_global_changed(m, g, new, m.relocations, 0);
    assert(m.push_global_data(g, d).push_global_chunk(g, c) =~= ModuleView {
        globals: m.globals.update(g, new),
        relocations: m.relocations,
        ..m
    });
}

/// A relocation chunk names the relocation appended with it.
pub proof fn law_chunk_indices_reloc_chunk(m: ModuleView, g: int, rel: crate::ffi::Relocation)
    requires
        chunk_indices_wf(m),
        0 <= g < m.globals.len(),
        m.relocations.len() < u32::MAX,
    ensures
        chunk_indices_wf(
            m.push_relocation(rel).push_global_chunk(
                g,
                Chunk { type_: ChunkType::Reloc, data: m.relocations.len() as u32 },
            ),
        ),
{
    let old_g = m.globals[g];
    let c = Chunk { type_: ChunkType::Reloc, data: m.relocations.len() as u32 };
    let new = GlobalView { chunks: old_g.chunks.push(c), ..old_g };
    assert forall|r: int| #[trigger]
        reloc_refs(new.chunks, r) == reloc_refs(old_g.chunks, r) + if r == m.relocations.len() {
            1nat
        } else {
            0nat
        } by {
        lemma_push_chunk(old_g.chunks, c, r);
    }
    lemma_push_chunk(old_g.chunks, c, 0);
    assert(init_indices(new.chunks) =~= init_indices(old_g.chunks));
    lemma_wf_global_changed(m, g, new, m.relocations.push(rel), 1);
    assert(m.push_relocation(rel).push_global_chunk(g, c) =~= ModuleView {
        globals: m.globals.update(g, new),
        relocations: m.relocations.push(rel),
        ..m
    });
}

} // verus!
