//! Constants of the module, and pointers into constant memory.
use crate::consts::{ptr_module, target_ok, target_relocs, GlobalAlloc};
use crate::context::CodegenCx;
use crate::ffi::{high_half, low_half, ModuleTpde, Type, Value};
use crate::ir::{FullType, Slot};
use vstd::prelude::*;

verus! {

// ---------------------------------------------------------------------------
// Constants
// ---------------------------------------------------------------------------

/// The constant that stands for a value of type `t`: zero, or a pair of
/// zeros.
pub fn const_poison(module: &mut ModuleTpde, t: FullType) -> (s: Slot)
    requires
        !(t is Memory),
    ensures
        match t {
            FullType::Single(ty) => {
                &&& s == Slot::Const(old(module)@.consts.len() as u32)
                &&& final(module)@ == old(module)@.push_const(Value { ty, data1: 0, data2: 0 })
            },
            _ => {
                let n = old(module)@.consts.len();
                &&& s == Slot::CPair(old(module)@.const_pairs.len() as u32)
                &&& final(module)@ == old(module)@.push_const(
                    Value { ty: t->Pair_0, data1: 0, data2: 0 },
                ).push_const(Value { ty: t->Pair_1, data1: 0, data2: 0 }).push_const_pair(
                    crate::ffi::PairRef {
                        slot_a: crate::ir::slot_encoding(Slot::Const(n as u32)),
                        slot_b: crate::ir::slot_encoding(Slot::Const((n + 1) as u32)),
                        offset_b: t->Pair_2,
                    },
                )
            },
        },
{
    assert(high_half(0u128) == 0u64 && low_half(0u128) == 0u64) by {
        assert(((0u128 >> 64u128) as u64) == 0u64) by (bit_vector);
    }
    match t {
        FullType::Single(t) => module.add_const(t, 0),
        FullType::Pair(ty_a, ty_b, o) => module.add_const_pair_values(ty_a, ty_b, o, 0, 0),
        FullType::Memory { .. } => Slot::Raw(0),
    }
}

proof fn lemma_small_halves(i: u64)
    ensures
        high_half(i as u128) == 0u64,
        low_half(i as u128) == i,
{
    assert((((i as u128) >> 64u128) as u64) == 0u64) by (bit_vector);
    assert(((i as u128) as u64) == i) by (bit_vector);
}

/// A pointer-sized integer constant.
pub fn const_usize(module: &mut ModuleTpde, i: u64) -> (s: Slot)
    ensures
        s == Slot::Const(old(module)@.consts.len() as u32),
        final(module)@ == old(module)@.push_const(Value { ty: Type::i64, data1: 0, data2: i }),
{
    proof {
        lemma_small_halves(i);
    }
    module.add_const(Type::i64, i as u128)
}

/// An unsigned constant of a scalar type.
pub fn const_uint(module: &mut ModuleTpde, ty: FullType, i: u64) -> (s: Slot)
    requires
        ty is Single,
    ensures
        s == Slot::Const(old(module)@.consts.len() as u32),
        final(module)@ == old(module)@.push_const(Value { ty: ty->Single_0, data1: 0, data2: i }),
{
    proof {
        lemma_small_halves(i);
    }
    let ty = match ty {
        FullType::Single(ty) => ty,
        _ => Type::Void,
    };
    module.add_const(ty, i as u128)
}

/// A 128-bit constant of a scalar type.
pub fn const_uint_big(module: &mut ModuleTpde, ty: FullType, u: u128) -> (s: Slot)
    requires
        ty is Single,
    ensures
        s == Slot::Const(old(module)@.consts.len() as u32),
        final(module)@ == old(module)@.push_const(
            Value { ty: ty->Single_0, data1: high_half(u), data2: low_half(u) },
        ),
{
    let ty = match ty {
        FullType::Single(ty) => ty,
        _ => Type::Void,
    };
    module.add_const(ty, u)
}

// ---------------------------------------------------------------------------
// Scalars
// ---------------------------------------------------------------------------

/// A scalar constant as the compiler evaluated it: the bits of an integer
/// of `size` bytes, or a pointer into constant memory.
pub enum ConstScalar {
    Int { bits: u128, size: u8 },
    Ptr { target: GlobalAlloc, offset: u64 },
}

/// The size in bytes of an integer type of the module.
pub open spec fn int_type_size(ty: Type) -> int {
    match ty {
        Type::i8 => 1,
        Type::i16 => 2,
        Type::i32 => 4,
        Type::i64 => 8,
        _ => 16,
    }
}

pub open spec fn is_int_scalar_type(ty: Type) -> bool {
    ty == Type::i8 || ty == Type::i16 || ty == Type::i32 || ty == Type::i64 || ty == Type::i128
}

/// The bits of an integer read as a signed number of the type's width and
/// widened to 128 bits.
pub open spec fn sign_extended(bits: u128, ty: Type) -> u128 {
    match ty {
        Type::i8 => (bits as u8 as i8) as u128,
        Type::i16 => (bits as u16 as i16) as u128,
        Type::i32 => (bits as u32 as i32) as u128,
        Type::i64 => (bits as u64 as i64) as u128,
        _ => bits,
    }
}

/// Whether a scalar constant can be lowered at type `ty`: an integer of the
/// type's size at an integer type, or a pointer that can be lowered at the
/// pointer type.
pub open spec fn scalar_supported_at(cx: CodegenCx, cv: ConstScalar, ty: FullType) -> bool {
    match (cv, ty) {
        (ConstScalar::Int { size, .. }, FullType::Single(t)) => is_int_scalar_type(t) && size
            == int_type_size(t),
        (ConstScalar::Ptr { target, offset }, FullType::Single(Type::ptr)) => {
            &&& target_ok(cx.globals@, target, offset, cx.data_layout)
            &&& cx.module@.relocations.len() + target_relocs(target) < u32::MAX
        },
        _ => false,
    }
}

impl CodegenCx {
    /// The slot of a scalar constant: an integer becomes a constant of its
    /// type holding its sign-extended bits; a pointer is lowered as a
    /// pointer into constant memory.
    pub fn scalar_to_backend(&mut self, cv: &ConstScalar, ty: FullType) -> (s: Slot)
        requires
            scalar_supported_at(*old(self), *cv, ty),
        ensures
            match *cv {
                ConstScalar::Int { bits, .. } => {
                    let t = ty->Single_0;
                    let data = sign_extended(bits, t);
                    &&& s == Slot::Const(old(self).module@.consts.len() as u32)
                    &&& final(self).module@ == old(self).module@.push_const(
                        Value { ty: t, data1: high_half(data), data2: low_half(data) },
                    )
                },
                ConstScalar::Ptr { target, .. } => (final(self).module@, s) == ptr_module(
                    old(self).module@,
                    old(self).globals@,
                    target,
                    old(self).data_layout.pointer_size,
                    old(self).uninit_const_chunk_threshold,
                ),
            },
            final(self).keeps_names(old(self)),
            final(self).keeps_items(old(self)),
    {
        let t = match ty {
            FullType::Single(t) => t,
            _ => Type::Void,
        };
        match cv {
            ConstScalar::Int { bits, .. } => {
                let bits = *bits;
                let data: u128 = match t {
                    Type::i8 => (bits as u8 as i8) as u128,
                    Type::i16 => (bits as u16 as i16) as u128,
                    Type::i32 => (bits as u32 as i32) as u128,
                    Type::i64 => (bits as u64 as i64) as u128,
                    _ => bits,
                };
                self.module.add_const(t, data)
            },
            ConstScalar::Ptr { target, offset } => self.ptr_to_backend(target, *offset),
        }
    }
}

} // verus!
