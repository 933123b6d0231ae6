//! From the layouts and calling conventions that the compiler computes to
//! the types, argument slots and signatures of the module. The compiler's
//! layout and ABI records are held here as plain values.
use crate::ffi::{default_arg_info, ArgExtension, ArgInfo, ArgKind, Type};
use crate::context::CodegenCx;
use crate::ir::{FullType, FunctionSignature, SignatureView};
use vstd::prelude::*;

verus! {

// ---------------------------------------------------------------------------
// Layouts
// ---------------------------------------------------------------------------

/// The width of an integer in a layout.
#[derive(Debug, Copy, Clone, PartialEq, Eq, Structural)]
pub enum Integer {
    I8,
    I16,
    I32,
    I64,
    I128,
}

/// The width of a floating-point number in a layout.
#[derive(Debug, Copy, Clone, PartialEq, Eq, Structural)]
pub enum Float {
    F16,
    F32,
    F64,
    F128,
}

/// The primitive that a scalar is made of.
#[derive(Debug, Copy, Clone, PartialEq, Eq, Structural)]
pub enum Primitive {
    /// An integer of a width, and whether it is signed.
    Int(Integer, bool),
    Float(Float),
    /// A pointer into an address space.
    Pointer(u32),
}

/// A scalar of a layout: a primitive and the range of its valid values,
/// or a primitive that may hold anything.
#[derive(Debug, Copy, Clone, PartialEq, Eq, Structural)]
pub enum Scalar {
    Initialized { value: Primitive, valid_start: u128, valid_end: u128 },
    Union { value: Primitive },
}

/// How a layout is passed in registers.
#[derive(Debug, Copy, Clone, PartialEq, Eq, Structural)]
pub enum BackendRepr {
    Scalar(Scalar),
    ScalarPair { a: Scalar, b: Scalar, b_offset: u64 },
    Memory { sized: bool },
    /// Vectors, which the code generator does not lower.
    SimdVector,
}

/// The kind of a register.
#[derive(Debug, Copy, Clone, PartialEq, Eq, Structural)]
pub enum RegKind {
    Integer,
    Float,
    Vector,
}

/// A register of a cast, with its size in bytes.
#[derive(Debug, Copy, Clone, PartialEq, Eq, Structural)]
pub struct Reg {
    pub kind: RegKind,
    pub size: u64,
}

/// A value passed as a list of registers: a prefix, then `rest_total`
/// bytes in registers of the `rest_unit` kind and size.
pub struct CastTarget {
    pub prefix: Vec<Reg>,
    pub rest_unit: Reg,
    pub rest_total: u64,
}

/// How the compiler extends an integer argument.
#[derive(Debug, Copy, Clone, PartialEq, Eq, Structural)]
pub enum AbiArgExtension {
    NoExtension,
    Zext,
    Sext,
}

/// How an argument or a result is passed.
pub enum PassMode {
    Ignore,
    Direct(AbiArgExtension),
    Pair(AbiArgExtension, AbiArgExtension),
    Cast(CastTarget),
    Indirect { pointee_size: u64, pointee_align: Option<u64>, has_meta: bool, on_stack: bool },
}

/// An argument or a result: its layout and how it is passed.
pub struct ArgAbi {
    pub layout: BackendRepr,
    pub mode: PassMode,
}

/// The calling convention of a function.
pub struct FnAbi {
    pub args: Vec<ArgAbi>,
    pub ret: ArgAbi,
    pub c_variadic: bool,
    pub fixed_count: u32,
}

/// The kind of a backend type.
#[derive(Debug, Copy, Clone, PartialEq, Eq, Structural)]
pub enum TypeKind {
    Void,
    Integer,
    Float,
    Pointer,
    Struct,
}

// ---------------------------------------------------------------------------
// Scalars
// ---------------------------------------------------------------------------

pub open spec fn scalar_value(s: Scalar) -> Primitive {
    match s {
        Scalar::Initialized { value, .. } => value,
        Scalar::Union { value } => value,
    }
}

/// A scalar is a boolean when it is an initialised unsigned byte whose
/// valid values are 0 and 1.
pub open spec fn scalar_is_bool(s: Scalar) -> bool {
    s == Scalar::Initialized {
        value: Primitive::Int(Integer::I8, false),
        valid_start: 0,
        valid_end: 1,
    }
}

impl Scalar {
    pub fn primitive(&self) -> (p: Primitive)
        ensures
            p == scalar_value(*self),
    {
        match self {
            Scalar::Initialized { value, .. } => *value,
            Scalar::Union { value } => *value,
        }
    }

    pub fn is_bool(&self) -> (b: bool)
        ensures
            b == scalar_is_bool(*self),
    {
        match self {
            Scalar::Initialized { value: Primitive::Int(Integer::I8, false), valid_start, valid_end } =>
                *valid_start == 0 && *valid_end == 1,
            _ => false,
        }
    }
}

pub fn type_i8() -> (t: FullType)
    ensures
        t == FullType::Single(Type::i8),
{
    FullType::Single(Type::i8)
}

pub fn type_i16() -> (t: FullType)
    ensures
        t == FullType::Single(Type::i16),
{
    FullType::Single(Type::i16)
}

pub fn type_i32() -> (t: FullType)
    ensures
        t == FullType::Single(Type::i32),
{
    FullType::Single(Type::i32)
}

pub fn type_i64() -> (t: FullType)
    ensures
        t == FullType::Single(Type::i64),
{
    FullType::Single(Type::i64)
}

pub fn type_i128() -> (t: FullType)
    ensures
        t == FullType::Single(Type::i128),
{
    FullType::Single(Type::i128)
}

/// Pointer-sized integers are 64 bits wide on the supported targets.
pub fn type_isize() -> (t: FullType)
    ensures
        t == FullType::Single(Type::i64),
{
    type_i64()
}

pub fn type_f32() -> (t: FullType)
    ensures
        t == FullType::Single(Type::F32),
{
    FullType::Single(Type::F32)
}

pub fn type_f64() -> (t: FullType)
    ensures
        t == FullType::Single(Type::F64),
{
    FullType::Single(Type::F64)
}

pub fn type_ptr() -> (t: FullType)
    ensures
        t == FullType::Single(Type::ptr),
{
    FullType::Single(Type::ptr)
}

/// Pointers of every address space are plain pointers.
pub fn type_ptr_ext(address_space: u32) -> (t: FullType)
    ensures
        t == FullType::Single(Type::ptr),
{
    type_ptr()
}

/// The type of an integer of a width.
pub open spec fn integer_type(i: Integer) -> Type {
    match i {
        Integer::I8 => Type::i8,
        Integer::I16 => Type::i16,
        Integer::I32 => Type::i32,
        Integer::I64 => Type::i64,
        Integer::I128 => Type::i128,
    }
}

pub fn type_from_integer(i: Integer) -> (t: FullType)
    ensures
        t == FullType::Single(integer_type(i)),
{
    match i {
        Integer::I8 => type_i8(),
        Integer::I16 => type_i16(),
        Integer::I32 => type_i32(),
        Integer::I64 => type_i64(),
        Integer::I128 => type_i128(),
    }
}

/// The code generator has 32- and 64-bit floating-point numbers only.
pub open spec fn float_supported(f: Float) -> bool {
    f == Float::F32 || f == Float::F64
}

pub fn type_from_float(f: Float) -> (t: FullType)
    requires
        float_supported(f),
    ensures
        t == FullType::Single(if f == Float::F32 { Type::F32 } else { Type::F64 }),
{
    match f {
        Float::F32 => type_f32(),
        _ => type_f64(),
    }
}

/// Whether a scalar has a type in the module.
pub open spec fn scalar_supported(s: Scalar) -> bool {
    scalar_is_bool(s) || match scalar_value(s) {
        Primitive::Float(f) => float_supported(f),
        _ => true,
    }
}

/// The type of a scalar: `Bool` for booleans, else by its primitive.
pub open spec fn scalar_type_of(s: Scalar) -> Type {
    if scalar_is_bool(s) {
        Type::Bool
    } else {
        match scalar_value(s) {
            Primitive::Int(i, _) => integer_type(i),
            Primitive::Float(f) => if f == Float::F32 {
                Type::F32
            } else {
                Type::F64
            },
            Primitive::Pointer(_) => Type::ptr,
        }
    }
}

pub fn tpde_scalar_type(scalar: Scalar) -> (t: FullType)
    requires
        scalar_supported(scalar),
    ensures
        t == FullType::Single(scalar_type_of(scalar)),
{
    if scalar.is_bool() {
        return FullType::Single(Type::Bool);
    }
    match scalar.primitive() {
        Primitive::Int(i, _) => type_from_integer(i),
        Primitive::Float(f) => type_from_float(f),
        Primitive::Pointer(address_space) => type_ptr_ext(address_space),
    }
}

/// Whether a layout has a type in the module.
pub open spec fn repr_supported(r: BackendRepr) -> bool {
    match r {
        BackendRepr::Scalar(s) => scalar_supported(s),
        BackendRepr::ScalarPair { a, b, .. } => scalar_supported(a) && scalar_supported(b),
        BackendRepr::Memory { .. } => true,
        BackendRepr::SimdVector => false,
    }
}

/// The type of a layout: a scalar, a pair of scalars with the offset of the
/// second truncated to a byte, or memory.
pub open spec fn direct_type(r: BackendRepr) -> FullType {
    match r {
        BackendRepr::Scalar(s) => FullType::Single(scalar_type_of(s)),
        BackendRepr::ScalarPair { a, b, b_offset } => FullType::Pair(
            scalar_type_of(a),
            scalar_type_of(b),
            b_offset as usize as u8,
        ),
        BackendRepr::Memory { sized } => FullType::Memory { sized },
        BackendRepr::SimdVector => FullType::Memory { sized: false },
    }
}

pub(crate) fn direct_backend_type(repr: BackendRepr) -> (t: FullType)
    requires
        repr_supported(repr),
    ensures
        t == direct_type(repr),
{
    match repr {
        BackendRepr::Scalar(scalar) => tpde_scalar_type(scalar),
        BackendRepr::ScalarPair { a, b, b_offset } => {
            let a = match tpde_scalar_type(a) {
                FullType::Single(t) => t,
                _ => Type::Void,
            };
            let b = match tpde_scalar_type(b) {
                FullType::Single(t) => t,
                _ => Type::Void,
            };
            FullType::Pair(a, b, b_offset as usize as u8)
        },
        BackendRepr::Memory { sized } => FullType::Memory { sized },
        BackendRepr::SimdVector => FullType::Memory { sized: false },
    }
}

/// The type of one half of a scalar pair.
pub fn scalar_pair_element_backend_type(layout: BackendRepr, index: usize, immediate: bool) -> (t: FullType)
    requires
        layout is ScalarPair,
        index < 2,
        scalar_supported(if index == 0 { layout->a } else { layout->b }),
    ensures
        t == FullType::Single(scalar_type_of(if index == 0 { layout->a } else { layout->b })),
{
    let (a, b) = match layout {
        BackendRepr::ScalarPair { a, b, b_offset: _ } => (a, b),
        _ => (Scalar::Union { value: Primitive::Pointer(0) }, Scalar::Union { value: Primitive::Pointer(0) }),
    };
    let scalar = if index == 0 { a } else { b };
    tpde_scalar_type(scalar)
}

// ---------------------------------------------------------------------------
// Widths and kinds
// ---------------------------------------------------------------------------

pub open spec fn type_kind_of(ty: FullType) -> TypeKind {
    match ty {
        FullType::Single(Type::Void) => TypeKind::Void,
        FullType::Single(Type::F32) | FullType::Single(Type::F64) => TypeKind::Float,
        FullType::Single(Type::ptr) => TypeKind::Pointer,
        FullType::Single(_) => TypeKind::Integer,
        _ => TypeKind::Struct,
    }
}

/// The kind of a type; pairs are structs.
pub fn type_kind(ty: FullType) -> (k: TypeKind)
    requires
        !(ty is Memory),
        ty != FullType::Single(Type::Last),
    ensures
        k == type_kind_of(ty),
{
    match ty {
        FullType::Single(ty) => match ty {
            Type::Void => TypeKind::Void,
            Type::Bool | Type::i8 | Type::i16 | Type::i32 | Type::i64 | Type::i128 => {
                TypeKind::Integer
            },
            Type::F32 | Type::F64 => TypeKind::Float,
            _ => TypeKind::Pointer,
        },
        _ => TypeKind::Struct,
    }
}

pub fn float_width(ty: FullType) -> (w: usize)
    requires
        ty == FullType::Single(Type::F32) || ty == FullType::Single(Type::F64),
    ensures
        w == (if ty == FullType::Single(Type::F32) { 32usize } else { 64usize }),
{
    match ty {
        FullType::Single(Type::F32) => 32,
        _ => 64,
    }
}

/// Whether a type is an integer of a known width.
pub open spec fn is_int_type(ty: FullType) -> bool {
    match ty {
        FullType::Single(t) => matches!(t, Type::i8 | Type::i16 | Type::i32 | Type::i64 | Type::i128),
        _ => false,
    }
}

/// The width in bits of an integer type.
pub open spec fn int_width_of(ty: FullType) -> u64 {
    match ty {
        FullType::Single(Type::i8) => 8,
        FullType::Single(Type::i16) => 16,
        FullType::Single(Type::i32) => 32,
        FullType::Single(Type::i64) => 64,
        _ => 128,
    }
}

pub fn int_width(ty: FullType) -> (w: u64)
    requires
        is_int_type(ty),
    ensures
        w == int_width_of(ty),
{
    match ty {
        FullType::Single(Type::i8) => 8,
        FullType::Single(Type::i16) => 16,
        FullType::Single(Type::i32) => 32,
        FullType::Single(Type::i64) => 64,
        _ => 128,
    }
}

// ---------------------------------------------------------------------------
// Registers of casts
// ---------------------------------------------------------------------------

/// Whether a register has a type: integers of 1 to 16 bytes, floats of 4
/// or 8 bytes.
pub open spec fn reg_supported(reg: Reg) -> bool {
    match reg.kind {
        RegKind::Integer => 1 <= reg.size <= 16,
        RegKind::Float => reg.size == 4 || reg.size == 8,
        RegKind::Vector => false,
    }
}

/// The type of a register: the smallest integer type that holds its bytes,
/// or the float of its size.
pub open spec fn reg_type(reg: Reg) -> Type {
    match reg.kind {
        RegKind::Integer => if reg.size == 1 {
            Type::i8
        } else if reg.size == 2 {
            Type::i16
        } else if reg.size <= 4 {
            Type::i32
        } else if reg.size <= 8 {
            Type::i64
        } else {
            Type::i128
        },
        _ => if reg.size == 4 {
            Type::F32
        } else {
            Type::F64
        },
    }
}

pub fn reg_to_ir_type(reg: &Reg) -> (t: Type)
    requires
        reg_supported(*reg),
    ensures
        t == reg_type(*reg),
{
    match reg.kind {
        RegKind::Integer => match reg.size {
            1 => Type::i8,
            2 => Type::i16,
            3 | 4 => Type::i32,
            5 | 6 | 7 | 8 => Type::i64,
            _ => Type::i128,
        },
        _ => match reg.size {
            4 => Type::F32,
            _ => Type::F64,
        },
    }
}

/// How many registers of the rest unit a cast has.
pub open spec fn cast_repeats(cast: CastTarget) -> int {
    cast.rest_total as int / cast.rest_unit.size as int
}

/// The registers of a cast, in order.
pub open spec fn cast_registers(cast: CastTarget) -> Seq<Reg> {
    cast.prefix@ + Seq::new(cast_repeats(cast) as nat, |i: int| cast.rest_unit)
}

/// Whether a cast has a type: one or two registers, each with a type, whose
/// sizes add up within 64 bits.
pub open spec fn cast_supported(cast: CastTarget) -> bool {
    &&& cast.rest_unit.size > 0
    &&& reg_supported(cast.rest_unit)
    &&& forall|i: int| 0 <= i < cast.prefix@.len() ==> reg_supported(#[trigger] cast.prefix@[i])
    &&& 1 <= cast_registers(cast).len() <= 2
    &&& cast_registers(cast).len() == 2 ==> cast_registers(cast)[0].size
        + cast_registers(cast)[1].size <= u64::MAX
}

/// The type of a cast: its one register, or the pair of its two registers
/// with the second at the size of the first.
pub open spec fn cast_type(cast: CastTarget) -> FullType {
    let regs = cast_registers(cast);
    if regs.len() == 1 {
        FullType::Single(reg_type(regs[0]))
    } else {
        FullType::Pair(reg_type(regs[0]), reg_type(regs[1]), regs[0].size as u8)
    }
}

pub fn cast_backend_type(ty: &CastTarget) -> (t: FullType)
    requires
        cast_supported(*ty),
    ensures
        t == cast_type(*ty),
{
    let ghost regs = cast_registers(*ty);
    let mut registers: Vec<Type> = Vec::new();
    let mut offsets: Vec<u64> = Vec::new();
    let mut current_offset: u64 = 0;
    let mut i: usize = 0;
    while i < ty.prefix.len()
        invariant
            i <= ty.prefix.len(),
            cast_supported(*ty),
            regs == cast_registers(*ty),
            registers@.len() == i,
            offsets@.len() == i,
            forall|k: int| 0 <= k < i ==> registers@[k] == reg_type(#[trigger] regs[k]),
            i >= 1 ==> offsets@[0] == 0,
            i >= 2 ==> offsets@[1] == regs[0].size,
            i == 0 ==> current_offset == 0,
            i == 1 ==> current_offset == regs[0].size,
            i == 2 ==> current_offset == regs[0].size + regs[1].size,
        decreases ty.prefix.len() - i,
    {
        assert(regs[i as int] == ty.prefix@[i as int]);
        registers.push(reg_to_ir_type(&ty.prefix[i]));
        offsets.push(current_offset);
        current_offset = current_offset + ty.prefix[i].size;
        i = i + 1;
    }
    let unit_type = reg_to_ir_type(&ty.rest_unit);
    let repeats = ty.rest_total / ty.rest_unit.size;
    let mut j: u64 = 0;
    while j < repeats
        invariant
            i == ty.prefix.len(),
            j <= repeats,
            repeats == cast_repeats(*ty),
            cast_supported(*ty),
            regs == cast_registers(*ty),
            unit_type == reg_type(ty.rest_unit),
            registers@.len() == i + j,
            offsets@.len() == i + j,
            forall|k: int| 0 <= k < i + j ==> registers@[k] == reg_type(#[trigger] regs[k]),
            i + j >= 1 ==> offsets@[0] == 0,
            i + j >= 2 ==> offsets@[1] == regs[0].size,
            i + j == 0 ==> current_offset == 0,
            i + j == 1 ==> current_offset == regs[0].size,
            i + j == 2 ==> current_offset == regs[0].size + regs[1].size,
        decreases repeats - j,
    {
        assert(regs[i + j] == ty.rest_unit);
        registers.push(unit_type);
        offsets.push(current_offset);
        current_offset = current_offset + ty.rest_unit.size;
        j = j + 1;
    }
    if registers.len() == 1 {
        FullType::Single(registers[0])
    } else {
        FullType::Pair(registers[0], registers[1], offsets[1] as u8)
    }
}

// ---------------------------------------------------------------------------
// Signatures
// ---------------------------------------------------------------------------

pub open spec fn arg_extension_of(ext: AbiArgExtension) -> ArgExtension {
    match ext {
        AbiArgExtension::NoExtension => ArgExtension::NoExtension,
        AbiArgExtension::Sext => ArgExtension::sExt,
        AbiArgExtension::Zext => ArgExtension::zExt,
    }
}

pub fn map_arg_extension(ext: AbiArgExtension) -> (e: ArgExtension)
    ensures
        e == arg_extension_of(ext),
{
    match ext {
        AbiArgExtension::NoExtension => ArgExtension::NoExtension,
        AbiArgExtension::Sext => ArgExtension::sExt,
        AbiArgExtension::Zext => ArgExtension::zExt,
    }
}

pub open spec fn direct_arg_info(ext: AbiArgExtension) -> ArgInfo {
    ArgInfo { kind: ArgKind::Direct, extension: arg_extension_of(ext), size: 0, align: 0 }
}

/// The alignment that an indirect argument reports: its pointee's, or 1.
pub open spec fn pointee_align_u32(align: Option<u64>) -> u32 {
    match align {
        Some(a) => a as u32,
        _ => 1,
    }
}

/// Whether the module can pass an argument in this way.
pub open spec fn arg_supported(arg: ArgAbi) -> bool {
    match arg.mode {
        PassMode::Ignore => true,
        PassMode::Direct(_) => repr_supported(arg.layout) && direct_type(arg.layout) is Single,
        PassMode::Pair(_, _) => repr_supported(arg.layout) && direct_type(arg.layout) is Pair,
        PassMode::Indirect { has_meta, on_stack, .. } => on_stack ==> !has_meta,
        PassMode::Cast(cast) => cast_supported(cast),
    }
}

/// The argument slots of one argument, each with its passing information.
pub open spec fn arg_slots(arg: ArgAbi) -> Seq<(Type, ArgInfo)> {
    match arg.mode {
        PassMode::Ignore => Seq::empty(),
        PassMode::Direct(ext) => seq![(direct_type(arg.layout)->Single_0, direct_arg_info(ext))],
        PassMode::Pair(ext_a, ext_b) => seq![
            (direct_type(arg.layout)->Pair_0, direct_arg_info(ext_a)),
            (direct_type(arg.layout)->Pair_1, direct_arg_info(ext_b)),
        ],
        PassMode::Indirect { pointee_size, pointee_align, on_stack, .. } => if on_stack {
            seq![
                (
                    Type::ptr,
                    ArgInfo {
                        kind: ArgKind::ByVal,
                        extension: ArgExtension::NoExtension,
                        size: pointee_size as u32,
                        align: pointee_align_u32(pointee_align),
                    },
                ),
            ]
        } else {
            seq![(Type::ptr, default_arg_info())]
        },
        PassMode::Cast(cast) => match cast_type(cast) {
            FullType::Single(ty) => seq![(ty, default_arg_info())],
            FullType::Pair(a, b, _) => seq![(a, default_arg_info()), (b, default_arg_info())],
            _ => Seq::empty(),
        },
    }
}

/// The argument slots of a list of arguments, in order.
pub open spec fn args_slots(args: Seq<ArgAbi>) -> Seq<(Type, ArgInfo)>
    decreases args.len(),
{
    if args.len() == 0 {
        Seq::empty()
    } else {
        args_slots(args.drop_last()) + arg_slots(args.last())
    }
}

/// The arguments that get slots: the fixed ones of a variadic function.
pub open spec fn passed_args(fn_abi: FnAbi) -> Seq<ArgAbi> {
    if fn_abi.c_variadic {
        fn_abi.args@.take(fn_abi.fixed_count as int)
    } else {
        fn_abi.args@
    }
}

/// The hidden slot of a result returned through memory.
pub open spec fn ret_slots(ret: ArgAbi) -> Seq<(Type, ArgInfo)> {
    match ret.mode {
        PassMode::Indirect { pointee_size, pointee_align, .. } => seq![
            (
                Type::ptr,
                ArgInfo {
                    kind: ArgKind::sRet,
                    extension: ArgExtension::NoExtension,
                    size: pointee_size as u32,
                    align: pointee_align_u32(pointee_align),
                },
            ),
        ],
        _ => Seq::empty(),
    }
}

/// All slots of a calling convention.
pub open spec fn abi_slots(fn_abi: FnAbi) -> Seq<(Type, ArgInfo)> {
    ret_slots(fn_abi.ret) + args_slots(passed_args(fn_abi))
}

/// Whether the module can lower a calling convention.
pub open spec fn fn_abi_supported(fn_abi: FnAbi) -> bool {
    &&& fn_abi.c_variadic ==> fn_abi.fixed_count <= fn_abi.args.len()
    &&& forall|i: int| 0 <= i < passed_args(fn_abi).len() ==> arg_supported(#[trigger] passed_args(fn_abi)[i])
    &&& !(fn_abi.ret.mode is Ignore) ==> repr_supported(fn_abi.ret.layout)
}

/// The signature of a calling convention.
pub open spec fn abi_signature(fn_abi: FnAbi) -> SignatureView {
    SignatureView {
        args: abi_slots(fn_abi).map_values(|p: (Type, ArgInfo)| p.0),
        arg_infos: abi_slots(fn_abi).map_values(|p: (Type, ArgInfo)| p.1),
        ret: if fn_abi.ret.mode is Ignore {
            None
        } else {
            Some(direct_type(fn_abi.ret.layout))
        },
    }
}

/// Appends the slots of one argument.
fn push_arg_slots(arg: &ArgAbi, slots: &mut Vec<Type>, arg_infos: &mut Vec<ArgInfo>)
    requires
        arg_supported(*arg),
    ensures
        final(slots)@ == old(slots)@ + arg_slots(*arg).map_values(|p: (Type, ArgInfo)| p.0),
        final(arg_infos)@ == old(arg_infos)@ + arg_slots(*arg).map_values(
            |p: (Type, ArgInfo)| p.1,
        ),
{
    let ghost s0 = slots@;
    let ghost a0 = arg_infos@;
    let ghost added = arg_slots(*arg);
    match &arg.mode {
        PassMode::Ignore => {},
        PassMode::Direct(ext) => {
            let ty = match direct_backend_type(arg.layout) {
                FullType::Single(ty) => ty,
                _ => Type::Void,
            };
            slots.push(ty);
            arg_infos.push(
                ArgInfo {
                    kind: ArgKind::Direct,
                    extension: map_arg_extension(*ext),
                    size: 0,
                    align: 0,
                },
            );
        },
        PassMode::Pair(ext_a, ext_b) => {
            let (a, b) = match direct_backend_type(arg.layout) {
                FullType::Pair(a, b, _) => (a, b),
                _ => (Type::Void, Type::Void),
            };
            slots.push(a);
            arg_infos.push(
                ArgInfo {
                    kind: ArgKind::Direct,
                    extension: map_arg_extension(*ext_a),
                    size: 0,
                    align: 0,
                },
            );
            slots.push(b);
            arg_infos.push(
                ArgInfo {
                    kind: ArgKind::Direct,
                    extension: map_arg_extension(*ext_b),
                    size: 0,
                    align: 0,
                },
            );
        },
        PassMode::Indirect { pointee_size, pointee_align, has_meta: _, on_stack } => {
            if *on_stack {
                slots.push(Type::ptr);
                let align = match pointee_align {
                    Some(a) => *a as u32,
                    None => 1,
                };
                arg_infos.push(
                    ArgInfo {
                        kind: ArgKind::ByVal,
                        extension: ArgExtension::NoExtension,
                        size: *pointee_size as u32,
                        align,
                    },
                );
            } else {
                slots.push(Type::ptr);
                arg_infos.push(ArgInfo::default());
            }
        },
        PassMode::Cast(cast) => {
            match cast_backend_type(cast) {
                FullType::Single(ty) => {
                    slots.push(ty);
                    arg_infos.push(
                        ArgInfo {
                            kind: ArgKind::Direct,
                            extension: ArgExtension::NoExtension,
                            size: 0,
                            align: 0,
                        },
                    );
                },
                FullType::Pair(a, b, _) => {
                    slots.push(a);
                    arg_infos.push(ArgInfo::default());
                    slots.push(b);
                    arg_infos.push(ArgInfo::default());
                },
                _ => {},
            }
        },
    }
    assert(slots@ =~= s0 + added.map_values(|p: (Type, ArgInfo)| p.0));
    assert(arg_infos@ =~= a0 + added.map_values(|p: (Type, ArgInfo)| p.1));
}

/// The signature of the function with calling convention `fn_abi`: a
/// hidden pointer slot for a result returned through memory, then the
/// slots of each passed argument, and the result type.
fn abi_function_signature(fn_abi: &FnAbi) -> (sig: FunctionSignature)
    requires
        fn_abi_supported(*fn_abi),
    ensures
        sig@ == abi_signature(*fn_abi),
{
    let mut slots: Vec<Type> = Vec::new();
    let mut arg_infos: Vec<ArgInfo> = Vec::new();
    match &fn_abi.ret.mode {
        PassMode::Indirect { pointee_size, pointee_align, .. } => {
            slots.push(Type::ptr);
            let align = match pointee_align {
                Some(a) => *a as u32,
                None => 1,
            };
            arg_infos.push(
                ArgInfo {
                    kind: ArgKind::sRet,
                    extension: ArgExtension::NoExtension,
                    size: *pointee_size as u32,
                    align,
                },
            );
        },
        _ => {},
    }
    let ghost prefix = ret_slots(fn_abi.ret);
    assert(slots@ =~= prefix.map_values(|p: (Type, ArgInfo)| p.0));
    assert(arg_infos@ =~= prefix.map_values(|p: (Type, ArgInfo)| p.1));
    // we can ignore variadic arguments
    let count: usize = if fn_abi.c_variadic {
        fn_abi.fixed_count as usize
    } else {
        fn_abi.args.len()
    };
    let ghost passed = passed_args(*fn_abi);
    assert(passed.len() == count);
    let mut i: usize = 0;
    while i < count
        invariant
            i <= count,
            count <= fn_abi.args.len(),
            passed == passed_args(*fn_abi),
            passed.len() == count,
            fn_abi_supported(*fn_abi),
            slots@ =~= (prefix + args_slots(passed.take(i as int))).map_values(
                |p: (Type, ArgInfo)| p.0,
            ),
            arg_infos@ =~= (prefix + args_slots(passed.take(i as int))).map_values(
                |p: (Type, ArgInfo)| p.1,
            ),
        decreases count - i,
    {
        assert(passed[i as int] == fn_abi.args@[i as int]);
        assert(arg_supported(passed[i as int]));
        push_arg_slots(&fn_abi.args[i], &mut slots, &mut arg_infos);
        assert(passed.take(i + 1).drop_last() =~= passed.take(i as int));
        assert(passed.take(i + 1).last() == passed[i as int]);
        i = i + 1;
    }
    assert(passed.take(i as int) =~= passed);
    let ret = match &fn_abi.ret.mode {
        PassMode::Ignore => None,
        _ => Some(direct_backend_type(fn_abi.ret.layout)),
    };
    let sig = FunctionSignature { args: slots, arg_infos, ret };
    assert(sig@ =~= abi_signature(*fn_abi));
    sig
}

/// The signature of a function from its argument and result types: one
/// slot per scalar, two per pair, each passed directly.
pub open spec fn types_slots(args: Seq<FullType>) -> Seq<Type>
    decreases args.len(),
{
    if args.len() == 0 {
        Seq::empty()
    } else {
        types_slots(args.drop_last()) + match args.last() {
            FullType::Single(ty) => seq![ty],
            FullType::Pair(a, b, _) => seq![a, b],
            _ => Seq::empty(),
        }
    }
}

pub open spec fn no_memory(args: Seq<FullType>) -> bool {
    forall|i: int| 0 <= i < args.len() ==> !(#[trigger] args[i] is Memory)
}

pub open spec fn simple_signature(args: Seq<FullType>, ret: Option<FullType>) -> SignatureView {
    SignatureView {
        args: types_slots(args),
        arg_infos: Seq::new(types_slots(args).len(), |i: int| default_arg_info()),
        ret,
    }
}

pub fn function_signature(args: &[FullType], ret: Option<FullType>) -> (sig: FunctionSignature)
    requires
        no_memory(args@),
    ensures
        sig@ == simple_signature(args@, ret),
{
    let mut slots: Vec<Type> = Vec::new();
    let mut arg_infos: Vec<ArgInfo> = Vec::new();
    let mut i: usize = 0;
    while i < args.len()
        invariant
            i <= args.len(),
            no_memory(args@),
            slots@ =~= types_slots(args@.take(i as int)),
            arg_infos@ =~= Seq::new(slots@.len(), |k: int| default_arg_info()),
        decreases args.len() - i,
    {
        assert(args@.take(i + 1).drop_last() =~= args@.take(i as int));
        match args[i] {
            FullType::Single(ty) => {
                slots.push(ty);
                arg_infos.push(ArgInfo::default());
            },
            FullType::Pair(a, b, _) => {
                slots.push(a);
                arg_infos.push(ArgInfo::default());
                slots.push(b);
                arg_infos.push(ArgInfo::default());
            },
            FullType::Memory { .. } => {},
        }
        i = i + 1;
    }
    assert(args@.take(i as int) =~= args@);
    FunctionSignature { args: slots, arg_infos, ret }
}

impl CodegenCx {
    /// The type of a value of a layout: a scalar, a pair of scalars, or
    /// memory.
    pub fn tpde_direct_type(&self, layout: BackendRepr) -> (t: FullType)
        requires
            repr_supported(layout),
        ensures
            t == direct_type(layout),
    {
        direct_backend_type(layout)
    }

    /// The signature of the function with calling convention `fn_abi`: a
    /// hidden pointer slot for a result returned through memory, then the
    /// slots of each passed argument, and the result type.
    pub fn create_function_signature(&self, fn_abi: &FnAbi) -> (sig: FunctionSignature)
        requires
            fn_abi_supported(*fn_abi),
        ensures
            sig@ == abi_signature(*fn_abi),
    {
        abi_function_signature(fn_abi)
    }
}

} // verus!
