//! The records that make up a TPDE module: functions with their slots,
//! blocks and instructions, constants and globals. Every record has a
//! mathematical view; the contracts of the module builder speak of views.
use vstd::prelude::*;

verus! {

/// The machine types that a slot, a constant or a register can have.
#[allow(non_camel_case_types)]
#[derive(Debug, Copy, Clone, PartialEq, Eq, Structural)]
pub enum Type {
    Void,
    Bool,
    i8,
    i16,
    i32,
    i64,
    i128,
    F32,
    F64,
    ptr,
    Last,
}

/// The operations that an instruction of a basic block performs.
#[allow(non_camel_case_types)]
#[derive(Debug, Copy, Clone, PartialEq, Eq, Structural)]
pub enum InstructionKind {
    // Bitwise
    And,
    Or,
    Xor,
    Shl,
    lShr,
    aShr,
    Not,
    // Math
    Add,
    Sub,
    Mul,
    uDiv,
    sDiv,
    uRem,
    sRem,
    Neg,
    fAdd,
    fSub,
    fMul,
    fDiv,
    fRem,
    fNeg,
    // Comparators
    CMPeq,
    CMPne,
    CMPsgt,
    CMPsge,
    CMPslt,
    CMPsle,
    CMPugt,
    CMPuge,
    CMPult,
    CMPule,
    RealOEQ,
    RealOGT,
    RealOGE,
    RealOLT,
    RealOLE,
    RealONE,
    RealORD,
    RealUNO,
    RealUEQ,
    RealUGT,
    RealUGE,
    RealULT,
    RealULE,
    RealUNE,
    OverflowCheck,
    // Storage operations
    Alloca,
    Store,
    Load,
    GEP,
    MemCpy,
    Select,
    // Branching operations
    Ret,
    Br,
    CondBr,
    Switch,
    // Calls
    Call,
    Invoke,
    /// Second result of an instruction that yields a pair.
    AddRet,
    // Casts
    zExt,
    sExt,
    Trunc,
    fExt,
    fTrunc,
    sTof,
    uTof,
    fTos,
    fTou,
    fTos_sat,
    fTou_sat,
    Cast,
    Unreachable,
    Abort,
    LandingPad,
    Resume,
    ctpop,
    Last,
}

/// How an argument is handed to a function.
#[allow(non_camel_case_types)]
#[derive(Debug, Copy, Clone, PartialEq, Eq, Structural)]
pub enum ArgKind {
    Direct,
    ByVal,
    sRet,
}

/// How an integer argument is widened to its register.
#[allow(non_camel_case_types)]
#[derive(Debug, Copy, Clone, PartialEq, Eq, Structural)]
pub enum ArgExtension {
    NoExtension,
    zExt,
    sExt,
}

/// Passing information of one argument slot.
#[derive(Debug, Copy, Clone, PartialEq, Eq, Structural)]
pub struct ArgInfo {
    pub kind: ArgKind,
    pub extension: ArgExtension,
    pub size: u32,
    pub align: u32,
}

/// The argument information of a direct argument without extension.
pub open spec fn default_arg_info() -> ArgInfo {
    ArgInfo { kind: ArgKind::Direct, extension: ArgExtension::NoExtension, size: 0, align: 0 }
}

impl Default for ArgInfo {
    fn default() -> (info: Self)
        ensures
            info == default_arg_info(),
    {
        Self { kind: ArgKind::Direct, extension: ArgExtension::NoExtension, size: 0, align: 0 }
    }
}

/// Argument information of the callees of a call site.
#[derive(Debug, Clone)]
pub struct CalleeInfo {
    pub info: Vec<ArgInfo>,
}

/// Linker flags of a function or a global.
#[derive(Debug, Copy, Clone, PartialEq, Eq, Structural)]
pub struct Flags {
    pub extern_link: bool,
    pub only_local: bool,
    pub weak_link: bool,
}

/// The type of one value slot of a function.
#[derive(Debug, Copy, Clone, PartialEq, Eq, Structural)]
pub struct Slot {
    pub ty: Type,
}

/// A stack allocation of a function.
#[derive(Debug, Copy, Clone, PartialEq, Eq, Structural)]
pub struct Alloca {
    pub size: usize,
    pub align: usize,
}

/// A constant: its type and its 128 bits, high half in `data1`.
#[derive(Debug, Copy, Clone, PartialEq, Eq, Structural)]
pub struct Value {
    pub ty: Type,
    pub data1: u64,
    pub data2: u64,
}

/// A pair of encoded slots, the second one at byte offset `offset_b`.
#[derive(Debug, Copy, Clone, PartialEq, Eq, Structural)]
pub struct PairRef {
    pub slot_a: u32,
    pub slot_b: u32,
    pub offset_b: u8,
}

/// What a chunk of a global's initializer holds.
#[derive(Debug, Copy, Clone, PartialEq, Eq, Structural)]
pub enum ChunkType {
    UnInit,
    Init,
    Reloc,
}

/// One chunk of a global's initializer; `data` is a size (uninitialised
/// chunk) or an index into the global's data or the module's relocations.
#[derive(Debug, Copy, Clone, PartialEq, Eq, Structural)]
pub struct Chunk {
    pub type_: ChunkType,
    pub data: u32,
}

/// The bytes of an initialised chunk.
#[derive(Debug)]
pub struct ChunkData {
    pub data: Vec<u8>,
}

/// A relocation of a global's initializer: the byte offset of the pointer
/// in the initializer, and the encoded slot it points to.
#[derive(Debug, Copy, Clone, PartialEq, Eq, Structural)]
pub struct Relocation {
    pub offset: u32,
    pub slot: u32,
}

/// A pointer into a global at an offset.
#[derive(Debug, Copy, Clone, PartialEq, Eq, Structural)]
pub struct GlobalPtr {
    pub global: u32,
    pub offset: u32,
}

/// One instruction: its operands and result are encoded slots.
#[derive(Debug)]
pub struct Instruction {
    pub kind: InstructionKind,
    pub ops: Vec<u32>,
    pub has_result: bool,
    pub result: u32,
}

/// A named basic block of a function.
#[derive(Debug)]
pub struct BasicBlock {
    pub name: String,
    pub instructions: Vec<Instruction>,
    pub info1: u32,
    pub info2: u32,
}

/// A function of the module.
#[derive(Debug)]
pub struct Function {
    pub name: String,
    pub n_args: usize,
    pub has_ret: bool,
    pub args: Vec<ArgInfo>,
    pub slots: Vec<Slot>,
    pub slot_pairs: Vec<PairRef>,
    pub flags: Flags,
    pub has_personality: bool,
    pub personality: u32,
    pub allocas: Vec<Alloca>,
    pub basic_blocks: Vec<BasicBlock>,
    pub callee_infos: Vec<CalleeInfo>,
}

/// A global variable of the module.
#[derive(Debug)]
pub struct Global {
    pub name: String,
    pub size: u32,
    pub align: u32,
    pub thread_loc: bool,
    pub flags: Flags,
    pub chunks: Vec<Chunk>,
    pub data: Vec<ChunkData>,
}

/// A whole module as it is handed to the code generator.
#[derive(Debug)]
pub struct ModuleTpde {
    pub functions: Vec<Function>,
    pub consts: Vec<Value>,
    pub const_pairs: Vec<PairRef>,
    pub globals: Vec<Global>,
    pub relocations: Vec<Relocation>,
}

// ---------------------------------------------------------------------------
// Views
// ---------------------------------------------------------------------------

#[verifier::ext_equal]
pub struct InstructionView {
    pub kind: InstructionKind,
    pub ops: Seq<u32>,
    pub has_result: bool,
    pub result: u32,
}

#[verifier::ext_equal]
pub struct BlockView {
    pub name: Seq<char>,
    pub instructions: Seq<InstructionView>,
    pub info1: u32,
    pub info2: u32,
}

#[verifier::ext_equal]
pub struct FunctionView {
    pub name: Seq<char>,
    pub n_args: usize,
    pub has_ret: bool,
    pub args: Seq<ArgInfo>,
    pub slots: Seq<Slot>,
    pub slot_pairs: Seq<PairRef>,
    pub flags: Flags,
    pub has_personality: bool,
    pub personality: u32,
    pub allocas: Seq<Alloca>,
    pub basic_blocks: Seq<BlockView>,
    pub callee_infos: Seq<Seq<ArgInfo>>,
}

#[verifier::ext_equal]
pub struct GlobalView {
    pub name: Seq<char>,
    pub size: u32,
    pub align: u32,
    pub thread_loc: bool,
    pub flags: Flags,
    pub chunks: Seq<Chunk>,
    pub data: Seq<Seq<u8>>,
}

#[verifier::ext_equal]
pub struct ModuleView {
    pub functions: Seq<FunctionView>,
    pub consts: Seq<Value>,
    pub const_pairs: Seq<PairRef>,
    pub globals: Seq<GlobalView>,
    pub relocations: Seq<Relocation>,
}

impl View for Instruction {
    type V = InstructionView;

    open spec fn view(&self) -> InstructionView {
        InstructionView {
            kind: self.kind,
            ops: self.ops@,
            has_result: self.has_result,
            result: self.result,
        }
    }
}

impl View for BasicBlock {
    type V = BlockView;

    open spec fn view(&self) -> BlockView {
        BlockView {
            name: self.name@,
            instructions: self.instructions@.map_values(|i: Instruction| i@),
            info1: self.info1,
            info2: self.info2,
        }
    }
}

impl View for Function {
    type V = FunctionView;

    open spec fn view(&self) -> FunctionView {
        FunctionView {
            name: self.name@,
            n_args: self.n_args,
            has_ret: self.has_ret,
            args: self.args@,
            slots: self.slots@,
            slot_pairs: self.slot_pairs@,
            flags: self.flags,
            has_personality: self.has_personality,
            personality: self.personality,
            allocas: self.allocas@,
            basic_blocks: self.basic_blocks@.map_values(|b: BasicBlock| b@),
            callee_infos: self.callee_infos@.map_values(|c: CalleeInfo| c.info@),
        }
    }
}

impl View for Global {
    type V = GlobalView;

    open spec fn view(&self) -> GlobalView {
        GlobalView {
            name: self.name@,
            size: self.size,
            align: self.align,
            thread_loc: self.thread_loc,
            flags: self.flags,
            chunks: self.chunks@,
            data: self.data@.map_values(|d: ChunkData| d.data@),
        }
    }
}

impl View for ModuleTpde {
    type V = ModuleView;

    open spec fn view(&self) -> ModuleView {
        ModuleView {
            functions: self.functions@.map_values(|f: Function| f@),
            consts: self.consts@,
            const_pairs: self.const_pairs@,
            globals: self.globals@.map_values(|g: Global| g@),
            relocations: self.relocations@,
        }
    }
}

// ---------------------------------------------------------------------------
// Constants
// ---------------------------------------------------------------------------

/// The high 64 bits of a 128-bit constant.
pub open spec fn high_half(v: u128) -> u64 {
    (v >> 64u128) as u64
}

/// The low 64 bits of a 128-bit constant.
pub open spec fn low_half(v: u128) -> u64 {
    v as u64
}

/// What `Value::data` computes from the two halves: the high half shifted
/// left by 64 plus the low half, as the operators of the expression bind.
pub open spec fn value_data(data1: u64, data2: u64) -> u128 {
    (data1 as u128) << ((64 + data2) as u128)
}

impl Value {
    /// A constant of type `ty` whose 128 bits are `v`.
    pub(crate) fn new(ty: Type, v: u128) -> (value: Self)
        ensures
            value.ty == ty,
            value.data1 == high_half(v),
            value.data2 == low_half(v),
    {
        Value { ty, data1: (v >> 64u128) as u64, data2: v as u64 }
    }

    /// The constant's bits as the expression `data1 << 64 + data2` gives
    /// them; the shift amount is `64 + data2`, so it must stay below 128.
    pub fn data(&self) -> (d: u128)
        requires
            self.data2 < 64,
        ensures
            d == value_data(self.data1, self.data2),
    {
        (self.data1 as u128) << (64u128 + (self.data2 as u128))
    }
}

} // verus!
