//! Debugging text of the module's slots, instructions, globals and
//! constants, and a hex dump of bytes.
use crate::ffi::{
    Chunk, ChunkData, ChunkType, Flags, Global, GlobalView, Instruction, InstructionKind, Type, Value,
};
use crate::ir::{decodable, decoded_slot, Slot};
use crate::symbols::{in_base, to_base};
use vstd::prelude::*;
use vstd::string::StrSliceExecFns;

verus! {

/// `n` in decimal.
pub open spec fn decimal(n: nat) -> Seq<char> {
    in_base(n, 10)
}

/// The name of an instruction kind, as its variant is written.
pub open spec fn kind_text(kind: InstructionKind) -> Seq<char> {
    match kind {
        InstructionKind::And => "And"@,
        InstructionKind::Or => "Or"@,
        InstructionKind::Xor => "Xor"@,
        InstructionKind::Shl => "Shl"@,
        InstructionKind::lShr => "lShr"@,
        InstructionKind::aShr => "aShr"@,
        InstructionKind::Not => "Not"@,
        InstructionKind::Add => "Add"@,
        InstructionKind::Sub => "Sub"@,
        InstructionKind::Mul => "Mul"@,
        InstructionKind::uDiv => "uDiv"@,
        InstructionKind::sDiv => "sDiv"@,
        InstructionKind::uRem => "uRem"@,
        InstructionKind::sRem => "sRem"@,
        InstructionKind::Neg => "Neg"@,
        InstructionKind::fAdd => "fAdd"@,
        InstructionKind::fSub => "fSub"@,
        InstructionKind::fMul => "fMul"@,
        InstructionKind::fDiv => "fDiv"@,
        InstructionKind::fRem => "fRem"@,
        InstructionKind::fNeg => "fNeg"@,
        InstructionKind::CMPeq => "CMPeq"@,
        InstructionKind::CMPne => "CMPne"@,
        InstructionKind::CMPsgt => "CMPsgt"@,
        InstructionKind::CMPsge => "CMPsge"@,
        InstructionKind::CMPslt => "CMPslt"@,
        InstructionKind::CMPsle => "CMPsle"@,
        InstructionKind::CMPugt => "CMPugt"@,
        InstructionKind::CMPuge => "CMPuge"@,
        InstructionKind::CMPult => "CMPult"@,
        InstructionKind::CMPule => "CMPule"@,
        InstructionKind::RealOEQ => "RealOEQ"@,
        InstructionKind::RealOGT => "RealOGT"@,
        InstructionKind::RealOGE => "RealOGE"@,
        InstructionKind::RealOLT => "RealOLT"@,
        InstructionKind::RealOLE => "RealOLE"@,
        InstructionKind::RealONE => "RealONE"@,
        InstructionKind::RealORD => "RealORD"@,
        InstructionKind::RealUNO => "RealUNO"@,
        InstructionKind::RealUEQ => "RealUEQ"@,
        InstructionKind::RealUGT => "RealUGT"@,
        InstructionKind::RealUGE => "RealUGE"@,
        InstructionKind::RealULT => "RealULT"@,
        InstructionKind::RealULE => "RealULE"@,
        InstructionKind::RealUNE => "RealUNE"@,
        InstructionKind::OverflowCheck => "OverflowCheck"@,
        InstructionKind::Alloca => "Alloca"@,
        InstructionKind::Store => "Store"@,
        InstructionKind::Load => "Load"@,
        InstructionKind::GEP => "GEP"@,
        InstructionKind::MemCpy => "MemCpy"@,
        InstructionKind::Select => "Select"@,
        InstructionKind::Ret => "Ret"@,
        InstructionKind::Br => "Br"@,
        InstructionKind::CondBr => "CondBr"@,
        InstructionKind::Switch => "Switch"@,
        InstructionKind::Call => "Call"@,
        InstructionKind::Invoke => "Invoke"@,
        InstructionKind::AddRet => "AddRet"@,
        InstructionKind::zExt => "zExt"@,
        InstructionKind::sExt => "sExt"@,
        InstructionKind::Trunc => "Trunc"@,
        InstructionKind::fExt => "fExt"@,
        InstructionKind::fTrunc => "fTrunc"@,
        InstructionKind::sTof => "sTof"@,
        InstructionKind::uTof => "uTof"@,
        InstructionKind::fTos => "fTos"@,
        InstructionKind::fTou => "fTou"@,
        InstructionKind::fTos_sat => "fTos_sat"@,
        InstructionKind::fTou_sat => "fTou_sat"@,
        InstructionKind::Cast => "Cast"@,
        InstructionKind::Unreachable => "Unreachable"@,
        InstructionKind::Abort => "Abort"@,
        InstructionKind::LandingPad => "LandingPad"@,
        InstructionKind::Resume => "Resume"@,
        InstructionKind::ctpop => "ctpop"@,
        InstructionKind::Last => "Last"@,
    }
}

/// The name of an instruction kind.
pub fn kind_name(kind: InstructionKind) -> (name: &'static str)
    ensures
        name@ == kind_text(kind),
{
    match kind {
        InstructionKind::And => "And",
        InstructionKind::Or => "Or",
        InstructionKind::Xor => "Xor",
        InstructionKind::Shl => "Shl",
        InstructionKind::lShr => "lShr",
        InstructionKind::aShr => "aShr",
        InstructionKind::Not => "Not",
        InstructionKind::Add => "Add",
        InstructionKind::Sub => "Sub",
        InstructionKind::Mul => "Mul",
        InstructionKind::uDiv => "uDiv",
        InstructionKind::sDiv => "sDiv",
        InstructionKind::uRem => "uRem",
        InstructionKind::sRem => "sRem",
        InstructionKind::Neg => "Neg",
        InstructionKind::fAdd => "fAdd",
        InstructionKind::fSub => "fSub",
        InstructionKind::fMul => "fMul",
        InstructionKind::fDiv => "fDiv",
        InstructionKind::fRem => "fRem",
        InstructionKind::fNeg => "fNeg",
        InstructionKind::CMPeq => "CMPeq",
        InstructionKind::CMPne => "CMPne",
        InstructionKind::CMPsgt => "CMPsgt",
        InstructionKind::CMPsge => "CMPsge",
        InstructionKind::CMPslt => "CMPslt",
        InstructionKind::CMPsle => "CMPsle",
        InstructionKind::CMPugt => "CMPugt",
        InstructionKind::CMPuge => "CMPuge",
        InstructionKind::CMPult => "CMPult",
        InstructionKind::CMPule => "CMPule",
        InstructionKind::RealOEQ => "RealOEQ",
        InstructionKind::RealOGT => "RealOGT",
        InstructionKind::RealOGE => "RealOGE",
        InstructionKind::RealOLT => "RealOLT",
        InstructionKind::RealOLE => "RealOLE",
        InstructionKind::RealONE => "RealONE",
        InstructionKind::RealORD => "RealORD",
        InstructionKind::RealUNO => "RealUNO",
        InstructionKind::RealUEQ => "RealUEQ",
        InstructionKind::RealUGT => "RealUGT",
        InstructionKind::RealUGE => "RealUGE",
        InstructionKind::RealULT => "RealULT",
        InstructionKind::RealULE => "RealULE",
        InstructionKind::RealUNE => "RealUNE",
        InstructionKind::OverflowCheck => "OverflowCheck",
        InstructionKind::Alloca => "Alloca",
        InstructionKind::Store => "Store",
        InstructionKind::Load => "Load",
        InstructionKind::GEP => "GEP",
        InstructionKind::MemCpy => "MemCpy",
        InstructionKind::Select => "Select",
        InstructionKind::Ret => "Ret",
        InstructionKind::Br => "Br",
        InstructionKind::CondBr => "CondBr",
        InstructionKind::Switch => "Switch",
        InstructionKind::Call => "Call",
        InstructionKind::Invoke => "Invoke",
        InstructionKind::AddRet => "AddRet",
        InstructionKind::zExt => "zExt",
        InstructionKind::sExt => "sExt",
        InstructionKind::Trunc => "Trunc",
        InstructionKind::fExt => "fExt",
        InstructionKind::fTrunc => "fTrunc",
        InstructionKind::sTof => "sTof",
        InstructionKind::uTof => "uTof",
        InstructionKind::fTos => "fTos",
        InstructionKind::fTou => "fTou",
        InstructionKind::fTos_sat => "fTos_sat",
        InstructionKind::fTou_sat => "fTou_sat",
        InstructionKind::Cast => "Cast",
        InstructionKind::Unreachable => "Unreachable",
        InstructionKind::Abort => "Abort",
        InstructionKind::LandingPad => "LandingPad",
        InstructionKind::Resume => "Resume",
        InstructionKind::ctpop => "ctpop",
        InstructionKind::Last => "Last",
    }
}

/// The debugging text of a slot; pairs exist only while building and have
/// none.
pub open spec fn slot_text(s: Slot) -> Seq<char> {
    match s {
        Slot::Value(_, v) => "[val: "@ + decimal(v as nat) + "]"@,
        Slot::Alloc(v) => "[alloc: "@ + decimal(v as nat) + "]"@,
        Slot::Raw(v) => "[raw: "@ + decimal(v as nat) + "]"@,
        Slot::Func(f) => "[func: "@ + decimal(f.0 as nat) + "]"@,
        Slot::Global(g) => "[global: "@ + decimal(g.0 as nat) + "]"@,
        Slot::Const(v) => "[const: "@ + decimal(v as nat) + "]"@,
        _ => Seq::empty(),
    }
}

/// `open`, `n` in decimal, and a closing bracket.
fn bracketed(open: &str, n: u64) -> (s: String)
    ensures
        s@ == open@ + decimal(n as nat) + "]"@,
{
    let mut s = open.to_owned();
    let digits = to_base(n as u128, 10);
    s.append(digits.as_str());
    s.append("]");
    s
}

impl Slot {
    /// The debugging text of a slot.
    pub fn debug_text(&self) -> (s: String)
        requires
            !(*self is Pair),
            !(*self is CPair),
        ensures
            s@ == slot_text(*self),
    {
        match self {
            Slot::Value(_, v) => bracketed("[val: ", *v as u64),
            Slot::Alloc(v) => bracketed("[alloc: ", *v as u64),
            Slot::Raw(v) => bracketed("[raw: ", *v as u64),
            Slot::Func(f) => bracketed("[func: ", f.0 as u64),
            Slot::Global(g) => bracketed("[global: ", g.0 as u64),
            Slot::Const(v) => bracketed("[const: ", *v as u64),
            _ => String::new(),
        }
    }
}

/// The operands of an instruction, decoded and separated by commas.
pub open spec fn ops_text(ops: Seq<u32>) -> Seq<char>
    decreases ops.len(),
{
    if ops.len() == 0 {
        Seq::empty()
    } else if ops.len() == 1 {
        slot_text(decoded_slot(ops[0]))
    } else {
        ops_text(ops.drop_last()) + ", "@ + slot_text(decoded_slot(ops.last()))
    }
}

/// The debugging text of an instruction: its kind in angle brackets, its
/// operands in parentheses, and an arrow to its result if it has one.
pub open spec fn instruction_text(kind: InstructionKind, ops: Seq<u32>, has_result: bool, result: u32) -> Seq<char> {
    "<"@ + kind_text(kind) + "> ("@ + ops_text(ops) + ")"@ + if has_result {
        " -> "@ + slot_text(decoded_slot(result))
    } else {
        Seq::empty()
    }
}

impl Instruction {
    /// The debugging text of an instruction.
    pub fn debug_text(&self) -> (s: String)
        requires
            forall|i: int| 0 <= i < self.ops@.len() ==> decodable(#[trigger] self.ops@[i]),
            self.has_result ==> decodable(self.result),
        ensures
            s@ == instruction_text(self.kind, self.ops@, self.has_result, self.result),
    {
        let mut s = "<".to_owned();
        s.append(kind_name(self.kind));
        s.append("> (");
        let ghost head = s@;
        let mut i: usize = 0;
        while i < self.ops.len()
            invariant
                i <= self.ops@.len(),
                forall|k: int| 0 <= k < self.ops@.len() ==> decodable(#[trigger] self.ops@[k]),
                s@ == head + ops_text(self.ops@.take(i as int)),
            decreases self.ops@.len() - i,
        {
            assert(self.ops@.take(i + 1).drop_last() =~= self.ops@.take(i as int));
            if i > 0 {
                s.append(", ");
            }
            let slot = Slot::from_ffi(self.ops[i]);
            let text = slot.debug_text();
            s.append(text.as_str());
            i = i + 1;
            assert(s@ =~= head + ops_text(self.ops@.take(i as int)));
        }
        assert(self.ops@.take(i as int) =~= self.ops@);
        s.append(")");
        if self.has_result {
            s.append(" -> ");
            let text = Slot::from_ffi(self.result).debug_text();
            s.append(text.as_str());
        }
        assert(s@ =~= instruction_text(self.kind, self.ops@, self.has_result, self.result));
        s
    }
}

// ---------------------------------------------------------------------------
// Hex dump
// ---------------------------------------------------------------------------

/// `s` with zeros in front up to `width` characters.
pub open spec fn padded(s: Seq<char>, width: nat) -> Seq<char> {
    if s.len() >= width {
        s
    } else {
        Seq::new((width - s.len()) as nat, |i: int| '0') + s
    }
}

/// A byte as two hexadecimal digits.
pub open spec fn hex_byte(b: u8) -> Seq<char> {
    padded(in_base(b as nat, 16), 2)
}

/// Each byte as two hexadecimal digits and a space.
pub open spec fn hex_cells(c: Seq<u8>) -> Seq<char>
    decreases c.len(),
{
    if c.len() == 0 {
        Seq::empty()
    } else {
        hex_cells(c.drop_last()) + hex_byte(c.last()) + " "@
    }
}

/// A byte as text: a printable ASCII character or the space as itself,
/// anything else as a dot.
pub open spec fn shown_char(b: u8) -> char {
    if 0x20 <= b <= 0x7e {
        b as char
    } else {
        '.'
    }
}

/// One line of a dump: the offset in four hexadecimal digits, the bytes in
/// hexadecimal, padded to sixteen columns, and the bytes as text.
pub open spec fn dump_line(c: Seq<u8>, offset: nat) -> Seq<char> {
    "\n  "@ + padded(in_base(offset, 16), 4) + "  "@ + hex_cells(c) + Seq::new(
        (3 * (16 - c.len())) as nat,
        |i: int| ' ',
    ) + " |"@ + c.map_values(|b: u8| shown_char(b)) + "|"@
}

/// The bytes of line `k` of a dump: sixteen of them, or what is left.
pub open spec fn line_bytes(bytes: Seq<u8>, k: nat) -> Seq<u8> {
    bytes.subrange(
        16 * k as int,
        if 16 * k + 16 <= bytes.len() {
            16 * k as int + 16
        } else {
            bytes.len() as int
        },
    )
}

/// The first `n` lines of a dump.
pub open spec fn dump_lines(bytes: Seq<u8>, n: nat) -> Seq<char>
    decreases n,
{
    if n == 0 {
        Seq::empty()
    } else {
        dump_lines(bytes, (n - 1) as nat) + dump_line(
            line_bytes(bytes, (n - 1) as nat),
            16 * (n - 1) as nat,
        )
    }
}

/// A dump of bytes: their number, then a line for each sixteen of them.
pub open spec fn hex_dump_text(bytes: Seq<u8>) -> Seq<char> {
    "("@ + decimal(bytes.len()) + " bytes)"@ + dump_lines(bytes, ((bytes.len() + 15) / 16) as nat)
}

/// Appends `t` with zeros in front up to `width` characters.
fn push_padded(s: &mut String, t: &str, width: usize)
    ensures
        final(s)@ == old(s)@ + padded(t@, width as nat),
{
    let n = t.unicode_len();
    if n < width {
        let ghost s0 = s@;
        let mut k: usize = n;
        while k < width
            invariant
                n <= k <= width,
                s@ =~= s0 + Seq::new((k - n) as nat, |i: int| '0'),
            decreases width - k,
        {
            s.append("0");
            k = k + 1;
            proof {
                reveal_strlit("0");
            }
        }
    }
    s.append(t);
}

/// A byte as it shows in the text column of a dump.
fn shown(b: u8) -> (c: &'static str)
    ensures
        c@ == seq![shown_char(b)],
{
    let printable = " !\"#$%&'()*+,-./0123456789:;<=>?@ABCDEFGHIJKLMNOPQRSTUVWXYZ[\\]^_`abcdefghijklmnopqrstuvwxyz{|}~";
    proof {
        reveal_strlit(" !\"#$%&'()*+,-./0123456789:;<=>?@ABCDEFGHIJKLMNOPQRSTUVWXYZ[\\]^_`abcdefghijklmnopqrstuvwxyz{|}~");
        assert(printable@ =~= Seq::new(95, |i: int| (i + 32) as char));
    }
    if 0x20 <= b && b <= 0x7e {
        let k = (b - 0x20) as usize;
        let c = printable.substring_char(k, k + 1);
        assert(c@ =~= seq![shown_char(b)]);
        c
    } else {
        proof {
            reveal_strlit(".");
        }
        "."
    }
}

/// Appends one line of a dump.
fn push_dump_line(s: &mut String, chunk: &[u8], offset: usize)
    requires
        chunk@.len() <= 16,
    ensures
        final(s)@ == old(s)@ + dump_line(chunk@, offset as nat),
{
    let ghost before = s@;
    s.append("\n  ");
    let digits = to_base(offset as u128, 16);
    push_padded(s, digits.as_str(), 4);
    s.append("  ");
    let ghost cells_start = s@;
    let mut j: usize = 0;
    while j < chunk.len()
        invariant
            j <= chunk@.len(),
            s@ == cells_start + hex_cells(chunk@.take(j as int)),
        decreases chunk@.len() - j,
    {
        assert(chunk@.take(j + 1).drop_last() =~= chunk@.take(j as int));
        let digits = to_base(chunk[j] as u128, 16);
        push_padded(s, digits.as_str(), 2);
        s.append(" ");
        j = j + 1;
    }
    assert(chunk@.take(j as int) =~= chunk@);
    let ghost pad_start = s@;
    let mut p: usize = chunk.len();
    while p < 16
        invariant
            chunk@.len() <= p <= 16,
            s@ =~= pad_start + Seq::new((3 * (p - chunk@.len())) as nat, |i: int| ' '),
        decreases 16 - p,
    {
        s.append("   ");
        p = p + 1;
        proof {
            reveal_strlit("   ");
        }
    }
    s.append(" |");
    let ghost text_start = s@;
    let mut j: usize = 0;
    while j < chunk.len()
        invariant
            j <= chunk@.len(),
            s@ =~= text_start + chunk@.take(j as int).map_values(|b: u8| shown_char(b)),
        decreases chunk@.len() - j,
    {
        s.append(shown(chunk[j]));
        j = j + 1;
    }
    assert(chunk@.take(j as int) =~= chunk@);
    s.append("|");
    assert(s@ =~= before + dump_line(chunk@, offset as nat));
}

/// A dump of bytes: their number, then for each sixteen of them their
/// offset, the bytes in hexadecimal and the bytes as text.
pub fn hex_dump(bytes: &[u8]) -> (s: String)
    ensures
        s@ == hex_dump_text(bytes@),
{
    let len = bytes.len();
    let mut s = "(".to_owned();
    let count = to_base(len as u128, 10);
    s.append(count.as_str());
    s.append(" bytes)");
    let ghost head = s@;
    let mut start: usize = 0;
    let mut k: usize = 0;
    while start < len
        invariant
            len == bytes@.len(),
            start <= len,
            start < len ==> start == 16 * k,
            start == len ==> k == (len + 15) / 16,
            start < len ==> k < (len + 15) / 16,
            s@ == head + dump_lines(bytes@, k as nat),
        decreases len - start,
    {
        let end = if len - start >= 16 { start + 16 } else { len };
        let chunk = vstd::slice::slice_subrange(bytes, start, end);
        assert(chunk@ == line_bytes(bytes@, k as nat));
        push_dump_line(&mut s, chunk, start);
        start = end;
        k = k + 1;
    }
    assert(s@ =~= hex_dump_text(bytes@));
    s
}

// ---------------------------------------------------------------------------
// Globals
// ---------------------------------------------------------------------------

pub open spec fn bool_text(b: bool) -> Seq<char> {
    if b {
        "true"@
    } else {
        "false"@
    }
}

fn push_bool(s: &mut String, b: bool)
    ensures
        final(s)@ == old(s)@ + bool_text(b),
{
    if b {
        s.append("true");
    } else {
        s.append("false");
    }
}

/// A number in decimal, appended.
fn push_decimal(s: &mut String, n: u64)
    ensures
        final(s)@ == old(s)@ + decimal(n as nat),
{
    let digits = to_base(n as u128, 10);
    s.append(digits.as_str());
}

/// The linker flags as their record is written.
pub open spec fn flags_text(f: Flags) -> Seq<char> {
    "Flags { extern_link: "@ + bool_text(f.extern_link) + ", only_local: "@ + bool_text(
        f.only_local,
    ) + ", weak_link: "@ + bool_text(f.weak_link) + " }"@
}

pub open spec fn chunk_type_text(t: ChunkType) -> Seq<char> {
    match t {
        ChunkType::UnInit => "UnInit"@,
        ChunkType::Init => "Init"@,
        ChunkType::Reloc => "Reloc"@,
    }
}

/// A chunk as its record is written.
pub open spec fn chunk_text(c: Chunk) -> Seq<char> {
    "Chunk { type_: "@ + chunk_type_text(c.type_) + ", data: "@ + decimal(c.data as nat) + " }"@
}

/// Items separated by commas.
pub open spec fn joined(items: Seq<Seq<char>>) -> Seq<char>
    decreases items.len(),
{
    if items.len() == 0 {
        Seq::empty()
    } else if items.len() == 1 {
        items[0]
    } else {
        joined(items.drop_last()) + ", "@ + items.last()
    }
}

/// Items as a list in square brackets.
pub open spec fn list_text(items: Seq<Seq<char>>) -> Seq<char> {
    "["@ + joined(items) + "]"@
}

/// The debugging text of a global: its name, then its size, alignment,
/// thread-locality, linker flags, chunks, and a dump of each data block.
pub open spec fn global_text(g: GlobalView) -> Seq<char> {
    g.name + " { size: "@ + decimal(g.size as nat) + ", align: "@ + decimal(g.align as nat)
        + ", thread_loc: "@ + bool_text(g.thread_loc) + ", flags: "@ + flags_text(g.flags)
        + ", chunks: "@ + list_text(g.chunks.map_values(|c: Chunk| chunk_text(c))) + ", data: "@
        + list_text(g.data.map_values(|d: Seq<u8>| hex_dump_text(d))) + " }"@
}

fn push_flags(s: &mut String, f: Flags)
    ensures
        final(s)@ == old(s)@ + flags_text(f),
{
    let ghost s0 = s@;
    s.append("Flags { extern_link: ");
    push_bool(s, f.extern_link);
    s.append(", only_local: ");
    push_bool(s, f.only_local);
    s.append(", weak_link: ");
    push_bool(s, f.weak_link);
    s.append(" }");
    assert(s@ =~= s0 + flags_text(f));
}

fn push_chunk(s: &mut String, c: Chunk)
    ensures
        final(s)@ == old(s)@ + chunk_text(c),
{
    let ghost s0 = s@;
    s.append("Chunk { type_: ");
    match c.type_ {
        ChunkType::UnInit => s.append("UnInit"),
        ChunkType::Init => s.append("Init"),
        ChunkType::Reloc => s.append("Reloc"),
    }
    s.append(", data: ");
    push_decimal(s, c.data as u64);
    s.append(" }");
    assert(s@ =~= s0 + chunk_text(c));
}

fn push_chunks(s: &mut String, chunks: &Vec<Chunk>)
    ensures
        final(s)@ == old(s)@ + list_text(chunks@.map_values(|c: Chunk| chunk_text(c))),
{
    let ghost s0 = s@;
    let ghost items = chunks@.map_values(|c: Chunk| chunk_text(c));
    s.append("[");
    let ghost head = s@;
    let mut i: usize = 0;
    while i < chunks.len()
        invariant
            i <= chunks@.len(),
            items == chunks@.map_values(|c: Chunk| chunk_text(c)),
            s@ == head + joined(items.take(i as int)),
        decreases chunks@.len() - i,
    {
        assert(items.take(i + 1).drop_last() =~= items.take(i as int));
        if i > 0 {
            s.append(", ");
        }
        push_chunk(s, chunks[i]);
        i = i + 1;
        assert(s@ =~= head + joined(items.take(i as int)));
    }
    assert(items.take(i as int) =~= items);
    s.append("]");
    assert(s@ =~= s0 + list_text(items));
}

fn push_dumps(s: &mut String, data: &Vec<ChunkData>)
    ensures
        final(s)@ == old(s)@ + list_text(
            data@.map_values(|d: ChunkData| d.data@).map_values(|d: Seq<u8>| hex_dump_text(d)),
        ),
{
    let ghost s0 = s@;
    let ghost items = data@.map_values(|d: ChunkData| d.data@).map_values(
        |d: Seq<u8>| hex_dump_text(d),
    );
    s.append("[");
    let ghost head = s@;
    let mut i: usize = 0;
    while i < data.len()
        invariant
            i <= data@.len(),
            items == data@.map_values(|d: ChunkData| d.data@).map_values(
                |d: Seq<u8>| hex_dump_text(d),
            ),
            s@ == head + joined(items.take(i as int)),
        decreases data@.len() - i,
    {
        assert(items.take(i + 1).drop_last() =~= items.take(i as int));
        if i > 0 {
            s.append(", ");
        }
        let dump = hex_dump(data[i].data.as_slice());
        s.append(dump.as_str());
        i = i + 1;
        assert(s@ =~= head + joined(items.take(i as int)));
    }
    assert(items.take(i as int) =~= items);
    s.append("]");
    assert(s@ =~= s0 + list_text(items));
}

impl Global {
    /// The debugging text of a global.
    pub fn debug_text(&self) -> (s: String)
        ensures
            s@ == global_text(self@),
    {
        let mut s = self.name.clone();
        s.append(" { size: ");
        push_decimal(&mut s, self.size as u64);
        s.append(", align: ");
        push_decimal(&mut s, self.align as u64);
        s.append(", thread_loc: ");
        push_bool(&mut s, self.thread_loc);
        s.append(", flags: ");
        push_flags(&mut s, self.flags);
        s.append(", chunks: ");
        push_chunks(&mut s, &self.chunks);
        s.append(", data: ");
        push_dumps(&mut s, &self.data);
        s.append(" }");
        assert(s@ =~= global_text(self@));
        s
    }
}

// ---------------------------------------------------------------------------
// Constants
// ---------------------------------------------------------------------------

/// A number in decimal, with a minus sign if it is negative.
pub open spec fn signed_decimal(x: int) -> Seq<char> {
    if x < 0 {
        "-"@ + decimal((-x) as nat)
    } else {
        decimal(x as nat)
    }
}

fn push_signed(s: &mut String, x: i128)
    ensures
        final(s)@ == old(s)@ + signed_decimal(x as int),
{
    if x < 0 {
        s.append("-");
        let magnitude: u128 = if x == i128::MIN {
            0x8000_0000_0000_0000_0000_0000_0000_0000u128
        } else {
            (-x) as u128
        };
        let digits = to_base(magnitude, 10);
        s.append(digits.as_str());
    } else {
        let digits = to_base(x as u128, 10);
        s.append(digits.as_str());
    }
}

/// The 128-bit number that a constant of type `i128` shows: its high half
/// shifted up by 64 bits, or'ed with its high half again.
pub open spec fn shown_i128(data1: u64) -> i128 {
    ((data1 as i128) << 64u32) | (data1 as i128)
}

/// The value of a constant as its type reads it, for the types whose
/// constants are shown without floating point; none for the others.
pub open spec fn shown_value(v: Value) -> Option<Seq<char>> {
    match v.ty {
        Type::Bool => Some(bool_text(v.data2 != 0)),
        Type::i8 => Some(signed_decimal((v.data2 as i8) as int)),
        Type::i16 => Some(signed_decimal((v.data2 as i16) as int)),
        Type::i32 => Some(signed_decimal((v.data2 as i32) as int)),
        Type::i64 => Some(signed_decimal((v.data2 as i64) as int)),
        Type::i128 => Some(signed_decimal(shown_i128(v.data1) as int)),
        Type::ptr => Some("[ptr: "@ + decimal(v.data2 as nat) + "]"@),
        _ => None,
    }
}

/// The name of a type as its variant is written.
pub open spec fn type_text(ty: Type) -> Seq<char> {
    match ty {
        Type::Void => "Void"@,
        Type::Bool => "Bool"@,
        Type::i8 => "i8"@,
        Type::i16 => "i16"@,
        Type::i32 => "i32"@,
        Type::i64 => "i64"@,
        Type::i128 => "i128"@,
        Type::F32 => "F32"@,
        Type::F64 => "F64"@,
        Type::ptr => "ptr"@,
        Type::Last => "Last"@,
    }
}

/// The debugging text of a constant: its type, its two halves, and the
/// value its type reads.
pub open spec fn value_text(v: Value, shown: Seq<char>) -> Seq<char> {
    "["@ + type_text(v.ty) + "] ("@ + decimal(v.data1 as nat) + " "@ + decimal(v.data2 as nat)
        + ") -> "@ + shown
}

impl Value {
    /// The debugging text of a constant of a type whose value is shown
    /// without floating point; none for floating-point constants and for
    /// the types that constants do not have.
    pub fn debug_text(&self) -> (s: Option<String>)
        ensures
            match shown_value(*self) {
                Some(shown) => s is Some && s->0@ == value_text(*self, shown),
                None => s is None,
            },
    {
        let mut shown = String::new();
        match self.ty {
            Type::Bool => push_bool(&mut shown, self.data2 != 0),
            Type::i8 => push_signed(&mut shown, (self.data2 as i8) as i128),
            Type::i16 => push_signed(&mut shown, (self.data2 as i16) as i128),
            Type::i32 => push_signed(&mut shown, (self.data2 as i32) as i128),
            Type::i64 => push_signed(&mut shown, (self.data2 as i64) as i128),
            Type::i128 => {
                let x: i128 = ((self.data1 as i128) << 64u32) | (self.data1 as i128);
                push_signed(&mut shown, x);
            },
            Type::ptr => {
                shown.append("[ptr: ");
                push_decimal(&mut shown, self.data2);
                shown.append("]");
            },
            _ => {
                return None;
            },
        }
        let mut s = "[".to_owned();
        s.append(ty_name(self.ty));
        s.append("] (");
        push_decimal(&mut s, self.data1);
        s.append(" ");
        push_decimal(&mut s, self.data2);
        s.append(") -> ");
        s.append(shown.as_str());
        proof {
            let sv = shown_value(*self)->0;
            assert(shown@ =~= sv);
        }
        assert(s@ =~= value_text(*self, shown@));
        Some(s)
    }
}

/// The name of a type.
pub fn ty_name(ty: Type) -> (name: &'static str)
    ensures
        name@ == type_text(ty),
{
    match ty {
        Type::Void => "Void",
        Type::Bool => "Bool",
        Type::i8 => "i8",
        Type::i16 => "i16",
        Type::i32 => "i32",
        Type::i64 => "i64",
        Type::i128 => "i128",
        Type::F32 => "F32",
        Type::F64 => "F64",
        Type::ptr => "ptr",
        Type::Last => "Last",
    }
}

} // verus!
