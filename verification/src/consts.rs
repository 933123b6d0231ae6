//! Constants of the module, and the initializers of globals: the bytes of
//! a constant allocation split into initialised, uninitialised and
//! relocated chunks, and the allocations that its pointers point to.
use crate::context::CodegenCx;
use crate::ffi::{Chunk, ChunkType, GlobalView, ModuleTpde, ModuleView, Relocation};
use crate::ir::{new_global_view, slot_encoding, Global, Linkage, Slot};
use crate::symbols::{alloc_name, alloc_symbol_name};
use vstd::prelude::*;
use vstd::string::StrSliceExecFns;

verus! {

broadcast use vstd::std_specs::hash::group_hash_axioms;

/// Whether a static lives in an `.init_array` or `.fini_array` section.
#[derive(Debug, Copy, Clone, PartialEq, Eq, Structural)]
pub enum IsInitOrFini {
    Yes,
    No,
}

/// What a pointer in constant memory points to.
pub enum GlobalAlloc {
    /// A static, by its definition, and whether it is thread-local.
    Static { def_id: u64, thread_local: bool },
    /// An anonymous allocation and its stable hash.
    Memory { hash: u128, alloc: Allocation },
    Function,
    VTable,
    TypeId,
}

/// A pointer stored in an allocation: where it is, and what it points to.
pub struct ProvenancePtr {
    pub offset: usize,
    pub target: GlobalAlloc,
}

/// A constant allocation: its bytes, which of them are initialised, its
/// alignment, and the pointers stored in it, by increasing offset.
pub struct Allocation {
    pub bytes: Vec<u8>,
    pub init_mask: Vec<bool>,
    pub align: u64,
    pub ptrs: Vec<ProvenancePtr>,
}

/// A maximal run of bytes that are all initialised or all uninitialised.
#[derive(Debug, Copy, Clone, PartialEq, Eq, Structural)]
pub struct InitChunk {
    pub init: bool,
    pub start: usize,
    pub end: usize,
}

// ---------------------------------------------------------------------------
// Link sections
// ---------------------------------------------------------------------------

pub open spec fn has_prefix(s: Seq<char>, prefix: Seq<char>) -> bool {
    prefix.len() <= s.len() && s.subrange(0, prefix.len() as int) == prefix
}

/// Whether `s` starts with `prefix`.
fn starts_with(s: &str, prefix: &str) -> (b: bool)
    ensures
        b == has_prefix(s@, prefix@),
{
    let n = prefix.unicode_len();
    if n > s.unicode_len() {
        return false;
    }
    let mut i: usize = 0;
    while i < n
        invariant
            n == prefix@.len(),
            n <= s@.len(),
            i <= n,
            forall|k: int| 0 <= k < i ==> s@[k] == prefix@[k],
        decreases n - i,
    {
        if s.get_char(i) != prefix.get_char(i) {
            assert(s@.subrange(0, n as int)[i as int] != prefix@[i as int]);
            return false;
        }
        i = i + 1;
    }
    assert(s@.subrange(0, n as int) =~= prefix@);
    true
}

pub open spec fn init_or_fini_of(link_section: Option<Seq<char>>) -> IsInitOrFini {
    match link_section {
        Some(s) => if has_prefix(s, ".init_array"@) || has_prefix(s, ".fini_array"@) {
            IsInitOrFini::Yes
        } else {
            IsInitOrFini::No
        },
        _ => IsInitOrFini::No,
    }
}

/// Whether a static placed in `link_section` is a constructor or destructor
/// table.
pub fn link_section_init_or_fini(link_section: Option<&str>) -> (r: IsInitOrFini)
    ensures
        r == init_or_fini_of(
            match link_section {
                Some(s) => Some(s@),
                _ => None,
            },
        ),
{
    match link_section {
        Some(s) => {
            if starts_with(s, ".init_array") || starts_with(s, ".fini_array") {
                IsInitOrFini::Yes
            } else {
                IsInitOrFini::No
            }
        },
        None => IsInitOrFini::No,
    }
}

// ---------------------------------------------------------------------------
// Runs of initialised bytes
// ---------------------------------------------------------------------------

/// The maximal runs of equally initialised bytes in `[start, end)`, in order.
pub open spec fn init_runs(mask: Seq<bool>, start: usize, end: usize) -> Seq<InitChunk>
    decreases end - start,
{
    if end <= start {
        Seq::empty()
    } else {
        let prev = init_runs(mask, start, (end - 1) as usize);
        let b = mask[end - 1];
        if prev.len() > 0 && prev.last().init == b {
            prev.update(prev.len() - 1, InitChunk { end, ..prev.last() })
        } else {
            prev.push(InitChunk { init: b, start: (end - 1) as usize, end })
        }
    }
}

/// The runs of the mask over a range, as the allocation's init mask splits
/// them.
pub fn range_as_init_chunks(mask: &Vec<bool>, start: usize, end: usize) -> (runs: Vec<InitChunk>)
    requires
        start <= end <= mask.len(),
    ensures
        runs@ == init_runs(mask@, start, end),
{
    let mut runs: Vec<InitChunk> = Vec::new();
    let mut k: usize = start;
    while k < end
        invariant
            start <= k <= end,
            end <= mask.len(),
            runs@ == init_runs(mask@, start, k),
        decreases end - k,
    {
        let b = mask[k];
        let n = runs.len();
        if n > 0 && runs[n - 1].init == b {
            let last = runs[n - 1];
            runs.set(n - 1, InitChunk { init: last.init, start: last.start, end: k + 1 });
        } else {
            runs.push(InitChunk { init: b, start: k, end: k + 1 });
        }
        k = k + 1;
        assert(runs@ =~= init_runs(mask@, start, k));
    }
    runs
}

// ---------------------------------------------------------------------------
// Initializers
// ---------------------------------------------------------------------------

/// The module after appending an initialised chunk of bytes `d` to global `g`.
pub open spec fn add_init_chunk(m: ModuleView, g: int, d: Seq<u8>) -> ModuleView {
    m.push_global_data(g, d).push_global_chunk(
        g,
        Chunk { type_: ChunkType::Init, data: m.globals[g].data.len() as u32 },
    )
}

/// The module after appending the chunk of one run.
pub open spec fn add_run(m: ModuleView, g: int, bytes: Seq<u8>, c: InitChunk) -> ModuleView {
    if c.init {
        add_init_chunk(m, g, bytes.subrange(c.start as int, c.end as int))
    } else {
        m.push_global_chunk(g, Chunk { type_: ChunkType::UnInit, data: (c.end - c.start) as u32 })
    }
}

/// The module after appending the chunks of runs, in order.
pub open spec fn add_runs(m: ModuleView, g: int, bytes: Seq<u8>, runs: Seq<InitChunk>) -> ModuleView
    decreases runs.len(),
{
    if runs.len() == 0 {
        m
    } else {
        add_run(add_runs(m, g, bytes, runs.drop_last()), g, bytes, runs.last())
    }
}

/// The module after appending the bytes of `[start, end)`: one chunk per
/// run when there are at most `threshold` runs, else one initialised chunk
/// of all of them.
pub open spec fn add_range(
    m: ModuleView,
    g: int,
    bytes: Seq<u8>,
    mask: Seq<bool>,
    start: usize,
    end: usize,
    threshold: usize,
) -> ModuleView {
    let runs = init_runs(mask, start, end);
    if runs.len() <= threshold {
        add_runs(m, g, bytes, runs)
    } else {
        add_init_chunk(m, g, bytes.subrange(start as int, end as int))
    }
}

/// The module after appending a relocation chunk for a pointer at byte
/// `offset` to `target`.
pub open spec fn add_reloc(m: ModuleView, g: int, offset: u32, target: Slot) -> ModuleView {
    m.push_relocation(Relocation { offset, slot: slot_encoding(target) }).push_global_chunk(
        g,
        Chunk { type_: ChunkType::Reloc, data: m.relocations.len() as u32 },
    )
}

// ---------------------------------------------------------------------------
// Pointers stored in allocations
// ---------------------------------------------------------------------------

/// The number that bytes encode, most significant byte first.
pub open spec fn be_value(b: Seq<u8>) -> nat
    decreases b.len(),
{
    if b.len() == 0 {
        0
    } else {
        be_value(b.drop_last()) * 256 + b.last() as nat
    }
}

/// The number that bytes encode in the target's byte order.
pub open spec fn target_uint(b: Seq<u8>, big_endian: bool) -> nat {
    if big_endian {
        be_value(b)
    } else {
        be_value(b.reverse())
    }
}

/// The offset into its target that the pointer `i` of an allocation holds:
/// its bytes read as a number, cut to 64 bits.
pub open spec fn ptr_offset(alloc: Allocation, i: int, pointer_size: usize, big_endian: bool) -> u64 {
    let o = alloc.ptrs@[i].offset as int;
    (target_uint(alloc.bytes@.subrange(o, o + pointer_size), big_endian) as u128) as u64
}

/// `256` to the power `k`.
pub open spec fn pow256(k: nat) -> nat
    decreases k,
{
    if k == 0 {
        1
    } else {
        256 * pow256((k - 1) as nat)
    }
}

proof fn lemma_pow256_monotone(a: nat, b: nat)
    requires
        a <= b,
    ensures
        pow256(a) <= pow256(b),
    decreases b,
{
    if a < b {
        lemma_pow256_monotone(a, (b - 1) as nat);
    }
}

proof fn lemma_be_value_bound(b: Seq<u8>)
    ensures
        be_value(b) < pow256(b.len()),
    decreases b.len(),
{
    if b.len() > 0 {
        lemma_be_value_bound(b.drop_last());
        let v = be_value(b.drop_last());
        let p = pow256((b.len() - 1) as nat);
        let l = b.last();
        assert(v * 256 + l < 256 * p) by (nonlinear_arith)
            requires
                v < p,
                l < 256,
        ;
    }
}

/// Reads the number that `b` encodes in the target's byte order.
fn read_target_uint(b: &[u8], big_endian: bool) -> (v: u128)
    requires
        b@.len() <= 16,
    ensures
        v == target_uint(b@, big_endian),
{
    let n = b.len();
    let ghost s = if big_endian { b@ } else { b@.reverse() };
    proof {
        assert(pow256(16) == 0x1_0000_0000_0000_0000_0000_0000_0000_0000) by {
            reveal_with_fuel(pow256, 17);
        }
        lemma_be_value_bound(s);
        lemma_pow256_monotone(s.len(), 16);
    }
    let mut v: u128 = 0;
    let mut k: usize = 0;
    while k < n
        invariant
            k <= n,
            n == b@.len(),
            n <= 16,
            s.len() == n,
            s == if big_endian { b@ } else { b@.reverse() },
            v == be_value(s.take(k as int)),
            pow256(16) == 0x1_0000_0000_0000_0000_0000_0000_0000_0000,
        decreases n - k,
    {
        let byte = if big_endian { b[k] } else { b[n - 1 - k] };
        assert(byte == s[k as int]);
        assert(s.take(k + 1).drop_last() =~= s.take(k as int));
        proof {
            lemma_be_value_bound(s.take(k + 1));
            lemma_pow256_monotone((k + 1) as nat, 16);
        }
        v = v * 256 + byte as u128;
        k = k + 1;
    }
    assert(s.take(k as int) =~= s);
    v
}

/// Whether the code generator lowers a pointer to `target` holding
/// `offset`: a static that is not thread-local and was declared, or a
/// non-empty anonymous allocation at its start whose own pointers are
/// lowered too.
pub open spec fn target_ok(
    globals: Map<u64, Global>,
    target: GlobalAlloc,
    offset: u64,
    layout: crate::context::TargetLayout,
) -> bool
    decreases target, 0nat,
{
    match target {
        GlobalAlloc::Static { def_id, thread_local } => globals.contains_key(def_id) && !thread_local,
        GlobalAlloc::Memory { alloc, .. } => {
            &&& offset == 0
            &&& 0 < alloc.bytes@.len() < u32::MAX
            &&& alloc_ok(globals, alloc, layout)
        },
        _ => false,
    }
}

/// Whether an allocation can be written into a global: it is well formed
/// and each of its pointers can be lowered.
pub open spec fn alloc_ok(globals: Map<u64, Global>, alloc: Allocation, layout: crate::context::TargetLayout) -> bool
    decreases alloc, alloc.ptrs@.len() + 1,
{
    &&& alloc_wf(alloc, layout.pointer_size)
    &&& layout.pointer_size <= 16
    &&& ptrs_ok(globals, alloc, layout, alloc.ptrs@.len())
}

/// Whether the first `n` pointers of an allocation can be lowered.
pub open spec fn ptrs_ok(
    globals: Map<u64, Global>,
    alloc: Allocation,
    layout: crate::context::TargetLayout,
    n: nat,
) -> bool
    decreases alloc, n,
{
    if n == 0 || n > alloc.ptrs@.len() {
        true
    } else {
        &&& ptrs_ok(globals, alloc, layout, (n - 1) as nat)
        &&& target_ok(
            globals,
            alloc.ptrs@[n - 1].target,
            ptr_offset(alloc, n - 1, layout.pointer_size, layout.big_endian),
            layout,
        )
    }
}

/// The relocations that lowering a pointer to `target` adds.
pub open spec fn target_relocs(target: GlobalAlloc) -> nat
    decreases target, 0nat,
{
    match target {
        GlobalAlloc::Memory { alloc, .. } => alloc_relocs(alloc, alloc.ptrs@.len()),
        _ => 0,
    }
}

/// The relocations that writing the first `n` pointers of an allocation
/// adds: one per pointer, and those of what it points to.
pub open spec fn alloc_relocs(alloc: Allocation, n: nat) -> nat
    decreases alloc, n,
{
    if n == 0 || n > alloc.ptrs@.len() {
        0
    } else {
        alloc_relocs(alloc, (n - 1) as nat) + 1 + target_relocs(alloc.ptrs@[n - 1].target)
    }
}

/// The module after lowering a pointer, and the slot of the pointer: a
/// static is its global; an anonymous allocation becomes a new internal
/// global named after its hash.
pub open spec fn ptr_module(
    m: ModuleView,
    globals: Map<u64, Global>,
    target: GlobalAlloc,
    pointer_size: usize,
    threshold: usize,
) -> (ModuleView, Slot)
    decreases target, 0nat,
{
    match target {
        GlobalAlloc::Static { def_id, .. } => (m, Slot::Global(globals[def_id])),
        GlobalAlloc::Memory { hash, alloc } => {
            let g = m.globals.len();
            let m1 = m.push_global(new_global_view(alloc_name(hash), Linkage::Internal));
            (
                alloc_module(m1, globals, g as int, alloc, pointer_size, threshold),
                Slot::Global(Global(g as usize)),
            )
        },
        _ => (m, Slot::Raw(0)),
    }
}

/// The module after the first `n` pointers of an allocation and the bytes
/// before each, with the offset just past the last pointer: the bytes, the
/// lowering of what the pointer points to, and a relocation chunk.
pub open spec fn add_ptrs(
    m: ModuleView,
    globals: Map<u64, Global>,
    g: int,
    alloc: Allocation,
    pointer_size: usize,
    threshold: usize,
    n: nat,
) -> (ModuleView, usize)
    decreases alloc, n,
{
    if n == 0 || n > alloc.ptrs@.len() {
        (m, 0)
    } else {
        let (m1, next) = add_ptrs(m, globals, g, alloc, pointer_size, threshold, (n - 1) as nat);
        let p = alloc.ptrs@[n - 1];
        let m2 = if p.offset > next {
            add_range(m1, g, alloc.bytes@, alloc.init_mask@, next, p.offset, threshold)
        } else {
            m1
        };
        let (m3, target) = ptr_module(m2, globals, p.target, pointer_size, threshold);
        (add_reloc(m3, g, p.offset as u32, target), (p.offset + pointer_size) as usize)
    }
}

/// The module after writing an allocation into global `g`: its alignment,
/// then the chunks of its bytes up to each pointer, the pointer's
/// relocation, and the bytes after the last pointer.
pub open spec fn alloc_module(
    m: ModuleView,
    globals: Map<u64, Global>,
    g: int,
    alloc: Allocation,
    pointer_size: usize,
    threshold: usize,
) -> ModuleView
    decreases alloc, alloc.ptrs@.len() + 1,
{
    let m1 = m.set_global_align(g, alloc.align as u32);
    let (m2, next) = add_ptrs(m1, globals, g, alloc, pointer_size, threshold, alloc.ptrs@.len());
    if alloc.bytes@.len() >= next {
        add_range(m2, g, alloc.bytes@, alloc.init_mask@, next, alloc.bytes@.len() as usize, threshold)
    } else {
        m2
    }
}

proof fn lemma_ptrs_ok(
    globals: Map<u64, Global>,
    alloc: Allocation,
    layout: crate::context::TargetLayout,
    n: nat,
    i: int,
)
    requires
        ptrs_ok(globals, alloc, layout, n),
        n <= alloc.ptrs@.len(),
        0 <= i < n,
    ensures
        target_ok(
            globals,
            alloc.ptrs@[i].target,
            ptr_offset(alloc, i, layout.pointer_size, layout.big_endian),
            layout,
        ),
    decreases n,
{
    if i < n - 1 {
        lemma_ptrs_ok(globals, alloc, layout, (n - 1) as nat, i);
    }
}

proof fn lemma_alloc_relocs_monotone(alloc: Allocation, a: nat, b: nat)
    requires
        a <= b <= alloc.ptrs@.len(),
    ensures
        alloc_relocs(alloc, a) <= alloc_relocs(alloc, b),
    decreases b,
{
    if a < b {
        lemma_alloc_relocs_monotone(alloc, a, (b - 1) as nat);
    }
}

// ---------------------------------------------------------------------------
// The size that chunks stand for
// ---------------------------------------------------------------------------

/// The number of bytes a chunk stands for: the bytes it holds, the
/// uninitialised bytes it leaves, or a pointer.
pub open spec fn chunk_size(c: Chunk, data: Seq<Seq<u8>>, pointer_size: nat) -> nat {
    match c.type_ {
        ChunkType::Init => data[c.data as int].len(),
        ChunkType::UnInit => c.data as nat,
        ChunkType::Reloc => pointer_size,
    }
}

/// The number of bytes a sequence of chunks stands for.
pub open spec fn chunks_size(cs: Seq<Chunk>, data: Seq<Seq<u8>>, pointer_size: nat) -> nat
    decreases cs.len(),
{
    if cs.len() == 0 {
        0
    } else {
        chunks_size(cs.drop_last(), data, pointer_size) + chunk_size(cs.last(), data, pointer_size)
    }
}

/// `new` is `old` with chunks appended that stand for `size` bytes, and with
/// data appended that those chunks hold.
pub open spec fn initializer_grew(old: GlobalView, new: GlobalView, size: nat, pointer_size: nat) -> bool {
    let added = new.chunks.skip(old.chunks.len() as int);
    &&& old.chunks.len() <= new.chunks.len()
    &&& new.chunks.take(old.chunks.len() as int) == old.chunks
    &&& old.data.len() <= new.data.len()
    &&& new.data.take(old.data.len() as int) == old.data
    &&& forall|i: int|
        0 <= i < added.len() && (#[trigger] added[i]).type_ == ChunkType::Init ==> added[i].data
            < new.data.len()
    &&& chunks_size(added, new.data, pointer_size) == size
    &&& new.name == old.name
    &&& new.size == old.size
    &&& new.thread_loc == old.thread_loc
    &&& new.flags == old.flags
}

proof fn lemma_chunks_size_concat(a: Seq<Chunk>, b: Seq<Chunk>, data: Seq<Seq<u8>>, ps: nat)
    ensures
        chunks_size(a + b, data, ps) == chunks_size(a, data, ps) + chunks_size(b, data, ps),
    decreases b.len(),
{
    if b.len() == 0 {
        assert(a + b =~= a);
    } else {
        lemma_chunks_size_concat(a, b.drop_last(), data, ps);
        assert((a + b).drop_last() =~= a + b.drop_last());
    }
}

proof fn lemma_chunks_size_more_data(cs: Seq<Chunk>, data: Seq<Seq<u8>>, more: Seq<Seq<u8>>, ps: nat)
    requires
        data.len() <= more.len(),
        more.take(data.len() as int) == data,
        forall|i: int| 0 <= i < cs.len() && (#[trigger] cs[i]).type_ == ChunkType::Init ==> cs[i].data < data.len(),
    ensures
        chunks_size(cs, data, ps) == chunks_size(cs, more, ps),
    decreases cs.len(),
{
    if cs.len() > 0 {
        let last = cs.last();
        assert(cs.last() == cs[cs.len() - 1]);
        lemma_chunks_size_more_data(cs.drop_last(), data, more, ps);
        if last.type_ == ChunkType::Init {
            assert(more.take(data.len() as int)[last.data as int] == more[last.data as int]);
        }
    }
}

proof fn lemma_grew_refl(g: GlobalView, ps: nat)
    ensures
        initializer_grew(g, g, 0, ps),
{
    assert(g.chunks.skip(g.chunks.len() as int) =~= Seq::<Chunk>::empty());
    assert(g.chunks.take(g.chunks.len() as int) =~= g.chunks);
    assert(g.data.take(g.data.len() as int) =~= g.data);
}

proof fn lemma_grew_trans(a: GlobalView, b: GlobalView, c: GlobalView, s1: nat, s2: nat, ps: nat)
    requires
        initializer_grew(a, b, s1, ps),
        initializer_grew(b, c, s2, ps),
    ensures
        initializer_grew(a, c, s1 + s2, ps),
{
    let ab = b.chunks.skip(a.chunks.len() as int);
    let bc = c.chunks.skip(b.chunks.len() as int);
    let ac = c.chunks.skip(a.chunks.len() as int);
    assert(c.chunks.take(b.chunks.len() as int) == b.chunks);
    assert(ac =~= ab + bc);
    assert(c.chunks.take(a.chunks.len() as int) =~= b.chunks.take(a.chunks.len() as int));
    assert(c.data.take(a.data.len() as int) =~= b.data.take(a.data.len() as int));
    lemma_chunks_size_more_data(ab, b.data, c.data, ps);
    lemma_chunks_size_concat(ab, bc, c.data, ps);
    assert forall|i: int| 0 <= i < ac.len() && (#[trigger] ac[i]).type_ == ChunkType::Init implies ac[i].data
        < c.data.len() by {
        if i < ab.len() {
            assert(ac[i] == ab[i]);
        } else {
            assert(ac[i] == bc[i - ab.len()]);
        }
    }
}

/// Appending one chunk, and the bytes it holds if it holds any.
proof fn lemma_grew_push(g: GlobalView, c: Chunk, d: Option<Seq<u8>>, ps: nat)
    requires
        c.type_ == ChunkType::Init <==> d is Some,
        d is Some ==> c.data == g.data.len(),
    ensures
        ({
            let data = match d {
                Some(bytes) => g.data.push(bytes),
                _ => g.data,
            };
            let new = GlobalView { chunks: g.chunks.push(c), data, ..g };
            initializer_grew(g, new, chunk_size(c, data, ps), ps)
        }),
{
    let data = match d {
        Some(bytes) => g.data.push(bytes),
        _ => g.data,
    };
    let new = GlobalView { chunks: g.chunks.push(c), data, ..g };
    let added = new.chunks.skip(g.chunks.len() as int);
    assert(added =~= seq![c]);
    assert(added.drop_last() =~= Seq::<Chunk>::empty());
    assert(added.last() == c);
    assert(chunks_size(added.drop_last(), data, ps) == 0);
    assert(chunks_size(added, data, ps) == chunk_size(c, data, ps));
    assert(new.chunks.take(g.chunks.len() as int) =~= g.chunks);
    assert(new.data.take(g.data.len() as int) =~= g.data);
    assert forall|i: int| 0 <= i < added.len() && (#[trigger] added[i]).type_ == ChunkType::Init implies added[i].data
        < new.data.len() by {
        assert(added[i] == c);
    }
}

/// An allocation whose mask covers its bytes and whose pointers lie inside
/// it, by increasing offset, without overlapping.
pub open spec fn alloc_wf(alloc: Allocation, pointer_size: usize) -> bool {
    &&& alloc.init_mask@.len() == alloc.bytes@.len()
    &&& forall|i: int|
        0 <= i < alloc.ptrs@.len() ==> #[trigger] alloc.ptrs@[i].offset + pointer_size
            <= alloc.bytes@.len()
    &&& forall|i: int, j: int|
        0 <= i < j < alloc.ptrs@.len() ==> #[trigger] alloc.ptrs@[i].offset + pointer_size
            <= #[trigger] alloc.ptrs@[j].offset
}

/// The runs of a range start at its start, follow each other without gaps,
/// are not empty, and end at its end.
proof fn lemma_runs_shape(mask: Seq<bool>, start: usize, end: usize)
    requires
        start <= end <= mask.len(),
    ensures
        ({
            let runs = init_runs(mask, start, end);
            &&& (runs.len() == 0) == (end == start)
            &&& runs.len() <= end - start
            &&& runs.len() > 0 ==> runs[0].start == start && runs.last().end == end
            &&& forall|i: int| 0 <= i < runs.len() ==> start <= (#[trigger] runs[i]).start < runs[i].end <= end
            &&& forall|i: int| 0 <= i < runs.len() - 1 ==> (#[trigger] runs[i]).end == runs[i + 1].start
        }),
    decreases end - start,
{
    if end > start {
        lemma_runs_shape(mask, start, (end - 1) as usize);
    }
}

impl ModuleTpde {
    /// Appends the chunks of the bytes `[start, end)` of an allocation to
    /// global `g`.
    fn append_chunks_of_bytes(
        &mut self,
        global: Global,
        alloc: &Allocation,
        start: usize,
        end: usize,
        threshold: usize,
        Ghost(pointer_size): Ghost<nat>,
    )
        requires
            old(self)@.has_global(global),
            start <= end <= alloc.bytes@.len(),
            alloc.init_mask@.len() == alloc.bytes@.len(),
            old(self)@.globals[global.0 as int].data.len() + (end - start) < u32::MAX,
        ensures
            final(self)@ == add_range(
                old(self)@,
                global.0 as int,
                alloc.bytes@,
                alloc.init_mask@,
                start,
                end,
                threshold,
            ),
            final(self)@.globals.len() == old(self)@.globals.len(),
            final(self)@.relocations == old(self)@.relocations,
            forall|j: int|
                0 <= j < old(self)@.globals.len() && j != global.0 ==> final(self)@.globals[j]
                    == old(self)@.globals[j],
            final(self)@.globals[global.0 as int].data.len()
                <= old(self)@.globals[global.0 as int].data.len() + (end - start),
            initializer_grew(
                old(self)@.globals[global.0 as int],
                final(self)@.globals[global.0 as int],
                (end - start) as nat,
                pointer_size,
            ),
    {
        let ghost m0 = self@;
        let ghost g = global.0 as int;
        let ghost d0 = m0.globals[g].data.len();
        let chunks = range_as_init_chunks(&alloc.init_mask, start, end);
        proof {
            lemma_runs_shape(alloc.init_mask@, start, end);
            lemma_grew_refl(m0.globals[g], pointer_size);
        }
        if chunks.len() <= threshold {
            let mut i: usize = 0;
            while i < chunks.len()
                invariant
                    i <= chunks@.len(),
                    chunks@ == init_runs(alloc.init_mask@, start, end),
                    start <= end <= alloc.bytes@.len(),
                    chunks@.len() <= end - start,
                    chunks@.len() > 0 ==> chunks@[0].start == start && chunks@.last().end == end,
                    forall|k: int| 0 <= k < chunks@.len() ==> start <= (#[trigger] chunks@[k]).start < chunks@[k].end <= end,
                    forall|k: int| 0 <= k < chunks@.len() - 1 ==> (#[trigger] chunks@[k]).end == chunks@[k + 1].start,
                    d0 + (end - start) < u32::MAX,
                    g == global.0,
                    m0.has_global(global),
                    self@ == add_runs(m0, g, alloc.bytes@, chunks@.take(i as int)),
                    self@.globals.len() == m0.globals.len(),
                    self@.relocations == m0.relocations,
                    forall|j: int|
                        0 <= j < m0.globals.len() && j != g ==> self@.globals[j] == m0.globals[j],
                    i < chunks@.len() ==> self@.globals[g].data.len() <= d0 + (chunks@[i as int].start - start),
                    i == chunks@.len() ==> self@.globals[g].data.len() <= d0 + (end - start),
                    initializer_grew(
                        m0.globals[g],
                        self@.globals[g],
                        ((if i < chunks@.len() { chunks@[i as int].start as int } else { end as int }) - start) as nat,
                        pointer_size,
                    ),
                decreases chunks@.len() - i,
            {
                let chunk = chunks[i];
                let ghost before = self@.globals[g];
                assert(chunks@.take(i + 1).drop_last() =~= chunks@.take(i as int));
                if chunk.init {
                    let bytes = vstd::slice::slice_subrange(alloc.bytes.as_slice(), chunk.start, chunk.end);
                    self.global_add_init_chunk(global, bytes);
                    proof {
                        let c = Chunk { type_: ChunkType::Init, data: before.data.len() as u32 };
                        lemma_grew_push(before, c, Some(bytes@), pointer_size);
                        assert(self@.globals[g] =~= GlobalView {
                            chunks: before.chunks.push(c),
                            data: before.data.push(bytes@),
                            ..before
                        });
                    }
                } else {
                    let len = chunk.end - chunk.start;
                    self.global_add_unit_chunk(global, len as u32);
                    proof {
                        let c = Chunk { type_: ChunkType::UnInit, data: len as u32 };
                        lemma_grew_push(before, c, None, pointer_size);
                        assert(self@.globals[g] =~= GlobalView { chunks: before.chunks.push(c), ..before });
                    }
                }
                proof {
                    let covered = (chunk.start - start) as nat;
                    lemma_grew_trans(m0.globals[g], before, self@.globals[g], covered, (chunk.end - chunk.start) as nat, pointer_size);
                }
                i = i + 1;
                if i < chunks.len() {
                    assert(chunks@[i - 1].end == chunks@[i as int].start);
                }
            }
            assert(chunks@.take(i as int) =~= chunks@);
            if chunks.len() == 0 {
                assert(self@ =~= m0);
            }
        } else {
            let bytes = vstd::slice::slice_subrange(alloc.bytes.as_slice(), start, end);
            self.global_add_init_chunk(global, bytes);
            proof {
                let c = Chunk { type_: ChunkType::Init, data: d0 as u32 };
                lemma_grew_push(m0.globals[g], c, Some(bytes@), pointer_size);
                assert(self@.globals[g] =~= GlobalView {
                    chunks: m0.globals[g].chunks.push(c),
                    data: m0.globals[g].data.push(bytes@),
                    ..m0.globals[g]
                });
            }
        }
    }
}

impl CodegenCx {
    /// The slot of a pointer into constant memory holding `offset`: the
    /// global of a static, or a new internal global named after an
    /// anonymous allocation's hash that holds the allocation.
    pub fn ptr_to_backend(&mut self, target: &GlobalAlloc, offset: u64) -> (s: Slot)
        requires
            target_ok(old(self).globals@, *target, offset, old(self).data_layout),
            old(self).module@.relocations.len() + target_relocs(*target) < u32::MAX,
        ensures
            (final(self).module@, s) == ptr_module(
                old(self).module@,
                old(self).globals@,
                *target,
                old(self).data_layout.pointer_size,
                old(self).uninit_const_chunk_threshold,
            ),
            final(self).module@.globals.len() >= old(self).module@.globals.len(),
            forall|j: int|
                0 <= j < old(self).module@.globals.len() ==> final(self).module@.globals[j]
                    == old(self).module@.globals[j],
            final(self).module@.relocations.len() == old(self).module@.relocations.len()
                + target_relocs(*target),
            target matches GlobalAlloc::Memory { alloc, .. } ==> chunks_size(
                final(self).module@.globals[old(self).module@.globals.len() as int].chunks,
                final(self).module@.globals[old(self).module@.globals.len() as int].data,
                old(self).data_layout.pointer_size as nat,
            ) == alloc.bytes@.len(),
            final(self).keeps_names(old(self)),
            final(self).keeps_items(old(self)),
        decreases target,
    {
        match target {
            GlobalAlloc::Static { def_id, .. } => {
                let g = match self.globals.get(def_id) {
                    Some(g) => *g,
                    None => Global(0),
                };
                Slot::new_global(g)
            },
            GlobalAlloc::Memory { hash, alloc } => {
                let name = alloc_symbol_name(*hash);
                let g = self.module.add_global(name.as_str(), Linkage::Internal);
                let ghost fresh = self.module@.globals[g.0 as int];
                self.const_alloc_to_tpde(g, alloc, IsInitOrFini::No);
                proof {
                    let last = self.module@.globals[g.0 as int];
                    assert(last.chunks.skip(fresh.chunks.len() as int) =~= last.chunks);
                }
                Slot::new_global(g)
            },
            _ => Slot::Raw(0),
        }
    }

    /// Writes a constant allocation into global `g`: its alignment, then the
    /// chunks of its bytes, with a relocation chunk for each pointer stored
    /// in it, after lowering what the pointer points to. With more than
    /// the session's threshold of runs of equally initialised bytes between
    /// two pointers, those bytes become one initialised chunk.
    pub fn const_alloc_to_tpde(&mut self, g: Global, alloc: &Allocation, is_init_fini: IsInitOrFini)
        requires
            old(self).module@.has_global(g),
            alloc_ok(old(self).globals@, *alloc, old(self).data_layout),
            old(self).module@.globals[g.0 as int].data.len() + alloc.bytes@.len() < u32::MAX,
            old(self).module@.relocations.len() + alloc_relocs(*alloc, alloc.ptrs@.len()) < u32::MAX,
        ensures
            final(self).module@ == alloc_module(
                old(self).module@,
                old(self).globals@,
                g.0 as int,
                *alloc,
                old(self).data_layout.pointer_size,
                old(self).uninit_const_chunk_threshold,
            ),
            final(self).module@.globals.len() >= old(self).module@.globals.len(),
            forall|j: int|
                0 <= j < old(self).module@.globals.len() && j != g.0 ==> final(self).module@.globals[j]
                    == old(self).module@.globals[j],
            final(self).module@.globals[g.0 as int].data.len() <= old(self).module@.globals[g.0 as int].data.len()
                + alloc.bytes@.len(),
            final(self).module@.relocations.len() == old(self).module@.relocations.len()
                + alloc_relocs(*alloc, alloc.ptrs@.len()),
            initializer_grew(
                old(self).module@.globals[g.0 as int],
                final(self).module@.globals[g.0 as int],
                alloc.bytes@.len(),
                old(self).data_layout.pointer_size as nat,
            ),
            final(self).keeps_names(old(self)),
            final(self).keeps_items(old(self)),
        decreases alloc,
    {
        let ghost m0 = self.module@;
        let ghost gi = g.0 as int;
        let ghost d0 = m0.globals[gi].data.len();
        let ghost r0 = m0.relocations.len();
        let ghost globals = self.globals@;
        let ghost cx0 = *self;
        let pointer_size = self.data_layout.pointer_size;
        let big_endian = self.data_layout.big_endian;
        let threshold = self.uninit_const_chunk_threshold;
        let ghost layout = self.data_layout;
        self.module.global_set_align(g, alloc.align as u32);
        let ghost m1 = self.module@;
        let ghost ps = pointer_size as nat;
        proof {
            lemma_grew_refl(m0.globals[gi], ps);
            assert(initializer_grew(m0.globals[gi], m1.globals[gi], 0, ps));
        }
        let mut next_offset: usize = 0;
        let mut i: usize = 0;
        while i < alloc.ptrs.len()
            invariant
                i <= alloc.ptrs@.len(),
                alloc_ok(globals, *alloc, layout),
                layout == self.data_layout,
                pointer_size == layout.pointer_size,
                big_endian == layout.big_endian,
                threshold == self.uninit_const_chunk_threshold,
                globals == self.globals@,
                self.keeps_names(&cx0),
                self.keeps_items(&cx0),
                gi == g.0,
                m0.has_global(g),
                m1 == m0.set_global_align(gi, alloc.align as u32),
                d0 == m1.globals[gi].data.len(),
                r0 == m1.relocations.len(),
                d0 + alloc.bytes@.len() < u32::MAX,
                r0 + alloc_relocs(*alloc, alloc.ptrs@.len()) < u32::MAX,
                self.module@ == add_ptrs(m1, globals, gi, *alloc, pointer_size, threshold, i as nat).0,
                next_offset == add_ptrs(m1, globals, gi, *alloc, pointer_size, threshold, i as nat).1,
                self.module@.globals.len() >= m0.globals.len(),
                forall|j: int|
                    0 <= j < m0.globals.len() && j != gi ==> self.module@.globals[j] == m0.globals[j],
                self.module@.relocations.len() == r0 + alloc_relocs(*alloc, i as nat),
                self.module@.globals[gi].data.len() <= d0 + next_offset,
                next_offset <= alloc.bytes@.len(),
                i < alloc.ptrs@.len() ==> next_offset <= alloc.ptrs@[i as int].offset,
                ps == pointer_size,
                initializer_grew(m0.globals[gi], self.module@.globals[gi], next_offset as nat, ps),
            decreases alloc.ptrs@.len() - i,
        {
            let offset = alloc.ptrs[i].offset;
            assert(offset + pointer_size <= alloc.bytes@.len());
            let ghost before = self.module@.globals[gi];
            if offset > next_offset {
                self.module.append_chunks_of_bytes(g, alloc, next_offset, offset, threshold, Ghost(pointer_size as nat));
            } else {
                proof {
                    lemma_grew_refl(before, ps);
                }
            }
            proof {
                lemma_grew_trans(
                    m0.globals[gi],
                    before,
                    self.module@.globals[gi],
                    next_offset as nat,
                    (offset - next_offset) as nat,
                    ps,
                );
            }
            let ghost mid = self.module@.globals[gi];
            let word = vstd::slice::slice_subrange(alloc.bytes.as_slice(), offset, offset + pointer_size);
            let ptr_offset = read_target_uint(word, big_endian) as u64;
            proof {
                lemma_ptrs_ok(globals, *alloc, layout, alloc.ptrs@.len(), i as int);
                lemma_alloc_relocs_monotone(*alloc, (i + 1) as nat, alloc.ptrs@.len());
                assert(decreases_to!(alloc => alloc.ptrs@[i as int].target)) by {
                    assert(decreases_to!(alloc => alloc.ptrs));
                    assert(decreases_to!(alloc.ptrs => alloc.ptrs@));
                    assert(decreases_to!(alloc.ptrs@ => alloc.ptrs@[i as int]));
                };
            }
            let ptr = self.ptr_to_backend(&alloc.ptrs[i].target, ptr_offset);
            let ghost r = self.module@.relocations.len();
            assert(self.module@.globals[gi] == mid);
            self.module.global_add_reloc_chunk(g, offset as u32, ptr);
            proof {
                let c = Chunk { type_: ChunkType::Reloc, data: r as u32 };
                lemma_grew_push(mid, c, None, ps);
                assert(self.module@.globals[gi] =~= GlobalView { chunks: mid.chunks.push(c), ..mid });
                lemma_grew_trans(m0.globals[gi], mid, self.module@.globals[gi], offset as nat, ps, ps);
            }
            next_offset = offset + pointer_size;
            i = i + 1;
            if i < alloc.ptrs.len() {
                assert(alloc.ptrs@[i - 1].offset + pointer_size <= alloc.ptrs@[i as int].offset);
            }
        }
        if alloc.bytes.len() >= next_offset {
            let len = alloc.bytes.len();
            let ghost before = self.module@.globals[gi];
            self.module.append_chunks_of_bytes(g, alloc, next_offset, len, threshold, Ghost(pointer_size as nat));
            proof {
                lemma_grew_trans(
                    m0.globals[gi],
                    before,
                    self.module@.globals[gi],
                    next_offset as nat,
                    (len - next_offset) as nat,
                    ps,
                );
            }
        }
    }
}

} // verus!
