//! Frame-pointer stack walking.
//!
//! An activation record's saved-link area sits at its frame pointer `bp`:
//! the word at `bp` holds the caller's frame pointer and the word at
//! `bp + WORD_SIZE` holds the return address; the caller's own stack begins
//! just past those two slots, at `bp + 2 * WORD_SIZE`. The walk starts from
//! the captured register triple and follows the saved links until it meets
//! the null sentinel frame pointer, emitting one frame per record,
//! innermost first.

use vstd::prelude::*;

use crate::frame::StackFrame;
use crate::memory::StackMemory;
use crate::memory::WORD_SIZE;

verus! {

/// A well-formed saved-frame-pointer chain rooted at `bp`.
///
/// Either `bp` is already the null sentinel, or the snapshot holds both of
/// the frame's saved slots, the slot addresses fit in the address space,
/// and the saved caller frame pointer is the sentinel or points strictly
/// upward into a chain that is itself well-formed — so the chain is finite
/// and every read the walk makes stays inside the snapshot.
pub open spec fn chain_wf(mem: StackMemory, bp: usize) -> bool
    decreases (if bp == 0 { 0int } else { usize::MAX - bp + 1 }),
{
    bp == 0 || {
        &&& bp + 2 * WORD_SIZE <= usize::MAX
        &&& mem.valid(bp)
        &&& mem.valid((bp + WORD_SIZE) as usize)
        &&& (mem.word_at(bp) == 0 || (mem.word_at(bp) > bp && chain_wf(mem, mem.word_at(bp))))
    }
}

/// The number of saved links followed from `bp` before the null sentinel:
/// the call depth recorded in the chain.
pub open spec fn chain_depth(mem: StackMemory, bp: usize) -> nat
    decreases (if bp == 0 { 0int } else { usize::MAX - bp + 1 })
        when chain_wf(mem, bp)
{
    if bp == 0 {
        0
    } else {
        1 + chain_depth(mem, mem.word_at(bp))
    }
}

/// The `(sp, bp, ip)` triples the walk emits, innermost first: the triple
/// it starts from, then, unless the frame pointer is the sentinel, the
/// caller's triple read out of the snapshot, and so on up the chain.
pub open spec fn walk_triples(mem: StackMemory, sp: usize, bp: usize, ip: usize) -> Seq<
    (usize, usize, usize),
>
    decreases (if bp == 0 { 0int } else { usize::MAX - bp + 1 })
        when chain_wf(mem, bp)
{
    if bp == 0 {
        seq![(sp, bp, ip)]
    } else {
        seq![(sp, bp, ip)] + walk_triples(
            mem,
            (bp + 2 * WORD_SIZE) as usize,
            mem.word_at(bp),
            mem.word_at((bp + WORD_SIZE) as usize),
        )
    }
}

/// Whether `frames` records exactly the triples of a walk, all of them
/// still carrying the unresolved sentinel name.
pub open spec fn frames_match(frames: Seq<StackFrame>, triples: Seq<(usize, usize, usize)>) -> bool {
    &&& frames.len() == triples.len()
    &&& forall|i: int|
        0 <= i < frames.len() ==> {
            &&& (#[trigger] frames[i]).sp == triples[i].0
            &&& frames[i].bp == triples[i].1
            &&& frames[i].ip == triples[i].2
            &&& frames[i].func@ == "Unknown"@
        }
}

/// One step of the walk: from a frame whose saved-link area sits at `bp`,
/// given the two words stored there — `saved_bp` read from `bp` and
/// `saved_ip` read from `bp + WORD_SIZE` — the caller's register triple.
pub fn walk_step(bp: usize, saved_bp: usize, saved_ip: usize) -> (next: (usize, usize, usize))
    requires
        bp + 2 * WORD_SIZE <= usize::MAX,
    ensures
        next.0 == bp + 2 * WORD_SIZE,
        next.1 == saved_bp,
        next.2 == saved_ip,
{
    (bp + 2 * WORD_SIZE, saved_bp, saved_ip)
}

/// Walks the chain of saved frame pointers from the captured triple
/// `(sp, bp, ip)`, returning one unresolved frame per activation record,
/// innermost first. The walk includes the frame it starts from even when
/// that frame is also the outermost one.
pub fn walk_frames(mem: &StackMemory, sp: usize, bp: usize, ip: usize) -> (frames: Vec<
    StackFrame,
>)
    requires
        chain_wf(*mem, bp),
    ensures
        frames_match(frames@, walk_triples(*mem, sp, bp, ip)),
    decreases (if bp == 0 { 0int } else { usize::MAX - bp + 1 }),
{
    let mut frames: Vec<StackFrame> = Vec::new();
    frames.push(StackFrame::new(sp, bp, ip));
    if bp != 0 {
        let saved_bp = mem.read(bp);
        let saved_ip = mem.read(bp + WORD_SIZE);
        let next = walk_step(bp, saved_bp, saved_ip);
        let mut rest = walk_frames(mem, next.0, next.1, next.2);
        frames.append(&mut rest);
    }
    frames
}

/// A walk over a well-formed chain terminates and returns exactly one
/// frame per call recorded in the chain, plus the innermost frame it
/// started from.
pub proof fn lemma_walk_len(mem: StackMemory, sp: usize, bp: usize, ip: usize)
    requires
        chain_wf(mem, bp),
    ensures
        walk_triples(mem, sp, bp, ip).len() == chain_depth(mem, bp) + 1,
    decreases (if bp == 0 { 0int } else { usize::MAX - bp + 1 }),
{
    if bp != 0 {
        lemma_walk_len(
            mem,
            (bp + 2 * WORD_SIZE) as usize,
            mem.word_at(bp),
            mem.word_at((bp + WORD_SIZE) as usize),
        );
    }
}

/// The outermost frame a walk returns always carries the null
/// frame-pointer sentinel.
pub proof fn lemma_walk_last_bp_zero(mem: StackMemory, sp: usize, bp: usize, ip: usize)
    requires
        chain_wf(mem, bp),
    ensures
        walk_triples(mem, sp, bp, ip).last().1 == 0,
    decreases (if bp == 0 { 0int } else { usize::MAX - bp + 1 }),
{
    if bp != 0 {
        lemma_walk_last_bp_zero(
            mem,
            (bp + 2 * WORD_SIZE) as usize,
            mem.word_at(bp),
            mem.word_at((bp + WORD_SIZE) as usize),
        );
    }
}

/// Two captures made in immediate succession from one call site share
/// their stack pointer and frame pointer and differ only in the captured
/// instruction pointer. Their walks have the same depth and agree on
/// every frame beyond the innermost: the instruction pointer only ever
/// enters the emitted triples, never the steps of the walk.
pub proof fn lemma_walk_ignores_innermost_ip(
    mem: StackMemory,
    sp: usize,
    bp: usize,
    ip1: usize,
    ip2: usize,
)
    requires
        chain_wf(mem, bp),
    ensures
        walk_triples(mem, sp, bp, ip1).len() == walk_triples(mem, sp, bp, ip2).len(),
        walk_triples(mem, sp, bp, ip1).skip(1) == walk_triples(mem, sp, bp, ip2).skip(1),
{
    let t1 = walk_triples(mem, sp, bp, ip1);
    let t2 = walk_triples(mem, sp, bp, ip2);
    if bp == 0 {
        assert(t1.skip(1) =~= t2.skip(1));
    } else {
        let rest = walk_triples(
            mem,
            (bp + 2 * WORD_SIZE) as usize,
            mem.word_at(bp),
            mem.word_at((bp + WORD_SIZE) as usize),
        );
        assert(t1.skip(1) =~= rest);
        assert(t2.skip(1) =~= rest);
    }
}

} // verus!
