//! The whole capture pipeline over snapshots.

use vstd::prelude::*;

use crate::frame::StackFrame;
use crate::memory::StackMemory;
use crate::resolve::Symbol;
use crate::resolve::resolve_addresses;
use crate::resolve::resolved_func;
use crate::walker::chain_wf;
use crate::walker::walk_frames;
use crate::walker::walk_triples;

verus! {

/// Captures a full trace from the register triple `(sp, bp, ip)`: walks
/// the saved frame-pointer chain out of the stack snapshot, then
/// annotates every emitted frame with the name of the first symbol whose
/// range contains the frame's image-relative offset, the sentinel
/// `"Unknown"` staying in place where none does.
pub fn capture_trace(
    mem: &StackMemory,
    sp: usize,
    bp: usize,
    ip: usize,
    load_address: usize,
    functions: &Vec<Symbol>,
) -> (frames: Vec<StackFrame>)
    requires
        chain_wf(*mem, bp),
    ensures
        frames@.len() == walk_triples(*mem, sp, bp, ip).len(),
        forall|i: int|
            0 <= i < frames@.len() ==> {
                &&& (#[trigger] frames@[i]).sp == walk_triples(*mem, sp, bp, ip)[i].0
                &&& frames@[i].bp == walk_triples(*mem, sp, bp, ip)[i].1
                &&& frames@[i].ip == walk_triples(*mem, sp, bp, ip)[i].2
                &&& frames@[i].func@ == resolved_func(
                    load_address,
                    functions@,
                    walk_triples(*mem, sp, bp, ip)[i].2,
                    "Unknown"@,
                )
            },
{
    let mut frames = walk_frames(mem, sp, bp, ip);
    resolve_addresses(&mut frames, load_address, functions);
    frames
}

} // verus!
