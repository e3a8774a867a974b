//! Symbol resolution for walked frames.
//!
//! Each captured instruction pointer, less the image's load base, is an
//! image-relative offset; the resolver annotates every frame with the name
//! of the first symbol-table entry whose address range contains that
//! offset. The scan is linear per frame and takes the first match in table
//! order, deliberately not the tightest enclosing range.

use vstd::prelude::*;
use vstd::pervasive::VecAdditionalExecFns;

use crate::frame::StackFrame;

verus! {

/// One function-type entry of the executable's symbol table: a display
/// name and the half-open range `[start, start + size)` of image-relative
/// addresses the function covers.
pub struct Symbol {
    pub name: String,
    pub start: usize,
    pub size: usize,
}

impl Symbol {
    /// Whether the image-relative offset `offset` falls in this symbol's
    /// range.
    pub open spec fn spec_within(self, offset: usize) -> bool {
        self.start <= offset < self.start + self.size
    }

    /// Tests whether `offset` falls in this symbol's range.
    pub fn within_range(&self, offset: usize) -> (r: bool)
        ensures
            r == self.spec_within(offset),
    {
        self.start <= offset && offset - self.start < self.size
    }
}

/// The name of the first symbol, in table order, whose range contains
/// `offset`; `None` when no range does.
pub open spec fn first_match_name(syms: Seq<Symbol>, offset: usize) -> Option<Seq<char>>
    decreases syms.len(),
{
    if syms.len() == 0 {
        None
    } else if syms[0].spec_within(offset) {
        Some(syms[0].name@)
    } else {
        first_match_name(syms.drop_first(), offset)
    }
}

/// The name a frame carries after resolution: for an instruction pointer
/// at or above the load base, the first symbol whose range contains the
/// image-relative offset `ip - base`; with no matching range — or with an
/// instruction pointer below the base, which lies outside the image and
/// has no image-relative offset — the name `prev` the frame already
/// carried.
pub open spec fn resolved_func(
    base: usize,
    syms: Seq<Symbol>,
    ip: usize,
    prev: Seq<char>,
) -> Seq<char> {
    if ip >= base {
        match first_match_name(syms, (ip - base) as usize) {
            Some(name) => name,
            None => prev,
        }
    } else {
        prev
    }
}

/// Clones out the name of the first symbol of the table whose range
/// contains `offset`, scanning in table order.
fn lookup_name(functions: &Vec<Symbol>, offset: usize) -> (r: Option<String>)
    ensures
        match r {
            Some(name) => first_match_name(functions@, offset) == Some(name@),
            None => first_match_name(functions@, offset) is None,
        },
{
    let mut j: usize = 0;
    proof {
        assert(functions@.skip(0) =~= functions@);
    }
    while j < functions.len()
        invariant
            j <= functions@.len(),
            first_match_name(functions@, offset) == first_match_name(
                functions@.skip(j as int),
                offset,
            ),
        decreases functions@.len() - j,
    {
        proof {
            assert(functions@.skip(j as int).drop_first() =~= functions@.skip(j as int + 1));
        }
        if functions[j].within_range(offset) {
            return Some(functions[j].name.clone());
        }
        j += 1;
    }
    proof {
        assert(functions@.skip(j as int) =~= Seq::<Symbol>::empty());
    }
    None
}

/// Annotates every frame with the name of the first symbol whose range
/// contains the frame's image-relative offset `ip - load_address`,
/// leaving the name untouched when no range matches or the instruction
/// pointer lies below the load base; `sp`, `bp` and `ip` never change.
pub fn resolve_addresses(
    frames: &mut Vec<StackFrame>,
    load_address: usize,
    functions: &Vec<Symbol>,
)
    ensures
        final(frames)@.len() == old(frames)@.len(),
        forall|i: int|
            0 <= i < old(frames)@.len() ==> {
                &&& (#[trigger] final(frames)@[i]).sp == old(frames)@[i].sp
                &&& final(frames)@[i].bp == old(frames)@[i].bp
                &&& final(frames)@[i].ip == old(frames)@[i].ip
                &&& final(frames)@[i].func@ == resolved_func(
                    load_address,
                    functions@,
                    old(frames)@[i].ip,
                    old(frames)@[i].func@,
                )
            },
{
    let n = frames.len();
    let mut i: usize = 0;
    while i < n
        invariant
            n == old(frames)@.len(),
            frames@.len() == n,
            i <= n,
            forall|k: int|
                0 <= k < i ==> {
                    &&& (#[trigger] frames@[k]).sp == old(frames)@[k].sp
                    &&& frames@[k].bp == old(frames)@[k].bp
                    &&& frames@[k].ip == old(frames)@[k].ip
                    &&& frames@[k].func@ == resolved_func(
                        load_address,
                        functions@,
                        old(frames)@[k].ip,
                        old(frames)@[k].func@,
                    )
                },
            forall|k: int| i <= k < n ==> #[trigger] frames@[k] == old(frames)@[k],
        decreases n - i,
    {
        let ip = frames[i].ip;
        if ip >= load_address {
            let offset = ip - load_address;
            match lookup_name(functions, offset) {
                Some(name) => {
                    let sp = frames[i].sp;
                    let bp = frames[i].bp;
                    frames.set(i, StackFrame { sp, bp, ip, func: name });
                },
                None => {},
            }
        }
        i += 1;
    }
}

} // verus!
