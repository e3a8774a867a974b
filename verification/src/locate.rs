//! Load-address discovery by signature scan.
//!
//! The running image's load base is found without any loader or debugger
//! service: starting from the page containing the current instruction
//! pointer, the scan steps backward one page at a time and stops at the
//! first page whose first 32-bit word is the executable format's magic
//! signature. That address is the image base, the subtrahend that turns
//! runtime addresses into image-relative offsets.

use vstd::prelude::*;

use crate::memory::ImageMemory;
use crate::memory::PAGE_SIZE;

verus! {

/// The executable format's magic signature, read as the little-endian
/// 32-bit word at the very start of the image header.
pub const ELF_MAGIC: u32 = 0x464c457f;

/// `addr` rounded down to its page boundary.
pub open spec fn spec_page_align(addr: usize) -> usize {
    (addr - (addr as int) % (PAGE_SIZE as int)) as usize
}

/// Rounds `addr` down to its page boundary by masking the in-page bits.
pub fn page_align(addr: usize) -> (r: usize)
    ensures
        r == spec_page_align(addr),
{
    let r = addr & !(PAGE_SIZE - 1);
    proof {
        assert(addr & !(0xfffusize) == addr - addr % 0x1000) by (bit_vector);
    }
    r
}

/// Whether `head` is the magic signature: the stop test of the backward
/// scan, shared with embedding programs that mirror the scan against live
/// memory one page at a time.
pub fn is_magic(head: u32) -> (r: bool)
    ensures
        r == (head == ELF_MAGIC),
{
    head == ELF_MAGIC
}

/// The address the backward scan returns when started at the page-aligned
/// address `addr`: `addr` itself if its page starts with the magic
/// signature, otherwise the result of scanning one page further down, and
/// `None` when the snapshot is exhausted without a match.
pub open spec fn scan_spec(mem: ImageMemory, addr: usize) -> Option<usize>
    decreases addr,
        when mem.covers(addr)
{
    if mem.head_at(addr) == ELF_MAGIC {
        Some(addr)
    } else if addr == mem.base {
        None
    } else {
        scan_spec(mem, (addr - PAGE_SIZE) as usize)
    }
}

/// Scans backward from the page containing `ip`, one page stride at a
/// time, and returns the first page-aligned address whose page starts
/// with the magic signature — the image's load base. Returns `None` only
/// when the snapshot runs out below the last unmatched page.
pub fn find_load_addr(mem: &ImageMemory, ip: usize) -> (r: Option<usize>)
    requires
        mem.wf(),
        mem.covers(spec_page_align(ip)),
    ensures
        r == scan_spec(*mem, spec_page_align(ip)),
{
    let mut addr = page_align(ip);
    loop
        invariant
            mem.covers(addr),
            scan_spec(*mem, spec_page_align(ip)) == scan_spec(*mem, addr),
        decreases addr,
    {
        let head = mem.read_head(addr);
        if is_magic(head) {
            return Some(addr);
        }
        if addr == mem.base {
            return None;
        }
        addr = addr - PAGE_SIZE;
    }
}

/// What the scan's result means. An address the scan returns is a covered
/// page that starts with the magic signature, lies no higher than the
/// scan's start, and is the first such page met stepping backward: no
/// covered page between it and the start matches. `None` means no covered
/// page at or below the start matches.
pub proof fn lemma_scan_first_match(mem: ImageMemory, addr: usize)
    requires
        mem.covers(addr),
    ensures
        match scan_spec(mem, addr) {
            Some(found) => {
                &&& mem.covers(found)
                &&& found <= addr
                &&& mem.head_at(found) == ELF_MAGIC
                &&& forall|a: usize|
                    mem.covers(a) && found < a <= addr ==> #[trigger] mem.head_at(a) != ELF_MAGIC
            },
            None => forall|a: usize|
                mem.covers(a) && a <= addr ==> #[trigger] mem.head_at(a) != ELF_MAGIC,
        },
    decreases addr,
{
    if mem.head_at(addr) != ELF_MAGIC && addr != mem.base {
        lemma_scan_first_match(mem, (addr - PAGE_SIZE) as usize);
        assert forall|a: usize| mem.covers(a) && addr - PAGE_SIZE < a <= addr implies a
            == addr by {
            let d = (a - mem.base) as int;
            let e = (addr - mem.base) as int;
            assert(d % (PAGE_SIZE as int) == 0 && e % (PAGE_SIZE as int) == 0);
            assert(e - (PAGE_SIZE as int) < d <= e);
            assert(d == e) by (nonlinear_arith)
                requires
                    d % 0x1000 == 0,
                    e % 0x1000 == 0,
                    e - 0x1000 < d <= e,
            ;
        }
    }
}

/// A scan started any whole number of pages above the image base returns
/// exactly the base, provided the page at the base starts with the magic
/// signature and no other page of the snapshot does.
pub proof fn lemma_scan_finds_base(mem: ImageMemory, addr: usize)
    requires
        mem.covers(addr),
        mem.head_at(mem.base) == ELF_MAGIC,
        forall|a: usize|
            mem.covers(a) && a != mem.base ==> #[trigger] mem.head_at(a) != ELF_MAGIC,
    ensures
        scan_spec(mem, addr) == Some(mem.base),
    decreases addr,
{
    if addr != mem.base {
        lemma_scan_finds_base(mem, (addr - PAGE_SIZE) as usize);
    }
}

} // verus!
