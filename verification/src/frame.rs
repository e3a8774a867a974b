//! The activation records a walk produces.

use vstd::prelude::*;

verus! {

/// One activation record observed during unwinding.
///
/// `sp` is the address of the lowest word belonging to the frame, `bp` the
/// address of its saved frame-pointer link (zero marks the outermost
/// sentinel frame), and `ip` the continuation point recorded for the frame:
/// the capture address for the innermost frame, the return address for
/// every other one. `func` carries the resolved function name and holds the
/// sentinel `"Unknown"` until resolution succeeds.
pub struct StackFrame {
    pub sp: usize,
    pub bp: usize,
    pub ip: usize,
    pub func: String,
}

impl StackFrame {
    /// A fresh, unresolved frame for the given register triple.
    pub fn new(sp: usize, bp: usize, ip: usize) -> (frame: StackFrame)
        ensures
            frame.sp == sp,
            frame.bp == bp,
            frame.ip == ip,
            frame.func@ == "Unknown"@,
    {
        StackFrame { sp, bp, ip, func: "Unknown".to_owned() }
    }
}

} // verus!
