//! Text rendering of resolved frames.
//!
//! Each frame renders as one block of lines exposing its three addresses
//! in `0x`-prefixed lower-case hexadecimal and its resolved name, suited
//! to direct line-oriented console output.

use vstd::prelude::*;
use vstd::string::StringExecFns;

use crate::frame::StackFrame;

verus! {

/// The lower-case hexadecimal digit character for `d`.
pub open spec fn hex_digit(d: int) -> char {
    if d == 0 {
        '0'
    } else if d == 1 {
        '1'
    } else if d == 2 {
        '2'
    } else if d == 3 {
        '3'
    } else if d == 4 {
        '4'
    } else if d == 5 {
        '5'
    } else if d == 6 {
        '6'
    } else if d == 7 {
        '7'
    } else if d == 8 {
        '8'
    } else if d == 9 {
        '9'
    } else if d == 10 {
        'a'
    } else if d == 11 {
        'b'
    } else if d == 12 {
        'c'
    } else if d == 13 {
        'd'
    } else if d == 14 {
        'e'
    } else {
        'f'
    }
}

/// The hexadecimal digits of `n`, most significant first, with no leading
/// zeros except for zero itself.
pub open spec fn hex_digits(n: nat) -> Seq<char>
    decreases n,
{
    if n < 16 {
        seq![hex_digit(n as int)]
    } else {
        hex_digits(n / 16) + seq![hex_digit((n % 16) as int)]
    }
}

/// `n` rendered as `0x`-prefixed lower-case hexadecimal, the way the
/// standard formatter's alternate hexadecimal form writes it.
pub open spec fn hex_render(n: nat) -> Seq<char> {
    "0x"@ + hex_digits(n)
}

/// The text block for one frame: its stack pointer, frame pointer and
/// instruction pointer as hexadecimal addresses, then its resolved name,
/// one field per line inside braces.
pub open spec fn render_spec(frame: StackFrame) -> Seq<char> {
    "{\n\tsp: "@ + hex_render(frame.sp as nat) + ",\n\tbp: "@ + hex_render(frame.bp as nat)
        + ",\n\tip: "@ + hex_render(frame.ip as nat) + ",\n\tfunction: "@ + frame.func@ + ",\n}"@
}

/// The one-character string for the hexadecimal digit `d`.
fn digit_str(d: u8) -> (r: &'static str)
    requires
        d < 16,
    ensures
        r@ == seq![hex_digit(d as int)],
{
    proof {
        reveal_strlit("0");
        reveal_strlit("1");
        reveal_strlit("2");
        reveal_strlit("3");
        reveal_strlit("4");
        reveal_strlit("5");
        reveal_strlit("6");
        reveal_strlit("7");
        reveal_strlit("8");
        reveal_strlit("9");
        reveal_strlit("a");
        reveal_strlit("b");
        reveal_strlit("c");
        reveal_strlit("d");
        reveal_strlit("e");
        reveal_strlit("f");
        assert("0"@ =~= seq!['0']);
        assert("1"@ =~= seq!['1']);
        assert("2"@ =~= seq!['2']);
        assert("3"@ =~= seq!['3']);
        assert("4"@ =~= seq!['4']);
        assert("5"@ =~= seq!['5']);
        assert("6"@ =~= seq!['6']);
        assert("7"@ =~= seq!['7']);
        assert("8"@ =~= seq!['8']);
        assert("9"@ =~= seq!['9']);
        assert("a"@ =~= seq!['a']);
        assert("b"@ =~= seq!['b']);
        assert("c"@ =~= seq!['c']);
        assert("d"@ =~= seq!['d']);
        assert("e"@ =~= seq!['e']);
        assert("f"@ =~= seq!['f']);
    }
    match d {
        0 => "0",
        1 => "1",
        2 => "2",
        3 => "3",
        4 => "4",
        5 => "5",
        6 => "6",
        7 => "7",
        8 => "8",
        9 => "9",
        10 => "a",
        11 => "b",
        12 => "c",
        13 => "d",
        14 => "e",
        _ => "f",
    }
}

/// Appends the hexadecimal digits of `n` to `out`, most significant
/// first.
fn push_hex_digits(n: usize, out: &mut String)
    ensures
        final(out)@ == old(out)@ + hex_digits(n as nat),
    decreases n,
{
    if n < 16 {
        out.append(digit_str(n as u8));
    } else {
        push_hex_digits(n / 16, out);
        out.append(digit_str((n % 16) as u8));
    }
}

/// Renders `n` as `0x`-prefixed lower-case hexadecimal.
pub fn to_hex(n: usize) -> (r: String)
    ensures
        r@ == hex_render(n as nat),
{
    let mut s = String::from_str("0x");
    push_hex_digits(n, &mut s);
    s
}

impl StackFrame {
    /// Renders this frame as its text block.
    pub fn render(&self) -> (r: String)
        ensures
            r@ == render_spec(*self),
    {
        let mut s = String::from_str("{\n\tsp: ");
        let sp_hex = to_hex(self.sp);
        s.append(sp_hex.as_str());
        s.append(",\n\tbp: ");
        let bp_hex = to_hex(self.bp);
        s.append(bp_hex.as_str());
        s.append(",\n\tip: ");
        let ip_hex = to_hex(self.ip);
        s.append(ip_hex.as_str());
        s.append(",\n\tfunction: ");
        s.append(self.func.as_str());
        s.append(",\n}");
        s
    }
}

} // verus!
