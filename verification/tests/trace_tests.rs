use stacktrace::frame::StackFrame;
use stacktrace::locate::find_load_addr;
use stacktrace::locate::is_magic;
use stacktrace::locate::page_align;
use stacktrace::memory::ImageMemory;
use stacktrace::memory::StackMemory;
use stacktrace::render::to_hex;
use stacktrace::resolve::resolve_addresses;
use stacktrace::resolve::Symbol;
use stacktrace::trace::capture_trace;
use stacktrace::walker::walk_frames;
use stacktrace::walker::walk_step;

/// A stack snapshot holding a three-deep saved-frame-pointer chain
/// `0x1000 -> 0x1020 -> 0x1040 -> 0`, with return addresses `ret_b_to_a`,
/// `ret_a_to_main` and `ret_past_main` in the three saved-link areas.
fn three_level_stack(ret_b_to_a: usize, ret_a_to_main: usize, ret_past_main: usize) -> StackMemory {
    StackMemory {
        base: 0x1000,
        words: vec![
            0x1020,        // 0x1000: frame pointer saved by b
            ret_b_to_a,    // 0x1008: return address into a
            0,             // 0x1010
            0,             // 0x1018
            0x1040,        // 0x1020: frame pointer saved by a
            ret_a_to_main, // 0x1028: return address into main
            0,             // 0x1030
            0,             // 0x1038
            0,             // 0x1040: main's saved frame pointer, the sentinel
            ret_past_main, // 0x1048: return address past main
        ],
    }
}

#[test]
fn walk_depth_three_gives_four_frames() {
    let mem = three_level_stack(0xb001, 0xb002, 0xb003);
    let frames = walk_frames(&mem, 0xfe0, 0x1000, 0xa000);
    assert_eq!(frames.len(), 4);
}

#[test]
fn walk_orders_frames_innermost_first() {
    let mem = three_level_stack(0xb001, 0xb002, 0xb003);
    let frames = walk_frames(&mem, 0xfe0, 0x1000, 0xa000);
    assert_eq!((frames[0].sp, frames[0].bp, frames[0].ip), (0xfe0, 0x1000, 0xa000));
    assert_eq!((frames[1].sp, frames[1].bp, frames[1].ip), (0x1010, 0x1020, 0xb001));
    assert_eq!((frames[2].sp, frames[2].bp, frames[2].ip), (0x1030, 0x1040, 0xb002));
    assert_eq!((frames[3].sp, frames[3].bp, frames[3].ip), (0x1050, 0, 0xb003));
    for frame in &frames {
        assert_eq!(frame.func, "Unknown");
    }
}

#[test]
fn walk_last_frame_has_null_frame_pointer() {
    let mem = three_level_stack(0xb001, 0xb002, 0xb003);
    let frames = walk_frames(&mem, 0xfe0, 0x1000, 0xa000);
    assert_eq!(frames.last().unwrap().bp, 0);
}

#[test]
fn walk_includes_innermost_frame_when_it_is_the_only_one() {
    let mem = StackMemory { base: 0x1000, words: vec![] };
    let frames = walk_frames(&mem, 0xfe0, 0, 0xa000);
    assert_eq!(frames.len(), 1);
    assert_eq!(frames[0].bp, 0);
    assert_eq!(frames[0].ip, 0xa000);
}

#[test]
fn walk_twice_from_same_site_gives_equal_depth() {
    // The two captures differ in the instruction pointer, as two
    // immediately consecutive captures from one call site do.
    let mem = three_level_stack(0xb001, 0xb002, 0xb003);
    let first = walk_frames(&mem, 0xfe0, 0x1000, 0xa000);
    let second = walk_frames(&mem, 0xfe0, 0x1000, 0xa004);
    assert_eq!(first.len(), second.len());
}

#[test]
fn walk_step_skips_the_two_saved_slots() {
    assert_eq!(walk_step(0x100, 0x200, 0xabc), (0x110, 0x200, 0xabc));
}

#[test]
fn frame_new_starts_unresolved() {
    let frame = StackFrame::new(1, 2, 3);
    assert_eq!(frame.sp, 1);
    assert_eq!(frame.bp, 2);
    assert_eq!(frame.ip, 3);
    assert_eq!(frame.func, "Unknown");
}

#[test]
fn page_align_rounds_down() {
    assert_eq!(page_align(0x401234), 0x401000);
    assert_eq!(page_align(0x1000), 0x1000);
    assert_eq!(page_align(0xfff), 0);
    assert_eq!(page_align(0), 0);
}

#[test]
fn is_magic_accepts_exactly_the_signature() {
    assert!(is_magic(0x464c457f));
    assert!(!is_magic(0x464c457e));
    assert!(!is_magic(0));
}

#[test]
fn scan_from_any_page_above_base_finds_base() {
    let mem = ImageMemory {
        base: 0x400000,
        page_heads: vec![0x464c457f, 1, 2, 3, 4],
    };
    for k in 0..5usize {
        let ip = 0x400000 + k * 0x1000 + 0x123;
        assert_eq!(find_load_addr(&mem, ip), Some(0x400000));
    }
}

#[test]
fn scan_stops_at_first_match_walking_backward() {
    let mem = ImageMemory {
        base: 0x400000,
        page_heads: vec![0x464c457f, 1, 0x464c457f, 3, 4],
    };
    assert_eq!(find_load_addr(&mem, 0x404123), Some(0x402000));
    assert_eq!(find_load_addr(&mem, 0x401123), Some(0x400000));
}

#[test]
fn scan_without_signature_exhausts_the_snapshot() {
    let mem = ImageMemory {
        base: 0x400000,
        page_heads: vec![1, 2, 3],
    };
    assert_eq!(find_load_addr(&mem, 0x402fff), None);
}

fn foo_bar_table() -> Vec<Symbol> {
    vec![
        Symbol { name: "foo".to_string(), start: 0x1000, size: 0x10 },
        Symbol { name: "bar".to_string(), start: 0x2000, size: 0x20 },
    ]
}

#[test]
fn resolve_offset_inside_foo_yields_foo() {
    let mut frames = vec![StackFrame::new(0, 0, 0x401005)];
    resolve_addresses(&mut frames, 0x400000, &foo_bar_table());
    assert_eq!(frames[0].func, "foo");
}

#[test]
fn resolve_offset_between_symbols_keeps_the_sentinel() {
    let mut frames = vec![StackFrame::new(0, 0, 0x401800)];
    resolve_addresses(&mut frames, 0x400000, &foo_bar_table());
    assert_eq!(frames[0].func, "Unknown");
}

#[test]
fn resolve_range_boundaries_are_half_open() {
    let table = foo_bar_table();
    let mut frames = vec![
        StackFrame::new(0, 0, 0x401000), // first offset of foo
        StackFrame::new(0, 0, 0x40100f), // last offset of foo
        StackFrame::new(0, 0, 0x401010), // one past foo
        StackFrame::new(0, 0, 0x400fff), // one before foo
    ];
    resolve_addresses(&mut frames, 0x400000, &table);
    assert_eq!(frames[0].func, "foo");
    assert_eq!(frames[1].func, "foo");
    assert_eq!(frames[2].func, "Unknown");
    assert_eq!(frames[3].func, "Unknown");
}

#[test]
fn resolve_takes_first_match_on_overlapping_ranges() {
    let table = vec![
        Symbol { name: "first".to_string(), start: 0x100, size: 0x100 },
        Symbol { name: "second".to_string(), start: 0x100, size: 0x200 },
    ];
    let mut frames = vec![StackFrame::new(0, 0, 0x150)];
    resolve_addresses(&mut frames, 0, &table);
    assert_eq!(frames[0].func, "first");
}

#[test]
fn resolve_below_load_base_keeps_the_sentinel() {
    let mut frames = vec![StackFrame::new(0, 0, 0x10)];
    resolve_addresses(&mut frames, 0x400000, &foo_bar_table());
    assert_eq!(frames[0].func, "Unknown");
}

#[test]
fn resolve_never_touches_the_addresses() {
    let mut frames = vec![StackFrame::new(7, 8, 0x401005)];
    resolve_addresses(&mut frames, 0x400000, &foo_bar_table());
    assert_eq!(frames[0].sp, 7);
    assert_eq!(frames[0].bp, 8);
    assert_eq!(frames[0].ip, 0x401005);
}

#[test]
fn three_level_call_chain_resolves_in_order() {
    // A call chain main -> a -> b, with b capturing: the innermost frame's
    // instruction pointer lies in b, the two return addresses lie in a and
    // in main, and the terminal frame's return address lies outside every
    // symbol.
    let load = 0x400000;
    let mem = three_level_stack(load + 0x2050, load + 0x1080, load + 0x9000);
    let table = vec![
        Symbol { name: "main".to_string(), start: 0x1000, size: 0x100 },
        Symbol { name: "a".to_string(), start: 0x2000, size: 0x100 },
        Symbol { name: "b".to_string(), start: 0x3000, size: 0x100 },
    ];
    let frames = capture_trace(&mem, 0xfe0, 0x1000, load + 0x3010, load, &table);
    assert_eq!(frames.len(), 4);
    assert_eq!(frames[0].func, "b");
    assert_eq!(frames[1].func, "a");
    assert_eq!(frames[2].func, "main");
    assert_eq!(frames[3].func, "Unknown");
    assert_eq!(frames[3].bp, 0);
}

#[test]
fn capture_twice_gives_equal_depth() {
    let load = 0x400000;
    let mem = three_level_stack(load + 0x2050, load + 0x1080, load + 0x9000);
    let table = foo_bar_table();
    let first = capture_trace(&mem, 0xfe0, 0x1000, load + 0x3010, load, &table);
    let second = capture_trace(&mem, 0xfe0, 0x1000, load + 0x3014, load, &table);
    assert_eq!(first.len(), second.len());
}

#[test]
fn to_hex_renders_like_the_alternate_formatter() {
    assert_eq!(to_hex(0), "0x0");
    assert_eq!(to_hex(9), "0x9");
    assert_eq!(to_hex(10), "0xa");
    assert_eq!(to_hex(0x1f), "0x1f");
    assert_eq!(to_hex(0x401020), "0x401020");
    assert_eq!(to_hex(0x401020), format!("{:#x}", 0x401020));
    assert_eq!(to_hex(usize::MAX), format!("{:#x}", usize::MAX));
}

#[test]
fn render_exposes_all_four_fields() {
    let frame = StackFrame { sp: 0x7ffee0, bp: 0x7ffee8, ip: 0x401020, func: "main".to_string() };
    let block = frame.render();
    assert!(block.contains("sp: 0x7ffee0"));
    assert!(block.contains("bp: 0x7ffee8"));
    assert!(block.contains("ip: 0x401020"));
    assert!(block.contains("function: main"));
}

#[test]
fn render_matches_the_reference_block_exactly() {
    let frame = StackFrame { sp: 0x7ffee0, bp: 0x7ffee8, ip: 0x401020, func: "main".to_string() };
    assert_eq!(
        frame.render(),
        "{\n\tsp: 0x7ffee0,\n\tbp: 0x7ffee8,\n\tip: 0x401020,\n\tfunction: main,\n}"
    );
}
