use backtrace::trace;
use backtrace::Frame;
use backtrace::RegisterContext;
use backtrace::SymbolEntry;
use backtrace::SymbolTable;
use std::sync::Arc;

fn context(return_address: usize, stack_pointer: usize, initial_address: usize) -> RegisterContext {
    RegisterContext {
        return_address: Some(return_address),
        stack_pointer: Some(stack_pointer),
        initial_address,
    }
}

fn empty_table() -> Arc<SymbolTable> {
    Arc::new(SymbolTable { entries: Vec::new() })
}

fn deep_stack() -> Vec<RegisterContext> {
    vec![
        context(0x1010, 0x7000, 0x1000),
        context(0x2020, 0x7100, 0x2000),
        context(0x3030, 0x7200, 0x3000),
        context(0x4040, 0x7300, 0x4000),
        context(0x5050, 0x7400, 0x5000),
    ]
}

#[test]
fn trace_emits_frames_most_recent_first() {
    let stack = deep_stack();
    let table = empty_table();
    let mut seen: Vec<(usize, usize, usize)> = Vec::new();
    let emitted = trace(&stack, &table, None, &mut |frame: &Frame| {
        seen.push((frame.ip(), frame.sp(), frame.symbol_address()));
        true
    });
    assert_eq!(emitted, 5);
    assert_eq!(
        seen,
        vec![
            (0x1010, 0x7000, 0x1000),
            (0x2020, 0x7100, 0x2000),
            (0x3030, 0x7200, 0x3000),
            (0x4040, 0x7300, 0x4000),
            (0x5050, 0x7400, 0x5000),
        ]
    );
}

#[test]
fn trace_keeps_the_return_address_unadjusted() {
    let stack = vec![context(0x1010, 0x7000, 0x1000)];
    let table = empty_table();
    let mut ips: Vec<usize> = Vec::new();
    trace(&stack, &table, None, &mut |frame: &Frame| {
        ips.push(frame.ip());
        true
    });
    assert_eq!(ips, vec![0x1010]);
    assert_ne!(ips[0], 0x100f);
}

#[test]
fn trace_with_a_callback_that_always_stops_emits_one_frame() {
    let stack = deep_stack();
    let table = empty_table();
    let mut calls = 0;
    let emitted = trace(&stack, &table, None, &mut |_frame: &Frame| {
        calls += 1;
        false
    });
    assert_eq!(emitted, 1);
    assert_eq!(calls, 1);
}

#[test]
fn trace_stops_after_the_frame_that_asked_for_it() {
    let stack = deep_stack();
    let table = empty_table();
    let mut ips: Vec<usize> = Vec::new();
    let emitted = trace(&stack, &table, None, &mut |frame: &Frame| {
        ips.push(frame.ip());
        frame.ip() != 0x3030
    });
    assert_eq!(emitted, 3);
    assert_eq!(ips, vec![0x1010, 0x2020, 0x3030]);
}

#[test]
fn trace_never_goes_beyond_the_depth_bound() {
    let stack = deep_stack();
    let table = empty_table();
    let mut ips: Vec<usize> = Vec::new();
    let emitted = trace(&stack, &table, Some(2), &mut |frame: &Frame| {
        ips.push(frame.ip());
        true
    });
    assert_eq!(emitted, 2);
    assert_eq!(ips, vec![0x1010, 0x2020]);
}

#[test]
fn trace_with_a_depth_bound_of_zero_emits_nothing() {
    let stack = deep_stack();
    let table = empty_table();
    let mut calls = 0;
    let emitted = trace(&stack, &table, Some(0), &mut |_frame: &Frame| {
        calls += 1;
        true
    });
    assert_eq!(emitted, 0);
    assert_eq!(calls, 0);
}

#[test]
fn trace_with_a_depth_bound_beyond_the_stack_walks_all_of_it() {
    let stack = deep_stack();
    let table = empty_table();
    let emitted = trace(&stack, &table, Some(100), &mut |_frame: &Frame| true);
    assert_eq!(emitted, 5);
}

#[test]
fn trace_of_an_empty_stack_emits_nothing() {
    let stack: Vec<RegisterContext> = Vec::new();
    let table = empty_table();
    let mut calls = 0;
    let emitted = trace(&stack, &table, None, &mut |_frame: &Frame| {
        calls += 1;
        true
    });
    assert_eq!(emitted, 0);
    assert_eq!(calls, 0);
}

#[test]
fn trace_ends_before_a_context_without_return_address() {
    let mut stack = deep_stack();
    stack[2].return_address = None;
    let table = empty_table();
    let mut ips: Vec<usize> = Vec::new();
    let emitted = trace(&stack, &table, None, &mut |frame: &Frame| {
        ips.push(frame.ip());
        true
    });
    assert_eq!(emitted, 2);
    assert_eq!(ips, vec![0x1010, 0x2020]);
}

#[test]
fn trace_ends_before_a_context_without_stack_pointer() {
    let mut stack = deep_stack();
    stack[0].stack_pointer = None;
    let table = empty_table();
    let mut calls = 0;
    let emitted = trace(&stack, &table, None, &mut |_frame: &Frame| {
        calls += 1;
        true
    });
    assert_eq!(emitted, 0);
    assert_eq!(calls, 0);
}

#[test]
fn capture_reads_the_registers() {
    let table = empty_table();
    let frame = Frame::capture(&context(0x1010, 0x7000, 0x1000), &table).unwrap();
    assert_eq!(frame.ip(), 0x1010);
    assert_eq!(frame.sp(), 0x7000);
    assert_eq!(frame.symbol_address(), 0x1000);
    assert_eq!(frame.module_base_address(), None);
}

#[test]
fn capture_gives_no_frame_where_a_register_is_missing() {
    let table = empty_table();
    let no_ip = RegisterContext { return_address: None, stack_pointer: Some(1), initial_address: 2 };
    let no_sp = RegisterContext { return_address: Some(1), stack_pointer: None, initial_address: 2 };
    assert!(Frame::capture(&no_ip, &table).is_none());
    assert!(Frame::capture(&no_sp, &table).is_none());
}

#[test]
fn a_frame_holds_a_handle_of_its_own_to_the_table() {
    let table = Arc::new(SymbolTable {
        entries: vec![SymbolEntry { name: b"main".to_vec(), start: 0x1000, size: 0x100, text: true }],
    });
    assert_eq!(Arc::strong_count(&table), 1);
    let frame = Frame::capture(&context(0x1010, 0x7000, 0x1000), &table).unwrap();
    assert_eq!(Arc::strong_count(&table), 2);
    assert!(Arc::ptr_eq(frame.namespace(), &table));
    let copy = frame.clone();
    assert_eq!(Arc::strong_count(&table), 3);
    assert_eq!(copy.ip(), frame.ip());
    assert_eq!(copy.sp(), frame.sp());
    assert_eq!(copy.symbol_address(), frame.symbol_address());
    assert!(Arc::ptr_eq(copy.namespace(), &table));
    drop(frame);
    drop(copy);
    assert_eq!(Arc::strong_count(&table), 1);
}

#[test]
fn frames_of_a_walk_outlive_the_callers_handle() {
    let stack = deep_stack();
    let table = Arc::new(SymbolTable {
        entries: vec![SymbolEntry { name: b"main".to_vec(), start: 0x1000, size: 0x100, text: true }],
    });
    let mut kept: Vec<Frame> = Vec::new();
    trace(&stack, &table, Some(2), &mut |frame: &Frame| {
        kept.push(frame.clone());
        true
    });
    drop(table);
    assert_eq!(kept.len(), 2);
    assert_eq!(kept[0].namespace().entries.len(), 1);
    assert_eq!(kept[1].namespace().entries[0].name, b"main".to_vec());
}
