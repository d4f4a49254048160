use std::cell::Cell;

use embedded_threadsafe::access::{
    check_interrupt, check_interrupt_singleton, check_local, check_local_singleton, check_table,
    Denial, Inspection,
};
use embedded_threadsafe::interrupt::{InterruptCell, InterruptSingleton};
use embedded_threadsafe::lazy::LazyCell;
use embedded_threadsafe::local::{LocalCell, LocalSingleton, LocalTable};
use embedded_threadsafe::runtime::{Runtime, SimRuntime};
use embedded_threadsafe::shared::{SharedCell, SharedSingleton};

#[derive(Clone, Copy, Debug, PartialEq, Eq)]
struct Pair {
    a: u32,
    b: u32,
}

fn add_one(v: u32) -> (u32, ()) {
    (v + 1, ())
}

fn read(v: u32) -> (u32, u32) {
    (v, v)
}

#[test]
fn lazy_initializer_runs_once_and_value_persists() {
    let calls = Cell::new(0u32);
    let mut lazy = LazyCell::new(|| {
        calls.set(calls.get() + 1);
        vec![7u32]
    });
    assert_eq!(calls.get(), 0);
    let first = lazy.scope(|mut v: Vec<u32>| {
        v.push(8);
        let len = v.len();
        (v, len)
    });
    assert_eq!(first, 2);
    for _ in 0..5 {
        let seen = lazy.scope_mut(|v: Vec<u32>| {
            let copy = v.clone();
            (v, copy)
        });
        assert_eq!(seen, vec![7, 8]);
    }
    assert_eq!(calls.get(), 1);
}

#[test]
fn initializer_counter_fixed_after_many_accesses() {
    let calls = Cell::new(0u32);
    let mut rt = SimRuntime::new(0);
    let mut single = SharedSingleton::new(|| {
        calls.set(calls.get() + 1);
        0u32
    });
    single.scope(&mut rt, add_one);
    assert_eq!(calls.get(), 1);
    for _ in 0..1000 {
        single.scope(&mut rt, add_one);
    }
    assert_eq!(calls.get(), 1);
    assert_eq!(single.scope(&mut rt, read), 1001);
}

#[test]
fn shared_counter_two_contexts_interleaved() {
    let mut rt = SimRuntime::new(0);
    let mut counter = SharedCell::new(0u32);
    let mut done_a = 0;
    let mut done_b = 0;
    let mut step: u32 = 0;
    while done_a < 100 || done_b < 100 {
        // forced preemption points: switch context every few increments
        let pick_a = (step / 3) % 2 == 0;
        if (pick_a && done_a < 100) || done_b >= 100 {
            rt.switch_to(0, false);
            counter.scope(&mut rt, add_one);
            done_a += 1;
        } else {
            rt.switch_to(1, step % 5 == 0);
            counter.scope(&mut rt, add_one);
            done_b += 1;
        }
        step += 1;
    }
    assert_eq!(counter.scope(&mut rt, read), 200);
    assert!(!rt.critical);
}

#[test]
fn shared_counter_stress_no_lost_updates() {
    let mut rt = SimRuntime::new(0);
    let mut counter = SharedSingleton::new(|| 0u32);
    let mut seed: u32 = 12345;
    for _ in 0..10_000 {
        seed = seed.wrapping_mul(1_103_515_245).wrapping_add(12_345);
        rt.switch_to((seed >> 16) as usize % 2, (seed >> 20) % 3 == 0);
        counter.scope(&mut rt, add_one);
        assert!(!rt.critical);
    }
    assert_eq!(counter.scope(&mut rt, read), 10_000);
}

#[test]
fn shared_scope_restores_interrupt_mask() {
    let mut rt = SimRuntime::new(0);
    let mut cell = SharedCell::new(5u32);
    cell.scope(&mut rt, add_one);
    assert!(!rt.masked);
    assert!(!rt.critical);
    rt.masked = true;
    cell.scope(&mut rt, add_one);
    assert!(rt.masked);
    assert_eq!(cell.scope(&mut rt, read), 7);
}

#[test]
fn interrupt_scope_inside_shared_access_keeps_interrupts_masked() {
    let mut rt = SimRuntime::new(1);
    let mut cell = InterruptCell::new_with_threadid(0u32, 1);
    let restore = rt.acquire_critical();
    assert!(rt.masked);
    cell.scope(&mut rt, add_one);
    assert!(rt.masked);
    assert!(rt.critical);
    rt.release_critical(restore);
    assert!(!rt.masked);
    assert!(!rt.critical);
    assert_eq!(cell.scope(&mut rt, read), 1);
}

#[test]
fn shared_scope_restores_enclosing_critical_section() {
    let mut rt = SimRuntime::new(0);
    rt.critical = true;
    let mut cell = SharedCell::new(5u32);
    assert_eq!(cell.scope(&mut rt, read), 5);
    assert!(rt.critical);
}

#[test]
fn local_cell_refuses_other_context() {
    let mut cell = LocalCell::new_with_threadid(11u32, 3);
    let rt = SimRuntime::new(5);
    match cell.inspect(&rt, read) {
        Inspection::Opaque(d) => assert_eq!(d, Denial::OtherContext),
        Inspection::Value(_) => panic!("access from context 5 must be refused"),
    }
    assert_eq!(check_local(3, 5, false), Some(Denial::OtherContext));
    assert_eq!(check_local(3, 5, true), Some(Denial::OtherContext));
    let mut single: LocalSingleton<u32, 3> = LocalSingleton::new(|| 4u32);
    match single.inspect(&rt, read) {
        Inspection::Opaque(d) => {
            assert_eq!(d, Denial::OtherThreadContext);
            assert_eq!(d.placeholder(), "<opaque due to different thread context>");
        }
        Inspection::Value(_) => panic!("access from context 5 must be refused"),
    }
}

#[test]
fn local_cell_refuses_interrupt_context() {
    let mut cell = LocalCell::new_with_threadid(11u32, 3);
    let mut rt = SimRuntime::new(3);
    rt.switch_to(3, true);
    match cell.inspect(&rt, read) {
        Inspection::Opaque(d) => {
            assert_eq!(d, Denial::InterruptContext);
            assert_eq!(d.placeholder(), "<opaque due to interrupt context>");
        }
        Inspection::Value(_) => panic!("access from an interrupt handler must be refused"),
    }
    assert_eq!(check_local(3, 3, true), Some(Denial::InterruptContext));
}

#[test]
fn local_cell_bound_context_accesses() {
    let rt = SimRuntime::new(3);
    let mut cell = LocalCell::new(10u32, &rt);
    assert_eq!(cell.thread_id(), 3);
    cell.scope(&rt, add_one);
    assert_eq!(cell.scope(&rt, read), 11);
    assert_eq!(check_local(3, 3, false), None);
    let mut single: LocalSingleton<u32, 3> = LocalSingleton::new(|| 40u32);
    assert_eq!(single.thread_id(), 3);
    single.scope(&rt, add_one);
    match single.inspect(&rt, read) {
        Inspection::Value(v) => assert_eq!(v, 41),
        Inspection::Opaque(_) => panic!("bound context must be admitted"),
    }
}

#[test]
fn interrupt_cell_admits_own_handler() {
    let mut rt = SimRuntime::new(2);
    rt.switch_to(2, true);
    let mut cell = InterruptCell::new_with_threadid(1u32, 2);
    cell.scope(&mut rt, add_one);
    assert_eq!(cell.scope(&mut rt, read), 2);
    assert!(!rt.masked);
    assert_eq!(check_interrupt(2, 2), None);
    let mut single: InterruptSingleton<u32, 2> = InterruptSingleton::new(|| 9u32);
    match single.inspect(&mut rt, read) {
        Inspection::Value(v) => assert_eq!(v, 9),
        Inspection::Opaque(_) => panic!("handler of the bound context must be admitted"),
    }
}

#[test]
fn interrupt_cell_refuses_other_context_in_any_state() {
    let mut cell = InterruptCell::new_with_threadid(1u32, 2);
    let mut single: InterruptSingleton<u32, 2> = InterruptSingleton::new(|| 9u32);
    for irq in [false, true] {
        let mut rt = SimRuntime::new(7);
        rt.switch_to(7, irq);
        match cell.inspect(&mut rt, read) {
            Inspection::Opaque(d) => {
                assert_eq!(d, Denial::OtherContext);
                assert_eq!(d.placeholder(), "<opaque due to different thread>");
            }
            Inspection::Value(_) => panic!("context 7 must be refused"),
        }
        match single.inspect(&mut rt, read) {
            Inspection::Opaque(d) => {
                assert_eq!(d, Denial::OtherThreadContext);
                assert_eq!(d.placeholder(), "<opaque due to different thread context>");
            }
            Inspection::Value(_) => panic!("context 7 must be refused"),
        }
        assert_eq!(check_interrupt(2, 7), Some(Denial::OtherContext));
    }
}

#[test]
fn interrupt_scope_restores_mask_state() {
    let mut rt = SimRuntime::new(1);
    let mut cell = InterruptCell::new(0u32, &rt);
    assert_eq!(cell.thread_id(), 1);
    cell.scope(&mut rt, add_one);
    assert!(!rt.masked);
    rt.masked = true;
    cell.scope(&mut rt, add_one);
    assert!(rt.masked);
    assert_eq!(cell.scope(&mut rt, read), 2);
}

#[test]
fn interrupt_cell_lazy_scope_initializes_once() {
    let calls = Cell::new(0u32);
    let mut rt = SimRuntime::new(4);
    let mut cell = InterruptCell::new_with_threadid(
        LazyCell::new(|| {
            calls.set(calls.get() + 1);
            100u32
        }),
        4,
    );
    cell.lazy_scope(&mut rt, add_one);
    cell.lazy_scope(&mut rt, add_one);
    assert_eq!(cell.lazy_scope(&mut rt, read), 102);
    assert_eq!(calls.get(), 1);
}

#[test]
fn shared_record_round_trip() {
    let mut rt = SimRuntime::new(0);
    let mut cell = SharedCell::new(Pair { a: 0, b: 0 });
    cell.scope(&mut rt, |_old: Pair| (Pair { a: 1, b: 2 }, ()));
    rt.switch_to(1, true);
    let back = cell.scope(&mut rt, |p: Pair| (p, p));
    assert_eq!(back, Pair { a: 1, b: 2 });
    let mut single = SharedSingleton::new(|| Pair { a: 0, b: 0 });
    rt.switch_to(0, false);
    single.scope(&mut rt, |_old: Pair| (Pair { a: 1, b: 2 }, ()));
    rt.switch_to(1, false);
    assert_eq!(single.scope(&mut rt, |p: Pair| (p, p)), Pair { a: 1, b: 2 });
}

#[test]
fn raw_access_under_held_exclusivity() {
    let mut rt = SimRuntime::new(0);
    rt.critical = true;
    let mut cell = SharedCell::new(3u32);
    cell.raw(&rt, add_one);
    assert_eq!(cell.raw(&rt, read), 4);
    let mut local = LocalCell::new_with_threadid(1u32, 0);
    local.raw(add_one);
    assert_eq!(local.raw(read), 2);
}

#[test]
fn local_table_keeps_one_value_per_context() {
    let calls = Cell::new(0u32);
    let mut table = LocalTable::new(
        || {
            calls.set(calls.get() + 1);
            10u32
        },
        2,
    );
    assert_eq!(table.max_contexts(), 2);
    let mut rt = SimRuntime::new(0);
    table.scope(&rt, add_one);
    table.scope(&rt, add_one);
    rt.switch_to(1, false);
    table.scope(&rt, add_one);
    assert_eq!(table.scope(&rt, read), 11);
    rt.switch_to(0, false);
    assert_eq!(table.scope(&rt, read), 12);
    assert_eq!(calls.get(), 2);
}

#[test]
fn local_table_bounds_checks_the_identifier() {
    let mut table = LocalTable::new(|| 0u32, 2);
    let mut rt = SimRuntime::new(2);
    match table.inspect(&rt, read) {
        Inspection::Opaque(d) => {
            assert_eq!(d, Denial::UnknownContext);
            assert_eq!(d.placeholder(), "<opaque due to unknown context>");
        }
        Inspection::Value(_) => panic!("context 2 has no slot"),
    }
    rt.switch_to(1, true);
    match table.inspect(&rt, read) {
        Inspection::Opaque(d) => assert_eq!(d, Denial::InterruptContext),
        Inspection::Value(_) => panic!("interrupt handlers must be refused"),
    }
    rt.switch_to(1, false);
    match table.inspect(&rt, read) {
        Inspection::Value(v) => assert_eq!(v, 0),
        Inspection::Opaque(_) => panic!("context 1 has a slot"),
    }
    assert_eq!(check_table(2, 2, false), Some(Denial::UnknownContext));
    assert_eq!(check_table(2, 1, true), Some(Denial::InterruptContext));
    assert_eq!(check_table(2, 1, false), None);
}

#[test]
fn local_table_with_no_contexts_refuses_all() {
    let mut table = LocalTable::new(|| 0u32, 0);
    let rt = SimRuntime::new(0);
    assert_eq!(table.max_contexts(), 0);
    match table.inspect(&rt, read) {
        Inspection::Opaque(d) => assert_eq!(d, Denial::UnknownContext),
        Inspection::Value(_) => panic!("an empty table has no slot"),
    }
}

#[test]
fn singleton_checks_name_the_thread_context() {
    assert_eq!(check_local_singleton(3, 5, false), Some(Denial::OtherThreadContext));
    assert_eq!(check_local_singleton(3, 3, true), Some(Denial::InterruptContext));
    assert_eq!(check_local_singleton(3, 3, false), None);
    assert_eq!(check_interrupt_singleton(2, 7), Some(Denial::OtherThreadContext));
    assert_eq!(check_interrupt_singleton(2, 2), None);
    assert_eq!(Denial::OtherContext.placeholder(), "<opaque due to different thread>");
}
