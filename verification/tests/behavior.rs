use std::cell::Cell;

use cubby_connect_server::chain::{apply, link, To};
use cubby_connect_server::fn_handler::fn_handler;
use cubby_connect_server::fn_layer::fn_layer;
use cubby_connect_server::handler::Handler;
use cubby_connect_server::layer::{connect, Layer};

// A failing stage returns its own error verbatim and the stages after it
// never run.
#[test]
fn short_circuit_skips_downstream() {
    let downstream_ran = Cell::new(false);
    let failing = |_i: u64| -> Result<u64, u64> { Err(3) };
    let downstream = |_i: u64| -> Result<(), u64> {
        downstream_ran.set(true);
        Err(9)
    };
    let handler = connect(fn_layer(failing), fn_handler(downstream)).unwrap();
    assert_eq!(handler.call(42), Err(3));
    assert!(!downstream_ran.get());
}

// A failure in the middle of a longer chain carries the failing stage's
// error past the outer stages, and the stages after it never run.
#[test]
fn short_circuit_middle_stage() {
    let tail_ran = Cell::new(false);
    let plus_one = |i: u64| -> Result<u64, u64> { Ok(i + 1) };
    let reject_odd = |i: u64| -> Result<u64, u64> {
        if i % 2 == 0 {
            Ok(i)
        } else {
            Err(i)
        }
    };
    let tail = |_i: u64| -> Result<(), u64> {
        tail_ran.set(true);
        Ok(())
    };
    let handler = apply(link(
        fn_layer(plus_one),
        link(fn_layer(reject_odd), To(fn_handler(tail))),
    ))
    .unwrap();
    // 6 -> 7, odd: the middle stage fails with exactly 7.
    assert_eq!(handler.call(6), Err(7));
    assert!(!tail_ran.get());
    // 5 -> 6, even: the chain runs to the end.
    assert_eq!(handler.call(5), Ok(()));
    assert!(tail_ran.get());
}

// One layer builds two independent chains: each built handler forwards to
// its own terminal only, and using one never disturbs the other.
#[test]
fn layer_reuse_independent_chains() {
    let first_count = Cell::new(0u32);
    let second_count = Cell::new(0u32);
    let plus_one = |i: u64| -> Result<u64, u64> { Ok(i + 1) };
    let layer = fn_layer(plus_one);

    let first_terminal = |i: u64| -> Result<(), u64> {
        first_count.set(first_count.get() + 1);
        if i == 5 {
            Ok(())
        } else {
            Err(i)
        }
    };
    let second_terminal = |i: u64| -> Result<(), u64> {
        second_count.set(second_count.get() + 1);
        if i == 9 {
            Ok(())
        } else {
            Err(i)
        }
    };

    let first = layer.new_handler(fn_handler(first_terminal)).unwrap();
    let second = layer.new_handler(fn_handler(second_terminal)).unwrap();

    assert_eq!(first.call(4), Ok(()));
    assert_eq!(second.call(8), Ok(()));
    assert_eq!(first.call(7), Err(8));
    assert_eq!(first_count.get(), 2);
    assert_eq!(second_count.get(), 1);
}

// Interleaved calls on one built handler with distinct inputs behave as if
// each message went through the whole chain on its own.
#[test]
fn interleaved_calls_do_not_interfere() {
    let plus_one = |i: u64| -> Result<u64, u64> { Ok(i + 1) };
    let equals_five = |i: u64| -> Result<(), u64> {
        if i == 5 {
            Ok(())
        } else {
            Err(i)
        }
    };
    let handler = connect(fn_layer(plus_one), fn_handler(equals_five)).unwrap();
    assert_eq!(handler.call(4), Ok(()));
    assert_eq!(handler.call(7), Err(8));
    assert_eq!(handler.call(4), Ok(()));
    assert_eq!(handler.call(0), Err(1));
    assert_eq!(handler.call(4), Ok(()));
}

// The transform really runs on every message: a chain of three increments
// delivers initial + 3 to the terminal, and only that value satisfies it.
#[test]
fn three_increments_deliver_initial_plus_three() {
    let plus_one = |i: u64| -> Result<u64, u64> { Ok(i + 1) };
    let received = Cell::new(0u64);
    let record = |i: u64| -> Result<(), u64> {
        received.set(i);
        Ok(())
    };
    let handler = apply(link(
        fn_layer(plus_one),
        link(
            fn_layer(plus_one),
            link(fn_layer(plus_one), To(fn_handler(record))),
        ),
    ))
    .unwrap();
    assert_eq!(handler.call(2), Ok(()));
    assert_eq!(received.get(), 5);
}
