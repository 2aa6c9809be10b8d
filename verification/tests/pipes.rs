use cubby_connect_server::fn_pipe::{fn_pipe, fn_pipe_factory};
use cubby_connect_server::pipe::{connect, Pipe, PipeFactory};

fn plus_one(i: u64) -> Result<u64, ()> {
    Ok(i + 1)
}

fn check_2(s: u64) -> Result<(), ()> {
    assert_eq!(s.to_string(), "2");
    Ok(())
}

fn check_6(s: u64) -> Result<(), ()> {
    assert_eq!(s.to_string(), "6");
    Ok(())
}

fn check_7(s: u64) -> Result<(), ()> {
    assert_eq!(s.to_string(), "7");
    Ok(())
}

fn check_8(s: u64) -> Result<(), ()> {
    assert_eq!(s.to_string(), "8");
    Ok(())
}

#[test]
fn pipe_plus_one_test() {
    let pipe = fn_pipe_factory(plus_one).new_pipe(fn_pipe(check_2)).unwrap();
    pipe.call(1).unwrap();
}

#[test]
fn pipe_plus_multi_times_test() {
    let pipe = fn_pipe_factory(plus_one)
        .new_pipe(
            fn_pipe_factory(plus_one)
                .new_pipe(fn_pipe_factory(plus_one).new_pipe(fn_pipe(check_8)).unwrap())
                .unwrap(),
        )
        .unwrap();
    pipe.call(5).unwrap();
}

#[test]
fn pipe_connect_plus_one_test() {
    let check_1 = |s: u64| -> Result<(), ()> {
        assert_eq!(s.to_string(), "1");
        Ok(())
    };
    let pipe = connect(plus_one, check_1).unwrap();
    pipe.call(0).unwrap();
}

#[test]
fn pipe_connect_plus_multi_times_test() {
    let pipe = connect(
        fn_pipe_factory(plus_one),
        connect(
            fn_pipe_factory(plus_one),
            connect(fn_pipe_factory(plus_one), fn_pipe(check_7)).unwrap(),
        )
        .unwrap(),
    )
    .unwrap();
    pipe.call(4).unwrap();
}

#[test]
fn pipe_macro_test() {
    let pipe = connect(
        fn_pipe_factory(plus_one),
        connect(
            fn_pipe_factory(plus_one),
            connect(fn_pipe_factory(plus_one), fn_pipe(check_6)).unwrap(),
        )
        .unwrap(),
    )
    .unwrap();
    pipe.call(3).unwrap();
}
