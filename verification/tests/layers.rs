use cubby_connect_server::chain::{apply, link, To};
use cubby_connect_server::fn_handler::fn_handler;
use cubby_connect_server::fn_layer::fn_layer;
use cubby_connect_server::handler::Handler;
use cubby_connect_server::layer::{connect, Layer};

fn plus_one(i: u64) -> Result<u64, ()> {
    Ok(i + 1)
}

fn check_2(s: u64) -> Result<(), ()> {
    assert_eq!(s.to_string(), "2");
    Ok(())
}

fn check_5(s: u64) -> Result<(), ()> {
    assert_eq!(s.to_string(), "5");
    Ok(())
}

fn check_6(s: u64) -> Result<(), ()> {
    assert_eq!(s.to_string(), "6");
    Ok(())
}

fn check_7(s: u64) -> Result<(), ()> {
    assert_eq!(s.to_string(), "7");
    Ok(())
}

fn check_8(s: u64) -> Result<(), ()> {
    assert_eq!(s.to_string(), "8");
    Ok(())
}

fn check_15(s: u64) -> Result<(), ()> {
    assert_eq!(s.to_string(), "15");
    Ok(())
}

#[test]
fn layer_plus_one_test() {
    let handler = fn_layer(plus_one).new_handler(fn_handler(check_2)).unwrap();
    handler.call(1).unwrap();
}

#[test]
fn layer_plus_multi_times_test() {
    let handler = fn_layer(plus_one)
        .new_handler(
            fn_layer(plus_one)
                .new_handler(fn_layer(plus_one).new_handler(fn_handler(check_8)).unwrap())
                .unwrap(),
        )
        .unwrap();
    handler.call(5).unwrap();
}

#[test]
fn layer_connect_plus_one_test() {
    let check_1 = |s: u64| -> Result<(), ()> {
        assert_eq!(s.to_string(), "1");
        Ok(())
    };
    let handler = connect(fn_layer(plus_one), fn_handler(check_1)).unwrap();
    handler.call(0).unwrap();
}

#[test]
fn layer_connect_plus_multi_times_test() {
    let handler = connect(
        fn_layer(plus_one),
        connect(
            fn_layer(plus_one),
            connect(fn_layer(plus_one), fn_handler(check_7)).unwrap(),
        )
        .unwrap(),
    )
    .unwrap();
    handler.call(4).unwrap();
}

#[test]
fn layer_handler_macro_test() {
    let handler = apply(link(
        fn_layer(plus_one),
        link(
            fn_layer(plus_one),
            link(fn_layer(plus_one), To(fn_handler(check_6))),
        ),
    ))
    .unwrap();
    handler.call(3).unwrap();
}

#[test]
fn fn_layer_plus_one_test() {
    let handler = connect(plus_one, check_2).unwrap();
    handler.call(1).unwrap();
}

#[test]
fn fn_layer_plus_multi_times_test() {
    let handler = connect(
        plus_one,
        connect(plus_one, connect(plus_one, check_5).unwrap()).unwrap(),
    )
    .unwrap();
    handler.call(2).unwrap();
}

#[test]
fn plus_a_lot_of_times_test() {
    let handler = apply(link(
        fn_layer(plus_one),
        link(
            fn_layer(plus_one),
            link(
                fn_layer(plus_one),
                link(
                    fn_layer(plus_one),
                    link(
                        fn_layer(plus_one),
                        link(
                            fn_layer(plus_one),
                            link(
                                fn_layer(plus_one),
                                link(
                                    fn_layer(plus_one),
                                    link(
                                        fn_layer(plus_one),
                                        link(
                                            fn_layer(plus_one),
                                            link(
                                                fn_layer(plus_one),
                                                link(
                                                    fn_layer(plus_one),
                                                    link(
                                                        fn_layer(plus_one),
                                                        To(fn_handler(check_15)),
                                                    ),
                                                ),
                                            ),
                                        ),
                                    ),
                                ),
                            ),
                        ),
                    ),
                ),
            ),
        ),
    ))
    .unwrap();
    handler.call(2).unwrap();
}

#[test]
fn fn_layer_test_plus_one_test() {
    let handler = apply(link(fn_layer(plus_one), To(fn_handler(check_2)))).unwrap();
    handler.call(1).unwrap();
}

#[test]
fn fn_layer_test_plus_multi_times_test() {
    let handler = apply(link(
        fn_layer(plus_one),
        link(
            fn_layer(plus_one),
            link(fn_layer(plus_one), To(fn_handler(check_5))),
        ),
    ))
    .unwrap();
    handler.call(2).unwrap();
}

#[test]
fn layer_test_handler_macro_test() {
    let handler = apply(link(
        fn_layer(plus_one),
        link(
            fn_layer(plus_one),
            link(fn_layer(plus_one), To(fn_handler(check_6))),
        ),
    ))
    .unwrap();
    handler.call(3).unwrap();
}
