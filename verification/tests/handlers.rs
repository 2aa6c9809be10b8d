use cubby_connect_server::fn_handler::fn_handler;
use cubby_connect_server::handler::Handler;

fn hello(name: &str) -> Result<(), ()> {
    if name == "None" {
        Err(())
    } else {
        println!("Hello, {}", name);
        Ok(())
    }
}

#[test]
fn fn_handler_test() {
    fn_handler(hello).call("World").unwrap();
    assert!(fn_handler(hello).call("None").is_err());
}

#[test]
fn handler_test() {
    let expected = String::from("hello");
    let check = move |msg: &str| -> Result<(), ()> {
        assert_eq!(msg.to_string(), expected);
        Ok(())
    };
    let handler = fn_handler(check);
    handler.call("hello").unwrap();
}
