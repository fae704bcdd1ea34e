use rusido::error::SocketError;
use rusido::websocket::router::{Router, UNKNOWN_COMMAND};

#[test]
fn registered_command_resolves() {
    let mut router: Router<&str> = Router::new();
    router.add_route(1001, "user info").add_route(1002, "order");
    assert_eq!(*router.handler_for(1001).unwrap(), "user info");
    assert_eq!(*router.handler_for(1002).unwrap(), "order");
}

#[test]
fn unknown_command_is_error_code_one() {
    let router: Router<&str> = Router::new();
    match router.handler_for(5) {
        Err(SocketError::ErrorCode(c)) => {
            assert_eq!(c, 1);
            assert_eq!(c, UNKNOWN_COMMAND);
        }
        _ => panic!("expected an error code"),
    }
}

#[test]
fn later_route_replaces_earlier() {
    let mut router: Router<u8> = Router::new();
    router.add_route(7, 1);
    router.add_route(7, 2);
    router.add_route(8, 3);
    assert_eq!(*router.handler_for(7).unwrap(), 2);
    assert_eq!(*router.handler_for(8).unwrap(), 3);
}
