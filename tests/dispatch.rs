use hyprland_ipc::dispatch::{
    check_response, clients_request, dispatch_request, event_socket_path, moveoutofgroup_request,
    pin_request, toggle_floating_request,
};
use hyprland_ipc::params::Window;
use hyprland_ipc::{Dispatcher, Error};

#[test]
fn ok_response_is_success() {
    assert_eq!(check_response("ok".to_string()).unwrap(), "ok");
}

#[test]
fn other_responses_carry_their_text() {
    for body in ["", "err", "ok\n", "OK", "{\"a\": 1}"] {
        match check_response(body.to_string()) {
            Err(Error::NotOkResponse(text)) => assert_eq!(text, body),
            other => panic!("unexpected {:?}", other),
        }
    }
}

#[test]
fn socket_paths_from_signature() {
    let d = Dispatcher::from_instance_signature(Some("abc_123")).unwrap();
    assert_eq!(d.socket_path(), "/tmp/hypr/abc_123/.socket.sock");
    assert_eq!(event_socket_path("abc_123"), "/tmp/hypr/abc_123/.socket2.sock");
    assert!(matches!(
        Dispatcher::from_instance_signature(None),
        Err(Error::NoInstanceSignature)
    ));
}

#[test]
fn window_selector_text() {
    assert_eq!(Window::ClassRegex("kitty".to_string()).to_text(), "kitty");
    assert_eq!(Window::TitleRegex("^vim".to_string()).to_text(), "title:^vim");
    assert_eq!(Window::Pid(1234).to_text(), "pid:1234");
    assert_eq!(Window::Pid(7).to_text(), "pid:7");
    assert_eq!(Window::Address("0x55".to_string()).to_text(), "address:0x55");
    assert_eq!(Window::Floating.to_text(), "floating");
    assert_eq!(Window::Tiled.to_text(), "tiled");
}

#[test]
fn dispatch_requests() {
    assert_eq!(toggle_floating_request(None), "/dispatch togglefloating");
    assert_eq!(
        toggle_floating_request(Some(&Window::Pid(42))),
        "/dispatch togglefloating pid:42"
    );
    assert_eq!(pin_request(Some(&Window::Floating)), "/dispatch pin floating");
    assert_eq!(pin_request(None), "/dispatch pin");
    assert_eq!(
        moveoutofgroup_request(Some(&Window::Address("0x1".to_string()))),
        "/dispatch moveoutofgroup address:0x1"
    );
    assert_eq!(dispatch_request("killactive", None), "/dispatch killactive");
    assert_eq!(clients_request(), "j/clients");
}
