use ws_bridge::role::{same_text, Handle, Role, RECEIVER_PATH, SENDER_PATH};
use ws_bridge::router::Router;

fn handle(conn: u64) -> Handle {
    Handle { conn }
}

#[test]
fn root_path_selects_receiver() {
    assert_eq!(Role::assign("/", handle(1)), Role::Receiver);
    assert_eq!(Role::assign(RECEIVER_PATH, handle(1)), Role::Receiver);
}

#[test]
fn sender_path_selects_sender_with_own_handle() {
    assert_eq!(Role::assign("/sender", handle(7)), Role::Sender { out: handle(7) });
    assert_eq!(Role::assign(SENDER_PATH, handle(8)), Role::Sender { out: handle(8) });
}

#[test]
fn other_paths_select_not_found() {
    assert_eq!(Role::assign("/unused", handle(1)), Role::NotFound);
    assert_eq!(Role::assign("", handle(1)), Role::NotFound);
    assert_eq!(Role::assign("/sender/", handle(1)), Role::NotFound);
    assert_eq!(Role::assign("/Sender", handle(1)), Role::NotFound);
    assert_eq!(Role::assign("//", handle(1)), Role::NotFound);
    assert_eq!(Role::assign("sender", handle(1)), Role::NotFound);
    assert_eq!(Role::assign("/?x=1", handle(1)), Role::NotFound);
    assert_eq!(Role::assign("/sender?x=1", handle(1)), Role::NotFound);
    assert_eq!(Role::assign(" /", handle(1)), Role::NotFound);
    assert_eq!(Role::assign("/\u{0}", handle(1)), Role::NotFound);
    assert_eq!(Role::assign("/s\u{e9}nder", handle(1)), Role::NotFound);
}

#[test]
fn same_text_compares_characters() {
    assert!(same_text("", ""));
    assert!(same_text("/sender", "/sender"));
    assert!(!same_text("/sender", "/sende"));
    assert!(!same_text("/", ""));
    assert!(!same_text("a", "b"));
}

#[test]
fn new_router_starts_as_receiver() {
    let router = Router::new(handle(3));
    assert_eq!(router.sender(), handle(3));
    assert_eq!(router.role(), Role::Receiver);
}

#[test]
fn role_names() {
    assert_eq!(Role::Receiver.name(), Some("PLCReceiver"));
    assert_eq!(Role::Sender { out: handle(1) }.name(), Some("Bluetooth sender"));
    assert_eq!(Role::NotFound.name(), None);
}
