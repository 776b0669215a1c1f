use breach::message::ClientId;
use breach::util::{ViewKind, ViewRegistrationGuard};
use breach::ViewId;

#[test]
fn view_id_shows_the_text_it_was_made_from() {
    let id = ViewId::new("6f1c2a9e-request");
    assert_eq!(id.as_str(), "6f1c2a9e-request");
    assert_eq!(id.to_string(), "6f1c2a9e-request");
}

#[test]
fn view_id_of_empty_text() {
    let id = ViewId::new("");
    assert_eq!(id.as_str(), "");
    assert_eq!(id.to_string(), String::new());
}

#[test]
fn view_id_clone_keeps_the_text() {
    let id = ViewId::new("abc");
    let copy = id.clone();
    assert_eq!(copy.as_str(), "abc");
    assert_eq!(id.as_str(), "abc");
}

#[test]
fn util_view_id_keeps_its_text() {
    let id = breach::util::ViewId::new("view-7");
    assert_eq!(format!("{:?}", id), "ViewId { uuid: \"view-7\" }");
    let copy = id.clone();
    assert_eq!(format!("{:?}", copy), "ViewId { uuid: \"view-7\" }");
}

#[test]
fn guard_keeps_kind_and_a_copy_of_the_view_id() {
    let id = breach::util::ViewId::new("view-7");
    let guard = ViewRegistrationGuard::new(ViewKind::Prompt, &id);
    assert_eq!(
        format!("{:?}", guard),
        "ViewRegistrationGuard { kind: Prompt, view_id: ViewId { uuid: \"view-7\" } }"
    );
    let guard = ViewRegistrationGuard::new(ViewKind::History, &id);
    assert!(format!("{:?}", guard).contains("kind: History"));
}

#[test]
fn client_id_shows_the_text_it_was_made_from() {
    let id = ClientId::from("player-1");
    assert_eq!(id.as_str(), "player-1");
    assert_eq!(id.to_string(), "player-1");
    assert_eq!(id.clone(), ClientId::from("player-1"));
    assert_ne!(id, ClientId::from("player-2"));
}

#[test]
fn view_id_as_ref_gives_the_text() {
    let id = ViewId::new("req-9");
    let text: &str = id.as_ref();
    assert_eq!(text, "req-9");
}
