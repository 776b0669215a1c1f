use breach::message::distributors::{game_server, welcome};
use breach::message::{Client, ClientId, Group, Message, Router, Welcome};
use breach::server::default_web_port;
use breach::web::ui::prompt::{update_commands, JsCommand, ViewMsg};
use breach::web::WebConfig;
use breach::welcome::greeting;

#[test]
fn route_announces_the_client_it_was_made_for() {
    let router = Router::new(ClientId::from("player-1"));
    assert_eq!(router.hello(), Welcome::Hello(ClientId::from("player-1")));
    assert_ne!(router.hello(), Welcome::Hello(ClientId::from("player-2")));
}

#[test]
fn clients_are_greeted_with_heyo() {
    assert_eq!(greeting(), Client::Welcome("Heyo!!".to_string()));
}

#[test]
fn messages_compare_by_their_contents() {
    assert_eq!(
        Message::Register(ClientId::from("a")),
        Message::Register(ClientId::from("a"))
    );
    assert_ne!(Message::Register(ClientId::from("a")), Message::RegistrationFailed);
}

#[test]
fn web_port_defaults_to_8080() {
    assert_eq!(default_web_port(), 8080);
    let config = WebConfig { listen_port: default_web_port() };
    assert_eq!(config.listen_port, 8080);
}

#[test]
fn submitting_the_prompt_clears_it() {
    assert_eq!(
        update_commands(ViewMsg::Submit),
        vec![JsCommand::ClearValue(".prompt".to_string())]
    );
}

#[test]
fn typing_in_the_prompt_asks_for_nothing() {
    assert!(update_commands(ViewMsg::UserInputChange).is_empty());
}

#[test]
fn service_groups_have_their_names() {
    assert_eq!(welcome().as_str(), "welcome_service");
    assert_eq!(game_server().as_str(), "game_server");
    assert_ne!(welcome(), game_server());
}

#[test]
fn a_client_group_is_named_after_the_client() {
    let id = ClientId::from("player-1");
    assert_eq!(id.distributor().as_str(), "player-1");
    assert_eq!(id.distributor(), Group::named("player-1"));
    assert_ne!(id.distributor(), ClientId::from("player-2").distributor());
}

#[test]
fn client_id_from_trait_keeps_the_text() {
    let id: ClientId = "player-3".into();
    assert_eq!(id.as_str(), "player-3");
    let id = <ClientId as From<&str>>::from("player-4");
    assert_eq!(id.to_string(), "player-4");
}
