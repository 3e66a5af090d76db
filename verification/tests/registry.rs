use nightraid::game::commands::Response;
use nightraid::ws::ClientMessage;
use nightraid::ws::GameServer;
use nightraid::ws::GameSession;

const BANNER: &str = "Welcome to nightRAID.\n\nPlease register using the \"register\" command.\nIf you are already registered, use the \"login\" command.\nIf you lost your access token, contact m1nt_.\n\n";

fn envelope(username: &str, command: &str) -> Option<ClientMessage> {
    Some(ClientMessage { username: username.to_string(), command: command.to_string() })
}

fn open_session() -> GameSession {
    GameServer::new().on_connect("203.0.113.7:40000").unwrap().0
}

#[test]
fn connect_makes_a_fresh_session_and_greets_it() {
    let mut server = GameServer::new();
    assert_eq!(server.open_count(), 0);
    let (session, banner) = server.on_connect("203.0.113.7:40000").unwrap();
    assert_eq!(*session.id(), 0);
    assert_eq!(session.address(), "203.0.113.7:40000");
    assert!(session.user().is_none());
    assert!(!session.is_authenticated());
    assert!(!session.is_closing());
    assert_eq!(banner, Response::Text(BANNER.to_string()));
    assert!(server.is_open(0));
    assert_eq!(server.open_count(), 1);
}

#[test]
fn sessions_from_one_address_get_different_ids() {
    let mut server = GameServer::new();
    let (a, _) = server.on_connect("203.0.113.7:40000").unwrap();
    let (b, _) = server.on_connect("203.0.113.7:40000").unwrap();
    let (c, _) = server.on_connect("203.0.113.7:40000").unwrap();
    assert_eq!((*a.id(), *b.id(), *c.id()), (0, 1, 2));
    assert_eq!(server.open_count(), 3);
    assert!(server.is_open(0) && server.is_open(1) && server.is_open(2));
    assert!(!server.is_open(3));
}

#[test]
fn disconnect_removes_only_that_session() {
    let mut server = GameServer::new();
    for _ in 0..5 {
        server.on_connect("a").unwrap();
    }
    server.on_disconnect(2);
    assert!(!server.is_open(2));
    for id in [0, 1, 3, 4] {
        assert!(server.is_open(id));
    }
    assert_eq!(server.open_count(), 4);
    server.on_disconnect(0);
    server.on_disconnect(4);
    assert!(server.is_open(1) && server.is_open(3));
    assert!(!server.is_open(0) && !server.is_open(4));
    assert_eq!(server.open_count(), 2);
}

#[test]
fn disconnect_is_idempotent() {
    let mut server = GameServer::new();
    server.on_connect("a").unwrap();
    server.on_connect("b").unwrap();
    server.on_disconnect(0);
    server.on_disconnect(0);
    server.on_disconnect(0);
    assert_eq!(server.open_count(), 1);
    assert!(server.is_open(1));
}

#[test]
fn disconnect_of_unknown_id_changes_nothing() {
    let mut server = GameServer::new();
    server.on_disconnect(0);
    server.on_connect("a").unwrap();
    server.on_disconnect(17);
    server.on_disconnect(u64::MAX);
    assert_eq!(server.open_count(), 1);
    assert!(server.is_open(0));
}

#[test]
fn ids_are_not_given_twice() {
    let mut server = GameServer::new();
    let mut seen = Vec::new();
    for round in 0..50u64 {
        let (session, _) = server.on_connect("a").unwrap();
        assert!(!seen.contains(session.id()));
        seen.push(*session.id());
        if round % 3 != 0 {
            server.on_disconnect(*session.id());
            assert!(!server.is_open(*session.id()));
        }
    }
    assert_eq!(seen.len(), 50);
    assert_eq!(server.open_count(), 17);
    for id in seen {
        assert_eq!(server.is_open(id), id % 3 == 0);
    }
}

#[test]
fn registry_refuses_when_ids_run_out() {
    let mut server = GameServer::with_first_id(u64::MAX - 2);
    let (a, _) = server.on_connect("a").unwrap();
    let (b, _) = server.on_connect("b").unwrap();
    assert_eq!(*a.id(), u64::MAX - 2);
    assert_eq!(*b.id(), u64::MAX - 1);
    assert!(server.on_connect("c").is_none());
    assert!(server.on_connect("d").is_none());
    assert_eq!(server.open_count(), 2);
    assert!(!server.is_open(u64::MAX));
    server.on_disconnect(u64::MAX - 1);
    assert!(server.on_connect("e").is_none());
    assert_eq!(server.open_count(), 1);
}

#[test]
fn first_id_can_be_chosen() {
    let mut server = GameServer::with_first_id(1000);
    assert_eq!(server.open_count(), 0);
    let (session, _) = server.on_connect("a").unwrap();
    assert_eq!(*session.id(), 1000);
    assert!(server.is_open(1000));
    assert!(!server.is_open(0));
}

#[test]
fn text_frame_is_trimmed_and_run() {
    let mut session = open_session();
    assert_eq!(
        session.on_text(envelope("mint", "ping")),
        Response::Text("pong".to_string())
    );
    assert_eq!(
        session.on_text(envelope("mint", "  \t ping \r\n")),
        Response::Text("pong".to_string())
    );
    assert_eq!(
        session.on_text(envelope("mint", "\u{a0}login \"a b\"\u{3000}")),
        Response::Lookup { token: "a b".to_string() }
    );
    assert_eq!(
        session.on_text(envelope("mint", "register")),
        Response::Text("register".to_string())
    );
}

#[test]
fn errors_are_answered_with_their_rendering() {
    let mut session = open_session();
    assert_eq!(
        session.on_text(envelope("mint", "login \"abc")),
        Response::Text("error: erroneous quotes\n\n".to_string())
    );
    assert_eq!(
        session.on_text(envelope("mint", "dance")),
        Response::Text("error: invalid command\n\n".to_string())
    );
    assert_eq!(
        session.on_text(envelope("mint", "")),
        Response::Text("error: invalid command\n\n".to_string())
    );
    assert_eq!(
        session.on_text(envelope("mint", "login ''")),
        Response::Text("error: invalid token\n\n".to_string())
    );
    assert!(!session.is_closing());
    assert_eq!(
        session.on_text(envelope("mint", "ping")),
        Response::Text("pong".to_string())
    );
}

#[test]
fn malformed_envelope_is_a_parse_error() {
    let mut session = open_session();
    assert_eq!(
        session.on_text(None),
        Response::Text("error: malformed message\n\n".to_string())
    );
    assert!(!session.is_closing());
    assert!(!session.is_authenticated());
    assert_eq!(
        session.on_text(envelope("mint", "ping")),
        Response::Text("pong".to_string())
    );
}

#[test]
fn claimed_username_changes_nothing() {
    let mut plain = open_session();
    let mut claimed = open_session();
    for command in ["ping", "login abc", "register", "bogus", "quit", "ping"] {
        let a = plain.on_text(envelope("", command));
        let b = claimed.on_text(envelope("admin", command));
        assert_eq!(a, b);
        assert!(!plain.is_authenticated());
        assert!(!claimed.is_authenticated());
    }
}

#[test]
fn exit_frame_ends_the_session_for_good() {
    let mut session = open_session();
    assert_eq!(
        session.on_text(envelope("mint", " exit ")),
        Response::Farewell("Goodbye.".to_string())
    );
    assert!(session.is_closing());
    assert_eq!(session.on_text(envelope("mint", "ping")), Response::Ignored);
    assert_eq!(session.on_text(envelope("mint", "exit")), Response::Ignored);
    assert_eq!(session.on_text(None), Response::Ignored);
    assert_eq!(session.on_binary(vec![1, 2, 3]), Response::Ignored);
    assert!(session.is_closing());
}

#[test]
fn transport_failure_ends_the_session() {
    let mut session = open_session();
    let error = session.on_transport_failure("channel closed");
    assert_eq!(error.kind(), Some(nightraid::errors::ErrorKind::Transport));
    assert_eq!(error.error().unwrap().detail, "channel closed");
    assert!(!error.kind().unwrap().is_recoverable());
    assert_eq!(
        error.to_string(),
        "error: AN INTERNAL ERROR OCCURRED! PLEASE CONTACT m1nt_\n\n"
    );
    assert!(session.is_closing());
    assert_eq!(session.on_text(envelope("mint", "ping")), Response::Ignored);
}

#[test]
fn binary_frame_is_refused_and_session_lives_on() {
    let mut session = open_session();
    assert_eq!(
        session.on_binary(vec![0xde, 0xad, 0xbe, 0xef]),
        Response::Text("error: binary frames are not supported\n\n".to_string())
    );
    assert_eq!(
        session.on_binary(Vec::new()),
        Response::Text("error: binary frames are not supported\n\n".to_string())
    );
    assert!(!session.is_closing());
    assert_eq!(
        session.on_text(envelope("mint", "ping")),
        Response::Text("pong".to_string())
    );
}
