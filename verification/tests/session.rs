use ssh_session::bridge::{interpret_reply, HandlerReply, KeyCheck, KeyVerdict};
use ssh_session::client::{connect, AuthOutcome, Client, Credential};
use ssh_session::disconnect::DisconnectReason;
use ssh_session::err::{ErrorKind, SshError};
use ssh_session::exec::{collect, ChannelMsg};
use ssh_session::keypair::KeyPair;
use ssh_session::session::{SessionEvent, SessionState};

fn connected() -> Client {
    let mut client = connect::<u8, u8>("localhost:2222".to_string(), None).client;
    client.observe(SessionEvent::KeyDecision { accept: true });
    client.finish_connect(Ok(())).unwrap();
    client
}

fn authenticated() -> Client {
    let mut client = connected();
    assert!(client.finish_authentication(AuthOutcome::Accepted).unwrap());
    client
}

fn kind_of<T>(r: Result<T, SshError>) -> ErrorKind {
    match r {
        Ok(_) => panic!("expected an error"),
        Err(e) => e.kind(),
    }
}

#[test]
fn password_scenario_on_a_fresh_connection() {
    let mut c = connect::<u8, u8>("localhost:2222".to_string(), None);
    assert_eq!(c.address, "localhost:2222");
    assert!(!c.client.transport_config().anonymous);
    assert_eq!(c.client.state(), SessionState::Connecting);
    match c.handle.check_server_key() {
        KeyCheck::Decided { accept } => {
            assert!(accept);
            c.client.observe(SessionEvent::KeyDecision { accept });
        }
        KeyCheck::Ask { .. } => panic!("no handler was registered"),
    }
    c.client.finish_connect(Ok(())).unwrap();
    assert_eq!(c.client.state(), SessionState::AwaitingAuth);

    let wrong = c.client.authenticate_password("alice".to_string(), "wrong".to_string()).unwrap();
    assert_eq!(wrong.user, "alice");
    assert!(matches!(wrong.credential, Credential::Password(p) if p == "wrong"));
    assert_eq!(c.client.finish_authentication(AuthOutcome::Rejected).unwrap(), false);
    assert_eq!(c.client.state(), SessionState::AwaitingAuth);

    let right = c.client.authenticate_password("alice".to_string(), "correct".to_string()).unwrap();
    assert!(matches!(right.credential, Credential::Password(p) if p == "correct"));
    assert_eq!(c.client.finish_authentication(AuthOutcome::Accepted).unwrap(), true);
    assert_eq!(c.client.state(), SessionState::Authenticated);

    let request = c.client.exec("echo hi".to_string()).unwrap();
    assert_eq!(request.command, "echo hi");
    assert!(request.want_reply);
    let out = collect(&vec![
        ChannelMsg::Data { data: b"hi\n".to_vec() },
        ChannelMsg::ExitStatus { exit_status: 0 },
    ]);
    assert_eq!(out.status, 0);
    assert_eq!(out.output, b"hi\n".to_vec());
}

#[test]
fn session_is_closed_after_disconnect_and_refuses_commands() {
    let mut client = authenticated();
    assert!(!client.is_closed());
    let request = client
        .disconnect(DisconnectReason::ByApplication, "bye".to_string(), "en".to_string())
        .unwrap();
    assert_eq!(request.reason, DisconnectReason::ByApplication);
    assert_eq!(request.description, "bye");
    assert_eq!(request.language_tag, "en");
    client.finish_disconnect(Ok(())).unwrap();
    assert!(client.is_closed());
    assert_eq!(client.state(), SessionState::Closed);
    assert_eq!(kind_of(client.exec("echo hi".to_string())), ErrorKind::Connection);
    assert_eq!(
        kind_of(client.authenticate_password("a".to_string(), "b".to_string())),
        ErrorKind::Connection
    );
    assert_eq!(
        kind_of(client.disconnect(DisconnectReason::ByApplication, String::new(), String::new())),
        ErrorKind::Connection
    );
    client.observe(SessionEvent::AuthResult { accepted: true });
    client.observe(SessionEvent::Established);
    assert!(client.is_closed());
    assert_eq!(client.state(), SessionState::Closed);
}

#[test]
fn disconnect_before_authentication_closes_too() {
    let mut client = connected();
    client.disconnect(DisconnectReason::AuthCancelledByUser, String::new(), String::new()).unwrap();
    client.finish_disconnect(Ok(())).unwrap();
    assert!(client.is_closed());
}

#[test]
fn failed_disconnect_leaves_the_session_and_names_the_reason() {
    let mut client = authenticated();
    let e = client.finish_disconnect(Err("channel closed".to_string())).err().unwrap();
    assert_eq!(e.kind(), ErrorKind::Connection);
    assert_eq!(e.message(), "Disconnect failed: channel closed");
    assert_eq!(client.state(), SessionState::Authenticated);
    assert!(!client.is_closed());
}

#[test]
fn commands_are_refused_before_authentication() {
    let fresh = connect::<u8, u8>("h:22".to_string(), None).client;
    assert_eq!(kind_of(fresh.exec("id".to_string())), ErrorKind::Protocol);
    let client = connected();
    assert_eq!(kind_of(client.exec("id".to_string())), ErrorKind::Protocol);
    let mut rejected = connected();
    assert!(!rejected.finish_authentication(AuthOutcome::Rejected).unwrap());
    assert_eq!(kind_of(rejected.exec("id".to_string())), ErrorKind::Protocol);
}

#[test]
fn authentication_is_refused_outside_its_phase() {
    let fresh = connect::<u8, u8>("h:22".to_string(), None).client;
    assert_eq!(
        kind_of(fresh.authenticate_password("a".to_string(), "b".to_string())),
        ErrorKind::Protocol
    );
    let client = authenticated();
    assert_eq!(
        kind_of(client.authenticate_password("a".to_string(), "b".to_string())),
        ErrorKind::Protocol
    );
    let pair = KeyPair::generate_ed25519().unwrap();
    assert_eq!(kind_of(client.authenticate_key_pair("a".to_string(), pair)), ErrorKind::Protocol);
}

#[test]
fn key_pair_attempt_carries_the_key() {
    let client = connected();
    let pair = KeyPair::generate_ed25519().unwrap();
    let secret = pair.secret_bytes();
    let request = client.authenticate_key_pair("bob".to_string(), pair).unwrap();
    assert_eq!(request.user, "bob");
    match request.credential {
        Credential::KeyPair(k) => assert_eq!(k.secret_bytes(), secret),
        Credential::Password(_) => panic!("expected a key pair"),
    }
}

#[test]
fn transport_failure_during_authentication_is_an_error() {
    let mut client = connected();
    let e = client.finish_authentication(AuthOutcome::Failed("reset".to_string())).err().unwrap();
    assert_eq!(e.kind(), ErrorKind::Connection);
    assert_eq!(e.message(), "reset");
    assert!(client.is_closed());
    assert_eq!(client.state(), SessionState::Failed);
}

#[test]
fn answer_without_an_attempt_is_refused() {
    let mut fresh = connect::<u8, u8>("h:22".to_string(), None).client;
    assert_eq!(kind_of(fresh.finish_authentication(AuthOutcome::Accepted)), ErrorKind::Protocol);
    assert_eq!(fresh.state(), SessionState::Connecting);
    let mut done = authenticated();
    assert_eq!(kind_of(done.finish_authentication(AuthOutcome::Rejected)), ErrorKind::Protocol);
    assert_eq!(done.state(), SessionState::Authenticated);
}

#[test]
fn unrecognized_handler_reply_rejects_the_connection() {
    let mut c = connect::<u8, u8>(
        "h:22".to_string(),
        Some(ssh_session::config::Config { client: None, check_server_key: Some(1), auth_banner: None }),
    );
    assert!(matches!(c.handle.check_server_key(), KeyCheck::Ask { handler: 1 }));
    let verdict = interpret_reply(HandlerReply::Unrecognized);
    assert!(matches!(verdict, KeyVerdict::Reject));
    c.client.key_verdict(&verdict);
    assert_eq!(c.client.state(), SessionState::Failed);
    assert!(c.client.is_closed());
    assert_eq!(kind_of(c.client.finish_connect(Ok(()))), ErrorKind::Connection);
    assert_eq!(c.client.state(), SessionState::Failed);
    assert_eq!(
        kind_of(c.client.authenticate_password("a".to_string(), "b".to_string())),
        ErrorKind::Connection
    );
}

#[test]
fn rejected_and_failing_handlers_fail_the_connection() {
    for reply in [HandlerReply::Value(false), HandlerReply::Failed("boom".to_string())] {
        let mut client = connect::<u8, u8>("h:22".to_string(), None).client;
        client.key_verdict(&interpret_reply(reply));
        assert_eq!(client.state(), SessionState::Failed);
    }
}

#[test]
fn deferred_reply_holds_the_handshake_open() {
    let mut client = connect::<u8, u8>("h:22".to_string(), None).client;
    client.key_verdict(&interpret_reply(HandlerReply::Deferred));
    assert_eq!(client.state(), SessionState::Connecting);
    assert_eq!(kind_of(client.finish_connect(Ok(()))), ErrorKind::Connection);
    let mut later = connect::<u8, u8>("h:22".to_string(), None).client;
    later.key_verdict(&interpret_reply(HandlerReply::Deferred));
    later.key_verdict(&interpret_reply(HandlerReply::Value(true)));
    later.finish_connect(Ok(())).unwrap();
    assert_eq!(later.state(), SessionState::AwaitingAuth);
}

#[test]
fn handshake_without_an_accepted_key_fails() {
    let mut client = connect::<u8, u8>("h:22".to_string(), None).client;
    assert_eq!(kind_of(client.finish_connect(Ok(()))), ErrorKind::Connection);
    assert_eq!(client.state(), SessionState::Failed);
}

#[test]
fn network_failure_fails_the_connection_with_its_reason() {
    let mut client = connect::<u8, u8>("h:22".to_string(), None).client;
    let e = client.finish_connect(Err("connection refused".to_string())).err().unwrap();
    assert_eq!(e.kind(), ErrorKind::Connection);
    assert_eq!(e.message(), "connection refused");
    assert!(client.is_closed());
}

#[test]
fn closure_found_later_closes_the_session() {
    let mut client = authenticated();
    client.observe(SessionEvent::TransportClosed);
    assert!(client.is_closed());
    assert_eq!(client.state(), SessionState::Closed);
    let mut broken = authenticated();
    broken.observe(SessionEvent::TransportFailed);
    assert_eq!(broken.state(), SessionState::Failed);
}

fn anonymous_connection() -> Client {
    let mut tunables = ssh_session::config::ClientConfig::unset();
    tunables.anonymous = Some(true);
    let config = ssh_session::config::Config::<u8, u8> {
        client: Some(tunables),
        check_server_key: None,
        auth_banner: None,
    };
    connect("h:22".to_string(), Some(config)).client
}

#[test]
fn anonymous_session_runs_commands_without_authentication() {
    let mut client = anonymous_connection();
    assert!(client.transport_config().anonymous);
    assert_eq!(kind_of(client.exec("id".to_string())), ErrorKind::Protocol);
    client.observe(SessionEvent::KeyDecision { accept: true });
    client.finish_connect(Ok(())).unwrap();
    assert_eq!(client.state(), SessionState::Authenticated);
    assert_eq!(client.exec("id".to_string()).unwrap().command, "id");
    assert_eq!(
        kind_of(client.authenticate_password("a".to_string(), "b".to_string())),
        ErrorKind::Protocol
    );
    client.disconnect(DisconnectReason::ByApplication, String::new(), String::new()).unwrap();
    client.finish_disconnect(Ok(())).unwrap();
    assert!(client.is_closed());
    assert_eq!(kind_of(client.exec("id".to_string())), ErrorKind::Connection);
}

#[test]
fn anonymous_session_still_needs_an_accepted_host_key() {
    let mut client = anonymous_connection();
    assert_eq!(kind_of(client.finish_connect(Ok(()))), ErrorKind::Connection);
    assert_eq!(client.state(), SessionState::Failed);
    let mut rejected = anonymous_connection();
    rejected.key_verdict(&interpret_reply(HandlerReply::Unrecognized));
    assert_eq!(rejected.state(), SessionState::Failed);
    assert_eq!(kind_of(rejected.exec("id".to_string())), ErrorKind::Connection);
}
