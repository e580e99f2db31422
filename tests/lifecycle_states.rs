use imm_sim::handshake::S2CHandshakeResult;
use imm_sim::lifecycle::{
    ClientSession, ConnectError, ConnectionState, LifecycleAction, LifecycleEvent, ServerLifecycleCmd,
    ServerRun, ServerState,
};

fn start(addr: &str, password: Option<&str>) -> LifecycleEvent {
    LifecycleEvent::Command(ServerLifecycleCmd::StartServer {
        bind_addr: addr.to_string(),
        room_password: password.map(|p| p.to_string()),
    })
}

#[test]
fn server_start_bind_stop() {
    let mut run = ServerRun::new();
    assert_eq!(run.state, ServerState::NotRunning);
    assert!(!run.gameplay_enabled());
    match run.step(start("127.0.0.1:5000", Some("pw"))) {
        LifecycleAction::Start { bind_addr, world } => {
            assert_eq!(bind_addr, "127.0.0.1:5000");
            assert_eq!(world.track_count(), 0);
        }
        _ => panic!("expected start"),
    }
    assert_eq!(run.state, ServerState::Running);
    assert!(!run.gameplay_enabled());
    assert!(matches!(run.step(LifecycleEvent::TransportBound), LifecycleAction::Nothing));
    assert!(run.gameplay_enabled());
    assert!(matches!(
        run.step(LifecycleEvent::Command(ServerLifecycleCmd::StopServer)),
        LifecycleAction::DisconnectAll
    ));
    assert_eq!(run.state, ServerState::Stopped);
    assert!(!run.gameplay_enabled());
    assert!(matches!(run.step(start("127.0.0.1:5001", None)), LifecycleAction::Start { .. }));
    assert_eq!(run.state, ServerState::Running);
}

#[test]
fn bind_failure_is_terminal() {
    let mut run = ServerRun::new();
    run.step(start("bad", None));
    run.step(LifecycleEvent::TransportFailed);
    assert_eq!(run.state, ServerState::Errored);
    assert!(matches!(run.step(start("good", None)), LifecycleAction::Nothing));
    assert_eq!(run.state, ServerState::Errored);
    assert!(matches!(
        run.step(LifecycleEvent::Command(ServerLifecycleCmd::StopServer)),
        LifecycleAction::Nothing
    ));
    assert_eq!(run.state, ServerState::Errored);
}

#[test]
fn stop_before_start_does_nothing() {
    let mut run = ServerRun::new();
    assert!(matches!(
        run.step(LifecycleEvent::Command(ServerLifecycleCmd::StopServer)),
        LifecycleAction::Nothing
    ));
    assert_eq!(run.state, ServerState::NotRunning);
}

#[test]
fn client_session_happy_path() {
    let mut s = ClientSession::new();
    s.input.display_name = "ann".to_string();
    s.submit();
    assert_eq!(s.state, ConnectionState::TryingConnection);
    s.on_connect_result(Ok(()));
    assert_eq!(s.state, ConnectionState::SendingHandshake);
    let req = s.send_handshake().expect("request");
    assert_eq!(req.display_name, "ann");
    assert_eq!(req.room_password, None);
    assert_eq!(s.state, ConnectionState::AwaitingHandshakeResponse);
    s.recv_handshake_result(&S2CHandshakeResult::ConnectionAccepted { client_id: 77 });
    assert_eq!(s.state, ConnectionState::InGame);
    assert_eq!(s.client_id, Some(77));
    assert!(s.in_game());
}

#[test]
fn client_sends_password_when_given() {
    let mut s = ClientSession::new();
    s.input.server_password = "secret".to_string();
    s.submit();
    s.on_connect_result(Ok(()));
    let req = s.send_handshake().unwrap();
    assert_eq!(req.room_password, Some("secret".to_string()));
}

#[test]
fn client_rejection_returns_to_form() {
    let mut s = ClientSession::new();
    s.submit();
    s.on_connect_result(Ok(()));
    s.send_handshake();
    s.recv_handshake_result(&S2CHandshakeResult::ConnectionRejected { reason: "full".to_string() });
    assert_eq!(s.state, ConnectionState::ConnectServerMenu);
    assert_eq!(
        s.input.error_message.as_deref(),
        Some("The server rejected your connection for reason: full")
    );
    assert_eq!(s.client_id, None);
}

#[test]
fn client_transport_failures_return_to_form() {
    let cases = [
        (ConnectError::BindLocalSocket("in use".to_string()), "Error binding to local socket: in use"),
        (
            ConnectError::ParseServerAddress("bad".to_string()),
            "Error parsing the given server address: bad",
        ),
        (ConnectError::Transport("refused".to_string()), "Could not connect to server: refused"),
    ];
    for (err, text) in cases {
        let mut s = ClientSession::new();
        s.submit();
        s.on_connect_result(Err(err));
        assert_eq!(s.state, ConnectionState::ConnectServerMenu);
        assert_eq!(s.input.error_message.as_deref(), Some(text));
    }
}

#[test]
fn client_ignores_out_of_order_events() {
    let mut s = ClientSession::new();
    assert!(s.send_handshake().is_none());
    s.recv_handshake_result(&S2CHandshakeResult::ConnectionAccepted { client_id: 1 });
    s.on_connect_result(Ok(()));
    assert_eq!(s.state, ConnectionState::ConnectServerMenu);
    assert_eq!(s.client_id, None);
}
