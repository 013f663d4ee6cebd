use ssh_tunnel::config::{AuthMethod, TunnelConfig};
use ssh_tunnel::lifecycle::TunnelController;
use ssh_tunnel::relay::{direction_step, DirAction, ReadEvent};
use ssh_tunnel::worker::{
    accept_step, channel_step, forward_host, local_bind_addr, setup_next, AcceptAction,
    ChannelAction, WorkerPhase, ACCEPT_POLL_MILLIS, FORWARD_PORT, LOCAL_PORT,
};

#[test]
fn setup_advances_in_order_when_everything_succeeds() {
    let mut phase = WorkerPhase::Connect;
    phase = setup_next(phase, true);
    assert_eq!(phase, WorkerPhase::CreateSession);
    phase = setup_next(phase, true);
    assert_eq!(phase, WorkerPhase::Handshake);
    phase = setup_next(phase, true);
    assert_eq!(phase, WorkerPhase::Authenticate);
    phase = setup_next(phase, true);
    assert_eq!(phase, WorkerPhase::ConfirmAuth);
    phase = setup_next(phase, true);
    assert_eq!(phase, WorkerPhase::Bind);
    phase = setup_next(phase, true);
    assert_eq!(phase, WorkerPhase::Accept);
}

#[test]
fn any_setup_failure_ends_the_worker_silently() {
    for phase in [
        WorkerPhase::Connect,
        WorkerPhase::CreateSession,
        WorkerPhase::Handshake,
        WorkerPhase::Authenticate,
        WorkerPhase::ConfirmAuth,
        WorkerPhase::Bind,
    ] {
        assert_eq!(setup_next(phase, false), WorkerPhase::Done);
    }
}

#[test]
fn stop_flag_shuts_the_accept_loop_down() {
    assert_eq!(accept_step(true, false), AcceptAction::Shutdown);
    assert_eq!(accept_step(true, true), AcceptAction::Shutdown);
}

#[test]
fn accepted_client_gets_a_channel() {
    assert_eq!(accept_step(false, true), AcceptAction::OpenChannel);
}

#[test]
fn empty_poll_waits() {
    assert_eq!(accept_step(false, false), AcceptAction::Wait);
}

#[test]
fn failed_channel_open_drops_only_that_connection() {
    assert_eq!(channel_step(false), ChannelAction::DropConnection);
    assert_eq!(channel_step(true), ChannelAction::Relay);
}

#[test]
fn endpoints_are_fixed() {
    assert_eq!(local_bind_addr(), "127.0.0.1:4000");
    assert_eq!(forward_host(), "127.0.0.1");
    assert_eq!(LOCAL_PORT, 4000);
    assert_eq!(FORWARD_PORT, 4000);
    assert_eq!(ACCEPT_POLL_MILLIS, 100);
}

#[test]
fn ping_round_trip_scenario() {
    // start("example.com", 22, "alice", password="secret", None)
    let cfg = TunnelConfig {
        host: "example.com".to_string(),
        port: 22,
        username: "alice".to_string(),
        password: Some("secret".to_string()),
        private_key: None,
    };
    let mut controller = TunnelController::new();
    assert_eq!(controller.start(), Ok(()));

    // The worker reaches the accept loop: every setup step succeeds,
    // authenticating with the password since no key was supplied.
    assert_eq!(cfg.auth_method(), Some(AuthMethod::Password("secret".to_string())));
    let mut phase = WorkerPhase::Connect;
    while phase != WorkerPhase::Accept {
        phase = setup_next(phase, true);
    }

    // A local client connects and gets a channel.
    assert_eq!(
        accept_step(controller.is_stop_requested(), true),
        AcceptAction::OpenChannel
    );
    assert_eq!(channel_step(true), ChannelAction::Relay);

    // "ping" sent on the local socket is forwarded to the channel
    // exactly as read.
    let action = direction_step(ReadEvent::Data(b"ping".to_vec()));
    assert_eq!(action, DirAction::Forward(b"ping".to_vec()));

    // stop, then a new start succeeds.
    assert_eq!(controller.stop(), Ok(()));
    assert_eq!(
        accept_step(controller.is_stop_requested(), false),
        AcceptAction::Shutdown
    );
    assert_eq!(controller.start(), Ok(()));
}

#[test]
fn greeting_matches() {
    assert_eq!(
        ssh_tunnel::greet("World"),
        "Hello, World! You've been greeted from Rust!"
    );
}
