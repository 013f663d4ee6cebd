//! The background worker's control flow, as a state machine.
//!
//! The worker connects a socket, builds the transport session, performs
//! the handshake, authenticates, confirms authentication, binds the local
//! listener, and then loops accepting connections until the stop flag is
//! observed. Each outside operation is performed by the caller; the
//! decisions — what to do next after each outcome — are made here.

use vstd::prelude::*;

verus! {

/// Milliseconds slept between polls of the accept loop when no client
/// is pending.
pub const ACCEPT_POLL_MILLIS: u64 = 100;

/// The local TCP port the tunnel listens on; fixed, so only one tunnel
/// can run system-wide.
pub const LOCAL_PORT: u16 = 4000;

/// The port of the fixed remote target every forwarded connection is
/// relayed to.
pub const FORWARD_PORT: u16 = 4000;

/// The loopback address, with port, that the local listener binds.
pub fn local_bind_addr() -> (s: &'static str)
    ensures
        s@ == "127.0.0.1:4000"@,
{
    "127.0.0.1:4000"
}

/// The host of the fixed remote target every channel is opened against.
pub fn forward_host() -> (s: &'static str)
    ensures
        s@ == "127.0.0.1"@,
{
    "127.0.0.1"
}

/// The phase the worker is in. Setup phases run once, in order; `Accept`
/// repeats until shutdown; `Done` is terminal.
#[derive(Clone, Copy, PartialEq, Eq, Debug)]
pub enum WorkerPhase {
    /// Connecting the TCP socket to (host, port).
    Connect,
    /// Creating the transport session over the connected socket.
    CreateSession,
    /// Performing the protocol handshake.
    Handshake,
    /// Presenting the selected credential.
    Authenticate,
    /// Confirming that the session reports itself authenticated.
    ConfirmAuth,
    /// Binding the local listener and making it non-blocking.
    Bind,
    /// Polling the stop flag and accepting local connections.
    Accept,
    /// The worker has terminated, silently on any setup failure.
    Done,
}

impl WorkerPhase {
    /// Whether this is one of the run-once setup phases.
    pub open spec fn is_setup(self) -> bool {
        self != WorkerPhase::Accept && self != WorkerPhase::Done
    }
}

/// The setup order: each phase's successor when its operation succeeds.
/// Any failure aborts the worker silently: nothing is reported to the
/// caller of `start`, the worker merely never starts accepting.
pub open spec fn spec_setup_next(phase: WorkerPhase, ok: bool) -> WorkerPhase {
    if !ok {
        WorkerPhase::Done
    } else {
        match phase {
            WorkerPhase::Connect => WorkerPhase::CreateSession,
            WorkerPhase::CreateSession => WorkerPhase::Handshake,
            WorkerPhase::Handshake => WorkerPhase::Authenticate,
            WorkerPhase::Authenticate => WorkerPhase::ConfirmAuth,
            WorkerPhase::ConfirmAuth => WorkerPhase::Bind,
            WorkerPhase::Bind => WorkerPhase::Accept,
            _ => WorkerPhase::Done,
        }
    }
}

/// Advances the worker past one setup phase, given whether that phase's
/// outside operation succeeded.
pub fn setup_next(phase: WorkerPhase, ok: bool) -> (next: WorkerPhase)
    requires
        phase.is_setup(),
    ensures
        next == spec_setup_next(phase, ok),
        !ok ==> next == WorkerPhase::Done,
{
    if !ok {
        return WorkerPhase::Done;
    }
    match phase {
        WorkerPhase::Connect => WorkerPhase::CreateSession,
        WorkerPhase::CreateSession => WorkerPhase::Handshake,
        WorkerPhase::Handshake => WorkerPhase::Authenticate,
        WorkerPhase::Authenticate => WorkerPhase::ConfirmAuth,
        WorkerPhase::ConfirmAuth => WorkerPhase::Bind,
        _ => WorkerPhase::Accept,
    }
}

/// What the accept loop does on one pass.
#[derive(Clone, Copy, PartialEq, Eq, Debug)]
pub enum AcceptAction {
    /// Stop was requested: exit the loop, releasing listener and session.
    Shutdown,
    /// A local client was accepted: open a channel to the fixed remote
    /// target for it.
    OpenChannel,
    /// Nothing pending: sleep `ACCEPT_POLL_MILLIS` and poll again.
    Wait,
}

/// One pass of the accept loop: the stop flag rules; otherwise a pending
/// connection is served and an empty poll waits. A failed accept counts
/// as "nothing pending", never as fatal.
pub fn accept_step(stop_requested: bool, pending_connection: bool) -> (a: AcceptAction)
    ensures
        stop_requested ==> a == AcceptAction::Shutdown,
        !stop_requested && pending_connection ==> a == AcceptAction::OpenChannel,
        !stop_requested && !pending_connection ==> a == AcceptAction::Wait,
{
    if stop_requested {
        AcceptAction::Shutdown
    } else if pending_connection {
        AcceptAction::OpenChannel
    } else {
        AcceptAction::Wait
    }
}

/// What to do with an accepted connection once the channel open was
/// attempted.
#[derive(Clone, Copy, PartialEq, Eq, Debug)]
pub enum ChannelAction {
    /// The channel is open: relay bytes between the two sides.
    Relay,
    /// The channel could not be opened: drop this local connection and
    /// keep accepting. A per-connection failure is never fatal to the
    /// tunnel.
    DropConnection,
}

/// Decides the fate of one accepted connection from the outcome of
/// opening its remote channel.
pub fn channel_step(channel_opened: bool) -> (a: ChannelAction)
    ensures
        channel_opened ==> a == ChannelAction::Relay,
        !channel_opened ==> a == ChannelAction::DropConnection,
{
    if channel_opened {
        ChannelAction::Relay
    } else {
        ChannelAction::DropConnection
    }
}

} // verus!
