//! The server that offers a command on the standard streams to SSE clients.
use std::time::Duration;
use vstd::prelude::*;
use vstd::string::*;

use crate::text::result_view;

verus! {

/// The path under which clients receive events.
pub const SSE_PATH: &'static str = "/sse";

/// The path under which clients post messages.
pub const POST_PATH: &'static str = "/message";

/// Where a server listens: at an address, or, where there is one, on a Unix socket,
/// whose permissions may be given; and the interval of its keep-alive messages.
#[derive(Debug)]
pub struct SseServerSettings<A, P> {
    pub bind_addr: A,
    pub unix_socket: Option<P>,
    pub unix_socket_mode: Option<u32>,
    pub keep_alive: Option<Duration>,
}

/// The command that a server runs. Each variable of its environment is given once.
#[derive(Debug)]
pub struct StdioServerParameters {
    pub command: String,
    pub args: Vec<String>,
    pub env: Vec<(String, String)>,
}

/// What is to be done next to run a server.
#[derive(Debug)]
pub enum ServerStep<A, P, S = String> {
    /// Start the command and connect to it.
    Start { stdio_params: StdioServerParameters, settings: SseServerSettings<A, P> },
    /// Tell whether the file of the socket exists.
    ProbeSocket { path: P, mode: Option<u32> },
    /// Remove the file.
    RemoveSocket { path: P, mode: Option<u32> },
    /// Listen on the socket.
    BindSocket { path: P, mode: Option<u32> },
    /// Set the permissions of the file.
    SetMode { path: P, permissions: u32 },
    /// Listen at the address.
    BindAddress { bind_addr: A },
    /// Serve until a signal to stop comes.
    Serve { socket: Option<P> },
    /// End the sessions.
    EndSessions { socket: Option<P> },
    /// Remove the file of the socket; whether that succeeds does not matter.
    CleanUp { path: P },
    /// Wait until the server has ended.
    Finish,
    Done(Result<(), S>),
}

/// What came of such a step.
#[derive(Debug)]
pub enum ServerEvent<S = String> {
    Started(Result<(), S>),
    Exists(bool),
    Removed(Result<(), S>),
    Bound(Result<(), S>),
    ModeSet(Result<(), S>),
    Signalled,
    SessionsEnded,
    CleanedUp,
    Finished(Result<(), S>),
}

impl<A, P> View for ServerStep<A, P> {
    type V = ServerStep<A, P, Seq<char>>;

    open spec fn view(&self) -> ServerStep<A, P, Seq<char>> {
        match *self {
            ServerStep::Start { stdio_params, settings } => ServerStep::Start {
                stdio_params,
                settings,
            },
            ServerStep::ProbeSocket { path, mode } => ServerStep::ProbeSocket { path, mode },
            ServerStep::RemoveSocket { path, mode } => ServerStep::RemoveSocket { path, mode },
            ServerStep::BindSocket { path, mode } => ServerStep::BindSocket { path, mode },
            ServerStep::SetMode { path, permissions } => ServerStep::SetMode { path, permissions },
            ServerStep::BindAddress { bind_addr } => ServerStep::BindAddress { bind_addr },
            ServerStep::Serve { socket } => ServerStep::Serve { socket },
            ServerStep::EndSessions { socket } => ServerStep::EndSessions { socket },
            ServerStep::CleanUp { path } => ServerStep::CleanUp { path },
            ServerStep::Finish => ServerStep::Finish,
            ServerStep::Done(r) => ServerStep::Done(result_view(r)),
        }
    }
}

impl View for ServerEvent {
    type V = ServerEvent<Seq<char>>;

    open spec fn view(&self) -> ServerEvent<Seq<char>> {
        match *self {
            ServerEvent::Started(r) => ServerEvent::Started(result_view(r)),
            ServerEvent::Exists(b) => ServerEvent::Exists(b),
            ServerEvent::Removed(r) => ServerEvent::Removed(result_view(r)),
            ServerEvent::Bound(r) => ServerEvent::Bound(result_view(r)),
            ServerEvent::ModeSet(r) => ServerEvent::ModeSet(result_view(r)),
            ServerEvent::Signalled => ServerEvent::Signalled,
            ServerEvent::SessionsEnded => ServerEvent::SessionsEnded,
            ServerEvent::CleanedUp => ServerEvent::CleanedUp,
            ServerEvent::Finished(r) => ServerEvent::Finished(result_view(r)),
        }
    }
}

impl<A, P> ServerStep<A, P, Seq<char>> {
    /// The step that follows an event.
    pub open spec fn after(self, event: ServerEvent<Seq<char>>) -> Self {
        match (self, event) {
            (ServerStep::Start { stdio_params, settings }, ServerEvent::Started(Ok(_))) => {
                match settings.unix_socket {
                    Some(path) => ServerStep::ProbeSocket { path, mode: settings.unix_socket_mode },
                    None => ServerStep::BindAddress { bind_addr: settings.bind_addr },
                }
            },
            (ServerStep::Start { stdio_params, settings }, ServerEvent::Started(Err(m))) => {
                ServerStep::Done(Err(m))
            },
            (ServerStep::ProbeSocket { path, mode }, ServerEvent::Exists(exists)) => if exists {
                ServerStep::RemoveSocket { path, mode }
            } else {
                ServerStep::BindSocket { path, mode }
            },
            (ServerStep::RemoveSocket { path, mode }, ServerEvent::Removed(Ok(_))) => {
                ServerStep::BindSocket { path, mode }
            },
            (ServerStep::RemoveSocket { path, mode }, ServerEvent::Removed(Err(m))) => {
                ServerStep::Done(Err(m))
            },
            (ServerStep::BindSocket { path, mode }, ServerEvent::Bound(Ok(_))) => match mode {
                Some(permissions) => ServerStep::SetMode { path, permissions },
                None => ServerStep::Serve { socket: Some(path) },
            },
            (ServerStep::BindSocket { path, mode }, ServerEvent::Bound(Err(m))) => ServerStep::Done(
                Err(m),
            ),
            (ServerStep::SetMode { path, permissions }, ServerEvent::ModeSet(Ok(_))) => ServerStep::Serve {
                socket: Some(path),
            },
            (ServerStep::SetMode { path, permissions }, ServerEvent::ModeSet(Err(m))) => ServerStep::Done(
                Err(m),
            ),
            (ServerStep::BindAddress { bind_addr }, ServerEvent::Bound(Ok(_))) => {
                ServerStep::Serve { socket: None }
            },
            (ServerStep::BindAddress { bind_addr }, ServerEvent::Bound(Err(m))) => {
                ServerStep::Done(Err(m))
            },
            (ServerStep::Serve { socket }, ServerEvent::Signalled) => ServerStep::EndSessions {
                socket,
            },
            (ServerStep::EndSessions { socket }, ServerEvent::SessionsEnded) => match socket {
                Some(path) => ServerStep::CleanUp { path },
                None => ServerStep::Finish,
            },
            (ServerStep::CleanUp { path }, ServerEvent::CleanedUp) => ServerStep::Finish,
            (ServerStep::Finish, ServerEvent::Finished(r)) => ServerStep::Done(r),
            _ => self,
        }
    }
}

impl<A, P> ServerStep<A, P> {
    /// The step that follows an event.
    pub fn next(self, event: ServerEvent) -> (r: Self)
        ensures
            r@ == self@.after(event@),
    {
        match (self, event) {
            (ServerStep::Start { stdio_params: _, settings }, ServerEvent::Started(started)) => {
                match started {
                    Ok(_) => match settings.unix_socket {
                        Some(path) => ServerStep::ProbeSocket {
                            path,
                            mode: settings.unix_socket_mode,
                        },
                        None => ServerStep::BindAddress { bind_addr: settings.bind_addr },
                    },
                    Err(m) => ServerStep::Done(Err(m)),
                }
            },
            (ServerStep::ProbeSocket { path, mode }, ServerEvent::Exists(exists)) => {
                if exists {
                    ServerStep::RemoveSocket { path, mode }
                } else {
                    ServerStep::BindSocket { path, mode }
                }
            },
            (ServerStep::RemoveSocket { path, mode }, ServerEvent::Removed(removed)) => {
                match removed {
                    Ok(_) => ServerStep::BindSocket { path, mode },
                    Err(m) => ServerStep::Done(Err(m)),
                }
            },
            (ServerStep::BindSocket { path, mode }, ServerEvent::Bound(bound)) => match bound {
                Ok(_) => match mode {
                    Some(permissions) => ServerStep::SetMode { path, permissions },
                    None => ServerStep::Serve { socket: Some(path) },
                },
                Err(m) => ServerStep::Done(Err(m)),
            },
            (ServerStep::SetMode { path, permissions: _ }, ServerEvent::ModeSet(set)) => match set {
                Ok(_) => ServerStep::Serve { socket: Some(path) },
                Err(m) => ServerStep::Done(Err(m)),
            },
            (ServerStep::BindAddress { bind_addr: _ }, ServerEvent::Bound(bound)) => match bound {
                Ok(_) => ServerStep::Serve { socket: None },
                Err(m) => ServerStep::Done(Err(m)),
            },
            (ServerStep::Serve { socket }, ServerEvent::Signalled) => ServerStep::EndSessions {
                socket,
            },
            (ServerStep::EndSessions { socket }, ServerEvent::SessionsEnded) => match socket {
                Some(path) => ServerStep::CleanUp { path },
                None => ServerStep::Finish,
            },
            (ServerStep::CleanUp { path: _ }, ServerEvent::CleanedUp) => ServerStep::Finish,
            (ServerStep::Finish, ServerEvent::Finished(r)) => ServerStep::Done(r),
            (step, _) => step,
        }
    }
}

/// Runs a server of a command with these settings.
pub fn run_sse_server<A, P>(
    stdio_params: StdioServerParameters,
    sse_settings: SseServerSettings<A, P>,
) -> (r: ServerStep<A, P>)
    ensures
        r == (ServerStep::<A, P, String>::Start { stdio_params, settings: sse_settings }),
{
    ServerStep::Start { stdio_params, settings: sse_settings }
}

} // verus!
