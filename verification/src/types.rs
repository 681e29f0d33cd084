//! Plain data shared by every part of the session.

use vstd::prelude::*;

verus! {

/// Coarse connectivity of the session, as observers see it.
#[derive(PartialEq, Eq, Structural, Clone, Debug, Copy)]
pub enum ExternalEvent {
    Connected,
    Disconnected,
    Exited,
}

/// What a client-facing call hands to the owner of the socket.
#[derive(Clone, Debug, PartialEq, Eq)]
pub enum InternalCommand {
    /// Forward this text frame to the socket.
    Send(String),
    /// Close the socket and end the current connection.
    Close,
}

/// Credentials kept for re-authentication after a reconnect.
#[derive(Clone, Debug, PartialEq, Eq)]
pub struct LoginState {
    pub key_id: String,
    pub account_id: String,
    pub key_path: String,
}

/// A registered subscription: the forwarding queue towards its decode task,
/// and the handle by which that task is cancelled.
pub struct SubscriptionChannel {
    pub sender: tokio::sync::mpsc::UnboundedSender<String>,
    pub task: tokio::task::AbortHandle,
}

/// The error object of a reply.
#[derive(Clone, Debug, PartialEq, Eq)]
pub struct RpcErrorResponse {
    pub code: i64,
    pub message: String,
}

/// Why a call on the client failed.
#[derive(Clone, Debug, PartialEq, Eq)]
pub enum ClientError {
    /// The server answered the request with an error object.
    Rpc(RpcErrorResponse),
    /// The request could not be handed to the connection.
    Transport,
    /// The reply did not decode into what the caller expected.
    Parse,
    /// The waiter was dropped before a reply came.
    Recv,
    /// The channel is not subscribed.
    NotFound,
}

/// Whether a method or channel needs an authenticated session.
#[derive(PartialEq, Eq, Structural, Clone, Debug, Copy)]
pub enum RequestScope {
    Public,
    Private,
}

impl RequestScope {
    /// The scope as it appears in method names.
    pub open spec fn spec_name(self) -> Seq<char> {
        match self {
            RequestScope::Public => "public"@,
            RequestScope::Private => "private"@,
        }
    }

    /// The scope as it appears in method names: `public` or `private`.
    pub fn name(&self) -> (text: &'static str)
        ensures
            text@ == self.spec_name(),
    {
        match self {
            RequestScope::Public => "public",
            RequestScope::Private => "private",
        }
    }
}

} // verus!
