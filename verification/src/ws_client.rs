//! The state of one client session and the calls that change it.
//!
//! The session is kept by one owner at a time. A call that needs the server
//! returns the request to send; the caller puts it on the wire and comes back
//! with what the server said.

use vstd::prelude::*;
use vstd::string::*;
use crate::envelope::{channels_params, login_params, login_params_text, request, request_text, subscribe_call, subscribe_method, unsubscribe_call, unsubscribe_method, RpcCall};
use crate::outside::{names_of, ResponseSender};
use crate::pending::{connection_closed, id_after, PendingRequests};
use crate::registry::{other_scope, Registry};
use crate::routing::routed_as;
use crate::runner::{action_for, connection_step, names_unknown_channel, payload_of, ConnectionEvent, ConnectionStep, Inbound, Note};
use crate::scan::{reply_kind, reply_kind_of, same_text, shape_of, ReplyKind};
use crate::supervisor::{Supervisor, SupervisorEvent, SupervisorStep};
use crate::types::{ClientError, ExternalEvent, InternalCommand, LoginState, RequestScope, RpcErrorResponse, SubscriptionChannel};

verus! {

/// The channels of one scope to subscribe again, with the call that does it.
#[derive(Debug, Clone, PartialEq, Eq)]
pub struct Resubscription {
    pub scope: RequestScope,
    pub channels: Vec<String>,
    pub call: RpcCall,
}

/// The state that `states` leaves published, `current` being published
/// before: the last of them, or `current` if there is none.
pub open spec fn last_published(current: ExternalEvent, states: Seq<ExternalEvent>) -> ExternalEvent {
    if states.len() == 0 {
        current
    } else {
        states.last()
    }
}

/// One client session.
pub struct WsClient {
    /// The requests that wait for their reply.
    pub pending_requests: PendingRequests,
    /// The channels that are subscribed.
    pub subscriptions: Registry,
    /// The credentials of an authenticated session.
    pub login_state: Option<LoginState>,
    /// The connectivity that was published last.
    pub connection_state: ExternalEvent,
    /// Whether shutdown has been requested. Once set it stays set.
    pub shutdown_requested: bool,
}

impl WsClient {
    /// The invariant of the session: no channel is registered under both
    /// scopes.
    pub open spec fn wf(&self) -> bool {
        self.subscriptions.wf()
    }

    /// Whether `other` differs from this session in its tables at most.
    pub open spec fn same_settings(&self, other: &WsClient) -> bool {
        &&& self.login_state == other.login_state
        &&& self.connection_state == other.connection_state
        &&& self.shutdown_requested == other.shutdown_requested
    }

    /// What a shutdown makes of the session `before`: the flag set, nothing
    /// subscribed, everything else as it was.
    pub open spec fn shut_down_from(&self, before: &WsClient) -> bool {
        &&& self.shutdown_requested
        &&& self.subscriptions.is_empty()
        &&& self.pending_requests == before.pending_requests
        &&& self.login_state == before.login_state
        &&& self.connection_state == before.connection_state
    }

    /// Shutdown is idempotent: a second shutdown leaves what the first left.
    pub proof fn lemma_shutdown_idempotent(before: WsClient, once: WsClient, twice: WsClient)
        requires
            once.shut_down_from(&before),
            twice.shut_down_from(&once),
        ensures
            twice.shut_down_from(&before),
            twice.same_settings(&once),
            twice.pending_requests == once.pending_requests,
            twice.subscriptions.same_as(&once.subscriptions),
    {
    }

    /// A session with these credentials, or without any: disconnected,
    /// nothing waiting, nothing subscribed, the first request id 1.
    pub fn new(login_state: Option<LoginState>) -> (client: WsClient)
        ensures
            client.wf(),
            client.pending_requests@ =~= Map::empty(),
            client.pending_requests.spec_next_id() == 1,
            client.pending_requests.ids_are_past(),
            client.subscriptions.is_empty(),
            client.login_state == login_state,
            client.connection_state == ExternalEvent::Disconnected,
            !client.shutdown_requested,
    {
        WsClient {
            pending_requests: PendingRequests::new(),
            subscriptions: Registry::new(),
            login_state,
            connection_state: ExternalEvent::Disconnected,
            shutdown_requested: false,
        }
    }

    /// A session without credentials.
    pub fn new_public() -> (client: WsClient)
        ensures
            client.wf(),
            client.pending_requests@ =~= Map::empty(),
            client.pending_requests.spec_next_id() == 1,
            client.pending_requests.ids_are_past(),
            client.subscriptions.is_empty(),
            client.login_state.is_none(),
            client.connection_state == ExternalEvent::Disconnected,
            !client.shutdown_requested,
    {
        WsClient::new(None)
    }

    /// Starts a request: takes the next id, files `slot` under it and writes
    /// the request. The result is the id and the command that sends the
    /// request; the reply will arrive in `slot`.
    pub fn send_rpc(&mut self, method: &str, params: &str, slot: ResponseSender) -> (sent: (u64, InternalCommand))
        ensures
            sent.0 == old(self).pending_requests.spec_next_id(),
            final(self).pending_requests.spec_next_id() == id_after(sent.0),
            final(self).pending_requests@ == old(self).pending_requests@.insert(sent.0, slot),
            sent.1 matches InternalCommand::Send(text) && text@ == request(sent.0, method@, params@),
            final(self).subscriptions == old(self).subscriptions,
            final(self).same_settings(old(self)),
            old(self).pending_requests.ids_are_past() ==> !old(self).pending_requests@.contains_key(
                sent.0,
            ),
            old(self).pending_requests.ids_are_past() && 1 <= sent.0 < u64::MAX ==> final(self).pending_requests.ids_are_past(),
    {
        let id = self.pending_requests.register(slot);
        let text = request_text(id, method, params);
        (id, InternalCommand::Send(text))
    }

    /// Gives up the request `id` that could not be handed to the connection:
    /// its entry leaves the table and the caller gets a transport error.
    pub fn abandon_rpc(&mut self, id: u64) -> (error: ClientError)
        ensures
            error is Transport,
            final(self).pending_requests@ == old(self).pending_requests@.remove(id),
            final(self).pending_requests.spec_next_id() == old(self).pending_requests.spec_next_id(),
            final(self).subscriptions == old(self).subscriptions,
            final(self).same_settings(old(self)),
    {
        let _ = self.pending_requests.take(id);
        ClientError::Transport
    }

    /// Registers `queue` for `channel` under `scope` and returns the call
    /// that subscribes the channel on the server. What the server answers
    /// goes to `complete_subscription`.
    pub fn subscribe_channel(&mut self, scope: RequestScope, channel: String, queue: SubscriptionChannel) -> (call: RpcCall)
        ensures
            old(self).wf() ==> final(self).wf(),
            final(self).subscriptions.entries(scope) == old(self).subscriptions.entries(
                scope,
            ).insert(channel@, queue),
            final(self).subscriptions.entries(other_scope(scope)) == old(self).subscriptions.entries(other_scope(scope)).remove(channel@),
            call.method@ == subscribe_method(scope),
            call.params@ == channels_params(seq![channel@]),
            final(self).pending_requests == old(self).pending_requests,
            final(self).same_settings(old(self)),
    {
        let mut names: Vec<String> = Vec::new();
        names.push(channel.clone());
        assert(names_of(names@) =~= seq![channel@]);
        let call = subscribe_call(scope, &names);
        let _ = self.subscriptions.register(scope, channel, queue);
        call
    }

    /// Ends a subscription attempt. With the server's confirmation the
    /// registration stays and the channel name is returned. With an error the
    /// registration is removed, its decode task cancelled, and the error is
    /// handed on.
    pub fn complete_subscription(&mut self, channel: &str, outcome: Result<(), ClientError>) -> (result: Result<String, ClientError>)
        ensures
            old(self).wf() ==> final(self).wf(),
            final(self).pending_requests == old(self).pending_requests,
            final(self).same_settings(old(self)),
            match outcome {
                Ok(_) => {
                    &&& result matches Ok(name) && name@ == channel@
                    &&& final(self).subscriptions == old(self).subscriptions
                },
                Err(error) => {
                    &&& result == Err::<String, ClientError>(error)
                    &&& final(self).subscriptions.entries(RequestScope::Public) == old(self).subscriptions.entries(RequestScope::Public).remove(channel@)
                    &&& final(self).subscriptions.entries(RequestScope::Private) == old(self).subscriptions.entries(RequestScope::Private).remove(channel@)
                },
            },
    {
        match outcome {
            Ok(_) => Ok(channel.to_owned()),
            Err(error) => {
                let _ = self.subscriptions.remove(channel);
                Err(error)
            },
        }
    }

    /// Removes the registration of `channel`, cancels its decode task and
    /// returns the call that unsubscribes the channel on the server, under
    /// the scope that held it. A channel in neither registry is an error, and
    /// nothing changes.
    pub fn unsubscribe(&mut self, channel: &str) -> (result: Result<RpcCall, ClientError>)
        ensures
            old(self).wf() ==> final(self).wf(),
            final(self).pending_requests == old(self).pending_requests,
            final(self).same_settings(old(self)),
            final(self).subscriptions.scope_of(channel@).is_none(),
            final(self).subscriptions.entries(RequestScope::Public) == old(self).subscriptions.entries(RequestScope::Public).remove(channel@),
            final(self).subscriptions.entries(RequestScope::Private) == old(self).subscriptions.entries(RequestScope::Private).remove(channel@),
            match old(self).subscriptions.scope_of(channel@) {
                None => {
                    &&& result matches Err(ClientError::NotFound)
                    &&& final(self).subscriptions.same_as(&old(self).subscriptions)
                },
                Some(scope) => result matches Ok(call) && call.method@ == unsubscribe_method(scope)
                    && call.params@ == channels_params(seq![channel@]),
            },
    {
        match self.subscriptions.remove(channel) {
            None => Err(ClientError::NotFound),
            Some(scope) => {
                let mut names: Vec<String> = Vec::new();
                names.push(channel.to_owned());
                assert(names_of(names@) =~= seq![channel@]);
                Ok(unsubscribe_call(scope, &names))
            },
        }
    }

    /// The call that logs the session in with `token`, or `None` for a
    /// session without credentials.
    pub fn login(&self, token: &str) -> (call: Option<RpcCall>)
        ensures
            match self.login_state {
                None => call.is_none(),
                Some(state) => call matches Some(c) && c.method@ == "public/login"@ && c.params@
                    == login_params(token@, state.account_id@),
            },
    {
        match &self.login_state {
            None => None,
            Some(state) => Some(
                RpcCall {
                    method: "public/login".to_owned(),
                    params: login_params_text(token, state.account_id.as_str()),
                },
            ),
        }
    }

    /// The call that has the server cancel the session's orders six seconds
    /// after the connection is lost.
    pub fn set_cancel_on_disconnect(&self) -> (call: RpcCall)
        ensures
            call.method@ == "private/set_cancel_on_disconnect"@,
            call.params@ == "{\"timeout_secs\":6}"@,
    {
        RpcCall {
            method: "private/set_cancel_on_disconnect".to_owned(),
            params: "{\"timeout_secs\":6}".to_owned(),
        }
    }

    /// Whether `renewals` is what a fresh connection calls for: for each
    /// scope that has channels, one call that subscribes all of them and no
    /// others; the private scope first, and only if the session has logged in
    /// again.
    pub open spec fn renews(&self, logged_in: bool, renewals: Seq<Resubscription>) -> bool {
        let private = logged_in && self.subscriptions.entries(RequestScope::Private).len() > 0;
        let public = self.subscriptions.entries(RequestScope::Public).len() > 0;
        &&& renewals.len() == (if private {
            1nat
        } else {
            0nat
        }) + (if public {
            1nat
        } else {
            0nat
        })
        &&& forall|i: int|
            0 <= i < renewals.len() ==> {
                let renewal = #[trigger] renewals[i];
                &&& names_of(renewal.channels@).no_duplicates()
                &&& names_of(renewal.channels@).to_set() == self.subscriptions.entries(
                    renewal.scope,
                ).dom()
                &&& renewal.call.method@ == subscribe_method(renewal.scope)
                &&& renewal.call.params@ == channels_params(names_of(renewal.channels@))
            }
        &&& renewals.len() == 2 ==> renewals[0].scope == RequestScope::Private && renewals[1].scope
            == RequestScope::Public
        &&& renewals.len() == 1 ==> renewals[0].scope == (if private {
            RequestScope::Private
        } else {
            RequestScope::Public
        })
        &&& self.subscriptions.entries(RequestScope::Private).dom().finite()
        &&& self.subscriptions.entries(RequestScope::Public).dom().finite()
    }

    /// What the caller of a request gets for the raw reply that arrived in
    /// its slot: the reply itself, or a transport error where the reply is
    /// the one that stands for a lost connection.
    pub fn accept_reply(reply: String) -> (result: Result<String, ClientError>)
        ensures
            match result {
                Ok(text) => text@ == reply@ && reply@ != connection_closed(),
                Err(error) => error is Transport && reply@ == connection_closed(),
            },
    {
        if same_text(reply.as_str(), "{\"error\":\"connection closed\"}") {
            Err(ClientError::Transport)
        } else {
            Ok(reply)
        }
    }

    /// What a reply says of the request it answers, for a caller who asks no
    /// more than whether the request was carried out. A reply with a result
    /// says that it was. A reply with an error object says that the server
    /// refused it, and `error` is that object as the caller decoded it; where
    /// it did not decode, and where the payload is no reply of either kind,
    /// the outcome is a parse error.
    pub fn reply_outcome(reply: &str, error: Option<RpcErrorResponse>) -> (outcome: Result<
        (),
        ClientError,
    >)
        ensures
            match reply_kind_of(reply.spec_bytes()) {
                ReplyKind::Success => outcome is Ok,
                ReplyKind::Failure => match error {
                    Some(refusal) => outcome == Err::<(), ClientError>(ClientError::Rpc(refusal)),
                    None => outcome matches Err(ClientError::Parse),
                },
                ReplyKind::Other => outcome matches Err(ClientError::Parse),
            },
    {
        match reply_kind(reply) {
            ReplyKind::Success => Ok(()),
            ReplyKind::Failure => match error {
                Some(refusal) => Err(ClientError::Rpc(refusal)),
                None => Err(ClientError::Parse),
            },
            ReplyKind::Other => Err(ClientError::Parse),
        }
    }

    /// The subscriptions to renew once the login on a fresh connection has
    /// ended: `login` is `None` where none was tried, the session having no
    /// credentials, and what the attempt came to otherwise. The session has
    /// logged in again only where the attempt was made and succeeded.
    pub fn renewals(&self, login: Option<Result<(), ClientError>>) -> (renewals: Vec<
        Resubscription,
    >)
        ensures
            self.renews(login matches Some(Ok(_)), renewals@),
    {
        match login {
            Some(Ok(_)) => self.resubscribe_all(true),
            _ => self.resubscribe_all(false),
        }
    }

    /// The subscriptions to renew on a fresh connection: for each scope that
    /// has channels, one call with all of them. The private scope comes
    /// first, and only if the session has logged in again.
    pub fn resubscribe_all(&self, logged_in: bool) -> (renewals: Vec<Resubscription>)
        ensures
            self.renews(logged_in, renewals@),
    {
        let mut renewals: Vec<Resubscription> = Vec::new();
        let private = self.subscriptions.channels(RequestScope::Private);
        let public = self.subscriptions.channels(RequestScope::Public);
        proof {
            names_of(private@).unique_seq_to_set();
            names_of(public@).unique_seq_to_set();
        }
        if logged_in && private.len() > 0 {
            let call = subscribe_call(RequestScope::Private, &private);
            renewals.push(Resubscription { scope: RequestScope::Private, channels: private, call });
        }
        if public.len() > 0 {
            let call = subscribe_call(RequestScope::Public, &public);
            renewals.push(Resubscription { scope: RequestScope::Public, channels: public, call });
        }
        renewals
    }

    /// Requests shutdown: the flag is set, every decode task is cancelled and
    /// both registries are emptied. The result is the command that closes the
    /// connection. Requests that wait stay in the table until the supervisor
    /// fails them on its way out, whether a connection is open or not.
    pub fn shutdown(&mut self) -> (command: InternalCommand)
        ensures
            command is Close,
            final(self).shut_down_from(old(self)),
            final(self).wf(),
    {
        self.shutdown_requested = true;
        self.subscriptions.clear();
        InternalCommand::Close
    }

    /// Whether the connectivity published last is `Connected`.
    pub fn is_connected(&self) -> (connected: bool)
        ensures
            connected == (self.connection_state == ExternalEvent::Connected),
    {
        self.connection_state == ExternalEvent::Connected
    }

    /// What an observer who last saw `seen` is woken with: the current
    /// connectivity if it differs, nothing if it does not.
    pub fn run_till_event(&self, seen: ExternalEvent) -> (event: Option<ExternalEvent>)
        ensures
            event == (if self.connection_state == seen {
                None
            } else {
                Some(self.connection_state)
            }),
    {
        if self.connection_state == seen {
            None
        } else {
            Some(self.connection_state)
        }
    }

    /// Answers one event on the open connection over the session's tables.
    pub fn on_connection_event(&mut self, event: ConnectionEvent) -> (step: ConnectionStep)
        ensures
            old(self).wf() ==> final(self).wf(),
            final(self).same_settings(old(self)),
            final(self).pending_requests.spec_next_id() == old(self).pending_requests.spec_next_id(),
            old(self).pending_requests.ids_are_past() ==> final(self).pending_requests.ids_are_past(),
            action_for(event, step.action),
            step.reset_deadline == (event is Arrived),
            names_unknown_channel(payload_of(event), step.note, step.unknown_channel),
            match payload_of(event) {
                Some(payload) => {
                    &&& step.note matches Note::Routed(routed)
                    &&& routed_as(
                        shape_of(payload),
                        routed,
                        old(self).pending_requests,
                        final(self).pending_requests,
                        old(self).subscriptions,
                        final(self).subscriptions,
                    )
                },
                None => {
                    &&& step.note == (if event matches ConnectionEvent::Arrived(Inbound::Binary(_)) {
                        Note::NotText
                    } else {
                        Note::Nothing
                    })
                    &&& final(self).pending_requests@ == old(self).pending_requests@
                    &&& final(self).subscriptions.same_as(&old(self).subscriptions)
                },
            },
    {
        connection_step(event, &mut self.pending_requests, &mut self.subscriptions)
    }

    /// Takes one step of the supervisor over this session: the step sees
    /// whether shutdown was requested, fails the waiting requests where it
    /// calls for that, and leaves the last state it announces as the
    /// session's connectivity. Subscriptions are never touched. Where the
    /// step says that a renewal is due, `login` and `renewals` say what it
    /// consists of.
    pub fn supervise(&mut self, supervisor: &mut Supervisor, event: SupervisorEvent) -> (step: SupervisorStep)
        ensures
            *final(supervisor) == old(supervisor).next(event, old(self).shutdown_requested).next,
            step.action == old(supervisor).next(event, old(self).shutdown_requested).action,
            step.announce@ == old(supervisor).next(event, old(self).shutdown_requested).announce,
            step.renew == old(supervisor).next(event, old(self).shutdown_requested).renew,
            final(self).pending_requests@ == (if old(supervisor).next(
                event,
                old(self).shutdown_requested,
            ).purge {
                Map::empty()
            } else {
                old(self).pending_requests@
            }),
            final(self).pending_requests.spec_next_id() == old(self).pending_requests.spec_next_id(),
            final(self).connection_state == last_published(
                old(self).connection_state,
                step.announce@,
            ),
            final(self).subscriptions == old(self).subscriptions,
            final(self).login_state == old(self).login_state,
            final(self).shutdown_requested == old(self).shutdown_requested,
    {
        let step = supervisor.step(event, self.shutdown_requested, &mut self.pending_requests);
        if step.announce.len() > 0 {
            self.connection_state = step.announce[step.announce.len() - 1];
        }
        step
    }
}

} // verus!
