use thalex_rust_sdk::routing::Routed;
use thalex_rust_sdk::runner::{ConnectionAction, ConnectionEvent, Inbound, Note};
use thalex_rust_sdk::supervisor::{Phase, Supervisor, SupervisorAction, SupervisorEvent};
use thalex_rust_sdk::types::{
    ClientError, ExternalEvent, InternalCommand, LoginState, RequestScope, RpcErrorResponse,
    SubscriptionChannel,
};
use thalex_rust_sdk::ws_client::WsClient;
use tokio::runtime::{Builder, Runtime};
use tokio::sync::mpsc::{unbounded_channel, UnboundedReceiver};
use tokio::sync::oneshot;
use tokio::task::JoinHandle;

fn runtime() -> Runtime {
    Builder::new_current_thread().build().unwrap()
}

fn subscription(rt: &Runtime) -> (SubscriptionChannel, UnboundedReceiver<String>, JoinHandle<()>) {
    let (sender, receiver) = unbounded_channel::<String>();
    let handle = rt.spawn(std::future::pending::<()>());
    let queue = SubscriptionChannel { sender, task: handle.abort_handle() };
    (queue, receiver, handle)
}

fn was_cancelled(rt: &Runtime, handle: JoinHandle<()>) -> bool {
    match rt.block_on(handle) {
        Ok(()) => false,
        Err(error) => error.is_cancelled(),
    }
}

fn credentials() -> LoginState {
    LoginState {
        key_id: "K1".to_string(),
        account_id: "A1".to_string(),
        key_path: "/keys/k1.pem".to_string(),
    }
}

fn sorted(mut names: Vec<String>) -> Vec<String> {
    names.sort();
    names
}

#[test]
fn a_new_session_is_disconnected_and_empty() {
    let client = WsClient::new(Some(credentials()));
    assert_eq!(client.connection_state, ExternalEvent::Disconnected);
    assert!(!client.is_connected());
    assert!(!client.shutdown_requested);
    assert_eq!(client.login_state, Some(credentials()));
    assert_eq!(client.pending_requests.next_id(), 1);
    assert!(client.subscriptions.channels(RequestScope::Public).is_empty());
    assert!(client.subscriptions.channels(RequestScope::Private).is_empty());
    let public = WsClient::new_public();
    assert_eq!(public.login_state, None);
    assert_eq!(public.connection_state, ExternalEvent::Disconnected);
}

#[test]
fn send_rpc_numbers_requests_and_files_their_slots() {
    let mut client = WsClient::new_public();
    let (a, mut ra) = oneshot::channel::<String>();
    let (b, mut rb) = oneshot::channel::<String>();
    let (id, command) = client.send_rpc("public/instruments", "{}", a);
    assert_eq!(id, 1);
    assert_eq!(
        command,
        InternalCommand::Send(
            "{\"jsonrpc\":\"2.0\",\"id\":1,\"method\":\"public/instruments\",\"params\":{}}"
                .to_string()
        )
    );
    let (id, command) = client.send_rpc("public/ticker", "{\"instrument_name\":\"X\"}", b);
    assert_eq!(id, 2);
    assert_eq!(
        command,
        InternalCommand::Send(
            "{\"jsonrpc\":\"2.0\",\"id\":2,\"method\":\"public/ticker\",\"params\":{\"instrument_name\":\"X\"}}"
                .to_string()
        )
    );
    let step = client.on_connection_event(ConnectionEvent::Arrived(Inbound::Text(
        "{\"id\":2,\"result\":{}}".to_string(),
    )));
    assert_eq!(step.note, Note::Routed(Routed::Resolved(2)));
    assert_eq!(rb.try_recv().unwrap(), "{\"id\":2,\"result\":{}}");
    assert!(ra.try_recv().is_err());
    let step = client.on_connection_event(ConnectionEvent::Arrived(Inbound::Text(
        "{\"id\":1,\"result\":[]}".to_string(),
    )));
    assert_eq!(step.note, Note::Routed(Routed::Resolved(1)));
    assert_eq!(ra.try_recv().unwrap(), "{\"id\":1,\"result\":[]}");
}

#[test]
fn abandon_rpc_removes_the_entry_and_reports_transport() {
    let mut client = WsClient::new_public();
    let (a, mut ra) = oneshot::channel::<String>();
    let (id, _) = client.send_rpc("public/instruments", "{}", a);
    assert_eq!(client.abandon_rpc(id), ClientError::Transport);
    let step = client.on_connection_event(ConnectionEvent::Arrived(Inbound::Text(
        "{\"id\":1,\"result\":[]}".to_string(),
    )));
    assert_eq!(step.note, Note::Routed(Routed::Dropped(1)));
    assert!(matches!(ra.try_recv(), Err(oneshot::error::TryRecvError::Closed)));
    assert_eq!(client.pending_requests.next_id(), 2);
}

#[test]
fn subscribe_registers_and_returns_the_call() {
    let rt = runtime();
    let mut client = WsClient::new_public();
    let (queue, mut rx, _handle) = subscription(&rt);
    let call = client.subscribe_channel(
        RequestScope::Public,
        "ticker.BTC-PERPETUAL.100ms".to_string(),
        queue,
    );
    assert_eq!(call.method, "public/subscribe");
    assert_eq!(call.params, "{\"channels\":[\"ticker.BTC-PERPETUAL.100ms\"]}");
    assert_eq!(
        client.subscriptions.find("ticker.BTC-PERPETUAL.100ms"),
        Some(RequestScope::Public)
    );
    assert_eq!(
        client.complete_subscription("ticker.BTC-PERPETUAL.100ms", Ok(())),
        Ok("ticker.BTC-PERPETUAL.100ms".to_string())
    );
    let text = "{\"channel_name\":\"ticker.BTC-PERPETUAL.100ms\",\"notification\":{\"mark_price\":1}}";
    let step = client.on_connection_event(ConnectionEvent::Arrived(Inbound::Text(text.to_string())));
    assert_eq!(step.note, Note::Routed(Routed::Forwarded(RequestScope::Public)));
    assert_eq!(rx.try_recv().unwrap(), text);
    assert!(rx.try_recv().is_err());
}

#[test]
fn a_refused_subscription_leaves_nothing_behind() {
    let rt = runtime();
    let mut client = WsClient::new_public();
    let (queue, _rx, handle) = subscription(&rt);
    let call =
        client.subscribe_channel(RequestScope::Private, "ticker.NOT_EXISTING.raw".to_string(), queue);
    assert_eq!(call.method, "private/subscribe");
    let refusal = ClientError::Rpc(RpcErrorResponse { code: 5, message: "unknown".to_string() });
    assert_eq!(
        client.complete_subscription("ticker.NOT_EXISTING.raw", Err(refusal.clone())),
        Err(refusal)
    );
    assert_eq!(client.subscriptions.find("ticker.NOT_EXISTING.raw"), None);
    assert!(was_cancelled(&rt, handle));
}

#[test]
fn a_subscription_that_could_not_be_sent_is_rolled_back() {
    let rt = runtime();
    let mut client = WsClient::new_public();
    let (queue, _rx, handle) = subscription(&rt);
    client.subscribe_channel(RequestScope::Public, "book.X".to_string(), queue);
    assert_eq!(
        client.complete_subscription("book.X", Err(ClientError::Transport)),
        Err(ClientError::Transport)
    );
    assert_eq!(client.subscriptions.find("book.X"), None);
    assert!(was_cancelled(&rt, handle));
}

#[test]
fn every_kind_of_failure_rolls_a_subscription_back() {
    let rt = runtime();
    for failure in [
        ClientError::Rpc(RpcErrorResponse { code: 8, message: "already subscribed".to_string() }),
        ClientError::Transport,
        ClientError::Parse,
        ClientError::Recv,
        ClientError::NotFound,
    ] {
        let mut client = WsClient::new_public();
        let (queue, _rx, handle) = subscription(&rt);
        client.subscribe_channel(RequestScope::Public, "lwt.X.raw".to_string(), queue);
        assert_eq!(
            client.complete_subscription("lwt.X.raw", Err(failure.clone())),
            Err(failure)
        );
        assert_eq!(client.subscriptions.find("lwt.X.raw"), None);
        assert!(was_cancelled(&rt, handle));
    }
}

#[test]
fn unsubscribe_removes_the_channel_under_its_scope() {
    let rt = runtime();
    let mut client = WsClient::new(Some(credentials()));
    let (a, _ra, ha) = subscription(&rt);
    let (b, _rb, hb) = subscription(&rt);
    client.subscribe_channel(RequestScope::Public, "ticker.A.raw".to_string(), a);
    client.subscribe_channel(RequestScope::Private, "account_orders".to_string(), b);
    let call = client.unsubscribe("account_orders").unwrap();
    assert_eq!(call.method, "private/unsubscribe");
    assert_eq!(call.params, "{\"channels\":[\"account_orders\"]}");
    assert!(was_cancelled(&rt, hb));
    assert_eq!(client.subscriptions.find("account_orders"), None);
    assert_eq!(client.subscriptions.find("ticker.A.raw"), Some(RequestScope::Public));
    let call = client.unsubscribe("ticker.A.raw").unwrap();
    assert_eq!(call.method, "public/unsubscribe");
    assert_eq!(call.params, "{\"channels\":[\"ticker.A.raw\"]}");
    assert!(was_cancelled(&rt, ha));
}

#[test]
fn unsubscribe_of_an_unknown_channel_is_not_found() {
    let rt = runtime();
    let mut client = WsClient::new_public();
    let (a, mut ra, _ha) = subscription(&rt);
    client.subscribe_channel(RequestScope::Public, "ticker.A.raw".to_string(), a);
    assert_eq!(client.unsubscribe("ticker.B.raw"), Err(ClientError::NotFound));
    assert_eq!(client.subscriptions.channels(RequestScope::Public), vec!["ticker.A.raw".to_string()]);
    assert!(client.subscriptions.channels(RequestScope::Private).is_empty());
    let text = "{\"channel_name\":\"ticker.A.raw\",\"notification\":1}";
    client.on_connection_event(ConnectionEvent::Arrived(Inbound::Text(text.to_string())));
    assert_eq!(ra.try_recv().unwrap(), text);
}

#[test]
fn unsubscribe_twice_errors_cleanly_the_second_time() {
    let rt = runtime();
    let mut client = WsClient::new_public();
    let (a, _ra, _ha) = subscription(&rt);
    client.subscribe_channel(RequestScope::Public, "ticker.A.raw".to_string(), a);
    assert!(client.unsubscribe("ticker.A.raw").is_ok());
    assert_eq!(client.unsubscribe("ticker.A.raw"), Err(ClientError::NotFound));
    assert_eq!(client.unsubscribe("ticker.A.raw"), Err(ClientError::NotFound));
}

#[test]
fn login_call_needs_credentials() {
    let client = WsClient::new(Some(credentials()));
    let call = client.login("signed.token").unwrap();
    assert_eq!(call.method, "public/login");
    assert_eq!(call.params, "{\"token\":\"signed.token\",\"account\":\"A1\"}");
    assert_eq!(WsClient::new_public().login("signed.token"), None);
}

#[test]
fn cancel_on_disconnect_call() {
    let call = WsClient::new_public().set_cancel_on_disconnect();
    assert_eq!(call.method, "private/set_cancel_on_disconnect");
    assert_eq!(call.params, "{\"timeout_secs\":6}");
}

#[test]
fn resubscription_covers_exactly_the_registered_channels() {
    let rt = runtime();
    let mut client = WsClient::new(Some(credentials()));
    let mut keep = Vec::new();
    for (scope, name) in [
        (RequestScope::Public, "ticker.A.raw"),
        (RequestScope::Public, "book.A.1.10.raw"),
        (RequestScope::Private, "account_orders"),
        (RequestScope::Public, "gone"),
    ] {
        let (queue, rx, handle) = subscription(&rt);
        client.subscribe_channel(scope, name.to_string(), queue);
        keep.push((rx, handle));
    }
    client.unsubscribe("gone").unwrap();
    let renewals = client.resubscribe_all(true);
    assert_eq!(renewals.len(), 2);
    assert_eq!(renewals[0].scope, RequestScope::Private);
    assert_eq!(renewals[0].channels, vec!["account_orders".to_string()]);
    assert_eq!(renewals[0].call.method, "private/subscribe");
    assert_eq!(renewals[0].call.params, "{\"channels\":[\"account_orders\"]}");
    assert_eq!(renewals[1].scope, RequestScope::Public);
    assert_eq!(renewals[1].call.method, "public/subscribe");
    assert_eq!(
        sorted(renewals[1].channels.clone()),
        vec!["book.A.1.10.raw".to_string(), "ticker.A.raw".to_string()]
    );
    let listed: serde_json::Value = serde_json::from_str(&renewals[1].call.params).unwrap();
    let listed: Vec<String> = listed["channels"]
        .as_array()
        .unwrap()
        .iter()
        .map(|name| name.as_str().unwrap().to_string())
        .collect();
    assert_eq!(listed, renewals[1].channels);
}

#[test]
fn private_channels_are_renewed_only_after_login() {
    let rt = runtime();
    let mut client = WsClient::new(Some(credentials()));
    let (a, _ra, _ha) = subscription(&rt);
    let (b, _rb, _hb) = subscription(&rt);
    client.subscribe_channel(RequestScope::Public, "ticker.A.raw".to_string(), a);
    client.subscribe_channel(RequestScope::Private, "account_orders".to_string(), b);
    let renewals = client.resubscribe_all(false);
    assert_eq!(renewals.len(), 1);
    assert_eq!(renewals[0].scope, RequestScope::Public);
    assert_eq!(renewals[0].channels, vec!["ticker.A.raw".to_string()]);
    assert_eq!(client.subscriptions.find("account_orders"), Some(RequestScope::Private));
}

#[test]
fn nothing_subscribed_means_nothing_to_renew() {
    let client = WsClient::new(Some(credentials()));
    assert!(client.resubscribe_all(true).is_empty());
    assert!(client.resubscribe_all(false).is_empty());
}

#[test]
fn a_lost_connection_fails_requests_and_keeps_subscriptions() {
    let rt = runtime();
    let mut client = WsClient::new(Some(credentials()));
    let mut supervisor = Supervisor::new();
    assert_eq!(client.supervise(&mut supervisor, SupervisorEvent::Wake).action, SupervisorAction::Connect);
    let step = client.supervise(&mut supervisor, SupervisorEvent::ConnectSucceeded);
    assert_eq!(step.action, SupervisorAction::Run);
    assert_eq!(step.announce, vec![ExternalEvent::Connected]);
    assert!(client.is_connected());
    let (queue, mut rx, handle) = subscription(&rt);
    client.subscribe_channel(RequestScope::Public, "ticker.A.raw".to_string(), queue);
    let mut receivers = Vec::new();
    for _ in 0..4 {
        let (tx, receiver) = oneshot::channel::<String>();
        client.send_rpc("public/ticker", "{}", tx);
        receivers.push(receiver);
    }
    let step = client.supervise(&mut supervisor, SupervisorEvent::ConnectionEnded);
    assert_eq!(step.action, SupervisorAction::Sleep(3000));
    assert_eq!(step.announce, vec![ExternalEvent::Disconnected]);
    assert_eq!(client.connection_state, ExternalEvent::Disconnected);
    assert!(!client.is_connected());
    for receiver in receivers.iter_mut() {
        assert_eq!(receiver.try_recv().unwrap(), "{\"error\":\"connection closed\"}");
    }
    assert_eq!(client.supervise(&mut supervisor, SupervisorEvent::Wake).action, SupervisorAction::Connect);
    client.supervise(&mut supervisor, SupervisorEvent::ConnectSucceeded);
    assert!(client.is_connected());
    let renewals = client.resubscribe_all(true);
    assert_eq!(renewals.len(), 1);
    assert_eq!(renewals[0].channels, vec!["ticker.A.raw".to_string()]);
    let text = "{\"channel_name\":\"ticker.A.raw\",\"notification\":2}";
    client.on_connection_event(ConnectionEvent::Arrived(Inbound::Text(text.to_string())));
    assert_eq!(rx.try_recv().unwrap(), text);
    assert!(!handle.is_finished());
    let (tx, _receiver) = oneshot::channel::<String>();
    assert_eq!(client.send_rpc("public/ticker", "{}", tx).0, 5);
}

#[test]
fn shutdown_is_idempotent_and_stops_every_decode_task() {
    let rt = runtime();
    let mut client = WsClient::new(Some(credentials()));
    let (a, _ra, ha) = subscription(&rt);
    let (b, _rb, hb) = subscription(&rt);
    client.subscribe_channel(RequestScope::Public, "ticker.A.raw".to_string(), a);
    client.subscribe_channel(RequestScope::Private, "account_orders".to_string(), b);
    let (tx, mut waiting) = oneshot::channel::<String>();
    client.send_rpc("public/ticker", "{}", tx);
    assert_eq!(client.shutdown(), InternalCommand::Close);
    assert!(client.shutdown_requested);
    assert!(was_cancelled(&rt, ha));
    assert!(was_cancelled(&rt, hb));
    assert!(client.subscriptions.channels(RequestScope::Public).is_empty());
    assert!(client.subscriptions.channels(RequestScope::Private).is_empty());
    assert_eq!(client.shutdown(), InternalCommand::Close);
    assert!(client.shutdown_requested);
    assert!(client.subscriptions.channels(RequestScope::Public).is_empty());
    assert_eq!(client.pending_requests.next_id(), 2);
    assert!(waiting.try_recv().is_err());
}

#[test]
fn shutdown_during_backoff_ends_the_supervisor_at_once() {
    let mut client = WsClient::new_public();
    let mut supervisor = Supervisor::new();
    client.supervise(&mut supervisor, SupervisorEvent::Wake);
    let step = client.supervise(&mut supervisor, SupervisorEvent::ConnectFailed);
    assert_eq!(step.action, SupervisorAction::Sleep(3000));
    assert_eq!(supervisor.phase, Phase::Backoff);
    client.shutdown();
    let step = client.supervise(&mut supervisor, SupervisorEvent::Wake);
    assert_eq!(step.action, SupervisorAction::Stop);
    assert_eq!(step.announce, vec![ExternalEvent::Exited]);
    assert_eq!(client.connection_state, ExternalEvent::Exited);
    assert_eq!(supervisor.phase, Phase::Exited);
    assert_eq!(
        client.supervise(&mut supervisor, SupervisorEvent::Wake).action,
        SupervisorAction::Stop
    );
}

#[test]
fn shutdown_on_an_open_connection_fails_what_waits() {
    let mut client = WsClient::new_public();
    let mut supervisor = Supervisor::new();
    client.supervise(&mut supervisor, SupervisorEvent::Wake);
    client.supervise(&mut supervisor, SupervisorEvent::ConnectSucceeded);
    let (tx, mut waiting) = oneshot::channel::<String>();
    client.send_rpc("public/ticker", "{}", tx);
    let command = client.shutdown();
    let step = client.on_connection_event(ConnectionEvent::Command(Some(command)));
    assert_eq!(step.action, ConnectionAction::CloseAndFinish);
    let step = client.on_connection_event(ConnectionEvent::ShutdownSignal(true));
    assert_eq!(step.action, ConnectionAction::CloseAndFinish);
    let step = client.supervise(&mut supervisor, SupervisorEvent::ConnectionEnded);
    assert_eq!(step.action, SupervisorAction::Stop);
    assert_eq!(step.announce, vec![ExternalEvent::Disconnected, ExternalEvent::Exited]);
    assert_eq!(client.connection_state, ExternalEvent::Exited);
    assert_eq!(waiting.try_recv().unwrap(), "{\"error\":\"connection closed\"}");
}

#[test]
fn observers_are_woken_by_a_change_only() {
    let mut client = WsClient::new_public();
    let mut supervisor = Supervisor::new();
    assert_eq!(client.run_till_event(ExternalEvent::Disconnected), None);
    assert_eq!(client.run_till_event(ExternalEvent::Connected), Some(ExternalEvent::Disconnected));
    client.supervise(&mut supervisor, SupervisorEvent::Wake);
    assert_eq!(client.run_till_event(ExternalEvent::Disconnected), None);
    client.supervise(&mut supervisor, SupervisorEvent::ConnectSucceeded);
    assert_eq!(client.run_till_event(ExternalEvent::Disconnected), Some(ExternalEvent::Connected));
    assert_eq!(client.run_till_event(ExternalEvent::Connected), None);
}

#[test]
fn accept_reply_turns_the_connection_closed_reply_into_a_transport_error() {
    assert_eq!(
        WsClient::accept_reply("{\"error\":\"connection closed\"}".to_string()),
        Err(ClientError::Transport)
    );
    assert_eq!(
        WsClient::accept_reply("{\"id\":1,\"result\":[]}".to_string()),
        Ok("{\"id\":1,\"result\":[]}".to_string())
    );
    assert_eq!(
        WsClient::accept_reply("{\"id\":1,\"error\":{\"code\":15}}".to_string()),
        Ok("{\"id\":1,\"error\":{\"code\":15}}".to_string())
    );
    assert_eq!(WsClient::accept_reply(String::new()), Ok(String::new()));
}

#[test]
fn a_request_failed_by_a_lost_connection_is_a_transport_error() {
    let mut client = WsClient::new_public();
    let mut supervisor = Supervisor::new();
    client.supervise(&mut supervisor, SupervisorEvent::Wake);
    client.supervise(&mut supervisor, SupervisorEvent::ConnectSucceeded);
    let (tx, mut waiting) = oneshot::channel::<String>();
    client.send_rpc("public/ticker", "{}", tx);
    client.supervise(&mut supervisor, SupervisorEvent::ConnectionEnded);
    assert_eq!(WsClient::accept_reply(waiting.try_recv().unwrap()), Err(ClientError::Transport));
}

#[test]
fn renewals_follow_the_outcome_of_the_login() {
    let rt = runtime();
    let mut client = WsClient::new(Some(credentials()));
    let (a, _ra, _ha) = subscription(&rt);
    let (b, _rb, _hb) = subscription(&rt);
    client.subscribe_channel(RequestScope::Public, "ticker.A.raw".to_string(), a);
    client.subscribe_channel(RequestScope::Private, "account.orders".to_string(), b);
    let renewed = client.renewals(Some(Ok(())));
    assert_eq!(renewed, client.resubscribe_all(true));
    assert_eq!(renewed.len(), 2);
    assert_eq!(renewed[0].scope, RequestScope::Private);
    assert_eq!(renewed[0].channels, vec!["account.orders".to_string()]);
    assert_eq!(renewed[1].scope, RequestScope::Public);
    let refusal = ClientError::Rpc(RpcErrorResponse { code: 19, message: "denied".to_string() });
    for login in [None, Some(Err(refusal)), Some(Err(ClientError::Transport))] {
        let renewed = client.renewals(login);
        assert_eq!(renewed, client.resubscribe_all(false));
        assert_eq!(renewed.len(), 1);
        assert_eq!(renewed[0].scope, RequestScope::Public);
        assert_eq!(renewed[0].channels, vec!["ticker.A.raw".to_string()]);
    }
}

#[test]
fn a_successful_connect_calls_for_a_renewal() {
    let mut client = WsClient::new(Some(credentials()));
    let mut supervisor = Supervisor::new();
    assert!(!client.supervise(&mut supervisor, SupervisorEvent::Wake).renew);
    assert!(client.supervise(&mut supervisor, SupervisorEvent::ConnectSucceeded).renew);
    assert!(!client.supervise(&mut supervisor, SupervisorEvent::ConnectionEnded).renew);
    assert!(!client.supervise(&mut supervisor, SupervisorEvent::Wake).renew);
    assert!(client.supervise(&mut supervisor, SupervisorEvent::ConnectSucceeded).renew);
}

#[test]
fn shutdown_during_backoff_fails_a_request_filed_during_backoff() {
    let mut client = WsClient::new_public();
    let mut supervisor = Supervisor::new();
    client.supervise(&mut supervisor, SupervisorEvent::Wake);
    client.supervise(&mut supervisor, SupervisorEvent::ConnectFailed);
    let (tx, mut waiting) = oneshot::channel::<String>();
    client.send_rpc("public/ticker", "{}", tx);
    client.shutdown();
    let step = client.supervise(&mut supervisor, SupervisorEvent::Wake);
    assert_eq!(step.action, SupervisorAction::Stop);
    assert_eq!(waiting.try_recv().unwrap(), "{\"error\":\"connection closed\"}");
    assert_eq!(client.connection_state, ExternalEvent::Exited);
}

#[test]
fn reply_outcome_tells_a_refusal_from_an_answer() {
    let refusal = RpcErrorResponse { code: 5, message: "unknown instrument".to_string() };
    assert_eq!(
        WsClient::reply_outcome("{\"id\":3,\"result\":[\"ticker.A.raw\"]}", None),
        Ok(())
    );
    assert_eq!(
        WsClient::reply_outcome("{\"id\":3,\"result\":[]}", Some(refusal.clone())),
        Ok(())
    );
    assert_eq!(
        WsClient::reply_outcome(
            "{\"id\":3,\"error\":{\"code\":5,\"message\":\"unknown instrument\"}}",
            Some(refusal.clone())
        ),
        Err(ClientError::Rpc(refusal.clone()))
    );
    assert_eq!(
        WsClient::reply_outcome("{\"id\":3,\"error\":\"odd\"}", None),
        Err(ClientError::Parse)
    );
    assert_eq!(WsClient::reply_outcome("{\"id\":3}", None), Err(ClientError::Parse));
    assert_eq!(WsClient::reply_outcome("nonsense", Some(refusal)), Err(ClientError::Parse));
}

#[test]
fn a_refused_login_keeps_private_channels_from_renewal() {
    let rt = runtime();
    let mut client = WsClient::new(Some(credentials()));
    let (a, _ra, _ha) = subscription(&rt);
    let (b, _rb, _hb) = subscription(&rt);
    client.subscribe_channel(RequestScope::Public, "ticker.A.raw".to_string(), a);
    client.subscribe_channel(RequestScope::Private, "account.orders".to_string(), b);
    let refusal = RpcErrorResponse { code: 19, message: "authentication failed".to_string() };
    let login = WsClient::reply_outcome(
        "{\"id\":1,\"error\":{\"code\":19,\"message\":\"authentication failed\"}}",
        Some(refusal),
    );
    let renewed = client.renewals(Some(login));
    assert_eq!(renewed.len(), 1);
    assert_eq!(renewed[0].scope, RequestScope::Public);
    let login = WsClient::reply_outcome("{\"id\":2,\"result\":{}}", None);
    let renewed = client.renewals(Some(login));
    assert_eq!(renewed.len(), 2);
    assert_eq!(renewed[0].scope, RequestScope::Private);
}
