//! The session's contact with code that is not verified here: the concurrent
//! maps that hold waiters and queues, the channel ends behind them, and the
//! JSON string encoder. Every contract in this file is believed, not proved.

use vstd::prelude::*;
use vstd::utf8::*;
use crate::types::SubscriptionChannel;

verus! {

/// `dashmap::DashMap`, opaque.
#[verifier::external_type_specification]
#[verifier::external_body]
#[verifier::reject_recursive_types(K)]
#[verifier::reject_recursive_types(V)]
#[verifier::reject_recursive_types(S)]
pub struct ExDashMap<K, V, S>(dashmap::DashMap<K, V, S>);

/// `tokio::sync::oneshot::Sender`, opaque.
#[verifier::external_type_specification]
#[verifier::external_body]
#[verifier::reject_recursive_types(T)]
pub struct ExOneshotSender<T>(tokio::sync::oneshot::Sender<T>);

/// `tokio::sync::mpsc::UnboundedSender`, opaque.
#[verifier::external_type_specification]
#[verifier::external_body]
#[verifier::reject_recursive_types(T)]
pub struct ExUnboundedSender<T>(tokio::sync::mpsc::UnboundedSender<T>);

/// `tokio::task::AbortHandle`, opaque.
#[verifier::external_type_specification]
#[verifier::external_body]
pub struct ExAbortHandle(tokio::task::AbortHandle);

/// The one-shot completion slot of a pending request.
pub type ResponseSender = tokio::sync::oneshot::Sender<String>;

/// The map from request id to completion slot.
pub type SlotMap = dashmap::DashMap<u64, ResponseSender>;

/// The map from channel name to forwarding queue and decode task.
pub type QueueMap = dashmap::DashMap<String, SubscriptionChannel>;

/// The entries that a slot map holds.
pub uninterp spec fn slot_entries(m: SlotMap) -> Map<u64, ResponseSender>;

/// The entries that a queue map holds, keyed by the characters of the channel name.
pub uninterp spec fn queue_entries(m: QueueMap) -> Map<Seq<char>, SubscriptionChannel>;

/// The channel names in a list, each as its characters.
pub open spec fn names_of(names: Seq<String>) -> Seq<Seq<char>> {
    names.map_values(|name: String| name@)
}

/// What `serde_json` writes for a JSON string with the given content,
/// surrounding quotes and escapes included.
pub uninterp spec fn json_quoted(content: Seq<char>) -> Seq<char>;

/// `DashMap::new`: a map without entries.
#[verifier::external_body]
pub(crate) fn slots_new() -> (m: SlotMap)
    ensures
        slot_entries(m) =~= Map::empty(),
{
    dashmap::DashMap::new()
}

/// `DashMap::insert` on a map held exclusively: the entry is set, whatever
/// stood under the key before is handed back.
#[verifier::external_body]
pub(crate) fn slots_insert(m: &mut SlotMap, id: u64, slot: ResponseSender) -> (previous: Option<
    ResponseSender,
>)
    ensures
        slot_entries(*final(m)) == slot_entries(*old(m)).insert(id, slot),
        previous == (if slot_entries(*old(m)).contains_key(id) {
            Some(slot_entries(*old(m))[id])
        } else {
            None
        }),
{
    m.insert(id, slot)
}

/// `DashMap::remove` on a map held exclusively: the entry under the key
/// leaves the map and its value is handed back, if there was one.
#[verifier::external_body]
pub(crate) fn slots_remove(m: &mut SlotMap, id: u64) -> (removed: Option<ResponseSender>)
    ensures
        slot_entries(*final(m)) == slot_entries(*old(m)).remove(id),
        removed == (if slot_entries(*old(m)).contains_key(id) {
            Some(slot_entries(*old(m))[id])
        } else {
            None
        }),
{
    m.remove(&id).map(|(_, slot)| slot)
}

/// `DashMap::iter`, keys only: every key of the map once, in no stated order.
#[verifier::external_body]
pub(crate) fn slots_ids(m: &SlotMap) -> (ids: Vec<u64>)
    ensures
        ids@.no_duplicates(),
        ids@.to_set() == slot_entries(*m).dom(),
{
    m.iter().map(|entry| *entry.key()).collect()
}

/// `DashMap::new`: a map without entries.
#[verifier::external_body]
pub(crate) fn queues_new() -> (m: QueueMap)
    ensures
        queue_entries(m) =~= Map::empty(),
{
    dashmap::DashMap::new()
}

/// `DashMap::contains_key`.
#[verifier::external_body]
pub(crate) fn queues_contains(m: &QueueMap, channel: &str) -> (found: bool)
    ensures
        found == queue_entries(*m).contains_key(channel@),
{
    m.contains_key(channel)
}

/// `DashMap::insert` on a map held exclusively: the entry is set, whatever
/// stood under the key before is handed back.
#[verifier::external_body]
pub(crate) fn queues_insert(m: &mut QueueMap, channel: String, queue: SubscriptionChannel) -> (previous:
    Option<SubscriptionChannel>)
    ensures
        queue_entries(*final(m)) == queue_entries(*old(m)).insert(channel@, queue),
        previous == (if queue_entries(*old(m)).contains_key(channel@) {
            Some(queue_entries(*old(m))[channel@])
        } else {
            None
        }),
{
    m.insert(channel, queue)
}

/// `DashMap::remove` on a map held exclusively: the entry under the key
/// leaves the map, and its key and value are handed back, if there was one.
#[verifier::external_body]
pub(crate) fn queues_remove(m: &mut QueueMap, channel: &str) -> (removed: Option<
    (String, SubscriptionChannel),
>)
    ensures
        queue_entries(*final(m)) == queue_entries(*old(m)).remove(channel@),
        removed.is_some() == queue_entries(*old(m)).contains_key(channel@),
        removed matches Some(entry) ==> entry.0@ == channel@ && entry.1 == queue_entries(
            *old(m),
        )[channel@],
{
    m.remove(channel)
}

/// `DashMap::iter`, keys only: every key of the map once, in no stated order.
#[verifier::external_body]
pub(crate) fn queues_names(m: &QueueMap) -> (names: Vec<String>)
    ensures
        names_of(names@).no_duplicates(),
        names_of(names@).to_set() == queue_entries(*m).dom(),
{
    m.iter().map(|entry| entry.key().clone()).collect()
}

/// `oneshot::Sender::send`: hands the text to the waiting receiver. Whether
/// it arrived depends on whether the receiver still exists.
#[verifier::external_body]
pub(crate) fn slot_send(slot: ResponseSender, text: String) -> (delivered: bool) {
    slot.send(text).is_ok()
}

/// `mpsc::UnboundedSender::send`: appends the text to the queue. It fails
/// when the receiving end is gone.
#[verifier::external_body]
pub(crate) fn queue_send(queue: &tokio::sync::mpsc::UnboundedSender<String>, text: String) -> (delivered:
    bool) {
    queue.send(text).is_ok()
}

/// `AbortHandle::abort`: asks the runtime to cancel the task.
#[verifier::external_body]
pub(crate) fn task_abort(task: &tokio::task::AbortHandle) {
    task.abort()
}

/// `serde_json::Value::String(..).to_string()`: the JSON string literal for
/// the given content.
#[verifier::external_body]
pub(crate) fn json_quote(content: &str) -> (literal: String)
    ensures
        literal@ == json_quoted(content@),
{
    serde_json::Value::String(content.to_owned()).to_string()
}

/// `String::from_utf8`: the text that the bytes encode, if they are valid
/// UTF-8.
#[verifier::external_body]
pub(crate) fn text_from_utf8(bytes: Vec<u8>) -> (text: Option<String>)
    ensures
        text.is_some() == valid_utf8(bytes@),
        text matches Some(t) ==> encode_utf8(t@) == bytes@,
{
    String::from_utf8(bytes).ok()
}

} // verus!
