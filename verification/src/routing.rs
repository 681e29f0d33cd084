//! The message router: each inbound payload goes to the request that waits
//! for it, to the queue of its channel, or nowhere.

use vstd::prelude::*;
use vstd::string::*;
use crate::pending::PendingRequests;
use crate::registry::{other_scope, Forwarding, Registry};
use crate::scan::{classify, shape_of, Frame, Shape};
use crate::types::RequestScope;

verus! {

/// Where an inbound payload went.
#[derive(PartialEq, Eq, Structural, Clone, Copy, Debug)]
pub enum Routed {
    /// The reply completed the request with this id.
    Resolved(u64),
    /// The reply carried this id, no request waited under it, and it was
    /// dropped.
    Dropped(u64),
    /// A reply without an id: an answer that no request waits for.
    ControlReply,
    /// The notification went to the queue of its channel, registered under
    /// this scope.
    Forwarded(RequestScope),
    /// The channel of the notification was registered under this scope, but
    /// nothing reads its queue any more: the registration was removed.
    Stale(RequestScope),
    /// The notification names a channel that is not subscribed.
    UnknownChannel,
    /// The payload has neither shape.
    Unhandled,
}

/// Whether `routed` and the tables after it are a possible result of routing
/// a payload of the given shape over the tables before it.
pub open spec fn routed_as(
    shape: Shape,
    routed: Routed,
    pending_before: PendingRequests,
    pending_after: PendingRequests,
    subscriptions_before: Registry,
    subscriptions_after: Registry,
) -> bool {
    match shape {
        Shape::Reply(id) => {
            &&& routed == (if pending_before@.contains_key(id) {
                Routed::Resolved(id)
            } else {
                Routed::Dropped(id)
            })
            &&& pending_after@ == pending_before@.remove(id)
            &&& subscriptions_after.same_as(&subscriptions_before)
        },
        Shape::ControlReply => {
            &&& routed == Routed::ControlReply
            &&& pending_after@ == pending_before@
            &&& subscriptions_after.same_as(&subscriptions_before)
        },
        Shape::Notification(channel) => {
            &&& pending_after@ == pending_before@
            &&& match subscriptions_before.scope_of(channel) {
                None => routed == Routed::UnknownChannel && subscriptions_after.same_as(
                    &subscriptions_before,
                ),
                Some(scope) => {
                    ||| routed == Routed::Forwarded(scope) && subscriptions_after.same_as(
                        &subscriptions_before,
                    )
                    ||| {
                        &&& routed == Routed::Stale(scope)
                        &&& subscriptions_after.entries(scope) == subscriptions_before.entries(
                            scope,
                        ).remove(channel)
                        &&& subscriptions_after.entries(other_scope(scope))
                            == subscriptions_before.entries(other_scope(scope))
                    }
                },
            }
        },
        Shape::Unhandled => {
            &&& routed == Routed::Unhandled
            &&& pending_after@ == pending_before@
            &&& subscriptions_after.same_as(&subscriptions_before)
        },
    }
}

/// Routes one inbound payload.
///
/// A reply completes the request that waits under its id and removes it from
/// the table; without such a request it is dropped. A notification is handed
/// to the queue of its channel, looked for in the private registry first and
/// in the public one second. Whether the queue still has a reader is not for
/// this function to decide: it reports `Forwarded` when it has, and `Stale`,
/// with the registration removed, when it has not. Everything else leaves
/// the table and the registries as they were.
pub fn handle_incoming(text: &str, pending_requests: &mut PendingRequests, subscriptions: &mut Registry) -> (routed: Routed)
    ensures
        old(subscriptions).wf() ==> final(subscriptions).wf(),
        final(pending_requests).spec_next_id() == old(pending_requests).spec_next_id(),
        old(pending_requests).ids_are_past() ==> final(pending_requests).ids_are_past(),
        routed_as(
            shape_of(text.spec_bytes()),
            routed,
            *old(pending_requests),
            *final(pending_requests),
            *old(subscriptions),
            *final(subscriptions),
        ),
{
    match classify(text) {
        Frame::Reply(id) => {
            if pending_requests.resolve(id, text) {
                Routed::Resolved(id)
            } else {
                Routed::Dropped(id)
            }
        },
        Frame::ControlReply => Routed::ControlReply,
        Frame::Notification(channel) => match subscriptions.forward(channel, text) {
            Forwarding::Delivered(scope) => Routed::Forwarded(scope),
            Forwarding::Stale(scope) => Routed::Stale(scope),
            Forwarding::Unknown => Routed::UnknownChannel,
        },
        Frame::Unhandled => Routed::Unhandled,
    }
}

} // verus!
