//! The subscription registry: for each scope, the channels that are
//! subscribed, each with its forwarding queue and its decode task.

use vstd::prelude::*;
use crate::outside::{names_of, queue_entries, queue_send, queues_contains, queues_insert, queues_names, queues_new, queues_remove, task_abort, QueueMap};
use crate::types::{RequestScope, SubscriptionChannel};

verus! {

/// The scope that is not `scope`.
pub open spec fn other_scope(scope: RequestScope) -> RequestScope {
    match scope {
        RequestScope::Public => RequestScope::Private,
        RequestScope::Private => RequestScope::Public,
    }
}

/// What became of a notification that was handed to the registry.
#[derive(PartialEq, Eq, Structural, Clone, Copy, Debug)]
pub enum Forwarding {
    /// The queue of the channel, registered under this scope, took it.
    Delivered(RequestScope),
    /// The channel was registered under this scope but nothing reads its
    /// queue any more; its registration was removed.
    Stale(RequestScope),
    /// The channel is in neither registry.
    Unknown,
}

/// The registries of both scopes.
pub struct Registry {
    public: QueueMap,
    private: QueueMap,
}

impl Registry {
    /// The registrations of one scope, by channel name.
    pub closed spec fn entries(&self, scope: RequestScope) -> Map<Seq<char>, SubscriptionChannel> {
        match scope {
            RequestScope::Public => queue_entries(self.public),
            RequestScope::Private => queue_entries(self.private),
        }
    }

    /// The scope that holds `channel`, the private registry looked at first.
    pub open spec fn scope_of(&self, channel: Seq<char>) -> Option<RequestScope> {
        if self.entries(RequestScope::Private).contains_key(channel) {
            Some(RequestScope::Private)
        } else if self.entries(RequestScope::Public).contains_key(channel) {
            Some(RequestScope::Public)
        } else {
            None
        }
    }

    /// No channel name is registered under both scopes.
    pub open spec fn wf(&self) -> bool {
        forall|channel: Seq<char>|
            !(self.entries(RequestScope::Public).contains_key(channel) && self.entries(
                RequestScope::Private,
            ).contains_key(channel))
    }

    /// Both registries hold the same as those of `other`.
    pub open spec fn same_as(&self, other: &Registry) -> bool {
        &&& self.entries(RequestScope::Public) == other.entries(RequestScope::Public)
        &&& self.entries(RequestScope::Private) == other.entries(RequestScope::Private)
    }

    /// Neither registry holds anything.
    pub open spec fn is_empty(&self) -> bool {
        &&& self.entries(RequestScope::Public) =~= Map::empty()
        &&& self.entries(RequestScope::Private) =~= Map::empty()
    }

    /// Unsubscribing twice is safe. Whatever a registry held, once a channel
    /// has been removed from both scopes it is in neither, so removing it
    /// again finds nothing and changes nothing.
    pub proof fn lemma_removed_stays_removed(before: Registry, after: Registry, channel: Seq<char>)
        requires
            after.entries(RequestScope::Public) == before.entries(RequestScope::Public).remove(
                channel,
            ),
            after.entries(RequestScope::Private) == before.entries(RequestScope::Private).remove(
                channel,
            ),
        ensures
            after.scope_of(channel).is_none(),
            after.entries(RequestScope::Public).remove(channel) == after.entries(
                RequestScope::Public,
            ),
            after.entries(RequestScope::Private).remove(channel) == after.entries(
                RequestScope::Private,
            ),
    {
        assert(after.entries(RequestScope::Public).remove(channel) =~= after.entries(
            RequestScope::Public,
        ));
        assert(after.entries(RequestScope::Private).remove(channel) =~= after.entries(
            RequestScope::Private,
        ));
    }

    /// Two empty registries.
    pub fn new() -> (registry: Registry)
        ensures
            registry.is_empty(),
            registry.wf(),
    {
        Registry { public: queues_new(), private: queues_new() }
    }

    /// The scope under which `channel` is registered, if it is.
    pub fn find(&self, channel: &str) -> (scope: Option<RequestScope>)
        ensures
            scope == self.scope_of(channel@),
    {
        if queues_contains(&self.private, channel) {
            Some(RequestScope::Private)
        } else if queues_contains(&self.public, channel) {
            Some(RequestScope::Public)
        } else {
            None
        }
    }

    /// Registers `queue` for `channel` under `scope`. A registration that the
    /// name already had, under either scope, is replaced and its decode task
    /// cancelled; the result says whether there was one.
    pub fn register(&mut self, scope: RequestScope, channel: String, queue: SubscriptionChannel) -> (replaced: bool)
        ensures
            old(self).wf() ==> final(self).wf(),
            final(self).entries(scope) == old(self).entries(scope).insert(channel@, queue),
            final(self).entries(other_scope(scope)) == old(self).entries(other_scope(scope)).remove(
                channel@,
            ),
            replaced == old(self).scope_of(channel@).is_some(),
    {
        let elsewhere = match scope {
            RequestScope::Public => queues_remove(&mut self.private, channel.as_str()),
            RequestScope::Private => queues_remove(&mut self.public, channel.as_str()),
        };
        let here = match scope {
            RequestScope::Public => queues_insert(&mut self.public, channel, queue),
            RequestScope::Private => queues_insert(&mut self.private, channel, queue),
        };
        let mut replaced = false;
        if let Some((_, former)) = elsewhere {
            task_abort(&former.task);
            replaced = true;
        }
        if let Some(former) = here {
            task_abort(&former.task);
            replaced = true;
        }
        replaced
    }

    /// Removes the registration of `channel` and cancels its decode task.
    /// Returns the scope that held it, or `None`, with nothing changed, when
    /// neither did.
    pub fn remove(&mut self, channel: &str) -> (scope: Option<RequestScope>)
        ensures
            scope == old(self).scope_of(channel@),
            final(self).entries(RequestScope::Public) == old(self).entries(
                RequestScope::Public,
            ).remove(channel@),
            final(self).entries(RequestScope::Private) == old(self).entries(
                RequestScope::Private,
            ).remove(channel@),
            scope.is_none() ==> final(self).same_as(old(self)),
            final(self).scope_of(channel@).is_none(),
            old(self).wf() ==> final(self).wf(),
    {
        let ghost public_before = self.entries(RequestScope::Public);
        let ghost private_before = self.entries(RequestScope::Private);
        let private = queues_remove(&mut self.private, channel);
        let public = queues_remove(&mut self.public, channel);
        let mut scope = None;
        if let Some((_, queue)) = public {
            task_abort(&queue.task);
            scope = Some(RequestScope::Public);
        }
        if let Some((_, queue)) = private {
            task_abort(&queue.task);
            scope = Some(RequestScope::Private);
        }
        proof {
            if scope.is_none() {
                assert(public_before.remove(channel@) =~= public_before);
                assert(private_before.remove(channel@) =~= private_before);
            }
        }
        scope
    }

    /// Settles what becomes of a registration after its queue was tried. The
    /// registration of `channel`, taken out of the registry of `scope` for
    /// the attempt, goes back in if the queue took the text; if nothing reads
    /// the queue any more it stays out and is dropped.
    pub fn settle(&mut self, scope: RequestScope, channel: String, queue: SubscriptionChannel, delivered: bool) -> (outcome: Forwarding)
        ensures
            outcome == (if delivered {
                Forwarding::Delivered(scope)
            } else {
                Forwarding::Stale(scope)
            }),
            final(self).entries(scope) == (if delivered {
                old(self).entries(scope).insert(channel@, queue)
            } else {
                old(self).entries(scope)
            }),
            final(self).entries(other_scope(scope)) == old(self).entries(other_scope(scope)),
            old(self).wf() && !old(self).entries(other_scope(scope)).contains_key(channel@)
                ==> final(self).wf(),
    {
        if delivered {
            let _ = match scope {
                RequestScope::Public => queues_insert(&mut self.public, channel, queue),
                RequestScope::Private => queues_insert(&mut self.private, channel, queue),
            };
            Forwarding::Delivered(scope)
        } else {
            Forwarding::Stale(scope)
        }
    }

    /// Hands `text` to the queue of `channel`, the private registry looked at
    /// first: the registration is taken out, its queue is tried with the text
    /// as it came, and `settle` decides by the outcome whether it goes back,
    /// under the name it had. What the queue answers depends on whether its
    /// reader still exists.
    pub fn forward(&mut self, channel: &str, text: &str) -> (outcome: Forwarding)
        ensures
            old(self).wf() ==> final(self).wf(),
            match old(self).scope_of(channel@) {
                None => outcome == Forwarding::Unknown && final(self).same_as(old(self)),
                Some(scope) => {
                    ||| outcome == Forwarding::Delivered(scope) && final(self).same_as(old(self))
                    ||| {
                        &&& outcome == Forwarding::Stale(scope)
                        &&& final(self).entries(scope) == old(self).entries(scope).remove(
                            channel@,
                        )
                        &&& final(self).entries(other_scope(scope)) == old(self).entries(
                            other_scope(scope),
                        )
                    }
                },
            },
    {
        let ghost public_before = self.entries(RequestScope::Public);
        let ghost private_before = self.entries(RequestScope::Private);
        if let Some((name, queue)) = queues_remove(&mut self.private, channel) {
            let delivered = queue_send(&queue.sender, text.to_owned());
            assert(private_before.remove(channel@).insert(channel@, queue) =~= private_before);
            self.settle(RequestScope::Private, name, queue, delivered)
        } else if let Some((name, queue)) = queues_remove(&mut self.public, channel) {
            assert(private_before.remove(channel@) =~= private_before);
            let delivered = queue_send(&queue.sender, text.to_owned());
            assert(public_before.remove(channel@).insert(channel@, queue) =~= public_before);
            self.settle(RequestScope::Public, name, queue, delivered)
        } else {
            assert(public_before.remove(channel@) =~= public_before);
            assert(private_before.remove(channel@) =~= private_before);
            Forwarding::Unknown
        }
    }

    /// The channels registered under `scope`: each once, in no stated order.
    pub fn channels(&self, scope: RequestScope) -> (names: Vec<String>)
        ensures
            names_of(names@).no_duplicates(),
            names_of(names@).to_set() == self.entries(scope).dom(),
    {
        match scope {
            RequestScope::Public => queues_names(&self.public),
            RequestScope::Private => queues_names(&self.private),
        }
    }

    /// Cancels every decode task and removes every registration.
    pub fn clear(&mut self)
        ensures
            final(self).is_empty(),
            final(self).wf(),
    {
        let private_names = queues_names(&self.private);
        let public_names = queues_names(&self.public);
        clear_map(&mut self.private, &private_names);
        clear_map(&mut self.public, &public_names);
    }
}

/// Removes the entries under `names` from `map`, cancelling the decode task
/// of each.
fn clear_map(map: &mut QueueMap, names: &Vec<String>)
    requires
        names_of(names@).to_set() == queue_entries(*old(map)).dom(),
    ensures
        queue_entries(*final(map)) =~= Map::empty(),
{
    let mut i: usize = 0;
    while i < names.len()
        invariant
            i <= names.len(),
            forall|channel: Seq<char>|
                queue_entries(*map).contains_key(channel) ==> exists|k: int|
                    i <= k < names.len() && #[trigger] names_of(names@)[k] == channel,
        decreases names.len() - i,
    {
        let ghost before = queue_entries(*map);
        if let Some((_, queue)) = queues_remove(map, names[i].as_str()) {
            task_abort(&queue.task);
        }
        proof {
            assert(names_of(names@)[i as int] == names@[i as int]@);
            assert forall|channel: Seq<char>|
                queue_entries(*map).contains_key(channel) implies exists|k: int|
                i + 1 <= k < names.len() && #[trigger] names_of(names@)[k] == channel by {
                assert(before.contains_key(channel));
                let k = choose|k: int|
                    i <= k < names.len() && #[trigger] names_of(names@)[k] == channel;
                assert(k != i);
            }
        }
        i += 1;
    }
}

} // verus!
