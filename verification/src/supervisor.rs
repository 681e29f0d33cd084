//! The connection supervisor: connect, run one connection to its end, fail
//! what was waiting on it, back off, connect again, until shutdown.
//!
//! The caller opens sockets, runs connections and sleeps; after each of
//! these it reports here and is told what comes next.

use vstd::prelude::*;
use crate::pending::PendingRequests;
use crate::types::ExternalEvent;

verus! {

/// Milliseconds of backoff per attempt made.
pub const BACKOFF_STEP_MILLIS: u64 = 3000;

/// Where the supervisor stands.
#[derive(PartialEq, Eq, Structural, Clone, Copy, Debug)]
pub enum Phase {
    /// Not started yet.
    Idle,
    /// An attempt to connect is under way.
    Connecting,
    /// A connection is open and running.
    Connected,
    /// Asleep before the next attempt.
    Backoff,
    /// Stopped for good.
    Exited,
}

/// What the caller reports.
#[derive(PartialEq, Eq, Structural, Clone, Copy, Debug)]
pub enum SupervisorEvent {
    /// The supervisor is started, or its sleep is over or was cut short.
    Wake,
    /// The attempt to connect succeeded.
    ConnectSucceeded,
    /// The attempt to connect failed.
    ConnectFailed,
    /// The connection that was running has ended, for whatever reason.
    ConnectionEnded,
}

/// What the caller does next.
#[derive(PartialEq, Eq, Structural, Clone, Copy, Debug)]
pub enum SupervisorAction {
    /// Try to open a socket, and report how it went.
    Connect,
    /// Run the connection that was opened, and report when it has ended.
    Run,
    /// Sleep this many milliseconds, or until shutdown is requested, and
    /// report `Wake`.
    Sleep(u64),
    /// Stop: the supervisor has exited.
    Stop,
    /// The event was not expected where the supervisor stands; go on with
    /// what was under way.
    Wait,
}

/// The supervisor's own state.
#[derive(PartialEq, Eq, Structural, Clone, Copy, Debug)]
pub struct Supervisor {
    pub phase: Phase,
    /// Attempts made since the last successful connect.
    pub attempts: u32,
}

/// The result of one step, as a value.
pub struct Transition {
    pub next: Supervisor,
    pub action: SupervisorAction,
    /// The connectivity states to publish, in this order.
    pub announce: Seq<ExternalEvent>,
    /// Whether every waiting request is failed with the connection-closed
    /// reply.
    pub purge: bool,
    /// Whether the session is to be renewed on the connection that was just
    /// opened: logged in again, then subscribed again.
    pub renew: bool,
}

/// The answer to one event.
#[derive(Debug, Clone, PartialEq, Eq)]
pub struct SupervisorStep {
    pub action: SupervisorAction,
    /// The connectivity states to publish, in this order.
    pub announce: Vec<ExternalEvent>,
    /// Whether the session is to be renewed beside what `action` asks for:
    /// logged in again where it has credentials, then subscribed again to
    /// every registered channel.
    pub renew: bool,
}

/// The backoff after `attempts` attempts: proportional to their number.
pub open spec fn backoff_millis(attempts: u32) -> u64 {
    (BACKOFF_STEP_MILLIS * attempts) as u64
}

/// One more attempt; the count stops at the largest number it can hold.
pub open spec fn one_more(attempts: u32) -> u32 {
    if attempts == u32::MAX {
        attempts
    } else {
        (attempts + 1) as u32
    }
}

impl Supervisor {
    /// The event that the supervisor waits for in its phase.
    pub open spec fn awaits(self, event: SupervisorEvent) -> bool {
        match (self.phase, event) {
            (Phase::Idle, SupervisorEvent::Wake) => true,
            (Phase::Backoff, SupervisorEvent::Wake) => true,
            (Phase::Connecting, SupervisorEvent::ConnectSucceeded) => true,
            (Phase::Connecting, SupervisorEvent::ConnectFailed) => true,
            (Phase::Connected, SupervisorEvent::ConnectionEnded) => true,
            _ => false,
        }
    }

    /// Leaving for good: every waiting request is failed, so that no caller
    /// hangs, and `Exited` is announced.
    pub open spec fn exit(self, announce: Seq<ExternalEvent>) -> Transition {
        Transition {
            next: Supervisor { phase: Phase::Exited, attempts: self.attempts },
            action: SupervisorAction::Stop,
            announce: announce.push(ExternalEvent::Exited),
            purge: true,
            renew: false,
        }
    }

    /// Counting one more attempt and sleeping in proportion to the count.
    pub open spec fn back_off(self, announce: Seq<ExternalEvent>, purge: bool) -> Transition {
        Transition {
            next: Supervisor { phase: Phase::Backoff, attempts: one_more(self.attempts) },
            action: SupervisorAction::Sleep(backoff_millis(one_more(self.attempts))),
            announce,
            purge,
            renew: false,
        }
    }

    /// What one step does, given whether shutdown has been requested.
    ///
    /// Started or woken, the supervisor exits if shutdown was requested and
    /// connects otherwise. A successful connect resets the attempt count,
    /// announces `Connected`, runs the connection and has the session renewed
    /// on it. When the connection ends, `Disconnected` is announced and every
    /// waiting request is failed; then the supervisor exits if shutdown was
    /// requested and backs off otherwise. A failed connect backs off in the
    /// same way, or exits, with nothing announced but the exit. Wherever the
    /// supervisor exits, every waiting request is failed. An event that the
    /// phase does not wait for changes nothing.
    pub open spec fn next(self, event: SupervisorEvent, shutdown: bool) -> Transition {
        if self.phase == Phase::Exited {
            Transition {
                next: self,
                action: SupervisorAction::Stop,
                announce: seq![],
                purge: false,
                renew: false,
            }
        } else if !self.awaits(event) {
            Transition {
                next: self,
                action: SupervisorAction::Wait,
                announce: seq![],
                purge: false,
                renew: false,
            }
        } else {
            match event {
                SupervisorEvent::Wake => if shutdown {
                    self.exit(seq![])
                } else {
                    Transition {
                        next: Supervisor { phase: Phase::Connecting, attempts: self.attempts },
                        action: SupervisorAction::Connect,
                        announce: seq![],
                        purge: false,
                        renew: false,
                    }
                },
                SupervisorEvent::ConnectSucceeded => Transition {
                    next: Supervisor { phase: Phase::Connected, attempts: 0 },
                    action: SupervisorAction::Run,
                    announce: seq![ExternalEvent::Connected],
                    purge: false,
                    renew: true,
                },
                SupervisorEvent::ConnectFailed => if shutdown {
                    self.exit(seq![])
                } else {
                    self.back_off(seq![], false)
                },
                SupervisorEvent::ConnectionEnded => if shutdown {
                    self.exit(seq![ExternalEvent::Disconnected])
                } else {
                    self.back_off(seq![ExternalEvent::Disconnected], true)
                },
            }
        }
    }

    /// Once exited, the supervisor stays exited and only ever says `Stop`.
    pub proof fn lemma_exit_is_final(self, event: SupervisorEvent, shutdown: bool)
        requires
            self.phase == Phase::Exited,
        ensures
            self.next(event, shutdown).next == self,
            self.next(event, shutdown).action == SupervisorAction::Stop,
            self.next(event, shutdown).announce.len() == 0,
            !self.next(event, shutdown).purge,
            !self.next(event, shutdown).renew,
    {
    }

    /// Wherever the supervisor exits, it fails every waiting request on its
    /// way out: none is left unresolved by a shutdown, whether a connection
    /// was open or not.
    pub proof fn lemma_exit_purges(self, event: SupervisorEvent, shutdown: bool)
        requires
            self.phase != Phase::Exited,
            self.next(event, shutdown).next.phase == Phase::Exited,
        ensures
            shutdown,
            self.next(event, shutdown).purge,
            self.next(event, shutdown).action == SupervisorAction::Stop,
            self.next(event, shutdown).announce.last() == ExternalEvent::Exited,
    {
    }

    /// Shutdown ends a backoff at once: woken while shutdown is requested,
    /// a supervisor that was asleep, or had not started, exits without
    /// another attempt, and `Exited` is what it announces.
    pub proof fn lemma_shutdown_ends_backoff(self)
        requires
            self.phase == Phase::Backoff || self.phase == Phase::Idle,
        ensures
            self.next(SupervisorEvent::Wake, true).next.phase == Phase::Exited,
            self.next(SupervisorEvent::Wake, true).action == SupervisorAction::Stop,
            self.next(SupervisorEvent::Wake, true).announce == seq![ExternalEvent::Exited],
            self.next(SupervisorEvent::Wake, true).purge,
    {
    }

    /// With shutdown requested the supervisor exits within two of the events
    /// it waits for, wherever it stands, and it never sleeps on the way: the
    /// first event ends it, unless a connect had just succeeded, and then the
    /// end of that connection does. The step that ends it fails every waiting
    /// request.
    pub proof fn lemma_shutdown_is_bounded(self, first: SupervisorEvent)
        requires
            self.awaits(first),
        ensures
            !(self.next(first, true).action is Sleep),
            self.next(first, true).next.phase == Phase::Exited ==> self.next(first, true).purge,
            self.next(first, true).next.phase != Phase::Exited ==> ({
                let running = self.next(first, true).next;
                let last = running.next(SupervisorEvent::ConnectionEnded, true);
                &&& running.phase == Phase::Connected
                &&& last.next.phase == Phase::Exited
                &&& last.action == SupervisorAction::Stop
                &&& last.purge
            }),
    {
    }

    /// Whenever a connection ends, every waiting request is failed, and
    /// `Disconnected` is announced before anything else.
    pub proof fn lemma_connection_loss_purges(self, shutdown: bool)
        requires
            self.phase == Phase::Connected,
        ensures
            self.next(SupervisorEvent::ConnectionEnded, shutdown).purge,
            self.next(SupervisorEvent::ConnectionEnded, shutdown).announce[0]
                == ExternalEvent::Disconnected,
            self.next(SupervisorEvent::ConnectionEnded, shutdown).next.phase == (if shutdown {
                Phase::Exited
            } else {
                Phase::Backoff
            }),
    {
    }

    /// `Connected` is announced by a successful connect and by nothing else,
    /// and the session is renewed exactly when `Connected` is announced.
    pub proof fn lemma_connected_only_after_connect(self, event: SupervisorEvent, shutdown: bool)
        ensures
            self.next(event, shutdown).announce.contains(ExternalEvent::Connected) <==> (self.phase
                == Phase::Connecting && event == SupervisorEvent::ConnectSucceeded),
            self.next(event, shutdown).renew <==> self.next(event, shutdown).announce.contains(
                ExternalEvent::Connected,
            ),
    {
        let announce = self.next(event, shutdown).announce;
        if self.phase == Phase::Connecting && event == SupervisorEvent::ConnectSucceeded {
            assert(announce[0] == ExternalEvent::Connected);
        } else if announce.contains(ExternalEvent::Connected) {
            let i = choose|i: int| 0 <= i < announce.len() && announce[i] == ExternalEvent::Connected;
            assert(false);
        }
    }

    /// A supervisor that has not started.
    pub fn new() -> (supervisor: Supervisor)
        ensures
            supervisor == (Supervisor { phase: Phase::Idle, attempts: 0 }),
    {
        Supervisor { phase: Phase::Idle, attempts: 0 }
    }

    /// The backoff after the attempts made so far and one more.
    fn next_backoff(&mut self) -> (millis: u64)
        ensures
            final(self).phase == old(self).phase,
            final(self).attempts == one_more(old(self).attempts),
            millis == backoff_millis(final(self).attempts),
    {
        if self.attempts < u32::MAX {
            self.attempts = self.attempts + 1;
        }
        let attempts: u64 = self.attempts as u64;
        assert(BACKOFF_STEP_MILLIS * attempts <= u64::MAX) by (nonlinear_arith)
            requires
                attempts <= u32::MAX,
                BACKOFF_STEP_MILLIS == 3000,
        ;
        BACKOFF_STEP_MILLIS * attempts
    }

    /// Takes one step: moves to the next phase, fails the waiting requests
    /// where the step calls for it, and says what to do and what to publish.
    pub fn step(&mut self, event: SupervisorEvent, shutdown: bool, pending_requests: &mut PendingRequests) -> (step: SupervisorStep)
        ensures
            *final(self) == old(self).next(event, shutdown).next,
            step.action == old(self).next(event, shutdown).action,
            step.announce@ == old(self).next(event, shutdown).announce,
            step.renew == old(self).next(event, shutdown).renew,
            final(pending_requests)@ == (if old(self).next(event, shutdown).purge {
                Map::empty()
            } else {
                old(pending_requests)@
            }),
            final(pending_requests).spec_next_id() == old(pending_requests).spec_next_id(),
            old(pending_requests).ids_are_past() ==> final(pending_requests).ids_are_past(),
    {
        let mut announce: Vec<ExternalEvent> = Vec::new();
        match (self.phase, event) {
            (Phase::Exited, _) => SupervisorStep {
                action: SupervisorAction::Stop,
                announce,
                renew: false,
            },
            (Phase::Idle, SupervisorEvent::Wake) | (Phase::Backoff, SupervisorEvent::Wake) => {
                if shutdown {
                    self.leave(announce, pending_requests)
                } else {
                    self.phase = Phase::Connecting;
                    SupervisorStep { action: SupervisorAction::Connect, announce, renew: false }
                }
            },
            (Phase::Connecting, SupervisorEvent::ConnectSucceeded) => {
                self.phase = Phase::Connected;
                self.attempts = 0;
                announce.push(ExternalEvent::Connected);
                SupervisorStep { action: SupervisorAction::Run, announce, renew: true }
            },
            (Phase::Connecting, SupervisorEvent::ConnectFailed) => {
                if shutdown {
                    self.leave(announce, pending_requests)
                } else {
                    let millis = self.next_backoff();
                    self.phase = Phase::Backoff;
                    SupervisorStep { action: SupervisorAction::Sleep(millis), announce, renew: false }
                }
            },
            (Phase::Connected, SupervisorEvent::ConnectionEnded) => {
                announce.push(ExternalEvent::Disconnected);
                if shutdown {
                    self.leave(announce, pending_requests)
                } else {
                    let _ = pending_requests.fail_all();
                    let millis = self.next_backoff();
                    self.phase = Phase::Backoff;
                    SupervisorStep { action: SupervisorAction::Sleep(millis), announce, renew: false }
                }
            },
            _ => SupervisorStep { action: SupervisorAction::Wait, announce, renew: false },
        }
    }

    /// Exits: fails every waiting request, announces `Exited` after what was
    /// announced already, and stops.
    fn leave(&mut self, announced: Vec<ExternalEvent>, pending_requests: &mut PendingRequests) -> (step: SupervisorStep)
        ensures
            *final(self) == old(self).exit(announced@).next,
            step.action == SupervisorAction::Stop,
            step.announce@ == old(self).exit(announced@).announce,
            !step.renew,
            final(pending_requests)@ =~= Map::empty(),
            final(pending_requests).spec_next_id() == old(pending_requests).spec_next_id(),
            final(pending_requests).ids_are_past(),
    {
        let mut announce = announced;
        let _ = pending_requests.fail_all();
        self.phase = Phase::Exited;
        announce.push(ExternalEvent::Exited);
        SupervisorStep { action: SupervisorAction::Stop, announce, renew: false }
    }
}

} // verus!
