//! The boot/run sequencer: the order in which a run starts the relay, hands the
//! shutdown handle to the host, boots the engine, checks for a shutdown requested
//! during boot, announces readiness and syncs. The caller performs each action and
//! reports what came of it as the next event.
use vstd::prelude::*;
use crate::config::{config_of, config_parses, is_invalid_config_message, load_config};
use crate::fault::{classify_outcome, reported, Failure};

verus! {

/// Where a run stands.
#[derive(Clone, Copy, PartialEq, Eq, Structural)]
pub enum Phase {
    /// The configuration parsed; the progress relay is to be started.
    StartingRelay,
    /// The relay runs; the shutdown handle is to be handed to the host.
    HandingOver,
    /// The host holds the handle; the engine is booting.
    Booting,
    /// The engine booted; the cancellation channel is to be probed.
    Probing,
    /// No shutdown was requested; readiness is being announced.
    Announcing,
    /// The engine is syncing until it stops or is canceled.
    Syncing,
    /// The run is over.
    Finished,
}

/// What came of the last action.
pub enum Event {
    /// The relay has begun its receive loop.
    RelayStarted,
    /// `onBooting` was called with this token, which names the run's shutdown handle.
    HandedOver(u64),
    /// The engine's boot returned.
    Booted(Result<(), Failure>),
    /// The cancellation channel was probed after boot; `requested` is true unless it
    /// was still empty. The endpoints are those the booted engine serves.
    Probed { requested: bool, electrum: Option<String>, http: Option<String> },
    /// The readiness callbacks were made.
    Announced,
    /// The engine's sync returned.
    SyncReturned,
}

/// A readiness callback on the host.
pub enum ReadyCall {
    /// `onElectrumReady(address)`.
    ElectrumReady(String),
    /// `onHttpReady(address)`.
    HttpReady(String),
    /// `onReady()`.
    Ready,
}

/// What the caller is to do next.
pub enum Action {
    /// Build the shutdown channel, store its handle and call `onBooting` with the token.
    HandOverShutdown,
    /// Boot the engine.
    Boot,
    /// Probe the cancellation channel without blocking.
    ProbeShutdown,
    /// Make these readiness callbacks, in order.
    Announce(Vec<ReadyCall>),
    /// Run the engine's blocking sync with the cancellation receiver.
    Sync,
    /// The run is over: first take back and drop the handle that `release` names, if
    /// any, which ends the progress stream; then return normally, or raise the typed
    /// exception with `message`.
    Finish { message: Option<String>, release: Option<u64> },
    /// The event does not belong to this phase; nothing to do.
    Wait,
}

/// The readiness callbacks for the served endpoints: Electrum, then HTTP, each when
/// served, then `onReady`.
pub open spec fn ready_calls(electrum: Option<String>, http: Option<String>) -> Seq<ReadyCall> {
    let e = match electrum {
        Some(a) => seq![ReadyCall::ElectrumReady(a)],
        None => Seq::empty(),
    };
    let h = match http {
        Some(a) => seq![ReadyCall::HttpReady(a)],
        None => Seq::empty(),
    };
    e + h + seq![ReadyCall::Ready]
}

/// The text of an optional message.
pub open spec fn message_view(m: Option<String>) -> Option<Seq<char>> {
    match m {
        Some(s) => Some(s@),
        None => None,
    }
}

/// The phase after an event.
pub open spec fn transition(p: Phase, e: Event) -> Phase {
    match (p, e) {
        (Phase::StartingRelay, Event::RelayStarted) => Phase::HandingOver,
        (Phase::HandingOver, Event::HandedOver(_)) => Phase::Booting,
        (Phase::Booting, Event::Booted(Ok(()))) => Phase::Probing,
        (Phase::Booting, Event::Booted(Err(_))) => Phase::Finished,
        (Phase::Probing, Event::Probed { requested, .. }) => if requested {
            Phase::Finished
        } else {
            Phase::Announcing
        },
        (Phase::Announcing, Event::Announced) => Phase::Syncing,
        (Phase::Syncing, Event::SyncReturned) => Phase::Finished,
        _ => p,
    }
}

/// The token of the run's shutdown handle after an event: the one handed over, once
/// it is.
pub open spec fn token_after(p: Phase, t: u64, e: Event) -> u64 {
    match (p, e) {
        (Phase::HandingOver, Event::HandedOver(k)) => k,
        _ => t,
    }
}

/// Whether `a` is the action owed for event `e` in phase `p`, where `t` is the token
/// of the run's shutdown handle.
pub open spec fn action_owed(p: Phase, t: u64, e: Event, a: Action) -> bool {
    match (p, e) {
        (Phase::StartingRelay, Event::RelayStarted) => a is HandOverShutdown,
        (Phase::HandingOver, Event::HandedOver(_)) => a is Boot,
        (Phase::Booting, Event::Booted(Ok(()))) => a is ProbeShutdown,
        (Phase::Booting, Event::Booted(Err(f))) => a is Finish && message_view(a->message)
            == reported(Err(f)) && a->release == Some(t),
        (Phase::Probing, Event::Probed { requested, electrum, http }) => if requested {
            a is Finish && a->message is None && a->release is None
        } else {
            a is Announce && a->Announce_0@ == ready_calls(electrum, http)
        },
        (Phase::Announcing, Event::Announced) => a is Sync,
        (Phase::Syncing, Event::SyncReturned) => a is Finish && a->message is None
            && a->release is None,
        _ => a is Wait,
    }
}

/// One run of the bridge.
pub struct Sequencer {
    phase: Phase,
    token: u64,
}

impl Sequencer {
    /// The phase the run is in.
    pub closed spec fn phase_of(&self) -> Phase {
        self.phase
    }

    /// The token of the run's shutdown handle, once handed over.
    pub closed spec fn token_of(&self) -> u64 {
        self.token
    }

    /// The phase the run is in.
    pub fn phase(&self) -> (r: Phase)
        ensures
            r == self.phase_of(),
    {
        self.phase
    }

    /// Starts a run from the configuration document. A document that does not parse
    /// ends the run at once with the invalid-configuration message, before any
    /// resource is made; otherwise the relay is to be started next.
    pub fn begin(json: &str) -> (r: Result<(Sequencer, bwt::Config), String>)
        ensures
            r is Ok <==> config_parses(json@),
            r is Ok ==> r->Ok_0.0.phase_of() == Phase::StartingRelay && r->Ok_0.0.token_of() == 0
                && r->Ok_0.1 == config_of(json@),
            r is Err ==> is_invalid_config_message(r->Err_0@),
    {
        match load_config(json) {
            Ok(config) => Ok((Sequencer { phase: Phase::StartingRelay, token: 0 }, config)),
            Err(m) => Err(m),
        }
    }

    /// Takes the next event and returns the action it calls for.
    pub fn step(&mut self, event: Event) -> (a: Action)
        ensures
            final(self).phase_of() == transition(old(self).phase_of(), event),
            final(self).token_of() == token_after(old(self).phase_of(), old(self).token_of(), event),
            action_owed(old(self).phase_of(), old(self).token_of(), event, a),
    {
        match (self.phase, event) {
            (Phase::StartingRelay, Event::RelayStarted) => {
                self.phase = Phase::HandingOver;
                Action::HandOverShutdown
            },
            (Phase::HandingOver, Event::HandedOver(token)) => {
                self.phase = Phase::Booting;
                self.token = token;
                Action::Boot
            },
            (Phase::Booting, Event::Booted(Ok(()))) => {
                self.phase = Phase::Probing;
                Action::ProbeShutdown
            },
            (Phase::Booting, Event::Booted(Err(f))) => {
                self.phase = Phase::Finished;
                let outcome: Result<(), Failure> = Err(f);
                let message = match classify_outcome(&outcome) {
                    Ok(()) => None,
                    Err(m) => Some(m),
                };
                Action::Finish { message, release: Some(self.token) }
            },
            (Phase::Probing, Event::Probed { requested, electrum, http }) => {
                if requested {
                    self.phase = Phase::Finished;
                    Action::Finish { message: None, release: None }
                } else {
                    self.phase = Phase::Announcing;
                    Action::Announce(ready_list(electrum, http))
                }
            },
            (Phase::Announcing, Event::Announced) => {
                self.phase = Phase::Syncing;
                Action::Sync
            },
            (Phase::Syncing, Event::SyncReturned) => {
                self.phase = Phase::Finished;
                Action::Finish { message: None, release: None }
            },
            _ => Action::Wait,
        }
    }
}

/// The phase reached from `p` after a sequence of events.
pub open spec fn phase_after(p: Phase, events: Seq<Event>) -> Phase
    decreases events.len(),
{
    if events.len() == 0 {
        p
    } else {
        phase_after(transition(p, events[0]), events.drop_first())
    }
}

/// A shutdown found by the probe after boot ends the run as a normal return, and
/// once a run is over no event brings any further action, readiness callbacks
/// included.
pub proof fn lemma_no_ready_after_cancel(
    t: u64,
    electrum: Option<String>,
    http: Option<String>,
    a: Action,
    events: Seq<Event>,
)
    ensures
        transition(Phase::Probing, Event::Probed { requested: true, electrum, http })
            == Phase::Finished,
        action_owed(Phase::Probing, t, Event::Probed { requested: true, electrum, http }, a) ==> (
        a is Finish && a->message is None),
        phase_after(Phase::Finished, events) == Phase::Finished,
        forall|e: Event| #[trigger] action_owed(Phase::Finished, t, e, a) ==> a is Wait,
    decreases events.len(),
{
    if events.len() > 0 {
        lemma_no_ready_after_cancel(t, electrum, http, a, events.drop_first());
    }
}

/// A shutdown the host requests while the engine boots ends the run as a normal
/// return, with no exception: either boot gives up with the cancellation marker, or it
/// completes and the probe finds the request. No readiness callback is owed either way.
pub proof fn lemma_shutdown_during_boot_returns_normally(
    t: u64,
    electrum: Option<String>,
    http: Option<String>,
    a: Action,
)
    ensures
        action_owed(Phase::Booting, t, Event::Booted(Err(Failure::Canceled)), a) ==> (a is Finish
            && a->message is None),
        action_owed(Phase::Probing, t, Event::Probed { requested: true, electrum, http }, a) ==> (
        a is Finish && a->message is None),
{
}

/// Readiness is announced only after a boot whose probe found no shutdown request;
/// boot is called only once the host holds the handle; sync only after readiness was
/// announced.
pub proof fn lemma_action_order(p: Phase, t: u64, e: Event, a: Action)
    requires
        action_owed(p, t, e, a),
    ensures
        a is Boot ==> p == Phase::HandingOver && e is HandedOver,
        a is Announce ==> p == Phase::Probing && e is Probed && !e->requested,
        a is Sync ==> p == Phase::Announcing && e is Announced,
{
}

/// A boot that fails ends the run with the engine's error as the exception's message,
/// unless it was a cancellation, and releases the run's shutdown handle, so that the
/// progress stream ends and its relay stops.
pub proof fn lemma_boot_failure_releases(t: u64, f: Failure, a: Action)
    requires
        action_owed(Phase::Booting, t, Event::Booted(Err(f)), a),
    ensures
        transition(Phase::Booting, Event::Booted(Err(f))) == Phase::Finished,
        a is Finish && a->release == Some(t),
        !(f is Canceled) ==> a->message is Some,
{
}

/// Builds the readiness callbacks for the served endpoints.
pub fn ready_list(electrum: Option<String>, http: Option<String>) -> (r: Vec<ReadyCall>)
    ensures
        r@ == ready_calls(electrum, http),
{
    let ghost ge = electrum;
    let ghost gh = http;
    let mut calls: Vec<ReadyCall> = Vec::new();
    match electrum {
        Some(a) => calls.push(ReadyCall::ElectrumReady(a)),
        None => {},
    }
    match http {
        Some(a) => calls.push(ReadyCall::HttpReady(a)),
        None => {},
    }
    calls.push(ReadyCall::Ready);
    proof {
        assert(calls@ =~= ready_calls(ge, gh));
    }
    calls
}

} // verus!
