use crate::text::{trim_end_slashes, trim_trailing_slashes};
use vstd::prelude::*;

verus! {

/// Pause between two reachability probes of a starting local server, in milliseconds.
pub const POLL_INTERVAL_MS: u64 = 10;

/// How long a local server may take to become reachable, in milliseconds.
pub const LOCAL_START_TIMEOUT_MS: u64 = 7000;

/// How long one health request may take, in seconds.
pub const HEALTH_TIMEOUT_SECS: u64 = 3;

/// Where the backend server is reached.
pub enum Endpoint {
    Remote { url: String },
    Local { port: u32 },
}

/// Why resolution failed.
pub enum Failure {
    /// The user chose to give up on an unhealthy remote server.
    UserCancelled,
    /// The local server process could not be started.
    SpawnFailed { reason: String },
    /// The local server did not become reachable in time; holds its captured output.
    LocalTimeout { logs: String },
}

/// The single result of resolving which backend to use.
pub enum Outcome {
    Ready(Endpoint),
    Failed(Failure),
}

/// What the user chose after a failed health check of the configured server.
#[derive(Clone, Copy, PartialEq, Eq, Debug)]
pub enum RetryDecision {
    Retry,
    FallbackToLocal,
    Cancel,
}

/// What the caller reports back after performing an action.
pub enum Event {
    /// A TCP probe of the local port finished; `elapsed_ms` counts from the spawn.
    LocalProbed { reachable: bool, elapsed_ms: u64 },
    /// A health check of the configured server finished.
    RemoteProbed { healthy: bool },
    /// The user answered the retry prompt.
    Decided(RetryDecision),
    /// The local server process was started.
    Spawned,
    /// The local server process could not be started.
    SpawnFailed { reason: String },
    /// The settle pause after the local server became reachable is over.
    Settled,
    /// The captured process output was read.
    LogsRead { logs: String },
}

/// What the caller has to do next.
pub enum Action {
    /// Probe TCP reachability of the local port now.
    ProbeLocal { port: u32 },
    /// Request the health endpoint of the configured server.
    ProbeRemote { health_url: String },
    /// Ask the user whether to retry, start a local server, or cancel.
    AskUser { url: String },
    /// Start the local server process on `port`.
    Spawn { port: u32 },
    /// Wait `delay_ms`, then probe TCP reachability of the local port.
    PollLocal { port: u32, delay_ms: u64 },
    /// Wait `delay_ms` to let the server finish binding.
    Settle { delay_ms: u64 },
    /// Read the captured process output.
    ReadLogs,
    /// Resolution is over with this outcome.
    Finish(Outcome),
}

#[derive(Clone, Copy, PartialEq, Eq, Debug)]
pub enum Phase {
    Init,
    CheckingLocal,
    ProbingRemote,
    AwaitingDecision,
    Spawning,
    Polling,
    Settling,
    CollectingLogs,
    Done,
}

/// The decision state of one resolution pass.
pub struct Resolver {
    url: Option<String>,
    port: u32,
    phase: Phase,
    spawned: bool,
}

pub enum EndpointModel {
    Remote(Seq<char>),
    Local(u32),
}

pub enum FailureModel {
    UserCancelled,
    SpawnFailed(Seq<char>),
    LocalTimeout(Seq<char>),
}

pub enum OutcomeModel {
    Ready(EndpointModel),
    Failed(FailureModel),
}

pub enum EventModel {
    LocalProbed { reachable: bool, elapsed_ms: u64 },
    RemoteProbed { healthy: bool },
    Decided(RetryDecision),
    Spawned,
    SpawnFailed(Seq<char>),
    Settled,
    LogsRead(Seq<char>),
}

pub enum ActionModel {
    ProbeLocal { port: u32 },
    ProbeRemote { health_url: Seq<char> },
    AskUser { url: Seq<char> },
    Spawn { port: u32 },
    PollLocal { port: u32, delay_ms: u64 },
    Settle { delay_ms: u64 },
    ReadLogs,
    Finish(OutcomeModel),
}

pub struct ResolverModel {
    pub url: Option<Seq<char>>,
    pub port: u32,
    pub phase: Phase,
    pub spawned: bool,
}

impl View for Endpoint {
    type V = EndpointModel;

    open spec fn view(&self) -> EndpointModel {
        match self {
            Endpoint::Remote { url } => EndpointModel::Remote(url@),
            Endpoint::Local { port } => EndpointModel::Local(*port),
        }
    }
}

impl View for Failure {
    type V = FailureModel;

    open spec fn view(&self) -> FailureModel {
        match self {
            Failure::UserCancelled => FailureModel::UserCancelled,
            Failure::SpawnFailed { reason } => FailureModel::SpawnFailed(reason@),
            Failure::LocalTimeout { logs } => FailureModel::LocalTimeout(logs@),
        }
    }
}

impl View for Outcome {
    type V = OutcomeModel;

    open spec fn view(&self) -> OutcomeModel {
        match self {
            Outcome::Ready(e) => OutcomeModel::Ready(e@),
            Outcome::Failed(f) => OutcomeModel::Failed(f@),
        }
    }
}

impl View for Event {
    type V = EventModel;

    open spec fn view(&self) -> EventModel {
        match self {
            Event::LocalProbed { reachable, elapsed_ms } => EventModel::LocalProbed {
                reachable: *reachable,
                elapsed_ms: *elapsed_ms,
            },
            Event::RemoteProbed { healthy } => EventModel::RemoteProbed { healthy: *healthy },
            Event::Decided(d) => EventModel::Decided(*d),
            Event::Spawned => EventModel::Spawned,
            Event::SpawnFailed { reason } => EventModel::SpawnFailed(reason@),
            Event::Settled => EventModel::Settled,
            Event::LogsRead { logs } => EventModel::LogsRead(logs@),
        }
    }
}

impl View for Action {
    type V = ActionModel;

    open spec fn view(&self) -> ActionModel {
        match self {
            Action::ProbeLocal { port } => ActionModel::ProbeLocal { port: *port },
            Action::ProbeRemote { health_url } => ActionModel::ProbeRemote {
                health_url: health_url@,
            },
            Action::AskUser { url } => ActionModel::AskUser { url: url@ },
            Action::Spawn { port } => ActionModel::Spawn { port: *port },
            Action::PollLocal { port, delay_ms } => ActionModel::PollLocal {
                port: *port,
                delay_ms: *delay_ms,
            },
            Action::Settle { delay_ms } => ActionModel::Settle { delay_ms: *delay_ms },
            Action::ReadLogs => ActionModel::ReadLogs,
            Action::Finish(o) => ActionModel::Finish(o@),
        }
    }
}

impl View for Resolver {
    type V = ResolverModel;

    closed spec fn view(&self) -> ResolverModel {
        ResolverModel {
            url: match self.url {
                Some(u) => Some(u@),
                None => None,
            },
            port: self.port,
            phase: self.phase,
            spawned: self.spawned,
        }
    }
}

/// The health endpoint of the server at `base`.
pub open spec fn health_url_of(base: Seq<char>) -> Seq<char> {
    trim_trailing_slashes(base) + seq!['/', 'h', 'e', 'a', 'l', 't', 'h']
}

/// The health endpoint of the server at `base`: `{base}/health`, with the
/// trailing slashes of `base` removed first.
pub fn health_url(base: &str) -> (r: String)
    ensures
        r@ == health_url_of(base@),
{
    let mut r = String::from_str(trim_end_slashes(base));
    proof { reveal_strlit("/health"); }
    r.append("/health");
    r
}

/// Whether a health response counts as healthy: a status was received and it is 2xx.
/// `None` stands for a transport error or a timeout.
pub fn is_healthy_status(status: Option<u16>) -> (r: bool)
    ensures
        r == (status is Some && 200 <= status->0 && status->0 < 300),
{
    match status {
        Some(code) => 200 <= code && code < 300,
        None => false,
    }
}

pub open spec fn with_phase(s: ResolverModel, phase: Phase) -> ResolverModel {
    ResolverModel { phase, ..s }
}

pub open spec fn spawning(s: ResolverModel) -> ResolverModel {
    ResolverModel { phase: Phase::Spawning, spawned: true, ..s }
}

/// The first step of a pass: probe the configured server when there is one,
/// else check whether a server already listens on the local port.
pub open spec fn first_step(s: ResolverModel) -> (ResolverModel, ActionModel) {
    match s.url {
        Some(u) => (
            with_phase(s, Phase::ProbingRemote),
            ActionModel::ProbeRemote { health_url: health_url_of(u) },
        ),
        None => (with_phase(s, Phase::CheckingLocal), ActionModel::ProbeLocal { port: s.port }),
    }
}

/// The transition of a pass on an event; `None` when the event is not awaited.
pub open spec fn next_step(s: ResolverModel, e: EventModel) -> Option<(ResolverModel, ActionModel)> {
    match s.phase {
        Phase::CheckingLocal => match e {
            EventModel::LocalProbed { reachable, elapsed_ms: _ } => if reachable {
                Some(
                    (
                        with_phase(s, Phase::Done),
                        ActionModel::Finish(OutcomeModel::Ready(EndpointModel::Local(s.port))),
                    ),
                )
            } else {
                Some((spawning(s), ActionModel::Spawn { port: s.port }))
            },
            _ => None,
        },
        Phase::ProbingRemote => match e {
            EventModel::RemoteProbed { healthy } => if healthy {
                Some(
                    (
                        with_phase(s, Phase::Done),
                        ActionModel::Finish(
                            OutcomeModel::Ready(EndpointModel::Remote(s.url.unwrap())),
                        ),
                    ),
                )
            } else {
                Some(
                    (
                        with_phase(s, Phase::AwaitingDecision),
                        ActionModel::AskUser { url: s.url.unwrap() },
                    ),
                )
            },
            _ => None,
        },
        Phase::AwaitingDecision => match e {
            EventModel::Decided(RetryDecision::Retry) => Some(
                (
                    with_phase(s, Phase::ProbingRemote),
                    ActionModel::ProbeRemote { health_url: health_url_of(s.url.unwrap()) },
                ),
            ),
            EventModel::Decided(RetryDecision::FallbackToLocal) => Some(
                (spawning(s), ActionModel::Spawn { port: s.port }),
            ),
            EventModel::Decided(RetryDecision::Cancel) => Some(
                (
                    with_phase(s, Phase::Done),
                    ActionModel::Finish(OutcomeModel::Failed(FailureModel::UserCancelled)),
                ),
            ),
            _ => None,
        },
        Phase::Spawning => match e {
            EventModel::Spawned => Some(
                (
                    with_phase(s, Phase::Polling),
                    ActionModel::PollLocal { port: s.port, delay_ms: POLL_INTERVAL_MS },
                ),
            ),
            EventModel::SpawnFailed(reason) => Some(
                (
                    with_phase(s, Phase::Done),
                    ActionModel::Finish(OutcomeModel::Failed(FailureModel::SpawnFailed(reason))),
                ),
            ),
            _ => None,
        },
        Phase::Polling => match e {
            EventModel::LocalProbed { reachable, elapsed_ms } => if reachable {
                Some(
                    (
                        with_phase(s, Phase::Settling),
                        ActionModel::Settle { delay_ms: POLL_INTERVAL_MS },
                    ),
                )
            } else if elapsed_ms > LOCAL_START_TIMEOUT_MS {
                Some((with_phase(s, Phase::CollectingLogs), ActionModel::ReadLogs))
            } else {
                Some(
                    (
                        s,
                        ActionModel::PollLocal { port: s.port, delay_ms: POLL_INTERVAL_MS },
                    ),
                )
            },
            _ => None,
        },
        Phase::Settling => match e {
            EventModel::Settled => Some(
                (
                    with_phase(s, Phase::Done),
                    ActionModel::Finish(OutcomeModel::Ready(EndpointModel::Local(s.port))),
                ),
            ),
            _ => None,
        },
        Phase::CollectingLogs => match e {
            EventModel::LogsRead(logs) => Some(
                (
                    with_phase(s, Phase::Done),
                    ActionModel::Finish(OutcomeModel::Failed(FailureModel::LocalTimeout(logs))),
                ),
            ),
            _ => None,
        },
        _ => None,
    }
}

/// What holds in every state that a pass reaches.
pub open spec fn reachable_state(s: ResolverModel) -> bool {
    &&& (s.phase is ProbingRemote || s.phase is AwaitingDecision) ==> s.url is Some
    &&& (s.phase is Init || s.phase is CheckingLocal || s.phase is ProbingRemote
        || s.phase is AwaitingDecision) ==> !s.spawned
    &&& s.phase is CheckingLocal ==> s.url is None
    &&& (s.phase is Spawning || s.phase is Polling || s.phase is Settling
        || s.phase is CollectingLogs) ==> s.spawned
}

impl Resolver {
    pub open spec fn wf(&self) -> bool {
        reachable_state(self@)
    }

    /// A pass that has not started, for the configured server `url` (if any) and
    /// the local `port`.
    pub fn new(url: Option<String>, port: u32) -> (r: Resolver)
        ensures
            r.wf(),
            r@.url == (match url {
                Some(u) => Some(u@),
                None => None::<Seq<char>>,
            }),
            r@.port == port,
            r@.phase == Phase::Init,
            !r@.spawned,
    {
        Resolver { url, port, phase: Phase::Init, spawned: false }
    }

    pub fn phase(&self) -> (r: Phase)
        ensures
            r == self@.phase,
    {
        self.phase
    }

    /// Whether this pass has started a local server process.
    pub fn spawned(&self) -> (r: bool)
        ensures
            r == self@.spawned,
    {
        self.spawned
    }

    pub fn port(&self) -> (r: u32)
        ensures
            r == self@.port,
    {
        self.port
    }

    /// Starts the pass and returns its first action.
    pub fn start(&mut self) -> (r: Action)
        requires
            old(self).wf(),
            old(self)@.phase == Phase::Init,
        ensures
            final(self).wf(),
            (final(self)@, r@) == first_step(old(self)@),
    {
        match &self.url {
            Some(u) => {
                let h = health_url(u.as_str());
                self.phase = Phase::ProbingRemote;
                Action::ProbeRemote { health_url: h }
            },
            None => {
                self.phase = Phase::CheckingLocal;
                Action::ProbeLocal { port: self.port }
            },
        }
    }

    fn configured_url(&self) -> (r: String)
        requires
            self@.url is Some,
        ensures
            r@ == self@.url->0,
    {
        match &self.url {
            Some(u) => u.clone(),
            None => String::new(),
        }
    }

    /// Takes the result of the last action and returns the next one; returns
    /// `None`, and changes nothing, when the event is not the one awaited.
    pub fn step(&mut self, event: Event) -> (r: Option<Action>)
        requires
            old(self).wf(),
        ensures
            final(self).wf(),
            match next_step(old(self)@, event@) {
                Some((s, a)) => final(self)@ == s && r is Some && r->0@ == a,
                None => final(self)@ == old(self)@ && r is None,
            },
    {
        match self.phase {
            Phase::CheckingLocal => match event {
                Event::LocalProbed { reachable, elapsed_ms: _ } => {
                    if reachable {
                        self.phase = Phase::Done;
                        Some(Action::Finish(Outcome::Ready(Endpoint::Local { port: self.port })))
                    } else {
                        self.phase = Phase::Spawning;
                        self.spawned = true;
                        Some(Action::Spawn { port: self.port })
                    }
                },
                _ => None,
            },
            Phase::ProbingRemote => match event {
                Event::RemoteProbed { healthy } => {
                    let url = self.configured_url();
                    if healthy {
                        self.phase = Phase::Done;
                        Some(Action::Finish(Outcome::Ready(Endpoint::Remote { url })))
                    } else {
                        self.phase = Phase::AwaitingDecision;
                        Some(Action::AskUser { url })
                    }
                },
                _ => None,
            },
            Phase::AwaitingDecision => match event {
                Event::Decided(RetryDecision::Retry) => {
                    let url = self.configured_url();
                    let h = health_url(url.as_str());
                    self.phase = Phase::ProbingRemote;
                    Some(Action::ProbeRemote { health_url: h })
                },
                Event::Decided(RetryDecision::FallbackToLocal) => {
                    self.phase = Phase::Spawning;
                    self.spawned = true;
                    Some(Action::Spawn { port: self.port })
                },
                Event::Decided(RetryDecision::Cancel) => {
                    self.phase = Phase::Done;
                    Some(Action::Finish(Outcome::Failed(Failure::UserCancelled)))
                },
                _ => None,
            },
            Phase::Spawning => match event {
                Event::Spawned => {
                    self.phase = Phase::Polling;
                    Some(Action::PollLocal { port: self.port, delay_ms: POLL_INTERVAL_MS })
                },
                Event::SpawnFailed { reason } => {
                    self.phase = Phase::Done;
                    Some(Action::Finish(Outcome::Failed(Failure::SpawnFailed { reason })))
                },
                _ => None,
            },
            Phase::Polling => match event {
                Event::LocalProbed { reachable, elapsed_ms } => {
                    if reachable {
                        self.phase = Phase::Settling;
                        Some(Action::Settle { delay_ms: POLL_INTERVAL_MS })
                    } else if elapsed_ms > LOCAL_START_TIMEOUT_MS {
                        self.phase = Phase::CollectingLogs;
                        Some(Action::ReadLogs)
                    } else {
                        Some(Action::PollLocal { port: self.port, delay_ms: POLL_INTERVAL_MS })
                    }
                },
                _ => None,
            },
            Phase::Settling => match event {
                Event::Settled => {
                    self.phase = Phase::Done;
                    Some(Action::Finish(Outcome::Ready(Endpoint::Local { port: self.port })))
                },
                _ => None,
            },
            Phase::CollectingLogs => match event {
                Event::LogsRead { logs } => {
                    self.phase = Phase::Done;
                    Some(Action::Finish(Outcome::Failed(Failure::LocalTimeout { logs })))
                },
                _ => None,
            },
            _ => None,
        }
    }
}

/// The text of a failure as reported to the user interface.
pub open spec fn failure_message(f: FailureModel) -> Seq<char> {
    match f {
        FailureModel::UserCancelled => "user cancelled"@,
        FailureModel::SpawnFailed(reason) => "Failed to spawn OpenCode Server: "@ + reason,
        FailureModel::LocalTimeout(logs) => "Failed to spawn OpenCode Server. Logs:\n"@ + logs,
    }
}

impl Failure {
    /// The text of this failure; a timeout carries the captured output.
    pub fn message(&self) -> (r: String)
        ensures
            r@ == failure_message(self@),
    {
        match self {
            Failure::UserCancelled => String::from_str("user cancelled"),
            Failure::SpawnFailed { reason } => {
                let mut m = String::from_str("Failed to spawn OpenCode Server: ");
                m.append(reason.as_str());
                m
            },
            Failure::LocalTimeout { logs } => {
                let mut m = String::from_str("Failed to spawn OpenCode Server. Logs:\n");
                m.append(logs.as_str());
                m
            },
        }
    }
}

impl Outcome {
    /// `Ok` when a backend is ready, else the failure's text.
    pub fn status(&self) -> (r: Result<(), String>)
        ensures
            match self@ {
                OutcomeModel::Ready(_) => r is Ok,
                OutcomeModel::Failed(f) => r is Err && r->Err_0@ == failure_message(f),
            },
    {
        match self {
            Outcome::Ready(_) => Ok(()),
            Outcome::Failed(f) => Err(f.message()),
        }
    }

    pub fn is_ready(&self) -> (r: bool)
        ensures
            r == (self@ is Ready),
    {
        match self {
            Outcome::Ready(_) => true,
            Outcome::Failed(_) => false,
        }
    }
}

/// The state after `e`, when `e` is awaited.
pub open spec fn state_after(s: ResolverModel, e: EventModel) -> ResolverModel {
    match next_step(s, e) {
        Some((t, _)) => t,
        None => s,
    }
}

/// Whether `e` leads to starting a local process.
pub open spec fn starts_process(s: ResolverModel, e: EventModel) -> bool {
    match next_step(s, e) {
        Some((_, a)) => a is Spawn,
        None => false,
    }
}

/// Whether `e` ends the pass with the remote endpoint `u`.
pub open spec fn chooses_remote(s: ResolverModel, e: EventModel, u: Seq<char>) -> bool {
    match next_step(s, e) {
        Some((_, ActionModel::Finish(OutcomeModel::Ready(EndpointModel::Remote(v))))) => v == u,
        _ => false,
    }
}

/// Every state that a pass reaches, from its start through any events, keeps
/// `reachable_state`.
pub proof fn lemma_reachable_state_kept(s: ResolverModel, e: EventModel)
    ensures
        s.phase is Init && !s.spawned ==> match first_step(s) {
            (t, _) => reachable_state(t),
        },
        reachable_state(s) ==> reachable_state(state_after(s, e)),
{
}

/// A pass starts at most one local process: once one was started, no event
/// leads to another start.
pub proof fn lemma_single_spawn(s: ResolverModel, e: EventModel)
    requires
        reachable_state(s),
        s.spawned,
    ensures
        !starts_process(s, e),
        state_after(s, e).spawned,
{
}

/// A remote endpoint is chosen only right after a successful health check of
/// the configured server.
pub proof fn lemma_remote_only_when_healthy(s: ResolverModel, e: EventModel, u: Seq<char>)
    requires
        reachable_state(s),
        chooses_remote(s, e, u),
    ensures
        s.phase is ProbingRemote,
        e == (EventModel::RemoteProbed { healthy: true }),
        s.url == Some(u),
{
}

/// With a configured server, a local process is started only when the user
/// chose to fall back to it.
pub proof fn lemma_remote_spawns_only_on_fallback(s: ResolverModel, e: EventModel)
    requires
        reachable_state(s),
        s.url is Some,
        starts_process(s, e),
    ensures
        e == EventModel::Decided(RetryDecision::FallbackToLocal),
{
}

/// A finished pass takes no further event.
pub proof fn lemma_done_is_final(s: ResolverModel, e: EventModel)
    requires
        s.phase is Done,
    ensures
        next_step(s, e) is None,
{
}

} // verus!
