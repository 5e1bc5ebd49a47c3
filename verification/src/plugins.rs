use vstd::prelude::*;
use crate::ipc::{
    manifest_request, manifest_request_view, IpcError, RequestFrame, RequestFrameView,
};
use crate::registry::{upserted, PluginRegistry};
use crate::types::{Manifest, ManifestView};

verus! {

/// Seconds between two looks at the plugin's executable.
pub const POLL_INTERVAL_SECS: u64 = 2;

/// Seconds that a freshly started plugin gets before it is asked for its
/// manifest.
pub const GRACE_PERIOD_SECS: u64 = 5;

/// Where a supervisor stands in its loop: what it has asked for and is
/// waiting to hear about.
#[derive(Debug, Clone, Copy, PartialEq, Eq, Structural)]
pub enum Phase {
    /// Waiting for the next look at the executable.
    Sleeping,
    /// Asked for the executable's modification time.
    Probing,
    /// Asked for the running process to be killed.
    Killing,
    /// Asked for a leftover socket file to be removed.
    Clearing,
    /// Asked for the executable to be started.
    Spawning,
    /// Giving the new process time to bind its socket.
    Settling,
    /// Asked the plugin for its manifest.
    Handshaking,
}

/// What a handshake brought.
#[derive(Debug, PartialEq, Eq)]
pub enum HandshakeOutcome {
    /// The plugin could not be reached, or the exchange broke.
    Unreachable,
    /// The plugin answered, and its body is no manifest.
    Malformed,
    /// The plugin answered with this manifest.
    Manifest(Manifest),
}

pub enum HandshakeOutcomeView {
    Unreachable,
    Malformed,
    Manifest(ManifestView),
}

impl View for HandshakeOutcome {
    type V = HandshakeOutcomeView;

    open spec fn view(&self) -> HandshakeOutcomeView {
        match self {
            HandshakeOutcome::Unreachable => HandshakeOutcomeView::Unreachable,
            HandshakeOutcome::Malformed => HandshakeOutcomeView::Malformed,
            HandshakeOutcome::Manifest(m) => HandshakeOutcomeView::Manifest(m@),
        }
    }
}

/// What a handshake brought, from what the call to the plugin brought:
/// an error, a body that is no manifest, or a manifest.
pub open spec fn outcome_of(exchange: Result<Option<Manifest>, IpcError>) -> HandshakeOutcomeView {
    match exchange {
        Err(_) => HandshakeOutcomeView::Unreachable,
        Ok(None) => HandshakeOutcomeView::Malformed,
        Ok(Some(m)) => HandshakeOutcomeView::Manifest(m@),
    }
}

impl HandshakeOutcome {
    /// Sorts what the call to the plugin brought. The caller has tried to
    /// read the response's body as a manifest and hands in what came of it.
    pub fn from_exchange(exchange: Result<Option<Manifest>, IpcError>) -> (outcome: Self)
        ensures
            outcome@ == outcome_of(exchange),
    {
        match exchange {
            Err(_) => HandshakeOutcome::Unreachable,
            Ok(None) => HandshakeOutcome::Malformed,
            Ok(Some(manifest)) => HandshakeOutcome::Manifest(manifest),
        }
    }
}

/// What the world reports back to a supervisor.
#[derive(Debug, PartialEq, Eq)]
pub enum SupervisorEvent {
    /// The supervisor was just created, or the wait it asked for is over.
    Wake,
    /// The executable's modification time in nanoseconds since the epoch,
    /// or `None` where it could not be read.
    Modified(Option<u128>),
    /// The kill was tried; `true` where it succeeded.
    Killed(bool),
    /// The socket path is free; `false` where a leftover file is still there.
    SocketCleared(bool),
    /// The start was tried; `true` where a process now runs.
    Spawned(bool),
    /// The handshake is over.
    Answered(HandshakeOutcome),
}

pub enum SupervisorEventView {
    Wake,
    Modified(Option<u128>),
    Killed(bool),
    SocketCleared(bool),
    Spawned(bool),
    Answered(HandshakeOutcomeView),
}

impl View for SupervisorEvent {
    type V = SupervisorEventView;

    open spec fn view(&self) -> SupervisorEventView {
        match self {
            SupervisorEvent::Wake => SupervisorEventView::Wake,
            SupervisorEvent::Modified(m) => SupervisorEventView::Modified(*m),
            SupervisorEvent::Killed(ok) => SupervisorEventView::Killed(*ok),
            SupervisorEvent::SocketCleared(ok) => SupervisorEventView::SocketCleared(*ok),
            SupervisorEvent::Spawned(ok) => SupervisorEventView::Spawned(*ok),
            SupervisorEvent::Answered(outcome) => SupervisorEventView::Answered(outcome@),
        }
    }
}

/// What a supervisor asks the world to do next.
#[derive(Debug, PartialEq, Eq)]
pub enum SupervisorAction {
    /// Read the modification time of the file at `path`.
    ReadModified { path: String },
    /// Kill the process that was started last.
    Kill,
    /// Remove the file at `path` if there is one.
    RemoveSocket { path: String },
    /// Start `executable` with `argument` as its only argument.
    Spawn { executable: String, argument: String },
    /// Let `seconds` pass.
    Wait { seconds: u64 },
    /// Send `request` to the socket at `socket_path`.
    Request { socket_path: String, request: RequestFrame },
}

pub enum SupervisorActionView {
    ReadModified { path: Seq<char> },
    Kill,
    RemoveSocket { path: Seq<char> },
    Spawn { executable: Seq<char>, argument: Seq<char> },
    Wait { seconds: u64 },
    Request { socket_path: Seq<char>, request: RequestFrameView },
}

impl View for SupervisorAction {
    type V = SupervisorActionView;

    open spec fn view(&self) -> SupervisorActionView {
        match self {
            SupervisorAction::ReadModified { path } => SupervisorActionView::ReadModified {
                path: path@,
            },
            SupervisorAction::Kill => SupervisorActionView::Kill,
            SupervisorAction::RemoveSocket { path } => SupervisorActionView::RemoveSocket {
                path: path@,
            },
            SupervisorAction::Spawn { executable, argument } => SupervisorActionView::Spawn {
                executable: executable@,
                argument: argument@,
            },
            SupervisorAction::Wait { seconds } => SupervisorActionView::Wait { seconds: *seconds },
            SupervisorAction::Request { socket_path, request } => SupervisorActionView::Request {
                socket_path: socket_path@,
                request: request@,
            },
        }
    }
}

/// A failure that a supervisor takes note of and lives with.
#[derive(Debug, Clone, Copy, PartialEq, Eq, Structural)]
pub enum SupervisorNotice {
    /// The executable's modification time could not be read.
    MetadataUnreadable,
    /// The old process could not be killed; its replacement is started anyway.
    KillFailed,
    /// A leftover socket file could not be removed.
    SocketNotRemoved,
    /// The executable could not be started; the next tick tries again.
    SpawnFailed,
    /// The handshake brought no response.
    HandshakeUnreachable,
    /// The handshake brought a body that is no manifest.
    HandshakeMalformed,
}

/// One step's result: what to do next, and what to log if something failed.
#[derive(Debug, PartialEq, Eq)]
pub struct Directive {
    pub action: SupervisorAction,
    pub notice: Option<SupervisorNotice>,
}

pub struct DirectiveView {
    pub action: SupervisorActionView,
    pub notice: Option<SupervisorNotice>,
}

impl View for Directive {
    type V = DirectiveView;

    open spec fn view(&self) -> DirectiveView {
        DirectiveView { action: self.action@, notice: self.notice }
    }
}

/// An event reached a supervisor that was waiting for another one. Nothing
/// can be done about it from inside: the supervisor must end.
#[derive(Debug, Clone, Copy, PartialEq, Eq, Structural)]
pub struct SupervisorFault {
    pub phase: Phase,
}

/// The watch over one plugin: its two paths, and what is known of its
/// process.
#[derive(Debug)]
pub struct Supervisor {
    binary_path: String,
    socket_path: String,
    phase: Phase,
    started: bool,
    running: bool,
    last_modified: Option<u128>,
}

pub struct SupervisorView {
    pub binary_path: Seq<char>,
    pub socket_path: Seq<char>,
    pub phase: Phase,
    /// Whether a restart has ever been decided.
    pub started: bool,
    /// Whether the supervisor holds a process.
    pub running: bool,
    /// The last modification time that could be read.
    pub last_modified: Option<u128>,
}

impl View for Supervisor {
    type V = SupervisorView;

    closed spec fn view(&self) -> SupervisorView {
        SupervisorView {
            binary_path: self.binary_path@,
            socket_path: self.socket_path@,
            phase: self.phase,
            started: self.started,
            running: self.running,
            last_modified: self.last_modified,
        }
    }
}

/// A supervisor before its first look at the executable.
pub open spec fn initial(binary_path: Seq<char>, socket_path: Seq<char>) -> SupervisorView {
    SupervisorView {
        binary_path,
        socket_path,
        phase: Phase::Sleeping,
        started: false,
        running: false,
        last_modified: None,
    }
}

impl SupervisorView {
    /// A process is held exactly in the phases that have one: none while the
    /// socket is cleared and the executable started, one while it is killed,
    /// settles or is asked for its manifest.
    pub open spec fn consistent(self) -> bool {
        match self.phase {
            Phase::Sleeping | Phase::Probing => true,
            Phase::Killing => self.started && self.running,
            Phase::Clearing | Phase::Spawning => self.started && !self.running,
            Phase::Settling | Phase::Handshaking => self.started && self.running,
        }
    }

    /// Whether a look at the executable that brought `modified` calls for a
    /// restart: always before the first start and while no process is held,
    /// else only when a time was read and differs from the last one read.
    pub open spec fn restart_due(self, modified: Option<u128>) -> bool {
        !self.started || !self.running || (modified is Some && modified != self.last_modified)
    }

    /// The last modification time read, after a look that brought `modified`.
    pub open spec fn observed(self, modified: Option<u128>) -> Option<u128> {
        if modified is Some {
            modified
        } else {
            self.last_modified
        }
    }
}

/// Whether `event` is the one that a supervisor in `phase` waits for.
/// Whether the thing reported went well or badly makes no difference.
pub open spec fn awaits(phase: Phase, event: SupervisorEventView) -> bool {
    match phase {
        Phase::Sleeping | Phase::Settling => event is Wake,
        Phase::Probing => event is Modified,
        Phase::Killing => event is Killed,
        Phase::Clearing => event is SocketCleared,
        Phase::Spawning => event is Spawned,
        Phase::Handshaking => event is Answered,
    }
}

/// Whether a phase belongs to the restart proper: from the clearing of the
/// socket to the end of the handshake.
pub open spec fn in_restart(phase: Phase) -> bool {
    phase == Phase::Clearing || phase == Phase::Spawning || phase == Phase::Settling || phase
        == Phase::Handshaking
}

/// A supervisor, the registry and the directive after one step.
pub struct StepView {
    pub state: SupervisorView,
    pub registry: Map<Seq<char>, ManifestView>,
    pub directive: DirectiveView,
}

/// The directive that sends the supervisor back to sleep until the next tick.
pub open spec fn sleep_directive(notice: Option<SupervisorNotice>) -> DirectiveView {
    DirectiveView { action: SupervisorActionView::Wait { seconds: POLL_INTERVAL_SECS }, notice }
}

/// The notice that a handshake leaves behind.
pub open spec fn handshake_notice(outcome: HandshakeOutcomeView) -> Option<SupervisorNotice> {
    match outcome {
        HandshakeOutcomeView::Unreachable => Some(SupervisorNotice::HandshakeUnreachable),
        HandshakeOutcomeView::Malformed => Some(SupervisorNotice::HandshakeMalformed),
        HandshakeOutcomeView::Manifest(_) => None,
    }
}

/// The registry after a handshake: a manifest goes in under its own id,
/// anything else leaves the registry as it was.
pub open spec fn registry_after(
    registry: Map<Seq<char>, ManifestView>,
    outcome: HandshakeOutcomeView,
) -> Map<Seq<char>, ManifestView> {
    match outcome {
        HandshakeOutcomeView::Manifest(m) => upserted(registry, m),
        _ => registry,
    }
}

/// One step of a restart: the socket is cleared, the executable started,
/// given its grace period and asked for its manifest, strictly in this order.
/// `None` where the event is not the one that the phase waits for.
pub open spec fn restart_step(
    s: SupervisorView,
    registry: Map<Seq<char>, ManifestView>,
    event: SupervisorEventView,
) -> Option<StepView> {
    match (s.phase, event) {
        (Phase::Clearing, SupervisorEventView::SocketCleared(ok)) => Some(
            StepView {
                state: SupervisorView { phase: Phase::Spawning, ..s },
                registry,
                directive: DirectiveView {
                    action: SupervisorActionView::Spawn {
                        executable: s.binary_path,
                        argument: s.socket_path,
                    },
                    notice: if ok {
                        None
                    } else {
                        Some(SupervisorNotice::SocketNotRemoved)
                    },
                },
            },
        ),
        (Phase::Spawning, SupervisorEventView::Spawned(ok)) => Some(
            if ok {
                StepView {
                    state: SupervisorView { phase: Phase::Settling, running: true, ..s },
                    registry,
                    directive: DirectiveView {
                        action: SupervisorActionView::Wait { seconds: GRACE_PERIOD_SECS },
                        notice: None,
                    },
                }
            } else {
                StepView {
                    state: SupervisorView { phase: Phase::Sleeping, running: false, ..s },
                    registry,
                    directive: sleep_directive(Some(SupervisorNotice::SpawnFailed)),
                }
            },
        ),
        (Phase::Settling, SupervisorEventView::Wake) => Some(
            StepView {
                state: SupervisorView { phase: Phase::Handshaking, ..s },
                registry,
                directive: DirectiveView {
                    action: SupervisorActionView::Request {
                        socket_path: s.socket_path,
                        request: manifest_request_view(),
                    },
                    notice: None,
                },
            },
        ),
        (Phase::Handshaking, SupervisorEventView::Answered(outcome)) => Some(
            StepView {
                state: SupervisorView { phase: Phase::Sleeping, ..s },
                registry: registry_after(registry, outcome),
                directive: sleep_directive(handshake_notice(outcome)),
            },
        ),
        _ => None,
    }
}

/// One step of the watch. A wake-up leads to a look at the executable; the
/// look decides between sleeping on and a restart; a restart kills the
/// process that is held, if any, and goes on as `restart_step` says. `None`
/// where the event is not the one that the phase waits for.
pub open spec fn step(
    s: SupervisorView,
    registry: Map<Seq<char>, ManifestView>,
    event: SupervisorEventView,
) -> Option<StepView> {
    match (s.phase, event) {
        (Phase::Sleeping, SupervisorEventView::Wake) => Some(
            StepView {
                state: SupervisorView { phase: Phase::Probing, ..s },
                registry,
                directive: DirectiveView {
                    action: SupervisorActionView::ReadModified { path: s.binary_path },
                    notice: None,
                },
            },
        ),
        (Phase::Probing, SupervisorEventView::Modified(modified)) => {
            let notice = if modified is None {
                Some(SupervisorNotice::MetadataUnreadable)
            } else {
                None
            };
            let seen = SupervisorView { last_modified: s.observed(modified), ..s };
            Some(
                if !s.restart_due(modified) {
                    StepView {
                        state: SupervisorView { phase: Phase::Sleeping, ..seen },
                        registry,
                        directive: sleep_directive(notice),
                    }
                } else if s.running {
                    StepView {
                        state: SupervisorView { phase: Phase::Killing, started: true, ..seen },
                        registry,
                        directive: DirectiveView { action: SupervisorActionView::Kill, notice },
                    }
                } else {
                    StepView {
                        state: SupervisorView { phase: Phase::Clearing, started: true, ..seen },
                        registry,
                        directive: DirectiveView {
                            action: SupervisorActionView::RemoveSocket { path: s.socket_path },
                            notice,
                        },
                    }
                },
            )
        },
        (Phase::Killing, SupervisorEventView::Killed(ok)) => Some(
            StepView {
                state: SupervisorView { phase: Phase::Clearing, running: false, ..s },
                registry,
                directive: DirectiveView {
                    action: SupervisorActionView::RemoveSocket { path: s.socket_path },
                    notice: if ok {
                        None
                    } else {
                        Some(SupervisorNotice::KillFailed)
                    },
                },
            },
        ),
        (Phase::Sleeping, _) | (Phase::Probing, _) | (Phase::Killing, _) => None,
        _ => restart_step(s, registry, event),
    }
}

/// Whether a call that started from `before` and ended in `after` with
/// `result` did what `expected` says: the step where there is one, and
/// nothing but a fault where there is none.
pub open spec fn stepped(
    expected: Option<StepView>,
    before: (SupervisorView, Map<Seq<char>, ManifestView>),
    after: (SupervisorView, Map<Seq<char>, ManifestView>),
    result: Result<Directive, SupervisorFault>,
) -> bool {
    match expected {
        Some(next) => {
            &&& result matches Ok(directive)
            &&& directive@ == next.directive
            &&& after.0 == next.state
            &&& after.1 == next.registry
        },
        None => {
            &&& result == Err::<Directive, SupervisorFault>(SupervisorFault { phase: before.0.phase })
            &&& after == before
        },
    }
}

impl Supervisor {
    /// A supervisor for the plugin at `binary_path` that is to bind
    /// `socket_path`. It holds no process and waits for its first wake-up.
    pub fn new(binary_path: String, socket_path: String) -> (supervisor: Self)
        ensures
            supervisor@ == initial(binary_path@, socket_path@),
            supervisor@.consistent(),
    {
        Supervisor {
            binary_path,
            socket_path,
            phase: Phase::Sleeping,
            started: false,
            running: false,
            last_modified: None,
        }
    }

    /// The phase that the supervisor is in.
    pub fn phase(&self) -> (phase: Phase)
        ensures
            phase == self@.phase,
    {
        self.phase
    }

    /// Whether the supervisor holds a process.
    pub fn is_running(&self) -> (running: bool)
        ensures
            running == self@.running,
    {
        self.running
    }

    /// The directive that sends the supervisor to sleep until the next tick.
    fn sleep(&mut self, notice: Option<SupervisorNotice>) -> (directive: Directive)
        ensures
            final(self)@ == (SupervisorView { phase: Phase::Sleeping, ..old(self)@ }),
            directive@ == sleep_directive(notice),
    {
        self.phase = Phase::Sleeping;
        Directive { action: SupervisorAction::Wait { seconds: POLL_INTERVAL_SECS }, notice }
    }

    /// The directive that clears the socket path before a start.
    fn clear_socket(&mut self, notice: Option<SupervisorNotice>) -> (directive: Directive)
        ensures
            final(self)@ == (SupervisorView { phase: Phase::Clearing, ..old(self)@ }),
            directive@ == (DirectiveView {
                action: SupervisorActionView::RemoveSocket { path: old(self)@.socket_path },
                notice,
            }),
    {
        self.phase = Phase::Clearing;
        Directive {
            action: SupervisorAction::RemoveSocket { path: self.socket_path.clone() },
            notice,
        }
    }
}

/// Takes a restart one step further: see `restart_step`. The registry
/// changes at the end of a handshake that brought a manifest, and at no
/// other time. An event that the phase does not wait for changes nothing
/// and is reported as a fault.
pub fn restart_backend_process(
    supervisor: &mut Supervisor,
    registry: &mut PluginRegistry,
    event: SupervisorEvent,
) -> (result: Result<Directive, SupervisorFault>)
    ensures
        result is Ok <==> in_restart(old(supervisor)@.phase) && awaits(
            old(supervisor)@.phase,
            event@,
        ),
        stepped(
            restart_step(old(supervisor)@, old(registry)@, event@),
            (old(supervisor)@, old(registry)@),
            (final(supervisor)@, final(registry)@),
            result,
        ),
        old(supervisor)@.consistent() ==> final(supervisor)@.consistent(),
{
    match (supervisor.phase, event) {
        (Phase::Clearing, SupervisorEvent::SocketCleared(ok)) => {
            supervisor.phase = Phase::Spawning;
            Ok(
                Directive {
                    action: SupervisorAction::Spawn {
                        executable: supervisor.binary_path.clone(),
                        argument: supervisor.socket_path.clone(),
                    },
                    notice: if ok {
                        None
                    } else {
                        Some(SupervisorNotice::SocketNotRemoved)
                    },
                },
            )
        },
        (Phase::Spawning, SupervisorEvent::Spawned(ok)) => {
            supervisor.running = ok;
            if ok {
                supervisor.phase = Phase::Settling;
                Ok(
                    Directive {
                        action: SupervisorAction::Wait { seconds: GRACE_PERIOD_SECS },
                        notice: None,
                    },
                )
            } else {
                Ok(supervisor.sleep(Some(SupervisorNotice::SpawnFailed)))
            }
        },
        (Phase::Settling, SupervisorEvent::Wake) => {
            supervisor.phase = Phase::Handshaking;
            Ok(
                Directive {
                    action: SupervisorAction::Request {
                        socket_path: supervisor.socket_path.clone(),
                        request: manifest_request(),
                    },
                    notice: None,
                },
            )
        },
        (Phase::Handshaking, SupervisorEvent::Answered(outcome)) => {
            let notice = match outcome {
                HandshakeOutcome::Unreachable => Some(SupervisorNotice::HandshakeUnreachable),
                HandshakeOutcome::Malformed => Some(SupervisorNotice::HandshakeMalformed),
                HandshakeOutcome::Manifest(manifest) => {
                    registry.upsert(manifest);
                    None
                },
            };
            Ok(supervisor.sleep(notice))
        },
        (phase, _) => Err(SupervisorFault { phase }),
    }
}

/// Takes the watch over a plugin one step further: see `step`. The caller
/// does what the directive asks, logs its notice, and comes back with the
/// event that tells how it went. An event that the phase does not wait for
/// changes nothing and is reported as a fault.
pub fn watch_plugin(
    supervisor: &mut Supervisor,
    registry: &mut PluginRegistry,
    event: SupervisorEvent,
) -> (result: Result<Directive, SupervisorFault>)
    ensures
        result is Ok <==> awaits(old(supervisor)@.phase, event@),
        stepped(
            step(old(supervisor)@, old(registry)@, event@),
            (old(supervisor)@, old(registry)@),
            (final(supervisor)@, final(registry)@),
            result,
        ),
        old(supervisor)@.consistent() ==> final(supervisor)@.consistent(),
{
    match (supervisor.phase, event) {
        (Phase::Sleeping, SupervisorEvent::Wake) => {
            supervisor.phase = Phase::Probing;
            Ok(
                Directive {
                    action: SupervisorAction::ReadModified { path: supervisor.binary_path.clone() },
                    notice: None,
                },
            )
        },
        (Phase::Probing, SupervisorEvent::Modified(modified)) => {
            let notice = if modified.is_none() {
                Some(SupervisorNotice::MetadataUnreadable)
            } else {
                None
            };
            let changed = match (modified, supervisor.last_modified) {
                (Some(now), Some(last)) => now != last,
                (Some(_), None) => true,
                (None, _) => false,
            };
            let due = !supervisor.started || !supervisor.running || changed;
            if modified.is_some() {
                supervisor.last_modified = modified;
            }
            if !due {
                Ok(supervisor.sleep(notice))
            } else {
                supervisor.started = true;
                if supervisor.running {
                    supervisor.phase = Phase::Killing;
                    Ok(Directive { action: SupervisorAction::Kill, notice })
                } else {
                    Ok(supervisor.clear_socket(notice))
                }
            }
        },
        (Phase::Killing, SupervisorEvent::Killed(ok)) => {
            supervisor.running = false;
            let notice = if ok {
                None
            } else {
                Some(SupervisorNotice::KillFailed)
            };
            Ok(supervisor.clear_socket(notice))
        },
        (Phase::Sleeping, _) => Err(SupervisorFault { phase: Phase::Sleeping }),
        (Phase::Probing, _) => Err(SupervisorFault { phase: Phase::Probing }),
        (Phase::Killing, _) => Err(SupervisorFault { phase: Phase::Killing }),
        (_, event) => restart_backend_process(supervisor, registry, event),
    }
}

/// A supervisor, the registry and every directive given, after a run of
/// events.
pub struct RunView {
    pub state: SupervisorView,
    pub registry: Map<Seq<char>, ManifestView>,
    pub directives: Seq<DirectiveView>,
}

/// The watch taken through a run of events, oldest first. `None` where one
/// of them is not the event that the supervisor waits for at that point.
pub open spec fn run(
    s: SupervisorView,
    registry: Map<Seq<char>, ManifestView>,
    events: Seq<SupervisorEventView>,
) -> Option<RunView>
    decreases events.len(),
{
    if events.len() == 0 {
        Some(RunView { state: s, registry, directives: Seq::empty() })
    } else {
        match run(s, registry, events.drop_last()) {
            Some(so_far) => match step(so_far.state, so_far.registry, events.last()) {
                Some(next) => Some(
                    RunView {
                        state: next.state,
                        registry: next.registry,
                        directives: so_far.directives.push(next.directive),
                    },
                ),
                None => None,
            },
            None => None,
        }
    }
}

/// The actions of a run of directives.
pub open spec fn actions(directives: Seq<DirectiveView>) -> Seq<SupervisorActionView> {
    directives.map_values(|d: DirectiveView| d.action)
}

/// A run that is one event longer is the shorter run and then one step.
pub proof fn lemma_run_extends(
    s: SupervisorView,
    registry: Map<Seq<char>, ManifestView>,
    events: Seq<SupervisorEventView>,
    event: SupervisorEventView,
)
    ensures
        run(s, registry, events.push(event)) == match run(s, registry, events) {
            Some(so_far) => match step(so_far.state, so_far.registry, event) {
                Some(next) => Some(
                    RunView {
                        state: next.state,
                        registry: next.registry,
                        directives: so_far.directives.push(next.directive),
                    },
                ),
                None => None,
            },
            None => None,
        },
{
    assert(events.push(event).drop_last() =~= events);
}

/// A step is taken exactly when the event is the awaited one: no failure
/// that an event reports ever stops the watch.
pub proof fn lemma_step_iff_awaited(
    s: SupervisorView,
    registry: Map<Seq<char>, ManifestView>,
    event: SupervisorEventView,
)
    ensures
        step(s, registry, event) is Some <==> awaits(s.phase, event),
        restart_step(s, registry, event) is Some <==> in_restart(s.phase) && awaits(
            s.phase,
            event,
        ),
        in_restart(s.phase) ==> step(s, registry, event) == restart_step(s, registry, event),
{
}

/// A step keeps the supervisor consistent: it never holds a process while
/// it clears the socket or starts the executable, and always holds one
/// while it kills, waits out the grace period or shakes hands.
pub proof fn lemma_step_keeps_consistent(
    s: SupervisorView,
    registry: Map<Seq<char>, ManifestView>,
    event: SupervisorEventView,
)
    requires
        s.consistent(),
    ensures
        step(s, registry, event) matches Some(next) ==> next.state.consistent(),
{
}

/// The executable is started only by a supervisor that holds no process, and
/// a process is killed only by one that holds one: so at most one process
/// is ever held.
pub proof fn lemma_one_process_at_a_time(
    s: SupervisorView,
    registry: Map<Seq<char>, ManifestView>,
    event: SupervisorEventView,
)
    requires
        s.consistent(),
    ensures
        step(s, registry, event) matches Some(next) ==> {
            &&& next.directive.action is Spawn ==> !s.running && !next.state.running
            &&& next.directive.action is Kill ==> s.running
        },
{
}

/// Only the end of a handshake that brought a manifest changes the
/// registry, and it changes it by that one upsert.
pub proof fn lemma_registry_changes_on_manifest_only(
    s: SupervisorView,
    registry: Map<Seq<char>, ManifestView>,
    event: SupervisorEventView,
)
    ensures
        step(s, registry, event) matches Some(next) ==> next.registry == (if s.phase
            == Phase::Handshaking {
            match event {
                SupervisorEventView::Answered(HandshakeOutcomeView::Manifest(m)) => upserted(
                    registry,
                    m,
                ),
                _ => registry,
            }
        } else {
            registry
        }),
{
}

/// A look that finds the modification time changed, while a process is held,
/// leads to exactly one kill and, once the socket is cleared, exactly one
/// start before the plugin is asked for its manifest, provided that the
/// start succeeds. Neither the kill's failure nor a leftover socket file
/// stands in the way.
pub proof fn lemma_change_restarts_once(
    s: SupervisorView,
    registry: Map<Seq<char>, ManifestView>,
    modified: u128,
    killed: bool,
    cleared: bool,
)
    requires
        s.phase == Phase::Probing,
        s.started,
        s.running,
        s.last_modified != Some(modified),
    ensures
        run(
            s,
            registry,
            seq![
                SupervisorEventView::Modified(Some(modified)),
                SupervisorEventView::Killed(killed),
                SupervisorEventView::SocketCleared(cleared),
                SupervisorEventView::Spawned(true),
                SupervisorEventView::Wake,
            ],
        ) matches Some(done) && {
            &&& actions(done.directives) == seq![
                SupervisorActionView::Kill,
                SupervisorActionView::RemoveSocket { path: s.socket_path },
                SupervisorActionView::Spawn { executable: s.binary_path, argument: s.socket_path },
                SupervisorActionView::Wait { seconds: GRACE_PERIOD_SECS },
                SupervisorActionView::Request {
                    socket_path: s.socket_path,
                    request: manifest_request_view(),
                },
            ]
            &&& done.registry == registry
            &&& done.state == (SupervisorView {
                phase: Phase::Handshaking,
                last_modified: Some(modified),
                ..s
            })
        },
{
    let e0 = Seq::<SupervisorEventView>::empty();
    let e1 = e0.push(SupervisorEventView::Modified(Some(modified)));
    let e2 = e1.push(SupervisorEventView::Killed(killed));
    let e3 = e2.push(SupervisorEventView::SocketCleared(cleared));
    let e4 = e3.push(SupervisorEventView::Spawned(true));
    let e5 = e4.push(SupervisorEventView::Wake);
    lemma_run_extends(s, registry, e0, SupervisorEventView::Modified(Some(modified)));
    lemma_run_extends(s, registry, e1, SupervisorEventView::Killed(killed));
    lemma_run_extends(s, registry, e2, SupervisorEventView::SocketCleared(cleared));
    lemma_run_extends(s, registry, e3, SupervisorEventView::Spawned(true));
    lemma_run_extends(s, registry, e4, SupervisorEventView::Wake);
    assert(e5 =~= seq![
        SupervisorEventView::Modified(Some(modified)),
        SupervisorEventView::Killed(killed),
        SupervisorEventView::SocketCleared(cleared),
        SupervisorEventView::Spawned(true),
        SupervisorEventView::Wake,
    ]);
    let done = run(s, registry, e5)->0;
    assert(actions(done.directives) =~= seq![
        SupervisorActionView::Kill,
        SupervisorActionView::RemoveSocket { path: s.socket_path },
        SupervisorActionView::Spawn { executable: s.binary_path, argument: s.socket_path },
        SupervisorActionView::Wait { seconds: GRACE_PERIOD_SECS },
        SupervisorActionView::Request {
            socket_path: s.socket_path,
            request: manifest_request_view(),
        },
    ]);
}

/// A look that finds the modification time as it was, or cannot read it,
/// while a started process is held, touches nothing: the supervisor sleeps
/// until the next tick.
pub proof fn lemma_unchanged_sleeps_on(
    s: SupervisorView,
    registry: Map<Seq<char>, ManifestView>,
    modified: Option<u128>,
)
    requires
        s.phase == Phase::Probing,
        s.started,
        s.running,
        modified is None || modified == s.last_modified,
    ensures
        step(s, registry, SupervisorEventView::Modified(modified)) matches Some(next) && {
            &&& next.directive.action == SupervisorActionView::Wait { seconds: POLL_INTERVAL_SECS }
            &&& next.state == (SupervisorView { phase: Phase::Sleeping, ..s })
            &&& next.registry == registry
        },
{
}

/// While no process is held, every look at the executable leads to a new
/// start, whatever the modification time says.
pub proof fn lemma_no_process_restarts(
    s: SupervisorView,
    registry: Map<Seq<char>, ManifestView>,
    modified: Option<u128>,
)
    requires
        s.phase == Phase::Probing,
        !s.running,
    ensures
        step(s, registry, SupervisorEventView::Modified(modified)) matches Some(next) && {
            &&& next.directive.action == SupervisorActionView::RemoveSocket { path: s.socket_path }
            &&& next.state.phase == Phase::Clearing
        },
{
}

/// The first cycle of a supervisor whose executable starts: it looks once,
/// clears the socket, starts the executable, waits the grace period and
/// shakes hands once. Afterwards the registry holds the plugin's manifest
/// under the id that the manifest declares, or it is as it was and the last
/// directive carries the notice of the failed handshake.
pub proof fn lemma_first_cycle(
    binary_path: Seq<char>,
    socket_path: Seq<char>,
    registry: Map<Seq<char>, ManifestView>,
    modified: Option<u128>,
    cleared: bool,
    outcome: HandshakeOutcomeView,
)
    ensures
        run(
            initial(binary_path, socket_path),
            registry,
            seq![
                SupervisorEventView::Wake,
                SupervisorEventView::Modified(modified),
                SupervisorEventView::SocketCleared(cleared),
                SupervisorEventView::Spawned(true),
                SupervisorEventView::Wake,
                SupervisorEventView::Answered(outcome),
            ],
        ) matches Some(done) && {
            &&& actions(done.directives) == seq![
                SupervisorActionView::ReadModified { path: binary_path },
                SupervisorActionView::RemoveSocket { path: socket_path },
                SupervisorActionView::Spawn { executable: binary_path, argument: socket_path },
                SupervisorActionView::Wait { seconds: GRACE_PERIOD_SECS },
                SupervisorActionView::Request {
                    socket_path: socket_path,
                    request: manifest_request_view(),
                },
                SupervisorActionView::Wait { seconds: POLL_INTERVAL_SECS },
            ]
            &&& done.state.phase == Phase::Sleeping
            &&& done.state.running
            &&& match outcome {
                HandshakeOutcomeView::Manifest(m) => {
                    &&& done.registry == upserted(registry, m)
                    &&& done.registry.contains_key(m.id)
                    &&& done.registry[m.id] == m
                    &&& done.directives.last().notice is None
                },
                HandshakeOutcomeView::Unreachable => {
                    &&& done.registry == registry
                    &&& done.directives.last().notice == Some(
                        SupervisorNotice::HandshakeUnreachable,
                    )
                },
                HandshakeOutcomeView::Malformed => {
                    &&& done.registry == registry
                    &&& done.directives.last().notice == Some(SupervisorNotice::HandshakeMalformed)
                },
            }
        },
{
    let s = initial(binary_path, socket_path);
    let e0 = Seq::<SupervisorEventView>::empty();
    let e1 = e0.push(SupervisorEventView::Wake);
    let e2 = e1.push(SupervisorEventView::Modified(modified));
    let e3 = e2.push(SupervisorEventView::SocketCleared(cleared));
    let e4 = e3.push(SupervisorEventView::Spawned(true));
    let e5 = e4.push(SupervisorEventView::Wake);
    let e6 = e5.push(SupervisorEventView::Answered(outcome));
    lemma_run_extends(s, registry, e0, SupervisorEventView::Wake);
    lemma_run_extends(s, registry, e1, SupervisorEventView::Modified(modified));
    lemma_run_extends(s, registry, e2, SupervisorEventView::SocketCleared(cleared));
    lemma_run_extends(s, registry, e3, SupervisorEventView::Spawned(true));
    lemma_run_extends(s, registry, e4, SupervisorEventView::Wake);
    lemma_run_extends(s, registry, e5, SupervisorEventView::Answered(outcome));
    assert(e6 =~= seq![
        SupervisorEventView::Wake,
        SupervisorEventView::Modified(modified),
        SupervisorEventView::SocketCleared(cleared),
        SupervisorEventView::Spawned(true),
        SupervisorEventView::Wake,
        SupervisorEventView::Answered(outcome),
    ]);
    let done = run(s, registry, e6)->0;
    assert(actions(done.directives) =~= seq![
        SupervisorActionView::ReadModified { path: binary_path },
        SupervisorActionView::RemoveSocket { path: socket_path },
        SupervisorActionView::Spawn { executable: binary_path, argument: socket_path },
        SupervisorActionView::Wait { seconds: GRACE_PERIOD_SECS },
        SupervisorActionView::Request {
            socket_path: socket_path,
            request: manifest_request_view(),
        },
        SupervisorActionView::Wait { seconds: POLL_INTERVAL_SECS },
    ]);
}

/// The first cycle of a supervisor whose executable does not start: no
/// handshake is tried, the registry is as it was, and the supervisor sleeps
/// with the notice of the failed start and without a process.
pub proof fn lemma_first_cycle_without_start(
    binary_path: Seq<char>,
    socket_path: Seq<char>,
    registry: Map<Seq<char>, ManifestView>,
    modified: Option<u128>,
    cleared: bool,
)
    ensures
        run(
            initial(binary_path, socket_path),
            registry,
            seq![
                SupervisorEventView::Wake,
                SupervisorEventView::Modified(modified),
                SupervisorEventView::SocketCleared(cleared),
                SupervisorEventView::Spawned(false),
            ],
        ) matches Some(done) && {
            &&& actions(done.directives) == seq![
                SupervisorActionView::ReadModified { path: binary_path },
                SupervisorActionView::RemoveSocket { path: socket_path },
                SupervisorActionView::Spawn { executable: binary_path, argument: socket_path },
                SupervisorActionView::Wait { seconds: POLL_INTERVAL_SECS },
            ]
            &&& done.registry == registry
            &&& done.state.phase == Phase::Sleeping
            &&& !done.state.running
            &&& done.directives.last().notice == Some(SupervisorNotice::SpawnFailed)
        },
{
    let s = initial(binary_path, socket_path);
    let e0 = Seq::<SupervisorEventView>::empty();
    let e1 = e0.push(SupervisorEventView::Wake);
    let e2 = e1.push(SupervisorEventView::Modified(modified));
    let e3 = e2.push(SupervisorEventView::SocketCleared(cleared));
    let e4 = e3.push(SupervisorEventView::Spawned(false));
    lemma_run_extends(s, registry, e0, SupervisorEventView::Wake);
    lemma_run_extends(s, registry, e1, SupervisorEventView::Modified(modified));
    lemma_run_extends(s, registry, e2, SupervisorEventView::SocketCleared(cleared));
    lemma_run_extends(s, registry, e3, SupervisorEventView::Spawned(false));
    assert(e4 =~= seq![
        SupervisorEventView::Wake,
        SupervisorEventView::Modified(modified),
        SupervisorEventView::SocketCleared(cleared),
        SupervisorEventView::Spawned(false),
    ]);
    let done = run(s, registry, e4)->0;
    assert(actions(done.directives) =~= seq![
        SupervisorActionView::ReadModified { path: binary_path },
        SupervisorActionView::RemoveSocket { path: socket_path },
        SupervisorActionView::Spawn { executable: binary_path, argument: socket_path },
        SupervisorActionView::Wait { seconds: POLL_INTERVAL_SECS },
    ]);
}

} // verus!
