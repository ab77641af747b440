//! Whether the relay starts: the fixed endpoint, the start-up decisions,
//! and the readiness flag that the surrounding application reads.

use vstd::prelude::*;

verus! {

/// The port on which the relay listens.
pub const RELAY_PORT: u16 = 2356;

/// How many messages one subscriber's queue holds.
pub const BUS_CAPACITY: usize = 100;

/// Where the relay listens. Fixed for the life of the process.
#[derive(Clone, Copy, Debug, PartialEq, Eq)]
pub struct Endpoint {
    pub host: (u8, u8, u8, u8),
    pub port: u16,
}

/// The relay's endpoint: the loopback address and the fixed port.
pub fn relay_endpoint() -> (endpoint: Endpoint)
    ensures
        endpoint == (Endpoint { host: (127u8, 0u8, 0u8, 1u8), port: RELAY_PORT }),
{
    Endpoint { host: (127, 0, 0, 1), port: RELAY_PORT }
}

/// Whether the relay runs. Made once at start-up; it cannot be changed.
#[derive(Clone, Copy, Debug, PartialEq, Eq, Structural)]
pub struct StatusFlag {
    running: bool,
}

impl StatusFlag {
    pub closed spec fn running(self) -> bool {
        self.running
    }

    /// Whether the relay runs. No side effect.
    pub fn is_running(&self) -> (running: bool)
        ensures
            running == self.running(),
    {
        self.running
    }
}

/// Where the relay's start-up stands.
#[derive(Clone, Copy, Debug, PartialEq, Eq, Structural)]
pub enum Phase {
    /// The port has yet to be probed.
    Probing,
    /// The port was free when probed; the listening socket is being opened.
    Binding,
    /// The socket is open and connections are accepted.
    Running,
    /// The relay did not start, and will not.
    NotStarted,
}

/// What the outside world reported to the start-up.
#[derive(Clone, Copy, Debug, PartialEq, Eq, Structural)]
pub enum StartupEvent {
    /// The probe found the port free.
    PortFree,
    /// The probe could not bind the port.
    PortInUse,
    /// The listening socket is open.
    Bound,
    /// The listening socket could not be opened, though the probe passed.
    BindFailed,
}

impl StartupEvent {
    /// What the probe reports: the port is free where the trial bind on
    /// loopback succeeded, and in use where it failed for whatever reason.
    pub fn from_probe(bound: bool) -> (event: StartupEvent)
        ensures
            event == if bound {
                StartupEvent::PortFree
            } else {
                StartupEvent::PortInUse
            },
    {
        if bound {
            StartupEvent::PortFree
        } else {
            StartupEvent::PortInUse
        }
    }

    /// What the attempt to open the listening socket reports.
    pub fn from_bind(bound: bool) -> (event: StartupEvent)
        ensures
            event == if bound {
                StartupEvent::Bound
            } else {
                StartupEvent::BindFailed
            },
    {
        if bound {
            StartupEvent::Bound
        } else {
            StartupEvent::BindFailed
        }
    }
}

/// What is to be done next.
#[derive(Clone, Copy, Debug, PartialEq, Eq)]
pub enum StartupAction {
    /// Open the listening socket on this endpoint.
    Bind(Endpoint),
    /// Create the bus and accept connections.
    Serve,
    /// Nothing: the application goes on without the relay.
    Nothing,
}

/// The phase that follows `phase` on `event`. The two final phases are
/// left by no event; an event that does not belong to a phase is ignored.
pub open spec fn next_phase(phase: Phase, event: StartupEvent) -> Phase {
    match (phase, event) {
        (Phase::Probing, StartupEvent::PortFree) => Phase::Binding,
        (Phase::Probing, StartupEvent::PortInUse) => Phase::NotStarted,
        (Phase::Binding, StartupEvent::Bound) => Phase::Running,
        (Phase::Binding, StartupEvent::BindFailed) => Phase::NotStarted,
        _ => phase,
    }
}

/// What `event` asks for in `phase`.
pub open spec fn action_on(phase: Phase, event: StartupEvent) -> StartupAction {
    match (phase, event) {
        (Phase::Probing, StartupEvent::PortFree) => StartupAction::Bind(
            Endpoint { host: (127u8, 0u8, 0u8, 1u8), port: RELAY_PORT },
        ),
        (Phase::Binding, StartupEvent::Bound) => StartupAction::Serve,
        _ => StartupAction::Nothing,
    }
}

/// The phase after a sequence of events, first to last.
pub open spec fn phase_after(phase: Phase, events: Seq<StartupEvent>) -> Phase
    decreases events.len(),
{
    if events.len() == 0 {
        phase
    } else {
        next_phase(phase_after(phase, events.drop_last()), events.last())
    }
}

/// The start-up of the relay.
pub struct RelayServer {
    phase: Phase,
}

impl View for RelayServer {
    type V = Phase;

    closed spec fn view(&self) -> Phase {
        self.phase
    }
}

impl RelayServer {
    /// A relay that has yet to probe its port.
    pub fn new() -> (server: RelayServer)
        ensures
            server@ == Phase::Probing,
    {
        RelayServer { phase: Phase::Probing }
    }

    pub fn phase(&self) -> (phase: Phase)
        ensures
            phase == self@,
    {
        self.phase
    }

    /// Takes one event and says what to do next.
    pub fn step(&mut self, event: StartupEvent) -> (action: StartupAction)
        ensures
            final(self)@ == next_phase(old(self)@, event),
            action == action_on(old(self)@, event),
    {
        match (self.phase, event) {
            (Phase::Probing, StartupEvent::PortFree) => {
                self.phase = Phase::Binding;
                StartupAction::Bind(relay_endpoint())
            },
            (Phase::Probing, StartupEvent::PortInUse) => {
                self.phase = Phase::NotStarted;
                StartupAction::Nothing
            },
            (Phase::Binding, StartupEvent::Bound) => {
                self.phase = Phase::Running;
                StartupAction::Serve
            },
            (Phase::Binding, StartupEvent::BindFailed) => {
                self.phase = Phase::NotStarted;
                StartupAction::Nothing
            },
            _ => StartupAction::Nothing,
        }
    }

    /// The readiness flag: set exactly when the relay has bound its socket
    /// and accepts connections.
    pub fn status(&self) -> (flag: StatusFlag)
        ensures
            flag.running() <==> self@ == Phase::Running,
    {
        StatusFlag {
            running: match self.phase {
                Phase::Running => true,
                _ => false,
            },
        }
    }
}

/// The status query of the surrounding application.
pub fn check_websocket_status(state: &StatusFlag) -> (running: bool)
    ensures
        running == state.running(),
{
    state.is_running()
}

/// Start-up exclusivity: once the probe has found the port in use, the
/// relay is not started, nothing is asked of the caller, and no later
/// event starts it.
pub proof fn law_port_in_use_never_runs(events: Seq<StartupEvent>)
    ensures
        next_phase(Phase::Probing, StartupEvent::PortInUse) == Phase::NotStarted,
        action_on(Phase::Probing, StartupEvent::PortInUse) == StartupAction::Nothing,
        phase_after(Phase::NotStarted, events) == Phase::NotStarted,
    decreases events.len(),
{
    if events.len() > 0 {
        law_port_in_use_never_runs(events.drop_last());
    }
}

/// The flag is set once: a relay that runs keeps running, whatever is
/// reported to it afterwards.
pub proof fn law_running_is_final(events: Seq<StartupEvent>)
    ensures
        phase_after(Phase::Running, events) == Phase::Running,
    decreases events.len(),
{
    if events.len() > 0 {
        law_running_is_final(events.drop_last());
    }
}

} // verus!
