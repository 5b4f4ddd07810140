//! The listener's port supervision as explicit decisions: the supervisor's
//! state machine, the start-up port probe, and the operator's control panel.
//! Binding, accepting and waiting are left to the caller, which reports what
//! happened as an event and performs the action it gets back.

use vstd::prelude::*;

use crate::log::RequestLog;
use crate::record::HttpRequest;
use crate::text::{concat, decimal, decimal_text, parse_u16, u16_text_value};

verus! {

/// What observers see of the listener.
pub enum ServerStatus {
    Starting,
    Listening(u16),
    Error(String),
}

/// The status line shown to observers.
pub open spec fn status_line(s: ServerStatus) -> Seq<char> {
    match s {
        ServerStatus::Starting => "Starting..."@,
        ServerStatus::Listening(p) => "Listening on http://0.0.0.0:"@ + decimal(p as nat),
        ServerStatus::Error(d) => "Error: "@ + d@,
    }
}

impl ServerStatus {
    /// The status line (see [`status_line`]).
    pub fn describe(&self) -> (r: String)
        ensures
            r@ == status_line(*self),
    {
        match self {
            ServerStatus::Starting => "Starting...".to_owned(),
            ServerStatus::Listening(p) => {
                let n = decimal_text(*p as u64);
                concat("Listening on http://0.0.0.0:", n.as_str())
            },
            ServerStatus::Error(d) => concat("Error: ", d.as_str()),
        }
    }
}

/// What the caller reports back to the supervisor.
pub enum SupervisorEvent {
    /// The bind of the current port succeeded.
    BindSucceeded,
    /// The bind of the current port failed, with a human-readable detail.
    BindFailed(String),
    /// The operator asked for the listener to move to this port.
    PortRequested(u16),
}

/// What the supervisor asks the caller to do next.
#[derive(PartialEq, Eq, Structural, Clone, Copy, Debug)]
pub enum SupervisorAction {
    /// Bind a listener to this port and report the outcome.
    Bind(u16),
    /// Keep accepting connections, polling for port requests.
    Serve,
    /// Do nothing until the operator supplies a port.
    WaitForPort,
}

/// The port state shared between the listener and its observers.
pub struct PortSupervisor {
    pub current_port: u16,
    pub last_working_port: u16,
    pub status: ServerStatus,
}

/// The action that goes with a state: bind while starting, serve while
/// listening, wait for the operator after an error.
pub open spec fn action_for(status: ServerStatus, current: u16) -> SupervisorAction {
    match status {
        ServerStatus::Starting => SupervisorAction::Bind(current),
        ServerStatus::Listening(_) => SupervisorAction::Serve,
        ServerStatus::Error(_) => SupervisorAction::WaitForPort,
    }
}

/// The supervisor's transition. A bind outcome counts only while starting:
/// success makes the current port the last working one and the status
/// `Listening`; failure sets `Error` and keeps the last working port. A
/// request for a port other than 0 starts a bind of that port from any
/// state; port 0 is ignored.
pub open spec fn next_state(s: PortSupervisor, e: SupervisorEvent) -> PortSupervisor {
    match e {
        SupervisorEvent::BindSucceeded => if s.status is Starting {
            PortSupervisor {
                current_port: s.current_port,
                last_working_port: s.current_port,
                status: ServerStatus::Listening(s.current_port),
            }
        } else {
            s
        },
        SupervisorEvent::BindFailed(detail) => if s.status is Starting {
            PortSupervisor {
                current_port: s.current_port,
                last_working_port: s.last_working_port,
                status: ServerStatus::Error(detail),
            }
        } else {
            s
        },
        SupervisorEvent::PortRequested(p) => if p != 0 {
            PortSupervisor {
                current_port: p,
                last_working_port: s.last_working_port,
                status: ServerStatus::Starting,
            }
        } else {
            s
        },
    }
}

impl PortSupervisor {
    /// A supervisor about to bind `port`, which is also taken as the last
    /// working port (it was found free by the start-up probe).
    pub fn new(port: u16) -> (r: (PortSupervisor, SupervisorAction))
        ensures
            r.0.current_port == port,
            r.0.last_working_port == port,
            r.0.status is Starting,
            r.1 == SupervisorAction::Bind(port),
    {
        (PortSupervisor { current_port: port, last_working_port: port, status: ServerStatus::Starting }, SupervisorAction::Bind(port))
    }

    /// Applies one event (see [`next_state`]) and returns the next action.
    pub fn step(&mut self, event: SupervisorEvent) -> (r: SupervisorAction)
        ensures
            *final(self) == next_state(*old(self), event),
            r == action_for(final(self).status, final(self).current_port),
    {
        match event {
            SupervisorEvent::BindSucceeded => {
                if let ServerStatus::Starting = self.status {
                    self.last_working_port = self.current_port;
                    self.status = ServerStatus::Listening(self.current_port);
                }
            },
            SupervisorEvent::BindFailed(detail) => {
                if let ServerStatus::Starting = self.status {
                    self.status = ServerStatus::Error(detail);
                }
            },
            SupervisorEvent::PortRequested(p) => {
                if p != 0 {
                    self.current_port = p;
                    self.status = ServerStatus::Starting;
                }
            },
        }
        self.next_action()
    }

    /// The action that goes with the current state (see [`action_for`]).
    pub fn next_action(&self) -> (r: SupervisorAction)
        ensures
            r == action_for(self.status, self.current_port),
    {
        match self.status {
            ServerStatus::Starting => SupervisorAction::Bind(self.current_port),
            ServerStatus::Listening(_) => SupervisorAction::Serve,
            ServerStatus::Error(_) => SupervisorAction::WaitForPort,
        }
    }

    /// Whether the status is an error.
    pub fn is_error(&self) -> (r: bool)
        ensures
            r == self.status is Error,
    {
        match self.status {
            ServerStatus::Error(_) => true,
            _ => false,
        }
    }
}

/// One step of the start-up probe, which tries ports upward from `start`.
pub enum ProbeStep {
    /// Take this port.
    Use(u16),
    /// Try binding this port next.
    Try(u16),
}

/// Decides the probe's next step after trying `port`: take it when the bind
/// succeeded, else try the next port, and fall back to `start` when no port
/// up to 65535 was free.
pub fn probe_step(start: u16, port: u16, bound: bool) -> (r: ProbeStep)
    ensures
        bound ==> r == ProbeStep::Use(port),
        !bound && port < 65535 ==> r == ProbeStep::Try((port + 1) as u16),
        !bound && port == 65535 ==> r == ProbeStep::Use(start),
{
    if bound {
        ProbeStep::Use(port)
    } else if port < 65535 {
        ProbeStep::Try(port + 1)
    } else {
        ProbeStep::Use(start)
    }
}

/// The operator's side of the control surface: the port they asked for,
/// the text in the port field, the selected request and the error shown.
pub struct HttpServerApp {
    pub port: u16,
    pub port_input: String,
    pub selected_request: Option<usize>,
    pub error_message: Option<String>,
}

impl HttpServerApp {
    /// A panel showing `port`, with nothing selected and no error.
    pub fn new(port: u16) -> (r: HttpServerApp)
        ensures
            r.port == port,
            r.port_input@ == decimal(port as nat),
            r.selected_request is None,
            r.error_message is None,
    {
        HttpServerApp {
            port,
            port_input: decimal_text(port as u64),
            selected_request: None,
            error_message: None,
        }
    }

    /// Reacts to the listener's status. On an error the panel keeps the
    /// error's line (unless one is already shown) and, if it was showing
    /// another port, falls back to the last working port and returns it as
    /// the port to request. Otherwise nothing changes.
    pub fn observe_status(&mut self, status: &ServerStatus, last_working: u16) -> (r: Option<u16>)
        ensures
            !(status is Error) ==> *final(self) == *old(self) && r is None,
            status is Error ==> {
                &&& final(self).selected_request == old(self).selected_request
                &&& old(self).error_message is Some ==> final(self).error_message
                    == old(self).error_message
                &&& old(self).error_message is None ==> (final(self).error_message is Some
                    && final(self).error_message->Some_0@ == status_line(*status))
                &&& old(self).port != last_working ==> {
                    &&& r == Some(last_working)
                    &&& final(self).port == last_working
                    &&& final(self).port_input@ == decimal(last_working as nat)
                }
                &&& old(self).port == last_working ==> {
                    &&& r is None
                    &&& final(self).port == old(self).port
                    &&& final(self).port_input == old(self).port_input
                }
            },
    {
        if let ServerStatus::Error(_) = status {
            if self.error_message.is_none() {
                self.error_message = Some(status.describe());
            }
            if self.port != last_working {
                self.port = last_working;
                self.port_input = decimal_text(last_working as u64);
                Some(last_working)
            } else {
                None
            }
        } else {
            None
        }
    }

    /// Submits the port field. A port other than 0 and other than the one
    /// shown becomes the panel's port and is returned as the port to request;
    /// the port already shown is a no-op; port 0 or text that is not a port
    /// resets the field to the last working port.
    pub fn submit_port_input(&mut self, last_working: u16) -> (r: Option<u16>)
        ensures
            final(self).selected_request == old(self).selected_request,
            final(self).error_message == old(self).error_message,
            match u16_text_value(old(self).port_input@) {
                Some(p) => if p != 0 && p != old(self).port {
                    &&& r == Some(p)
                    &&& final(self).port == p
                    &&& final(self).port_input == old(self).port_input
                } else if p == 0 {
                    &&& r is None
                    &&& final(self).port == old(self).port
                    &&& final(self).port_input@ == decimal(last_working as nat)
                } else {
                    &&& r is None
                    &&& *final(self) == *old(self)
                },
                None => {
                    &&& r is None
                    &&& final(self).port == old(self).port
                    &&& final(self).port_input@ == decimal(last_working as nat)
                },
            },
    {
        match parse_u16(self.port_input.as_str()) {
            Some(p) => {
                if p != 0 && p != self.port {
                    self.port = p;
                    Some(p)
                } else if p == 0 {
                    self.port_input = decimal_text(last_working as u64);
                    None
                } else {
                    None
                }
            },
            None => {
                self.port_input = decimal_text(last_working as u64);
                None
            },
        }
    }

    /// Hides the error line.
    pub fn clear_error(&mut self)
        ensures
            final(self).error_message is None,
            final(self).port == old(self).port,
            final(self).port_input == old(self).port_input,
            final(self).selected_request == old(self).selected_request,
    {
        self.error_message = None;
    }

    /// The selected request in `log`, if the selection is within it.
    pub fn selected<'a>(&self, log: &'a RequestLog) -> (r: Option<&'a HttpRequest>)
        ensures
            match self.selected_request {
                Some(i) => if i < log@.len() {
                    r is Some && r->Some_0@ == log@[i as int]
                } else {
                    r is None
                },
                None => r is None,
            },
    {
        match self.selected_request {
            Some(i) => log.get(i),
            None => None,
        }
    }
}

} // verus!
