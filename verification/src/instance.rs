//! One server instance, as a machine that is told what happened and says
//! what to do next. The caller loads, binds, accepts and serves; the
//! decisions are made here.

use crate::conf::{Conf, ConfView};
use crate::identity::CertificateError;
use crate::text::{decimal_digits, push_decimal};
use vstd::prelude::*;
use vstd::string::*;

verus! {

/// An IPv4 address, by its four octets.
#[derive(Clone, Copy, Debug, PartialEq, Eq, Structural)]
pub struct Address(pub u8, pub u8, pub u8, pub u8);

/// Why a server instance ended.
#[derive(Clone, Copy, Debug, PartialEq, Eq, Structural)]
pub enum InstanceError {
    /// The TLS identity could not be loaded.
    Certificate(CertificateError),
    /// The local port could not be bound.
    Bind,
    /// The running server failed as a whole.
    Server,
}

/// Where an instance stands.
#[derive(Clone, Copy, Debug, PartialEq, Eq, Structural)]
pub enum Phase {
    /// Not started yet.
    Idle,
    /// Waiting for the TLS identity.
    LoadingIdentity,
    /// Waiting for the local port.
    Binding,
    /// Accepting connections.
    Serving,
    /// Ended; the instance does nothing more.
    Stopped,
}

/// What happened.
#[derive(Clone, Copy, Debug, PartialEq, Eq, Structural)]
pub enum Event {
    /// The instance is to start.
    Start,
    /// The identity was loaded.
    IdentityLoaded,
    /// The identity could not be loaded.
    IdentityFailed(CertificateError),
    /// The local port is bound.
    Bound,
    /// The local port could not be bound.
    BindFailed,
    /// A connection came in.
    Accepted,
    /// The TLS handshake on a connection succeeded.
    HandshakeDone,
    /// The TLS handshake on a connection failed.
    HandshakeFailed,
    /// The server failed as a whole.
    ServerFailed,
}

/// What to do next.
#[derive(Clone, Copy, Debug, PartialEq, Eq, Structural)]
pub enum Action {
    /// Read the bundle and the passphrase file and load the identity.
    LoadIdentity,
    /// Bind the local port on every address of the machine.
    Bind { address: Address, port: u16 },
    /// Start accepting connections.
    Accept,
    /// Run the TLS handshake on the connection that came in.
    Handshake,
    /// Hand the connection to the forwarder.
    Serve,
    /// Log the failure and close the connection; the listener goes on.
    DropConnection,
    /// End the instance with this error.
    Stop(InstanceError),
    /// Nothing: the event does not belong to this phase.
    Ignore,
}

/// The address that stands for every address of the machine.
pub open spec fn wildcard() -> Address {
    Address(0, 0, 0, 0)
}

/// The binding of the local port of `conf`.
pub open spec fn bind_of(conf: ConfView) -> Action {
    Action::Bind { address: wildcard(), port: conf.local_port }
}

/// The next phase and the action for an event. An instance that terminates
/// TLS loads its identity first and binds only once it has it; a plain one
/// binds at once. A failure to load or to bind, and a failure of the server
/// as a whole, end the instance. A failed handshake costs one connection and
/// nothing else. An event that the phase does not wait for changes nothing.
pub open spec fn step(conf: ConfView, phase: Phase, event: Event) -> (Phase, Action) {
    match (phase, event) {
        (Phase::Idle, Event::Start) => if conf.listens_tls() {
            (Phase::LoadingIdentity, Action::LoadIdentity)
        } else {
            (Phase::Binding, bind_of(conf))
        },
        (Phase::LoadingIdentity, Event::IdentityLoaded) => (Phase::Binding, bind_of(conf)),
        (Phase::LoadingIdentity, Event::IdentityFailed(error)) => (
            Phase::Stopped,
            Action::Stop(InstanceError::Certificate(error)),
        ),
        (Phase::Binding, Event::Bound) => (Phase::Serving, Action::Accept),
        (Phase::Binding, Event::BindFailed) => (Phase::Stopped, Action::Stop(InstanceError::Bind)),
        (Phase::Serving, Event::Accepted) => if conf.listens_tls() {
            (Phase::Serving, Action::Handshake)
        } else {
            (Phase::Serving, Action::Serve)
        },
        (Phase::Serving, Event::HandshakeDone) => if conf.listens_tls() {
            (Phase::Serving, Action::Serve)
        } else {
            (Phase::Serving, Action::Ignore)
        },
        (Phase::Serving, Event::HandshakeFailed) => if conf.listens_tls() {
            (Phase::Serving, Action::DropConnection)
        } else {
            (Phase::Serving, Action::Ignore)
        },
        (Phase::Serving, Event::ServerFailed) => (
            Phase::Stopped,
            Action::Stop(InstanceError::Server),
        ),
        _ => (phase, Action::Ignore),
    }
}

/// Tells the instance what happened and learns what to do next.
pub fn server(conf: &Conf, phase: Phase, event: Event) -> (next: (Phase, Action))
    ensures
        next == step(conf@, phase, event),
{
    let tls = conf.https_crt.is_some();
    let bind = Action::Bind { address: Address(0, 0, 0, 0), port: conf.local_port };
    match phase {
        Phase::Idle => match event {
            Event::Start => if tls {
                (Phase::LoadingIdentity, Action::LoadIdentity)
            } else {
                (Phase::Binding, bind)
            },
            _ => (phase, Action::Ignore),
        },
        Phase::LoadingIdentity => match event {
            Event::IdentityLoaded => (Phase::Binding, bind),
            Event::IdentityFailed(error) => (
                Phase::Stopped,
                Action::Stop(InstanceError::Certificate(error)),
            ),
            _ => (phase, Action::Ignore),
        },
        Phase::Binding => match event {
            Event::Bound => (Phase::Serving, Action::Accept),
            Event::BindFailed => (Phase::Stopped, Action::Stop(InstanceError::Bind)),
            _ => (phase, Action::Ignore),
        },
        Phase::Serving => match event {
            Event::Accepted => if tls {
                (Phase::Serving, Action::Handshake)
            } else {
                (Phase::Serving, Action::Serve)
            },
            Event::HandshakeDone => if tls {
                (Phase::Serving, Action::Serve)
            } else {
                (Phase::Serving, Action::Ignore)
            },
            Event::HandshakeFailed => if tls {
                (Phase::Serving, Action::DropConnection)
            } else {
                (Phase::Serving, Action::Ignore)
            },
            Event::ServerFailed => (Phase::Stopped, Action::Stop(InstanceError::Server)),
            _ => (phase, Action::Ignore),
        },
        Phase::Stopped => (phase, Action::Ignore),
    }
}

/// The phase that an instance reaches from `phase` over a run of events,
/// and the actions that it asked for on the way, one for each event.
pub open spec fn run(conf: ConfView, phase: Phase, events: Seq<Event>) -> (Phase, Seq<Action>)
    decreases events.len(),
{
    if events.len() == 0 {
        (phase, Seq::empty())
    } else {
        let before = run(conf, phase, events.drop_last());
        let last = step(conf, before.0, events.last());
        (last.0, before.1.push(last.1))
    }
}

/// Nothing is bound before the identity is there: the port is asked for in
/// answer to a loaded identity, or in answer to the start of an instance
/// that terminates no TLS, and never otherwise.
pub proof fn law_bind_follows_identity(conf: ConfView, phase: Phase, event: Event)
    requires
        step(conf, phase, event).1 is Bind,
    ensures
        step(conf, phase, event).1 == bind_of(conf),
        (phase == Phase::LoadingIdentity && event == Event::IdentityLoaded) || (phase
            == Phase::Idle && event == Event::Start && !conf.listens_tls()),
{
}

/// Over a whole run: as long as no identity was loaded, an instance that
/// terminates TLS has asked for no port, whatever else happened.
pub proof fn law_no_bind_without_identity(conf: ConfView, events: Seq<Event>, at: int)
    requires
        conf.listens_tls(),
        forall|i: int| 0 <= i < events.len() ==> events[i] != Event::IdentityLoaded,
        0 <= at < events.len(),
    ensures
        run(conf, Phase::Idle, events).1.len() == events.len(),
        !(run(conf, Phase::Idle, events).1[at] is Bind),
    decreases events.len(),
{
    lemma_run_len(conf, Phase::Idle, events);
    if at < events.len() - 1 {
        law_no_bind_without_identity(conf, events.drop_last(), at);
        lemma_run_len(conf, Phase::Idle, events.drop_last());
    }
}

/// A run asks for one action for each event.
pub proof fn lemma_run_len(conf: ConfView, phase: Phase, events: Seq<Event>)
    ensures
        run(conf, phase, events).1.len() == events.len(),
    decreases events.len(),
{
    if events.len() > 0 {
        lemma_run_len(conf, phase, events.drop_last());
    }
}

/// An identity that cannot be loaded ends the instance with the loader's
/// error, and so does a port that cannot be bound and a server that fails as
/// a whole, each with its own.
pub proof fn law_fatal_errors_stop(conf: ConfView, error: CertificateError)
    ensures
        step(conf, Phase::LoadingIdentity, Event::IdentityFailed(error)) == (
            Phase::Stopped,
            Action::Stop(InstanceError::Certificate(error)),
        ),
        step(conf, Phase::Binding, Event::BindFailed) == (
            Phase::Stopped,
            Action::Stop(InstanceError::Bind),
        ),
        step(conf, Phase::Serving, Event::ServerFailed) == (
            Phase::Stopped,
            Action::Stop(InstanceError::Server),
        ),
{
}

/// What happens to one connection never ends the instance: while it
/// serves, an accepted connection and a handshake, failed or not, leave it
/// serving.
pub proof fn law_connections_are_contained(conf: ConfView, event: Event)
    requires
        event == Event::Accepted || event == Event::HandshakeDone || event
            == Event::HandshakeFailed,
    ensures
        step(conf, Phase::Serving, event).0 == Phase::Serving,
        !(step(conf, Phase::Serving, event).1 is Stop),
        conf.listens_tls() && event == Event::HandshakeFailed ==> step(
            conf,
            Phase::Serving,
            event,
        ).1 == Action::DropConnection,
{
}

/// An instance that has ended does nothing more.
pub proof fn law_stopped_is_final(conf: ConfView, events: Seq<Event>)
    ensures
        run(conf, Phase::Stopped, events).0 == Phase::Stopped,
        forall|i: int|
            0 <= i < events.len() ==> (#[trigger] run(conf, Phase::Stopped, events).1[i])
                == Action::Ignore,
    decreases events.len(),
{
    lemma_run_len(conf, Phase::Stopped, events);
    if events.len() > 0 {
        law_stopped_is_final(conf, events.drop_last());
        lemma_run_len(conf, Phase::Stopped, events.drop_last());
    }
}

/// The text of an optional path: nothing where there is none.
pub open spec fn path_or_empty(path: Option<Seq<char>>) -> Seq<char> {
    match path {
        Some(text) => text,
        None => Seq::empty(),
    }
}

impl InstanceError {
    /// What the operator is told of the end of an instance of `conf`.
    pub open spec fn message(self, conf: ConfView) -> Seq<char> {
        match self {
            InstanceError::Certificate(error) => error.message(
                path_or_empty(conf.https_crt),
                path_or_empty(conf.https_crt_pass_file),
            ),
            InstanceError::Bind => "Error binding local port: "@ + decimal_digits(
                conf.local_port as nat,
            ),
            InstanceError::Server => "Server stopped on an error"@,
        }
    }

    /// Writes what the operator is told.
    pub fn describe(self, conf: &Conf) -> (text: String)
        ensures
            text@ == self.message(conf@),
    {
        match self {
            InstanceError::Certificate(error) => {
                let bundle_path = match &conf.https_crt {
                    Some(path) => path.as_str(),
                    None => "",
                };
                let passphrase_path = match &conf.https_crt_pass_file {
                    Some(path) => path.as_str(),
                    None => "",
                };
                proof {
                    reveal_strlit("");
                    assert(""@ =~= Seq::<char>::empty());
                }
                error.describe(bundle_path, passphrase_path)
            },
            InstanceError::Bind => {
                let mut text = "Error binding local port: ".to_owned();
                push_decimal(&mut text, conf.local_port);
                text
            },
            InstanceError::Server => "Server stopped on an error".to_owned(),
        }
    }
}

} // verus!
