//! Keeping the proxy alive: whenever a server instance ends, a new one is
//! started with the same configuration, at once and without a limit.

use crate::conf::{Conf, ConfView};
use crate::instance::{step, Action, Event, InstanceError, Phase};
use crate::log::{line, stamped, Level};
use crate::target::{listener_scheme, upstream_authority, upstream_scheme};
use crate::text::{decimal_digits, push_decimal};
use vstd::prelude::*;
use vstd::string::*;

verus! {

/// What is announced before each restart.
pub open spec fn restart_notice() -> Seq<char> {
    "Server crashed! Restarting..."@
}

/// What is announced at startup: where the proxy listens and where it
/// forwards to.
pub open spec fn banner_of(conf: ConfView) -> Seq<char> {
    "Starting server on "@ + conf.listener_scheme() + "://0.0.0.0:"@ + decimal_digits(
        conf.local_port as nat,
    ) + "\nProxying to "@ + conf.upstream_origin() + "\n"@
}

/// Writes what is announced at startup.
pub fn banner(conf: &Conf) -> (text: String)
    ensures
        text@ == banner_of(conf@),
{
    let mut text = "Starting server on ".to_owned();
    text.append(listener_scheme(conf));
    text.append("://0.0.0.0:");
    push_decimal(&mut text, conf.local_port);
    text.append("\nProxying to ");
    text.append(upstream_scheme(conf));
    text.append("://");
    text.append(upstream_authority(conf).as_str());
    text.append("\n");
    assert(text@ =~= banner_of(conf@));
    text
}

/// What the supervisor orders once an instance has ended.
pub struct Restart {
    /// The line to log for the error that ended the instance.
    pub report: String,
    /// The notice to print before the new instance starts.
    pub notice: String,
    /// The phase in which the new instance starts.
    pub phase: Phase,
}

/// Decides what follows the end of an instance of `conf`: whatever ended
/// it, the error is logged, the restart is announced, and a new instance
/// starts from the beginning.
pub fn supervise(conf: &Conf, timestamp: &str, ended: InstanceError) -> (restart: Restart)
    ensures
        restart.report@ == line(timestamp@, Level::Error, ended.message(conf@)),
        restart.notice@ == restart_notice(),
        restart.phase == Phase::Idle,
{
    Restart {
        report: stamped(timestamp, Level::Error, ended.describe(conf).as_str()),
        notice: "Server crashed! Restarting...".to_owned(),
        phase: Phase::Idle,
    }
}

/// Nothing is kept from one instance to the next: an instance that
/// terminates TLS and starts where [`supervise`] lets it start reads its
/// certificate again before it does anything else, and a plain one binds its
/// port again.
pub proof fn law_restart_starts_anew(conf: ConfView)
    ensures
        conf.listens_tls() ==> step(conf, Phase::Idle, Event::Start) == (
            Phase::LoadingIdentity,
            Action::LoadIdentity,
        ),
        !conf.listens_tls() ==> step(conf, Phase::Idle, Event::Start).0 == Phase::Binding && step(
            conf,
            Phase::Idle,
            Event::Start,
        ).1 is Bind,
{
}

} // verus!
