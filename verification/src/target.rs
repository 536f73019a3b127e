//! Where a request goes: the upstream's scheme, its authority and the URL
//! that a request target is forwarded to.

use crate::conf::{Conf, ConfView};
use crate::headers::{is_printable, is_value_text, law_printable_text_is_a_value};
use crate::text::{decimal_digits, lemma_decimal_digits, push_char, push_decimal};
use vstd::prelude::*;
use vstd::string::*;

verus! {

impl ConfView {
    /// Whether the upstream is reached over TLS: when that is asked for, and
    /// whenever the local listener terminates TLS itself.
    pub open spec fn upstream_is_tls(self) -> bool {
        self.to_https || self.listens_tls()
    }

    /// The scheme of the upstream URL.
    pub open spec fn upstream_scheme(self) -> Seq<char> {
        if self.upstream_is_tls() {
            "https"@
        } else {
            "http"@
        }
    }

    /// The scheme under which the local listener is reached.
    pub open spec fn listener_scheme(self) -> Seq<char> {
        if self.listens_tls() {
            "https"@
        } else {
            "http"@
        }
    }

    /// The upstream's host and port, as they stand in a URL and in a `Host`
    /// field: the host, a colon, and the port in decimal.
    pub open spec fn upstream_authority(self) -> Seq<char> {
        self.remote_url + seq![':'] + decimal_digits(self.remote_port as nat)
    }

    /// The upstream URL up to the path.
    pub open spec fn upstream_origin(self) -> Seq<char> {
        self.upstream_scheme() + "://"@ + self.upstream_authority()
    }

    /// The URL that the request target `target` is forwarded to: the
    /// upstream's origin, then the target as it came.
    pub open spec fn upstream_url(self, target: Seq<char>) -> Seq<char> {
        self.upstream_origin() + target
    }
}

/// The scheme follows the configuration: forcing TLS gives `https` behind
/// any listener, a listener that terminates TLS gives `https` without being
/// asked, and only a plain listener that forces nothing gives `http`. The two
/// schemes differ.
pub proof fn law_scheme_selection(conf: ConfView)
    ensures
        conf.to_https ==> conf.upstream_scheme() == "https"@,
        conf.https_crt is Some ==> conf.upstream_scheme() == "https"@,
        !conf.to_https && conf.https_crt is None ==> conf.upstream_scheme() == "http"@,
        "https"@ != "http"@,
{
    reveal_strlit("https");
    reveal_strlit("http");
    assert("https"@.len() != "http"@.len());
}

/// The request target reaches the upstream as it came: the URL is the
/// origin followed by the target, character for character, whatever the
/// target holds.
pub proof fn law_target_is_kept(conf: ConfView, target: Seq<char>)
    ensures
        conf.upstream_url(target).len() == conf.upstream_origin().len() + target.len(),
        conf.upstream_url(target).subrange(0, conf.upstream_origin().len() as int)
            == conf.upstream_origin(),
        conf.upstream_url(target).subrange(
            conf.upstream_origin().len() as int,
            conf.upstream_url(target).len() as int,
        ) == target,
{
    let origin = conf.upstream_origin();
    let url = conf.upstream_url(target);
    assert(url.subrange(0, origin.len() as int) =~= origin);
    assert(url.subrange(origin.len() as int, url.len() as int) =~= target);
}

/// An upstream host of printable ASCII gives an authority that may stand in
/// a `Host` field, whatever the port.
pub proof fn law_printable_host_makes_a_host_value(conf: ConfView)
    requires
        is_printable(conf.remote_url),
    ensures
        is_printable(conf.upstream_authority()),
        is_value_text(conf.upstream_authority()),
{
    lemma_decimal_digits(conf.remote_port as nat);
    let digits = decimal_digits(conf.remote_port as nat);
    let authority = conf.upstream_authority();
    assert forall|i: int| 0 <= i < authority.len() implies ' ' <= #[trigger] authority[i]
        <= '~' by {
        if i < conf.remote_url.len() {
            assert(authority[i] == conf.remote_url[i]);
        } else if i == conf.remote_url.len() {
            assert(authority[i] == ':');
        } else {
            assert(authority[i] == digits[i - conf.remote_url.len() - 1]);
            assert(crate::text::is_digit(digits[i - conf.remote_url.len() - 1]));
        }
    }
    law_printable_text_is_a_value(authority);
}

/// The scheme of the upstream URL.
pub fn upstream_scheme(conf: &Conf) -> (scheme: &'static str)
    ensures
        scheme@ == conf@.upstream_scheme(),
{
    if conf.to_https || conf.https_crt.is_some() {
        "https"
    } else {
        "http"
    }
}

/// The scheme under which the local listener is reached.
pub fn listener_scheme(conf: &Conf) -> (scheme: &'static str)
    ensures
        scheme@ == conf@.listener_scheme(),
{
    if conf.https_crt.is_some() {
        "https"
    } else {
        "http"
    }
}

/// The upstream's host and port, as in `example.internal:9090`.
pub fn upstream_authority(conf: &Conf) -> (authority: String)
    ensures
        authority@ == conf@.upstream_authority(),
{
    let mut authority = conf.remote_url.clone();
    push_char(&mut authority, ':');
    push_decimal(&mut authority, conf.remote_port);
    authority
}

/// The URL that the request target `target` is forwarded to.
pub fn upstream_url(conf: &Conf, target: &str) -> (url: String)
    ensures
        url@ == conf@.upstream_url(target@),
{
    let mut url = upstream_scheme(conf).to_owned();
    url.append("://");
    url.append(upstream_authority(conf).as_str());
    url.append(target);
    assert(url@ =~= conf@.upstream_url(target@));
    url
}

} // verus!
