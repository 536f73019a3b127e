//! Forwarding one request. A request that was received is rewritten and
//! made ready for dispatch by [`proxy`]; once the upstream's outcome is
//! known, the request has succeeded or failed, and [`relay`] makes the reply
//! for either, so that no request is left without one. Sending and receiving
//! are the caller's part. No time limit is put on the upstream's answer here
//! and none on the size of a body: both are the caller's to set.

use crate::conf::{Conf, ConfView};
use crate::headers::{has_name, header_list, host_name, is_value_text, rewrite_host};
use crate::headers::{is_printable, with_upstream_host, Field};
use crate::log::{access, request_error, stamped, Level};
use crate::log::{access_message, line, request_error_message};
use crate::target::{law_printable_host_makes_a_host_value, upstream_authority, upstream_url};
use hyper::header::HeaderValue;
use hyper::http::uri::InvalidUri;
use hyper::{HeaderMap, Method, Uri};
use std::str::FromStr;
use vstd::prelude::*;
use vstd::string::*;

verus! {

/// `hyper::Uri`, a parsed URI. It is only made by [`parse_uri`] and passed
/// on.
#[verifier::external_type_specification]
#[verifier::external_body]
pub struct ExUri(Uri);

/// `hyper::http::uri::InvalidUri`, the error of a text that is no URI. It
/// is only told from success.
#[verifier::external_type_specification]
#[verifier::external_body]
pub struct ExInvalidUri(InvalidUri);

/// `hyper::Method`, the method of a request. Nothing is known of it but
/// what [`method_text`] says.
#[verifier::external_type_specification]
#[verifier::external_body]
pub struct ExMethod(Method);

/// The URI that a text is parsed into, if it is one: what `Uri::from_str`
/// returns, without the error.
pub uninterp spec fn uri_of_text(text: Seq<char>) -> Option<Uri>;

/// The name of a method, in upper case for the standard ones: what
/// `Method::as_str` returns.
pub uninterp spec fn method_text(method: Method) -> Seq<char>;

/// `Uri::from_str`: the text is parsed as a URI.
#[verifier::external_body]
pub(crate) fn parse_uri(text: &str) -> (uri: Result<Uri, InvalidUri>)
    ensures
        uri is Ok <==> uri_of_text(text@) is Some,
        uri matches Ok(u) ==> uri_of_text(text@) == Some(u),
{
    Uri::from_str(text)
}

/// `Method::as_str`: the name of the method.
#[verifier::external_body]
pub(crate) fn method_name(method: &Method) -> (name: &str)
    ensures
        name@ == method_text(*method),
{
    method.as_str()
}

/// The request that goes upstream.
pub struct Outbound<B> {
    /// The method, as it came.
    pub method: Method,
    /// The upstream URL.
    pub uri: Uri,
    /// The headers, with `Host` pointing at the upstream.
    pub headers: HeaderMap<HeaderValue>,
    /// The body, as it came.
    pub body: B,
}

/// Why a request was not answered by the upstream.
#[derive(Clone, Copy, Debug, PartialEq, Eq, Structural)]
pub enum ForwardError {
    /// The upstream URL for the request's target is no URI.
    InvalidUrl,
    /// The upstream authority cannot stand in a `Host` field.
    InvalidHost,
    /// The upstream could not be reached or did not answer.
    Transport,
}

impl ForwardError {
    /// What is said of an error that the library found itself.
    pub open spec fn description(self) -> Seq<char> {
        match self {
            ForwardError::InvalidUrl => "invalid upstream URL"@,
            ForwardError::InvalidHost => "invalid Host header value"@,
            ForwardError::Transport => "upstream request failed"@,
        }
    }

    /// What is said of an error that the library found itself.
    pub fn describe(self) -> (text: &'static str)
        ensures
            text@ == self.description(),
    {
        match self {
            ForwardError::InvalidUrl => "invalid upstream URL",
            ForwardError::InvalidHost => "invalid Host header value",
            ForwardError::Transport => "upstream request failed",
        }
    }
}

/// The status of the reply that stands in for the upstream's: 502, Bad
/// Gateway.
pub const FAILURE_STATUS: u16 = 502;

/// The reply that the proxy makes itself when a request could not be
/// forwarded, with the line to log for it.
pub struct Failure {
    /// What went wrong.
    pub error: ForwardError,
    /// The line to log.
    pub notice: String,
    /// The status of the reply, of the 5xx class.
    pub status: u16,
    /// The body of the reply: the description of the error.
    pub body: String,
}

/// The mathematical value of a [`Failure`].
pub struct FailureModel {
    pub error: ForwardError,
    pub notice: Seq<char>,
    pub status: u16,
    pub body: Seq<char>,
}

impl View for Failure {
    type V = FailureModel;

    open spec fn view(&self) -> FailureModel {
        FailureModel {
            error: self.error,
            notice: self.notice@,
            status: self.status,
            body: self.body@,
        }
    }
}

/// The failure that is reported for the request `method` to `url` at
/// `timestamp`: an error line that names both, and a reply of status 502
/// whose body is the description.
pub open spec fn failure_of(
    error: ForwardError,
    timestamp: Seq<char>,
    method: Seq<char>,
    url: Seq<char>,
    description: Seq<char>,
) -> FailureModel {
    FailureModel {
        error,
        notice: line(timestamp, Level::Error, request_error_message(method, url, description)),
        status: FAILURE_STATUS,
        body: description,
    }
}

/// Reports that the request `method` to `url` could not be forwarded.
pub fn fail(
    error: ForwardError,
    timestamp: &str,
    method: &str,
    url: &str,
    description: &str,
) -> (failure: Failure)
    ensures
        failure@ == failure_of(error, timestamp@, method@, url@, description@),
{
    Failure {
        error,
        notice: stamped(timestamp, Level::Error, request_error(method, url, description).as_str()),
        status: FAILURE_STATUS,
        body: description.to_owned(),
    }
}

/// Makes the outbound request for an inbound one: the method and the body as
/// they came, `url` as the target, and the headers as they came but for
/// `Host`, which names `authority` where it is present.
pub fn request<B>(
    method: Method,
    headers: HeaderMap<HeaderValue>,
    body: B,
    url: Uri,
    authority: &str,
) -> (res: Result<Outbound<B>, ForwardError>)
    ensures
        res is Err <==> has_name(header_list(headers), host_name()) && !is_value_text(
            authority@,
        ),
        res matches Err(error) ==> error == ForwardError::InvalidHost,
        res matches Ok(outbound) ==> {
            &&& outbound.method == method
            &&& outbound.uri == url
            &&& outbound.body == body
            &&& header_list(outbound.headers) == with_upstream_host(
                header_list(headers),
                authority@,
            )
        },
{
    let mut headers = headers;
    match rewrite_host(&mut headers, authority) {
        Ok(()) => Ok(Outbound { method, uri: url, headers, body }),
        Err(_) => Err(ForwardError::InvalidHost),
    }
}

/// A request that is ready to go upstream, with the line to log before it
/// is sent.
pub struct Dispatch<B> {
    /// The line to log: the method and the target of the inbound request.
    pub notice: String,
    /// The name of the method.
    pub method: String,
    /// The upstream URL, as text.
    pub url: String,
    /// The request to send.
    pub outbound: Outbound<B>,
}

/// Why the request for `target` with the header fields `fields` cannot be
/// forwarded under `conf`, if it cannot.
pub open spec fn forward_error(conf: ConfView, target: Seq<char>, fields: Seq<Field>) -> Option<
    ForwardError,
> {
    if uri_of_text(conf.upstream_url(target)) is None {
        Some(ForwardError::InvalidUrl)
    } else if has_name(fields, host_name()) && !is_value_text(conf.upstream_authority()) {
        Some(ForwardError::InvalidHost)
    } else {
        None
    }
}

/// With an upstream host of printable ASCII, the `Host` field never stands
/// in the way: a request is forwarded whenever its upstream URL is a URI.
pub proof fn law_printable_host_is_forwarded(conf: ConfView, target: Seq<char>, fields: Seq<Field>)
    requires
        is_printable(conf.remote_url),
    ensures
        forward_error(conf, target, fields) != Some(ForwardError::InvalidHost),
        forward_error(conf, target, fields) is None <==> uri_of_text(conf.upstream_url(target))
            is Some,
{
    law_printable_host_makes_a_host_value(conf);
}

/// Takes an inbound request, given by its method, its target (path and
/// query, as they came), its headers and its body, and makes of it the
/// request for the upstream of `conf`, and the line that announces it. Where
/// no such request can be made, the result is the failure to reply with.
pub fn proxy<B>(
    conf: &Conf,
    timestamp: &str,
    method: Method,
    target: &str,
    headers: HeaderMap<HeaderValue>,
    body: B,
) -> (res: Result<Dispatch<B>, Failure>)
    ensures
        res is Err <==> forward_error(conf@, target@, header_list(headers)) is Some,
        res matches Err(failure) ==> failure@ == failure_of(
            forward_error(conf@, target@, header_list(headers))->0,
            timestamp@,
            method_text(method),
            conf@.upstream_url(target@),
            forward_error(conf@, target@, header_list(headers))->0.description(),
        ),
        res matches Ok(dispatch) ==> {
            &&& dispatch.notice@ == line(
                timestamp@,
                Level::Info,
                access_message(method_text(method), target@),
            )
            &&& dispatch.method@ == method_text(method)
            &&& dispatch.url@ == conf@.upstream_url(target@)
            &&& dispatch.outbound.method == method
            &&& Some(dispatch.outbound.uri) == uri_of_text(conf@.upstream_url(target@))
            &&& dispatch.outbound.body == body
            &&& header_list(dispatch.outbound.headers) == with_upstream_host(
                header_list(headers),
                conf@.upstream_authority(),
            )
        },
{
    let url = upstream_url(conf, target);
    let name = method_name(&method).to_owned();
    let uri = match parse_uri(url.as_str()) {
        Ok(uri) => uri,
        Err(_) => {
            let error = ForwardError::InvalidUrl;
            return Err(fail(error, timestamp, name.as_str(), url.as_str(), error.describe()));
        },
    };
    let authority = upstream_authority(conf);
    match request(method, headers, body, uri, authority.as_str()) {
        Ok(outbound) => {
            let notice = stamped(timestamp, Level::Info, access(name.as_str(), target).as_str());
            Ok(Dispatch { notice, method: name, url, outbound })
        },
        Err(error) => Err(
            fail(error, timestamp, name.as_str(), url.as_str(), error.describe()),
        ),
    }
}

/// What the client gets.
pub enum Reply<R> {
    /// The upstream's response, as it came.
    Upstream(R),
    /// A reply of the proxy's own, because the upstream gave none.
    Failure(Failure),
}

/// Turns what came of sending the request `method` to `url` into the reply
/// for the client: the upstream's response as it is, or, where `outcome`
/// holds the description of a transport error, the failure that reports it.
/// There is a reply in either case.
pub fn relay<R>(
    timestamp: &str,
    method: &str,
    url: &str,
    outcome: Result<R, String>,
) -> (reply: Reply<R>)
    ensures
        outcome matches Ok(response) ==> reply == Reply::Upstream(response),
        outcome matches Err(description) ==> reply matches Reply::Failure(failure) && failure@
            == failure_of(ForwardError::Transport, timestamp@, method@, url@, description@),
{
    match outcome {
        Ok(response) => Reply::Upstream(response),
        Err(description) => Reply::Failure(
            fail(ForwardError::Transport, timestamp, method, url, description.as_str()),
        ),
    }
}

} // verus!
