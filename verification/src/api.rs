//! The probe endpoint: what a request holds, when it is acceptable, the
//! address a probe connects to, and the reply for each way a probe can end.

use vstd::prelude::*;
use vstd::string::StringExecFns;
use crate::config::ApiConfig;
use crate::text::{append_decimal, decimal};
use crate::validation::{
    check_fields, describe, failed_fields, field_label, field_level, ip_is_valid, is_ip_literal,
    occurs_in, rejected_fields, MAX_PORT, MIN_PORT,
};

verus! {

/// Status of a reply to a probe that connected.
pub const STATUS_OK: u16 = 200;

/// Status of a reply to a request that was not acceptable, or whose target
/// could not be reached.
pub const STATUS_BAD_REQUEST: u16 = 400;

/// Status of a reply to a request that ran past its deadline.
pub const STATUS_REQUEST_TIMEOUT: u16 = 408;

/// Status of a reply to a request that the rate limiter turned away.
pub const STATUS_TOO_MANY_REQUESTS: u16 = 429;

/// The result of one probe, as the JSON body of a reply carries it.
#[derive(Debug)]
pub struct TcpingRes {
    status: bool,
    message: String,
}

/// A `TcpingRes` as a value of specifications.
pub struct TcpingResView {
    pub status: bool,
    pub message: Seq<char>,
}

impl View for TcpingRes {
    type V = TcpingResView;

    closed spec fn view(&self) -> TcpingResView {
        TcpingResView { status: self.status, message: self.message@ }
    }
}

impl TcpingRes {
    pub fn new(status: bool, message: String) -> (res: TcpingRes)
        ensures
            res@ == (TcpingResView { status, message: message@ }),
    {
        TcpingRes { status, message }
    }

    /// Whether the target was reached.
    pub fn status(&self) -> (status: bool)
        ensures
            status == self@.status,
    {
        self.status
    }

    /// What happened, for a person to read.
    pub fn message(&self) -> (message: &str)
        ensures
            message@ == self@.message,
    {
        self.message.as_str()
    }
}

/// The query parameters of a probe request: the target's IP literal and port.
#[derive(Debug)]
pub struct TcpingParams {
    ip: String,
    port: u16,
}

/// A `TcpingParams` as a value of specifications.
pub struct TcpingParamsView {
    pub ip: Seq<char>,
    pub port: u16,
}

impl TcpingParamsView {
    /// The request is acceptable: `ip` is an IP literal and `port` lies in
    /// `MIN_PORT..=MAX_PORT`.
    pub open spec fn is_valid(self) -> bool {
        is_ip_literal(self.ip) && MIN_PORT <= self.port <= MAX_PORT
    }
}

impl View for TcpingParams {
    type V = TcpingParamsView;

    closed spec fn view(&self) -> TcpingParamsView {
        TcpingParamsView { ip: self.ip@, port: self.port }
    }
}

impl TcpingParams {
    pub fn new(ip: String, port: u16) -> (params: TcpingParams)
        ensures
            params@ == (TcpingParamsView { ip: ip@, port }),
    {
        TcpingParams { ip, port }
    }

    /// The target's address, as the request gave it.
    pub fn ip(&self) -> (ip: &str)
        ensures
            ip@ == self@.ip,
    {
        self.ip.as_str()
    }

    /// The target's port.
    pub fn port(&self) -> (port: u16)
        ensures
            port == self@.port,
    {
        self.port
    }

    /// Checks the request. Succeeds exactly where it is acceptable; otherwise
    /// the record names exactly the fields that are not.
    pub fn validate(&self) -> (checked: Result<(), validator::ValidationErrors>)
        ensures
            checked is Ok <==> self@.is_valid(),
            checked matches Err(errors) ==> failed_fields(errors) == rejected_fields(
                is_ip_literal(self@.ip),
                self@.port,
            ) && field_level(errors),
    {
        let ip_ok = ip_is_valid(self.ip.as_str());
        check_fields(self.ip.as_str(), ip_ok, self.port)
    }
}

/// How one connection attempt ended, with the text of the error where
/// there was one.
#[derive(Debug)]
pub enum ConnectOutcome {
    /// The target accepted the connection.
    Connected,
    /// The address text was not a socket address; no connection was tried.
    InvalidAddress(String),
    /// The connection was refused, timed out, or failed in another way.
    Failed(String),
}

/// A `ConnectOutcome` as a value of specifications.
pub enum ConnectOutcomeView {
    Connected,
    InvalidAddress(Seq<char>),
    Failed(Seq<char>),
}

impl View for ConnectOutcome {
    type V = ConnectOutcomeView;

    open spec fn view(&self) -> ConnectOutcomeView {
        match self {
            ConnectOutcome::Connected => ConnectOutcomeView::Connected,
            ConnectOutcome::InvalidAddress(reason) => ConnectOutcomeView::InvalidAddress(reason@),
            ConnectOutcome::Failed(reason) => ConnectOutcomeView::Failed(reason@),
        }
    }
}

/// The body of a reply: a probe result as JSON, or plain text.
#[derive(Debug)]
pub enum ReplyBody {
    Json(TcpingRes),
    Text(String),
}

/// A `ReplyBody` as a value of specifications.
pub enum ReplyBodyView {
    Json(TcpingResView),
    Text(Seq<char>),
}

impl View for ReplyBody {
    type V = ReplyBodyView;

    open spec fn view(&self) -> ReplyBodyView {
        match self {
            ReplyBody::Json(res) => ReplyBodyView::Json(res@),
            ReplyBody::Text(text) => ReplyBodyView::Text(text@),
        }
    }
}

/// What goes back to the client: an HTTP status and a body.
#[derive(Debug)]
pub struct HttpReply {
    pub status: u16,
    pub body: ReplyBody,
}

/// An `HttpReply` as a value of specifications.
pub struct HttpReplyView {
    pub status: u16,
    pub body: ReplyBodyView,
}

impl View for HttpReply {
    type V = HttpReplyView;

    open spec fn view(&self) -> HttpReplyView {
        HttpReplyView { status: self.status, body: self.body@ }
    }
}

/// What the endpoint asks of its caller next: to try a connection, or to
/// send a reply.
#[derive(Debug)]
pub enum Action {
    /// Try one connection to `address`, giving up after `timeout_ms`
    /// milliseconds. The whole request has `deadline_ms` milliseconds: when
    /// they are over the attempt is abandoned, whatever its own timeout is.
    Connect { address: String, timeout_ms: u64, deadline_ms: u64 },
    /// Send the reply; the request is done.
    Respond(HttpReply),
}

/// An `Action` as a value of specifications.
pub enum ActionView {
    Connect { address: Seq<char>, timeout_ms: u64, deadline_ms: u64 },
    Respond(HttpReplyView),
}

impl View for Action {
    type V = ActionView;

    open spec fn view(&self) -> ActionView {
        match self {
            Action::Connect { address, timeout_ms, deadline_ms } => ActionView::Connect {
                address: address@,
                timeout_ms: *timeout_ms,
                deadline_ms: *deadline_ms,
            },
            Action::Respond(reply) => ActionView::Respond(reply@),
        }
    }
}

/// The address text of a target: the IP text, a colon, the port in decimal.
/// An IP text that itself holds a colon, as every IPv6 literal does and no
/// IPv4 literal, stands in square brackets, so that the colon before the
/// port is the only one outside them.
pub open spec fn socket_address_text(ip: Seq<char>, port: u16) -> Seq<char> {
    if ip.contains(':') {
        seq!['['] + ip + seq![']', ':'] + decimal(port as nat)
    } else {
        ip + seq![':'] + decimal(port as nat)
    }
}

/// Message of a probe that connected.
pub open spec fn connected_message() -> Seq<char> {
    "TCP connection successful"@
}

/// What precedes the error text where the address was not a socket address.
pub open spec fn invalid_address_prefix() -> Seq<char> {
    "Invalid socket address: "@
}

/// What precedes the error text where the connection failed.
pub open spec fn failed_prefix() -> Seq<char> {
    "TCP connection failed: "@
}

/// What precedes the details where a request was not acceptable.
pub open spec fn invalid_parameters_prefix() -> Seq<char> {
    "Invalid parameters: "@
}

/// Body of the reply to a request that the rate limiter turned away.
pub open spec fn rate_limited_text() -> Seq<char> {
    "Rate limit exceeded"@
}

/// Body of the reply to a request that ran past its deadline.
pub open spec fn timed_out_text() -> Seq<char> {
    "Request timed out"@
}

/// The result of a probe that ended with `outcome`: reached only where it
/// connected, and otherwise a message that ends in the error's own text.
pub open spec fn probe_result_of(outcome: ConnectOutcomeView) -> TcpingResView {
    match outcome {
        ConnectOutcomeView::Connected => TcpingResView {
            status: true,
            message: connected_message(),
        },
        ConnectOutcomeView::InvalidAddress(reason) => TcpingResView {
            status: false,
            message: invalid_address_prefix() + reason,
        },
        ConnectOutcomeView::Failed(reason) => TcpingResView {
            status: false,
            message: failed_prefix() + reason,
        },
    }
}

/// The reply that carries a probe result: `STATUS_OK` where the target was
/// reached, `STATUS_BAD_REQUEST` where it was not.
pub open spec fn result_reply_of(res: TcpingResView) -> HttpReplyView {
    HttpReplyView {
        status: if res.status {
            STATUS_OK
        } else {
            STATUS_BAD_REQUEST
        },
        body: ReplyBodyView::Json(res),
    }
}

/// The reply to a probe that ended with `outcome`.
pub open spec fn probe_reply_of(outcome: ConnectOutcomeView) -> HttpReplyView {
    result_reply_of(probe_result_of(outcome))
}

/// The reply to a request that was not acceptable, with the details given.
pub open spec fn validation_reply_of(details: Seq<char>) -> HttpReplyView {
    result_reply_of(
        TcpingResView { status: false, message: invalid_parameters_prefix() + details },
    )
}

/// The reply is one to a request that was not acceptable, whatever its
/// details are.
pub open spec fn is_validation_reply(reply: HttpReplyView) -> bool {
    &&& reply.status == STATUS_BAD_REQUEST
    &&& reply.body matches ReplyBodyView::Json(res)
    &&& !res.status
    &&& invalid_parameters_prefix().is_prefix_of(res.message)
}

/// The details of a reply to a request that was not acceptable: what its
/// message holds after the prefix.
pub open spec fn reply_details(reply: HttpReplyView) -> Seq<char>
    recommends
        is_validation_reply(reply),
{
    match reply.body {
        ReplyBodyView::Json(res) => res.message.skip(invalid_parameters_prefix().len() as int),
        ReplyBodyView::Text(text) => text,
    }
}

/// The details name what is wrong with the parameters: they hold the label
/// of `ip` where the address is no IP literal, and the label of `port` where
/// the port is out of range.
pub open spec fn names_rejected_fields(params: TcpingParamsView, details: Seq<char>) -> bool {
    &&& !is_ip_literal(params.ip) ==> occurs_in(field_label("ip"@), details)
    &&& !(MIN_PORT <= params.port <= MAX_PORT) ==> occurs_in(field_label("port"@), details)
}

/// The reply to a request that the rate limiter turned away.
pub open spec fn rate_limited_reply_of() -> HttpReplyView {
    HttpReplyView {
        status: STATUS_TOO_MANY_REQUESTS,
        body: ReplyBodyView::Text(rate_limited_text()),
    }
}

/// The reply to a request that ran past its deadline.
pub open spec fn timed_out_reply_of() -> HttpReplyView {
    HttpReplyView { status: STATUS_REQUEST_TIMEOUT, body: ReplyBodyView::Text(timed_out_text()) }
}

/// What an admitted request leads to: a connection attempt to its target
/// with the configured timeout and deadline where it is acceptable, and
/// otherwise a reply that says it is not, and names each parameter that is
/// wrong.
pub open spec fn admitted_action(
    params: TcpingParamsView,
    config: ApiConfig,
    action: ActionView,
) -> bool {
    if params.is_valid() {
        action == (ActionView::Connect {
            address: socket_address_text(params.ip, params.port),
            timeout_ms: config.tcping_timeout,
            deadline_ms: config.api_timeout,
        })
    } else {
        &&& action matches ActionView::Respond(reply)
        &&& is_validation_reply(reply)
        &&& names_rejected_fields(params, reply_details(reply))
    }
}

/// Whether the text holds a colon.
pub fn holds_colon(text: &str) -> (found: bool)
    ensures
        found == text@.contains(':'),
{
    let length = text.unicode_len();
    let mut at: usize = 0;
    while at < length
        invariant
            length == text@.len(),
            at <= length,
            forall|before: int| 0 <= before < at ==> text@[before] != ':',
        decreases length - at,
    {
        if text.get_char(at) == ':' {
            return true;
        }
        at = at + 1;
    }
    false
}

/// Composes the address text that a probe of `ip` and `port` connects to.
pub fn socket_address(ip: &str, port: u16) -> (address: String)
    ensures
        address@ == socket_address_text(ip@, port),
{
    proof {
        reveal_strlit("[");
        reveal_strlit("]:");
        reveal_strlit(":");
    }
    let mut address = if holds_colon(ip) {
        let bracketed = String::from_str("[").concat(ip).concat("]:");
        assert(bracketed@ =~= seq!['['] + ip@ + seq![']', ':']);
        bracketed
    } else {
        let plain = String::from_str(ip).concat(":");
        assert(plain@ =~= ip@ + seq![':']);
        plain
    };
    append_decimal(&mut address, port);
    address
}

/// Classifies the end of a connection attempt.
pub fn probe_result(outcome: &ConnectOutcome) -> (res: TcpingRes)
    ensures
        res@ == probe_result_of(outcome@),
{
    match outcome {
        ConnectOutcome::Connected => TcpingRes::new(
            true,
            String::from_str("TCP connection successful"),
        ),
        ConnectOutcome::InvalidAddress(reason) => TcpingRes::new(
            false,
            String::from_str("Invalid socket address: ").concat(reason.as_str()),
        ),
        ConnectOutcome::Failed(reason) => TcpingRes::new(
            false,
            String::from_str("TCP connection failed: ").concat(reason.as_str()),
        ),
    }
}

/// Wraps a probe result into its reply.
pub fn result_reply(res: TcpingRes) -> (reply: HttpReply)
    ensures
        reply@ == result_reply_of(res@),
{
    let status: u16 = if res.status() {
        STATUS_OK
    } else {
        STATUS_BAD_REQUEST
    };
    HttpReply { status, body: ReplyBody::Json(res) }
}

/// The reply to a probe that ended with `outcome`.
pub fn probe_reply(outcome: &ConnectOutcome) -> (reply: HttpReply)
    ensures
        reply@ == probe_reply_of(outcome@),
{
    result_reply(probe_result(outcome))
}

/// The reply to a request that was not acceptable, with the details given.
pub fn validation_reply(details: &str) -> (reply: HttpReply)
    ensures
        reply@ == validation_reply_of(details@),
        is_validation_reply(reply@),
        reply_details(reply@) == details@,
{
    let message = String::from_str("Invalid parameters: ").concat(details);
    assert(message@.skip(invalid_parameters_prefix().len() as int) =~= details@);
    result_reply(TcpingRes::new(false, message))
}

/// The reply to a request that the rate limiter turned away.
pub fn rate_limited_reply() -> (reply: HttpReply)
    ensures
        reply@ == rate_limited_reply_of(),
{
    HttpReply {
        status: STATUS_TOO_MANY_REQUESTS,
        body: ReplyBody::Text(String::from_str("Rate limit exceeded")),
    }
}

/// The reply to a request that ran past its deadline.
pub fn timed_out_reply() -> (reply: HttpReply)
    ensures
        reply@ == timed_out_reply_of(),
{
    HttpReply {
        status: STATUS_REQUEST_TIMEOUT,
        body: ReplyBody::Text(String::from_str("Request timed out")),
    }
}

/// Handles an admitted request up to the point where the network is needed.
/// An acceptable request leads to one connection attempt, to the address
/// composed of its fields, with the configured probe timeout and under the
/// configured deadline. Any other request is answered at once, with `STATUS_BAD_REQUEST` and details that
/// name each parameter that is wrong, and no connection is tried.
pub fn tcping_v1(params: &TcpingParams, config: &ApiConfig) -> (action: Action)
    ensures
        admitted_action(params@, *config, action@),
{
    match params.validate() {
        Ok(()) => Action::Connect {
            address: socket_address(params.ip(), params.port()),
            timeout_ms: config.tcping_timeout,
            deadline_ms: config.api_timeout,
        },
        Err(errors) => {
            let details = describe(&errors);
            proof {
                if !is_ip_literal(params@.ip) {
                    assert(failed_fields(errors).contains("ip"@));
                }
                if !(MIN_PORT <= params@.port <= MAX_PORT) {
                    assert(failed_fields(errors).contains("port"@));
                }
            }
            Action::Respond(validation_reply(details.as_str()))
        },
    }
}

} // verus!
