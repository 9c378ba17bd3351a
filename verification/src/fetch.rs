//! One fetch of one target: where to send the request, and what the answer
//! amounts to.

use vstd::prelude::*;
use vstd::string::StringExecFns;
use crate::ratelimit::{header_sample, text_of, RateLimitSample};

verus! {

/// The status code of a response that names no such resource.
pub const STATUS_NOT_FOUND: u16 = 404;

/// What is polled: an instance, or an account on an instance.
#[derive(Debug, Clone, Copy, PartialEq, Eq, Structural)]
pub enum TargetKind {
    Instance,
    Account,
}

/// A response as it arrived: status line, the two rate-limit headers, and
/// the body as far as it could be decoded.
#[derive(Debug)]
pub struct Response<B> {
    /// The status code.
    pub status: u16,
    /// What the transport has to say about the status.
    pub reason: String,
    /// Value of the `x-ratelimit-remaining` header, if there is one.
    pub ratelimit_remaining: Option<String>,
    /// Value of the `x-ratelimit-reset` header, if there is one.
    pub ratelimit_reset: Option<String>,
    /// The decoded body; `None` where it was not read or does not decode.
    pub body: Option<B>,
}

/// How one request ended.
#[derive(Debug)]
pub enum Exchange<B> {
    /// The task that ran the request ended without a result.
    Aborted,
    /// No response arrived: the name did not resolve, the connection
    /// failed or timed out.
    Unreachable,
    /// A response arrived.
    Answered(Response<B>),
}

/// What one fetch amounts to.
#[derive(Debug)]
pub enum FetchOutcome<B> {
    /// The target answered with a document.
    Success { rate_limit: RateLimitSample, body: B },
    /// The account does not exist on the instance.
    NotFound { rate_limit: RateLimitSample },
    /// The target answered with a status that is no success.
    HttpError { rate_limit: RateLimitSample, status: u16, message: String },
    /// No response arrived.
    NetworkError,
    /// A rate-limit header is absent or malformed.
    HeaderError,
    /// The body is not the expected document.
    DecodeError { rate_limit: RateLimitSample },
    /// The task that ran the request ended without a result.
    TaskFailed,
}

/// Whether a status code is a success (2xx).
pub open spec fn is_success(status: u16) -> bool {
    200 <= status <= 299
}

/// What a response with well-formed rate-limit headers amounts to.
pub open spec fn settled<B>(
    kind: TargetKind,
    rate_limit: RateLimitSample,
    status: u16,
    reason: String,
    body: Option<B>,
) -> FetchOutcome<B> {
    if is_success(status) {
        match body {
            Some(body) => FetchOutcome::Success { rate_limit, body },
            None => FetchOutcome::DecodeError { rate_limit },
        }
    } else if kind == TargetKind::Account && status == STATUS_NOT_FOUND {
        FetchOutcome::NotFound { rate_limit }
    } else {
        FetchOutcome::HttpError { rate_limit, status, message: reason }
    }
}

/// What a response amounts to, given the sample its headers parsed to.
/// The headers come first: without a sample nothing else is looked at.
pub open spec fn judged<B>(
    kind: TargetKind,
    rate_limit: Option<RateLimitSample>,
    status: u16,
    reason: String,
    body: Option<B>,
) -> FetchOutcome<B> {
    match rate_limit {
        Some(rate_limit) => settled(kind, rate_limit, status, reason, body),
        None => FetchOutcome::HeaderError,
    }
}

/// What an exchange amounts to.
pub open spec fn outcome_of<B>(kind: TargetKind, exchange: Exchange<B>) -> FetchOutcome<B> {
    match exchange {
        Exchange::Aborted => FetchOutcome::TaskFailed,
        Exchange::Unreachable => FetchOutcome::NetworkError,
        Exchange::Answered(response) => judged(
            kind,
            header_sample(
                text_of(response.ratelimit_remaining),
                text_of(response.ratelimit_reset),
            ),
            response.status,
            response.reason,
            response.body,
        ),
    }
}

/// Where the document of an instance is fetched from.
pub open spec fn instance_url_text(instance: Seq<char>) -> Seq<char> {
    "https://"@ + instance + "/api/v2/instance"@
}

/// Where the document of an account is fetched from.
pub open spec fn account_url_text(instance: Seq<char>, account_id: Seq<char>) -> Seq<char> {
    "https://"@ + instance + "/api/v1/accounts/"@ + account_id
}

/// Where the document of an instance is fetched from.
pub fn instance_url(instance: &str) -> (url: String)
    ensures
        url@ == instance_url_text(instance@),
{
    let mut url = String::from_str("https://");
    url.append(instance);
    url.append("/api/v2/instance");
    url
}

/// Where the document of an account is fetched from.
pub fn account_url(instance: &str, account_id: &str) -> (url: String)
    ensures
        url@ == account_url_text(instance@, account_id@),
{
    let mut url = String::from_str("https://");
    url.append(instance);
    url.append("/api/v1/accounts/");
    url.append(account_id);
    url
}

/// Whether the body of a response with this status is to be read.
pub fn expects_body(status: u16) -> (wanted: bool)
    ensures
        wanted == is_success(status),
{
    200 <= status && status <= 299
}

impl<B> FetchOutcome<B> {
    /// The rate-limit sample that came with the response, if it parsed.
    pub open spec fn sample(self) -> Option<RateLimitSample> {
        match self {
            FetchOutcome::Success { rate_limit, .. } => Some(rate_limit),
            FetchOutcome::NotFound { rate_limit } => Some(rate_limit),
            FetchOutcome::HttpError { rate_limit, .. } => Some(rate_limit),
            FetchOutcome::DecodeError { rate_limit } => Some(rate_limit),
            FetchOutcome::NetworkError => None,
            FetchOutcome::HeaderError => None,
            FetchOutcome::TaskFailed => None,
        }
    }

    /// Judges a response whose rate-limit headers have been parsed. Without
    /// a sample the target fails on its headers, whatever the status. With
    /// one, a 2xx status succeeds if the body decoded, a 404 on an account
    /// is `NotFound`, and every other status is an `HttpError`.
    pub fn judge(
        kind: TargetKind,
        rate_limit: Option<RateLimitSample>,
        status: u16,
        reason: String,
        body: Option<B>,
    ) -> (outcome: FetchOutcome<B>)
        ensures
            outcome == judged(kind, rate_limit, status, reason, body),
    {
        let rate_limit = match rate_limit {
            Some(rate_limit) => rate_limit,
            None => { return FetchOutcome::HeaderError; },
        };
        if expects_body(status) {
            match body {
                Some(body) => FetchOutcome::Success { rate_limit, body },
                None => FetchOutcome::DecodeError { rate_limit },
            }
        } else if status == STATUS_NOT_FOUND && matches!(kind, TargetKind::Account) {
            FetchOutcome::NotFound { rate_limit }
        } else {
            FetchOutcome::HttpError { rate_limit, status, message: reason }
        }
    }

    /// Judges how a request ended: reads the rate-limit headers of a
    /// response, then its status, then its body.
    pub fn of_exchange(kind: TargetKind, exchange: Exchange<B>) -> (outcome: FetchOutcome<B>)
        ensures
            outcome == outcome_of(kind, exchange),
    {
        match exchange {
            Exchange::Aborted => FetchOutcome::TaskFailed,
            Exchange::Unreachable => FetchOutcome::NetworkError,
            Exchange::Answered(response) => {
                let rate_limit = RateLimitSample::from_headers(
                    &response.ratelimit_remaining,
                    &response.ratelimit_reset,
                );
                Self::judge(kind, rate_limit, response.status, response.reason, response.body)
            },
        }
    }
}

} // verus!
