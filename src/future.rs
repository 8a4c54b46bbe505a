//! The life of one forwarded call, as a state machine that the host's
//! asynchronous runtime drives.
//!
//! A call first rebuilds the request URI. Where that fails, the call is over,
//! but its error still comes out of the first poll, as a response would.
//! Otherwise the request goes to the client, and the call ends when the
//! client's pending operation does. Every outcome is a value of
//! `Result<R, ProxyError>`; the call itself never fails.

use vstd::prelude::*;

use crate::error::ProxyError;
use crate::rewrite::PathRewriter;
use crate::uri::{
    in_path_part, without_delimiters, rebuild_outcome, refused_in_path, refused_path_stays_refused, uri_path,
    uri_query,
};

verus! {

/// Where a forwarded call stands.
pub enum Phase {
    /// The URI could not be rebuilt; the error waits for the first poll.
    RewriteFailed(http::Error),
    /// The request is with the client.
    Dispatching,
    /// The call has produced its result.
    Completed,
}

/// What one poll of a call is to do.
pub enum Step {
    /// Poll the client's pending operation, and hand what it yields to
    /// [`RevProxyFuture::complete`].
    AwaitResponse,
    /// The call is complete with this error.
    Failed(ProxyError),
}

/// The state of one forwarded call.
pub struct RevProxyFuture {
    phase: Phase,
}

/// What is known of a call started with the rewritten path `out` and the
/// query `query` for the target `scheme` and `authority`: the request goes to
/// the client, with the URI rebuilt from them, exactly where `http` builds
/// one, and otherwise the call holds the error and nothing is sent.
pub open spec fn started(
    r: (RevProxyFuture, Option<http::Uri>),
    out: Seq<char>,
    query: Option<Seq<char>>,
    scheme: http::uri::Scheme,
    authority: http::uri::Authority,
) -> bool {
    &&& rebuild_outcome(r.1, out, query, scheme, authority)
    &&& r.1 is Some ==> r.0.phase() is Dispatching
    &&& r.1 is None ==> r.0.phase() is RewriteFailed
}

impl RevProxyFuture {
    /// Where the call stands.
    pub closed spec fn phase(&self) -> Phase {
        self.phase
    }

    /// Starts a call: rebuilds the request URI `uri` for the target by the
    /// rule `rewriter`. Returns the call, and the URI to send the request with,
    /// where it is to be sent.
    pub fn new<Pr: PathRewriter>(
        uri: &http::Uri,
        scheme: &http::uri::Scheme,
        authority: &http::uri::Authority,
        rewriter: &mut Pr,
    ) -> (r: (RevProxyFuture, Option<http::Uri>))
        requires
            old(rewriter).admits(uri_path(*uri)),
        ensures
            without_delimiters(uri_path(*uri)),
            old(rewriter).keeps_state() ==> *final(rewriter) == *old(rewriter),
            exists|out: Seq<char>|
                old(rewriter).rewrites(uri_path(*uri), out) && started(
                    r,
                    out,
                    uri_query(*uri),
                    *scheme,
                    *authority,
                ),
    {
        match rewriter.rewrite_uri(uri, scheme, authority) {
            Ok(uri) => (RevProxyFuture::dispatching(), Some(uri)),
            Err(e) => (RevProxyFuture::rewrite_failed(e), None),
        }
    }

    /// A call whose URI could not be rebuilt.
    pub fn rewrite_failed(e: http::Error) -> (r: Self)
        ensures
            r.phase() == Phase::RewriteFailed(e),
    {
        RevProxyFuture { phase: Phase::RewriteFailed(e) }
    }

    /// A call whose request is with the client.
    pub fn dispatching() -> (r: Self)
        ensures
            r.phase() == Phase::Dispatching,
    {
        RevProxyFuture { phase: Phase::Dispatching }
    }

    /// Whether the call has produced its result; it must not be polled again.
    pub fn is_completed(&self) -> (r: bool)
        ensures
            r == (self.phase() is Completed),
    {
        match self.phase {
            Phase::Completed => true,
            _ => false,
        }
    }

    /// Whether the call waits on the client.
    pub fn is_dispatching(&self) -> (r: bool)
        ensures
            r == (self.phase() is Dispatching),
    {
        match self.phase {
            Phase::Dispatching => true,
            _ => false,
        }
    }

    /// One poll: a failed rewrite completes the call with `InvalidUri`; a call
    /// with the client goes on waiting for it.
    pub fn poll_step(&mut self) -> (r: Step)
        requires
            !(old(self).phase() is Completed),
        ensures
            match old(self).phase() {
                Phase::RewriteFailed(e) => r == Step::Failed(ProxyError::InvalidUri(e))
                    && final(self).phase() is Completed,
                _ => r is AwaitResponse && final(self).phase() == old(self).phase(),
            },
    {
        let mut taken = Phase::Completed;
        core::mem::swap(&mut self.phase, &mut taken);
        match taken {
            Phase::RewriteFailed(e) => Step::Failed(ProxyError::InvalidUri(e)),
            other => {
                self.phase = other;
                Step::AwaitResponse
            },
        }
    }

    /// The client's operation has ended: the call completes with its response,
    /// or with `RequestFailed` and the client's error.
    pub fn complete<R>(&mut self, res: Result<R, hyper_util::client::legacy::Error>) -> (r: Result<
        R,
        ProxyError,
    >)
        requires
            old(self).phase() is Dispatching,
        ensures
            final(self).phase() is Completed,
            match res {
                Ok(v) => r == Ok::<R, ProxyError>(v),
                Err(e) => r == Err::<R, ProxyError>(ProxyError::RequestFailed(e)),
            },
    {
        self.phase = Phase::Completed;
        match res {
            Ok(v) => Ok(v),
            Err(e) => Err(ProxyError::RequestFailed(e)),
        }
    }
}

/// A call whose rewritten path holds a character that a URI path may not
/// hold sends nothing: it holds the error, and its first poll completes it
/// with `InvalidUri`.
pub proof fn refused_path_is_not_sent(
    r: (RevProxyFuture, Option<http::Uri>),
    out: Seq<char>,
    query: Option<Seq<char>>,
    scheme: http::uri::Scheme,
    authority: http::uri::Authority,
    i: int,
)
    requires
        started(r, out, query, scheme, authority),
        0 <= i < out.len(),
        refused_in_path(out[i]),
        in_path_part(out, i),
    ensures
        r.1 is None,
        r.0.phase() is RewriteFailed,
{
    refused_path_stays_refused(out, query, i);
}

} // verus!
