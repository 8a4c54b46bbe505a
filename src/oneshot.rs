//! A service that owns its client.

use vstd::prelude::*;

use crate::future::{started, RevProxyFuture};
use crate::rewrite::PathRewriter;
use crate::uri::{
    authority_accepted, authority_plain, authority_refused, parse_authority, parse_scheme,
    parsed_authority, parsed_scheme, scheme_accepted, uri_path, uri_query, without_delimiters,
};

verus! {

/// Declares the pooled client of hyper-util.
#[verifier::external_type_specification]
#[verifier::external_body]
#[verifier::reject_recursive_types(C)]
#[verifier::reject_recursive_types(B)]
pub struct ExClient<C, B>(hyper_util::client::legacy::Client<C, B>);

/// Relies on `Client::clone`, which shares the connection pool; nothing is
/// stated of the copy.
pub assume_specification<C: Clone, B>[ <hyper_util::client::legacy::Client<C, B> as Clone>::clone ](
    c: &hyper_util::client::legacy::Client<C, B>,
) -> hyper_util::client::legacy::Client<C, B>;

/// Sends requests to one backend, owning its client, and rewrites each
/// request's path by the rule `Pr`.
#[verifier::reject_recursive_types(C)]
#[verifier::reject_recursive_types(B)]
pub struct OneshotService<Pr, C, B> {
    client: hyper_util::client::legacy::Client<C, B>,
    scheme: http::uri::Scheme,
    authority: http::uri::Authority,
    path: Pr,
}

impl<Pr: Clone, C: Clone, B> Clone for OneshotService<Pr, C, B> {
    /// A service with a copy of the client and of the rule, and the same
    /// target.
    fn clone(&self) -> (r: Self)
        ensures
            r.scheme() == self.scheme(),
            r.authority() == self.authority(),
    {
        OneshotService {
            client: self.client.clone(),
            scheme: self.scheme.clone(),
            authority: self.authority.clone(),
            path: self.path.clone(),
        }
    }
}

impl<Pr, C, B> OneshotService<Pr, C, B> {
    /// The rule that rewrites the paths, in its current state.
    pub closed spec fn rule(&self) -> Pr {
        self.path
    }

    /// The scheme that requests are sent with.
    pub closed spec fn scheme(&self) -> http::uri::Scheme {
        self.scheme
    }

    /// The authority (`host[:port]`) that requests are sent to.
    pub closed spec fn authority(&self) -> http::uri::Authority {
        self.authority
    }

    /// The client that sends the requests.
    pub closed spec fn client_spec(&self) -> hyper_util::client::legacy::Client<C, B> {
        self.client
    }

    /// A service that sends requests through `client` to `scheme://authority`,
    /// rewriting their paths by `path`. Fails, and makes no service, where
    /// `http` refuses the scheme or the authority.
    pub fn from(
        client: hyper_util::client::legacy::Client<C, B>,
        scheme: &str,
        authority: &str,
        path: Pr,
    ) -> (r: Result<Self, http::Error>)
        ensures
            r is Ok <==> scheme_accepted(scheme@) && authority_accepted(authority@),
            authority_refused(authority@) ==> r is Err,
            scheme_accepted(scheme@) && authority_plain(authority@) ==> r is Ok,
            r matches Ok(svc) ==> svc.rule() == path && svc.client_spec() == client
                && svc.scheme() == parsed_scheme(scheme@) && svc.authority() == parsed_authority(
                authority@,
            ),
    {
        let scheme = match parse_scheme(scheme) {
            Ok(s) => s,
            Err(e) => return Err(e),
        };
        let authority = match parse_authority(authority) {
            Ok(a) => a,
            Err(e) => return Err(e),
        };
        Ok(OneshotService { client, scheme, authority, path })
    }

    /// The client that sends the requests.
    pub fn client(&self) -> (r: &hyper_util::client::legacy::Client<C, B>)
        ensures
            *r == self.client_spec(),
    {
        &self.client
    }

    /// Starts a call for a request with the URI `uri`: see
    /// [`RevProxyFuture::new`]. The target and the client stay as they are,
    /// and so does a rule that keeps its state.
    pub fn call(&mut self, uri: &http::Uri) -> (r: (RevProxyFuture, Option<http::Uri>))
        where
            Pr: PathRewriter,
        requires
            old(self).rule().admits(uri_path(*uri)),
        ensures
            without_delimiters(uri_path(*uri)),
            exists|out: Seq<char>|
                old(self).rule().rewrites(uri_path(*uri), out) && started(
                    r,
                    out,
                    uri_query(*uri),
                    old(self).scheme(),
                    old(self).authority(),
                ),
            old(self).rule().keeps_state() ==> final(self).rule() == old(self).rule(),
            final(self).scheme() == old(self).scheme(),
            final(self).authority() == old(self).authority(),
            final(self).client_spec() == old(self).client_spec(),
    {
        RevProxyFuture::new(uri, &self.scheme, &self.authority, &mut self.path)
    }
}

} // verus!
