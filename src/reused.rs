//! Services that share one client, minted by a builder.

use vstd::prelude::*;

use std::sync::Arc;

use crate::future::{started, RevProxyFuture};
use crate::rewrite::PathRewriter;
use crate::uri::{
    authority_accepted, authority_plain, authority_refused, parse_authority, parse_scheme,
    parsed_authority, parsed_scheme, scheme_accepted, uri_path, uri_query, without_delimiters,
};

verus! {

/// Declares hyper-util's plain-HTTP connector.
#[verifier::external_type_specification]
#[verifier::external_body]
#[verifier::reject_recursive_types(R)]
pub struct ExHttpConnector<R>(hyper_util::client::legacy::connect::HttpConnector<R>);

/// Declares hyper-util's default name resolver.
#[verifier::external_type_specification]
#[verifier::external_body]
pub struct ExGaiResolver(hyper_util::client::legacy::connect::dns::GaiResolver);

/// Declares hyper-tls's HTTPS connector.
#[verifier::external_type_specification]
#[verifier::external_body]
#[verifier::reject_recursive_types(T)]
pub struct ExHttpsConnector<T>(hyper_tls::HttpsConnector<T>);

/// Relies on `Arc::clone`: the new handle points to the same value.
#[verifier::external_body]
fn share<T>(a: &Arc<T>) -> (r: Arc<T>)
    ensures
        r == *a,
{
    Arc::clone(a)
}

/// Holds a shared client and a target, and mints a [`ReusedService`] for each
/// rewrite rule.
#[verifier::reject_recursive_types(C)]
#[verifier::reject_recursive_types(B)]
pub struct Builder<C, B> {
    client: Arc<hyper_util::client::legacy::Client<C, B>>,
    scheme: http::uri::Scheme,
    authority: http::uri::Authority,
}

impl<C, B> Clone for Builder<C, B> {
    /// A builder on the same client and target.
    fn clone(&self) -> (r: Self)
        ensures
            r == *self,
    {
        Builder {
            client: share(&self.client),
            scheme: self.scheme.clone(),
            authority: self.authority.clone(),
        }
    }
}

impl<C, B> Builder<C, B> {
    /// The shared client.
    pub closed spec fn client_spec(&self) -> Arc<hyper_util::client::legacy::Client<C, B>> {
        self.client
    }

    /// The scheme that requests are sent with.
    pub closed spec fn scheme(&self) -> http::uri::Scheme {
        self.scheme
    }

    /// The authority (`host[:port]`) that requests are sent to.
    pub closed spec fn authority(&self) -> http::uri::Authority {
        self.authority
    }

    /// A service with the rule `path`, on this builder's client and target.
    pub fn build<Pr>(&self, path: Pr) -> (r: ReusedService<Pr, C, B>)
        ensures
            r.rule() == path,
            r.client_spec() == self.client_spec(),
            r.scheme() == self.scheme(),
            r.authority() == self.authority(),
    {
        let Builder { client, scheme, authority } = self.clone();
        ReusedService { client, scheme, authority, path }
    }
}

/// A builder that shares `client` among its services, which send requests to
/// `scheme://authority`. Fails where `http` refuses the scheme or the
/// authority.
pub fn builder<C, B>(client: hyper_util::client::legacy::Client<C, B>, scheme: &str, authority: &str) -> (r:
    Result<Builder<C, B>, http::Error>)
    ensures
        r is Ok <==> scheme_accepted(scheme@) && authority_accepted(authority@),
        authority_refused(authority@) ==> r is Err,
        scheme_accepted(scheme@) && authority_plain(authority@) ==> r is Ok,
        r matches Ok(b) ==> *b.client_spec() == client && b.scheme() == parsed_scheme(scheme@)
            && b.authority() == parsed_authority(authority@),
{
    let scheme = match parse_scheme(scheme) {
        Ok(s) => s,
        Err(e) => return Err(e),
    };
    let authority = match parse_authority(authority) {
        Ok(a) => a,
        Err(e) => return Err(e),
    };
    Ok(Builder { client: Arc::new(client), scheme, authority })
}

/// Sends requests to one backend through a client shared with other
/// services, and rewrites each request's path by the rule `Pr`.
#[verifier::reject_recursive_types(C)]
#[verifier::reject_recursive_types(B)]
pub struct ReusedService<Pr, C, B> {
    client: Arc<hyper_util::client::legacy::Client<C, B>>,
    scheme: http::uri::Scheme,
    authority: http::uri::Authority,
    path: Pr,
}

impl<Pr: Clone, C, B> Clone for ReusedService<Pr, C, B> {
    /// A service with a copy of the rule, on the same client and target.
    fn clone(&self) -> (r: Self)
        ensures
            r.client_spec() == self.client_spec(),
            r.scheme() == self.scheme(),
            r.authority() == self.authority(),
    {
        ReusedService {
            client: share(&self.client),
            scheme: self.scheme.clone(),
            authority: self.authority.clone(),
            path: self.path.clone(),
        }
    }
}

impl<Pr, C, B> ReusedService<Pr, C, B> {
    /// The rule that rewrites the paths, in its current state.
    pub closed spec fn rule(&self) -> Pr {
        self.path
    }

    /// The shared client.
    pub closed spec fn client_spec(&self) -> Arc<hyper_util::client::legacy::Client<C, B>> {
        self.client
    }

    /// The scheme that requests are sent with.
    pub closed spec fn scheme(&self) -> http::uri::Scheme {
        self.scheme
    }

    /// The authority (`host[:port]`) that requests are sent to.
    pub closed spec fn authority(&self) -> http::uri::Authority {
        self.authority
    }

    /// A service that sends requests through the shared `client` to
    /// `scheme://authority`, rewriting their paths by `path`. Fails, and makes
    /// no service, where `http` refuses the scheme or the authority.
    pub fn from(
        client: Arc<hyper_util::client::legacy::Client<C, B>>,
        scheme: &str,
        authority: &str,
        path: Pr,
    ) -> (r: Result<Self, http::Error>)
        ensures
            r is Ok <==> scheme_accepted(scheme@) && authority_accepted(authority@),
            authority_refused(authority@) ==> r is Err,
            scheme_accepted(scheme@) && authority_plain(authority@) ==> r is Ok,
            r matches Ok(svc) ==> svc.rule() == path && svc.client_spec() == client
                && svc.scheme() == parsed_scheme(scheme@) && svc.authority() == parsed_authority(
                authority@,
            ),
    {
        let scheme = match parse_scheme(scheme) {
            Ok(s) => s,
            Err(e) => return Err(e),
        };
        let authority = match parse_authority(authority) {
            Ok(a) => a,
            Err(e) => return Err(e),
        };
        Ok(ReusedService { client, scheme, authority, path })
    }

    /// The shared client.
    pub fn client(&self) -> (r: &hyper_util::client::legacy::Client<C, B>)
        ensures
            *r == *self.client_spec(),
    {
        &self.client
    }

    /// Starts a call for a request with the URI `uri`: see
    /// [`RevProxyFuture::new`]. The target and the client stay as they are,
    /// and so does a rule that keeps its state.
    pub fn call(&mut self, uri: &http::Uri) -> (r: (RevProxyFuture, Option<http::Uri>))
        where
            Pr: PathRewriter,
        requires
            old(self).rule().admits(uri_path(*uri)),
        ensures
            without_delimiters(uri_path(*uri)),
            exists|out: Seq<char>|
                old(self).rule().rewrites(uri_path(*uri), out) && started(
                    r,
                    out,
                    uri_query(*uri),
                    old(self).scheme(),
                    old(self).authority(),
                ),
            old(self).rule().keeps_state() ==> final(self).rule() == old(self).rule(),
            final(self).scheme() == old(self).scheme(),
            final(self).authority() == old(self).authority(),
            final(self).client_spec() == old(self).client_spec(),
    {
        RevProxyFuture::new(uri, &self.scheme, &self.authority, &mut self.path)
    }
}

impl<Pr, B> ReusedService<Pr, hyper_util::client::legacy::connect::HttpConnector, B> {
    /// A service that sends requests through the shared plain-HTTP `client`
    /// to `http://authority`. Fails where `http` refuses the authority.
    pub fn http_default(
        client: Arc<
            hyper_util::client::legacy::Client<hyper_util::client::legacy::connect::HttpConnector, B>,
        >,
        authority: &str,
        path: Pr,
    ) -> (r: Result<Self, http::Error>)
        ensures
            r is Ok <==> authority_accepted(authority@),
            authority_refused(authority@) ==> r is Err,
            authority_plain(authority@) ==> r is Ok,
            r matches Ok(svc) ==> svc.rule() == path && svc.client_spec() == client
                && svc.scheme() == parsed_scheme("http"@) && svc.authority() == parsed_authority(
                authority@,
            ),
    {
        proof {
            reveal_strlit("http");
        }
        let scheme = match parse_scheme("http") {
            Ok(s) => s,
            Err(e) => return Err(e),
        };
        let authority = match parse_authority(authority) {
            Ok(a) => a,
            Err(e) => return Err(e),
        };
        Ok(ReusedService { client, scheme, authority, path })
    }
}

impl<Pr, B> ReusedService<
    Pr,
    hyper_tls::HttpsConnector<hyper_util::client::legacy::connect::HttpConnector>,
    B,
> {
    /// A service that sends requests through the shared HTTPS `client` to
    /// `https://authority`. Fails where `http` refuses the authority.
    pub fn https_default(
        client: Arc<
            hyper_util::client::legacy::Client<
                hyper_tls::HttpsConnector<hyper_util::client::legacy::connect::HttpConnector>,
                B,
            >,
        >,
        authority: &str,
        path: Pr,
    ) -> (r: Result<Self, http::Error>)
        ensures
            r is Ok <==> authority_accepted(authority@),
            authority_refused(authority@) ==> r is Err,
            authority_plain(authority@) ==> r is Ok,
            r matches Ok(svc) ==> svc.rule() == path && svc.client_spec() == client
                && svc.scheme() == parsed_scheme("https"@) && svc.authority() == parsed_authority(
                authority@,
            ),
    {
        proof {
            reveal_strlit("https");
        }
        let scheme = match parse_scheme("https") {
            Ok(s) => s,
            Err(e) => return Err(e),
        };
        let authority = match parse_authority(authority) {
            Ok(a) => a,
            Err(e) => return Err(e),
        };
        Ok(ReusedService { client, scheme, authority, path })
    }
}

} // verus!
