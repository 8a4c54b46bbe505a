//! Reverse-proxy services: each forwards a request to a fixed backend,
//! rewriting the request path by a pluggable rule, and always yields either
//! the backend's response or one of two errors.
//!
//! - [`rewrite`]: the rules, and the rebuilding of a request URI by a rule;
//! - [`text`]: the string operations that the rules are built on;
//! - [`uri`]: the target's scheme and authority, and what `http` accepts;
//! - [`future`]: the life of one forwarded call;
//! - [`oneshot`], [`reused`]: services owning their client, or sharing one.

pub mod error;
pub mod future;
pub mod oneshot;
pub mod reused;
pub mod rewrite;
pub mod text;
pub mod uri;

pub use error::ProxyError;
pub use future::{Phase, RevProxyFuture, Step};
pub use oneshot::OneshotService;
pub use reused::{builder, Builder as ReusedServiceBuilder, ReusedService};
pub use rewrite::{
    AppendPrefix, AppendSuffix, Func, Identity, PathRewriter, RegexAll, RegexN, ReplaceAll,
    ReplaceN, Static, TrimPrefix, TrimSuffix,
};

use vstd::prelude::*;

verus! {

} // verus!
