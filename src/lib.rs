//! Authority normalization for HTTP/1 requests in a forwarding proxy.
//!
//! Two decorators capture an authority once, when a service is built for a
//! target, and stamp it on every request that service forwards:
//! `normalize_uri` puts HTTP/1 requests in absolute form, and
//! `overwrite_authority` overwrites the URI's authority and drops `Host`.

pub mod normalize_uri;
pub mod overwrite_authority;
pub mod request;
