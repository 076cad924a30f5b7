use vstd::prelude::*;

use crate::request::{authority_view, has_host, remove_host, with_authority, without_host, Authority, Request};

verus! {

/// Looks up the authority that requests for a target are to carry.
pub trait ExtractAuthority<T> {
    /// The authority that requests for `target` are to carry, if any.
    fn extract(&self, target: &T) -> Option<Authority>;
}

/// A target that may ask for its requests to be sent in absolute form.
pub trait ForceAbsForm {
    fn abs_form(&self) -> bool;
}

/// Builds `MakeSvc` around a constructor of services, each with its own copy
/// of the extractor.
#[derive(Clone, Debug)]
pub struct Layer<E> {
    extractor: E,
}

/// A constructor of services that overwrite each request's authority with the
/// one the extractor gives for the target.
#[derive(Clone, Debug)]
pub struct MakeSvc<E, M> {
    extractor: E,
    inner: M,
}

/// The inner constructor's pending result, with the authority captured before
/// waiting on it.
#[derive(Debug)]
pub struct MakeSvcFut<M> {
    authority: Option<Authority>,
    inner: M,
}

/// A service that overwrites each request's authority with the captured one
/// and drops its `Host` field.
#[derive(Clone, Debug)]
pub struct Service<S> {
    authority: Option<Authority>,
    inner: S,
}

pub fn layer<E: Clone>(extractor: E) -> (r: Layer<E>)
    ensures
        r.extractor_spec() == extractor,
{
    Layer { extractor }
}

impl<E> Layer<E> {
    pub closed spec fn extractor_spec(&self) -> E {
        self.extractor
    }

    pub fn layer<M>(&self, inner: M) -> (r: MakeSvc<E, M>) where E: Clone
        ensures
            cloned(self.extractor_spec(), r.extractor_spec()),
            r.inner_spec() == inner,
    {
        MakeSvc { extractor: self.extractor.clone(), inner }
    }
}

impl<E, M> MakeSvc<E, M> {
    pub closed spec fn extractor_spec(&self) -> E {
        self.extractor
    }

    pub closed spec fn inner_spec(&self) -> M {
        self.inner
    }

    pub fn new(extractor: E, inner: M) -> (r: Self)
        ensures
            r.extractor_spec() == extractor,
            r.inner_spec() == inner,
    {
        MakeSvc { extractor, inner }
    }

    pub fn inner_mut(&mut self) -> (r: &mut M)
        ensures
            *r == old(self).inner_spec(),
            final(self).inner_spec() == *final(r),
            final(self).extractor_spec() == old(self).extractor_spec(),
    {
        &mut self.inner
    }

    /// Starts a construction for `target`: its authority is looked up once,
    /// here, and travels with `inner`, the inner constructor's pending result.
    pub fn call<T, F>(&self, target: &T, inner: F) -> (r: MakeSvcFut<F>) where E: ExtractAuthority<T>
        ensures
            exists|a: Option<Authority>|
                call_ensures(E::extract, (&self.extractor_spec(), target), a) && r.authority_spec()
                    == authority_view(a),
            r.inner_spec() == inner,
    {
        let authority = self.extractor.extract(target);
        assert(call_ensures(E::extract, (&self.extractor, target), authority));
        let r = MakeSvcFut { authority, inner };
        assert(r.authority_spec() == authority_view(authority));
        r
    }
}

impl<F> MakeSvcFut<F> {
    pub closed spec fn inner_spec(&self) -> F {
        self.inner
    }

    pub closed spec fn authority_spec(&self) -> Option<Seq<u8>> {
        authority_view(self.authority)
    }

    /// A pending construction whose service is to carry `authority`.
    pub fn new(inner: F, authority: Option<Authority>) -> (r: Self)
        ensures
            r.authority_spec() == authority_view(authority),
            r.inner_spec() == inner,
    {
        MakeSvcFut { authority, inner }
    }

    pub fn inner_mut(&mut self) -> (r: &mut F)
        ensures
            *r == old(self).inner_spec(),
            final(self).inner_spec() == *final(r),
            final(self).authority_spec() == old(self).authority_spec(),
    {
        &mut self.inner
    }

    /// Finishes the construction once the inner constructor has produced
    /// `inner`. The service gets a copy of the captured authority.
    pub fn poll<S>(&self, inner: S) -> (r: Service<S>)
        ensures
            r.authority_spec() == self.authority_spec(),
            r.inner_spec() == inner,
    {
        let authority = match &self.authority {
            Some(a) => Some(a.clone()),
            None => None,
        };
        Service { authority, inner }
    }
}

impl<S> Service<S> {
    pub closed spec fn inner_spec(&self) -> S {
        self.inner
    }

    pub closed spec fn authority_spec(&self) -> Option<Seq<u8>> {
        authority_view(self.authority)
    }

    pub fn authority(&self) -> (r: &Option<Authority>)
        ensures
            authority_view(*r) == self.authority_spec(),
    {
        &self.authority
    }

    pub fn inner_mut(&mut self) -> (r: &mut S)
        ensures
            *r == old(self).inner_spec(),
            final(self).inner_spec() == *final(r),
            final(self).authority_spec() == old(self).authority_spec(),
    {
        &mut self.inner
    }

    /// Prepares `req` to be forwarded. With no captured authority it is left
    /// as it is. With one, whatever the version, the URI gets it as its
    /// authority and every `Host` field is removed, so that the transport
    /// derives `Host` from the URI.
    pub fn call<B>(&self, req: &mut Request<B>)
        ensures
            match self.authority_spec() {
                None => *final(req) == *old(req),
                Some(a) => {
                    &&& final(req).uri@ == with_authority(old(req).uri@, a)
                    &&& final(req).headers@ == without_host(old(req).headers@)
                    &&& final(req).version == old(req).version
                    &&& final(req).body == old(req).body
                },
            },
            self.authority_spec() is Some ==> {
                &&& final(req).uri@.authority == self.authority_spec()
                &&& !has_host(final(req).headers@)
            },
    {
        match &self.authority {
            None => {},
            Some(auth) => {
                req.uri.set_authority(auth.clone());
                remove_host(&mut req.headers);
            },
        }
    }
}

} // verus!
