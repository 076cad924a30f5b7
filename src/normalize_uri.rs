use vstd::prelude::*;

use crate::request::{authority_view, is_absolute_form, with_authority, Authority, Request, Version};

verus! {

/// A target that may ask for its requests to carry an absolute-form URI.
pub trait ShouldNormalizeUri {
    /// The authority that requests for this target are to carry, if any.
    fn should_normalize_uri(&self) -> Option<Authority>;
}

/// The request was HTTP/2, which carries its authority elsewhere and must not
/// be put in absolute form: a target was classified wrongly upstream.
#[derive(Clone, Copy, Debug, PartialEq, Eq, Structural)]
pub struct NotHttp1;

/// Builds `MakeNormalizeUri` around a constructor of services.
#[derive(Clone, Copy, Debug)]
pub struct Layer;

/// A constructor of services that puts each request in absolute form when
/// its target asks for it.
#[derive(Clone, Debug)]
pub struct MakeNormalizeUri<N> {
    inner: N,
}

/// The inner constructor's pending result, with the authority captured before
/// waiting on it.
#[derive(Debug)]
pub struct MakeFuture<F> {
    inner: F,
    authority: Option<Authority>,
}

/// A service that rewrites each request's URI to the captured authority.
#[derive(Clone, Debug)]
pub struct NormalizeUri<S> {
    inner: S,
    authority: Option<Authority>,
}

pub fn layer() -> (r: Layer) {
    Layer
}

impl Layer {
    pub fn layer<M>(&self, inner: M) -> (r: MakeNormalizeUri<M>)
        ensures
            r.inner_spec() == inner,
    {
        MakeNormalizeUri { inner }
    }
}

impl<N> MakeNormalizeUri<N> {
    pub closed spec fn inner_spec(&self) -> N {
        self.inner
    }

    pub fn new(inner: N) -> (r: Self)
        ensures
            r.inner_spec() == inner,
    {
        MakeNormalizeUri { inner }
    }

    pub fn inner_mut(&mut self) -> (r: &mut N)
        ensures
            *r == old(self).inner_spec(),
            final(self).inner_spec() == *final(r),
    {
        &mut self.inner
    }

    /// Starts a construction for `target`: its authority is looked up once,
    /// here, and travels with `inner`, the inner constructor's pending result.
    pub fn call<T: ShouldNormalizeUri, F>(&self, target: &T, inner: F) -> (r: MakeFuture<F>)
        ensures
            exists|a: Option<Authority>|
                call_ensures(T::should_normalize_uri, (target,), a) && r.authority_spec()
                    == authority_view(a),
            r.inner_spec() == inner,
    {
        let authority = target.should_normalize_uri();
        assert(call_ensures(T::should_normalize_uri, (target,), authority));
        let r = MakeFuture { inner, authority };
        assert(r.authority_spec() == authority_view(authority));
        r
    }

    /// Builds the service for `target` around `inner`, the service the inner
    /// constructor made for it.
    pub fn make<T: ShouldNormalizeUri, S>(&self, target: &T, inner: S) -> (r: NormalizeUri<S>)
        ensures
            exists|a: Option<Authority>|
                call_ensures(T::should_normalize_uri, (target,), a) && r.authority_spec()
                    == authority_view(a),
            r.inner_spec() == inner,
    {
        let authority = target.should_normalize_uri();
        assert(call_ensures(T::should_normalize_uri, (target,), authority));
        let r = NormalizeUri { inner, authority };
        assert(r.authority_spec() == authority_view(authority));
        r
    }
}

impl<F> MakeFuture<F> {
    pub closed spec fn inner_spec(&self) -> F {
        self.inner
    }

    pub closed spec fn authority_spec(&self) -> Option<Seq<u8>> {
        authority_view(self.authority)
    }

    /// A pending construction whose service is to carry `authority`.
    pub fn new(inner: F, authority: Option<Authority>) -> (r: Self)
        ensures
            r.authority_spec() == authority_view(authority),
            r.inner_spec() == inner,
    {
        MakeFuture { inner, authority }
    }

    pub fn inner_mut(&mut self) -> (r: &mut F)
        ensures
            *r == old(self).inner_spec(),
            final(self).inner_spec() == *final(r),
            final(self).authority_spec() == old(self).authority_spec(),
    {
        &mut self.inner
    }

    /// Finishes the construction once the inner constructor has produced
    /// `inner`. The captured authority moves into the service.
    pub fn poll<S>(&mut self, inner: S) -> (r: NormalizeUri<S>)
        ensures
            r.authority_spec() == old(self).authority_spec(),
            r.inner_spec() == inner,
            final(self).authority_spec() is None,
            final(self).inner_spec() == old(self).inner_spec(),
    {
        let authority = self.authority.take();
        NormalizeUri { inner, authority }
    }
}

impl<S> NormalizeUri<S> {
    pub closed spec fn inner_spec(&self) -> S {
        self.inner
    }

    pub closed spec fn authority_spec(&self) -> Option<Seq<u8>> {
        authority_view(self.authority)
    }

    pub fn authority(&self) -> (r: &Option<Authority>)
        ensures
            authority_view(*r) == self.authority_spec(),
    {
        &self.authority
    }

    pub fn inner_mut(&mut self) -> (r: &mut S)
        ensures
            *r == old(self).inner_spec(),
            final(self).inner_spec() == *final(r),
            final(self).authority_spec() == old(self).authority_spec(),
    {
        &mut self.inner
    }

    /// Prepares `req` to be forwarded. With no captured authority it is left
    /// as it is. With one, an HTTP/1 request gets it as its URI's authority,
    /// in absolute form; an HTTP/2 request is refused and left as it is.
    pub fn call<B>(&self, req: &mut Request<B>) -> (r: Result<(), NotHttp1>)
        ensures
            match self.authority_spec() {
                None => r is Ok && *final(req) == *old(req),
                Some(a) => if old(req).version == Version::Http2 {
                    r is Err && *final(req) == *old(req)
                } else {
                    &&& r is Ok
                    &&& final(req).uri@ == with_authority(old(req).uri@, a)
                    &&& final(req).version == old(req).version
                    &&& final(req).headers == old(req).headers
                    &&& final(req).body == old(req).body
                },
            },
            final(req).version == old(req).version,
            self.authority_spec() is Some && r is Ok ==> {
                &&& final(req).version != Version::Http2
                &&& final(req).uri@.authority == self.authority_spec()
                &&& old(req).uri.path_and_query is Some ==> is_absolute_form(final(req).uri@)
            },
    {
        match &self.authority {
            None => Ok(()),
            Some(auth) => {
                if req.version == Version::Http2 {
                    Err(NotHttp1)
                } else {
                    req.uri.set_authority(auth.clone());
                    Ok(())
                }
            },
        }
    }
}

} // verus!
