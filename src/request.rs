use vstd::prelude::*;

verus! {

/// The protocol version a request was received with.
#[derive(Clone, Copy, Debug, PartialEq, Eq, Structural)]
pub enum Version {
    Http09,
    Http10,
    Http11,
    Http2,
}

/// The `host[:port]` part of a URI, as text bytes.
#[derive(Debug, PartialEq, Eq)]
pub struct Authority {
    bytes: Vec<u8>,
}

impl View for Authority {
    type V = Seq<u8>;

    closed spec fn view(&self) -> Seq<u8> {
        self.bytes@
    }
}

impl Authority {
    pub fn new(bytes: Vec<u8>) -> (r: Authority)
        ensures
            r@ == bytes@,
    {
        Authority { bytes }
    }

    pub fn as_bytes(&self) -> (r: &[u8])
        ensures
            r@ == self@,
    {
        self.bytes.as_slice()
    }
}

impl Clone for Authority {
    fn clone(&self) -> (r: Self)
        ensures
            r@ == self@,
    {
        let bytes = self.bytes.clone();
        assert(bytes@ =~= self.bytes@);
        Authority { bytes }
    }
}

/// The text of an optional authority.
pub open spec fn authority_view(a: Option<Authority>) -> Option<Seq<u8>> {
    match a {
        Some(x) => Some(x@),
        None => None,
    }
}

/// The text of an optional URI component.
pub open spec fn part_view(p: Option<Vec<u8>>) -> Option<Seq<u8>> {
    match p {
        Some(x) => Some(x@),
        None => None,
    }
}

/// A request target: absolute-form when it holds a scheme, an authority and a
/// path; origin-form when it holds only a path; authority-form when it holds
/// only an authority.
#[derive(Debug, PartialEq, Eq)]
pub struct Uri {
    pub scheme: Option<Vec<u8>>,
    pub authority: Option<Authority>,
    pub path_and_query: Option<Vec<u8>>,
}

/// What a `Uri` holds, as text.
pub struct UriView {
    pub scheme: Option<Seq<u8>>,
    pub authority: Option<Seq<u8>>,
    pub path_and_query: Option<Seq<u8>>,
}

impl View for Uri {
    type V = UriView;

    open spec fn view(&self) -> UriView {
        UriView {
            scheme: part_view(self.scheme),
            authority: authority_view(self.authority),
            path_and_query: part_view(self.path_and_query),
        }
    }
}

/// `http`
pub open spec fn http_scheme() -> Seq<u8> {
    seq![104u8, 116u8, 116u8, 112u8]
}

/// `://`
pub open spec fn scheme_separator() -> Seq<u8> {
    seq![58u8, 47u8, 47u8]
}

/// The URI with its authority replaced. A URI with a path also gets the
/// `http` scheme, so that it is in absolute form; one without a path
/// (authority-form) keeps its scheme, whose meaning would change otherwise.
pub open spec fn with_authority(u: UriView, a: Seq<u8>) -> UriView {
    UriView {
        scheme: if u.path_and_query is Some {
            Some(http_scheme())
        } else {
            u.scheme
        },
        authority: Some(a),
        path_and_query: u.path_and_query,
    }
}

/// Setting the same authority twice gives the URI that setting it once gives.
pub proof fn lemma_with_authority_idempotent(u: UriView, a: Seq<u8>)
    ensures
        with_authority(with_authority(u, a), a) == with_authority(u, a),
{
}

/// A URI with a path is in absolute form once its authority is set.
pub proof fn lemma_with_authority_absolute(u: UriView, a: Seq<u8>)
    requires
        u.path_and_query is Some,
    ensures
        is_absolute_form(with_authority(u, a)),
        with_authority(u, a).authority == Some(a),
        with_authority(u, a).path_and_query == u.path_and_query,
{
}

pub open spec fn is_absolute_form(u: UriView) -> bool {
    &&& u.scheme is Some
    &&& u.authority is Some
    &&& u.path_and_query is Some
}

pub open spec fn opt_text(p: Option<Seq<u8>>) -> Seq<u8> {
    match p {
        Some(s) => s,
        None => Seq::empty(),
    }
}

/// The URI as it is written on a request line.
pub open spec fn uri_text(u: UriView) -> Seq<u8> {
    let scheme = match u.scheme {
        Some(s) => s + scheme_separator(),
        None => Seq::empty(),
    };
    scheme + opt_text(u.authority) + opt_text(u.path_and_query)
}

fn append(out: &mut Vec<u8>, part: &[u8])
    ensures
        final(out)@ == old(out)@ + part@,
{
    let mut i: usize = 0;
    while i < part.len()
        invariant
            i <= part@.len(),
            out@ == old(out)@ + part@.take(i as int),
        decreases part@.len() - i,
    {
        out.push(part[i]);
        i += 1;
        assert(part@.take(i as int) =~= part@.take(i - 1) .push(part@[i - 1]));
    }
    assert(part@.take(i as int) =~= part@);
}

impl Uri {
    /// Rewrites this URI to carry `authority`, in absolute form where it has a
    /// path. Path and query are left as they are.
    pub fn set_authority(&mut self, authority: Authority)
        ensures
            final(self)@ == with_authority(old(self)@, authority@),
    {
        self.authority = Some(authority);
        if self.path_and_query.is_some() {
            let http: Vec<u8> = vec![104u8, 116u8, 116u8, 112u8];
            assert(http@ =~= http_scheme());
            self.scheme = Some(http);
        }
    }

    /// The URI as it is written on a request line.
    pub fn to_bytes(&self) -> (r: Vec<u8>)
        ensures
            r@ == uri_text(self@),
    {
        let mut out: Vec<u8> = Vec::new();
        match &self.scheme {
            Some(s) => {
                append(&mut out, s.as_slice());
                let separator: Vec<u8> = vec![58u8, 47u8, 47u8];
                assert(separator@ =~= scheme_separator());
                append(&mut out, separator.as_slice());
            },
            None => {},
        }
        match &self.authority {
            Some(a) => append(&mut out, a.as_bytes()),
            None => {},
        }
        match &self.path_and_query {
            Some(p) => append(&mut out, p.as_slice()),
            None => {},
        }
        assert(out@ =~= uri_text(self@));
        out
    }
}

/// One header field, name and value as bytes.
#[derive(Debug, PartialEq, Eq)]
pub struct Header {
    pub name: Vec<u8>,
    pub value: Vec<u8>,
}

/// An HTTP request: version, request target, header fields in their order,
/// and a body that is passed along untouched.
#[derive(Debug, PartialEq, Eq)]
pub struct Request<B> {
    pub version: Version,
    pub uri: Uri,
    pub headers: Vec<Header>,
    pub body: B,
}

pub open spec fn ascii_lower(b: u8) -> u8 {
    if 65 <= b <= 90 {
        (b + 32) as u8
    } else {
        b
    }
}

/// A header name that is `host` in any case.
pub open spec fn is_host_name(n: Seq<u8>) -> bool {
    &&& n.len() == 4
    &&& ascii_lower(n[0]) == 104
    &&& ascii_lower(n[1]) == 111
    &&& ascii_lower(n[2]) == 115
    &&& ascii_lower(n[3]) == 116
}

/// The header fields without any `Host` field, the others in their order.
pub open spec fn without_host(hs: Seq<Header>) -> Seq<Header>
    decreases hs.len(),
{
    if hs.len() == 0 {
        hs
    } else {
        let rest = without_host(hs.drop_last());
        if is_host_name(hs.last().name@) {
            rest
        } else {
            rest.push(hs.last())
        }
    }
}

pub open spec fn has_host(hs: Seq<Header>) -> bool {
    exists|i: int| 0 <= i < hs.len() && is_host_name(#[trigger] hs[i].name@)
}

/// No `Host` field is left after removal.
pub proof fn lemma_without_host_has_none(hs: Seq<Header>)
    ensures
        !has_host(without_host(hs)),
    decreases hs.len(),
{
    if hs.len() > 0 {
        lemma_without_host_has_none(hs.drop_last());
        let rest = without_host(hs.drop_last());
        if !is_host_name(hs.last().name@) {
            assert forall|i: int| 0 <= i < rest.push(hs.last()).len() implies !is_host_name(
                #[trigger] rest.push(hs.last())[i].name@,
            ) by {
                if i < rest.len() {
                    assert(rest.push(hs.last())[i] == rest[i]);
                }
            }
        }
    }
}

/// Without a `Host` field, removal changes nothing.
pub proof fn lemma_without_host_keeps(hs: Seq<Header>)
    requires
        !has_host(hs),
    ensures
        without_host(hs) == hs,
    decreases hs.len(),
{
    if hs.len() > 0 {
        let init = hs.drop_last();
        assert(!has_host(init)) by {
            if has_host(init) {
                let i = choose|i: int| 0 <= i < init.len() && is_host_name(#[trigger] init[i].name@);
                assert(hs[i] == init[i]);
            }
        }
        lemma_without_host_keeps(init);
        assert(!is_host_name(hs[hs.len() - 1].name@));
        assert(init.push(hs.last()) =~= hs);
    }
}

/// Removing `Host` fields twice leaves what removing them once leaves.
pub proof fn lemma_without_host_idempotent(hs: Seq<Header>)
    ensures
        without_host(without_host(hs)) == without_host(hs),
{
    lemma_without_host_has_none(hs);
    lemma_without_host_keeps(without_host(hs));
}

fn lower(b: u8) -> (r: u8)
    ensures
        r == ascii_lower(b),
{
    if 65 <= b && b <= 90 {
        b + 32
    } else {
        b
    }
}

fn is_host(name: &Vec<u8>) -> (r: bool)
    ensures
        r == is_host_name(name@),
{
    name.len() == 4 && lower(name[0]) == 104 && lower(name[1]) == 111 && lower(name[2]) == 115
        && lower(name[3]) == 116
}

/// Removes every `Host` field, keeping the others in their order.
pub fn remove_host(headers: &mut Vec<Header>)
    ensures
        final(headers)@ == without_host(old(headers)@),
        !has_host(final(headers)@),
{
    let ghost orig = headers@;
    let mut i: usize = 0;
    let ghost mut k: int = 0;
    assert(orig.take(0) =~= Seq::<Header>::empty());
    assert(orig.skip(0) =~= orig);
    while i < headers.len()
        invariant
            0 <= k <= orig.len(),
            i == without_host(orig.take(k)).len(),
            headers@ == without_host(orig.take(k)) + orig.skip(k),
        decreases orig.len() - k,
    {
        let ghost kept = without_host(orig.take(k));
        assert(orig.take(k + 1).drop_last() =~= orig.take(k));
        assert(orig.take(k + 1).last() == orig[k]);
        assert(headers@[i as int] == orig[k]);
        if is_host(&headers[i].name) {
            headers.remove(i);
            assert(headers@ =~= kept + orig.skip(k + 1));
        } else {
            i += 1;
            assert(headers@ =~= kept.push(orig[k]) + orig.skip(k + 1));
        }
        proof {
            k = k + 1;
        }
    }
    assert(orig.take(k) =~= orig) by {
        if k < orig.len() {
            assert(headers@.len() == i + orig.len() - k);
        }
    }
    assert(headers@ =~= without_host(orig));
    proof {
        lemma_without_host_has_none(orig);
    }
}

} // verus!
