use std::cell::Cell;

use linkerd2_proxy_http::normalize_uri::{self, MakeNormalizeUri, NotHttp1, ShouldNormalizeUri};
use linkerd2_proxy_http::request::{Authority, Header, Request, Uri, Version};

struct Target {
    authority: Option<&'static str>,
    lookups: Cell<usize>,
}

impl Target {
    fn new(authority: Option<&'static str>) -> Target {
        Target { authority, lookups: Cell::new(0) }
    }
}

impl ShouldNormalizeUri for Target {
    fn should_normalize_uri(&self) -> Option<Authority> {
        self.lookups.set(self.lookups.get() + 1);
        self.authority.map(|a| Authority::new(a.as_bytes().to_vec()))
    }
}

fn relative_request(version: Version) -> Request<&'static str> {
    Request {
        version,
        uri: Uri {
            scheme: None,
            authority: None,
            path_and_query: Some(b"/path?x=1".to_vec()),
        },
        headers: vec![Header { name: b"Host".to_vec(), value: b"old.example:80".to_vec() }],
        body: "body",
    }
}

fn build(target: &Target) -> normalize_uri::NormalizeUri<()> {
    let make = normalize_uri::layer().layer(());
    let mut fut = make.call(target, ());
    fut.poll(())
}

#[test]
fn relative_form_becomes_absolute_form() {
    let target = Target::new(Some("svc.cluster.local:8080"));
    let svc = build(&target);
    let mut req = relative_request(Version::Http11);
    assert_eq!(svc.call(&mut req), Ok(()));
    assert_eq!(req.uri.to_bytes(), b"http://svc.cluster.local:8080/path?x=1".to_vec());
    assert_eq!(
        req.headers,
        vec![Header { name: b"Host".to_vec(), value: b"old.example:80".to_vec() }]
    );
    assert_eq!(req.version, Version::Http11);
    assert_eq!(req.body, "body");
}

#[test]
fn no_authority_leaves_request_unchanged() {
    let target = Target::new(None);
    let svc = build(&target);
    for version in [Version::Http10, Version::Http11, Version::Http2] {
        let mut req = relative_request(version);
        assert_eq!(svc.call(&mut req), Ok(()));
        assert_eq!(req, relative_request(version));
        assert_eq!(req.uri.to_bytes(), b"/path?x=1".to_vec());
    }
}

#[test]
fn http2_request_is_refused_and_left_unchanged() {
    let target = Target::new(Some("svc.cluster.local:8080"));
    let svc = build(&target);
    let mut req = relative_request(Version::Http2);
    assert_eq!(svc.call(&mut req), Err(NotHttp1));
    assert_eq!(req, relative_request(Version::Http2));
}

#[test]
fn authority_is_looked_up_once_per_construction() {
    let target = Target::new(Some("svc.cluster.local:8080"));
    let svc = build(&target);
    for _ in 0..5 {
        let mut req = relative_request(Version::Http11);
        assert_eq!(svc.call(&mut req), Ok(()));
        assert_eq!(req.uri.to_bytes(), b"http://svc.cluster.local:8080/path?x=1".to_vec());
    }
    assert_eq!(target.lookups.get(), 1);
}

#[test]
fn sync_make_looks_up_once() {
    let target = Target::new(Some("a.example:1"));
    let make = MakeNormalizeUri::new(());
    let svc = make.make(&target, 7u8);
    assert_eq!(target.lookups.get(), 1);
    assert_eq!(svc.authority().as_ref().map(|a| a.as_bytes().to_vec()), Some(b"a.example:1".to_vec()));
    let mut req = relative_request(Version::Http10);
    assert_eq!(svc.call(&mut req), Ok(()));
    assert_eq!(req.uri.to_bytes(), b"http://a.example:1/path?x=1".to_vec());
}

#[test]
fn poll_moves_authority_into_service() {
    let target = Target::new(Some("a.example:1"));
    let make = MakeNormalizeUri::new(());
    let mut fut = make.call(&target, 3u32);
    assert_eq!(*fut.inner_mut(), 3);
    let mut svc = fut.poll("inner");
    assert_eq!(*svc.inner_mut(), "inner");
    assert_eq!(svc.authority().as_ref().map(|a| a.as_bytes().to_vec()), Some(b"a.example:1".to_vec()));
    let again = fut.poll("second");
    assert!(again.authority().is_none());
}

#[test]
fn stacked_normalization_equals_single() {
    let target = Target::new(Some("svc.cluster.local:8080"));
    let svc = build(&target);
    let mut once = relative_request(Version::Http11);
    assert_eq!(svc.call(&mut once), Ok(()));
    let mut twice = relative_request(Version::Http11);
    assert_eq!(svc.call(&mut twice), Ok(()));
    assert_eq!(svc.call(&mut twice), Ok(()));
    assert_eq!(once, twice);
}

#[test]
fn absolute_form_gets_new_authority_and_http_scheme() {
    let target = Target::new(Some("new.example:81"));
    let svc = build(&target);
    let mut req = relative_request(Version::Http11);
    req.uri = Uri {
        scheme: Some(b"https".to_vec()),
        authority: Some(Authority::new(b"old.example".to_vec())),
        path_and_query: Some(b"/a".to_vec()),
    };
    assert_eq!(svc.call(&mut req), Ok(()));
    assert_eq!(req.uri.to_bytes(), b"http://new.example:81/a".to_vec());
}

#[test]
fn authority_form_keeps_its_form() {
    let target = Target::new(Some("new.example:443"));
    let svc = build(&target);
    let mut req = relative_request(Version::Http11);
    req.uri = Uri {
        scheme: None,
        authority: Some(Authority::new(b"old.example:443".to_vec())),
        path_and_query: None,
    };
    assert_eq!(svc.call(&mut req), Ok(()));
    assert_eq!(req.uri.scheme, None);
    assert_eq!(req.uri.to_bytes(), b"new.example:443".to_vec());
}
