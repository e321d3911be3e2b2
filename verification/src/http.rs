//! Routing: which response each request method and path receives.

use vstd::prelude::*;
use crate::json::{json_body_of, lemma_json_body_nonempty, render_json};
use crate::payload::Payload;

verus! {

/// The bytes of the method `GET`.
pub open spec fn method_get() -> Seq<u8> {
    seq![71u8, 69u8, 84u8]
}

/// The bytes of the path `/json`, the one served path.
pub open spec fn path_json() -> Seq<u8> {
    seq![47u8, 106u8, 115u8, 111u8, 110u8]
}

/// The bytes of `application/json`, the content type of the served response.
pub open spec fn content_type_json() -> Seq<u8> {
    seq![
        97u8, 112u8, 112u8, 108u8, 105u8, 99u8, 97u8, 116u8, 105u8, 111u8, 110u8, 47u8,
        106u8, 115u8, 111u8, 110u8,
    ]
}

/// Where a request is dispatched.
#[derive(Clone, Copy, PartialEq, Eq, Structural, Debug)]
pub enum Route {
    /// `GET /json`: the payload is served.
    JsonEndpoint,
    /// `/json` with any other method.
    MethodNotAllowed,
    /// Any other path.
    NotFound,
}

/// The routing rule: the payload is served for `GET /json` and for nothing
/// else; the path decides before the method.
pub open spec fn route_of(method: Seq<u8>, path: Seq<u8>) -> Route {
    if path == path_json() {
        if method == method_get() {
            Route::JsonEndpoint
        } else {
            Route::MethodNotAllowed
        }
    } else {
        Route::NotFound
    }
}

/// The status of the response: `200` exactly for `GET /json`.
pub open spec fn status_of(method: Seq<u8>, path: Seq<u8>) -> int {
    match route_of(method, path) {
        Route::JsonEndpoint => 200,
        Route::MethodNotAllowed => 405,
        Route::NotFound => 404,
    }
}

/// The content type of the response: `application/json` for the served
/// route, nothing otherwise.
pub open spec fn content_type_of(method: Seq<u8>, path: Seq<u8>) -> Seq<u8> {
    if route_of(method, path) is JsonEndpoint {
        content_type_json()
    } else {
        Seq::empty()
    }
}

/// The body of the response: the encoded payload for the served route,
/// empty otherwise.
pub open spec fn body_of(msg: Seq<u8>, v: int, method: Seq<u8>, path: Seq<u8>) -> Seq<u8> {
    if route_of(method, path) is JsonEndpoint {
        json_body_of(msg, v)
    } else {
        Seq::empty()
    }
}

/// An HTTP response: a status code, a content type, and a body.
pub struct HttpResponse {
    pub status: u16,
    pub content_type: Vec<u8>,
    pub body: Vec<u8>,
}

fn bytes_eq(a: &[u8], b: &[u8]) -> (r: bool)
    ensures
        r == (a@ == b@),
{
    if a.len() != b.len() {
        return false;
    }
    let mut i: usize = 0;
    while i < a.len()
        invariant
            i <= a.len(),
            a@.len() == b@.len(),
            forall|j: int| 0 <= j < i ==> a@[j] == b@[j],
        decreases a.len() - i,
    {
        if a[i] != b[i] {
            return false;
        }
        i += 1;
    }
    assert(a@ =~= b@);
    true
}

/// The bytes of `GET`, as a vector.
pub fn method_get_vec() -> (r: Vec<u8>)
    ensures
        r@ == method_get(),
{
    let mut v: Vec<u8> = Vec::new();
    v.push(71);
    v.push(69);
    v.push(84);
    assert(v@ =~= method_get());
    v
}

/// The bytes of `/json`, as a vector.
pub fn path_json_vec() -> (r: Vec<u8>)
    ensures
        r@ == path_json(),
{
    let mut v: Vec<u8> = Vec::new();
    v.push(47);
    v.push(106);
    v.push(115);
    v.push(111);
    v.push(110);
    assert(v@ =~= path_json());
    v
}

/// The bytes of `application/json`, as a vector.
pub fn content_type_json_vec() -> (r: Vec<u8>)
    ensures
        r@ == content_type_json(),
{
    let mut v: Vec<u8> = Vec::new();
    v.push(97);
    v.push(112);
    v.push(112);
    v.push(108);
    v.push(105);
    v.push(99);
    v.push(97);
    v.push(116);
    v.push(105);
    v.push(111);
    v.push(110);
    v.push(47);
    v.push(106);
    v.push(115);
    v.push(111);
    v.push(110);
    assert(v@ =~= content_type_json());
    v
}

/// Dispatches a request, exactly as `route_of` describes.
pub fn route_request(method: &[u8], path: &[u8]) -> (r: Route)
    ensures
        r == route_of(method@, path@),
{
    let pj: Vec<u8> = path_json_vec();
    if bytes_eq(path, pj.as_slice()) {
        let g: Vec<u8> = method_get_vec();
        if bytes_eq(method, g.as_slice()) {
            Route::JsonEndpoint
        } else {
            Route::MethodNotAllowed
        }
    } else {
        Route::NotFound
    }
}

/// Builds the full response to a request: status, content type and body are
/// each pinned by the request and the payload alone.
pub fn handle_request(p: &Payload, method: &[u8], path: &[u8]) -> (r: HttpResponse)
    ensures
        r.status as int == status_of(method@, path@),
        r.content_type@ == content_type_of(method@, path@),
        r.body@ == body_of(p.message@, p.value as int, method@, path@),
{
    match route_request(method, path) {
        Route::JsonEndpoint => HttpResponse {
            status: 200,
            content_type: content_type_json_vec(),
            body: render_json(p),
        },
        Route::MethodNotAllowed => HttpResponse {
            status: 405,
            content_type: Vec::new(),
            body: Vec::new(),
        },
        Route::NotFound => HttpResponse {
            status: 404,
            content_type: Vec::new(),
            body: Vec::new(),
        },
    }
}

/// `GET /json` is always served: status `200`, content type
/// `application/json`, and the encoded payload as body, whatever the
/// payload holds.
pub proof fn lemma_json_request_served(msg: Seq<u8>, v: int)
    ensures
        status_of(method_get(), path_json()) == 200,
        content_type_of(method_get(), path_json()) == content_type_json(),
        body_of(msg, v, method_get(), path_json()) == json_body_of(msg, v),
{
}

/// A served body is faithful to the payload: when two well-formed payloads
/// receive the same bytes for `GET /json`, they were the same payload. The
/// body therefore carries exactly the message and the value, nothing less.
pub proof fn lemma_served_body_faithful(m1: Seq<u8>, v1: int, m2: Seq<u8>, v2: int)
    requires
        crate::payload::json_safe(m1),
        crate::payload::json_safe(m2),
        body_of(m1, v1, method_get(), path_json()) == body_of(m2, v2, method_get(), path_json()),
    ensures
        m1 == m2,
        v1 == v2,
{
    crate::json::lemma_json_body_injective(m1, v1, m2, v2);
}

/// The response body is a function of the payload and the request alone:
/// two responses to the same request are byte-identical.
pub proof fn lemma_response_idempotent(
    msg: Seq<u8>,
    v: int,
    method: Seq<u8>,
    path: Seq<u8>,
    b1: Seq<u8>,
    b2: Seq<u8>,
)
    requires
        b1 == body_of(msg, v, method, path),
        b2 == body_of(msg, v, method, path),
    ensures
        b1 == b2,
{
}

/// No request other than exactly `GET /json` is answered with status `200`,
/// and none receives the payload's bytes.
pub proof fn lemma_only_json_route_served(msg: Seq<u8>, v: int, method: Seq<u8>, path: Seq<u8>)
    requires
        !(method == method_get() && path == path_json()),
    ensures
        status_of(method, path) != 200,
        body_of(msg, v, method, path) != json_body_of(msg, v),
{
    lemma_json_body_nonempty(msg, v);
}

} // verus!
