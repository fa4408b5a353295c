//! The HTTP dispatcher's logic: turning a request line into a route over
//! the fixed path set, and a cache read into a response.
//!
//! The transport itself — sockets, parsing the request bytes, writing the
//! response — is an external collaborator; this module decides what every
//! request is answered with.

use vstd::prelude::*;
use crate::cache::Cache;
use crate::coordinator::{
    parse_timeout, timeout_spec, wait_start, Freshness, WaitOutcome, WaitStart,
};
use crate::dataset::{key_for_route, key_for_route_spec, str_eq, DatasetKey};

verus! {

/// Where a request goes: one of the fixed dataset paths, read at once or
/// with a blocking window, or nowhere.
#[derive(Clone, Copy, PartialEq, Eq, Structural, Debug)]
pub enum Route {
    /// Not a GET under the broadcast prefix at all.
    NotFound,
    /// Under the broadcast prefix, but naming no known dataset.
    UnknownDataset,
    /// An immediate read of one dataset.
    Immediate(DatasetKey),
    /// A long-poll read of one dataset with a timeout in seconds.
    Blocking(DatasetKey, u64),
}

/// The media type a response declares.
#[derive(Clone, Copy, PartialEq, Eq, Structural, Debug)]
pub enum MediaType {
    Json,
    Html,
}

/// A response, ready for the transport to write out.
pub struct HttpResponse {
    pub status: u16,
    pub media: MediaType,
    pub body: Vec<u8>,
}

/// The prefix every dataset path stands under.
pub open spec fn bcast_prefix() -> Seq<char> {
    "/bcast/"@
}

/// The error body for a request outside the broadcast prefix.
pub open spec fn not_found_page_spec() -> Seq<char> {
    "<h1>404</h1><p>Page not found!<p>"@
}

/// The error body for an unknown dataset under the broadcast prefix.
pub open spec fn unknown_dataset_page_spec() -> Seq<char> {
    "<h1>404</h1><p>File not found!<p>"@
}

/// The index of the first slash in `s`, or `s.len()` when there is none.
pub open spec fn first_slash(s: Seq<char>) -> int
    decreases s.len(),
{
    if s.len() == 0 {
        0
    } else if s[0] == '/' {
        0
    } else {
        1 + first_slash(s.skip(1))
    }
}

proof fn lemma_first_slash(s: Seq<char>)
    ensures
        0 <= first_slash(s) <= s.len(),
        forall|j: int| 0 <= j < first_slash(s) ==> s[j] != '/',
        first_slash(s) < s.len() ==> s[first_slash(s)] == '/',
    decreases s.len(),
{
    if s.len() > 0 && s[0] != '/' {
        lemma_first_slash(s.skip(1));
        assert forall|j: int| 0 <= j < first_slash(s) implies s[j] != '/' by {
            if j > 0 {
                assert(s.skip(1)[j - 1] != '/');
            }
        }
    }
}

/// The route that a request resolves to. A request is routed only when it
/// is a GET under the broadcast prefix; the next segment must name a known
/// dataset; a further `blocking/<seconds>` suffix selects the long-poll
/// variant, its timeout normalized by [`timeout_spec`].
pub open spec fn route_spec(is_get: bool, path: Seq<char>) -> Route {
    if !is_get {
        Route::NotFound
    } else if !(path.len() >= 7 && path.take(7) == bcast_prefix()) {
        Route::NotFound
    } else {
        let rest = path.skip(7);
        let cut = first_slash(rest);
        match key_for_route_spec(rest.take(cut)) {
            Option::None => Route::UnknownDataset,
            Option::Some(k) => {
                if cut == rest.len() {
                    Route::Immediate(k)
                } else {
                    let tail = rest.skip(cut + 1);
                    let cut2 = first_slash(tail);
                    if tail.take(cut2) == "blocking"@ {
                        if cut2 == tail.len() {
                            Route::Blocking(k, 0)
                        } else {
                            Route::Blocking(k, timeout_spec(tail.skip(cut2 + 1)))
                        }
                    } else {
                        Route::UnknownDataset
                    }
                }
            },
        }
    }
}

/// The index of the first slash in `s`, or its length when there is none.
fn find_slash(s: &str) -> (r: usize)
    ensures
        r as int == first_slash(s@),
        r <= s@.len(),
{
    proof {
        lemma_first_slash(s@);
    }
    let n = s.unicode_len();
    let mut i: usize = 0;
    while i < n
        invariant
            n == s@.len(),
            0 <= i <= n,
            forall|j: int| 0 <= j < i ==> s@[j] != '/',
        decreases n - i,
    {
        let c = s.get_char(i);
        if c == '/' {
            assert(i as int == first_slash(s@)) by {
                lemma_first_slash(s@);
            }
            return i;
        }
        i = i + 1;
    }
    assert(i as int == first_slash(s@)) by {
        lemma_first_slash(s@);
    }
    i
}

/// Resolve a request to its route, as [`route_spec`] says.
pub fn parse_route(is_get: bool, path: &str) -> (r: Route)
    ensures
        r == route_spec(is_get, path@),
{
    if !is_get {
        return Route::NotFound;
    }
    let n = path.unicode_len();
    if n < 7 {
        return Route::NotFound;
    }
    let prefix = path.substring_char(0, 7);
    if !str_eq(prefix, "/bcast/") {
        proof {
            assert(path@.subrange(0, 7) =~= path@.take(7));
        }
        return Route::NotFound;
    }
    proof {
        assert(path@.subrange(0, 7) =~= path@.take(7));
    }
    let rest = path.substring_char(7, n);
    proof {
        assert(rest@ =~= path@.skip(7));
    }
    let rest_len = rest.unicode_len();
    let cut = find_slash(rest);
    let name = rest.substring_char(0, cut);
    proof {
        assert(name@ =~= rest@.take(cut as int));
    }
    match key_for_route(name) {
        Option::None => Route::UnknownDataset,
        Option::Some(k) => {
            if cut == rest_len {
                Route::Immediate(k)
            } else {
                let tail = rest.substring_char(cut + 1, rest_len);
                proof {
                    assert(tail@ =~= rest@.skip(cut + 1));
                }
                let tail_len = tail.unicode_len();
                let cut2 = find_slash(tail);
                let seg = tail.substring_char(0, cut2);
                proof {
                    assert(seg@ =~= tail@.take(cut2 as int));
                }
                if str_eq(seg, "blocking") {
                    if cut2 == tail_len {
                        Route::Blocking(k, 0)
                    } else {
                        let raw = tail.substring_char(cut2 + 1, tail_len);
                        proof {
                            assert(raw@ =~= tail@.skip(cut2 + 1));
                        }
                        Route::Blocking(k, parse_timeout(raw))
                    }
                } else {
                    Route::UnknownDataset
                }
            }
        },
    }
}

/// The 404 answer for a request outside the broadcast prefix.
pub fn respond_not_found() -> (r: HttpResponse)
    ensures
        r.status == 404,
        r.media == MediaType::Html,
        r.body@ == vstd::utf8::encode_utf8(not_found_page_spec()),
{
    let body = "<h1>404</h1><p>Page not found!<p>".as_bytes_vec();
    HttpResponse { status: 404, media: MediaType::Html, body }
}

/// The 404 answer for an unknown dataset under the broadcast prefix.
pub fn respond_unknown_dataset() -> (r: HttpResponse)
    ensures
        r.status == 404,
        r.media == MediaType::Html,
        r.body@ == vstd::utf8::encode_utf8(unknown_dataset_page_spec()),
{
    let body = "<h1>404</h1><p>File not found!<p>".as_bytes_vec();
    HttpResponse { status: 404, media: MediaType::Html, body }
}

/// The 200 answer that serves a payload as JSON.
pub fn respond_content(content: Vec<u8>) -> (r: HttpResponse)
    ensures
        r.status == 200,
        r.media == MediaType::Json,
        r.body@ == content@,
{
    HttpResponse { status: 200, media: MediaType::Json, body: content }
}

/// The answer a resumed blocking read is written out as: 200 for a fresh
/// value, 202 for one that did not change within the window — in either
/// case the payload itself, never an error.
pub fn respond_wait(outcome: WaitOutcome) -> (r: HttpResponse)
    ensures
        r.status == (if outcome.freshness == Freshness::Fresh { 200u16 } else { 202u16 }),
        r.media == MediaType::Json,
        r.body@ == outcome.content@,
{
    let status: u16 = match outcome.freshness {
        Freshness::Fresh => 200,
        Freshness::Stale => 202,
    };
    HttpResponse { status, media: MediaType::Json, body: outcome.content }
}

/// Answer every request that needs no waiting: both 404s, immediate reads,
/// and blocking reads with a zero window. A blocking read with a positive
/// window is the one case left open — the caller must suspend on the
/// key's signal and answer through [`wait_resume`] and [`respond_wait`].
///
/// [`wait_resume`]: crate::coordinator::wait_resume
pub fn respond_now(cache: &Cache, is_get: bool, path: &str) -> (r: Option<HttpResponse>)
    ensures
        route_spec(is_get, path@) == Route::NotFound ==> (r matches Option::Some(resp)
            && resp.status == 404
            && resp.media == MediaType::Html
            && resp.body@ == vstd::utf8::encode_utf8(not_found_page_spec())),
        route_spec(is_get, path@) == Route::UnknownDataset ==> (r matches Option::Some(resp)
            && resp.status == 404
            && resp.media == MediaType::Html
            && resp.body@ == vstd::utf8::encode_utf8(unknown_dataset_page_spec())),
        forall|k: DatasetKey|
            route_spec(is_get, path@) == Route::Immediate(k) ==> (r matches Option::Some(resp)
                && resp.status == 200
                && resp.media == MediaType::Json
                && resp.body@ == cache.entry_spec(k).content@),
        forall|k: DatasetKey|
            route_spec(is_get, path@) == Route::Blocking(k, 0u64) ==> (r matches Option::Some(resp)
                && resp.status == 200
                && resp.media == MediaType::Json
                && resp.body@ == cache.entry_spec(k).content@),
        forall|k: DatasetKey, t: u64|
            route_spec(is_get, path@) == Route::Blocking(k, t) && t > 0 ==> r is None,
{
    match parse_route(is_get, path) {
        Route::NotFound => Some(respond_not_found()),
        Route::UnknownDataset => Some(respond_unknown_dataset()),
        Route::Immediate(k) => {
            let (content, _version) = cache.get(k);
            Some(respond_content(content))
        },
        Route::Blocking(k, t) => {
            if t == 0 {
                match wait_start(cache.entry_ref(k), 0) {
                    WaitStart::Done(outcome) => Some(respond_wait(outcome)),
                    WaitStart::Pending(_) => None,
                }
            } else {
                None
            }
        },
    }
}

} // verus!
