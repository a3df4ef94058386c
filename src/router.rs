//! Request dispatch: the entry page for `/` and `/index.html`, the bundle's
//! asset for every other path, 404 where there is none.
use vstd::prelude::*;
use vstd::string::StringSliceAdditionalSpecFns;
use vstd::utf8::{encode_utf8, valid_utf8};
use crate::bundle::{AssetView, Bundle};
use crate::http::{Response, ResponseView, STATUS_OK, not_found};
use crate::render::{
    body_open, head_close, html_content_type, index_key, index_response, injected_url, lossy_utf8, render_index,
    script_for,
};
use crate::text::{SLASH, bytes_eq, first_occurrence, lemma_find_from, occurs_at, strip_leading_slashes, strip_slashes};

verus! {

/// The request paths that are answered with the entry page.
pub open spec fn is_entry_path(path: Seq<u8>) -> bool {
    path == encode_utf8("/"@) || path == encode_utf8("/index.html"@)
}

/// The 200 response that serves `a` as it is stored.
pub open spec fn asset_response(a: AssetView) -> ResponseView {
    ResponseView { status: STATUS_OK, content_type: Some(a.content_type), body: a.data }
}

/// The response to a request for `path`.
pub open spec fn response_for(bundle: Bundle, path: Seq<u8>, backend_url: Option<&str>) -> ResponseView {
    if is_entry_path(path) {
        index_response(bundle, backend_url)
    } else {
        match bundle.get(strip_slashes(path)) {
            Some(a) => asset_response(a),
            None => not_found(),
        }
    }
}

/// The path is one of those answered with the entry page.
pub fn is_entry_request(path: &str) -> (r: bool)
    ensures
        r == is_entry_path(path.spec_bytes()),
{
    let p = path.as_bytes();
    bytes_eq(p, "/".as_bytes()) || bytes_eq(p, "/index.html".as_bytes())
}

/// Answers a request for `path`, with `backend_url` the current value of the
/// backend base URL setting.
pub fn handle_request(bundle: &Bundle, path: &str, backend_url: Option<&str>) -> (r: Response)
    requires
        bundle.wf(),
    ensures
        r@ == response_for(*bundle, path.spec_bytes(), backend_url),
        is_entry_path(path.spec_bytes()) && injected_url(backend_url) is None && bundle.get(
            index_key(),
        ) is Some && valid_utf8(bundle.get(index_key())->0.data) ==> r@.body == bundle.get(
            index_key(),
        )->0.data,
{
    if is_entry_request(path) {
        return render_index(bundle, backend_url);
    }
    let key = strip_leading_slashes(path.as_bytes());
    match bundle.lookup(key.as_slice()) {
        Some(asset) => Response {
            status: STATUS_OK,
            content_type: Some(asset.content_type.clone()),
            body: asset.data.clone(),
        },
        None => Response::not_found(),
    }
}

/// The decoded text of the bundle's entry page.
pub open spec fn index_text(bundle: Bundle) -> Seq<u8> {
    lossy_utf8(bundle.get(index_key())->0.data)
}

/// Every asset of the bundle but the entry page (and the empty path, which
/// is the root) is served as it is stored: status 200, its bytes, its content
/// type, whatever the backend URL setting.
pub proof fn law_stored_asset_served(bundle: Bundle, key: Seq<u8>, backend_url: Option<&str>)
    requires
        bundle.wf(),
        bundle.get(key) is Some,
        key != Seq::<u8>::empty(),
        key != index_key(),
    ensures
        response_for(bundle, seq![SLASH] + key, backend_url) == asset_response(bundle.get(key)->0),
{
    bundle.lemma_keys_normalized(key);
    let p = seq![SLASH] + key;
    assert(p.drop_first() =~= key);
    reveal_strlit("/");
    reveal_strlit("/index.html");
    reveal_strlit("index.html");
    vstd::utf8::is_ascii_chars_encode_utf8("/"@);
    vstd::utf8::is_ascii_chars_encode_utf8("/index.html"@);
    vstd::utf8::is_ascii_chars_encode_utf8("index.html"@);
    if p == encode_utf8("/"@) {
        assert(key =~= Seq::<u8>::empty());
    }
    if p == encode_utf8("/index.html"@) {
        assert forall|i: int| 0 <= i < key.len() implies key[i] == index_key()[i] by {
            assert(key[i] == p[i + 1]);
            assert("/index.html"@[i + 1] == "index.html"@[i]);
        }
        assert(key =~= index_key());
    }
}

/// A path whose logical path the bundle does not hold, other than the entry
/// paths, is answered with an empty 404.
pub proof fn law_missing_asset_not_found(bundle: Bundle, path: Seq<u8>, backend_url: Option<&str>)
    requires
        bundle.wf(),
        !is_entry_path(path),
        bundle.get(strip_slashes(path)) is None,
    ensures
        response_for(bundle, path, backend_url) == not_found(),
        response_for(bundle, path, backend_url).body.len() == 0,
{
}

/// Without a backend URL the entry page is the bundle's `index.html`, only
/// decoded leniently.
pub proof fn law_index_unchanged_without_url(bundle: Bundle, path: Seq<u8>)
    requires
        bundle.wf(),
        is_entry_path(path),
        bundle.get(index_key()) is Some,
    ensures
        response_for(bundle, path, None) == (ResponseView {
            status: STATUS_OK,
            content_type: Some(html_content_type()),
            body: index_text(bundle),
        }),
{
}

/// With a backend URL and a `</head>` in the page, the script stands right
/// before the first `</head>`, and the rest of the page is unchanged.
pub proof fn law_script_before_head(bundle: Bundle, path: Seq<u8>, url: &str)
    requires
        bundle.wf(),
        is_entry_path(path),
        bundle.get(index_key()) is Some,
        url@.len() > 0,
        first_occurrence(index_text(bundle), head_close()) is Some,
    ensures
        ({
            let text = index_text(bundle);
            let p = first_occurrence(text, head_close())->0;
            let script = script_for(url.spec_bytes());
            let body = response_for(bundle, path, Some(url)).body;
            &&& body == text.take(p) + script + text.skip(p)
            &&& occurs_at(body, head_close(), p + script.len())
            &&& forall|j: int| 0 <= j < p ==> !occurs_at(text, head_close(), j)
        }),
{
    let text = index_text(bundle);
    let p = first_occurrence(text, head_close())->0;
    let script = script_for(url.spec_bytes());
    let body = text.take(p) + script + text.skip(p);
    lemma_find_from(text, head_close(), 0);
    assert(body.subrange(p + script.len(), p + script.len() + head_close().len()) =~= text.subrange(
        p,
        p + head_close().len(),
    ));
}

/// With a backend URL, a `<body>` and no `</head>` in the page, the script
/// stands right after the first `<body>`, and the rest of the page is
/// unchanged.
pub proof fn law_script_after_body(bundle: Bundle, path: Seq<u8>, url: &str)
    requires
        bundle.wf(),
        is_entry_path(path),
        bundle.get(index_key()) is Some,
        url@.len() > 0,
        first_occurrence(index_text(bundle), head_close()) is None,
        first_occurrence(index_text(bundle), body_open()) is Some,
    ensures
        ({
            let text = index_text(bundle);
            let q = first_occurrence(text, body_open())->0 + body_open().len();
            let script = script_for(url.spec_bytes());
            let body = response_for(bundle, path, Some(url)).body;
            &&& body == text.take(q) + script + text.skip(q)
            &&& occurs_at(body, body_open(), q - body_open().len())
            &&& body.subrange(q, q + script.len()) == script
        }),
{
    let text = index_text(bundle);
    let p = first_occurrence(text, body_open())->0;
    let q = p + body_open().len();
    let script = script_for(url.spec_bytes());
    let body = text.take(q) + script + text.skip(q);
    lemma_find_from(text, body_open(), 0);
    assert(body.subrange(p, q) =~= text.subrange(p, q));
    assert(body.subrange(q, q + script.len()) =~= script);
}

/// With a backend URL and neither marker in the page, the script opens the
/// document.
pub proof fn law_script_at_start(bundle: Bundle, path: Seq<u8>, url: &str)
    requires
        bundle.wf(),
        is_entry_path(path),
        bundle.get(index_key()) is Some,
        url@.len() > 0,
        first_occurrence(index_text(bundle), head_close()) is None,
        first_occurrence(index_text(bundle), body_open()) is None,
    ensures
        response_for(bundle, path, Some(url)).body == script_for(url.spec_bytes()) + index_text(
            bundle,
        ),
{
}

/// A bundle without `index.html` answers both entry paths with 404.
pub proof fn law_no_index_not_found(bundle: Bundle, path: Seq<u8>, backend_url: Option<&str>)
    requires
        bundle.wf(),
        is_entry_path(path),
        bundle.get(index_key()) is None,
    ensures
        response_for(bundle, path, backend_url) == not_found(),
{
}

} // verus!
