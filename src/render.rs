//! The entry page: `index.html` with the backend base URL injected.
use vstd::prelude::*;
use vstd::string::StringSliceAdditionalSpecFns;
use vstd::utf8::{encode_utf8, valid_utf8};
use crate::bundle::Bundle;
use crate::http::{Response, ResponseView, STATUS_OK, not_found};
use crate::text::{find, first_occurrence, push_range, splice};

verus! {

/// The result of decoding `b` as UTF-8, each invalid sequence replaced by
/// U+FFFD, as UTF-8 bytes.
pub uninterp spec fn lossy_utf8(b: Seq<u8>) -> Seq<u8>;

/// Relies on `String::from_utf8_lossy`: valid UTF-8 comes back unchanged,
/// and what comes back is a `String`, so valid UTF-8.
#[verifier::external_body]
fn decode_lossy(data: &[u8]) -> (r: Vec<u8>)
    ensures
        r@ == lossy_utf8(data@),
        valid_utf8(data@) ==> r@ == data@,
        valid_utf8(r@),
{
    String::from_utf8_lossy(data).into_owned().into_bytes()
}

/// Name of the entry page in the bundle.
pub open spec fn index_key() -> Seq<u8> {
    encode_utf8("index.html"@)
}

/// The closing head tag.
pub open spec fn head_close() -> Seq<u8> {
    encode_utf8("</head>"@)
}

/// The opening body tag.
pub open spec fn body_open() -> Seq<u8> {
    encode_utf8("<body>"@)
}

/// What the script element holds before the URL.
pub open spec fn script_open() -> Seq<u8> {
    encode_utf8("<script>window.__SAPPHILLON_GRPC_BASE__ = \""@)
}

/// What the script element holds after the URL.
pub open spec fn script_close() -> Seq<u8> {
    encode_utf8("\";</script>"@)
}

/// The content type of the entry page.
pub open spec fn html_content_type() -> Seq<char> {
    "text/html; charset=utf-8"@
}

/// The script element that assigns `url`, verbatim, to the global the
/// client reads its backend endpoint from.
pub open spec fn script_for(url: Seq<u8>) -> Seq<u8> {
    script_open() + url + script_close()
}

/// `html` with `script` spliced in before the first `</head>`, else after the
/// first `<body>`, else at the start.
pub open spec fn inject(html: Seq<u8>, script: Seq<u8>) -> Seq<u8> {
    match first_occurrence(html, head_close()) {
        Some(p) => html.take(p) + script + html.skip(p),
        None => match first_occurrence(html, body_open()) {
            Some(p) => html.take(p + body_open().len()) + script + html.skip(
                p + body_open().len(),
            ),
            None => script + html,
        },
    }
}

/// The URL to inject: present and not empty.
pub open spec fn injected_url(backend_url: Option<&str>) -> Option<Seq<u8>> {
    match backend_url {
        Some(u) => if u@.len() > 0 {
            Some(u.spec_bytes())
        } else {
            None
        },
        None => None,
    }
}

/// The entry page body for the decoded text `text`.
pub open spec fn rendered(text: Seq<u8>, url: Option<Seq<u8>>) -> Seq<u8> {
    match url {
        Some(u) => inject(text, script_for(u)),
        None => text,
    }
}

/// The response to a request for the entry page.
pub open spec fn index_response(bundle: Bundle, backend_url: Option<&str>) -> ResponseView {
    match bundle.get(index_key()) {
        Some(a) => ResponseView {
            status: STATUS_OK,
            content_type: Some(html_content_type()),
            body: rendered(lossy_utf8(a.data), injected_url(backend_url)),
        },
        None => not_found(),
    }
}

/// The script element that assigns `url` to the backend global.
pub fn script_fragment(url: &str) -> (r: Vec<u8>)
    ensures
        r@ == script_for(url.spec_bytes()),
{
    let open = "<script>window.__SAPPHILLON_GRPC_BASE__ = \"".as_bytes();
    let bytes = url.as_bytes();
    let close = "\";</script>".as_bytes();
    let mut out: Vec<u8> = Vec::new();
    push_range(&mut out, open, 0, open.len());
    push_range(&mut out, bytes, 0, bytes.len());
    push_range(&mut out, close, 0, close.len());
    assert(open@.subrange(0, open@.len() as int) =~= open@);
    assert(bytes@.subrange(0, bytes@.len() as int) =~= bytes@);
    assert(close@.subrange(0, close@.len() as int) =~= close@);
    out
}

/// `html` with `script` inserted at the first of: before `</head>`, after
/// `<body>`, the start of the document.
pub fn inject_script(html: &[u8], script: &[u8]) -> (r: Vec<u8>)
    ensures
        r@ == inject(html@, script@),
{
    let n: usize = html.len();
    let head = "</head>".as_bytes();
    match find(html, head) {
        Some(p) => {
            proof {
                crate::text::lemma_find_from(html@, head@, 0);
            }
            splice(html, p, script)
        },
        None => {
            let body = "<body>".as_bytes();
            match find(html, body) {
                Some(p) => {
                    proof {
                        crate::text::lemma_find_from(html@, body@, 0);
                    }
                    splice(html, p + body.len(), script)
                },
                None => {
                    proof {
                        assert(html@.take(0) =~= Seq::<u8>::empty());
                        assert(html@.skip(0) =~= html@);
                    }
                    splice(html, 0, script)
                },
            }
        },
    }
}

/// The entry page body: `text` itself, or with the script for
/// `backend_url` injected where that URL is present and not empty.
pub fn render_text(text: Vec<u8>, backend_url: Option<&str>) -> (r: Vec<u8>)
    ensures
        r@ == rendered(text@, injected_url(backend_url)),
{
    match backend_url {
        Some(u) => {
            if u.is_empty() {
                text
            } else {
                let script = script_fragment(u);
                inject_script(text.as_slice(), script.as_slice())
            }
        },
        None => text,
    }
}

/// The response to a request for `/` or `/index.html`: the bundle's
/// `index.html`, decoded leniently, with the backend URL injected; 404 where
/// the bundle holds no `index.html`.
pub fn render_index(bundle: &Bundle, backend_url: Option<&str>) -> (r: Response)
    requires
        bundle.wf(),
    ensures
        r@ == index_response(*bundle, backend_url),
        bundle.get(index_key()) is Some && valid_utf8(bundle.get(index_key())->0.data)
            && injected_url(backend_url) is None ==> r@.body == bundle.get(index_key())->0.data,
{
    match bundle.lookup("index.html".as_bytes()) {
        Some(asset) => {
            let text = decode_lossy(asset.data.as_slice());
            let body = render_text(text, backend_url);
            Response {
                status: STATUS_OK,
                content_type: Some(String::from_str("text/html; charset=utf-8")),
                body,
            }
        },
        None => Response::not_found(),
    }
}

} // verus!
