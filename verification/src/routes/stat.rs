//! The asset endpoint: files of the front end, served from the document root.
use vstd::prelude::*;
use vstd::utf8::encode_utf8;
use crate::routes::{Endpoint, EndpointView, Matching, Route, RouteView};

verus! {

/// The document root.
pub const STATIC_DIR: &'static str = "./static";

/// The document that answers a request for a directory.
pub const INDEX_FILE: &'static str = "index.html";

/// The body of the answer for a file that is not there.
pub const NOT_FOUND_TEXT: &'static str = "File not found";

/// The status of an answer that carries a file.
pub const STATUS_OK: u16 = 200;

/// The status of the answer for a file that is not there.
pub const STATUS_NOT_FOUND: u16 = 404;

/// The route of the asset files.
pub open spec fn asset_route() -> RouteView {
    RouteView {
        pattern: "/stat"@,
        matching: Matching::Nest,
        get_only: false,
        endpoint: EndpointView::AssetFile,
    }
}

/// The route of the static files at the root.
pub open spec fn index_route() -> RouteView {
    RouteView {
        pattern: "/"@,
        matching: Matching::Nest,
        get_only: false,
        endpoint: EndpointView::StaticFiles { root: STATIC_DIR@, index_file: INDEX_FILE@ },
    }
}

/// The route of the asset files: everything below `/stat`, one file per request.
pub fn route() -> (route: Route)
    ensures
        route@ == asset_route(),
{
    Route {
        pattern: "/stat".to_owned(),
        matching: Matching::Nest,
        get_only: false,
        endpoint: Endpoint::AssetFile,
    }
}

/// The route of the static files: everything below `/`, with `index.html` for a
/// directory.
pub fn index() -> (route: Route)
    ensures
        route@ == index_route(),
{
    Route {
        pattern: "/".to_owned(),
        matching: Matching::Nest,
        get_only: false,
        endpoint: Endpoint::StaticFiles {
            root: STATIC_DIR.to_owned(),
            index_file: INDEX_FILE.to_owned(),
        },
    }
}

/// `path` without the slashes it begins with.
pub open spec fn trim_leading_slashes(path: Seq<char>) -> Seq<char>
    decreases path.len(),
{
    if path.len() > 0 && path[0] == '/' {
        trim_leading_slashes(path.drop_first())
    } else {
        path
    }
}

/// The file that answers a request for `request_path`: the path without its
/// leading slashes, below the document root.
pub open spec fn asset_file_path(request_path: Seq<char>) -> Seq<char> {
    STATIC_DIR@ + seq!['/'] + trim_leading_slashes(request_path)
}

/// Slashes at the front of a path do not change what is left after trimming.
proof fn lemma_trim_skips_slashes(path: Seq<char>, n: int)
    requires
        0 <= n <= path.len(),
        forall|i: int| 0 <= i < n ==> path[i] == '/',
    ensures
        trim_leading_slashes(path) == trim_leading_slashes(path.skip(n)),
    decreases n,
{
    if n == 0 {
        assert(path.skip(0) =~= path);
    } else {
        assert(path.drop_first().skip(n - 1) =~= path.skip(n));
        lemma_trim_skips_slashes(path.drop_first(), n - 1);
    }
}

/// The path of the file that answers a request for `request_path`.
///
/// `request_path` is the path of the request below `/stat`. Nothing but the
/// leading slashes is taken off it: segments such as `..` stay as they are.
pub fn asset_path(request_path: &str) -> (file_path: String)
    ensures
        file_path@ == asset_file_path(request_path@),
{
    let len = request_path.unicode_len();
    let mut start: usize = 0;
    while start < len && request_path.get_char(start) == '/'
        invariant
            start <= len,
            len == request_path@.len(),
            forall|i: int| 0 <= i < start ==> request_path@[i] == '/',
        decreases len - start,
    {
        start += 1;
    }
    let rest = request_path.substring_char(start, len);
    proof {
        lemma_trim_skips_slashes(request_path@, start as int);
        assert(request_path@.subrange(start as int, len as int) =~= request_path@.skip(
            start as int,
        ));
    }
    let mut file_path = STATIC_DIR.to_owned();
    file_path.append("/");
    file_path.append(rest);
    proof {
        reveal_strlit("/");
        assert("/"@ =~= seq!['/']);
    }
    file_path
}

/// The answer of the asset endpoint, as plain values.
#[derive(Debug, PartialEq, Eq)]
pub struct AssetResponse {
    /// The HTTP status.
    pub status: u16,
    /// The value of the `Content-Type` header, where the answer has one.
    pub content_type: Option<String>,
    /// The body.
    pub body: Vec<u8>,
}

/// The mathematical value of an [`AssetResponse`].
pub struct AssetResponseView {
    pub status: u16,
    pub content_type: Option<Seq<char>>,
    pub body: Seq<u8>,
}

impl View for AssetResponse {
    type V = AssetResponseView;

    open spec fn view(&self) -> AssetResponseView {
        AssetResponseView {
            status: self.status,
            content_type: match self.content_type {
                Some(content_type) => Some(content_type@),
                None => None,
            },
            body: self.body@,
        }
    }
}

/// The answer that carries a file: its bytes, under the given content type.
pub open spec fn found_response(content_type: Seq<char>, contents: Seq<u8>) -> AssetResponseView {
    AssetResponseView { status: STATUS_OK, content_type: Some(content_type), body: contents }
}

/// The answer for a file that is not there: a plain text, and no content type.
pub open spec fn not_found_response() -> AssetResponseView {
    AssetResponseView {
        status: STATUS_NOT_FOUND,
        content_type: None,
        body: encode_utf8(NOT_FOUND_TEXT@),
    }
}

/// The answer of the asset endpoint for a file with the given content type that
/// was read (`Some`) or could not be read (`None`).
pub open spec fn file_response(
    content_type: Seq<char>,
    contents: Option<Seq<u8>>,
) -> AssetResponseView {
    match contents {
        Some(contents) => found_response(content_type, contents),
        None => not_found_response(),
    }
}

/// The media type that the extension of `path` stands for, as text.
pub uninterp spec fn content_type_of_path(path: Seq<char>) -> Seq<char>;

/// Calls `mime_guess::from_path` and, on the guess, `first_or_octet_stream`.
///
/// Trusted: the text of the media type that comes back depends on `path` alone.
/// It is looked up in a fixed table by the extension that
/// `std::path::Path::extension` finds in `path`; no file is touched.
#[verifier::external_body]
fn guess_content_type(path: &str) -> (content_type: String)
    ensures
        content_type@ == content_type_of_path(path@),
{
    let mime = mime_guess::from_path(path).first_or_octet_stream();
    let text: &str = mime.as_ref();
    text.to_owned()
}

impl AssetResponse {
    /// The answer that carries the file `contents` under `content_type`.
    pub fn found(content_type: String, contents: Vec<u8>) -> (response: AssetResponse)
        ensures
            response@ == found_response(content_type@, contents@),
    {
        AssetResponse { status: STATUS_OK, content_type: Some(content_type), body: contents }
    }

    /// The answer for a file that is not there.
    pub fn not_found() -> (response: AssetResponse)
        ensures
            response@ == not_found_response(),
    {
        AssetResponse {
            status: STATUS_NOT_FOUND,
            content_type: None,
            body: NOT_FOUND_TEXT.as_bytes_vec(),
        }
    }
}

/// Answers a request for `request_path`, given what reading the file at
/// [`asset_path`] gave: its contents, or `None` where it could not be read.
///
/// A file that was read is answered as it is, under the media type of its
/// extension. Anything else is answered with "not found".
pub fn file_handler(request_path: &str, contents: Option<Vec<u8>>) -> (response: AssetResponse)
    ensures
        response@ == file_response(
            content_type_of_path(asset_file_path(request_path@)),
            match contents {
                Some(contents) => Some(contents@),
                None => None,
            },
        ),
{
    match contents {
        Some(contents) => {
            let file_path = asset_path(request_path);
            let content_type = guess_content_type(file_path.as_str());
            AssetResponse::found(content_type, contents)
        },
        None => AssetResponse::not_found(),
    }
}

} // verus!
