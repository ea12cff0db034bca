use vstd::prelude::*;

verus! {

/// The operations the engine offers to its caller, one per request path.
#[derive(Debug, Clone, Copy, PartialEq, Eq, Structural)]
pub enum Endpoint {
    /// Inflate the zlib buffer in the request body.
    Inflate,
    /// Read a byte range of a file.
    ReadPartialFile,
    /// Read and decode one compressed range.
    Decompress,
    /// Run a batch of extraction jobs and report its tally.
    ExtractFiles,
    /// Report the progress of the batch in flight.
    ExtractFilesProgress,
}

/// The endpoint that serves a request path, if any.
pub open spec fn endpoint_of(path: Seq<char>) -> Option<Endpoint> {
    if path == "/inflate"@ {
        Some(Endpoint::Inflate)
    } else if path == "/read-partial-file"@ {
        Some(Endpoint::ReadPartialFile)
    } else if path == "/decompress"@ {
        Some(Endpoint::Decompress)
    } else if path == "/extract-files"@ {
        Some(Endpoint::ExtractFiles)
    } else if path == "/extract-files-progress"@ {
        Some(Endpoint::ExtractFilesProgress)
    } else {
        None
    }
}

fn same_text(a: &String, b: &str) -> (r: bool)
    ensures
        r == (a@ == b@),
{
    let b = b.to_owned();
    *a == b
}

impl Endpoint {
    /// Routes a request path; an unknown path has no endpoint.
    pub fn from_path(path: &str) -> (r: Option<Endpoint>)
        ensures
            r == endpoint_of(path@),
    {
        let p = path.to_owned();
        if same_text(&p, "/inflate") {
            Some(Endpoint::Inflate)
        } else if same_text(&p, "/read-partial-file") {
            Some(Endpoint::ReadPartialFile)
        } else if same_text(&p, "/decompress") {
            Some(Endpoint::Decompress)
        } else if same_text(&p, "/extract-files") {
            Some(Endpoint::ExtractFiles)
        } else if same_text(&p, "/extract-files-progress") {
            Some(Endpoint::ExtractFilesProgress)
        } else {
            None
        }
    }
}

/// The media type a response declares.
#[derive(Debug, Clone, Copy, PartialEq, Eq, Structural)]
pub enum ContentType {
    OctetStream,
    TextPlain,
}

/// The media type's name as sent in a `Content-Type` header.
pub open spec fn media_type_name(t: ContentType) -> Seq<char> {
    match t {
        ContentType::OctetStream => "application/octet-stream"@,
        ContentType::TextPlain => "text/plain"@,
    }
}

impl ContentType {
    /// The media type's header value.
    pub fn name(&self) -> (r: &'static str)
        ensures
            r@ == media_type_name(*self),
    {
        match self {
            ContentType::OctetStream => "application/octet-stream",
            ContentType::TextPlain => "text/plain",
        }
    }
}

/// The cross-origin headers every response carries, as (name, value): any
/// origin, the methods the engine serves, and any request header.
pub open spec fn cors_header_table() -> Seq<(Seq<char>, Seq<char>)> {
    seq![
        ("Origin"@, "*"@),
        ("Access-Control-Allow-Origin"@, "*"@),
        ("Access-Control-Allow-Methods"@, "GET, POST, OPTIONS"@),
        ("Access-Control-Allow-Headers"@, "*"@),
    ]
}

/// The cross-origin headers, in the order they are sent.
pub fn cors_headers() -> (r: Vec<(&'static str, &'static str)>)
    ensures
        r@.len() == cors_header_table().len(),
        forall|i: int|
            0 <= i < r@.len() ==> (#[trigger] r@[i]).0@ == cors_header_table()[i].0 && r@[i].1@
                == cors_header_table()[i].1,
{
    let mut r: Vec<(&'static str, &'static str)> = Vec::new();
    r.push(("Origin", "*"));
    r.push(("Access-Control-Allow-Origin", "*"));
    r.push(("Access-Control-Allow-Methods", "GET, POST, OPTIONS"));
    r.push(("Access-Control-Allow-Headers", "*"));
    r
}

/// A response as status, declared media type and body. Every response
/// carries permissive cross-origin headers and the body's length besides.
#[derive(Debug, Clone)]
pub struct ResponseParts {
    pub status: u16,
    pub content_type: Option<ContentType>,
    pub body: Vec<u8>,
}

impl ResponseParts {
    /// A successful response carrying raw bytes.
    pub fn ok(body: Vec<u8>) -> (r: ResponseParts)
        ensures
            r.status == 200,
            r.content_type == Some(ContentType::OctetStream),
            r.body@ == body@,
    {
        ResponseParts { status: 200, content_type: Some(ContentType::OctetStream), body }
    }

    /// A failed request: a server-error status and the message as text.
    pub fn error(message: Vec<u8>) -> (r: ResponseParts)
        ensures
            r.status == 500,
            r.content_type == Some(ContentType::TextPlain),
            r.body@ == message@,
    {
        ResponseParts { status: 500, content_type: Some(ContentType::TextPlain), body: message }
    }

    /// The answer to a cross-origin preflight request: success, no body.
    pub fn options() -> (r: ResponseParts)
        ensures
            r.status == 200,
            r.content_type is None,
            r.body@.len() == 0,
    {
        ResponseParts { status: 200, content_type: None, body: Vec::new() }
    }
}

} // verus!
