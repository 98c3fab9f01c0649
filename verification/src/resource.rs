//! The resource fetcher's verifiable half: resolving a resource URI to its
//! configured descriptor is the dispatcher's work; here stand the MIME
//! inference rules and the functions that turn fetched or read bytes into
//! the response line. The file read and the HTTP GET themselves are
//! input/output and happen outside the library.
use vstd::prelude::*;
use crate::content::spec_mime_is_text;
use crate::envelope::{spec_ok_env, spec_err_env, ok_env, err_env};
use crate::json::{spec_json_str, json_quote};
use crate::runner::{spec_base64, spec_utf8_lossy, base64_encode, utf8_lossy};
use crate::text::{char_to_string, dec_i64, spec_dec_int};

verus! {

/// What the MIME database infers from a path's extension, defaulting to
/// `application/octet-stream`.
pub uninterp spec fn spec_mime_guess(path: Seq<char>) -> Seq<char>;

/// Relies on `mime_guess::from_path`, `MimeGuess::first_or_octet_stream`,
/// and `Mime::essence_str`: the MIME type guessed from the path's extension,
/// `application/octet-stream` when the extension is unknown, stripped of
/// parameters; a function of the path text alone.
#[verifier::external_body]
fn guess_mime(path: &str) -> (r: String)
    ensures
        r@ == spec_mime_guess(path@),
{
    mime_guess::from_path(path).first_or_octet_stream().essence_str().to_owned()
}

/// The MIME type a resource listing reports for a path: by the listing's own
/// small rule, not the full database.
pub open spec fn spec_list_mime(path: Seq<char>) -> Seq<char> {
    if ".json"@.is_suffix_of(path) {
        "application/json"@
    } else if ".txt"@.is_suffix_of(path) {
        "text/plain"@
    } else {
        "application/octet-stream"@
    }
}

pub fn list_mime(path: &str) -> (r: &'static str)
    ensures
        r@ == spec_list_mime(path@),
{
    if crate::text::str_ends_with(path, ".json") {
        "application/json"
    } else if crate::text::str_ends_with(path, ".txt") {
        "text/plain"
    } else {
        "application/octet-stream"
    }
}

/// The header value up to its first `;`: the MIME type without parameters.
pub open spec fn spec_until_semi(s: Seq<char>) -> Seq<char>
    decreases s.len(),
{
    if s.len() == 0 {
        Seq::empty()
    } else if s[0] == ';' {
        Seq::empty()
    } else {
        seq![s[0]] + spec_until_semi(s.skip(1))
    }
}

/// The MIME type taken from an HTTP `content-type` header: the value up to
/// any parameters, or `application/octet-stream` when the header is absent.
pub open spec fn spec_header_mime(h: Option<Seq<char>>) -> Seq<char> {
    match h {
        Some(s) => spec_until_semi(s),
        None => "application/octet-stream"@,
    }
}

fn until_semi(s: &str) -> (r: String)
    ensures
        r@ == spec_until_semi(s@),
{
    let n = s.unicode_len();
    let mut out = String::new();
    let mut i: usize = 0;
    proof {
        assert(s@.skip(0) =~= s@);
        assert(out@ + spec_until_semi(s@) =~= spec_until_semi(s@));
    }
    while i < n
        invariant
            n == s@.len(),
            i <= n,
            spec_until_semi(s@) == out@ + spec_until_semi(s@.skip(i as int)),
        decreases n - i,
    {
        let ghost rest = s@.skip(i as int);
        proof {
            assert(rest[0] == s@[i as int]);
            assert(rest.skip(1) =~= s@.skip(i as int + 1));
        }
        let c = s.get_char(i);
        if c == ';' {
            proof {
                assert(spec_until_semi(rest) =~= Seq::<char>::empty());
                assert(out@ + Seq::<char>::empty() =~= out@);
            }
            return out;
        }
        let ghost out0 = out@;
        out.append(char_to_string(c).as_str());
        proof {
            assert(spec_until_semi(rest) == seq![c] + spec_until_semi(rest.skip(1)));
            assert(out0 + (seq![c] + spec_until_semi(rest.skip(1))) =~= (out0 + seq![c])
                + spec_until_semi(rest.skip(1)));
        }
        i += 1;
    }
    proof {
        assert(s@.skip(n as int) =~= Seq::<char>::empty());
        assert(spec_until_semi(Seq::<char>::empty()) == Seq::<char>::empty());
        assert(out@ + Seq::<char>::empty() =~= out@);
    }
    out
}

pub fn header_mime(h: &Option<String>) -> (r: String)
    ensures
        r@ == spec_header_mime(crate::config::opt_view(*h)),
{
    match h {
        Some(s) => until_semi(s.as_str()),
        None => {
            let mut out = String::new();
            out.append("application/octet-stream");
            out
        },
    }
}

/// The `contents` result for one read resource: `text` with the bytes
/// decoded when the MIME type is textual, `blob` with the bytes in base64
/// otherwise.
pub open spec fn spec_contents(uri: Seq<char>, mime: Seq<char>, bytes: Seq<u8>) -> Seq<char> {
    if spec_mime_is_text(mime) {
        "{\"contents\":[{\"uri\":"@ + spec_json_str(uri) + ",\"mimeType\":"@ + spec_json_str(mime)
            + ",\"text\":"@ + spec_json_str(spec_utf8_lossy(bytes)) + "}]}"@
    } else {
        "{\"contents\":[{\"uri\":"@ + spec_json_str(uri) + ",\"mimeType\":"@ + spec_json_str(mime)
            + ",\"blob\":"@ + spec_json_str(spec_base64(bytes)) + "}]}"@
    }
}

pub fn contents_json(uri: &str, mime: &str, bytes: &[u8]) -> (r: String)
    ensures
        r@ == spec_contents(uri@, mime@, bytes@),
{
    let is_text = crate::content::mime_is_text(mime);
    let mut out = String::new();
    out.append("{\"contents\":[{\"uri\":");
    out.append(json_quote(uri).as_str());
    out.append(",\"mimeType\":");
    out.append(json_quote(mime).as_str());
    if is_text {
        out.append(",\"text\":");
        out.append(json_quote(utf8_lossy(bytes).as_str()).as_str());
    } else {
        out.append(",\"blob\":");
        out.append(json_quote(base64_encode(bytes).as_str()).as_str());
    }
    out.append("}]}");
    proof {
        assert(out@ =~= spec_contents(uri@, mime@, bytes@));
    }
    out
}

/// A pending local-file read: the dispatcher resolved the resource, the
/// surrounding program is to read `path` and hand the bytes back.
pub struct PendingRead {
    pub id_json: String,
    pub uri: String,
    pub path: String,
}

pub struct PendingReadV {
    pub id_json: Seq<char>,
    pub uri: Seq<char>,
    pub path: Seq<char>,
}

impl View for PendingRead {
    type V = PendingReadV;

    open spec fn view(&self) -> PendingReadV {
        PendingReadV { id_json: self.id_json@, uri: self.uri@, path: self.path@ }
    }
}

/// A pending HTTP GET: the dispatcher resolved the resource to `url`, the
/// surrounding program is to fetch it and hand back status, header, body.
pub struct PendingFetch {
    pub id_json: String,
    pub uri: String,
    pub url: String,
}

pub struct PendingFetchV {
    pub id_json: Seq<char>,
    pub uri: Seq<char>,
    pub url: Seq<char>,
}

impl View for PendingFetch {
    type V = PendingFetchV;

    open spec fn view(&self) -> PendingFetchV {
        PendingFetchV { id_json: self.id_json@, uri: self.uri@, url: self.url@ }
    }
}

/// What came back from reading a local resource file.
pub enum ReadOutcome {
    Read { bytes: Vec<u8> },
    Failed { message: String },
}

pub enum ReadOutcomeV {
    Read { bytes: Seq<u8> },
    Failed { message: Seq<char> },
}

impl View for ReadOutcome {
    type V = ReadOutcomeV;

    open spec fn view(&self) -> ReadOutcomeV {
        match self {
            ReadOutcome::Read { bytes } => ReadOutcomeV::Read { bytes: bytes@ },
            ReadOutcome::Failed { message } => ReadOutcomeV::Failed { message: message@ },
        }
    }
}

/// What came back from an HTTP GET: the status and body, with the
/// `content-type` header when one was present; or a transport failure.
pub enum FetchOutcome {
    Response { status: u16, content_type_header: Option<String>, body: Vec<u8> },
    Failed { message: String },
}

pub enum FetchOutcomeV {
    Response { status: u16, content_type_header: Option<Seq<char>>, body: Seq<u8> },
    Failed { message: Seq<char> },
}

impl View for FetchOutcome {
    type V = FetchOutcomeV;

    open spec fn view(&self) -> FetchOutcomeV {
        match self {
            FetchOutcome::Response { status, content_type_header, body } => {
                FetchOutcomeV::Response {
                    status: *status,
                    content_type_header: crate::config::opt_view(*content_type_header),
                    body: body@,
                }
            },
            FetchOutcome::Failed { message } => FetchOutcomeV::Failed { message: message@ },
        }
    }
}

/// The reply line for a finished local read: on success the contents with
/// the MIME type inferred from the path's extension; on failure an
/// application error naming the path.
pub open spec fn spec_read_reply(p: PendingReadV, o: ReadOutcomeV) -> Seq<char> {
    match o {
        ReadOutcomeV::Read { bytes } => spec_ok_env(
            p.id_json,
            spec_contents(p.uri, spec_mime_guess(p.path), bytes),
        ),
        ReadOutcomeV::Failed { message } => spec_err_env(
            p.id_json,
            -32000,
            "Failed to read resource file '"@ + p.path + "': "@ + message,
        ),
    }
}

pub fn finish_read(p: &PendingRead, outcome: &ReadOutcome) -> (r: String)
    ensures
        r@ == spec_read_reply(p@, outcome@),
{
    match outcome {
        ReadOutcome::Read { bytes } => {
            let mime = guess_mime(p.path.as_str());
            let contents = contents_json(p.uri.as_str(), mime.as_str(), bytes.as_slice());
            ok_env(p.id_json.as_str(), contents.as_str())
        },
        ReadOutcome::Failed { message } => {
            let mut msg = String::new();
            msg.append("Failed to read resource file '");
            msg.append(p.path.as_str());
            msg.append("': ");
            msg.append(message.as_str());
            proof {
                assert(msg@ =~= "Failed to read resource file '"@ + p@.path + "': "@
                    + outcome@->Failed_message);
            }
            err_env(p.id_json.as_str(), -32000, msg.as_str())
        },
    }
}

/// Whether an HTTP status is a success: the `2xx` range.
pub open spec fn spec_http_ok(status: u16) -> bool {
    200 <= status < 300
}

/// The reply line for a finished HTTP GET: on a `2xx` response the contents
/// with the MIME type taken from the `content-type` header; on any other
/// status or a transport failure, an application error naming the URL.
pub open spec fn spec_fetch_reply(p: PendingFetchV, o: FetchOutcomeV) -> Seq<char> {
    match o {
        FetchOutcomeV::Response { status, content_type_header, body } => {
            if spec_http_ok(status) {
                spec_ok_env(
                    p.id_json,
                    spec_contents(p.uri, spec_header_mime(content_type_header), body),
                )
            } else {
                spec_err_env(
                    p.id_json,
                    -32000,
                    "HTTP error "@ + spec_dec_int(status as int) + " when fetching URL: "@ + p.url,
                )
            }
        },
        FetchOutcomeV::Failed { message } => spec_err_env(
            p.id_json,
            -32000,
            "Failed to fetch URL '"@ + p.url + "': "@ + message,
        ),
    }
}

pub fn finish_fetch(p: &PendingFetch, outcome: &FetchOutcome) -> (r: String)
    ensures
        r@ == spec_fetch_reply(p@, outcome@),
{
    match outcome {
        FetchOutcome::Response { status, content_type_header, body } => {
            if 200 <= *status && *status < 300 {
                let mime = header_mime(content_type_header);
                let contents = contents_json(p.uri.as_str(), mime.as_str(), body.as_slice());
                ok_env(p.id_json.as_str(), contents.as_str())
            } else {
                let mut msg = String::new();
                msg.append("HTTP error ");
                msg.append(dec_i64(*status as i64).as_str());
                msg.append(" when fetching URL: ");
                msg.append(p.url.as_str());
                proof {
                    assert(msg@ =~= "HTTP error "@ + spec_dec_int(*status as int)
                        + " when fetching URL: "@ + p@.url);
                }
                err_env(p.id_json.as_str(), -32000, msg.as_str())
            }
        },
        FetchOutcome::Failed { message } => {
            let mut msg = String::new();
            msg.append("Failed to fetch URL '");
            msg.append(p.url.as_str());
            msg.append("': ");
            msg.append(message.as_str());
            proof {
                assert(msg@ =~= "Failed to fetch URL '"@ + p@.url + "': "@
                    + outcome@->Failed_message);
            }
            err_env(p.id_json.as_str(), -32000, msg.as_str())
        },
    }
}

} // verus!
