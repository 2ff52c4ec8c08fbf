//! The streaming HTTP bridge: request construction (URL and method checks,
//! header normalization), the per-request lifecycle state machine with its
//! event protocol, and the shapes of the receipt and the response head.
use vstd::prelude::*;
use vstd::string::*;

use crate::headers::{spec_normalize, Headers};
use crate::pipe::{PipeState, Pipes};
use crate::service::{spawn_post, ScriptValue, Service};

verus! {

/// Whether the URI grammar accepts this URL string.
pub uninterp spec fn url_parses(s: Seq<char>) -> bool;

/// The host of a URL that parses: the authority's host, or the empty
/// string for a URI without an authority.
pub uninterp spec fn url_host_of(s: Seq<char>) -> Seq<char>;

/// Relies on `hyper::Uri`: its `FromStr` impl decides whether the URL is
/// well formed and `Uri::host` yields the authority's host; both depend on
/// the string alone.
#[verifier::external_body]
fn parse_url_host(url: &str) -> (r: Option<String>)
    ensures
        r is Some <==> url_parses(url@),
        r matches Some(h) ==> h@ == url_host_of(url@),
{
    match url.parse::<hyper::Uri>() {
        Ok(uri) => Some(uri.host().unwrap_or_default().to_string()),
        Err(_) => None,
    }
}

/// What the method name becomes on the wire.
pub uninterp spec fn upper_of(s: Seq<char>) -> Seq<char>;

/// Relies on `str::to_uppercase`: the Unicode uppercase mapping, a
/// function of the characters alone.
#[verifier::external_body]
fn to_uppercase(s: &str) -> (r: String)
    ensures
        r@ == upper_of(s@),
{
    s.to_uppercase()
}

/// Whether `c` may appear in an HTTP method token: ASCII letters, digits,
/// or one of the token punctuation characters.
pub open spec fn is_tchar(c: char) -> bool {
    let u = c as u32;
    ||| 97 <= u && u <= 122
    ||| 65 <= u && u <= 90
    ||| 48 <= u && u <= 57
    ||| u == 33
    ||| u == 35
    ||| u == 36
    ||| u == 37
    ||| u == 38
    ||| u == 39
    ||| u == 42
    ||| u == 43
    ||| u == 45
    ||| u == 46
    ||| u == 94
    ||| u == 95
    ||| u == 96
    ||| u == 124
    ||| u == 126
}

/// A non-empty string of token characters: the shape of a valid method.
pub open spec fn is_token(s: Seq<char>) -> bool {
    s.len() > 0 && forall|i: int| 0 <= i < s.len() ==> is_tchar(s[i])
}

fn char_is_tchar(c: char) -> (r: bool)
    ensures
        r == is_tchar(c),
{
    let u = c as u32;
    (97 <= u && u <= 122) || (65 <= u && u <= 90) || (48 <= u && u <= 57) || u == 33 || u == 35
        || u == 36 || u == 37 || u == 38 || u == 39 || u == 42 || u == 43 || u == 45 || u == 46
        || u == 94 || u == 95 || u == 96 || u == 124 || u == 126
}

/// Whether a method string is a valid token.
pub fn validate_method(s: &str) -> (r: bool)
    ensures
        r == is_token(s@),
{
    let n = s.unicode_len();
    if n == 0 {
        return false;
    }
    let mut i: usize = 0;
    while i < n
        invariant
            n == s@.len(),
            i <= n,
            forall|j: int| 0 <= j < i ==> is_tchar(s@[j]),
        decreases n - i,
    {
        if !char_is_tchar(s.get_char(i)) {
            return false;
        }
        i += 1;
    }
    true
}

/// The method used when script supplies none.
pub fn default_method() -> (m: String)
    ensures
        m@ == "GET"@,
{
    String::from_str("GET")
}

/// A request as script hands it over: URL, method, headers, a materialized
/// body, and whether the body is instead streamed through the upload pipe.
#[derive(Debug)]
pub struct HttpRequest {
    pub url: String,
    pub method: String,
    pub headers: Headers,
    pub body: Vec<u8>,
    pub stream_body: bool,
}

/// What the request host call hands back to script: the id used to cancel,
/// and whether an opaque upload-stream handle accompanies it (exactly for a
/// streamed body).
#[derive(Debug)]
pub struct HttpRequestReceipt {
    pub cancel_token: u64,
    pub opaque_body_stream: bool,
}

/// The single success event's payload: status, canonical status text,
/// protocol version string and response headers. The opaque body-stream
/// handle the script receives alongside wraps the downstream pipe's read
/// half.
#[derive(Debug)]
pub struct HttpResponseHead {
    pub status: u16,
    pub status_text: String,
    pub version: String,
    pub headers: Headers,
}

/// The canonical request-body source after construction.
#[derive(Debug)]
pub enum BodySource {
    /// The fully materialized bytes, sent with an exact `Content-Length`.
    Full(Vec<u8>),
    /// The body is relayed chunk by chunk from the script's upload handle.
    Streamed,
}

/// A request ready to be issued: validated method and URL, normalized
/// headers, canonical body source.
#[derive(Debug)]
pub struct PreparedRequest {
    pub method: String,
    pub url: String,
    pub headers: Headers,
    pub body: BodySource,
}

/// The message of a URL that the grammar refused.
pub open spec fn url_error_message(url: Seq<char>) -> Seq<char> {
    "failed to parse url: "@ + url
}

/// The message the single "error" event carries: it names the requested
/// URL and the failure's cause.
pub open spec fn request_error_message(url: Seq<char>, detail: Seq<char>) -> Seq<char> {
    "failed to request `"@ + url + "`: "@ + detail
}

/// Formats the "error" event's message for a failed request.
pub fn format_request_error(url: &str, detail: &str) -> (m: String)
    ensures
        m@ == request_error_message(url@, detail@),
{
    let mut m = String::from_str("failed to request `");
    m.append(url);
    m.append("`: ");
    m.append(detail);
    proof {
        assert(m@ =~= request_error_message(url@, detail@));
    }
    m
}

/// The failure message always carries the requested URL verbatim, right
/// after its fixed prefix.
pub proof fn law_error_message_contains_url(url: Seq<char>, detail: Seq<char>)
    ensures
        ({
            let p = "failed to request `"@;
            let m = request_error_message(url, detail);
            &&& m.len() >= p.len() + url.len()
            &&& m.subrange(p.len() as int, p.len() + url.len() as int) == url
        }),
{
    let p = "failed to request `"@;
    let m = request_error_message(url, detail);
    assert(m.subrange(p.len() as int, p.len() + url.len() as int) =~= url);
}

/// Builds the outgoing request. A URL the grammar refuses, or a method
/// that uppercases to something other than a token, fails the request
/// before anything is sent, with the detail message the single "error"
/// event will carry. Otherwise the method is uppercased, the headers are
/// normalized against the URL's host and the body's length, and the body
/// source is made canonical.
pub fn build_request(req: HttpRequest) -> (r: Result<PreparedRequest, String>)
    ensures
        r is Ok <==> url_parses(req.url@) && is_token(upper_of(req.method@)),
        r matches Ok(p) ==> {
            &&& p.url@ == req.url@
            &&& p.method@ == upper_of(req.method@)
            &&& p.headers@ == spec_normalize(
                req.headers@,
                url_host_of(req.url@),
                if req.stream_body {
                    None
                } else {
                    Some(req.body@.len() as int)
                },
            )
            &&& (req.stream_body ==> p.body is Streamed)
            &&& (!req.stream_body ==> (p.body matches BodySource::Full(b) && b@ == req.body@))
        },
        r matches Err(e) ==> e@ == if !url_parses(req.url@) {
            url_error_message(req.url@)
        } else {
            "failed to build request"@
        },
{
    let host = match parse_url_host(req.url.as_str()) {
        None => {
            let mut m = String::from_str("failed to parse url: ");
            m.append(req.url.as_str());
            proof {
                assert(m@ =~= url_error_message(req.url@));
            }
            return Err(m);
        },
        Some(h) => h,
    };
    let method = to_uppercase(req.method.as_str());
    if !validate_method(method.as_str()) {
        return Err(String::from_str("failed to build request"));
    }
    let content_length = if req.stream_body {
        None
    } else {
        Some(req.body.len())
    };
    let mut headers = req.headers;
    headers.normalize_for_request(host.as_str(), content_length);
    let body = if req.stream_body {
        BodySource::Streamed
    } else {
        BodySource::Full(req.body)
    };
    Ok(PreparedRequest { method, url: req.url, headers, body })
}

/// The kinds of structured events one request can emit through its
/// callback.
pub enum EventKind {
    /// The single success event, carrying the response head.
    Head,
    /// The single failure event, carrying the message.
    Error,
}

/// The phases of one request, in the order they are passed through.
/// `Done` and `Failed` are terminal.
#[derive(Clone, Copy, Debug, PartialEq, Eq, Structural)]
pub enum Phase {
    Created,
    HeadersNormalized,
    UploadInFlight,
    AwaitingResponse,
    HeadEmitted,
    BodyRelaying,
    Done,
    Failed,
}

/// The per-request state machine, with the log of the structured events
/// emitted so far. Well-formedness ties the log to the phase, so at most
/// one event is ever emitted, and a failure after the head went out emits
/// nothing more.
pub struct RequestLifecycle {
    phase: Phase,
    events: Ghost<Seq<EventKind>>,
}

impl RequestLifecycle {
    pub closed spec fn phase(&self) -> Phase {
        self.phase
    }

    /// The structured events emitted so far, in order.
    pub closed spec fn events(&self) -> Seq<EventKind> {
        self.events@
    }

    /// The phase the request is in right now.
    pub fn current_phase(&self) -> (p: Phase)
        ensures
            p == self.phase(),
    {
        self.phase
    }

    pub open spec fn wf(&self) -> bool {
        match self.phase() {
            Phase::Created => self.events() == Seq::<EventKind>::empty(),
            Phase::HeadersNormalized => self.events() == Seq::<EventKind>::empty(),
            Phase::UploadInFlight => self.events() == Seq::<EventKind>::empty(),
            Phase::AwaitingResponse => self.events() == Seq::<EventKind>::empty(),
            Phase::HeadEmitted => self.events() == seq![EventKind::Head],
            Phase::BodyRelaying => self.events() == seq![EventKind::Head],
            Phase::Done => self.events() == seq![EventKind::Head],
            Phase::Failed => self.events() == seq![EventKind::Error],
        }
    }

    pub fn new() -> (l: RequestLifecycle)
        ensures
            l.wf(),
            l.phase() is Created,
            l.events() == Seq::<EventKind>::empty(),
    {
        RequestLifecycle { phase: Phase::Created, events: Ghost(Seq::empty()) }
    }

    /// The headers were normalized; nothing was emitted.
    pub fn headers_normalized(&mut self)
        requires
            old(self).wf(),
            old(self).phase() is Created,
        ensures
            final(self).wf(),
            final(self).phase() is HeadersNormalized,
            final(self).events() == old(self).events(),
    {
        self.phase = Phase::HeadersNormalized;
    }

    /// A streamed request body's upload relay was started.
    pub fn upload_started(&mut self)
        requires
            old(self).wf(),
            old(self).phase() is HeadersNormalized,
        ensures
            final(self).wf(),
            final(self).phase() is UploadInFlight,
            final(self).events() == old(self).events(),
    {
        self.phase = Phase::UploadInFlight;
    }

    /// The request went out to the network collaborator.
    pub fn request_sent(&mut self)
        requires
            old(self).wf(),
            old(self).phase() is HeadersNormalized || old(self).phase() is UploadInFlight,
        ensures
            final(self).wf(),
            final(self).phase() is AwaitingResponse,
            final(self).events() == old(self).events(),
    {
        self.phase = Phase::AwaitingResponse;
    }

    /// The request failed before any head was emitted: the single "error"
    /// event goes out and the request is terminal. A failure in any later
    /// phase emits nothing and is only logged, so this transition exists
    /// for the pre-head phases alone.
    pub fn fail(&mut self)
        requires
            old(self).wf(),
            old(self).phase() is Created || old(self).phase() is HeadersNormalized || old(
                self,
            ).phase() is UploadInFlight || old(self).phase() is AwaitingResponse,
        ensures
            final(self).wf(),
            final(self).phase() is Failed,
            final(self).events() == old(self).events().push(EventKind::Error),
    {
        self.phase = Phase::Failed;
        proof {
            self.events@ = self.events@.push(EventKind::Error);
            assert(self.events@ =~= seq![EventKind::Error]);
        }
    }

    /// The response arrived: the single "head" event goes out, carrying a
    /// handle onto `downstream`, which holds no bytes yet — so the head
    /// strictly precedes any byte becoming readable on the body stream.
    pub fn emit_head(&mut self, downstream: &PipeState)
        requires
            old(self).wf(),
            old(self).phase() is AwaitingResponse,
            downstream.bytes().len() == 0,
            !downstream.is_closed(),
        ensures
            final(self).wf(),
            final(self).phase() is HeadEmitted,
            final(self).events() == old(self).events().push(EventKind::Head),
    {
        self.phase = Phase::HeadEmitted;
        proof {
            self.events@ = self.events@.push(EventKind::Head);
            assert(self.events@ =~= seq![EventKind::Head]);
        }
    }

    /// The response-body relay is running; bytes flow with no further
    /// structured events.
    pub fn body_relaying(&mut self)
        requires
            old(self).wf(),
            old(self).phase() is HeadEmitted,
        ensures
            final(self).wf(),
            final(self).phase() is BodyRelaying,
            final(self).events() == old(self).events(),
    {
        self.phase = Phase::BodyRelaying;
    }

    /// Natural completion: end-of-stream on the body is the signal; no
    /// event is emitted.
    pub fn finish(&mut self)
        requires
            old(self).wf(),
            old(self).phase() is HeadEmitted || old(self).phase() is BodyRelaying,
        ensures
            final(self).wf(),
            final(self).phase() is Done,
            final(self).events() == old(self).events(),
    {
        self.phase = Phase::Done;
    }
}

/// For any request, at most one of the "head" and "error" events is ever
/// emitted, and never both.
pub proof fn law_at_most_one_event(l: RequestLifecycle)
    requires
        l.wf(),
    ensures
        l.events().len() <= 1,
        !(l.events().contains(EventKind::Head) && l.events().contains(EventKind::Error)),
{
    if l.events().contains(EventKind::Head) && l.events().contains(EventKind::Error) {
        let i = choose|i: int| 0 <= i < l.events().len() && l.events()[i] == EventKind::Head;
        let j = choose|j: int| 0 <= j < l.events().len() && l.events()[j] == EventKind::Error;
        assert(i == 0 && j == 0);
    }
}

/// The opening of one request task: builds the request and advances the
/// lifecycle. On a malformed URL or method the lifecycle fails — the
/// single "error" event, with the returned detail — and the request is
/// terminal; otherwise the headers are normalized and nothing was emitted.
pub fn start_request(req: HttpRequest, lc: &mut RequestLifecycle) -> (r: Result<
    PreparedRequest,
    String,
>)
    requires
        old(lc).wf(),
        old(lc).phase() is Created,
    ensures
        final(lc).wf(),
        r is Ok <==> url_parses(req.url@) && is_token(upper_of(req.method@)),
        r is Ok ==> final(lc).phase() is HeadersNormalized && final(lc).events()
            == Seq::<EventKind>::empty(),
        r is Err ==> final(lc).phase() is Failed && final(lc).events() == seq![EventKind::Error],
        r matches Ok(p) ==> {
            &&& p.url@ == req.url@
            &&& p.method@ == upper_of(req.method@)
            &&& p.headers@ == spec_normalize(
                req.headers@,
                url_host_of(req.url@),
                if req.stream_body {
                    None
                } else {
                    Some(req.body@.len() as int)
                },
            )
            &&& (req.stream_body ==> p.body is Streamed)
            &&& (!req.stream_body ==> (p.body matches BodySource::Full(b) && b@ == req.body@))
        },
        r matches Err(e) ==> e@ == if !url_parses(req.url@) {
            url_error_message(req.url@)
        } else {
            "failed to build request"@
        },
{
    match build_request(req) {
        Ok(prepared) => {
            lc.headers_normalized();
            Ok(prepared)
        },
        Err(detail) => {
            lc.fail();
            Err(detail)
        },
    }
}

/// The response arrived: emits the single "head" event and hands back its
/// payload, built from what the network collaborator reported. The
/// downstream pipe is still empty and open, so the head strictly precedes
/// any readable body byte.
pub fn on_response(
    lc: &mut RequestLifecycle,
    status: u16,
    status_text: String,
    version: String,
    headers: Headers,
    downstream: &PipeState,
) -> (h: HttpResponseHead)
    requires
        old(lc).wf(),
        old(lc).phase() is AwaitingResponse,
        downstream.bytes().len() == 0,
        !downstream.is_closed(),
    ensures
        final(lc).wf(),
        final(lc).phase() is HeadEmitted,
        final(lc).events() == old(lc).events().push(EventKind::Head),
        h.status == status,
        h.status_text@ == status_text@,
        h.version@ == version@,
        h.headers@ == headers@,
{
    lc.emit_head(downstream);
    HttpResponseHead { status, status_text, version, headers }
}

/// Registers the request's resource under a fresh id and creates the duplex
/// pipe pair of the request. The receipt carries the id as the cancel
/// token; the host wraps the matching pipe halves as the script-visible
/// opaque stream objects and schedules the network task with a weak
/// service reference and the id.
pub fn http_request(service: &mut Service, stream_body: bool, callback: ScriptValue) -> (r: (
    HttpRequestReceipt,
    Pipes,
))
    requires
        old(service).wf(),
        old(service).next_id() < u64::MAX,
    ensures
        final(service).wf(),
        spawn_post(*old(service), *final(service), r.0.cancel_token, callback@),
        r.0.opaque_body_stream == stream_body,
        r.1.duplex_up.bytes().len() == 0 && !r.1.duplex_up.is_closed()
            && r.1.duplex_up.reader_live(),
        r.1.duplex_down.bytes().len() == 0 && !r.1.duplex_down.is_closed()
            && r.1.duplex_down.reader_live(),
        r.1.duplex_up.wf() && r.1.duplex_down.wf(),
{
    let pipes = Pipes::create();
    let cancel_token = service.spawn(callback);
    (HttpRequestReceipt { cancel_token, opaque_body_stream: stream_body }, pipes)
}

} // verus!
