//! The decisions of the two entry points. The host calls stay with the
//! caller: each step takes what the last host call gave and says what to do
//! next, so the pipeline's rules are checked apart from the host.

use vstd::prelude::*;
use crate::config::Config;
use crate::error::TreblleError;
use crate::json::Json;
use crate::pattern::{regex_valid, KeyPattern};
use crate::payload::{body_view, request_built, response_built, Payload};
use crate::route_blacklist::{all_valid, blacklisted, RouteBlacklist};
use crate::schema::ErrorInfo;
use crate::text::{
    concat, contains_seq, decimal, lower_of, nonempty_fields, split_nonempty, u64_to_decimal,
    views_of,
};
use crate::utils::{headers_view, is_json, json_media_type};

verus! {

/// Host number of the request side of a transaction.
pub const REQUEST_KIND: u32 = 0;

/// Host number of the response side of a transaction.
pub const RESPONSE_KIND: u32 = 1;

/// The header read for the JSON gate.
pub const HEADER_CONTENT_TYPE: &'static str = "Content-Type";

/// Host feature bit that asks for buffered responses.
pub const FEATURE_BUFFER_RESPONSE: u32 = 2;

/// What `handle_request` returns: the host goes on with the request.
pub const CONTINUE_REQUEST: i64 = 1;

/// Whether a content type names JSON, ignoring case.
pub open spec fn is_json_type(content_type: Seq<char>) -> bool {
    contains_seq(lower_of(content_type), json_media_type())
}

/// Where the request pipeline stands.
pub enum RequestStage {
    /// Nothing read yet; the URI comes first.
    AwaitUri,
    /// The URI passed the blacklist; the content type comes next.
    AwaitContentType(String),
    /// The request is shipped; method, headers, body and protocol come next.
    AwaitDetails(String),
    /// Nothing more to do.
    Finished,
}

/// What the host gave for the request side of a transaction.
pub struct RequestDetails {
    pub method: String,
    pub headers: Vec<(String, String)>,
    /// The body parsed as JSON, or `None` when it is not JSON.
    pub body: Option<Json>,
    pub protocol: String,
}

/// What the last host call of the request pipeline gave.
pub enum RequestEvent {
    Uri(String),
    ContentType(String),
    Details(RequestDetails),
    HostFailure(TreblleError),
}

/// Where the response pipeline stands.
pub enum ResponseStage {
    Start,
    AwaitDetails,
    Finished,
}

/// What the host gave for the response side of a transaction.
pub struct ResponseDetails {
    pub headers: Vec<(String, String)>,
    /// The body parsed as JSON, or `None` when it is not JSON.
    pub body: Option<Json>,
    pub body_len: usize,
    pub status: u32,
    pub protocol: String,
    /// Time since the response phase began, in microseconds.
    pub elapsed_micros: u64,
}

/// What the last host call of the response pipeline gave.
pub enum ResponseEvent {
    Begin,
    Details(ResponseDetails),
    HostFailure(TreblleError),
}

/// What the caller does next.
pub enum HandlerAction {
    /// Read the request's `Content-Type` header.
    ReadContentType,
    /// Read the rest of the transaction's side.
    ReadDetails,
    /// Serialize the record and POST it to the collector.
    Send(Payload),
    /// Stop; a failure is logged.
    Finish(Result<(), TreblleError>),
}

/// The request stage after `event` in `stage`, for a blacklist of `sources`.
pub open spec fn request_next(sources: Seq<Seq<char>>, stage: RequestStage, event: RequestEvent) -> RequestStage {
    match (stage, event) {
        (RequestStage::AwaitUri, RequestEvent::Uri(u)) => if blacklisted(sources, u@) {
            RequestStage::Finished
        } else {
            RequestStage::AwaitContentType(u)
        },
        (RequestStage::AwaitContentType(u), RequestEvent::ContentType(ct)) => if is_json_type(ct@) {
            RequestStage::AwaitDetails(u)
        } else {
            RequestStage::Finished
        },
        _ => RequestStage::Finished,
    }
}

/// Whether `event` in `stage` sends a record.
pub open spec fn request_sends(stage: RequestStage, event: RequestEvent) -> bool {
    stage is AwaitDetails && event is Details
}

/// The response stage after `event` in `stage`.
pub open spec fn response_next(buffer_response: bool, stage: ResponseStage, event: ResponseEvent) -> ResponseStage {
    match (stage, event) {
        (ResponseStage::Start, ResponseEvent::Begin) => if buffer_response {
            ResponseStage::AwaitDetails
        } else {
            ResponseStage::Finished
        },
        _ => ResponseStage::Finished,
    }
}

/// Whether `e` is the error entry for status `status`.
pub open spec fn is_status_error(e: ErrorInfo, status: u32) -> bool {
    &&& e.source@ == "response"@
    &&& e.error_type@ == "HTTP Error"@
    &&& e.message@ == "HTTP status code: "@ + decimal(status as nat)
    &&& e.file@.len() == 0
    &&& e.line == 0
}

/// Whether a response is reported as an error.
pub open spec fn response_failed(is_error: i32, status: u32) -> bool {
    is_error != 0 || status >= 400
}

/// The compiled blacklist and sensitive-key patterns.
pub struct HandlerRules {
    blacklist: RouteBlacklist,
    sensitive: KeyPattern,
}

impl HandlerRules {
    /// The source of each blacklist pattern.
    pub closed spec fn blacklist_sources(&self) -> Seq<Seq<char>> {
        self.blacklist.sources()
    }

    /// The source of the sensitive-key pattern.
    pub closed spec fn sensitive_source(&self) -> Seq<char> {
        self.sensitive.source()
    }
}

/// The headers whose value could be read, in order.
pub open spec fn collected_headers(names: Seq<Seq<char>>, values: Seq<Result<String, TreblleError>>) -> Seq<
    (Seq<char>, Seq<char>),
>
    decreases names.len(),
{
    if names.len() == 0 || values.len() == 0 {
        Seq::empty()
    } else {
        let rest = collected_headers(names.drop_last(), values.drop_last());
        match values.last() {
            Ok(v) => rest.push((names.last(), v@)),
            Err(_) => rest,
        }
    }
}

/// The handler's fixed state: configuration, compiled patterns and what
/// the record says of the platform.
pub struct HttpHandler {
    pub config: Config,
    pub rules: HandlerRules,
    pub os_name: String,
    pub architecture: String,
    pub version: String,
}

impl HttpHandler {
    /// The source of each blacklist pattern.
    pub open spec fn blacklist_sources(&self) -> Seq<Seq<char>> {
        self.rules.blacklist_sources()
    }

    /// The source of the sensitive-key pattern.
    pub open spec fn sensitive_source(&self) -> Seq<char> {
        self.rules.sensitive_source()
    }

    /// Whether `p` is the request record for `uri` and `d`.
    pub open spec fn request_payload(&self, p: Payload, uri: Seq<char>, d: RequestDetails) -> bool {
        &&& p.data.api_key@ == self.config.api_key@
        &&& p.data.project_id@ == self.config.project_id@
        &&& p.data.sdk@ == "rust-wasm"@
        &&& request_built(
            p.data.data.request,
            d.method@,
            uri,
            headers_view(d.headers@),
            body_view(d.body),
            self.sensitive_source(),
        )
        &&& p.data.data.server.protocol == d.protocol
        &&& p.data.data.server.os.name == self.os_name
        &&& p.data.data.server.os.architecture == self.architecture
        &&& p.data.data.language.name@ == "rust"@
        &&& p.data.data.language.version == self.version
        &&& p.data.data.errors@.len() == 0
    }

    /// Whether `p` is the response record for `d`; it holds the status error
    /// entry exactly when the response failed.
    pub open spec fn response_payload(&self, p: Payload, is_error: i32, d: ResponseDetails) -> bool {
        &&& p.data.api_key@ == self.config.api_key@
        &&& p.data.project_id@ == self.config.project_id@
        &&& p.data.sdk@ == "rust-wasm"@
        &&& response_built(
            p.data.data.response,
            d.status,
            headers_view(d.headers@),
            body_view(d.body),
            d.body_len,
            d.elapsed_micros,
            self.sensitive_source(),
        )
        &&& p.data.data.server.protocol == d.protocol
        &&& p.data.data.server.os.name == self.os_name
        &&& p.data.data.server.os.architecture == self.architecture
        &&& p.data.data.language.version == self.version
        &&& if response_failed(is_error, d.status) {
            p.data.data.errors@.len() == 1 && is_status_error(p.data.data.errors@[0], d.status)
        } else {
            p.data.data.errors@.len() == 0
        }
    }

    /// A handler for `config`; fails when a blacklist pattern or the
    /// sensitive-key pattern does not compile.
    pub fn new(config: Config, os_name: String, architecture: String, version: String) -> (r: Result<
        HttpHandler,
        TreblleError,
    >)
        ensures
            r is Ok <==> all_valid(views_of(config.route_blacklist@)) && regex_valid(
                config.sensitive_keys_regex@,
            ),
            r matches Ok(h) ==> h.config == config && h.blacklist_sources() == views_of(
                config.route_blacklist@,
            ) && h.sensitive_source() == config.sensitive_keys_regex@ && h.os_name == os_name
                && h.architecture == architecture && h.version == version,
            r matches Err(e) ==> e is Regex,
    {
        let blacklist = RouteBlacklist::try_new(config.route_blacklist.as_slice())?;
        let sensitive = KeyPattern::new(config.sensitive_keys_regex.as_str())?;
        Ok(HttpHandler {
            config,
            rules: HandlerRules { blacklist, sensitive },
            os_name,
            architecture,
            version,
        })
    }

    /// The host features to ask for once: buffered responses when the
    /// configuration processes responses, none otherwise.
    pub fn required_features(&self) -> (r: u32)
        ensures
            r == if self.config.buffer_response { FEATURE_BUFFER_RESPONSE } else { 0 },
    {
        if self.config.buffer_response {
            FEATURE_BUFFER_RESPONSE
        } else {
            0
        }
    }

    /// The header names in the host's comma-separated list, empty ones left
    /// out.
    pub fn header_names(raw: &str) -> (r: Vec<String>)
        ensures
            views_of(r@) == nonempty_fields(raw@, ','),
    {
        split_nonempty(raw, ',')
    }

    /// The header list from the names and what reading each one's value
    /// gave: a header whose value could not be read is left out.
    pub fn get_headers(names: Vec<String>, values: Vec<Result<String, TreblleError>>) -> (r: Vec<
        (String, String),
    >)
        requires
            names.len() == values.len(),
        ensures
            headers_view(r@) == collected_headers(views_of(names@), values@),
    {
        let mut out: Vec<(String, String)> = Vec::new();
        let ghost ns = views_of(names@);
        let ghost vs = values@;
        let mut i: usize = 0;
        assert(ns.take(0) =~= Seq::<Seq<char>>::empty());
        assert(headers_view(out@) =~= Seq::<(Seq<char>, Seq<char>)>::empty());
        while i < names.len()
            invariant
                names.len() == values.len(),
                ns == views_of(names@),
                vs == values@,
                i <= names.len(),
                headers_view(out@) == collected_headers(ns.take(i as int), vs.take(i as int)),
            decreases names.len() - i,
        {
            assert(ns.take(i + 1).drop_last() =~= ns.take(i as int));
            assert(vs.take(i + 1).drop_last() =~= vs.take(i as int));
            match &values[i] {
                Ok(v) => {
                    let ghost before = out@;
                    out.push((names[i].clone(), v.clone()));
                    assert(headers_view(out@) =~= headers_view(before).push(headers_view(out@).last()));
                },
                Err(_) => {},
            }
            i = i + 1;
        }
        assert(ns.take(i as int) =~= ns);
        assert(vs.take(i as int) =~= vs);
        out
    }

    /// The error entry for a failed response with status `status_code`.
    pub fn create_error_info(&self, status_code: u32) -> (r: ErrorInfo)
        ensures
            is_status_error(r, status_code),
    {
        let code = u64_to_decimal(status_code as u64);
        ErrorInfo {
            source: String::from_str("response"),
            error_type: String::from_str("HTTP Error"),
            message: concat("HTTP status code: ", code.as_str()),
            file: String::new(),
            line: 0,
        }
    }

    /// The request record for `uri` and what the host gave.
    fn build_request(&self, uri: String, d: RequestDetails) -> (p: Payload)
        ensures
            self.request_payload(p, uri@, d),
    {
        let mut payload = Payload::new(&self.config);
        let RequestDetails { method, headers, body, protocol } = d;
        payload.update_request_info(method, uri, headers, body, &self.rules.sensitive);
        payload.update_language_info(self.version.clone());
        payload.update_server_info(protocol, self.os_name.clone(), self.architecture.clone());
        payload
    }

    /// One step of the request pipeline: the blacklist, then the JSON gate,
    /// then the record. A host failure ends the pipeline with that failure;
    /// an event out of turn ends it with a host-function failure.
    pub fn process_request(&self, stage: RequestStage, event: RequestEvent) -> (r: (
        RequestStage,
        HandlerAction,
    ))
        ensures
            r.0 == request_next(self.blacklist_sources(), stage, event),
            (r.1 is Send) == request_sends(stage, event),
            match (stage, event) {
                (RequestStage::AwaitUri, RequestEvent::Uri(u)) => if blacklisted(
                    self.blacklist_sources(),
                    u@,
                ) {
                    r.1 matches HandlerAction::Finish(Ok(_))
                } else {
                    r.1 is ReadContentType
                },
                (RequestStage::AwaitContentType(_), RequestEvent::ContentType(ct)) => if is_json_type(
                    ct@,
                ) {
                    r.1 is ReadDetails
                } else {
                    r.1 matches HandlerAction::Finish(Ok(_))
                },
                (RequestStage::AwaitDetails(u), RequestEvent::Details(d)) => r.1 matches HandlerAction::Send(
                    p,
                ) && self.request_payload(p, u@, d),
                (_, RequestEvent::HostFailure(e)) => r.1 == HandlerAction::Finish(Err(e)),
                _ => r.1 matches HandlerAction::Finish(Err(e)) && e is HostFunction,
            },
    {
        match (stage, event) {
            (RequestStage::AwaitUri, RequestEvent::Uri(u)) => {
                if self.rules.blacklist.is_blacklisted(u.as_str()) {
                    (RequestStage::Finished, HandlerAction::Finish(Ok(())))
                } else {
                    (RequestStage::AwaitContentType(u), HandlerAction::ReadContentType)
                }
            },
            (RequestStage::AwaitContentType(u), RequestEvent::ContentType(ct)) => {
                if is_json(ct.as_str()) {
                    (RequestStage::AwaitDetails(u), HandlerAction::ReadDetails)
                } else {
                    (RequestStage::Finished, HandlerAction::Finish(Ok(())))
                }
            },
            (RequestStage::AwaitDetails(u), RequestEvent::Details(d)) => {
                (RequestStage::Finished, HandlerAction::Send(self.build_request(u, d)))
            },
            (_, RequestEvent::HostFailure(e)) => (RequestStage::Finished, HandlerAction::Finish(Err(e))),
            _ => (
                RequestStage::Finished,
                HandlerAction::Finish(
                    Err(TreblleError::HostFunction(String::from_str("unexpected host reply"))),
                ),
            ),
        }
    }

    /// The response record for what the host gave.
    fn build_response(&self, is_error: i32, d: ResponseDetails) -> (p: Payload)
        ensures
            self.response_payload(p, is_error, d),
    {
        let failed = is_error != 0 || d.status >= 400;
        let status = d.status;
        let mut payload = Payload::new(&self.config);
        let ResponseDetails { headers, body, body_len, status: _, protocol, elapsed_micros } = d;
        payload.update_response_info(status, headers, body, body_len, elapsed_micros, &self.rules.sensitive);
        payload.update_server_info(protocol, self.os_name.clone(), self.architecture.clone());
        payload.update_language_info(self.version.clone());
        if failed {
            payload.add_error(self.create_error_info(status));
        }
        payload
    }

    /// One step of the response pipeline: nothing unless responses are
    /// buffered; then the record, with the status error entry exactly when
    /// `is_error` is set or the status is 400 or more.
    pub fn process_response(&self, _req_ctx: i32, is_error: i32, stage: ResponseStage, event: ResponseEvent) -> (r: (
        ResponseStage,
        HandlerAction,
    ))
        ensures
            r.0 == response_next(self.config.buffer_response, stage, event),
            (r.1 is Send) == (stage is AwaitDetails && event is Details),
            match (stage, event) {
                (ResponseStage::Start, ResponseEvent::Begin) => if self.config.buffer_response {
                    r.1 is ReadDetails
                } else {
                    r.1 matches HandlerAction::Finish(Ok(_))
                },
                (ResponseStage::AwaitDetails, ResponseEvent::Details(d)) => r.1 matches HandlerAction::Send(
                    p,
                ) && self.response_payload(p, is_error, d),
                (_, ResponseEvent::HostFailure(e)) => r.1 == HandlerAction::Finish(Err(e)),
                _ => r.1 matches HandlerAction::Finish(Err(e)) && e is HostFunction,
            },
    {
        match (stage, event) {
            (ResponseStage::Start, ResponseEvent::Begin) => {
                if self.config.buffer_response {
                    (ResponseStage::AwaitDetails, HandlerAction::ReadDetails)
                } else {
                    (ResponseStage::Finished, HandlerAction::Finish(Ok(())))
                }
            },
            (ResponseStage::AwaitDetails, ResponseEvent::Details(d)) => {
                (ResponseStage::Finished, HandlerAction::Send(self.build_response(is_error, d)))
            },
            (_, ResponseEvent::HostFailure(e)) => (ResponseStage::Finished, HandlerAction::Finish(Err(e))),
            _ => (
                ResponseStage::Finished,
                HandlerAction::Finish(
                    Err(TreblleError::HostFunction(String::from_str("unexpected host reply"))),
                ),
            ),
        }
    }
}

/// Whether feeding `events` to the request pipeline from `stage` sends a
/// record at some step.
pub open spec fn run_sends(sources: Seq<Seq<char>>, stage: RequestStage, events: Seq<RequestEvent>) -> bool
    decreases events.len(),
{
    if events.len() == 0 {
        false
    } else {
        request_sends(stage, events[0]) || run_sends(
            sources,
            request_next(sources, stage, events[0]),
            events.drop_first(),
        )
    }
}

/// Once finished, the request pipeline sends nothing more.
pub proof fn lemma_finished_sends_nothing(sources: Seq<Seq<char>>, events: Seq<RequestEvent>)
    ensures
        !run_sends(sources, RequestStage::Finished, events),
    decreases events.len(),
{
    if events.len() > 0 {
        lemma_finished_sends_nothing(sources, events.drop_first());
    }
}

/// A URI that some blacklist pattern matches is never shipped, whatever the
/// host replies afterwards.
pub proof fn lemma_blacklisted_never_sent(sources: Seq<Seq<char>>, uri: String, rest: Seq<RequestEvent>)
    requires
        blacklisted(sources, uri@),
    ensures
        !run_sends(sources, RequestStage::AwaitUri, seq![RequestEvent::Uri(uri)] + rest),
{
    let events = seq![RequestEvent::Uri(uri)] + rest;
    assert(events.drop_first() =~= rest);
    lemma_finished_sends_nothing(sources, rest);
}

/// A request whose content type does not name JSON is never shipped,
/// whatever the host replies afterwards.
pub proof fn lemma_non_json_never_sent(
    sources: Seq<Seq<char>>,
    uri: String,
    content_type: String,
    rest: Seq<RequestEvent>,
)
    requires
        !is_json_type(content_type@),
    ensures
        !run_sends(
            sources,
            RequestStage::AwaitContentType(uri),
            seq![RequestEvent::ContentType(content_type)] + rest,
        ),
{
    let events = seq![RequestEvent::ContentType(content_type)] + rest;
    assert(events.drop_first() =~= rest);
    lemma_finished_sends_nothing(sources, rest);
}

/// The request stage after feeding `events` to the pipeline from `stage`.
pub open spec fn run_stage(sources: Seq<Seq<char>>, stage: RequestStage, events: Seq<RequestEvent>) -> RequestStage
    decreases events.len(),
{
    if events.len() == 0 {
        stage
    } else {
        run_stage(sources, request_next(sources, stage, events[0]), events.drop_first())
    }
}

/// How many host replies a stage can still wait for.
pub open spec fn replies_left(stage: RequestStage) -> nat {
    match stage {
        RequestStage::AwaitUri => 3,
        RequestStage::AwaitContentType(_) => 2,
        RequestStage::AwaitDetails(_) => 1,
        RequestStage::Finished => 0,
    }
}

/// From any stage, the pipeline is finished once it has had as many replies
/// as the stage can still wait for.
pub proof fn lemma_request_finishes(sources: Seq<Seq<char>>, stage: RequestStage, events: Seq<RequestEvent>)
    requires
        events.len() >= replies_left(stage),
    ensures
        run_stage(sources, stage, events) == RequestStage::Finished,
    decreases events.len(),
{
    if events.len() > 0 {
        let next = request_next(sources, stage, events[0]);
        assert(replies_left(next) < replies_left(stage) || next == RequestStage::Finished);
        lemma_request_finishes(sources, next, events.drop_first());
    }
}

/// Whatever the host replies, a request is finished after three replies:
/// the guest always hands the request back to the host.
pub proof fn lemma_request_always_ends(sources: Seq<Seq<char>>, events: Seq<RequestEvent>)
    requires
        events.len() >= 3,
    ensures
        run_stage(sources, RequestStage::AwaitUri, events) == RequestStage::Finished,
{
    lemma_request_finishes(sources, RequestStage::AwaitUri, events);
}

} // verus!
