//! Building the record for one transaction: the request side, the response
//! side, and the server and language metadata.

use vstd::prelude::*;
use crate::config::{entries_get, json_get, Config};
use crate::error::TreblleError;
use crate::json::{Json, JsonV};
use crate::pattern::{regex_valid, KeyPattern};
use crate::schema::{
    data_json, payload_json, response_json, ErrorInfo, LanguageInfo, OsInfo, PayloadData, RequestInfo, ResponseInfo,
    ServerInfo, TrebllePayload,
};
use crate::text::decimal;
use crate::utils::{
    extract_ip_from_headers, get_header, header_lookup, headers_view, ip_from_headers,
    mask_headers, mask_value, masked, masked_headers,
};

verus! {

/// Relies on `chrono::Utc::now` and `DateTime::to_rfc3339`: the current UTC
/// time as RFC 3339 text. It depends on the clock, so nothing is promised.
#[verifier::external_body]
fn utc_timestamp() -> String {
    chrono::Utc::now().to_rfc3339()
}

/// Relies on `chrono::Local::now` formatted with `%Z`: the name of the
/// machine's time zone. It depends on the machine, so nothing is promised.
#[verifier::external_body]
fn local_timezone() -> String {
    chrono::Local::now().format("%Z").to_string()
}

/// A parsed body, or JSON `null` when the bytes were not JSON.
pub open spec fn body_or_null(body: Option<JsonV>) -> JsonV {
    match body {
        Some(b) => b,
        None => JsonV::Null,
    }
}

/// The model of an optional parsed body.
pub open spec fn body_view(body: Option<Json>) -> Option<JsonV> {
    match body {
        Some(b) => Some(b@),
        None => None,
    }
}

/// Whether `r` describes a request with these fields, redacted by `pattern`.
/// The timestamp is the clock's and is not constrained.
pub open spec fn request_built(
    r: RequestInfo,
    method: Seq<char>,
    uri: Seq<char>,
    headers: Seq<(Seq<char>, Seq<char>)>,
    body: Option<JsonV>,
    pattern: Seq<char>,
) -> bool {
    &&& r.method@ == method
    &&& r.url@ == uri
    &&& r.ip@ == match ip_from_headers(headers) {
        Some(ip) => ip,
        None => "Unknown"@,
    }
    &&& r.user_agent@ == match header_lookup(headers, "User-Agent"@) {
        Some(v) => v,
        None => Seq::empty(),
    }
    &&& headers_view(r.headers@) == masked_headers(headers, pattern)
    &&& r.body@ == masked(body_or_null(body), pattern)
}

/// Whether `r` describes a response with these fields, redacted by `pattern`.
pub open spec fn response_built(
    r: ResponseInfo,
    status: u32,
    headers: Seq<(Seq<char>, Seq<char>)>,
    body: Option<JsonV>,
    body_len: usize,
    elapsed_micros: u64,
    pattern: Seq<char>,
) -> bool {
    &&& r.code == status
    &&& r.size == body_len
    &&& r.load_time_micros == elapsed_micros
    &&& headers_view(r.headers@) == masked_headers(headers, pattern)
    &&& r.body@ == masked(body_or_null(body), pattern)
}

/// The request side of a record; headers and body are redacted by `pattern`.
pub fn request_info(
    method: String,
    uri: String,
    headers: Vec<(String, String)>,
    body: Option<Json>,
    pattern: &KeyPattern,
) -> (r: RequestInfo)
    ensures
        request_built(r, method@, uri@, headers_view(headers@), body_view(body), pattern.source()),
{
    let ip = match extract_ip_from_headers(&headers) {
        Some(ip) => ip,
        None => String::from_str("Unknown"),
    };
    let user_agent = match get_header(&headers, "User-Agent") {
        Some(v) => v.clone(),
        None => String::new(),
    };
    let parsed = match body {
        Some(b) => b,
        None => Json::Null,
    };
    RequestInfo {
        timestamp: utc_timestamp(),
        ip,
        url: uri,
        user_agent,
        method,
        headers: mask_headers(&headers, pattern),
        body: mask_value(&parsed, pattern),
    }
}

/// The request side of a record, redacted by the configured sensitive-key
/// regex; fails exactly when that regex does not compile.
pub fn parse_request(
    method: String,
    uri: String,
    headers: Vec<(String, String)>,
    body: Option<Json>,
    config: &Config,
) -> (r: Result<RequestInfo, TreblleError>)
    ensures
        r is Ok <==> regex_valid(config.sensitive_keys_regex@),
        r matches Ok(info) ==> request_built(
            info,
            method@,
            uri@,
            headers_view(headers@),
            body_view(body),
            config.sensitive_keys_regex@,
        ),
        r matches Err(e) ==> e is Regex,
{
    let pattern = KeyPattern::new(config.sensitive_keys_regex.as_str())?;
    Ok(request_info(method, uri, headers, body, &pattern))
}

/// The response side of a record; headers and body are redacted by
/// `pattern`.
pub fn response_info(
    status: u32,
    headers: Vec<(String, String)>,
    body: Option<Json>,
    body_len: usize,
    elapsed_micros: u64,
    pattern: &KeyPattern,
) -> (r: ResponseInfo)
    ensures
        response_built(
            r,
            status,
            headers_view(headers@),
            body_view(body),
            body_len,
            elapsed_micros,
            pattern.source(),
        ),
{
    let parsed = match body {
        Some(b) => b,
        None => Json::Null,
    };
    ResponseInfo {
        code: status,
        size: body_len,
        load_time_micros: elapsed_micros,
        headers: mask_headers(&headers, pattern),
        body: mask_value(&parsed, pattern),
    }
}

/// The response side of a record, redacted by the configured sensitive-key
/// regex; fails exactly when that regex does not compile.
pub fn parse_response(
    status: u32,
    headers: Vec<(String, String)>,
    body: Option<Json>,
    body_len: usize,
    elapsed_micros: u64,
    config: &Config,
) -> (r: Result<ResponseInfo, TreblleError>)
    ensures
        r is Ok <==> regex_valid(config.sensitive_keys_regex@),
        r matches Ok(info) ==> response_built(
            info,
            status,
            headers_view(headers@),
            body_view(body),
            body_len,
            elapsed_micros,
            config.sensitive_keys_regex@,
        ),
        r matches Err(e) ==> e is Regex,
{
    let pattern = KeyPattern::new(config.sensitive_keys_regex.as_str())?;
    Ok(response_info(status, headers, body, body_len, elapsed_micros, &pattern))
}

/// The record being built for one transaction.
pub struct Payload {
    pub data: TrebllePayload,
}

impl Payload {
    /// An empty record for the configured project.
    pub fn new(config: &Config) -> (r: Payload)
        ensures
            r.data.api_key@ == config.api_key@,
            r.data.project_id@ == config.project_id@,
            r.data.sdk@ == "rust-wasm"@,
            r.data.data.errors@.len() == 0,
    {
        Payload {
            data: TrebllePayload {
                api_key: config.api_key.clone(),
                project_id: config.project_id.clone(),
                sdk: String::from_str("rust-wasm"),
                data: PayloadData::default(),
            },
        }
    }

    /// Sets the request side; headers and body are redacted by `pattern`.
    pub fn update_request_info(
        &mut self,
        method: String,
        url: String,
        headers: Vec<(String, String)>,
        body: Option<Json>,
        pattern: &KeyPattern,
    )
        ensures
            request_built(
                final(self).data.data.request,
                method@,
                url@,
                headers_view(headers@),
                body_view(body),
                pattern.source(),
            ),
            final(self).data.api_key == old(self).data.api_key,
            final(self).data.project_id == old(self).data.project_id,
            final(self).data.sdk == old(self).data.sdk,
            final(self).data.data.server == old(self).data.data.server,
            final(self).data.data.language == old(self).data.data.language,
            final(self).data.data.response == old(self).data.data.response,
            final(self).data.data.errors == old(self).data.data.errors,
    {
        self.data.data.request = request_info(method, url, headers, body, pattern);
    }

    /// Sets the response side; headers and body are redacted by `pattern`.
    pub fn update_response_info(
        &mut self,
        status: u32,
        headers: Vec<(String, String)>,
        body: Option<Json>,
        body_len: usize,
        elapsed_micros: u64,
        pattern: &KeyPattern,
    )
        ensures
            response_built(
                final(self).data.data.response,
                status,
                headers_view(headers@),
                body_view(body),
                body_len,
                elapsed_micros,
                pattern.source(),
            ),
            final(self).data.api_key == old(self).data.api_key,
            final(self).data.project_id == old(self).data.project_id,
            final(self).data.sdk == old(self).data.sdk,
            final(self).data.data.server == old(self).data.data.server,
            final(self).data.data.language == old(self).data.data.language,
            final(self).data.data.request == old(self).data.data.request,
            final(self).data.data.errors == old(self).data.data.errors,
    {
        self.data.data.response = response_info(
            status,
            headers,
            body,
            body_len,
            elapsed_micros,
            pattern,
        );
    }

    /// Appends an error entry.
    pub fn add_error(&mut self, error: ErrorInfo)
        ensures
            final(self).data.data.errors@ == old(self).data.data.errors@.push(error),
            final(self).data.api_key == old(self).data.api_key,
            final(self).data.project_id == old(self).data.project_id,
            final(self).data.sdk == old(self).data.sdk,
            final(self).data.data.server == old(self).data.data.server,
            final(self).data.data.language == old(self).data.data.language,
            final(self).data.data.request == old(self).data.data.request,
            final(self).data.data.response == old(self).data.data.response,
    {
        self.data.data.errors.push(error);
    }

    /// The JSON form of the record.
    pub fn to_json(&self) -> (r: Json)
        ensures
            r@ == payload_json(self.data),
    {
        self.data.to_json()
    }

    /// Sets the server side: the host's protocol, the machine's time zone,
    /// and the given operating system and architecture; the address and the
    /// OS release are not known to the guest.
    pub fn update_server_info(&mut self, protocol: String, os_name: String, architecture: String)
        ensures
            final(self).data.data.server.protocol == protocol,
            final(self).data.data.server.ip@ == "Unknown"@,
            final(self).data.data.server.os.name == os_name,
            final(self).data.data.server.os.release@ == "Unknown"@,
            final(self).data.data.server.os.architecture == architecture,
            final(self).data.data.server.software is None,
            final(self).data.data.server.signature is None,
            final(self).data.data.server.encoding is None,
            final(self).data.api_key == old(self).data.api_key,
            final(self).data.project_id == old(self).data.project_id,
            final(self).data.sdk == old(self).data.sdk,
            final(self).data.data.language == old(self).data.data.language,
            final(self).data.data.request == old(self).data.data.request,
            final(self).data.data.response == old(self).data.data.response,
            final(self).data.data.errors == old(self).data.data.errors,
    {
        self.data.data.server = ServerInfo {
            ip: String::from_str("Unknown"),
            timezone: local_timezone(),
            software: None,
            signature: None,
            protocol,
            encoding: None,
            os: OsInfo {
                name: os_name,
                release: String::from_str("Unknown"),
                architecture,
            },
        };
    }

    /// Sets the language side: Rust, at the given version.
    pub fn update_language_info(&mut self, version: String)
        ensures
            final(self).data.data.language.name@ == "rust"@,
            final(self).data.data.language.version == version,
            final(self).data.data.language.expose_php is None,
            final(self).data.data.language.display_errors is None,
            final(self).data.api_key == old(self).data.api_key,
            final(self).data.project_id == old(self).data.project_id,
            final(self).data.sdk == old(self).data.sdk,
            final(self).data.data.server == old(self).data.data.server,
            final(self).data.data.request == old(self).data.data.request,
            final(self).data.data.response == old(self).data.data.response,
            final(self).data.data.errors == old(self).data.data.errors,
    {
        self.data.data.language = LanguageInfo {
            name: String::from_str("rust"),
            version,
            expose_php: None,
            display_errors: None,
        };
    }
}

/// In the JSON form of a record, the response code and the response size
/// are JSON strings holding the decimal numbers.
pub proof fn lemma_code_and_size_are_strings(p: TrebllePayload)
    ensures
        ({
            let data = json_get(payload_json(p), "data"@);
            let response = json_get(data->0, "response"@);
            &&& data == Some(data_json(p.data))
            &&& response == Some(response_json(p.data.response))
            &&& json_get(response->0, "code"@) == Some(JsonV::Str(decimal(p.data.response.code as nat)))
            &&& json_get(response->0, "size"@) == Some(JsonV::Str(decimal(p.data.response.size as nat)))
        }),
{
    reveal_strlit("api_key");
    reveal_strlit("project_id");
    reveal_strlit("version");
    reveal_strlit("sdk");
    reveal_strlit("data");
    reveal_strlit("server");
    reveal_strlit("language");
    reveal_strlit("request");
    reveal_strlit("response");
    reveal_strlit("code");
    reveal_strlit("size");
    let top = payload_json(p)->Object_0;
    assert(top[0].0.len() != "data"@.len());
    assert(top[1].0.len() != "data"@.len());
    assert(top[2].0.len() != "data"@.len());
    assert(top[3].0.len() != "data"@.len());
    assert(top.drop_first().drop_first().drop_first().drop_first()[0].0 == "data"@);
    reveal_with_fuel(entries_get, 6);
    let d = data_json(p.data)->Object_0;
    assert(d[0].0.len() != "response"@.len());
    assert(d[1].0[0] != "response"@[0]);
    assert(d[2].0.len() != "response"@.len());
    let r = response_json(p.data.response)->Object_0;
    assert(r[1].0[0] != "code"@[0]);
    assert(r[0].0[0] != "size"@[0]);
}

} // verus!
