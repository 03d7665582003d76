//! The record sent to the collector, and its JSON form.

use vstd::prelude::*;
use crate::json::{Json, JsonV};
use crate::text::{concat, decimal, push_char, u64_to_decimal};
use crate::utils::headers_view;

verus! {

/// Operating system of the server.
pub struct OsInfo {
    pub name: String,
    pub release: String,
    pub architecture: String,
}

/// Server the transaction passed through.
pub struct ServerInfo {
    pub ip: String,
    pub timezone: String,
    pub software: Option<String>,
    pub signature: Option<String>,
    pub protocol: String,
    pub encoding: Option<String>,
    pub os: OsInfo,
}

/// Language the middleware runs in.
pub struct LanguageInfo {
    pub name: String,
    pub version: String,
    pub expose_php: Option<String>,
    pub display_errors: Option<String>,
}

/// The request side of a transaction.
pub struct RequestInfo {
    pub timestamp: String,
    pub ip: String,
    pub url: String,
    pub user_agent: String,
    pub method: String,
    pub headers: Vec<(String, String)>,
    pub body: Json,
}

/// The response side of a transaction. `load_time_micros` is the time since
/// the phase began, in microseconds.
pub struct ResponseInfo {
    pub code: u32,
    pub size: usize,
    pub load_time_micros: u64,
    pub headers: Vec<(String, String)>,
    pub body: Json,
}

/// One error entry of a record.
pub struct ErrorInfo {
    pub source: String,
    pub error_type: String,
    pub message: String,
    pub file: String,
    pub line: u32,
}

/// The transaction part of a record.
pub struct PayloadData {
    pub server: ServerInfo,
    pub language: LanguageInfo,
    pub request: RequestInfo,
    pub response: ResponseInfo,
    pub errors: Vec<ErrorInfo>,
}

/// A whole record.
pub struct TrebllePayload {
    pub api_key: String,
    pub project_id: String,
    pub sdk: String,
    pub data: PayloadData,
}

impl Default for OsInfo {
    fn default() -> (r: OsInfo)
        ensures
            r.name@.len() == 0 && r.release@.len() == 0 && r.architecture@.len() == 0,
    {
        OsInfo { name: String::new(), release: String::new(), architecture: String::new() }
    }
}

impl Default for ServerInfo {
    fn default() -> (r: ServerInfo)
        ensures
            r.ip@.len() == 0 && r.timezone@.len() == 0 && r.protocol@.len() == 0,
            r.software is None && r.signature is None && r.encoding is None,
    {
        ServerInfo {
            ip: String::new(),
            timezone: String::new(),
            software: None,
            signature: None,
            protocol: String::new(),
            encoding: None,
            os: OsInfo::default(),
        }
    }
}

impl Default for LanguageInfo {
    fn default() -> (r: LanguageInfo)
        ensures
            r.name@.len() == 0 && r.version@.len() == 0,
            r.expose_php is None && r.display_errors is None,
    {
        LanguageInfo {
            name: String::new(),
            version: String::new(),
            expose_php: None,
            display_errors: None,
        }
    }
}

impl Default for RequestInfo {
    fn default() -> (r: RequestInfo)
        ensures
            r.url@.len() == 0 && r.method@.len() == 0 && r.headers@.len() == 0,
            r.body == Json::Null,
    {
        RequestInfo {
            timestamp: String::new(),
            ip: String::new(),
            url: String::new(),
            user_agent: String::new(),
            method: String::new(),
            headers: Vec::new(),
            body: Json::Null,
        }
    }
}

impl Default for ResponseInfo {
    fn default() -> (r: ResponseInfo)
        ensures
            r.code == 0 && r.size == 0 && r.load_time_micros == 0 && r.headers@.len() == 0,
            r.body == Json::Null,
    {
        ResponseInfo {
            code: 0,
            size: 0,
            load_time_micros: 0,
            headers: Vec::new(),
            body: Json::Null,
        }
    }
}

impl Default for ErrorInfo {
    fn default() -> (r: ErrorInfo)
        ensures
            r.source@.len() == 0 && r.error_type@.len() == 0 && r.message@.len() == 0,
            r.file@.len() == 0 && r.line == 0,
    {
        ErrorInfo {
            source: String::new(),
            error_type: String::new(),
            message: String::new(),
            file: String::new(),
            line: 0,
        }
    }
}

impl Default for PayloadData {
    fn default() -> (r: PayloadData)
        ensures
            r.errors@.len() == 0,
            r.response.code == 0,
            r.request.body == Json::Null,
    {
        PayloadData {
            server: ServerInfo::default(),
            language: LanguageInfo::default(),
            request: RequestInfo::default(),
            response: ResponseInfo::default(),
            errors: Vec::new(),
        }
    }
}

/// `d` padded with leading zeros to six digits.
pub open spec fn six_digits(d: Seq<char>) -> Seq<char> {
    Seq::new((6 - d.len()) as nat, |i: int| '0') + d
}

/// A count of microseconds written as seconds, with six decimals.
pub open spec fn seconds_text(micros: nat) -> Seq<char> {
    decimal(micros / 1000000) + "."@ + six_digits(decimal(micros % 1000000))
}

/// An entry holding a string.
pub open spec fn str_entry(key: Seq<char>, value: Seq<char>) -> (Seq<char>, JsonV) {
    (key, JsonV::Str(value))
}

/// An entry holding a string, present only when the value is.
pub open spec fn opt_entry(key: Seq<char>, value: Option<String>) -> Seq<(Seq<char>, JsonV)> {
    match value {
        Some(v) => seq![str_entry(key, v@)],
        None => Seq::empty(),
    }
}

/// A header list as a JSON object of strings.
pub open spec fn headers_json(h: Seq<(Seq<char>, Seq<char>)>) -> JsonV {
    JsonV::Object(h.map_values(|e: (Seq<char>, Seq<char>)| str_entry(e.0, e.1)))
}

/// The JSON form of server information.
pub open spec fn server_json(s: ServerInfo) -> JsonV {
    JsonV::Object(
        seq![str_entry("ip"@, s.ip@), str_entry("timezone"@, s.timezone@)]
            + opt_entry("software"@, s.software)
            + opt_entry("signature"@, s.signature)
            + seq![str_entry("protocol"@, s.protocol@)]
            + opt_entry("encoding"@, s.encoding)
            + seq![
            ("os"@, JsonV::Object(seq![
                str_entry("name"@, s.os.name@),
                str_entry("release"@, s.os.release@),
                str_entry("architecture"@, s.os.architecture@),
            ])),
        ],
    )
}

/// The JSON form of language information.
pub open spec fn language_json(l: LanguageInfo) -> JsonV {
    JsonV::Object(
        seq![str_entry("name"@, l.name@), str_entry("version"@, l.version@)]
            + opt_entry("expose_php"@, l.expose_php)
            + opt_entry("display_errors"@, l.display_errors),
    )
}

/// The JSON form of the request side.
pub open spec fn request_json(r: RequestInfo) -> JsonV {
    JsonV::Object(seq![
        str_entry("timestamp"@, r.timestamp@),
        str_entry("ip"@, r.ip@),
        str_entry("url"@, r.url@),
        str_entry("user_agent"@, r.user_agent@),
        str_entry("method"@, r.method@),
        ("headers"@, headers_json(headers_view(r.headers@))),
        ("body"@, r.body@),
    ])
}

/// The JSON form of the response side: code and size as strings.
pub open spec fn response_json(r: ResponseInfo) -> JsonV {
    JsonV::Object(seq![
        str_entry("code"@, decimal(r.code as nat)),
        str_entry("size"@, decimal(r.size as nat)),
        ("load_time"@, JsonV::Number(seconds_text(r.load_time_micros as nat))),
        ("headers"@, headers_json(headers_view(r.headers@))),
        ("body"@, r.body@),
    ])
}

/// The JSON form of an error entry.
pub open spec fn error_json(e: ErrorInfo) -> JsonV {
    JsonV::Object(seq![
        str_entry("source"@, e.source@),
        str_entry("error_type"@, e.error_type@),
        str_entry("message"@, e.message@),
        str_entry("file"@, e.file@),
        ("line"@, JsonV::Number(decimal(e.line as nat))),
    ])
}

/// The JSON form of the transaction part.
pub open spec fn data_json(d: PayloadData) -> JsonV {
    JsonV::Object(seq![
        ("server"@, server_json(d.server)),
        ("language"@, language_json(d.language)),
        ("request"@, request_json(d.request)),
        ("response"@, response_json(d.response)),
        ("errors"@, JsonV::Array(d.errors@.map_values(|e: ErrorInfo| error_json(e)))),
    ])
}

/// The JSON form of a record; the schema version is 0.6.
pub open spec fn payload_json(p: TrebllePayload) -> JsonV {
    JsonV::Object(seq![
        str_entry("api_key"@, p.api_key@),
        str_entry("project_id"@, p.project_id@),
        ("version"@, JsonV::Number("0.6"@)),
        str_entry("sdk"@, p.sdk@),
        ("data"@, data_json(p.data)),
    ])
}

/// A key and a value as an object entry.
fn entry(key: &str, value: Json) -> (r: (String, Json))
    ensures
        r.0@ == key@,
        r.1 == value,
{
    (String::from_str(key), value)
}

/// A key and a string as an object entry.
fn str_field(key: &str, value: &String) -> (r: (String, Json))
    ensures
        (r.0@, r.1@) == str_entry(key@, value@),
{
    (String::from_str(key), Json::Str(value.clone()))
}

/// Appends the entry when the value is present.
fn push_opt(entries: &mut Vec<(String, Json)>, key: &str, value: &Option<String>)
    ensures
        final(entries)@.map_values(|e: (String, Json)| (e.0@, e.1@)) == old(entries)@.map_values(
            |e: (String, Json)| (e.0@, e.1@),
        ) + opt_entry(key@, *value),
{
    let ghost before = entries@;
    match value {
        Some(v) => entries.push(str_field(key, v)),
        None => {},
    }
    assert(entries@.map_values(|e: (String, Json)| (e.0@, e.1@)) =~= before.map_values(
        |e: (String, Json)| (e.0@, e.1@),
    ) + opt_entry(key@, *value));
}

/// The model of an object built from `entries`.
proof fn lemma_object_view(entries: Vec<(String, Json)>)
    ensures
        Json::Object(entries)@ == JsonV::Object(entries@.map_values(|e: (String, Json)| (e.0@, e.1@))),
{
    assert(Json::Object(entries)@->Object_0 =~= entries@.map_values(|e: (String, Json)| (e.0@, e.1@)));
}

/// A count of microseconds written as seconds, with six decimals.
pub fn seconds_string(micros: u64) -> (r: String)
    ensures
        r@ == seconds_text(micros as nat),
{
    let whole = u64_to_decimal(micros / 1000000);
    let frac = u64_to_decimal(micros % 1000000);
    let mut out = concat(whole.as_str(), ".");
    proof {
        assert(pow10(6) == 1000000) by {
            reveal_with_fuel(pow10, 7);
        }
        lemma_decimal_len((micros % 1000000) as nat, 6);
    }
    let mut k: usize = frac.as_str().unicode_len();
    while k < 6
        invariant
            frac@.len() <= k <= 6,
            out@ == decimal((micros / 1000000) as nat) + "."@ + Seq::new((k - frac@.len()) as nat, |i: int| '0'),
        decreases 6 - k,
    {
        push_char(&mut out, '0');
        k = k + 1;
        assert(out@ =~= decimal((micros / 1000000) as nat) + "."@ + Seq::new((k - frac@.len()) as nat, |i: int| '0'));
    }
    let r = concat(out.as_str(), frac.as_str());
    assert(r@ =~= seconds_text(micros as nat));
    r
}

/// A header list as a JSON object of strings.
pub fn headers_to_json(headers: &Vec<(String, String)>) -> (r: Json)
    ensures
        r@ == headers_json(headers_view(headers@)),
{
    let mut entries: Vec<(String, Json)> = Vec::new();
    let mut i: usize = 0;
    while i < headers.len()
        invariant
            i <= headers.len(),
            entries.len() == i,
            forall|k: int|
                0 <= k < i ==> (entries@[k].0@, entries@[k].1@) == str_entry(
                    headers@[k].0@,
                    headers@[k].1@,
                ),
        decreases headers.len() - i,
    {
        entries.push((headers[i].0.clone(), Json::Str(headers[i].1.clone())));
        i = i + 1;
    }
    proof {
        lemma_object_view(entries);
        assert(entries@.map_values(|e: (String, Json)| (e.0@, e.1@)) =~= headers_view(
            headers@,
        ).map_values(|e: (Seq<char>, Seq<char>)| str_entry(e.0, e.1)));
    }
    Json::Object(entries)
}

impl OsInfo {
    /// The JSON form of this value.
    pub fn to_json(&self) -> (r: Json)
        ensures
            r@ == JsonV::Object(seq![
                str_entry("name"@, self.name@),
                str_entry("release"@, self.release@),
                str_entry("architecture"@, self.architecture@),
            ]),
    {
        let entries = vec![
            str_field("name", &self.name),
            str_field("release", &self.release),
            str_field("architecture", &self.architecture),
        ];
        proof {
            lemma_object_view(entries);
            assert(entries@.map_values(|e: (String, Json)| (e.0@, e.1@)) =~= seq![
                str_entry("name"@, self.name@),
                str_entry("release"@, self.release@),
                str_entry("architecture"@, self.architecture@),
            ]);
        }
        Json::Object(entries)
    }
}

impl ServerInfo {
    /// The JSON form of this value; absent optional fields are left out.
    pub fn to_json(&self) -> (r: Json)
        ensures
            r@ == server_json(*self),
    {
        let mut entries = vec![str_field("ip", &self.ip), str_field("timezone", &self.timezone)];
        let ghost e0 = seq![str_entry("ip"@, self.ip@), str_entry("timezone"@, self.timezone@)];
        assert(entries@.map_values(|e: (String, Json)| (e.0@, e.1@)) =~= e0);
        push_opt(&mut entries, "software", &self.software);
        push_opt(&mut entries, "signature", &self.signature);
        let ghost e1 = e0 + opt_entry("software"@, self.software) + opt_entry(
            "signature"@,
            self.signature,
        );
        assert(entries@.map_values(|e: (String, Json)| (e.0@, e.1@)) =~= e1);
        let ghost before = entries@;
        entries.push(str_field("protocol", &self.protocol));
        let ghost e2 = e1 + seq![str_entry("protocol"@, self.protocol@)];
        assert(entries@ == before.push(entries@.last()));
        assert(entries@.map_values(|e: (String, Json)| (e.0@, e.1@)) =~= e2);
        push_opt(&mut entries, "encoding", &self.encoding);
        let ghost e3 = e2 + opt_entry("encoding"@, self.encoding);
        let ghost before_os = entries@;
        let os = self.os.to_json();
        entries.push(entry("os", os));
        proof {
            lemma_object_view(entries);
            assert(entries@ == before_os.push(entries@.last()));
            assert(entries@.map_values(|e: (String, Json)| (e.0@, e.1@)) =~= e3 + seq![
                ("os"@, os@),
            ]);
            assert(e3 + seq![("os"@, os@)] =~= server_json(*self)->Object_0);
        }
        Json::Object(entries)
    }
}

impl LanguageInfo {
    /// The JSON form of this value; absent optional fields are left out.
    pub fn to_json(&self) -> (r: Json)
        ensures
            r@ == language_json(*self),
    {
        let mut entries = vec![str_field("name", &self.name), str_field("version", &self.version)];
        push_opt(&mut entries, "expose_php", &self.expose_php);
        push_opt(&mut entries, "display_errors", &self.display_errors);
        proof {
            lemma_object_view(entries);
            assert(entries@.map_values(|e: (String, Json)| (e.0@, e.1@)) =~= language_json(
                *self,
            )->Object_0);
        }
        Json::Object(entries)
    }
}

/// A copy of a JSON value.
pub fn json_copy(j: &Json) -> (r: Json)
    ensures
        r@ == j@,
    decreases j,
{
    match j {
        Json::Null => Json::Null,
        Json::Bool(b) => Json::Bool(*b),
        Json::Number(n) => Json::Number(n.clone()),
        Json::Str(s) => Json::Str(s.clone()),
        Json::Array(items) => {
            let mut out: Vec<Json> = Vec::new();
            let mut i: usize = 0;
            while i < items.len()
                invariant
                    *j == Json::Array(*items),
                    i <= items.len(),
                    out.len() == i,
                    forall|k: int| 0 <= k < i ==> out@[k]@ == items@[k]@,
                decreases items.len() - i,
            {
                proof {
                    assert(decreases_to!(*j => j->Array_0));
                    assert(decreases_to!(*items => items[i as int]));
                }
                out.push(json_copy(&items[i]));
                i = i + 1;
            }
            let r = Json::Array(out);
            assert(r@->Array_0 =~= j@->Array_0);
            r
        },
        Json::Object(entries) => {
            let mut out: Vec<(String, Json)> = Vec::new();
            let mut i: usize = 0;
            while i < entries.len()
                invariant
                    *j == Json::Object(*entries),
                    i <= entries.len(),
                    out.len() == i,
                    forall|k: int|
                        0 <= k < i ==> out@[k].0@ == entries@[k].0@ && out@[k].1@
                            == entries@[k].1@,
                decreases entries.len() - i,
            {
                proof {
                    assert(decreases_to!(*j => j->Object_0));
                    assert(decreases_to!(*entries => entries[i as int]));
                    assert(decreases_to!(entries[i as int] => entries[i as int].1));
                }
                out.push((entries[i].0.clone(), json_copy(&entries[i].1)));
                i = i + 1;
            }
            let r = Json::Object(out);
            assert(r@->Object_0 =~= j@->Object_0);
            r
        },
    }
}

impl RequestInfo {
    /// The JSON form of this value.
    pub fn to_json(&self) -> (r: Json)
        ensures
            r@ == request_json(*self),
    {
        let entries = vec![
            str_field("timestamp", &self.timestamp),
            str_field("ip", &self.ip),
            str_field("url", &self.url),
            str_field("user_agent", &self.user_agent),
            str_field("method", &self.method),
            entry("headers", headers_to_json(&self.headers)),
            entry("body", json_copy(&self.body)),
        ];
        proof {
            lemma_object_view(entries);
            assert(entries@.map_values(|e: (String, Json)| (e.0@, e.1@)) =~= request_json(
                *self,
            )->Object_0);
        }
        Json::Object(entries)
    }
}

impl ResponseInfo {
    /// The JSON form of this value: the code and the size as strings, the
    /// load time as seconds.
    pub fn to_json(&self) -> (r: Json)
        ensures
            r@ == response_json(*self),
    {
        let code = u64_to_decimal(self.code as u64);
        let size = u64_to_decimal(self.size as u64);
        let entries = vec![
            entry("code", Json::Str(code)),
            entry("size", Json::Str(size)),
            entry("load_time", Json::Number(seconds_string(self.load_time_micros))),
            entry("headers", headers_to_json(&self.headers)),
            entry("body", json_copy(&self.body)),
        ];
        proof {
            lemma_object_view(entries);
            assert(entries@.map_values(|e: (String, Json)| (e.0@, e.1@)) =~= response_json(
                *self,
            )->Object_0);
        }
        Json::Object(entries)
    }
}

impl ErrorInfo {
    /// The JSON form of this value.
    pub fn to_json(&self) -> (r: Json)
        ensures
            r@ == error_json(*self),
    {
        let entries = vec![
            str_field("source", &self.source),
            str_field("error_type", &self.error_type),
            str_field("message", &self.message),
            str_field("file", &self.file),
            entry("line", Json::Number(u64_to_decimal(self.line as u64))),
        ];
        proof {
            lemma_object_view(entries);
            assert(entries@.map_values(|e: (String, Json)| (e.0@, e.1@)) =~= error_json(
                *self,
            )->Object_0);
        }
        Json::Object(entries)
    }
}

impl PayloadData {
    /// The JSON form of this value.
    pub fn to_json(&self) -> (r: Json)
        ensures
            r@ == data_json(*self),
    {
        let mut errors: Vec<Json> = Vec::new();
        let mut i: usize = 0;
        while i < self.errors.len()
            invariant
                i <= self.errors.len(),
                errors.len() == i,
                forall|k: int| 0 <= k < i ==> errors@[k]@ == error_json(self.errors@[k]),
            decreases self.errors.len() - i,
        {
            errors.push(self.errors[i].to_json());
            i = i + 1;
        }
        let errors_json = Json::Array(errors);
        assert(errors_json@ == JsonV::Array(self.errors@.map_values(|e: ErrorInfo| error_json(e)))) by {
            assert(errors_json@->Array_0 =~= self.errors@.map_values(|e: ErrorInfo| error_json(e)));
        }
        let entries = vec![
            entry("server", self.server.to_json()),
            entry("language", self.language.to_json()),
            entry("request", self.request.to_json()),
            entry("response", self.response.to_json()),
            entry("errors", errors_json),
        ];
        proof {
            lemma_object_view(entries);
            assert(entries@.map_values(|e: (String, Json)| (e.0@, e.1@)) =~= data_json(
                *self,
            )->Object_0);
        }
        Json::Object(entries)
    }
}

impl TrebllePayload {
    /// The JSON form of the whole record.
    pub fn to_json(&self) -> (r: Json)
        ensures
            r@ == payload_json(*self),
    {
        let entries = vec![
            str_field("api_key", &self.api_key),
            str_field("project_id", &self.project_id),
            entry("version", Json::Number(String::from_str("0.6"))),
            str_field("sdk", &self.sdk),
            entry("data", self.data.to_json()),
        ];
        proof {
            lemma_object_view(entries);
            assert(entries@.map_values(|e: (String, Json)| (e.0@, e.1@)) =~= payload_json(
                *self,
            )->Object_0);
        }
        Json::Object(entries)
    }
}

/// Ten to the power `k`.
pub open spec fn pow10(k: nat) -> nat
    decreases k,
{
    if k == 0 {
        1
    } else {
        10 * pow10((k - 1) as nat)
    }
}

/// Numbers below `10^k` have at most `k` digits.
proof fn lemma_decimal_len(n: nat, k: nat)
    requires
        1 <= k,
        n < pow10(k),
    ensures
        decimal(n).len() <= k,
    decreases n,
{
    if n >= 10 {
        if k == 1 {
            assert(pow10(1) == 10) by {
                assert(pow10(0) == 1);
            }
        }
        let p = pow10((k - 1) as nat);
        assert(n / 10 < p) by (nonlinear_arith)
            requires
                n < 10 * p,
        ;
        lemma_decimal_len(n / 10, (k - 1) as nat);
    }
}

} // verus!
