//! Generic pieces shared by every endpoint: the trading mode, the uniform
//! response envelopes, the decoding of a response body, and the policy
//! that classifies an HTTP outcome into a payload or an error.

pub mod account;
pub mod market_data;
pub mod orders;
pub mod positions;

use vstd::prelude::*;
use vstd::string::StringExecFns;

use crate::error::spec_lemon_error;
use crate::error::Error;
use crate::error::LemonError;
use crate::http::HttpResponse;
use crate::json::field_of;
use crate::json::json_of;
use crate::json::parse_json;
use crate::json::req_i64;
use crate::json::req_string;
use crate::json::opt_string;
use crate::json::spec_opt_string;
use crate::json::spec_req_i64;
use crate::json::spec_req_string;
use crate::json::spec_list_docs;
use crate::json::JsonVal;
use crate::text::dec_nat;
use crate::text::str_eq;
use crate::text::u64_to_dec;

verus! {

/// Trading mode: the environment a request or response belongs to.
#[derive(Clone, Copy, Debug, PartialEq, Eq, Structural)]
pub enum Mode {
    /// Paper trading mode.
    Paper,
    /// Live trading mode.
    Live,
    /// Market data mode.
    MarketData,
}

/// The text of a mode on the wire.
pub open spec fn mode_name(m: Mode) -> Seq<char> {
    match m {
        Mode::Paper => "paper"@,
        Mode::Live => "live"@,
        Mode::MarketData => "market_data"@,
    }
}

/// The mode a wire text stands for.
pub open spec fn mode_of(s: Seq<char>) -> Option<Mode> {
    if s == "paper"@ {
        Some(Mode::Paper)
    } else if s == "live"@ {
        Some(Mode::Live)
    } else if s == "market_data"@ {
        Some(Mode::MarketData)
    } else {
        None
    }
}

impl Mode {
    /// The wire text of this mode.
    pub fn as_str(&self) -> (r: &'static str)
        ensures
            r@ == mode_name(*self),
    {
        match self {
            Mode::Paper => "paper",
            Mode::Live => "live",
            Mode::MarketData => "market_data",
        }
    }

    /// The mode named by a wire text, if it names one.
    pub fn from_wire(s: &str) -> (r: Option<Mode>)
        ensures
            r == mode_of(s@),
    {
        if str_eq(s, "paper") {
            Some(Mode::Paper)
        } else if str_eq(s, "live") {
            Some(Mode::Live)
        } else if str_eq(s, "market_data") {
            Some(Mode::MarketData)
        } else {
            None
        }
    }
}

/// Law: writing a mode and reading the text back gives the mode again.
pub proof fn lemma_mode_round_trip(m: Mode)
    ensures
        mode_of(mode_name(m)) == Some(m),
{
    reveal_strlit("paper");
    reveal_strlit("live");
    reveal_strlit("market_data");
    assert("paper"@.len() == 5);
    assert("live"@.len() == 4);
    assert("market_data"@.len() == 11);
    match m {
        Mode::Paper => assert(mode_of(mode_name(m)) == Some(m)),
        Mode::Live => assert(mode_of(mode_name(m)) == Some(m)),
        Mode::MarketData => assert(mode_of(mode_name(m)) == Some(m)),
    }
}

/// The mode named by a required string field.
pub open spec fn spec_req_mode(v: JsonVal, name: Seq<char>) -> Option<Mode> {
    match spec_req_string(v, name) {
        Some(s) => mode_of(s@),
        None => None,
    }
}

/// The mode named by an optional string field, read as
/// [`spec_opt_string`] is: absent or `null` stands for no value, and a
/// string naming no mode for a shape mismatch.
pub open spec fn spec_opt_mode(v: JsonVal, name: Seq<char>) -> Option<Option<Mode>> {
    match spec_opt_string(v, name) {
        Some(Some(s)) => (match mode_of(s@) {
            Some(m) => Some(Some(m)),
            None => None,
        }),
        Some(None) => Some(None),
        None => None,
    }
}

/// How a response payload is read out of a parsed JSON document.
pub trait FromJson: Sized {
    /// Whether `r` is what this type's decode gives for the document:
    /// `None` exactly when the document does not have the type's shape.
    spec fn decode_rel(v: JsonVal, r: Option<Self>) -> bool;

    /// Law: a document that decodes to a value does not also fail to
    /// decode.
    proof fn lemma_decode_exclusive(v: JsonVal, t: Self)
        requires
            Self::decode_rel(v, Some(t)),
        ensures
            !Self::decode_rel(v, None),
    ;

    /// Decode this type from a document.
    fn from_json(v: &JsonVal) -> (r: Option<Self>)
        ensures
            Self::decode_rel(*v, r),
    ;
}

/// Whether a sequence of documents decodes element-wise to these values.
pub open spec fn seq_decodes_to<T: FromJson>(docs: Seq<JsonVal>, items: Seq<T>) -> bool {
    &&& items.len() == docs.len()
    &&& forall|i: int|
        0 <= i < docs.len() ==> #[trigger] T::decode_rel(docs[i], Some(items[i]))
}

/// Whether every document of a sequence decodes as the element type.
pub open spec fn seq_decodes<T: FromJson>(docs: Seq<JsonVal>) -> bool {
    forall|i: int| 0 <= i < docs.len() ==> !(#[trigger] T::decode_rel(docs[i], None))
}

/// General response struct: the envelope fields alone, with no payload.
#[derive(Debug)]
pub struct Response {
    /// Timestamp of the request, as the service reported it.
    pub time: String,
    /// Environment the request was placed in.
    pub mode: Mode,
    /// Status of the request; the service sends `"ok"` on success.
    pub status: String,
}

impl Response {
    /// Whether the envelope's status field says `"ok"`.
    pub fn is_ok(&self) -> (r: bool)
        ensures
            r == (self.status@ == "ok"@),
    {
        str_eq(self.status.as_str(), "ok")
    }
}

/// The bare envelope a document decodes to, when it has the expected
/// shape.
pub open spec fn spec_response(v: JsonVal) -> Option<Response> {
    if spec_req_string(v, "time"@) is Some && spec_req_mode(v, "mode"@) is Some && spec_req_string(
        v,
        "status"@,
    ) is Some {
        Some(
            Response {
                time: spec_req_string(v, "time"@)->Some_0,
                mode: spec_req_mode(v, "mode"@)->Some_0,
                status: spec_req_string(v, "status"@)->Some_0,
            },
        )
    } else {
        None
    }
}

impl FromJson for Response {
    open spec fn decode_rel(v: JsonVal, r: Option<Response>) -> bool {
        r == spec_response(v)
    }

    proof fn lemma_decode_exclusive(v: JsonVal, t: Response) {
    }

    fn from_json(v: &JsonVal) -> Option<Response> {
        let time = match req_string(v, "time") {
            Some(s) => s,
            None => {
                return None;
            },
        };
        let mode = match req_string(v, "mode") {
            Some(s) => {
                match Mode::from_wire(s.as_str()) {
                    Some(m) => m,
                    None => {
                        return None;
                    },
                }
            },
            None => {
                return None;
            },
        };
        let status = match req_string(v, "status") {
            Some(s) => s,
            None => {
                return None;
            },
        };
        Some(Response { time, mode, status })
    }
}

/// Generic response struct: the envelope fields and an optional payload.
#[derive(Debug)]
pub struct GenericResponse<T> {
    /// Timestamp of the request, as the service reported it.
    pub time: String,
    /// Environment the request was placed in.
    pub mode: Mode,
    /// Status of the request; the service sends `"ok"` on success.
    pub status: String,
    /// The actual results of the query, when the service sent any.
    pub results: Option<T>,
}

impl<T> GenericResponse<T> {
    /// Whether the envelope's status field says `"ok"`.
    pub fn is_ok(&self) -> (r: bool)
        ensures
            r == (self.status@ == "ok"@),
    {
        str_eq(self.status.as_str(), "ok")
    }
}

/// Whether a document has the generic envelope's shape, its payload
/// (when present) included.
pub open spec fn generic_response_decodes<T: FromJson>(v: JsonVal) -> bool {
    &&& spec_req_string(v, "time"@) is Some
    &&& spec_req_mode(v, "mode"@) is Some
    &&& spec_req_string(v, "status"@) is Some
    &&& (match field_of(v, "results"@) {
        None => true,
        Some(JsonVal::Null) => true,
        Some(doc) => !T::decode_rel(doc, None),
    })
}

impl<T: FromJson> FromJson for GenericResponse<T> {
    /// The envelope fields are pinned by the field readers; the payload,
    /// when one is sent, by the payload type's own decode.
    open spec fn decode_rel(v: JsonVal, r: Option<GenericResponse<T>>) -> bool {
        match r {
            None => !generic_response_decodes::<T>(v),
            Some(p) => {
                &&& generic_response_decodes::<T>(v)
                &&& Some(p.time) == spec_req_string(v, "time"@)
                &&& Some(p.mode) == spec_req_mode(v, "mode"@)
                &&& Some(p.status) == spec_req_string(v, "status"@)
                &&& (match field_of(v, "results"@) {
                    None => p.results is None,
                    Some(JsonVal::Null) => p.results is None,
                    Some(doc) => (match p.results {
                        Some(t) => T::decode_rel(doc, Some(t)),
                        None => false,
                    }),
                })
            },
        }
    }

    proof fn lemma_decode_exclusive(v: JsonVal, t: GenericResponse<T>) {
    }

    fn from_json(v: &JsonVal) -> Option<GenericResponse<T>> {
        let time = match req_string(v, "time") {
            Some(s) => s,
            None => {
                return None;
            },
        };
        let mode = match req_string(v, "mode") {
            Some(s) => {
                match Mode::from_wire(s.as_str()) {
                    Some(m) => m,
                    None => {
                        return None;
                    },
                }
            },
            None => {
                return None;
            },
        };
        let status = match req_string(v, "status") {
            Some(s) => s,
            None => {
                return None;
            },
        };
        let results: Option<T> = match v.get("results") {
            None => None,
            Some(f) => {
                match f {
                    JsonVal::Null => None,
                    _ => {
                        match T::from_json(f) {
                            Some(t) => {
                                proof {
                                    T::lemma_decode_exclusive(*f, t);
                                }
                                Some(t)
                            },
                            None => {
                                return None;
                            },
                        }
                    },
                }
            },
        };
        Some(GenericResponse { time, mode, status, results })
    }
}

/// Generic struct for endpoints that return pagination information
/// alongside their data.  `page` is 1-indexed; `previous` and `next` are
/// opaque continuation links that are returned, never followed.
#[derive(Debug)]
pub struct PaginationResponse<T> {
    /// Timestamp of the request, as the service reported it.
    pub time: String,
    /// Status of the request; the service sends `"ok"` on success.
    pub status: Option<String>,
    /// Environment the request was placed in.
    pub mode: Option<Mode>,
    /// The actual results of the query, when the service sent any.
    pub results: Option<Vec<T>>,
    /// The URL of the previous page of results.
    pub previous: Option<String>,
    /// The URL of the next page of results.
    pub next: Option<String>,
    /// The total number of results available.
    pub total: i64,
    /// The current page number.
    pub page: i64,
    /// The total number of pages.
    pub pages: i64,
}

impl<T> PaginationResponse<T> {
    /// Whether the envelope's status field is present and says `"ok"`.
    pub fn is_ok(&self) -> (r: bool)
        ensures
            r == (self.status matches Some(s) && s@ == "ok"@),
    {
        match &self.status {
            Some(s) => str_eq(s.as_str(), "ok"),
            None => false,
        }
    }

    /// The number of results in this page.
    pub fn result_count(&self) -> (r: usize)
        ensures
            self.results matches Some(items) ==> r == items@.len(),
            self.results is None ==> r == 0,
    {
        match &self.results {
            Some(items) => items.len(),
            None => 0,
        }
    }

    /// The invariants the service documents for a page: pages are
    /// 1-indexed, and a total of zero comes with no results.
    pub open spec fn is_consistent(self) -> bool {
        &&& self.page >= 1
        &&& (self.total == 0 ==> (match self.results {
            Some(items) => items@.len() == 0,
            None => true,
        }))
    }

    /// Whether this page satisfies the documented pagination invariants.
    /// The service owes them; a caller that relies on them checks here.
    pub fn check_consistent(&self) -> (r: bool)
        ensures
            r == self.is_consistent(),
    {
        if self.page < 1 {
            return false;
        }
        if self.total == 0 {
            match &self.results {
                Some(items) => items.len() == 0,
                None => true,
            }
        } else {
            true
        }
    }
}

/// Whether a document has the pagination envelope's shape, every listed
/// result included.
pub open spec fn pagination_decodes<T: FromJson>(v: JsonVal) -> bool {
    &&& spec_req_string(v, "time"@) is Some
    &&& spec_opt_string(v, "status"@) is Some
    &&& spec_opt_mode(v, "mode"@) is Some
    &&& spec_opt_string(v, "previous"@) is Some
    &&& spec_opt_string(v, "next"@) is Some
    &&& spec_req_i64(v, "total"@) is Some
    &&& spec_req_i64(v, "page"@) is Some
    &&& spec_req_i64(v, "pages"@) is Some
    &&& (match spec_list_docs(v, "results"@) {
        Some(None) => true,
        Some(Some(docs)) => seq_decodes::<T>(docs),
        None => false,
    })
}

impl<T: FromJson> FromJson for PaginationResponse<T> {
    /// The envelope fields are pinned by the field readers; the results,
    /// when a list is sent, element-wise by the element type's decode.
    open spec fn decode_rel(v: JsonVal, r: Option<PaginationResponse<T>>) -> bool {
        match r {
            None => !pagination_decodes::<T>(v),
            Some(p) => {
                &&& pagination_decodes::<T>(v)
                &&& Some(p.time) == spec_req_string(v, "time"@)
                &&& Some(p.status) == spec_opt_string(v, "status"@)
                &&& Some(p.mode) == spec_opt_mode(v, "mode"@)
                &&& Some(p.previous) == spec_opt_string(v, "previous"@)
                &&& Some(p.next) == spec_opt_string(v, "next"@)
                &&& Some(p.total) == spec_req_i64(v, "total"@)
                &&& Some(p.page) == spec_req_i64(v, "page"@)
                &&& Some(p.pages) == spec_req_i64(v, "pages"@)
                &&& (match spec_list_docs(v, "results"@) {
                    Some(None) => p.results is None,
                    Some(Some(docs)) => (match p.results {
                        Some(items) => seq_decodes_to::<T>(docs, items@),
                        None => false,
                    }),
                    None => false,
                })
            },
        }
    }

    proof fn lemma_decode_exclusive(v: JsonVal, t: PaginationResponse<T>) {
    }

    #[verifier::loop_isolation(false)]
    fn from_json(v: &JsonVal) -> Option<PaginationResponse<T>> {
        let time = match req_string(v, "time") {
            Some(s) => s,
            None => {
                return None;
            },
        };
        let status = match opt_string(v, "status") {
            Some(s) => s,
            None => {
                return None;
            },
        };
        let mode: Option<Mode> = match opt_string(v, "mode") {
            Some(Some(s)) => {
                match Mode::from_wire(s.as_str()) {
                    Some(m) => Some(m),
                    None => {
                        return None;
                    },
                }
            },
            Some(None) => None,
            None => {
                return None;
            },
        };
        let results: Option<Vec<T>> = match v.get("results") {
            None => None,
            Some(f) => {
                match f {
                    JsonVal::Null => None,
                    JsonVal::Arr(docs) => {
                        let mut items: Vec<T> = Vec::new();
                        let mut i: usize = 0;
                        while i < docs.len()
                            invariant
                                i <= docs@.len(),
                                items@.len() == i,
                                forall|j: int|
                                    0 <= j < i ==> #[trigger] T::decode_rel(
                                        docs@[j],
                                        Some(items@[j]),
                                    ),
                                forall|j: int|
                                    0 <= j < i ==> !(#[trigger] T::decode_rel(docs@[j], None)),
                            decreases docs@.len() - i,
                        {
                            match T::from_json(&docs[i]) {
                                Some(t) => {
                                    proof {
                                        T::lemma_decode_exclusive(docs@[i as int], t);
                                    }
                                    items.push(t);
                                },
                                None => {
                                    proof {
                                        assert(!seq_decodes::<T>(docs@));
                                    }
                                    return None;
                                },
                            }
                            i = i + 1;
                        }
                        Some(items)
                    },
                    _ => {
                        return None;
                    },
                }
            },
        };
        let previous = match opt_string(v, "previous") {
            Some(s) => s,
            None => {
                return None;
            },
        };
        let next = match opt_string(v, "next") {
            Some(s) => s,
            None => {
                return None;
            },
        };
        let total = match req_i64(v, "total") {
            Some(n) => n,
            None => {
                return None;
            },
        };
        let page = match req_i64(v, "page") {
            Some(n) => n,
            None => {
                return None;
            },
        };
        let pages = match req_i64(v, "pages") {
            Some(n) => n,
            None => {
                return None;
            },
        };
        Some(PaginationResponse { time, status, mode, results, previous, next, total, page, pages })
    }
}

/// The text carried by a decode error.
pub open spec fn decode_error_text() -> Seq<char> {
    "response body did not match the expected shape"@
}

/// Whether an error value is the decode failure.
pub open spec fn is_decode_failure(e: Error) -> bool {
    match e {
        Error::Decode(m) => m@ == decode_error_text(),
        _ => false,
    }
}

/// Whether an error value is the bare transport error carrying a status
/// code as text.
pub open spec fn is_status_transport(e: Error, status: u16) -> bool {
    match e {
        Error::Transport(m) => m@ == dec_nat(status as nat),
        _ => false,
    }
}

/// The error payload a body text decodes to, when it parses as JSON of
/// the error shape.
pub open spec fn decoded_error(body: Seq<char>) -> Option<LemonError> {
    match json_of(body) {
        Some(doc) => spec_lemon_error(doc),
        None => None,
    }
}

/// What the uniform response handling returns for a given status and body.
///
/// On a 200 status the body's decode as the payload type fixes the result:
/// the decoded value, or the decode error when the body is not JSON or not
/// of the payload's shape.  On any other status the body's decode as the
/// error payload fixes it: the remote error carrying that payload's code,
/// message and the original status, or the bare transport error carrying
/// just the status code as text.
pub open spec fn handled<T: FromJson>(status: u16, body: Seq<char>, r: Result<T, Error>) -> bool {
    if status == 200 {
        match json_of(body) {
            Some(doc) => (match r {
                Ok(p) => T::decode_rel(doc, Some(p)),
                Err(e) => T::decode_rel(doc, None) && is_decode_failure(e),
            }),
            None => (match r {
                Ok(_) => false,
                Err(e) => is_decode_failure(e),
            }),
        }
    } else {
        match decoded_error(body) {
            Some(le) => r == Err::<T, Error>(
                (Error::Remote {
                    status,
                    error_code: le.error_code,
                    error_message: le.error_message,
                }),
            ),
            None => (match r {
                Ok(_) => false,
                Err(e) => is_status_transport(e, status),
            }),
        }
    }
}

/// The uniform classification policy, over the decode outcomes.
///
/// A 200 status with a decoded payload is a success carrying exactly that
/// payload; a 200 status whose body did not decode is a decode error.  Any
/// other status with a structured error payload is a remote error carrying
/// that payload's code and message and the original status; without one it
/// is a transport error carrying just the status code as text.  A non-200
/// status is never a decode error.
pub fn classify<T>(status: u16, payload: Option<T>, error_payload: Option<LemonError>) -> (r:
    Result<T, Error>)
    ensures
        payload matches Some(p) ==> (status == 200 ==> r == Ok::<T, Error>(p)),
        status == 200 && payload is None ==> (r matches Err(e) && e matches Error::Decode(m) && m@
            == decode_error_text()),
        error_payload matches Some(le) ==> (status != 200 ==> r == Err::<T, Error>(
            (Error::Remote {
                status,
                error_code: le.error_code,
                error_message: le.error_message,
            }),
        )),
        status != 200 && error_payload is None ==> (r matches Err(e) && e matches Error::Transport(
            m,
        ) && m@ == dec_nat(status as nat)),
        status != 200 ==> (r matches Err(e) && !(e is Decode)),
{
    if status == 200 {
        match payload {
            Some(t) => Ok(t),
            None => Err(
                Error::Decode(String::from_str("response body did not match the expected shape")),
            ),
        }
    } else {
        match error_payload {
            Some(le) => Err(
                Error::Remote {
                    status,
                    error_code: le.error_code,
                    error_message: le.error_message,
                },
            ),
            None => Err(Error::Transport(u64_to_dec(status as u64))),
        }
    }
}

/// Crate-wide handling of one exchange's outcome.
///
/// A transport failure is surfaced before any status logic runs, carrying
/// its cause.  Otherwise the result is exactly what [`handled`] fixes for
/// the status and body: on 200 the body is decoded as the expected
/// payload, on any other status only ever as the service's error shape —
/// a non-200 outcome is never a decode error.
pub fn response_handler<T: FromJson>(outcome: Result<HttpResponse, String>) -> (r: Result<
    T,
    Error,
>)
    ensures
        outcome matches Err(cause) ==> (r matches Err(e) && e matches Error::Transport(m) && m@
            == cause@),
        outcome matches Ok(resp) ==> handled::<T>(resp.status, resp.body@, r),
        outcome matches Ok(resp) && resp.status != 200 ==> (r matches Err(e) && !(e is Decode)),
{
    match outcome {
        Err(cause) => Err(Error::Transport(cause)),
        Ok(resp) => {
            if resp.status == 200 {
                let payload: Option<T> = match parse_json(resp.body.as_str()) {
                    Some(doc) => T::from_json(&doc),
                    None => None,
                };
                classify::<T>(resp.status, payload, None)
            } else {
                let error_payload: Option<LemonError> = match parse_json(resp.body.as_str()) {
                    Some(doc) => LemonError::from_json(&doc),
                    None => None,
                };
                classify::<T>(resp.status, None, error_payload)
            }
        },
    }
}

} // verus!
