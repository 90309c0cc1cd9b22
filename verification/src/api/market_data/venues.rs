//! The venues endpoint: the market venues and their opening times.

use vstd::prelude::*;

use crate::api::handled;
use crate::api::response_handler;
use crate::api::FromJson;
use crate::api::PaginationResponse;
use crate::data_client::DataClient;
use crate::error::Error;
use crate::http::HttpRequest;
use crate::http::HttpResponse;
use crate::http::Method;
use crate::json::field_of;
use crate::json::req_bool;
use crate::json::req_string;
use crate::json::spec_req_bool;
use crate::json::spec_req_string;
use crate::json::JsonVal;

verus! {

/// The daily opening hours of a venue.
#[derive(Debug)]
pub struct OpeningHours {
    /// When the venue opens.
    pub start: String,
    /// When the venue closes.
    pub end: String,
    /// The time zone the hours are given in.
    pub timezone: String,
}

/// The opening hours a document decodes to, when it has the expected shape.
pub open spec fn spec_opening_hours(v: JsonVal) -> Option<OpeningHours> {
    if spec_req_string(v, "start"@) is Some && spec_req_string(v, "end"@) is Some && spec_req_string(v, "timezone"@) is Some {
        Some(
            OpeningHours {
                start: spec_req_string(v, "start"@)->Some_0,
                end: spec_req_string(v, "end"@)->Some_0,
                timezone: spec_req_string(v, "timezone"@)->Some_0,
            },
        )
    } else {
        None
    }
}

impl FromJson for OpeningHours {
    open spec fn decode_rel(v: JsonVal, r: Option<OpeningHours>) -> bool {
        r == spec_opening_hours(v)
    }

    proof fn lemma_decode_exclusive(v: JsonVal, t: OpeningHours) {
    }

    fn from_json(v: &JsonVal) -> Option<OpeningHours> {
        let start = match req_string(v, "start") {
            Some(x) => x,
            None => {
                return None;
            },
        };
        let end = match req_string(v, "end") {
            Some(x) => x,
            None => {
                return None;
            },
        };
        let timezone = match req_string(v, "timezone") {
            Some(x) => x,
            None => {
                return None;
            },
        };
        Some(
            OpeningHours {
                start,
                end,
                timezone,
            },
        )
    }
}

/// One market venue.
#[derive(Debug)]
pub struct VenueData {
    /// The venue's name.
    pub name: String,
    /// The venue's title.
    pub title: String,
    /// The venue's market identifier code.
    pub mic: String,
    /// Whether the venue is currently open.
    pub is_open: bool,
    /// The venue's daily opening hours.
    pub opening_hours: OpeningHours,
    /// The days the venue opens on, as dates.
    pub opening_days: Vec<String>,
}

/// The documents under `opening_days`: the field is required and must be
/// a list.
pub open spec fn spec_opening_days(v: JsonVal) -> Option<Seq<JsonVal>> {
    match field_of(v, "opening_days"@) {
        Some(JsonVal::Arr(items)) => Some(items@),
        _ => None,
    }
}

/// Whether every document of a sequence is a JSON string.
pub open spec fn texts_decode(docs: Seq<JsonVal>) -> bool {
    forall|i: int| 0 <= i < docs.len() ==> (#[trigger] docs[i]) is Text
}

/// Whether a sequence of documents is exactly these texts.
pub open spec fn texts_decode_to(docs: Seq<JsonVal>, days: Seq<String>) -> bool {
    &&& days.len() == docs.len()
    &&& forall|i: int| 0 <= i < docs.len() ==> (#[trigger] docs[i]) == JsonVal::Text(days[i])
}

/// Whether a document has the venue's shape, its opening hours and every
/// opening day included.
pub open spec fn venue_data_decodes(v: JsonVal) -> bool {
    &&& spec_req_string(v, "name"@) is Some
    &&& spec_req_string(v, "title"@) is Some
    &&& spec_req_string(v, "mic"@) is Some
    &&& spec_req_bool(v, "is_open"@) is Some
    &&& (match field_of(v, "opening_hours"@) {
        Some(doc) => spec_opening_hours(doc) is Some,
        None => false,
    })
    &&& (match spec_opening_days(v) {
        Some(docs) => texts_decode(docs),
        None => false,
    })
}

impl FromJson for VenueData {
    /// The plain fields and the opening hours are pinned by their
    /// readers; the opening days element-wise as texts.
    open spec fn decode_rel(v: JsonVal, r: Option<VenueData>) -> bool {
        match r {
            None => !venue_data_decodes(v),
            Some(w) => {
                &&& venue_data_decodes(v)
                &&& Some(w.name) == spec_req_string(v, "name"@)
                &&& Some(w.title) == spec_req_string(v, "title"@)
                &&& Some(w.mic) == spec_req_string(v, "mic"@)
                &&& Some(w.is_open) == spec_req_bool(v, "is_open"@)
                &&& (match field_of(v, "opening_hours"@) {
                    Some(doc) => Some(w.opening_hours) == spec_opening_hours(doc),
                    None => false,
                })
                &&& (match spec_opening_days(v) {
                    Some(docs) => texts_decode_to(docs, w.opening_days@),
                    None => false,
                })
            },
        }
    }

    proof fn lemma_decode_exclusive(v: JsonVal, t: VenueData) {
    }

    #[verifier::loop_isolation(false)]
    fn from_json(v: &JsonVal) -> Option<VenueData> {
        let name = match req_string(v, "name") {
            Some(s) => s,
            None => {
                return None;
            },
        };
        let title = match req_string(v, "title") {
            Some(s) => s,
            None => {
                return None;
            },
        };
        let mic = match req_string(v, "mic") {
            Some(s) => s,
            None => {
                return None;
            },
        };
        let is_open = match req_bool(v, "is_open") {
            Some(b) => b,
            None => {
                return None;
            },
        };
        let opening_hours = match v.get("opening_hours") {
            Some(f) => {
                match OpeningHours::from_json(f) {
                    Some(h) => h,
                    None => {
                        return None;
                    },
                }
            },
            None => {
                return None;
            },
        };
        let opening_days: Vec<String> = match v.get("opening_days") {
            Some(f) => {
                match f {
                    JsonVal::Arr(docs) => {
                        let mut days: Vec<String> = Vec::new();
                        let mut i: usize = 0;
                        while i < docs.len()
                            invariant
                                i <= docs@.len(),
                                days@.len() == i,
                                forall|j: int|
                                    0 <= j < i ==> (#[trigger] docs@[j]) == JsonVal::Text(
                                        days@[j],
                                    ),
                            decreases docs@.len() - i,
                        {
                            match &docs[i] {
                                JsonVal::Text(s) => {
                                    days.push(s.clone());
                                },
                                _ => {
                                    proof {
                                        assert(!texts_decode(docs@));
                                    }
                                    return None;
                                },
                            }
                            i = i + 1;
                        }
                        days
                    },
                    _ => {
                        return None;
                    },
                }
            },
            None => {
                return None;
            },
        };
        Some(VenueData { name, title, mic, is_open, opening_hours, opening_days })
    }
}

impl DataClient {
    /// The request that lists the venues.
    pub fn venues_request(&self) -> (r: HttpRequest)
        ensures
            r.method == Method::Get,
            r.url@ == self.base_url@ + "venues/"@,
            r.body is None,
    {
        self.get("venues/")
    }

    /// Get a list of venues: classify and decode the outcome of
    /// [`DataClient::venues_request`].
    pub fn get_venues(&self, outcome: Result<HttpResponse, String>) -> (r: Result<
        PaginationResponse<VenueData>,
        Error,
    >)
        ensures
            outcome matches Err(cause) ==> (r matches Err(e) && e matches Error::Transport(m)
                && m@ == cause@),
            outcome matches Ok(resp) ==> handled::<PaginationResponse<VenueData>>(resp.status, resp.body@, r),
    {
        response_handler::<PaginationResponse<VenueData>>(outcome)
    }
}

} // verus!
