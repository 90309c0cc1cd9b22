//! The instruments endpoint: searchable instrument listings.

use vstd::prelude::*;

use crate::api::handled;
use crate::api::response_handler;
use crate::api::seq_decodes;
use crate::api::seq_decodes_to;
use crate::api::FromJson;
use crate::api::PaginationResponse;
use crate::data_client::DataClient;
use crate::error::Error;
use crate::http::HttpRequest;
use crate::http::HttpResponse;
use crate::http::Method;
use crate::json::opt_string;
use crate::json::req_bool;
use crate::json::req_string;
use crate::json::spec_list_docs;
use crate::json::spec_opt_string;
use crate::json::spec_req_bool;
use crate::json::spec_req_string;
use crate::json::JsonVal;
use crate::query::lemma_absent_param_skipped;
use crate::query::lemma_present_param_kept;
use crate::query::opt_pair;
use crate::query::present_pairs;
use crate::query::urlencoded_of;
use crate::query::QueryParam;

verus! {

/// One venue an instrument is traded at.
#[derive(Debug)]
pub struct InstrumentVenue {
    /// The venue's name.
    pub name: String,
    /// The venue's title.
    pub title: String,
    /// The venue's market identifier code.
    pub mic: String,
    /// Whether the venue is currently open.
    pub is_open: bool,
    /// Whether the instrument is tradable at this venue.
    pub tradable: bool,
    /// The currency the instrument trades in at this venue.
    pub currency: String,
}

/// The venue entry a document decodes to, when it has the expected shape.
pub open spec fn spec_instrument_venue(v: JsonVal) -> Option<InstrumentVenue> {
    if spec_req_string(v, "name"@) is Some && spec_req_string(v, "title"@) is Some && spec_req_string(v, "mic"@) is Some && spec_req_bool(v, "is_open"@) is Some && spec_req_bool(v, "tradable"@) is Some && spec_req_string(v, "currency"@) is Some {
        Some(
            InstrumentVenue {
                name: spec_req_string(v, "name"@)->Some_0,
                title: spec_req_string(v, "title"@)->Some_0,
                mic: spec_req_string(v, "mic"@)->Some_0,
                is_open: spec_req_bool(v, "is_open"@)->Some_0,
                tradable: spec_req_bool(v, "tradable"@)->Some_0,
                currency: spec_req_string(v, "currency"@)->Some_0,
            },
        )
    } else {
        None
    }
}

impl FromJson for InstrumentVenue {
    open spec fn decode_rel(v: JsonVal, r: Option<InstrumentVenue>) -> bool {
        r == spec_instrument_venue(v)
    }

    proof fn lemma_decode_exclusive(v: JsonVal, t: InstrumentVenue) {
    }

    fn from_json(v: &JsonVal) -> Option<InstrumentVenue> {
        let name = match req_string(v, "name") {
            Some(x) => x,
            None => {
                return None;
            },
        };
        let title = match req_string(v, "title") {
            Some(x) => x,
            None => {
                return None;
            },
        };
        let mic = match req_string(v, "mic") {
            Some(x) => x,
            None => {
                return None;
            },
        };
        let is_open = match req_bool(v, "is_open") {
            Some(x) => x,
            None => {
                return None;
            },
        };
        let tradable = match req_bool(v, "tradable") {
            Some(x) => x,
            None => {
                return None;
            },
        };
        let currency = match req_string(v, "currency") {
            Some(x) => x,
            None => {
                return None;
            },
        };
        Some(
            InstrumentVenue {
                name,
                title,
                mic,
                is_open,
                tradable,
                currency,
            },
        )
    }
}

/// One instrument as the search lists it.
#[derive(Debug)]
pub struct InstrumentInfo {
    /// The instrument's ISIN.
    pub isin: Option<String>,
    /// The instrument's WKN.
    pub wkn: Option<String>,
    /// The instrument's name.
    pub name: Option<String>,
    /// The instrument's title.
    pub title: Option<String>,
    /// The instrument's ticker symbol.
    pub symbol: Option<String>,
    /// The kind of instrument, sent as `type` on the wire.
    pub instrument_type: Option<String>,
    /// The venues the instrument is traded at.
    pub venues: Option<Vec<InstrumentVenue>>,
}

/// Whether a document has the instrument's shape, every listed venue
/// included.
pub open spec fn instrument_info_decodes(v: JsonVal) -> bool {
    &&& spec_opt_string(v, "isin"@) is Some
    &&& spec_opt_string(v, "wkn"@) is Some
    &&& spec_opt_string(v, "name"@) is Some
    &&& spec_opt_string(v, "title"@) is Some
    &&& spec_opt_string(v, "symbol"@) is Some
    &&& spec_opt_string(v, "type"@) is Some
    &&& (match spec_list_docs(v, "venues"@) {
        Some(None) => true,
        Some(Some(docs)) => seq_decodes::<InstrumentVenue>(docs),
        None => false,
    })
}

impl FromJson for InstrumentInfo {
    /// The plain fields are pinned by the field readers; the venues, when
    /// a list is sent, element-wise by the venue decode.
    open spec fn decode_rel(v: JsonVal, r: Option<InstrumentInfo>) -> bool {
        match r {
            None => !instrument_info_decodes(v),
            Some(p) => {
                &&& instrument_info_decodes(v)
                &&& Some(p.isin) == spec_opt_string(v, "isin"@)
                &&& Some(p.wkn) == spec_opt_string(v, "wkn"@)
                &&& Some(p.name) == spec_opt_string(v, "name"@)
                &&& Some(p.title) == spec_opt_string(v, "title"@)
                &&& Some(p.symbol) == spec_opt_string(v, "symbol"@)
                &&& Some(p.instrument_type) == spec_opt_string(v, "type"@)
                &&& (match spec_list_docs(v, "venues"@) {
                    Some(None) => p.venues is None,
                    Some(Some(docs)) => (match p.venues {
                        Some(items) => seq_decodes_to::<InstrumentVenue>(docs, items@),
                        None => false,
                    }),
                    None => false,
                })
            },
        }
    }

    proof fn lemma_decode_exclusive(v: JsonVal, t: InstrumentInfo) {
    }

    #[verifier::loop_isolation(false)]
    fn from_json(v: &JsonVal) -> Option<InstrumentInfo> {
        let isin = match opt_string(v, "isin") {
            Some(x) => x,
            None => {
                return None;
            },
        };
        let wkn = match opt_string(v, "wkn") {
            Some(x) => x,
            None => {
                return None;
            },
        };
        let name = match opt_string(v, "name") {
            Some(x) => x,
            None => {
                return None;
            },
        };
        let title = match opt_string(v, "title") {
            Some(x) => x,
            None => {
                return None;
            },
        };
        let symbol = match opt_string(v, "symbol") {
            Some(x) => x,
            None => {
                return None;
            },
        };
        let instrument_type = match opt_string(v, "type") {
            Some(x) => x,
            None => {
                return None;
            },
        };
        let venues: Option<Vec<InstrumentVenue>> = match v.get("venues") {
            None => None,
            Some(f) => {
                match f {
                    JsonVal::Null => None,
                    JsonVal::Arr(docs) => {
                        let mut items: Vec<InstrumentVenue> = Vec::new();
                        let mut i: usize = 0;
                        while i < docs.len()
                            invariant
                                i <= docs@.len(),
                                items@.len() == i,
                                forall|j: int|
                                    0 <= j < i ==> #[trigger] InstrumentVenue::decode_rel(
                                        docs@[j],
                                        Some(items@[j]),
                                    ),
                                forall|j: int|
                                    0 <= j < i ==> !(#[trigger] InstrumentVenue::decode_rel(
                                        docs@[j],
                                        None,
                                    )),
                            decreases docs@.len() - i,
                        {
                            match InstrumentVenue::from_json(&docs[i]) {
                                Some(t) => {
                                    proof {
                                        InstrumentVenue::lemma_decode_exclusive(
                                            docs@[i as int],
                                            t,
                                        );
                                    }
                                    items.push(t);
                                },
                                None => {
                                    proof {
                                        assert(!seq_decodes::<InstrumentVenue>(docs@));
                                    }
                                    return None;
                                },
                            }
                            i = i + 1;
                        }
                        Some(items)
                    },
                    _ => {
                        return None;
                    },
                }
            },
        };
        Some(InstrumentInfo { isin, wkn, name, title, symbol, instrument_type, venues })
    }
}

/// The query pairs the instruments endpoint sends: `isin`, `search` and
/// `instrument_type`, each only when given.
pub open spec fn instruments_query(
    isin: Option<String>,
    search: Option<String>,
    instrument_type: Option<String>,
) -> Seq<(Seq<char>, Seq<char>)> {
    opt_pair(
        "isin"@,
        match isin {
            Some(s) => Some(s@),
            None => None,
        },
    ) + opt_pair(
        "search"@,
        match search {
            Some(s) => Some(s@),
            None => None,
        },
    ) + opt_pair(
        "instrument_type"@,
        match instrument_type {
            Some(s) => Some(s@),
            None => None,
        },
    )
}

impl DataClient {
    /// The request that searches the instrument listings.  Absent filters
    /// are left out of the query string entirely.
    pub fn instruments_request(
        &self,
        isin: Option<String>,
        search: Option<String>,
        instrument_type: Option<String>,
    ) -> (r: HttpRequest)
        ensures
            r.method == Method::Get,
            r.body is None,
            isin is None && search is None && instrument_type is None ==> r.url@ == self.base_url@
                + "instruments/"@,
            !(isin is None && search is None && instrument_type is None) ==> r.url@
                == self.base_url@ + "instruments/"@ + "?"@ + urlencoded_of(
                instruments_query(isin, search, instrument_type),
            ),
    {
        let ghost isin0 = isin;
        let ghost search0 = search;
        let ghost instrument_type0 = instrument_type;
        let mut query: Vec<QueryParam> = Vec::new();
        proof {
            assert(present_pairs(query@) =~= Seq::<(Seq<char>, Seq<char>)>::empty());
        }
        let p_isin = QueryParam::new("isin", isin);
        let ghost q0 = query@;
        query.push(p_isin);
        proof {
            if p_isin.value is Some {
                lemma_present_param_kept(q0, p_isin);
            } else {
                lemma_absent_param_skipped(q0, p_isin);
            }
        }
        let p_search = QueryParam::new("search", search);
        let ghost q1 = query@;
        query.push(p_search);
        proof {
            if p_search.value is Some {
                lemma_present_param_kept(q1, p_search);
            } else {
                lemma_absent_param_skipped(q1, p_search);
            }
        }
        let p_type = QueryParam::new("instrument_type", instrument_type);
        let ghost q2 = query@;
        query.push(p_type);
        proof {
            if p_type.value is Some {
                lemma_present_param_kept(q2, p_type);
            } else {
                lemma_absent_param_skipped(q2, p_type);
            }
            assert(present_pairs(query@) =~= instruments_query(isin0, search0, instrument_type0));
        }
        self.get_with_query("instruments/", &query)
    }

    /// Get a list of instruments: classify and decode the outcome of
    /// [`DataClient::instruments_request`].
    pub fn get_instruments(&self, outcome: Result<HttpResponse, String>) -> (r: Result<
        PaginationResponse<InstrumentInfo>,
        Error,
    >)
        ensures
            outcome matches Err(cause) ==> (r matches Err(e) && e matches Error::Transport(m)
                && m@ == cause@),
            outcome matches Ok(resp) ==> handled::<PaginationResponse<InstrumentInfo>>(resp.status, resp.body@, r),
    {
        response_handler::<PaginationResponse<InstrumentInfo>>(outcome)
    }
}

} // verus!
