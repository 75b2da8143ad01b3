//! The vector database's side of a search: where requests go, and how the
//! points it returns become search results.
use vstd::prelude::*;
use vstd::string::*;

use crate::http::{HttpReply, ServiceError};
use crate::models::SearchResult;
use crate::numeric::{decimal, decimal_chars};
use crate::payload::{Payload, PayloadValue};

verus! {

/// One point of a search reply: its id, its score (the bit pattern of an
/// `f32`) and its payload.
pub struct QdrantScoredPoint {
    pub id: u64,
    pub score_bits: u32,
    pub payload: Payload,
}

/// The fields of a search result, as plain values.
pub struct SearchResultView {
    pub id: u64,
    pub score_bits: u32,
    pub text: Seq<char>,
    pub source_file: Seq<char>,
    pub collection: Seq<char>,
}

impl View for SearchResult {
    type V = SearchResultView;

    open spec fn view(&self) -> SearchResultView {
        SearchResultView {
            id: self.id,
            score_bits: self.score_bits,
            text: self.text@,
            source_file: self.source_file@,
            collection: self.collection@,
        }
    }
}

/// The search parameters sent with a query vector: how many points to
/// return, that their payloads are wanted, and the lowest score (left out
/// when unset; the bit pattern of an `f32`).
pub struct QdrantSearchRequest {
    pub limit: u64,
    pub with_payload: bool,
    pub score_threshold_bits: Option<u32>,
}

/// Where a collection of the vector database is reached.
pub struct QdrantClient {
    pub base_url: String,
    pub collection_name: String,
}

/// The base address of the server at `host` and `port`.
pub open spec fn spec_base_url(host: Seq<char>, port: u16) -> Seq<char> {
    "http://"@ + host + ":"@ + decimal_chars(port as nat)
}

/// The address of the search endpoint of a collection.
pub open spec fn spec_search_url(base_url: Seq<char>, collection_name: Seq<char>) -> Seq<char> {
    base_url + "/collections/"@ + collection_name + "/points/search"@
}

/// The text of a payload field that holds a string, or `default` where the
/// field is missing or holds another kind of value.
pub open spec fn payload_text(
    payload: Map<Seq<char>, Option<Seq<char>>>,
    key: Seq<char>,
    default: Seq<char>,
) -> Seq<char> {
    if payload.dom().contains(key) && payload[key] is Some {
        payload[key]->0
    } else {
        default
    }
}

/// The search result that a point stands for, found in the collection
/// `collection_name`: id and score as given; text, source file and collection
/// from the payload, defaulting to the empty text, `unknown`, and the
/// collection searched.
pub open spec fn spec_parse_point(
    collection_name: Seq<char>,
    id: u64,
    score_bits: u32,
    payload: Map<Seq<char>, Option<Seq<char>>>,
) -> SearchResultView {
    SearchResultView {
        id,
        score_bits,
        text: payload_text(payload, "text"@, Seq::empty()),
        source_file: payload_text(payload, "source_file"@, "unknown"@),
        collection: payload_text(payload, "collection"@, collection_name),
    }
}

/// A search result keeps the point's id and score, and each of its text,
/// source file and collection is the payload's string under that name, in
/// full, when there is one, and otherwise the empty text, `unknown`, and the
/// collection searched.
pub proof fn lemma_point_fields_copied(
    collection_name: Seq<char>,
    id: u64,
    score_bits: u32,
    payload: Map<Seq<char>, Option<Seq<char>>>,
)
    ensures
        spec_parse_point(collection_name, id, score_bits, payload).id == id,
        spec_parse_point(collection_name, id, score_bits, payload).score_bits == score_bits,
        forall|t: Seq<char>|
            payload.dom().contains("text"@) && payload["text"@] == Some(t) ==> #[trigger] spec_parse_point(
                collection_name,
                id,
                score_bits,
                payload,
            ).text == t,
        !(payload.dom().contains("text"@) && payload["text"@] is Some) ==> spec_parse_point(
            collection_name,
            id,
            score_bits,
            payload,
        ).text.len() == 0,
        forall|t: Seq<char>|
            payload.dom().contains("source_file"@) && payload["source_file"@] == Some(t)
                ==> #[trigger] spec_parse_point(collection_name, id, score_bits, payload).source_file
                == t,
        !(payload.dom().contains("source_file"@) && payload["source_file"@] is Some)
            ==> spec_parse_point(collection_name, id, score_bits, payload).source_file
            == "unknown"@,
        forall|t: Seq<char>|
            payload.dom().contains("collection"@) && payload["collection"@] == Some(t)
                ==> #[trigger] spec_parse_point(collection_name, id, score_bits, payload).collection
                == t,
        !(payload.dom().contains("collection"@) && payload["collection"@] is Some)
            ==> spec_parse_point(collection_name, id, score_bits, payload).collection
            == collection_name,
{
}

/// Reads the text of a payload field, or gives `default`.
fn field_text(payload: &Payload, key: &str, default: String) -> (text: String)
    ensures
        text@ == payload_text(payload@, key@, default@),
{
    let key = String::from_str(key);
    match payload.get(&key) {
        Some(PayloadValue::Text(s)) => s.clone(),
        _ => default,
    }
}

impl QdrantClient {
    /// The client of collection `collection_name` on the server at `host`
    /// and `port`, reached over plain HTTP.
    pub fn new(host: &str, port: u16, collection_name: &str) -> (client: QdrantClient)
        ensures
            client.base_url@ == spec_base_url(host@, port),
            client.collection_name@ == collection_name@,
    {
        let mut base_url = String::from_str("http://");
        base_url.append(host);
        base_url.append(":");
        let port_text = decimal(port as u64);
        base_url.append(port_text.as_str());
        QdrantClient { base_url, collection_name: String::from_str(collection_name) }
    }

    /// The address that search requests are posted to.
    pub fn search_url(&self) -> (url: String)
        ensures
            url@ == spec_search_url(self.base_url@, self.collection_name@),
    {
        let mut url = self.base_url.clone();
        url.append("/collections/");
        url.append(self.collection_name.as_str());
        url.append("/points/search");
        url
    }

    /// The parameters of a search for at most `limit` points scored at least
    /// the threshold, if one is given; payloads are always asked for.
    pub fn search_request(limit: u64, score_threshold_bits: Option<u32>) -> (request: QdrantSearchRequest)
        ensures
            request.limit == limit,
            request.with_payload,
            request.score_threshold_bits == score_threshold_bits,
    {
        QdrantSearchRequest { limit, with_payload: true, score_threshold_bits }
    }

    /// The search result that one point of a reply stands for.
    pub fn parse_scored_point(&self, point: &QdrantScoredPoint) -> (result: SearchResult)
        ensures
            result@ == spec_parse_point(
                self.collection_name@,
                point.id,
                point.score_bits,
                point.payload@,
            ),
            result.id == point.id,
            result.score_bits == point.score_bits,
            point.payload@.dom().contains("text"@) && point.payload@["text"@] is Some
                ==> result.text@ == point.payload@["text"@]->0,
            !(point.payload@.dom().contains("text"@) && point.payload@["text"@] is Some)
                ==> result.text@.len() == 0,
            point.payload@.dom().contains("source_file"@) && point.payload@["source_file"@] is Some
                ==> result.source_file@ == point.payload@["source_file"@]->0,
            !(point.payload@.dom().contains("source_file"@) && point.payload@["source_file"@] is Some)
                ==> result.source_file@ == "unknown"@,
            point.payload@.dom().contains("collection"@) && point.payload@["collection"@] is Some
                ==> result.collection@ == point.payload@["collection"@]->0,
            !(point.payload@.dom().contains("collection"@) && point.payload@["collection"@] is Some)
                ==> result.collection@ == self.collection_name@,
    {
        proof {
            lemma_point_fields_copied(self.collection_name@, point.id, point.score_bits, point.payload@);
        }
        let text = field_text(&point.payload, "text", String::new());
        let source_file = field_text(&point.payload, "source_file", String::from_str("unknown"));
        let collection = field_text(&point.payload, "collection", self.collection_name.clone());
        SearchResult { id: point.id, score_bits: point.score_bits, text, source_file, collection }
    }

    /// Completes a search with the server's reply: a refused request is an
    /// error that keeps the status and the body; otherwise each point, in
    /// order, becomes one search result.
    pub fn search(&self, reply: HttpReply<Vec<QdrantScoredPoint>>) -> (res: Result<
        Vec<SearchResult>,
        ServiceError,
    >)
        ensures
            match reply {
                HttpReply::Failure { status, body } => res matches Err(
                    ServiceError::QdrantRejected { status: s, body: b },
                ) && s == status && b@ == body@,
                HttpReply::Success(points) => res matches Ok(results) && results@.len()
                    == points@.len() && forall|i: int|
                    0 <= i < points@.len() ==> #[trigger] results@[i]@ == spec_parse_point(
                        self.collection_name@,
                        points@[i].id,
                        points@[i].score_bits,
                        points@[i].payload@,
                    ),
            },
    {
        match reply {
            HttpReply::Failure { status, body } => Err(ServiceError::QdrantRejected { status, body }),
            HttpReply::Success(points) => {
                let mut results: Vec<SearchResult> = Vec::new();
                let mut i: usize = 0;
                while i < points.len()
                    invariant
                        i <= points@.len(),
                        results@.len() == i,
                        forall|j: int|
                            0 <= j < i ==> #[trigger] results@[j]@ == spec_parse_point(
                                self.collection_name@,
                                points@[j].id,
                                points@[j].score_bits,
                                points@[j].payload@,
                            ),
                    decreases points@.len() - i,
                {
                    let result = self.parse_scored_point(&points[i]);
                    results.push(result);
                    i = i + 1;
                }
                Ok(results)
            },
        }
    }
}

} // verus!
