//! The data model: records as they travel through the service, the batch
//! envelope, and the bodies of the responses.

use vstd::prelude::*;
use crate::sys;

verus! {

/// A structured value carried through the service, kept as its serialized
/// JSON text. The core never looks inside such a value beyond telling the
/// null value apart from everything else; the transport layer converts
/// between this form and its own JSON representation.
#[derive(Debug, Clone, PartialEq, Eq)]
pub enum JsonText {
    /// The JSON null value.
    Null,
    /// Any other JSON value, as its serialized text.
    Text(String),
}

/// One unit of ingestible data, with every field populated.
#[derive(Debug)]
pub struct RawData {
    /// Unique identifier of the data item.
    pub id: String,
    /// Source of the data (e.g. "arxiv", "github", "news-api").
    pub source: String,
    /// Kind of content (e.g. "research_paper", "news_article"); drives routing.
    pub content_type: String,
    /// The actual data payload; opaque to the core beyond a null check.
    pub payload: JsonText,
    /// When the data was ingested, as milliseconds since the Unix epoch.
    pub timestamp: i64,
    /// Optional metadata about the data.
    pub metadata: JsonText,
}

/// A record as it arrives in a request, before the optional fields are
/// filled in: the caller may omit the id, the timestamp and the metadata.
pub struct RawDataInput {
    /// Identifier given by the caller, if any.
    pub id: Option<String>,
    /// Source of the data.
    pub source: String,
    /// Kind of content.
    pub content_type: String,
    /// The actual data payload.
    pub payload: JsonText,
    /// Timestamp given by the caller, if any, in milliseconds since the epoch.
    pub timestamp: Option<i64>,
    /// Metadata given by the caller, if any.
    pub metadata: Option<JsonText>,
}

/// A batch of records submitted together, in order.
pub struct BatchRawData {
    /// The data items to ingest.
    pub items: Vec<RawData>,
}

/// Body of the response to a successful single-item ingestion.
#[derive(Debug)]
pub struct IngestResponse {
    /// Status of the operation.
    pub status: String,
    /// Id of the ingested data item.
    pub id: String,
    /// When the response was assembled, in milliseconds since the epoch.
    pub timestamp: i64,
}

/// Body of the response to a batch ingestion.
#[derive(Debug)]
pub struct BatchIngestResponse {
    /// Status of the operation.
    pub status: String,
    /// How many items were successfully published.
    pub count: usize,
    /// Ids of the successfully published items, in input order.
    pub ids: Vec<String>,
    /// When the batch finished processing, in milliseconds since the epoch.
    pub timestamp: i64,
}

/// Body of the health check response.
#[derive(Debug)]
pub struct HealthResponse {
    /// Service name.
    pub service: String,
    /// Service status.
    pub status: String,
    /// Service version.
    pub version: String,
    /// When the health check ran, in milliseconds since the epoch.
    pub timestamp: i64,
}

/// Fill the optional fields of an inbound record from the given values:
/// the id becomes `fresh_id` if the caller omitted it, the timestamp
/// becomes `now_ms` if the caller omitted it, and the metadata becomes the
/// empty structure if the caller omitted it. Everything the caller did give
/// is kept unchanged.
pub fn complete_record(input: RawDataInput, fresh_id: String, now_ms: i64) -> (r: RawData)
    ensures
        input.id matches Some(id) ==> r.id == id,
        input.id is None ==> r.id == fresh_id,
        r.source == input.source,
        r.content_type == input.content_type,
        r.payload == input.payload,
        input.timestamp matches Some(t) ==> r.timestamp == t,
        input.timestamp is None ==> r.timestamp == now_ms,
        input.metadata matches Some(m) ==> r.metadata == m,
        input.metadata is None ==> (r.metadata matches JsonText::Text(s) && s@ == "{}"@),
{
    let id = match input.id {
        Some(id) => id,
        None => fresh_id,
    };
    let timestamp = match input.timestamp {
        Some(t) => t,
        None => now_ms,
    };
    let metadata = match input.metadata {
        Some(m) => m,
        None => JsonText::Text(String::from_str("{}")),
    };
    RawData {
        id,
        source: input.source,
        content_type: input.content_type,
        payload: input.payload,
        timestamp,
        metadata,
    }
}

/// Fill the optional fields of an inbound record with generated values:
/// a freshly generated identifier where the caller gave none, and the
/// current time where the caller gave no timestamp.
pub fn fill_defaults(input: RawDataInput) -> (r: RawData)
    ensures
        input.id matches Some(id) ==> r.id == id,
        input.id is None ==> r.id@.len() == 36,
        r.source == input.source,
        r.content_type == input.content_type,
        r.payload == input.payload,
        input.timestamp matches Some(t) ==> r.timestamp == t,
        input.metadata matches Some(m) ==> r.metadata == m,
        input.metadata is None ==> (r.metadata matches JsonText::Text(s) && s@ == "{}"@),
{
    let fresh_id = sys::fresh_uuid();
    let now_ms = sys::now_millis();
    complete_record(input, fresh_id, now_ms)
}

} // verus!
