//! The ingestion handler: the decision logic behind the three endpoints.
//!
//! The publish call itself is a network send and happens outside the
//! library; each request is handled in two verified steps around it. The
//! preparation step validates the record(s) and computes the topic(s); the
//! finishing step turns the publish outcome(s) into the response. The
//! caller publishes exactly where the preparation step handed it a topic.

use vstd::prelude::*;
use crate::error::AppError;
use crate::models::{BatchIngestResponse, HealthResponse, IngestResponse, RawData};
use crate::routing::{route, topic_for};
use crate::sys;
use crate::validate::{first_failure_message, valid_record, validate};

verus! {

/// Validate a single record and compute the topic it routes to. Returns the
/// topic exactly on valid records; on an invalid record, the validation
/// error of the first failed check (the publisher is never reached).
pub fn ingest_prepare(r: &RawData) -> (res: Result<String, AppError>)
    ensures
        res is Ok <==> valid_record(*r),
        res matches Ok(topic) ==> topic@ == topic_for(r.content_type@),
        res matches Err(e) ==> (e matches AppError::ValidationError(m) && m@
            == first_failure_message(*r)),
{
    match validate(r) {
        Ok(()) => Ok(route(r.content_type.as_str())),
        Err(e) => Err(e),
    }
}

/// Turn the outcome of the publish call for a single record into the
/// response: on success, status 201 with status tag "success", the record's
/// own id unchanged, and the given timestamp; on failure, the publish error
/// itself, unchanged.
pub fn ingest_finish(r: &RawData, published: Result<(), AppError>, now_ms: i64) -> (res: Result<
    (u16, IngestResponse),
    AppError,
>)
    ensures
        published is Ok <==> res is Ok,
        res matches Ok(p) ==> ({
            &&& p.0 == 201
            &&& p.1.status@ == "success"@
            &&& p.1.id == r.id
            &&& p.1.timestamp == now_ms
        }),
        published matches Err(e) ==> res == Result::<(u16, IngestResponse), AppError>::Err(e),
{
    match published {
        Ok(()) => Ok(
            (
                201,
                IngestResponse {
                    status: String::from_str("success"),
                    id: r.id.clone(),
                    timestamp: now_ms,
                },
            ),
        ),
        Err(e) => Err(e),
    }
}

/// Validate every record of a batch and compute the topic of each valid
/// one. An empty batch is rejected as a whole; otherwise the result has one
/// entry per item, in order: the item's topic where it passed validation,
/// and nothing where it failed (that item is skipped, the batch goes on).
pub fn batch_prepare(items: &Vec<RawData>) -> (res: Result<Vec<Option<String>>, AppError>)
    ensures
        res is Ok <==> items@.len() > 0,
        res matches Err(e) ==> (e matches AppError::ValidationError(m) && m@
            == "Batch contains no items"@),
        res matches Ok(topics) ==> ({
            &&& topics@.len() == items@.len()
            &&& forall|i: int|
                0 <= i < items@.len() ==> ((#[trigger] topics@[i]) is Some <==> valid_record(
                    items@[i],
                ))
            &&& forall|i: int|
                0 <= i < items@.len() && valid_record(items@[i])
                    ==> (#[trigger] topics@[i])->Some_0@ == topic_for(items@[i].content_type@)
        }),
{
    if items.len() == 0 {
        return Err(AppError::ValidationError(String::from_str("Batch contains no items")));
    }
    let mut topics: Vec<Option<String>> = Vec::new();
    let n = items.len();
    let mut i: usize = 0;
    while i < n
        invariant
            n == items@.len(),
            i <= n,
            topics@.len() == i,
            forall|j: int|
                0 <= j < i ==> ((#[trigger] topics@[j]) is Some <==> valid_record(items@[j])),
            forall|j: int|
                0 <= j < i && valid_record(items@[j]) ==> (#[trigger] topics@[j])->Some_0@
                    == topic_for(items@[j].content_type@),
        decreases n - i,
    {
        let item = &items[i];
        match validate(item) {
            Ok(()) => topics.push(Some(route(item.content_type.as_str()))),
            Err(_) => topics.push(None),
        }
        i = i + 1;
    }
    Ok(topics)
}

/// The ids of the items that were successfully published, in input order:
/// of each item whose flag is set, the id, and nothing of the others.
pub open spec fn successful_ids(items: Seq<RawData>, published: Seq<bool>) -> Seq<Seq<char>>
    decreases items.len(),
{
    if items.len() == 0 {
        Seq::empty()
    } else {
        let rest = successful_ids(items.drop_last(), published.drop_last());
        if published[items.len() - 1] {
            rest.push(items.last().id@)
        } else {
            rest
        }
    }
}

/// How many of the flags are set.
pub open spec fn count_true(flags: Seq<bool>) -> nat
    decreases flags.len(),
{
    if flags.len() == 0 {
        0
    } else {
        count_true(flags.drop_last()) + if flags.last() {
            1nat
        } else {
            0nat
        }
    }
}

/// Law: the batch response reports exactly as many ids as there were
/// successful publishes — one id per set flag, none for a skipped or
/// failed item.
pub proof fn lemma_successful_ids_count(items: Seq<RawData>, published: Seq<bool>)
    requires
        items.len() == published.len(),
    ensures
        successful_ids(items, published).len() == count_true(published),
    decreases items.len(),
{
    if items.len() > 0 {
        lemma_successful_ids_count(items.drop_last(), published.drop_last());
    }
}

/// Law: the successful ids of a batch split into two parts are the
/// successful ids of the first part followed by those of the second. In
/// particular, the ids keep the relative order the items had in the input,
/// and what comes of one item never disturbs what comes of another.
pub proof fn lemma_successful_ids_append(
    a: Seq<RawData>,
    fa: Seq<bool>,
    b: Seq<RawData>,
    fb: Seq<bool>,
)
    requires
        a.len() == fa.len(),
        b.len() == fb.len(),
    ensures
        successful_ids(a + b, fa + fb) == successful_ids(a, fa) + successful_ids(b, fb),
    decreases b.len(),
{
    if b.len() == 0 {
        assert(a + b =~= a);
        assert(fa + fb =~= fa);
        assert(successful_ids(a, fa) + successful_ids(b, fb) =~= successful_ids(a, fa));
    } else {
        lemma_successful_ids_append(a, fa, b.drop_last(), fb.drop_last());
        assert((a + b).drop_last() =~= a + b.drop_last());
        assert((fa + fb).drop_last() =~= fa + fb.drop_last());
        assert((a + b).last() == b.last());
        assert((fa + fb)[(a + b).len() - 1] == fb[b.len() - 1]);
        assert(successful_ids(a + b, fa + fb) =~= successful_ids(a, fa) + successful_ids(b, fb));
    }
}

/// Law: every id the batch response reports is the id of an item whose
/// publish succeeded — the function returns the index of that item. An
/// invalid or undeliverable item contributes nothing to the response.
pub proof fn lemma_reported_id_was_published(
    items: Seq<RawData>,
    published: Seq<bool>,
    j: int,
) -> (i: int)
    requires
        items.len() == published.len(),
        0 <= j < successful_ids(items, published).len(),
    ensures
        0 <= i < items.len(),
        published[i],
        successful_ids(items, published)[j] == items[i].id@,
    decreases items.len(),
{
    let prefix = successful_ids(items.drop_last(), published.drop_last());
    if j < prefix.len() {
        let i = lemma_reported_id_was_published(items.drop_last(), published.drop_last(), j);
        assert(successful_ids(items, published)[j] == prefix[j]);
        i
    } else {
        items.len() - 1
    }
}

/// Law: a batch in which nothing was published reports no ids at all —
/// in particular, a batch whose items were all invalid.
pub proof fn lemma_no_publish_no_ids(items: Seq<RawData>, published: Seq<bool>)
    requires
        items.len() == published.len(),
        forall|i: int| 0 <= i < published.len() ==> !published[i],
    ensures
        successful_ids(items, published) == Seq::<Seq<char>>::empty(),
    decreases items.len(),
{
    if items.len() > 0 {
        lemma_no_publish_no_ids(items.drop_last(), published.drop_last());
        assert(successful_ids(items, published) =~= Seq::<Seq<char>>::empty());
    }
}

/// Turn the per-item publish outcomes of a batch into the response. The
/// flags line up with the items; an item that was skipped at validation or
/// whose publish failed has its flag unset, and the two are reported
/// identically. The batch never fails as a whole: the response is always
/// status 201 with tag "success", the ids of the published items in input
/// order, their number as the count, and the given timestamp — even when
/// that count is zero.
pub fn batch_finish(items: &Vec<RawData>, published: &Vec<bool>, now_ms: i64) -> (res: (
    u16,
    BatchIngestResponse,
))
    requires
        published@.len() == items@.len(),
    ensures
        res.0 == 201,
        res.1.status@ == "success"@,
        res.1.ids.deep_view() == successful_ids(items@, published@),
        res.1.count == successful_ids(items@, published@).len(),
        res.1.timestamp == now_ms,
{
    let mut ids: Vec<String> = Vec::new();
    let n = items.len();
    let mut i: usize = 0;
    while i < n
        invariant
            n == items@.len(),
            published@.len() == items@.len(),
            i <= n,
            ids.deep_view() == successful_ids(items@.take(i as int), published@.take(i as int)),
        decreases n - i,
    {
        if published[i] {
            ids.push(items[i].id.clone());
        }
        proof {
            assert(items@.take(i + 1).drop_last() =~= items@.take(i as int));
            assert(published@.take(i + 1).drop_last() =~= published@.take(i as int));
            assert(items@.take(i + 1).last() == items@[i as int]);
            assert(ids.deep_view() =~= successful_ids(items@.take(i + 1), published@.take(i + 1)));
        }
        i = i + 1;
    }
    proof {
        assert(items@.take(n as int) =~= items@);
        assert(published@.take(n as int) =~= published@);
        lemma_successful_ids_count(items@, published@);
    }
    let count = ids.len();
    (
        201,
        BatchIngestResponse {
            status: String::from_str("success"),
            count,
            ids,
            timestamp: now_ms,
        },
    )
}

/// The health report for the given moment: always the same service name,
/// the status "operational", and the service version — deliberately
/// independent of whether the bus can be reached.
pub fn health_response(now_ms: i64) -> (res: HealthResponse)
    ensures
        res.service@ == "ingestion-service"@,
        res.status@ == "operational"@,
        res.version@ == "0.1.0"@,
        res.timestamp == now_ms,
{
    HealthResponse {
        service: String::from_str("ingestion-service"),
        status: String::from_str("operational"),
        version: String::from_str("0.1.0"),
        timestamp: now_ms,
    }
}

/// Report the service as alive, stamped with the current time. Never
/// fails, whatever the state of the bus connection.
pub fn health_check() -> (res: HealthResponse)
    ensures
        res.service@ == "ingestion-service"@,
        res.status@ == "operational"@,
        res.version@ == "0.1.0"@,
{
    let now_ms = sys::now_millis();
    health_response(now_ms)
}

} // verus!
