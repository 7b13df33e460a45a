//! End-to-end walks through the two ingestion paths, the way the transport
//! layer drives the library: decode and default, validate and route,
//! publish outside, then assemble the response.

use ingestion_service::models::{fill_defaults, JsonText, RawData, RawDataInput};
use ingestion_service::routes::{batch_finish, batch_prepare, ingest_finish, ingest_prepare};

fn valid_input(id: Option<&str>, source: &str) -> RawDataInput {
    RawDataInput {
        id: id.map(|s| s.to_string()),
        source: source.to_string(),
        content_type: "research_paper".to_string(),
        payload: JsonText::Text("{\"title\":\"x\"}".to_string()),
        timestamp: None,
        metadata: None,
    }
}

#[test]
fn single_ingest_of_a_valid_record() {
    // A record arrives without an id; the service generates one, validates,
    // routes, and (after a successful publish) answers 201 with that id.
    let record = fill_defaults(valid_input(None, "arxiv"));
    let generated_id = record.id.clone();
    assert_eq!(generated_id.len(), 36);

    let topic = ingest_prepare(&record).unwrap();
    assert_eq!(topic, "ingest.raw.research_paper");

    let (code, resp) = ingest_finish(&record, Ok(()), 1_700_000_000_000).unwrap();
    assert_eq!(code, 201);
    assert_eq!(resp.status, "success");
    assert_eq!(resp.id, generated_id);
}

#[test]
fn batch_with_an_invalid_item_in_the_middle() {
    // Three items: valid A, an item with an empty source, valid B. The
    // invalid one is skipped; the response reports the two published ids in
    // their input order.
    let a = fill_defaults(valid_input(Some("A"), "arxiv"));
    let bad = fill_defaults(valid_input(Some("bad"), ""));
    let b = fill_defaults(valid_input(Some("B"), "github"));
    let items: Vec<RawData> = vec![a, bad, b];

    let topics = batch_prepare(&items).unwrap();
    assert_eq!(topics.len(), 3);
    assert!(topics[0].is_some());
    assert!(topics[1].is_none());
    assert!(topics[2].is_some());

    // Publish each routed item; here every attempted publish succeeds.
    let published: Vec<bool> = topics.iter().map(|t| t.is_some()).collect();
    let (code, resp) = batch_finish(&items, &published, 1_700_000_000_000);
    assert_eq!(code, 201);
    assert_eq!(resp.count, 2);
    assert_eq!(resp.ids, vec!["A".to_string(), "B".to_string()]);
}

#[test]
fn batch_where_a_publish_fails_mid_way() {
    // All three items are valid, but the middle publish fails: the batch
    // still answers 201, with the other two ids, in order.
    let items: Vec<RawData> = vec![
        fill_defaults(valid_input(Some("A"), "arxiv")),
        fill_defaults(valid_input(Some("B"), "arxiv")),
        fill_defaults(valid_input(Some("C"), "arxiv")),
    ];
    let topics = batch_prepare(&items).unwrap();
    assert!(topics.iter().all(|t| t.is_some()));

    let published = vec![true, false, true];
    let (code, resp) = batch_finish(&items, &published, 7);
    assert_eq!(code, 201);
    assert_eq!(resp.count, 2);
    assert_eq!(resp.ids, vec!["A".to_string(), "C".to_string()]);
}
