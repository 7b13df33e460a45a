//! Topic routing: the deterministic map from a record's content type to the
//! bus topic its consumers subscribe to.

use vstd::prelude::*;

verus! {

/// The topic a record of the given content type is published to:
/// the fixed prefix followed by the content type, with no escaping or
/// normalization.
pub open spec fn topic_for(content_type: Seq<char>) -> Seq<char> {
    "ingest.raw."@ + content_type
}

/// Route a content type to its topic. Pure: the same content type always
/// yields `"ingest.raw."` followed by the content type itself.
pub fn route(content_type: &str) -> (topic: String)
    ensures
        topic@ == topic_for(content_type@),
{
    let topic = String::from_str("ingest.raw.");
    topic.concat(content_type)
}

} // verus!
