//! The request shapes the surrounding shell exchanges with its topic and
//! subtopic collaborators.  They carry plain values only; the pipeline
//! itself consumes a subtopic through [`crate::pipeline::SubtopicInfo`].

use vstd::prelude::*;

verus! {

/// A request to create a topic.
pub struct CreateTopicRequest {
    pub name: String,
    pub description: Option<String>,
}

/// A request to create a subtopic under a topic; `template_type` is the
/// category hint the query composer understands.
pub struct CreateSubTopicRequest {
    pub topic_id: String,
    pub name: String,
    pub description: Option<String>,
    pub template_type: Option<String>,
}

/// A request to run the discovery pipeline for one subtopic.
pub struct ScrapingRequest {
    pub subtopic_id: String,
    pub search_query: String,
    pub max_results: Option<i32>,
}

} // verus!
