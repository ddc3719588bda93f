//! Requests of the topic interface, already decoded.

use vstd::prelude::*;

verus! {

/// One published event.
pub struct Event {
    pub topic: String,
    pub user_id: Option<usize>,
    pub message: String,
}

/// A list of topics.
pub struct TopicsRequest {
    pub topics: Vec<String>,
}

/// A request to subscribe a client to topics.
#[derive(Debug)]
pub struct SubscribeRequest {
    pub user_id: String,
    pub topics: Vec<String>,
}

/// A request to end a client's subscriptions to topics.
pub struct UnsubscribeRequest {
    pub user_id: String,
    pub topics: Vec<String>,
}

} // verus!
