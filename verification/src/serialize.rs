//! The requests and responses that cross the broker's edge, already decoded.

use vstd::prelude::*;

verus! {

/// A request to register under a given identity.
pub struct RegisterRequest {
    pub user_id: String,
}

/// The answer to a registration: where the client opens its session.
#[derive(Debug)]
pub struct RegisterResponse {
    pub url: String,
}

/// What a session request asks for. `SetItem` and `UnsetItem` are the
/// actions that clients write as `Set` and `Unset`.
#[derive(Clone, Copy, Debug, PartialEq, Eq, Structural)]
pub enum RequestAction {
    Subscribe,
    Unsubscribe,
    SetItem,
    UnsetItem,
    RemoveFromCollection,
    AddToCollection,
}

/// One request that arrived over a session.
#[derive(Debug)]
pub struct SocketRequest {
    pub action: RequestAction,
    pub user_id: String,
    pub topic: String,
    pub message: Option<String>,
}

} // verus!
