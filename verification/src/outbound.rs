//! The outbound side of a session: the queue handle that a connected client
//! carries, the messages that go onto it, and the call that puts them there.

use vstd::prelude::*;

verus! {

/// tokio's sending half of an unbounded queue. Nothing inside it is visible
/// to the proofs.
#[verifier::external_type_specification]
#[verifier::external_body]
#[verifier::reject_recursive_types(T)]
pub struct ExUnboundedSender<T>(tokio::sync::mpsc::UnboundedSender<T>);

/// warp's socket message.
#[verifier::external_type_specification]
#[verifier::external_body]
pub struct ExMessage(warp::ws::Message);

/// warp's transport error.
#[verifier::external_type_specification]
#[verifier::external_body]
pub struct ExTransportError(warp::Error);

/// The sending half of a client's outbound queue.
pub type Outbound = tokio::sync::mpsc::UnboundedSender<Result<warp::ws::Message, warp::Error>>;

/// Calls `UnboundedSender::send`: puts `message` on the queue and tells
/// whether the queue took it. The queue refuses once its receiving half is
/// gone, which nothing here can foresee: the contract promises nothing of
/// the answer.
#[verifier::external_body]
pub(crate) fn enqueue(handle: &Outbound, message: Result<warp::ws::Message, warp::Error>) -> (taken: bool)
{
    handle.send(message).is_ok()
}

/// Calls `UnboundedSender::clone`. A sender holds nothing but its share of
/// the queue, and the clone holds a share of the same queue: as a value the
/// copy is the handle it was made from.
#[verifier::external_body]
pub(crate) fn another_handle(handle: &Outbound) -> (copy: Outbound)
    ensures
        copy == *handle,
{
    handle.clone()
}

/// Calls `Message::text`: a text message that holds `value`.
#[verifier::external_body]
pub(crate) fn text_message(value: &String) -> (message: warp::ws::Message)
{
    warp::ws::Message::text(value.clone())
}

/// Calls `Message::pong`: a pong message without a payload.
#[verifier::external_body]
pub(crate) fn pong_message() -> (message: warp::ws::Message)
{
    warp::ws::Message::pong(Vec::<u8>::new())
}

} // verus!
