//! The session gateway: what one connection does when it opens, for each
//! frame that comes in, and when it closes.

use vstd::prelude::*;
use crate::command::Command;
use crate::handler::{
    Accepted, Outcome, Rejection, Step, Waiting, outcome_of, publish_handler, published,
    subscription_handler,
};
use crate::outbound::{Outbound, enqueue, pong_message};
use crate::serialize::{RequestAction, SocketRequest};
use crate::store::Client;

verus! {

/// One frame that came in over a session, as the transport has read it.
#[derive(Debug)]
pub enum Inbound {
    /// A liveness probe.
    Ping,
    /// A structured request.
    Request(SocketRequest),
    /// A frame that holds no text, or text that is no request.
    Malformed,
}

/// Opens the session of `client`: the client enters the registry under its
/// identity, now with `outbound` as its handle. A registry that gives no
/// reply ends the step in `ChannelClosed`.
pub fn client_connection(client: Client, outbound: Outbound) -> (step: Step)
    ensures
        step == (Step::AskClients {
            command: Command::SetItem {
                key: client.user_id,
                value: Client { user_id: client.user_id, sender: Some(outbound) },
            },
            waiting: Waiting::Attached,
        }),
{
    let attached = Client { user_id: client.user_id, sender: Some(outbound) };
    Step::AskClients { command: Client::set_client(attached), waiting: Waiting::Attached }
}

/// The handler that a request goes to, started in the name of `user_id`:
/// subscriptions and their ends go to `subscription_handler`, every other
/// action to `publish_handler`.
pub open spec fn dispatched(body: SocketRequest, user_id: String) -> Step {
    if body.action == RequestAction::Subscribe || body.action == RequestAction::Unsubscribe {
        Step::AskClients {
            command: Command::GetItem { key: user_id },
            waiting: Waiting::Found { action: body.action, topic: body.topic },
        }
    } else {
        published(body, user_id)
    }
}

/// Handles one inbound frame of the session of `user_id`. A probe is
/// answered over the session's own queue and changes no state. A request
/// starts its handler, with the session's identity as the actor. A
/// malformed frame is dropped: the session goes on and nothing is sent.
pub fn client_message(user_id: &String, outbound: &Outbound, inbound: Inbound) -> (step: Step)
    ensures
        match inbound {
            Inbound::Ping => {
                &&& step matches Step::Finished(Ok(Accepted::Acknowledged(outcome)))
                &&& outcome != Outcome::Unreachable
            },
            Inbound::Request(body) => step == dispatched(body, *user_id),
            Inbound::Malformed => step == Step::Finished(Err(Rejection::MalformedRequest)),
        },
{
    match inbound {
        Inbound::Ping => Step::Finished(
            Ok(Accepted::Acknowledged(outcome_of(enqueue(outbound, Ok(pong_message()))))),
        ),
        Inbound::Request(body) => match body.action {
            RequestAction::Subscribe | RequestAction::Unsubscribe => subscription_handler(
                body,
                user_id.clone(),
            ),
            _ => publish_handler(body, user_id.clone()),
        },
        Inbound::Malformed => Step::Finished(Err(Rejection::MalformedRequest)),
    }
}

/// Closes the session of `user_id`: the identity leaves the client
/// registry. Its subscriptions stay as they are. A registry that gives no
/// reply ends the step in `ChannelClosed`.
pub fn client_disconnected(user_id: String) -> (step: Step)
    ensures
        step == (Step::AskClients {
            command: Command::UnsetItem { key: user_id },
            waiting: Waiting::Detached,
        }),
{
    Step::AskClients { command: Client::remove_client(user_id), waiting: Waiting::Detached }
}

} // verus!
