//! The broker's handlers.
//!
//! A handler never touches a store. It says which command goes to which
//! store actor and what it is waiting for; when the reply is in, `resume`
//! says what comes next. The shell carries each command to its actor and
//! brings the reply back, until the handler has finished.

use vstd::prelude::*;
use crate::actor::{StoreState, add_twice, consistent, members_at, reply_to, state_after};
use crate::collection::{
    Collection, Entry, distinct, excluding, has_member, joined, lemma_excluded,
    lemma_excluding_absent, lemma_excluding_keeps, lemma_excluding_present, lemma_joined, position,
};
use crate::command::{
    Command, CommandView, Reply, ReplyView, flag_of, flag_reply, item_of, item_reply, snapshot_of, snapshot_reply,
};
use crate::outbound::{enqueue, text_message};
use crate::serialize::{RegisterResponse, RequestAction, SocketRequest};
use crate::store::{Client, ClientView, Store, Subscribers};

verus! {

/// Why a request was turned down.
#[derive(Clone, Copy, Debug, PartialEq, Eq, Structural)]
pub enum Rejection {
    /// The identity that the request names is not registered.
    NotFound,
    /// A store actor gave no reply.
    ChannelClosed,
    /// The request lacks the message that its action needs, or its action
    /// is not one that the handler serves, or its payload could not be read.
    MalformedRequest,
}

/// How one attempt to deliver a value ended.
#[derive(Clone, Copy, Debug, PartialEq, Eq, Structural)]
pub enum Outcome {
    /// The recipient's queue took the value.
    Sent,
    /// The recipient's queue refused the value: its session is over.
    Refused,
    /// The recipient carries no outbound handle.
    Unreachable,
}

/// One attempt to deliver a published value.
#[derive(Debug)]
pub struct Delivery {
    pub recipient: String,
    pub text: String,
    pub outcome: Outcome,
}

/// What a handler that finished well hands back.
#[derive(Debug)]
pub enum Accepted {
    /// The request was carried out.
    Done,
    /// The client was registered; the response tells where its session opens.
    Registered(RegisterResponse),
    /// The client is known; a session may be opened for it.
    Session(Client),
    /// The value was stored; one delivery was attempted for each subscriber
    /// other than the publisher.
    Published(Vec<Delivery>),
    /// A liveness probe was answered over the session's own queue.
    Acknowledged(Outcome),
}

/// What is to be told to a topic's subscribers once the store has answered.
/// A `value` of `None` stands for the removal marker, the empty string.
#[derive(Debug)]
pub struct Notice {
    pub topic: String,
    pub value: Option<String>,
    pub publisher: String,
}

/// What a suspended handler is waiting for.
#[derive(Debug)]
pub enum Waiting {
    /// The client registry's reply to the entry of a new client.
    Registered { url: String },
    /// The client registry's reply to the removal of a client.
    Unregistered,
    /// The client registry's reply to the lookup that opens a session.
    Admitted,
    /// The client registry's reply to the entry of a client with its handle.
    Attached,
    /// The client registry's reply to the removal of a client whose session
    /// is over.
    Detached,
    /// The store's reply to a published change; `notice` is what the
    /// subscribers are told afterwards, if anything.
    Stored { notice: Option<Notice> },
    /// The subscription registry's reply with the subscribers to alert.
    Alerted { value: Option<String>, publisher: String },
    /// The client registry's reply to the lookup of the client that
    /// subscribes or unsubscribes.
    Found { action: RequestAction, topic: String },
    /// The subscription registry's reply to a subscription.
    Subscribed,
    /// The subscription registry's reply to the end of a subscription.
    Unsubscribed,
}

/// What a handler does next.
#[derive(Debug)]
#[allow(inconsistent_fields)]
pub enum Step {
    /// Send `command` to the client registry and resume with its reply.
    AskClients { command: Command<Client>, waiting: Waiting },
    /// Send `command` to the subscription registry and resume with its reply.
    AskSubscriptions { command: Command<Client>, waiting: Waiting },
    /// Send `command` to the scalar store and resume with its reply.
    AskStore { command: Command<String>, waiting: Waiting },
    /// The handler is done.
    Finished(Result<Accepted, Rejection>),
}

/// The reply that came back from a store actor, or `None` where the
/// channel was closed.
pub enum Answer {
    Clients(Option<Reply<Client>>),
    Subscriptions(Option<Reply<Client>>),
    Store(Option<Reply<String>>),
}

impl Answer {
    /// The client registry's reply; none if another actor answered.
    pub open spec fn clients(self) -> Option<Reply<Client>> {
        match self {
            Answer::Clients(reply) => reply,
            _ => None,
        }
    }

    /// The subscription registry's reply; none if another actor answered.
    pub open spec fn subscriptions(self) -> Option<Reply<Client>> {
        match self {
            Answer::Subscriptions(reply) => reply,
            _ => None,
        }
    }

    /// The scalar store's reply; none if another actor answered.
    pub open spec fn store(self) -> Option<Reply<String>> {
        match self {
            Answer::Store(reply) => reply,
            _ => None,
        }
    }

    fn from_clients(self) -> (reply: Option<Reply<Client>>)
        ensures
            reply == self.clients(),
    {
        match self {
            Answer::Clients(reply) => reply,
            _ => None,
        }
    }

    fn from_subscriptions(self) -> (reply: Option<Reply<Client>>)
        ensures
            reply == self.subscriptions(),
    {
        match self {
            Answer::Subscriptions(reply) => reply,
            _ => None,
        }
    }

    fn from_store(self) -> (reply: Option<Reply<String>>)
        ensures
            reply == self.store(),
    {
        match self {
            Answer::Store(reply) => reply,
            _ => None,
        }
    }
}

/// The address at which the client `user_id` opens its session.
pub open spec fn session_url(user_id: Seq<char>) -> Seq<char> {
    "ws://127.0.0.1:8000/ws/"@ + user_id
}

/// The step is the entry of a client without a handle under `user_id`,
/// with the session address of that identity to hand out afterwards.
pub open spec fn registers(step: Step, user_id: Seq<char>) -> bool {
    &&& step matches Step::AskClients { command, waiting }
    &&& command matches Command::SetItem { key, value }
    &&& key@ == user_id
    &&& value.user_id@ == user_id
    &&& value.sender is None
    &&& waiting matches Waiting::Registered { url }
    &&& url@ == session_url(user_id)
}

/// Calls `Uuid::new_v4` and writes the identifier out with `to_string`: 36
/// characters, hyphens among hexadecimal digits. The identifier is drawn
/// at random, so only its length is stated.
#[verifier::external_body]
fn fresh_identity() -> (user_id: String)
    ensures
        user_id@.len() == 36,
{
    uuid::Uuid::new_v4().to_string()
}

/// Registers a client under a fresh identity.
pub fn register_handler() -> (step: Step)
    ensures
        exists|user_id: Seq<char>| user_id.len() == 36 && registers(step, user_id),
{
    register_as(fresh_identity())
}

/// Registers a client under `user_id`: the client enters the registry
/// without a handle, and afterwards its session address is handed out.
pub fn register_as(user_id: String) -> (step: Step)
    ensures
        registers(step, user_id@),
{
    let url = String::from_str("ws://127.0.0.1:8000/ws/").concat(user_id.as_str());
    let client = Client { user_id, sender: None };
    Step::AskClients { command: Client::set_client(client), waiting: Waiting::Registered { url } }
}

/// Takes the client `user_id` out of the registry. An identity that was
/// not registered is no error.
pub fn unregister_handler(user_id: String) -> (step: Step)
    ensures
        step == (Step::AskClients {
            command: Command::UnsetItem { key: user_id },
            waiting: Waiting::Unregistered,
        }),
{
    Step::AskClients { command: Client::remove_client(user_id), waiting: Waiting::Unregistered }
}

/// Opens a session for `user_id`, if that identity is registered.
pub fn ws_handler(user_id: String) -> (step: Step)
    ensures
        step == (Step::AskClients { command: Command::GetItem { key: user_id }, waiting: Waiting::Admitted }),
{
    Step::AskClients { command: Client::get_client(user_id), waiting: Waiting::Admitted }
}

/// The liveness probe of the broker itself: it always succeeds.
pub fn health_handler() -> (result: Result<Accepted, Rejection>)
    ensures
        result == Ok::<Accepted, Rejection>(Accepted::Done),
{
    Ok(Accepted::Done)
}

/// What `publish_handler` does with a request from `user_id`.
///
/// The action decides. `UnsetItem` removes the scalar value under the
/// topic and leaves the removal marker as the notice for the topic's
/// subscribers; it needs no message and uses none. `SetItem` writes the
/// message under the topic and leaves it as the notice. The two collection
/// actions change the collection under the topic with the message and
/// leave no notice. These three are turned down without a message, and a
/// request to subscribe or unsubscribe is turned down always.
pub open spec fn published(body: SocketRequest, user_id: String) -> Step {
    match body.action {
        RequestAction::UnsetItem => Step::AskStore {
            command: Command::UnsetItem { key: body.topic },
            waiting: Waiting::Stored {
                notice: Some(Notice { topic: body.topic, value: None, publisher: user_id }),
            },
        },
        RequestAction::SetItem => match body.message {
            Some(message) => Step::AskStore {
                command: Command::SetItem { key: body.topic, value: message },
                waiting: Waiting::Stored {
                    notice: Some(Notice { topic: body.topic, value: Some(message), publisher: user_id }),
                },
            },
            None => Step::Finished(Err(Rejection::MalformedRequest)),
        },
        RequestAction::AddToCollection => match body.message {
            Some(message) => Step::AskStore {
                command: Command::AddToCollection { key: body.topic, value: message },
                waiting: Waiting::Stored { notice: None },
            },
            None => Step::Finished(Err(Rejection::MalformedRequest)),
        },
        RequestAction::RemoveFromCollection => match body.message {
            Some(message) => Step::AskStore {
                command: Command::RemoveFromCollection { key: body.topic, value: message },
                waiting: Waiting::Stored { notice: None },
            },
            None => Step::Finished(Err(Rejection::MalformedRequest)),
        },
        _ => Step::Finished(Err(Rejection::MalformedRequest)),
    }
}

/// Starts a publication by `user_id`.
pub fn publish_handler(body: SocketRequest, user_id: String) -> (step: Step)
    ensures
        step == published(body, user_id),
{
    let SocketRequest { action, user_id: _, topic, message } = body;
    match action {
        RequestAction::UnsetItem => {
            let notice = Notice { topic: topic.clone(), value: None, publisher: user_id };
            Step::AskStore { command: Store::unset(topic), waiting: Waiting::Stored { notice: Some(notice) } }
        },
        RequestAction::SetItem => match message {
            Some(message) => {
                let notice = Notice { topic: topic.clone(), value: Some(message.clone()), publisher: user_id };
                Step::AskStore {
                    command: Store::set(topic, message),
                    waiting: Waiting::Stored { notice: Some(notice) },
                }
            },
            None => Step::Finished(Err(Rejection::MalformedRequest)),
        },
        RequestAction::AddToCollection => match message {
            Some(message) => Step::AskStore {
                command: Store::add_to_collection(topic, message),
                waiting: Waiting::Stored { notice: None },
            },
            None => Step::Finished(Err(Rejection::MalformedRequest)),
        },
        RequestAction::RemoveFromCollection => match message {
            Some(message) => Step::AskStore {
                command: Store::remove_value_from_collection(topic, message),
                waiting: Waiting::Stored { notice: None },
            },
            None => Step::Finished(Err(Rejection::MalformedRequest)),
        },
        _ => Step::Finished(Err(Rejection::MalformedRequest)),
    }
}

/// Starts a subscription or its end: the client is looked up first, under
/// the identity of the session that sent the request.
pub fn subscription_handler(body: SocketRequest, user_id: String) -> (step: Step)
    ensures
        step == (Step::AskClients {
            command: Command::GetItem { key: user_id },
            waiting: Waiting::Found { action: body.action, topic: body.topic },
        }),
{
    let SocketRequest { action, user_id: _, topic, message: _ } = body;
    Step::AskClients { command: Client::get_client(user_id), waiting: Waiting::Found { action, topic } }
}

/// How an attempt ended, given what the recipient's queue answered.
pub fn outcome_of(taken: bool) -> (outcome: Outcome)
    ensures
        outcome == if taken {
            Outcome::Sent
        } else {
            Outcome::Refused
        },
{
    if taken {
        Outcome::Sent
    } else {
        Outcome::Refused
    }
}

/// Attempts one delivery: hands `text` to the queue behind the client's
/// own handle, the only handle that this function holds, and notes how the
/// attempt ended. Without a handle nothing is handed over and the attempt
/// is `Unreachable`.
pub fn deliver(client: &Client, text: String) -> (delivery: Delivery)
    ensures
        delivery.recipient@ == client.user_id@,
        delivery.text == text,
        (delivery.outcome is Unreachable) == (client.sender is None),
{
    let outcome = match &client.sender {
        Some(handle) => outcome_of(enqueue(handle, Ok(text_message(&text)))),
        None => Outcome::Unreachable,
    };
    Delivery { recipient: client.user_id.clone(), text, outcome }
}

/// `report` holds one attempt for each member other than the publisher, in
/// the members' order: the attempt names the member, carries `text`, and
/// is `Unreachable` exactly where the member carries no handle.
pub open spec fn fanned_out(
    members: Seq<ClientView>,
    publisher: Seq<char>,
    text: Seq<char>,
    report: Seq<Delivery>,
) -> bool {
    let due = excluding::<Client>(members, publisher);
    &&& report.len() == due.len()
    &&& forall|i: int|
        0 <= i < report.len() ==> {
            &&& (#[trigger] report[i]).recipient@ == due[i].user_id
            &&& report[i].text@ == text
            &&& (report[i].outcome is Unreachable) == (due[i].sender is None)
        }
}

/// Tells the subscribers of a topic about a published value: one attempt
/// for each subscriber other than `user_id`, over that subscriber's own
/// handle, with `value` as the text. Each attempt is noted in the report
/// with the text that was handed to the queue. An attempt that fails stops
/// nothing: the attempts that follow are made all the same.
pub fn alert_subscribers(subscribers: &Collection<Client>, value: &String, user_id: &String) -> (report:
    Vec<Delivery>)
    ensures
        fanned_out(subscribers@, user_id@, value@, report@),
{
    let mut report: Vec<Delivery> = Vec::new();
    let mut i: usize = 0;
    proof {
        reveal(Seq::filter);
    }
    while i < subscribers.len()
        invariant
            i <= subscribers@.len(),
            fanned_out(subscribers@.take(i as int), user_id@, value@, report@),
        decreases subscribers@.len() - i,
    {
        let client = subscribers.member(i);
        proof {
            reveal(Seq::filter);
            assert(subscribers@.take(i + 1).drop_last() =~= subscribers@.take(i as int));
        }
        if client.user_id != *user_id {
            report.push(deliver(client, value.clone()));
        }
        i += 1;
    }
    assert(subscribers@.take(i as int) =~= subscribers@);
    report
}

/// A publication reaches every subscriber but the publisher: where the
/// publisher is among `count` subscribers, `count - 1` deliveries are
/// attempted; where it is not, `count`; and where nobody is subscribed,
/// none.
pub proof fn fan_out_count(
    members: Seq<ClientView>,
    publisher: Seq<char>,
    text: Seq<char>,
    report: Seq<Delivery>,
)
    requires
        distinct::<Client>(members),
        fanned_out(members, publisher, text, report),
    ensures
        has_member::<Client>(members, publisher) ==> report.len() == members.len() - 1,
        !has_member::<Client>(members, publisher) ==> report.len() == members.len(),
        members.len() == 0 ==> report.len() == 0,
        forall|i: int| 0 <= i < report.len() ==> (#[trigger] report[i]).recipient@ != publisher,
{
    if has_member::<Client>(members, publisher) {
        let at = position::<Client>(members, publisher);
        lemma_excluding_present::<Client>(members, at);
    } else {
        lemma_excluding_absent::<Client>(members, publisher);
    }
    lemma_excluded::<Client>(members, publisher);
    assert forall|i: int| 0 <= i < report.len() implies (#[trigger] report[i]).recipient@ != publisher by {
        assert(Client::identity(excluding::<Client>(members, publisher)[i]) != publisher);
    }
}

/// The text that subscribers are sent: the published value, or the empty
/// string as the removal marker.
pub open spec fn marker_text(value: Option<String>) -> Seq<char> {
    match value {
        Some(published) => published@,
        None => Seq::<char>::empty(),
    }
}

/// Makes the text that subscribers are sent.
pub fn marker(value: Option<String>) -> (text: String)
    ensures
        text@ == marker_text(value),
{
    match value {
        Some(published) => published,
        None => String::new(),
    }
}

/// The step after the subscribers of a topic were asked for: a report of
/// the fan-out to them, with the published value or the removal marker as
/// the text of every attempt; an empty report where the topic never had a
/// subscriber; a rejection where the registry gave no reply.
pub open spec fn alerted(value: Option<String>, publisher: String, answer: Answer, step: Step) -> bool {
    match snapshot_of(answer.subscriptions()) {
        Ok(Some(subscribers)) => {
            &&& step matches Step::Finished(Ok(Accepted::Published(report)))
            &&& fanned_out(subscribers@, publisher@, marker_text(value), report@)
        },
        Ok(None) => {
            &&& step matches Step::Finished(Ok(Accepted::Published(report)))
            &&& report@.len() == 0
        },
        Err(_) => step == Step::Finished(Err(Rejection::ChannelClosed)),
    }
}

/// The step that follows when a handler that was waiting gets its answer.
/// An answer from another actor than the one that was asked, or of another
/// kind than the command's, counts as no reply. What follows the
/// subscribers' snapshot is said by `alerted`.
pub open spec fn resumed(waiting: Waiting, answer: Answer) -> Step
    recommends
        !(waiting is Alerted),
{
    match waiting {
        Waiting::Registered { url } => match item_of(answer.clients()) {
            Ok(_) => Step::Finished(Ok(Accepted::Registered(RegisterResponse { url }))),
            Err(_) => Step::Finished(Err(Rejection::ChannelClosed)),
        },
        Waiting::Unregistered => match item_of(answer.clients()) {
            Ok(_) => Step::Finished(Ok(Accepted::Done)),
            Err(_) => Step::Finished(Err(Rejection::ChannelClosed)),
        },
        Waiting::Admitted => match item_of(answer.clients()) {
            Ok(Some(client)) => Step::Finished(Ok(Accepted::Session(client))),
            Ok(None) => Step::Finished(Err(Rejection::NotFound)),
            Err(_) => Step::Finished(Err(Rejection::ChannelClosed)),
        },
        Waiting::Attached => match item_of(answer.clients()) {
            Ok(_) => Step::Finished(Ok(Accepted::Done)),
            Err(_) => Step::Finished(Err(Rejection::ChannelClosed)),
        },
        Waiting::Detached => match item_of(answer.clients()) {
            Ok(_) => Step::Finished(Ok(Accepted::Done)),
            Err(_) => Step::Finished(Err(Rejection::ChannelClosed)),
        },
        Waiting::Stored { notice: Some(notice) } => match item_of(answer.store()) {
            Ok(_) => Step::AskSubscriptions {
                command: Command::GetCollection { key: notice.topic },
                waiting: Waiting::Alerted { value: notice.value, publisher: notice.publisher },
            },
            Err(_) => Step::Finished(Err(Rejection::ChannelClosed)),
        },
        Waiting::Stored { notice: None } => match flag_of(answer.store()) {
            Ok(_) => Step::Finished(Ok(Accepted::Done)),
            Err(_) => Step::Finished(Err(Rejection::ChannelClosed)),
        },
        Waiting::Found { action, topic } => match item_of(answer.clients()) {
            Ok(Some(client)) => match action {
                RequestAction::Subscribe => Step::AskSubscriptions {
                    command: Command::AddToCollection { key: topic, value: client },
                    waiting: Waiting::Subscribed,
                },
                RequestAction::Unsubscribe => Step::AskSubscriptions {
                    command: Command::RemoveFromCollection { key: topic, value: client },
                    waiting: Waiting::Unsubscribed,
                },
                _ => Step::Finished(Err(Rejection::MalformedRequest)),
            },
            Ok(None) => Step::Finished(Err(Rejection::NotFound)),
            Err(_) => Step::Finished(Err(Rejection::ChannelClosed)),
        },
        Waiting::Subscribed => match flag_of(answer.subscriptions()) {
            Ok(_) => Step::Finished(Ok(Accepted::Done)),
            Err(_) => Step::Finished(Err(Rejection::ChannelClosed)),
        },
        Waiting::Unsubscribed => match flag_of(answer.subscriptions()) {
            Ok(_) => Step::Finished(Ok(Accepted::Done)),
            Err(_) => Step::Finished(Err(Rejection::ChannelClosed)),
        },
        Waiting::Alerted { value, publisher } => arbitrary(),
    }
}

/// Takes a suspended handler up again with the answer it was waiting for.
pub fn resume(waiting: Waiting, answer: Answer) -> (step: Step)
    ensures
        match waiting {
            Waiting::Alerted { value, publisher } => alerted(value, publisher, answer, step),
            _ => step == resumed(waiting, answer),
        },
{
    match waiting {
        Waiting::Registered { url } => match item_reply(answer.from_clients()) {
            Ok(_) => Step::Finished(Ok(Accepted::Registered(RegisterResponse { url }))),
            Err(_) => Step::Finished(Err(Rejection::ChannelClosed)),
        },
        Waiting::Unregistered => match item_reply(answer.from_clients()) {
            Ok(_) => Step::Finished(Ok(Accepted::Done)),
            Err(_) => Step::Finished(Err(Rejection::ChannelClosed)),
        },
        Waiting::Admitted => match item_reply(answer.from_clients()) {
            Ok(Some(client)) => Step::Finished(Ok(Accepted::Session(client))),
            Ok(None) => Step::Finished(Err(Rejection::NotFound)),
            Err(_) => Step::Finished(Err(Rejection::ChannelClosed)),
        },
        Waiting::Attached => match item_reply(answer.from_clients()) {
            Ok(_) => Step::Finished(Ok(Accepted::Done)),
            Err(_) => Step::Finished(Err(Rejection::ChannelClosed)),
        },
        Waiting::Detached => match item_reply(answer.from_clients()) {
            Ok(_) => Step::Finished(Ok(Accepted::Done)),
            Err(_) => Step::Finished(Err(Rejection::ChannelClosed)),
        },
        Waiting::Stored { notice } => match notice {
            Some(notice) => match item_reply(answer.from_store()) {
                Ok(_) => {
                    let Notice { topic, value, publisher } = notice;
                    Step::AskSubscriptions {
                        command: Subscribers::get_subscribers(topic),
                        waiting: Waiting::Alerted { value, publisher },
                    }
                },
                Err(_) => Step::Finished(Err(Rejection::ChannelClosed)),
            },
            None => match flag_reply(answer.from_store()) {
                Ok(_) => Step::Finished(Ok(Accepted::Done)),
                Err(_) => Step::Finished(Err(Rejection::ChannelClosed)),
            },
        },
        Waiting::Alerted { value, publisher } => match snapshot_reply(answer.from_subscriptions()) {
            Ok(Some(subscribers)) => {
                let text = marker(value);
                Step::Finished(Ok(Accepted::Published(alert_subscribers(&subscribers, &text, &publisher))))
            },
            Ok(None) => Step::Finished(Ok(Accepted::Published(Vec::new()))),
            Err(_) => Step::Finished(Err(Rejection::ChannelClosed)),
        },
        Waiting::Found { action, topic } => match item_reply(answer.from_clients()) {
            Ok(Some(client)) => match action {
                RequestAction::Subscribe => Step::AskSubscriptions {
                    command: Subscribers::add_subscriber(topic, client),
                    waiting: Waiting::Subscribed,
                },
                RequestAction::Unsubscribe => Step::AskSubscriptions {
                    command: Subscribers::remove_subscriber(topic, client),
                    waiting: Waiting::Unsubscribed,
                },
                _ => Step::Finished(Err(Rejection::MalformedRequest)),
            },
            Ok(None) => Step::Finished(Err(Rejection::NotFound)),
            Err(_) => Step::Finished(Err(Rejection::ChannelClosed)),
        },
        Waiting::Subscribed => match flag_reply(answer.from_subscriptions()) {
            Ok(_) => Step::Finished(Ok(Accepted::Done)),
            Err(_) => Step::Finished(Err(Rejection::ChannelClosed)),
        },
        Waiting::Unsubscribed => match flag_reply(answer.from_subscriptions()) {
            Ok(_) => Step::Finished(Ok(Accepted::Done)),
            Err(_) => Step::Finished(Err(Rejection::ChannelClosed)),
        },
    }
}

/// A publication runs in three steps, whatever the store held before: the
/// message is written under the topic in the scalar store; once the store
/// has answered, the topic's subscribers are asked for; and once they are
/// known, one delivery of the message is attempted for each of them but
/// the publisher. With the publisher among `count` subscribers that makes
/// `count - 1` attempts; without it, `count`; and none where the topic
/// never had a subscriber.
pub proof fn publication_reaches_the_others(
    body: SocketRequest,
    user_id: String,
    stored: Option<String>,
    subscribers: Option<Collection<Client>>,
    last: Step,
)
    requires
        body.action == RequestAction::SetItem,
        body.message is Some,
        subscribers matches Some(collection) ==> collection.wf(),
        alerted(body.message, user_id, Answer::Subscriptions(Some(Reply::Snapshot(subscribers))), last),
    ensures
        ({
            &&& published(body, user_id) matches Step::AskStore { command, waiting }
            &&& command == (Command::SetItem { key: body.topic, value: body.message->0 })
            &&& resumed(waiting, Answer::Store(Some(Reply::Item(stored)))) matches Step::AskSubscriptions {
                command: lookup,
                waiting: then,
            }
            &&& lookup == (Command::<Client>::GetCollection { key: body.topic })
            &&& then == (Waiting::Alerted { value: body.message, publisher: user_id })
            &&& last matches Step::Finished(Ok(Accepted::Published(report)))
            &&& forall|i: int| 0 <= i < report@.len() ==> (#[trigger] report@[i]).text@ == body.message->0@
            &&& match subscribers {
                None => report@.len() == 0,
                Some(collection) => report@.len() == if has_member::<Client>(collection@, user_id@) {
                    collection@.len() - 1
                } else {
                    collection@.len() as int
                },
            }
        }),
{
    if let Some(collection) = subscribers {
        if let Step::Finished(Ok(Accepted::Published(report))) = last {
            fan_out_count(collection@, user_id@, body.message->0@, report@);
        }
    }
}

/// A removal runs in the same three steps, with or without a message in
/// the request: the value under the topic is removed from the scalar
/// store, the topic's subscribers are asked for, and each of them but the
/// publisher is sent the removal marker, the empty text.
pub proof fn removal_reaches_the_others(
    body: SocketRequest,
    user_id: String,
    stored: Option<String>,
    subscribers: Collection<Client>,
    last: Step,
)
    requires
        body.action == RequestAction::UnsetItem,
        subscribers.wf(),
        alerted(None, user_id, Answer::Subscriptions(Some(Reply::Snapshot(Some(subscribers)))), last),
    ensures
        ({
            &&& published(body, user_id) matches Step::AskStore { command, waiting }
            &&& command == (Command::<String>::UnsetItem { key: body.topic })
            &&& resumed(waiting, Answer::Store(Some(Reply::Item(stored)))) matches Step::AskSubscriptions {
                command: lookup,
                waiting: then,
            }
            &&& lookup == (Command::<Client>::GetCollection { key: body.topic })
            &&& then == (Waiting::Alerted { value: None, publisher: user_id })
            &&& last matches Step::Finished(Ok(Accepted::Published(report)))
            &&& forall|i: int| 0 <= i < report@.len() ==> (#[trigger] report@[i]).text@.len() == 0
            &&& report@.len() == if has_member::<Client>(subscribers@, user_id@) {
                subscribers@.len() - 1
            } else {
                subscribers@.len() as int
            }
        }),
{
    if let Step::Finished(Ok(Accepted::Published(report))) = last {
        fan_out_count(subscribers@, user_id@, Seq::<char>::empty(), report@);
    }
}

/// Subscribing is idempotent: whether or not the client was a subscriber
/// before, the subscription ends well, and the topic then holds the
/// client once, as it came, with the handle that it brought; a second
/// subscription changes nothing.
pub proof fn subscription_is_idempotent(state: StoreState<ClientView>, topic: Seq<char>, client: ClientView)
    requires
        consistent::<Client>(state),
    ensures
        ({
            let command = CommandView::AddToCollection { key: topic, value: client };
            let after = state_after::<Client>(state, command);
            let members = members_at(after, topic);
            &&& reply_to::<Client>(state, command) matches ReplyView::Flag(flag)
            &&& resumed(Waiting::Subscribed, Answer::Subscriptions(Some(Reply::Flag(flag)))) == Step::Finished(
                Ok(Accepted::Done),
            )
            &&& state_after::<Client>(after, command) == after
            &&& members.len() == members_at(state, topic).len() + if flag {
                1int
            } else {
                0int
            }
            &&& exists|i: int|
                0 <= i < members.len() && members[i] == client && forall|j: int|
                    0 <= j < members.len() && #[trigger] Client::identity(members[j]) == client.user_id
                        ==> j == i
        }),
{
    add_twice::<Client>(state, topic, client);
    lemma_joined::<Client>(members_at(state, topic), client);
}

/// A client that has subscribed to a topic is reached by what others
/// publish there: once `AddToCollection` of the client has been applied to
/// the subscription registry, every fan-out of a text to the topic's
/// subscribers for another publisher holds an attempt for the client with
/// that text, which is `Unreachable` only if the client carries no handle.
pub proof fn subscriber_is_reached(
    state: StoreState<ClientView>,
    topic: Seq<char>,
    client: ClientView,
    publisher: Seq<char>,
    text: Seq<char>,
    report: Seq<Delivery>,
)
    requires
        consistent::<Client>(state),
        client.user_id != publisher,
        fanned_out(
            members_at(
                state_after::<Client>(state, CommandView::AddToCollection { key: topic, value: client }),
                topic,
            ),
            publisher,
            text,
            report,
        ),
    ensures
        exists|i: int|
            0 <= i < report.len() && (#[trigger] report[i]).recipient@ == client.user_id && report[i].text@
                == text && (report[i].outcome is Unreachable) == (client.sender is None),
{
    let prior = members_at(state, topic);
    let members = joined::<Client>(prior, client);
    lemma_joined::<Client>(prior, client);
    let at = position::<Client>(members, client.user_id);
    lemma_excluding_keeps::<Client>(members, publisher, at);
    let j = choose|j: int|
        0 <= j < excluding::<Client>(members, publisher).len() && #[trigger] excluding::<Client>(
            members,
            publisher,
        )[j] == members[at];
    assert(report[j].recipient@ == client.user_id);
}

} // verus!
