//! The clients that the broker knows, and the commands by which the rest of
//! the broker reaches the three stores: the client registry, the
//! subscription registry and the scalar store.

use vstd::prelude::*;
use crate::collection::Entry;
use crate::command::{
    Command, add_value_to_collection, get_collection, get_value, remove_value,
    remove_value_from_collection, set_value,
};
use crate::outbound::{Outbound, another_handle};

verus! {

/// One client: its identity, and the handle of its outbound queue while a
/// session is attached.
#[derive(Debug)]
pub struct Client {
    pub user_id: String,
    pub sender: Option<Outbound>,
}

/// A client as the contracts see it: its identity as text, and its
/// outbound handle.
pub struct ClientView {
    pub user_id: Seq<char>,
    pub sender: Option<Outbound>,
}

impl View for Client {
    type V = ClientView;

    open spec fn view(&self) -> ClientView {
        ClientView { user_id: self.user_id@, sender: self.sender }
    }
}

impl Clone for Client {
    /// A second record of the same client, with a handle on the same queue.
    fn clone(&self) -> (copy: Self)
        ensures
            copy@ == self@,
    {
        let sender = match &self.sender {
            Some(handle) => Some(another_handle(handle)),
            None => None,
        };
        Client { user_id: self.user_id.clone(), sender }
    }
}

impl PartialEq for Client {
    /// Two records are equal when they name the same client.
    fn eq(&self, other: &Client) -> (equal: bool) {
        self.user_id == other.user_id
    }
}

impl Eq for Client {

}

impl vstd::std_specs::cmp::PartialEqSpecImpl for Client {
    open spec fn obeys_eq_spec() -> bool {
        true
    }

    open spec fn eq_spec(&self, other: &Client) -> bool {
        self.user_id@ == other.user_id@
    }
}

impl Entry for Client {
    open spec fn identity(model: ClientView) -> Seq<char> {
        model.user_id
    }

    fn same_identity(&self, other: &Self) -> (same: bool) {
        self.user_id == other.user_id
    }

    fn duplicate(&self) -> (copy: Self) {
        self.clone()
    }
}

impl Client {
    /// The command that looks a client up in the client registry.
    pub fn get_client(user_id: String) -> (command: Command<Client>)
        ensures
            command == (Command::<Client>::GetItem { key: user_id }),
    {
        get_value(user_id)
    }

    /// The command that puts a client into the client registry, under its
    /// own identity.
    pub fn set_client(client: Client) -> (command: Command<Client>)
        ensures
            command == (Command::SetItem { key: client.user_id, value: client }),
    {
        set_value(client.user_id.clone(), client)
    }

    /// The command that takes a client out of the client registry.
    pub fn remove_client(user_id: String) -> (command: Command<Client>)
        ensures
            command == (Command::<Client>::UnsetItem { key: user_id }),
    {
        remove_value(user_id)
    }
}

/// The scalar store of published values.
pub struct Store;

impl Store {
    /// The command that stores `value` under `key`.
    pub fn set(key: String, value: String) -> (command: Command<String>)
        ensures
            command == (Command::SetItem { key, value }),
    {
        set_value(key, value)
    }

    /// The command that removes the value under `key`.
    pub fn unset(key: String) -> (command: Command<String>)
        ensures
            command == (Command::<String>::UnsetItem { key }),
    {
        remove_value(key)
    }

    /// The command that lets `value` join the collection under `key`.
    pub fn add_to_collection(key: String, value: String) -> (command: Command<String>)
        ensures
            command == (Command::AddToCollection { key, value }),
    {
        add_value_to_collection(key, value)
    }

    /// The command that takes `value` out of the collection under `key`.
    pub fn remove_value_from_collection(key: String, value: String) -> (command: Command<String>)
        ensures
            command == (Command::RemoveFromCollection { key, value }),
    {
        remove_value_from_collection(key, value)
    }
}

/// The subscription registry: under each topic, the clients subscribed to it.
pub struct Subscribers;

impl Subscribers {
    /// The command that asks for the subscribers of `topic`.
    pub fn get_subscribers(topic: String) -> (command: Command<Client>)
        ensures
            command == (Command::<Client>::GetCollection { key: topic }),
    {
        get_collection(topic)
    }

    /// The command that subscribes a client to `topic`.
    pub fn add_subscriber(topic: String, subscriber: Client) -> (command: Command<Client>)
        ensures
            command == (Command::AddToCollection { key: topic, value: subscriber }),
    {
        add_value_to_collection(topic, subscriber)
    }

    /// The command that ends a client's subscription to `topic`.
    pub fn remove_subscriber(topic: String, subscriber: Client) -> (command: Command<Client>)
        ensures
            command == (Command::RemoveFromCollection { key: topic, value: subscriber }),
    {
        remove_value_from_collection(topic, subscriber)
    }
}

} // verus!
