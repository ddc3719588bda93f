//! The commands that a store actor accepts, and its replies.

use vstd::prelude::*;
use crate::collection::{Collection, Entry};

verus! {

/// One request to a store actor.
#[derive(Debug)]
pub enum Command<T> {
    GetItem { key: String },
    SetItem { key: String, value: T },
    UnsetItem { key: String },
    GetCollection { key: String },
    AddToCollection { key: String, value: T },
    RemoveFromCollection { key: String, value: T },
}

/// A command as the contracts see it: keys and values by their views.
pub enum CommandView<V> {
    GetItem { key: Seq<char> },
    SetItem { key: Seq<char>, value: V },
    UnsetItem { key: Seq<char> },
    GetCollection { key: Seq<char> },
    AddToCollection { key: Seq<char>, value: V },
    RemoveFromCollection { key: Seq<char>, value: V },
}

impl<T: View> View for Command<T> {
    type V = CommandView<T::V>;

    open spec fn view(&self) -> CommandView<T::V> {
        match *self {
            Command::GetItem { key } => CommandView::GetItem { key: key@ },
            Command::SetItem { key, value } => CommandView::SetItem { key: key@, value: value@ },
            Command::UnsetItem { key } => CommandView::UnsetItem { key: key@ },
            Command::GetCollection { key } => CommandView::GetCollection { key: key@ },
            Command::AddToCollection { key, value } => CommandView::AddToCollection {
                key: key@,
                value: value@,
            },
            Command::RemoveFromCollection { key, value } => CommandView::RemoveFromCollection {
                key: key@,
                value: value@,
            },
        }
    }
}

/// What a store actor answers: the three scalar commands answer with an
/// item, `GetCollection` with a snapshot, and the two collection changes with
/// a flag.
pub enum Reply<T> {
    Item(Option<T>),
    Snapshot(Option<Collection<T>>),
    Flag(bool),
}

/// A reply as the contracts see it.
pub enum ReplyView<V> {
    Item(Option<V>),
    Snapshot(Option<Seq<V>>),
    Flag(bool),
}

/// The view of an optional value.
pub open spec fn item_view<T: View>(item: Option<T>) -> Option<T::V> {
    match item {
        Some(value) => Some(value@),
        None => None,
    }
}

impl<T: Entry> View for Reply<T> {
    type V = ReplyView<T::V>;

    open spec fn view(&self) -> ReplyView<T::V> {
        match *self {
            Reply::Item(item) => ReplyView::Item(item_view(item)),
            Reply::Snapshot(snapshot) => ReplyView::Snapshot(item_view(snapshot)),
            Reply::Flag(flag) => ReplyView::Flag(flag),
        }
    }
}

/// Why a round trip to a store actor gave no result.
#[derive(Clone, Copy, Debug, PartialEq, Eq, Structural)]
pub enum StoreError {
    /// No reply came: the actor is gone, or it dropped the command.
    ChannelClosed,
}

/// The command that asks for the scalar value under `key`.
pub fn get_value<T>(key: String) -> (command: Command<T>)
    ensures
        command == (Command::<T>::GetItem { key }),
{
    Command::GetItem { key }
}

/// The command that stores `value` under `key`.
pub fn set_value<T>(key: String, value: T) -> (command: Command<T>)
    ensures
        command == (Command::SetItem { key, value }),
{
    Command::SetItem { key, value }
}

/// The command that removes the scalar value under `key`.
pub fn remove_value<T>(key: String) -> (command: Command<T>)
    ensures
        command == (Command::<T>::UnsetItem { key }),
{
    Command::UnsetItem { key }
}

/// The command that lets `value` join the collection under `key`.
pub fn add_value_to_collection<T>(key: String, value: T) -> (command: Command<T>)
    ensures
        command == (Command::AddToCollection { key, value }),
{
    Command::AddToCollection { key, value }
}

/// The command that takes `value` out of the collection under `key`.
pub fn remove_value_from_collection<T>(key: String, value: T) -> (command: Command<T>)
    ensures
        command == (Command::RemoveFromCollection { key, value }),
{
    Command::RemoveFromCollection { key, value }
}

/// The command that asks for a snapshot of the collection under `key`.
pub fn get_collection<T>(key: String) -> (command: Command<T>)
    ensures
        command == (Command::<T>::GetCollection { key }),
{
    Command::GetCollection { key }
}

/// What the sender of a scalar command has once the round trip is over:
/// the item of the reply; a closed channel where no reply came, or one of
/// another kind.
pub open spec fn item_of<T>(reply: Option<Reply<T>>) -> Result<Option<T>, StoreError> {
    match reply {
        Some(Reply::Item(item)) => Ok(item),
        _ => Err(StoreError::ChannelClosed),
    }
}

/// What the sender of `GetCollection` has once the round trip is over.
pub open spec fn snapshot_of<T>(reply: Option<Reply<T>>) -> Result<Option<Collection<T>>, StoreError> {
    match reply {
        Some(Reply::Snapshot(snapshot)) => Ok(snapshot),
        _ => Err(StoreError::ChannelClosed),
    }
}

/// What the sender of a collection change has once the round trip is over.
pub open spec fn flag_of<T>(reply: Option<Reply<T>>) -> Result<bool, StoreError> {
    match reply {
        Some(Reply::Flag(flag)) => Ok(flag),
        _ => Err(StoreError::ChannelClosed),
    }
}

/// Reads the item out of the reply to a scalar command.
pub fn item_reply<T>(reply: Option<Reply<T>>) -> (result: Result<Option<T>, StoreError>)
    ensures
        result == item_of(reply),
{
    match reply {
        Some(Reply::Item(item)) => Ok(item),
        _ => Err(StoreError::ChannelClosed),
    }
}

/// Reads the snapshot out of the reply to `GetCollection`.
pub fn snapshot_reply<T>(reply: Option<Reply<T>>) -> (result: Result<Option<Collection<T>>, StoreError>)
    ensures
        result == snapshot_of(reply),
{
    match reply {
        Some(Reply::Snapshot(snapshot)) => Ok(snapshot),
        _ => Err(StoreError::ChannelClosed),
    }
}

/// Reads the flag out of the reply to a collection change.
pub fn flag_reply<T>(reply: Option<Reply<T>>) -> (result: Result<bool, StoreError>)
    ensures
        result == flag_of(reply),
{
    match reply {
        Some(Reply::Flag(flag)) => Ok(flag),
        _ => Err(StoreError::ChannelClosed),
    }
}

} // verus!
