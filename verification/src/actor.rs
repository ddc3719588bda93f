//! The state that one store actor owns, and what each command does to it.
//!
//! A store is changed through `&mut` alone, one command after the other, so
//! no command sees another half done: the state after a run of commands is
//! the state that the commands give when applied in their order of arrival.

use vstd::prelude::*;
use crate::collection::{
    Collection, Entry, distinct, excluding, has_member, joined, lemma_joined, position,
};
use crate::command::{Command, CommandView, Reply, ReplyView, item_view};
use crate::table::Table;

verus! {

/// A store as the contracts see it: the scalar value under each key, and
/// the members of the collection under each key.
pub struct StoreState<V> {
    pub items: Map<Seq<char>, V>,
    pub collections: Map<Seq<char>, Seq<V>>,
}

/// One store: a scalar map and a map of collections over one value type.
pub struct ValueStore<T> {
    items: Table<T>,
    collections: Table<Collection<T>>,
}

/// No collection of the state holds an identity twice.
pub open spec fn consistent<T: Entry>(state: StoreState<T::V>) -> bool {
    forall|key: Seq<char>| #[trigger]
        state.collections.contains_key(key) ==> distinct::<T>(state.collections[key])
}

/// The members under `key`; none where no collection was made yet.
pub open spec fn members_at<V>(state: StoreState<V>, key: Seq<char>) -> Seq<V> {
    if state.collections.contains_key(key) {
        state.collections[key]
    } else {
        Seq::empty()
    }
}

/// The state that a command leaves behind.
pub open spec fn state_after<T: Entry>(state: StoreState<T::V>, command: CommandView<T::V>) -> StoreState<
    T::V,
> {
    match command {
        CommandView::GetItem { key } => state,
        CommandView::SetItem { key, value } => StoreState {
            items: state.items.insert(key, value),
            collections: state.collections,
        },
        CommandView::UnsetItem { key } => StoreState {
            items: state.items.remove(key),
            collections: state.collections,
        },
        CommandView::GetCollection { key } => state,
        CommandView::AddToCollection { key, value } => StoreState {
            items: state.items,
            collections: state.collections.insert(key, joined::<T>(members_at(state, key), value)),
        },
        CommandView::RemoveFromCollection { key, value } => if state.collections.contains_key(key) {
            StoreState {
                items: state.items,
                collections: state.collections.insert(
                    key,
                    excluding::<T>(state.collections[key], T::identity(value)),
                ),
            }
        } else {
            state
        },
    }
}

/// The reply that a command gets in a given state.
pub open spec fn reply_to<T: Entry>(state: StoreState<T::V>, command: CommandView<T::V>) -> ReplyView<
    T::V,
> {
    match command {
        CommandView::GetItem { key } => ReplyView::Item(state.items.get(key)),
        CommandView::SetItem { key, value } => ReplyView::Item(state.items.get(key)),
        CommandView::UnsetItem { key } => ReplyView::Item(state.items.get(key)),
        CommandView::GetCollection { key } => ReplyView::Snapshot(state.collections.get(key)),
        CommandView::AddToCollection { key, value } => ReplyView::Flag(
            !has_member::<T>(members_at(state, key), T::identity(value)),
        ),
        CommandView::RemoveFromCollection { key, value } => ReplyView::Flag(
            has_member::<T>(members_at(state, key), T::identity(value)),
        ),
    }
}

/// The state after a run of commands, applied in their order.
pub open spec fn state_after_all<T: Entry>(
    state: StoreState<T::V>,
    commands: Seq<CommandView<T::V>>,
) -> StoreState<T::V>
    decreases commands.len(),
{
    if commands.len() == 0 {
        state
    } else {
        state_after::<T>(state_after_all::<T>(state, commands.drop_last()), commands.last())
    }
}

/// The command reads or writes scalar values.
pub open spec fn is_scalar<V>(command: CommandView<V>) -> bool {
    command is GetItem || command is SetItem || command is UnsetItem
}

/// The command sets or unsets the scalar value under `key`.
pub open spec fn writes_item<V>(command: CommandView<V>, key: Seq<char>) -> bool {
    match command {
        CommandView::SetItem { key: written, value } => written == key,
        CommandView::UnsetItem { key: written } => written == key,
        _ => false,
    }
}

/// After `SetItem` of a value under a key, `GetItem` of that key answers
/// with that value.
pub proof fn set_then_get<T: Entry>(state: StoreState<T::V>, key: Seq<char>, value: T::V)
    ensures
        reply_to::<T>(
            state_after::<T>(state, CommandView::SetItem { key, value }),
            CommandView::GetItem { key },
        ) == ReplyView::Item(Some(value)),
{
}

/// After `UnsetItem` of a key, `GetItem` of that key answers absent,
/// whatever the state was.
pub proof fn unset_then_get<T: Entry>(state: StoreState<T::V>, key: Seq<char>)
    ensures
        reply_to::<T>(
            state_after::<T>(state, CommandView::UnsetItem { key }),
            CommandView::GetItem { key },
        ) == ReplyView::<T::V>::Item(None),
{
}

/// After `AddToCollection` of a value, the collection holds the value at
/// one position and its identity nowhere else; a second `AddToCollection`
/// of the same value answers that it was there already and changes nothing.
pub proof fn add_twice<T: Entry>(state: StoreState<T::V>, key: Seq<char>, value: T::V)
    requires
        consistent::<T>(state),
    ensures
        ({
            let command = CommandView::AddToCollection { key, value };
            let once = state_after::<T>(state, command);
            let members = members_at(once, key);
            &&& consistent::<T>(once)
            &&& once.collections.contains_key(key)
            &&& reply_to::<T>(once, command) == ReplyView::<T::V>::Flag(false)
            &&& state_after::<T>(once, command) == once
            &&& exists|i: int|
                0 <= i < members.len() && members[i] == value && forall|j: int|
                    0 <= j < members.len() && #[trigger] T::identity(members[j]) == T::identity(value)
                        ==> j == i
        }),
{
    let command = CommandView::AddToCollection { key, value };
    let prior = members_at(state, key);
    lemma_joined::<T>(prior, value);
    let once = state_after::<T>(state, command);
    let members = joined::<T>(prior, value);
    assert(once.collections.insert(key, members) =~= once.collections);
    let i = position::<T>(members, T::identity(value));
    assert forall|j: int|
        0 <= j < members.len() && #[trigger] T::identity(members[j]) == T::identity(value) implies j
        == i by {
        if j != i {
            assert(T::identity(members[j]) != T::identity(members[i]));
        }
    }
}

/// `RemoveFromCollection` on a key without a collection answers that
/// nothing was there, and leaves the state as it was: no empty collection
/// is made.
pub proof fn remove_without_collection<T: Entry>(state: StoreState<T::V>, key: Seq<char>, value: T::V)
    requires
        !state.collections.contains_key(key),
    ensures
        reply_to::<T>(state, CommandView::RemoveFromCollection { key, value }) == ReplyView::<
            T::V,
        >::Flag(false),
        state_after::<T>(state, CommandView::RemoveFromCollection { key, value }) == state,
        !state_after::<T>(state, CommandView::RemoveFromCollection { key, value }).collections.contains_key(
            key,
        ),
{
}

/// Of the commands that a store has handled, the last one that wrote a
/// key decides what is stored there: after a `SetItem` that no later
/// `SetItem` or `UnsetItem` of the key follows, the key holds that value,
/// whatever came before and whatever else came after.
pub proof fn last_set_wins<T: Entry>(
    state: StoreState<T::V>,
    commands: Seq<CommandView<T::V>>,
    at: int,
    key: Seq<char>,
    value: T::V,
)
    requires
        0 <= at < commands.len(),
        commands[at] == (CommandView::SetItem { key, value }),
        forall|later: int| at < later < commands.len() ==> !writes_item(#[trigger] commands[later], key),
    ensures
        state_after_all::<T>(state, commands).items.get(key) == Some(value),
    decreases commands.len(),
{
    let front = commands.drop_last();
    if at < commands.len() - 1 {
        assert forall|later: int| at < later < front.len() implies !writes_item(
            #[trigger] front[later],
            key,
        ) by {
            assert(front[later] == commands[later]);
        }
        last_set_wins::<T>(state, front, at, key, value);
    }
}

impl<T: Entry> View for ValueStore<T> {
    type V = StoreState<T::V>;

    closed spec fn view(&self) -> StoreState<T::V> {
        StoreState { items: self.items@, collections: self.collections@ }
    }
}

impl<T: Entry> ValueStore<T> {
    /// Neither of the store's two tables holds a key twice.
    pub closed spec fn keyed(&self) -> bool {
        self.items.wf() && self.collections.wf()
    }

    /// The store's invariant: no key is stored twice, and no collection
    /// holds an identity twice.
    pub open spec fn wf(&self) -> bool {
        self.keyed() && consistent::<T>(self@)
    }

    /// A store that holds nothing.
    pub fn new() -> (store: Self)
        ensures
            store.wf(),
            store@.items == Map::<Seq<char>, T::V>::empty(),
            store@.collections == Map::<Seq<char>, Seq<T::V>>::empty(),
    {
        ValueStore { items: Table::new(), collections: Table::new() }
    }

    /// The scalar value under `key`, or absent.
    pub fn get_item(&self, key: &String) -> (item: Option<T>)
        requires
            self.wf(),
        ensures
            item_view(item) == self@.items.get(key@),
    {
        match self.items.get(key) {
            Some(value) => Some(value.duplicate()),
            None => None,
        }
    }

    /// Stores `value` under `key` and hands back the value it replaces.
    pub fn set_item(&mut self, key: String, value: T) -> (previous: Option<T>)
        requires
            old(self).wf(),
        ensures
            final(self).wf(),
            final(self)@ == state_after::<T>(old(self)@, CommandView::SetItem { key: key@, value: value@ }),
            item_view(previous) == old(self)@.items.get(key@),
    {
        let previous = self.items.insert(key, value);
        assert(self@.collections == old(self)@.collections);
        previous
    }

    /// Removes the scalar value under `key` and hands it back.
    pub fn unset_item(&mut self, key: &String) -> (removed: Option<T>)
        requires
            old(self).wf(),
        ensures
            final(self).wf(),
            final(self)@ == state_after::<T>(old(self)@, CommandView::UnsetItem { key: key@ }),
            item_view(removed) == old(self)@.items.get(key@),
    {
        let removed = self.items.remove(key);
        assert(self@.collections == old(self)@.collections);
        removed
    }

    /// A snapshot of the collection under `key`; absent where none was ever
    /// made there.
    pub fn get_collection(&self, key: &String) -> (snapshot: Option<Collection<T>>)
        requires
            self.wf(),
        ensures
            item_view(snapshot) == self@.collections.get(key@),
            snapshot matches Some(collection) ==> collection.wf(),
    {
        match self.collections.get(key) {
            Some(collection) => Some(collection.snapshot()),
            None => None,
        }
    }

    /// Lets `value` join the collection under `key`, which is made if it is
    /// not there. Tells whether the identity of `value` is new to it.
    pub fn add_to_collection(&mut self, key: String, value: T) -> (fresh: bool)
        requires
            old(self).wf(),
        ensures
            final(self).wf(),
            final(self)@ == state_after::<T>(
                old(self)@,
                CommandView::AddToCollection { key: key@, value: value@ },
            ),
            fresh == !has_member::<T>(members_at(old(self)@, key@), T::identity(value@)),
    {
        let ghost before = self@;
        let mut collection = match self.collections.remove(&key) {
            Some(collection) => collection,
            None => Collection::new(),
        };
        assert(collection@ == members_at(before, key@));
        let fresh = collection.add(value);
        let ghost members = collection@;
        self.collections.insert(key, collection);
        assert(self@.collections =~= before.collections.insert(key@, members));
        fresh
    }

    /// Takes the member with the identity of `value` out of the collection
    /// under `key`. Tells whether there was one; where there is no
    /// collection under `key`, none is made.
    pub fn remove_from_collection(&mut self, key: &String, value: &T) -> (present: bool)
        requires
            old(self).wf(),
        ensures
            final(self).wf(),
            final(self)@ == state_after::<T>(
                old(self)@,
                CommandView::RemoveFromCollection { key: key@, value: value@ },
            ),
            present == has_member::<T>(members_at(old(self)@, key@), T::identity(value@)),
            !old(self)@.collections.contains_key(key@) ==> !present && final(self)@ == old(self)@,
    {
        let ghost before = self@;
        match self.collections.remove(key) {
            Some(mut collection) => {
                assert(before.collections.contains_key(key@) && collection@ == before.collections[key@]);
                let present = collection.discard(value);
                let ghost members = collection@;
                self.collections.insert(key.clone(), collection);
                assert(self@.collections =~= before.collections.insert(key@, members));
                present
            },
            None => {
                assert(self@.collections =~= before.collections);
                false
            },
        }
    }

    /// Handles one command: changes the store as the command asks and gives
    /// its reply.
    pub fn apply(&mut self, command: Command<T>) -> (reply: Reply<T>)
        requires
            old(self).wf(),
        ensures
            final(self).wf(),
            final(self)@ == state_after::<T>(old(self)@, command@),
            reply@ == reply_to::<T>(old(self)@, command@),
    {
        match command {
            Command::GetItem { key } => Reply::Item(self.get_item(&key)),
            Command::SetItem { key, value } => Reply::Item(self.set_item(key, value)),
            Command::UnsetItem { key } => Reply::Item(self.unset_item(&key)),
            Command::GetCollection { key } => Reply::Snapshot(self.get_collection(&key)),
            Command::AddToCollection { key, value } => Reply::Flag(self.add_to_collection(key, value)),
            Command::RemoveFromCollection { key, value } => Reply::Flag(
                self.remove_from_collection(&key, &value),
            ),
        }
    }

    /// Handles one command as a registry of scalar values does: a command
    /// on collections gets no reply and changes nothing.
    pub fn apply_scalar(&mut self, command: Command<T>) -> (reply: Option<Reply<T>>)
        requires
            old(self).wf(),
        ensures
            final(self).wf(),
            is_scalar(command@) ==> final(self)@ == state_after::<T>(old(self)@, command@)
                && item_view(reply) == Some(reply_to::<T>(old(self)@, command@)),
            !is_scalar(command@) ==> final(self)@ == old(self)@ && reply is None,
    {
        match command {
            Command::GetItem { key } => Some(Reply::Item(self.get_item(&key))),
            Command::SetItem { key, value } => Some(Reply::Item(self.set_item(key, value))),
            Command::UnsetItem { key } => Some(Reply::Item(self.unset_item(&key))),
            _ => None,
        }
    }

    /// Handles one command as a registry of collections does: a command on
    /// scalar values gets no reply and changes nothing.
    pub fn apply_collection(&mut self, command: Command<T>) -> (reply: Option<Reply<T>>)
        requires
            old(self).wf(),
        ensures
            final(self).wf(),
            !is_scalar(command@) ==> final(self)@ == state_after::<T>(old(self)@, command@)
                && item_view(reply) == Some(reply_to::<T>(old(self)@, command@)),
            is_scalar(command@) ==> final(self)@ == old(self)@ && reply is None,
    {
        match command {
            Command::GetCollection { key } => Some(Reply::Snapshot(self.get_collection(&key))),
            Command::AddToCollection { key, value } => Some(
                Reply::Flag(self.add_to_collection(key, value)),
            ),
            Command::RemoveFromCollection { key, value } => Some(
                Reply::Flag(self.remove_from_collection(&key, &value)),
            ),
            _ => None,
        }
    }
}

} // verus!
