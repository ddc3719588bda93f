//! Collections of entries that are told apart by their identity alone.

use vstd::prelude::*;

verus! {

/// A value that can be kept in a store. Two entries with one identity are
/// the same member of a collection, whatever else they hold.
pub trait Entry: View + Sized {
    /// The identity of an entry, read from its view.
    spec fn identity(model: Self::V) -> Seq<char>;

    /// Tells whether two entries have the same identity.
    fn same_identity(&self, other: &Self) -> (same: bool)
        ensures
            same == (Self::identity(self@) == Self::identity(other@)),
    ;

    /// A second entry with the same view.
    fn duplicate(&self) -> (copy: Self)
        ensures
            copy@ == self@,
    ;
}

impl Entry for String {
    open spec fn identity(model: Seq<char>) -> Seq<char> {
        model
    }

    fn same_identity(&self, other: &Self) -> (same: bool) {
        *self == *other
    }

    fn duplicate(&self) -> (copy: Self) {
        self.clone()
    }
}

/// Some member of `members` has the identity `id`.
pub open spec fn has_member<T: Entry>(members: Seq<T::V>, id: Seq<char>) -> bool {
    exists|i: int| 0 <= i < members.len() && #[trigger] T::identity(members[i]) == id
}

/// A position in `members` whose member has the identity `id`, where there is one.
pub open spec fn position<T: Entry>(members: Seq<T::V>, id: Seq<char>) -> int {
    choose|i: int| 0 <= i < members.len() && #[trigger] T::identity(members[i]) == id
}

/// No two members share an identity.
pub open spec fn distinct<T: Entry>(members: Seq<T::V>) -> bool {
    forall|i: int, j: int|
        0 <= i < j < members.len() ==> #[trigger] T::identity(members[i]) != #[trigger] T::identity(
            members[j],
        )
}

/// The members after `entry` has joined: it takes the place of the member
/// with its identity, or comes last where there was none.
pub open spec fn joined<T: Entry>(members: Seq<T::V>, entry: T::V) -> Seq<T::V> {
    if has_member::<T>(members, T::identity(entry)) {
        members.update(position::<T>(members, T::identity(entry)), entry)
    } else {
        members.push(entry)
    }
}

/// The members whose identity is not `id`, in their order.
pub open spec fn excluding<T: Entry>(members: Seq<T::V>, id: Seq<char>) -> Seq<T::V> {
    members.filter(|member: T::V| T::identity(member) != id)
}

/// With distinct identities, the member at `i` is the one its identity leads to.
pub proof fn lemma_position<T: Entry>(members: Seq<T::V>, i: int)
    requires
        distinct::<T>(members),
        0 <= i < members.len(),
    ensures
        has_member::<T>(members, T::identity(members[i])),
        position::<T>(members, T::identity(members[i])) == i,
{
}

/// Nothing that is left after excluding an identity has that identity.
pub proof fn lemma_excluded<T: Entry>(members: Seq<T::V>, id: Seq<char>)
    ensures
        forall|i: int|
            0 <= i < excluding::<T>(members, id).len() ==> T::identity(
                #[trigger] excluding::<T>(members, id)[i],
            ) != id,
    decreases members.len(),
{
    reveal(Seq::filter);
    if members.len() > 0 {
        lemma_excluded::<T>(members.drop_last(), id);
    }
}

/// A member with another identity than the excluded one is still there.
pub proof fn lemma_excluding_keeps<T: Entry>(members: Seq<T::V>, id: Seq<char>, i: int)
    requires
        0 <= i < members.len(),
        T::identity(members[i]) != id,
    ensures
        exists|j: int|
            0 <= j < excluding::<T>(members, id).len() && #[trigger] excluding::<T>(members, id)[j]
                == members[i],
    decreases members.len(),
{
    reveal(Seq::filter);
    let front = members.drop_last();
    if i == members.len() - 1 {
        let j = excluding::<T>(front, id).len() as int;
        assert(excluding::<T>(members, id)[j] == members[i]);
    } else {
        lemma_excluding_keeps::<T>(front, id, i);
        let j = choose|j: int|
            0 <= j < excluding::<T>(front, id).len() && #[trigger] excluding::<T>(front, id)[j]
                == front[i];
        assert(excluding::<T>(members, id)[j] == members[i]);
    }
}

/// Excluding an identity that no member has changes nothing.
pub proof fn lemma_excluding_absent<T: Entry>(members: Seq<T::V>, id: Seq<char>)
    requires
        !has_member::<T>(members, id),
    ensures
        excluding::<T>(members, id) == members,
    decreases members.len(),
{
    reveal(Seq::filter);
    if members.len() > 0 {
        let front = members.drop_last();
        assert forall|i: int| 0 <= i < front.len() implies #[trigger] T::identity(front[i]) != id by {
            assert(front[i] == members[i]);
        }
        lemma_excluding_absent::<T>(front, id);
    }
}

/// With distinct identities, excluding the identity of the member at `i`
/// takes out that member and no other.
pub proof fn lemma_excluding_present<T: Entry>(members: Seq<T::V>, i: int)
    requires
        distinct::<T>(members),
        0 <= i < members.len(),
    ensures
        excluding::<T>(members, T::identity(members[i])) == members.remove(i),
        excluding::<T>(members, T::identity(members[i])).len() == members.len() - 1,
    decreases members.len(),
{
    reveal(Seq::filter);
    let id = T::identity(members[i]);
    let front = members.drop_last();
    if i == members.len() - 1 {
        assert forall|j: int| 0 <= j < front.len() implies #[trigger] T::identity(front[j]) != id by {
            assert(front[j] == members[j]);
        }
        lemma_excluding_absent::<T>(front, id);
    } else {
        assert forall|a: int, b: int| 0 <= a < b < front.len() implies #[trigger] T::identity(front[a])
            != #[trigger] T::identity(front[b]) by {
            assert(front[a] == members[a] && front[b] == members[b]);
        }
        lemma_excluding_present::<T>(front, i);
    }
}

/// Joining keeps the identities distinct and makes the entry a member; a
/// second joining of the same entry changes nothing.
pub proof fn lemma_joined<T: Entry>(members: Seq<T::V>, entry: T::V)
    requires
        distinct::<T>(members),
    ensures
        distinct::<T>(joined::<T>(members, entry)),
        has_member::<T>(joined::<T>(members, entry), T::identity(entry)),
        joined::<T>(members, entry)[position::<T>(joined::<T>(members, entry), T::identity(entry))] == entry,
        joined::<T>(joined::<T>(members, entry), entry) == joined::<T>(members, entry),
        joined::<T>(members, entry).len() == members.len() + if has_member::<T>(
            members,
            T::identity(entry),
        ) {
            0int
        } else {
            1int
        },
{
    let id = T::identity(entry);
    let after = joined::<T>(members, entry);
    let at = if has_member::<T>(members, id) {
        position::<T>(members, id)
    } else {
        members.len() as int
    };
    assert forall|a: int, b: int| 0 <= a < b < after.len() implies #[trigger] T::identity(after[a])
        != #[trigger] T::identity(after[b]) by {
        if b < members.len() {
            assert(T::identity(members[a]) != T::identity(members[b]));
        }
    }
    lemma_position::<T>(after, at);
}

/// A collection of entries, no two with the same identity. Its view is the
/// sequence of its members' views, in the order in which they joined.
pub struct Collection<T> {
    members: Vec<T>,
}

impl<T: Entry> View for Collection<T> {
    type V = Seq<T::V>;

    closed spec fn view(&self) -> Seq<T::V> {
        self.members@.map_values(|member: T| member@)
    }
}

impl<T: Entry> Collection<T> {
    /// The collection's invariant: no identity occurs twice.
    pub open spec fn wf(&self) -> bool {
        distinct::<T>(self@)
    }

    /// An empty collection.
    pub fn new() -> (collection: Self)
        ensures
            collection.wf(),
            collection@ == Seq::<T::V>::empty(),
    {
        Collection { members: Vec::new() }
    }

    /// The number of members.
    pub fn len(&self) -> (count: usize)
        ensures
            count == self@.len(),
    {
        self.members.len()
    }

    /// The member at position `i`.
    pub fn member(&self, i: usize) -> (entry: &T)
        requires
            i < self@.len(),
        ensures
            entry@ == self@[i as int],
    {
        &self.members[i]
    }

    /// The position of the member with the identity of `entry`.
    fn find(&self, entry: &T) -> (at: Option<usize>)
        ensures
            match at {
                Some(i) => i < self@.len() && T::identity(self@[i as int]) == T::identity(entry@),
                None => !has_member::<T>(self@, T::identity(entry@)),
            },
    {
        let mut i: usize = 0;
        while i < self.members.len()
            invariant
                i <= self@.len(),
                self@.len() == self.members@.len(),
                forall|j: int| 0 <= j < i ==> #[trigger] T::identity(self@[j]) != T::identity(entry@),
            decreases self@.len() - i,
        {
            if self.members[i].same_identity(entry) {
                return Some(i);
            }
            i += 1;
        }
        None
    }

    /// Tells whether some member has the identity of `entry`.
    pub fn contains(&self, entry: &T) -> (present: bool)
        ensures
            present == has_member::<T>(self@, T::identity(entry@)),
    {
        self.find(entry).is_some()
    }

    /// Lets `entry` join: it replaces the member with its identity, or comes
    /// last. Tells whether its identity is new to the collection.
    pub fn add(&mut self, entry: T) -> (fresh: bool)
        requires
            old(self).wf(),
        ensures
            final(self).wf(),
            final(self)@ == joined::<T>(old(self)@, entry@),
            fresh == !has_member::<T>(old(self)@, T::identity(entry@)),
    {
        proof {
            lemma_joined::<T>(self@, entry@);
        }
        match self.find(&entry) {
            Some(i) => {
                proof {
                    lemma_position::<T>(self@, i as int);
                }
                let ghost before = self@;
                let ghost model = entry@;
                self.members.set(i, entry);
                assert(self@ =~= before.update(i as int, model));
                false
            },
            None => {
                let ghost before = self@;
                let ghost model = entry@;
                self.members.push(entry);
                assert(self@ =~= before.push(model));
                true
            },
        }
    }

    /// Takes out the member with the identity of `entry`. Tells whether
    /// there was one.
    pub fn discard(&mut self, entry: &T) -> (present: bool)
        requires
            old(self).wf(),
        ensures
            final(self).wf(),
            final(self)@ == excluding::<T>(old(self)@, T::identity(entry@)),
            present == has_member::<T>(old(self)@, T::identity(entry@)),
    {
        match self.find(entry) {
            Some(i) => {
                let ghost before = self@;
                proof {
                    lemma_excluding_present::<T>(before, i as int);
                }
                let _ = self.members.remove(i);
                proof {
                    assert(self@ =~= before.remove(i as int));
                    assert forall|a: int, b: int| 0 <= a < b < self@.len() implies #[trigger] T::identity(
                        self@[a],
                    ) != #[trigger] T::identity(self@[b]) by {
                        let a0 = if a < i { a } else { a + 1 };
                        let b0 = if b < i { b } else { b + 1 };
                        assert(T::identity(before[a0]) != T::identity(before[b0]));
                    }
                }
                true
            },
            None => {
                proof {
                    lemma_excluding_absent::<T>(self@, T::identity(entry@));
                }
                false
            },
        }
    }

    /// A copy of the collection as it stands.
    pub fn snapshot(&self) -> (copy: Self)
        ensures
            copy@ == self@,
    {
        let mut members: Vec<T> = Vec::new();
        let mut i: usize = 0;
        while i < self.members.len()
            invariant
                i <= self.members@.len(),
                members@.len() == i,
                forall|j: int| 0 <= j < i ==> (#[trigger] members@[j])@ == self.members@[j]@,
            decreases self.members@.len() - i,
        {
            members.push(self.members[i].duplicate());
            i += 1;
        }
        Collection { members }
    }
}

} // verus!
