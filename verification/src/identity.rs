//! Task identities and the counter that hands out their numbers.

use std::borrow::Cow;
use vstd::prelude::*;

verus! {

/// The mathematical value of a [`TaskIdentity`].
pub struct TaskIdentityView {
    pub name: Seq<char>,
    pub id: u64,
}

/// The name and number that tag one wrapped task for as long as it exists.
#[derive(Debug, PartialEq, Eq)]
pub struct TaskIdentity {
    name: Cow<'static, str>,
    id: u64,
}

impl View for TaskIdentity {
    type V = TaskIdentityView;

    closed spec fn view(&self) -> TaskIdentityView {
        TaskIdentityView { name: self.name@, id: self.id }
    }
}

impl TaskIdentity {
    /// Tags a task with `name` and `id`.
    pub fn new(name: Cow<'static, str>, id: u64) -> (identity: Self)
        ensures
            identity@ == (TaskIdentityView { name: name@, id }),
    {
        TaskIdentity { name, id }
    }

    /// The display name.
    pub fn name(&self) -> (name: &str)
        ensures
            name@ == self@.name,
    {
        match &self.name {
            Cow::Borrowed(s) => s,
            Cow::Owned(s) => s.as_str(),
        }
    }

    /// Takes the identity apart into its name and its number.
    pub fn into_parts(self) -> (parts: (Cow<'static, str>, u64))
        ensures
            parts.0@ == self@.name,
            parts.1 == self@.id,
    {
        (self.name, self.id)
    }

    /// The number, unique among the identities of one allocator.
    pub fn id(&self) -> (id: u64)
        ensures
            id == self@.id,
    {
        self.id
    }
}

impl Clone for TaskIdentity {
    fn clone(&self) -> (copy: Self)
        ensures
            copy@ == self@,
    {
        let name = match &self.name {
            Cow::Borrowed(s) => Cow::Borrowed(*s),
            Cow::Owned(s) => Cow::Owned(s.clone()),
        };
        TaskIdentity { name, id: self.id }
    }
}

/// The counter behind the task numbers. It starts at zero and steps by one,
/// going round to zero after `u64::MAX`.
#[derive(Debug)]
pub struct IdAllocator {
    next: u64,
}

/// The number an allocator holds after `n` allocations, when it held `start`
/// before them.
pub open spec fn id_after(start: u64, n: nat) -> u64 {
    ((start + n) % 0x1_0000_0000_0000_0000) as u64
}

/// The identities that an allocator holding `start` hands out when it is asked
/// for one identity per entry of `names`, in that order.
pub open spec fn allocations(start: u64, names: Seq<Seq<char>>) -> Seq<TaskIdentityView> {
    Seq::new(names.len(), |i: int| TaskIdentityView { name: names[i], id: id_after(start, i as nat) })
}

impl IdAllocator {
    /// The number that the next allocation hands out.
    pub closed spec fn next_id(&self) -> u64 {
        self.next
    }

    /// A counter that has handed out nothing yet.
    pub fn new() -> (ids: Self)
        ensures
            ids.next_id() == 0,
    {
        IdAllocator { next: 0 }
    }

    /// A counter that resumes at `next`.
    pub fn starting_at(next: u64) -> (ids: Self)
        ensures
            ids.next_id() == next,
    {
        IdAllocator { next }
    }

    /// The number that the next allocation hands out.
    pub fn peek(&self) -> (next: u64)
        ensures
            next == self.next_id(),
    {
        self.next
    }

    /// Hands out the identity of one newly wrapped task and steps the counter.
    pub fn allocate(&mut self, name: Cow<'static, str>) -> (identity: TaskIdentity)
        ensures
            identity@ == (TaskIdentityView { name: name@, id: old(self).next_id() }),
            final(self).next_id() == id_after(old(self).next_id(), 1),
    {
        let id: u64 = self.next;
        self.next = if id == u64::MAX { 0 } else { id + 1 };
        TaskIdentity::new(name, id)
    }
}

/// Asking for one more identity appends one: `allocations` is what repeated
/// calls of [`IdAllocator::allocate`] hand out.
pub proof fn lemma_allocations_step(start: u64, names: Seq<Seq<char>>, name: Seq<char>)
    ensures
        allocations(start, names.push(name)) == allocations(start, names).push(
            TaskIdentityView { name, id: id_after(start, names.len()) },
        ),
{
    assert(allocations(start, names.push(name)) =~= allocations(start, names).push(
        TaskIdentityView { name, id: id_after(start, names.len()) },
    ));
}

/// Stepping a counter `a` times and then `b` times is stepping it `a + b`
/// times, and stepping it zero times leaves it alone.
pub proof fn lemma_id_after_composes(start: u64, a: nat, b: nat)
    ensures
        id_after(start, 0) == start,
        id_after(id_after(start, a), b) == id_after(start, a + b),
{
}

/// Two allocations from one counter, fewer than 2^64 allocations apart, hand
/// out different identities.
pub proof fn lemma_allocations_distinct(start: u64, names: Seq<Seq<char>>, i: int, j: int)
    requires
        0 <= i < j < names.len(),
        j - i < 0x1_0000_0000_0000_0000,
    ensures
        allocations(start, names)[i].id != allocations(start, names)[j].id,
        allocations(start, names)[i] != allocations(start, names)[j],
{
}

} // verus!
