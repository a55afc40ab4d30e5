//! The followed user: one identifier that commands read and write.
//!
//! The value is owned by whoever holds the state. Writing takes exclusive
//! access, so a reader never sees a half-written value and two writers never
//! overlap; a program that shares the state between tasks puts it behind a
//! lock and holds the lock for one `get` or `set` at a time.

use vstd::prelude::*;

verus! {

/// The identifier that stands for "nobody is followed".
pub const UNSET: u64 = 0;

/// The identifier of the user that is followed at the moment.
#[derive(Debug)]
pub struct TargetState {
    followed_user_id: u64,
}

impl View for TargetState {
    type V = u64;

    closed spec fn view(&self) -> u64 {
        self.followed_user_id
    }
}

impl TargetState {
    /// A state in which nobody is followed.
    pub fn new() -> (state: TargetState)
        ensures
            state@ == UNSET,
    {
        TargetState { followed_user_id: UNSET }
    }

    /// The followed user's identifier.
    pub fn get(&self) -> (value: u64)
        ensures
            value == self@,
    {
        self.followed_user_id
    }

    /// Follows the user with the identifier `value`.
    pub fn set(&mut self, value: u64)
        ensures
            final(self)@ == value,
            final(self)@ == written(old(self)@, value),
    {
        self.followed_user_id = value;
    }
}

/// What the state holds after `value` was written over `before`: a write
/// replaces the value whole.
pub open spec fn written(before: u64, value: u64) -> u64 {
    value
}

/// What the state holds after one write for each of `values`, in their order,
/// starting from `initial`.
pub open spec fn after_sets(initial: u64, values: Seq<u64>) -> u64
    decreases values.len(),
{
    if values.len() == 0 {
        initial
    } else {
        written(after_sets(initial, values.drop_last()), values.last())
    }
}

/// However a set of writes is ordered, the state ends up holding one of the
/// written values, whole. `order` is the order in which the writes took
/// effect: any arrangement of the values that were `supplied`.
pub proof fn law_writes_leave_a_supplied_value(initial: u64, supplied: Seq<u64>, order: Seq<u64>)
    requires
        supplied.len() > 0,
        order.to_multiset() == supplied.to_multiset(),
    ensures
        supplied.contains(after_sets(initial, order)),
        after_sets(initial, order) == order.last(),
{
    supplied.to_multiset_ensures();
    order.to_multiset_ensures();
    assert(order.len() == supplied.len());
    let last = order.last();
    assert(order.contains(last));
    assert(order.to_multiset().count(last) > 0);
    assert(supplied.to_multiset().count(last) > 0);
}

} // verus!
