//! Operations of the standard library that touch nothing but their arguments.
use vstd::prelude::*;

verus! {

/// The mask of these operations. What else it covers is not known elsewhere, so a
/// function with this mask can do nothing beyond them.
pub closed spec fn plain() -> Set<int> {
    Set::full()
}

/// What is in `slot`, which is empty after that.
pub(crate) fn taken<T>(slot: &mut Option<T>) -> (value: Option<T>)
    ensures
        value == *old(slot),
        *final(slot) is None,
    opens_invariants none
{
    let mut value = None;
    std::mem::swap(slot, &mut value);
    value
}

pub(crate) fn boxed<T>(value: T) -> (boxed: Box<T>)
    ensures
        *boxed == value,
    opens_invariants plain()
{
    Box::new(value)
}

pub(crate) fn empty_list<T>() -> (list: Vec<T>)
    ensures
        list@ == Seq::<T>::empty(),
    opens_invariants plain()
{
    Vec::new()
}

pub(crate) fn append<T>(list: &mut Vec<T>, value: T)
    ensures
        final(list)@ == old(list)@.push(value),
    opens_invariants plain()
{
    list.push(value)
}

pub(crate) fn length<T>(list: &Vec<T>) -> (length: usize)
    ensures
        length == list@.len(),
    opens_invariants plain()
{
    list.len()
}

pub(crate) fn item<T>(list: &Vec<T>, index: usize) -> (value: &T)
    requires
        index < list@.len(),
    ensures
        *value == list@[index as int],
    opens_invariants plain()
{
    &list[index]
}

} // verus!
