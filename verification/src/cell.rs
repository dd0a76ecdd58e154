use vstd::prelude::*;

verus! {

/// A container holding zero or one value. It is constructed either empty
/// or already filled, and no operation mutates it afterwards, so over its
/// whole life a cell sees at most one write. Two cells are equal exactly
/// when both are empty, or both are filled with equal values.
#[derive(Debug, Clone, PartialEq, Eq)]
pub struct WriteOnceCell<T> {
    slot: Option<T>,
}

impl<T> View for WriteOnceCell<T> {
    type V = Option<T>;

    closed spec fn view(&self) -> Option<T> {
        self.slot
    }
}

impl<T> WriteOnceCell<T> {
    /// A cell with no value.
    pub fn empty() -> (c: Self)
        ensures
            c@ == Option::<T>::None,
    {
        WriteOnceCell { slot: None }
    }

    /// A cell holding `v`: the one write this cell will ever see.
    pub fn filled(v: T) -> (c: Self)
        ensures
            c@ == Some(v),
    {
        WriteOnceCell { slot: Some(v) }
    }

    /// The held value, if one was written; never mutates.
    pub fn read(&self) -> (r: Option<&T>)
        ensures
            match r {
                Some(v) => self@ == Some(*v),
                None => self@ is None,
            },
    {
        self.slot.as_ref()
    }

    /// Whether a value was written.
    pub fn is_filled(&self) -> (b: bool)
        ensures
            b == (self@ is Some),
    {
        self.slot.is_some()
    }
}

} // verus!
