//! Small extensions over std types.

use vstd::prelude::*;

verus! {

/// An extension of `Option`: overwrite the option with a value, whatever it
/// held before.
pub trait OptionExtensions<T> {
    fn insert_stable(&mut self, value: T);
}

impl<T> OptionExtensions<T> for Option<T> {
    /// After the call the option holds exactly `value`.
    fn insert_stable(&mut self, value: T)
        ensures
            *final(self) == Some(value),
    {
        *self = Some(value);
    }
}

} // verus!
