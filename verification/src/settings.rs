//! The switches that the user's settings hold.

use vstd::prelude::*;

verus! {

/// A value in the settings store, as far as a switch can tell: a truth value, or anything else.
#[derive(Clone, Copy, Debug, PartialEq, Eq, Structural)]
pub enum StoredValue {
    Bool(bool),
    Other,
}

impl StoredValue {
    /// The truth value, if this is one.
    pub open spec fn flag(self) -> Option<bool> {
        match self {
            StoredValue::Bool(value) => Some(value),
            StoredValue::Other => None,
        }
    }

    /// The truth value, if this is one.
    pub fn as_bool(&self) -> (r: Option<bool>)
        ensures
            r == self.flag(),
    {
        match self {
            StoredValue::Bool(value) => Some(*value),
            StoredValue::Other => None,
        }
    }
}

/// Whether a switch is on: only if the store holds `true` for it. `None` stands for a store that
/// cannot be opened or holds nothing under the name.
pub fn store_flag(stored: Option<StoredValue>) -> (on: bool)
    ensures
        on == (stored == Some(StoredValue::Bool(true))),
{
    match stored {
        Some(value) => value.as_bool().unwrap_or(false),
        None => false,
    }
}

} // verus!
