//! How a text field of the flight booker is to be shown.

use vstd::prelude::*;

verus! {

/// The three looks of a text field.
#[derive(Debug, Clone, Copy, PartialEq, Eq, Structural)]
pub enum TextInput {
    /// The field takes input and what it holds is acceptable.
    Enabled,
    /// The field is not in use.
    Disabled,
    /// The field takes input and what it holds is not acceptable.
    Invalid,
}

impl Default for TextInput {
    fn default() -> (style: Self)
        ensures
            style == TextInput::Enabled,
    {
        TextInput::Enabled
    }
}

} // verus!
