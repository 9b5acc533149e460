//! A counter that goes up by one on each press.

use vstd::prelude::*;

verus! {

/// The number of presses so far.
pub struct Counter {
    value: i32,
}

/// What the host can tell a [`Counter`].
#[derive(Debug, Clone, Copy)]
pub enum Message {
    ButtonPressed,
}

impl View for Counter {
    type V = int;

    closed spec fn view(&self) -> int {
        self.value as int
    }
}

impl Counter {
    /// A counter that has not been pressed yet.
    pub fn new() -> (counter: Self)
        ensures
            counter@ == 0,
    {
        Counter { value: 0 }
    }

    /// The count as it stands.
    pub fn value(&self) -> (value: i32)
        ensures
            value == self@,
    {
        self.value
    }

    /// Handles one message: a press adds one to the count.
    pub fn update(&mut self, message: Message)
        requires
            old(self)@ < i32::MAX,
        ensures
            final(self)@ == old(self)@ + 1,
    {
        match message {
            Message::ButtonPressed => {
                self.value = self.value + 1;
            },
        }
    }
}

} // verus!
