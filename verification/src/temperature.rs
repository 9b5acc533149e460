//! A temperature converter: a Celsius field and a Fahrenheit field that
//! follow each other.
//!
//! The arithmetic of a conversion is done by the host, which hands in its
//! outcome: the converted temperature as text, or nothing where the text
//! that was entered is no number. What each field then shows is decided
//! here.

use vstd::prelude::*;

verus! {

/// What a field shows in place of a temperature where the text of the
/// other field is no number.
pub const NO_NUMBER: &'static str = "err";

/// What a field shows for the outcome of converting the other field's
/// text: the converted temperature, or [`NO_NUMBER`] where there is none.
pub open spec fn shown(converted: Option<String>) -> Seq<char> {
    match converted {
        Some(temperature) => temperature@,
        None => NO_NUMBER@,
    }
}

/// What the Fahrenheit field shows after the Celsius field was edited.
/// `fahrenheit` is the text of the Celsius field converted to degrees
/// Fahrenheit, or `None` where that text is no number.
pub fn c_to_f(fahrenheit: Option<String>) -> (text: String)
    ensures
        text@ == shown(fahrenheit),
{
    match fahrenheit {
        Some(temperature) => temperature,
        None => String::from_str(NO_NUMBER),
    }
}

/// What the Celsius field shows after the Fahrenheit field was edited.
/// `celsius` is the text of the Fahrenheit field converted to degrees
/// Celsius, or `None` where that text is no number.
pub fn f_to_c(celsius: Option<String>) -> (text: String)
    ensures
        text@ == shown(celsius),
{
    match celsius {
        Some(temperature) => temperature,
        None => String::from_str(NO_NUMBER),
    }
}

/// What the host can tell the converter.
#[derive(Debug, Clone)]
pub enum Message {
    /// The Celsius field now holds this text.
    CUpdated(String),
    /// The Fahrenheit field now holds this text.
    FUpdated(String),
}

/// The converter as contracts see it: the texts of its two fields.
pub struct TemperatureState {
    pub celsius: Seq<char>,
    pub fahrenheit: Seq<char>,
}

impl TemperatureState {
    /// The converter after `message` was taken in, where `converted` is
    /// the outcome of converting the text that the message brings: the
    /// field that was edited holds the new text, and the other field shows
    /// the outcome.
    pub open spec fn received(self, message: Message, converted: Option<String>) -> TemperatureState {
        match message {
            Message::CUpdated(text) => TemperatureState {
                celsius: text@,
                fahrenheit: shown(converted),
            },
            Message::FUpdated(text) => TemperatureState {
                celsius: shown(converted),
                fahrenheit: text@,
            },
        }
    }
}

/// The converter: a Celsius field and a Fahrenheit field that follow each
/// other.
pub struct Temperature {
    c_value: String,
    f_value: String,
}

impl View for Temperature {
    type V = TemperatureState;

    closed spec fn view(&self) -> TemperatureState {
        TemperatureState { celsius: self.c_value@, fahrenheit: self.f_value@ }
    }
}

impl Temperature {
    /// The converter with both fields empty.
    pub fn new() -> (converter: Self)
        ensures
            converter@.celsius == Seq::<char>::empty(),
            converter@.fahrenheit == Seq::<char>::empty(),
    {
        Temperature { c_value: String::new(), f_value: String::new() }
    }

    /// What the Celsius field holds.
    pub fn c_value(&self) -> (text: &String)
        ensures
            text@ == self@.celsius,
    {
        &self.c_value
    }

    /// What the Fahrenheit field holds.
    pub fn f_value(&self) -> (text: &String)
        ensures
            text@ == self@.fahrenheit,
    {
        &self.f_value
    }

    /// Takes in one message, together with the outcome of converting the
    /// text that it brings, to degrees Fahrenheit for the Celsius field and
    /// to degrees Celsius for the Fahrenheit field. The field that was
    /// edited holds the new text, and the other field shows the outcome.
    pub fn update(&mut self, message: Message, converted: Option<String>)
        ensures
            final(self)@ == old(self)@.received(message, converted),
    {
        match message {
            Message::CUpdated(text) => {
                self.f_value = c_to_f(converted);
                self.c_value = text;
            },
            Message::FUpdated(text) => {
                self.c_value = f_to_c(converted);
                self.f_value = text;
            },
        }
    }
}

} // verus!
