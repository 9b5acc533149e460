//! Flight booking: which of the two date fields hold a usable date, and
//! whether the flight can be booked.
//!
//! A date is entered as text, day first (`31-01-2024`). Reading the text is
//! left to `chrono`; everything that is decided from the dates read is
//! verified here.

use vstd::prelude::*;

pub mod style;

use crate::text::texts;
use style::TextInput;

verus! {

/// One way, or there and back.
#[derive(Debug, Clone, Copy, PartialEq, Eq, Structural)]
pub enum FlightType {
    OneWay,
    Return,
}

impl Default for FlightType {
    fn default() -> (flight_type: Self)
        ensures
            flight_type == FlightType::OneWay,
    {
        FlightType::OneWay
    }
}

impl FlightType {
    /// The name under which the kind of flight is offered and announced.
    pub open spec fn spec_label(self) -> Seq<char> {
        match self {
            FlightType::OneWay => "One-way Flight"@,
            FlightType::Return => "Return Flight"@,
        }
    }

    /// The name under which the kind of flight is offered and announced.
    pub fn label(&self) -> (label: String)
        ensures
            label@ == self.spec_label(),
    {
        match self {
            FlightType::OneWay => String::from_str("One-way Flight"),
            FlightType::Return => String::from_str("Return Flight"),
        }
    }
}

/// A calendar day, held as its number in the proleptic Gregorian calendar:
/// the first of January of the year 1 is day 1, and each later day is one
/// more.
#[derive(Debug, Clone, Copy, PartialEq, Eq, Structural)]
pub struct Date {
    pub day_number: i32,
}

impl Date {
    /// The number of days from `earlier` to `self`; negative where `self` is
    /// the earlier of the two.
    pub open spec fn spec_days_since(self, earlier: Date) -> int {
        self.day_number - earlier.day_number
    }

    /// The number of days from `earlier` to `self`; negative where `self` is
    /// the earlier of the two.
    pub fn days_since(&self, earlier: &Date) -> (days: i64)
        ensures
            days == self.spec_days_since(*earlier),
    {
        self.day_number as i64 - earlier.day_number as i64
    }
}

/// The pattern of a date field, as `chrono` writes it: day, month and year,
/// with hyphens between.
pub const DATE_FORMAT: &'static str = "%d-%m-%Y";

/// The pattern of a date field.
pub open spec fn date_format() -> Seq<char> {
    DATE_FORMAT@
}

/// The day number of the date that `chrono::NaiveDate::parse_from_str` reads
/// from `text` under the pattern `format`, or `None` where it reports an
/// error.
pub uninterp spec fn parsed_day_number(text: Seq<char>, format: Seq<char>) -> Option<i32>;

/// Calls `chrono::NaiveDate::parse_from_str` on `text` and `format`, and
/// `chrono::Datelike::num_days_from_ce` on the date that it read, if it read
/// one.
///
/// Trusted: that the two calls return; that what they return depends on
/// `text` alone; and that the empty text is an error, since the pattern
/// starts with the day and `chrono` wants at least one digit for it.
/// Nothing else is claimed about which texts are dates, and nothing about
/// any other pattern than that of a date field.
#[verifier::external_body]
fn parse_day_number(text: &str, format: &str) -> (day: Option<i32>)
    requires
        format@ == date_format(),
    ensures
        day == parsed_day_number(text@, format@),
        text@.len() == 0 ==> day is None,
{
    match chrono::NaiveDate::parse_from_str(text, format) {
        Ok(date) => Some(chrono::Datelike::num_days_from_ce(&date)),
        Err(_) => None,
    }
}

/// The date that a field holding `text` stands for, if it stands for one.
pub open spec fn date_of(text: Seq<char>) -> Option<Date> {
    match parsed_day_number(text, date_format()) {
        Some(day_number) => Some(Date { day_number }),
        None => None,
    }
}

/// Reads a date field. An empty field holds no date.
pub fn parse_date(text: &str) -> (date: Option<Date>)
    ensures
        date == date_of(text@),
        text@.len() == 0 ==> date is None,
{
    match parse_day_number(text, DATE_FORMAT) {
        Some(day_number) => Some(Date { day_number }),
        None => None,
    }
}

/// Whether the outbound field is valid: it holds a date.
pub open spec fn outbound_ok(outbound: Option<Date>) -> bool {
    outbound is Some
}

/// Whether the inbound field is valid. On a one-way flight it always is,
/// whatever it holds. On a return flight both fields must hold a date, and
/// the inbound date must be at least one day after the outbound date.
pub open spec fn inbound_ok(
    flight_type: FlightType,
    outbound: Option<Date>,
    inbound: Option<Date>,
) -> bool {
    match flight_type {
        FlightType::OneWay => true,
        FlightType::Return => {
            &&& inbound is Some
            &&& outbound is Some
            &&& inbound->0.spec_days_since(outbound->0) > 0
        },
    }
}

/// The verdict on a booking form: outbound valid, inbound valid, bookable.
pub open spec fn validity(
    flight_type: FlightType,
    outbound: Option<Date>,
    inbound: Option<Date>,
) -> (bool, bool, bool) {
    (
        outbound_ok(outbound),
        inbound_ok(flight_type, outbound, inbound),
        outbound_ok(outbound) && inbound_ok(flight_type, outbound, inbound),
    )
}

/// Judges a booking form from the dates that its two fields were read as
/// (`None` for a field that holds no date). Returns, in this order, whether
/// the outbound field is valid, whether the inbound field is valid, and
/// whether the flight can be booked.
pub fn validity_from_dates(
    flight_type: FlightType,
    outbound: Option<Date>,
    inbound: Option<Date>,
) -> (verdict: (bool, bool, bool))
    ensures
        verdict == validity(flight_type, outbound, inbound),
        verdict.2 == (verdict.0 && verdict.1),
        flight_type == FlightType::OneWay ==> verdict.1,
{
    let outbound_valid = outbound.is_some();
    let inbound_valid = match flight_type {
        FlightType::OneWay => true,
        FlightType::Return => match (&inbound, &outbound) {
            (Some(inbound_date), Some(outbound_date)) => inbound_date.days_since(outbound_date)
                > 0,
            _ => false,
        },
    };
    (outbound_valid, inbound_valid, outbound_valid && inbound_valid)
}

/// Judges a booking form from the texts of its two fields. Returns, in this
/// order, whether the outbound field is valid, whether the inbound field is
/// valid, and whether the flight can be booked.
///
/// Text that is no date is never an error: the field is simply not valid,
/// and an empty field never is. On a one-way flight the inbound text is not
/// looked at.
pub fn evaluate(flight_type: FlightType, outbound_text: &str, inbound_text: &str) -> (verdict: (
    bool,
    bool,
    bool,
))
    ensures
        verdict == validity(flight_type, date_of(outbound_text@), date_of(inbound_text@)),
        verdict.2 == (verdict.0 && verdict.1),
        flight_type == FlightType::OneWay ==> verdict.1,
        outbound_text@.len() == 0 ==> !verdict.0,
        flight_type == FlightType::Return && inbound_text@.len() == 0 ==> !verdict.1,
{
    let outbound = parse_date(outbound_text);
    let inbound = match flight_type {
        FlightType::OneWay => None,
        FlightType::Return => parse_date(inbound_text),
    };
    validity_from_dates(flight_type, outbound, inbound)
}

/// A text field of the form: what was typed, and how the field is shown.
pub struct TextInputData {
    pub value: String,
    pub style: TextInput,
}

/// What the host can tell the booking form.
#[derive(Debug, Clone)]
pub enum Message {
    /// Another kind of flight was picked.
    TypeSelected(FlightType),
    /// The outbound field now holds this text.
    OutboundUpdated(String),
    /// The inbound field now holds this text.
    InboundUpdated(String),
    /// The flight is to be booked.
    BookRequest,
}

/// The booking form: the kind of flight, the two date fields, and whether
/// the flight can be booked as the form stands.
pub struct Flights {
    valid: bool,
    type_selected: FlightType,
    input_outbound: TextInputData,
    input_inbound: TextInputData,
}

/// The booking form as contracts see it.
pub struct FlightsView {
    pub valid: bool,
    pub type_selected: FlightType,
    pub outbound: Seq<char>,
    pub outbound_style: TextInput,
    pub inbound: Seq<char>,
    pub inbound_style: TextInput,
}

impl View for Flights {
    type V = FlightsView;

    closed spec fn view(&self) -> FlightsView {
        FlightsView {
            valid: self.valid,
            type_selected: self.type_selected,
            outbound: self.input_outbound.value@,
            outbound_style: self.input_outbound.style,
            inbound: self.input_inbound.value@,
            inbound_style: self.input_inbound.style,
        }
    }
}

impl FlightsView {
    /// The form before anything was entered: a one-way flight, both fields
    /// empty and shown as enabled, and not bookable.
    pub open spec fn initial() -> FlightsView {
        FlightsView {
            valid: false,
            type_selected: FlightType::OneWay,
            outbound: Seq::empty(),
            outbound_style: TextInput::Enabled,
            inbound: Seq::empty(),
            inbound_style: TextInput::Enabled,
        }
    }

    /// The verdict on the form as it stands: outbound valid, inbound valid,
    /// bookable.
    pub open spec fn verdict(self) -> (bool, bool, bool) {
        validity(self.type_selected, date_of(self.outbound), date_of(self.inbound))
    }

    /// The form after `message` was taken in, before it is judged again.
    /// Text for the inbound field is dropped while the flight is one-way.
    pub open spec fn received(self, message: Message) -> FlightsView {
        match message {
            Message::TypeSelected(flight_type) => FlightsView {
                type_selected: flight_type,
                ..self
            },
            Message::OutboundUpdated(text) => FlightsView { outbound: text@, ..self },
            Message::InboundUpdated(text) => match self.type_selected {
                FlightType::Return => FlightsView { inbound: text@, ..self },
                FlightType::OneWay => self,
            },
            Message::BookRequest => self,
        }
    }

    /// How the outbound field is shown once the form is judged: enabled
    /// where it is valid, and invalid where it is not.
    pub open spec fn judged_outbound_style(self) -> TextInput {
        if self.verdict().0 {
            TextInput::Enabled
        } else {
            TextInput::Invalid
        }
    }

    /// How the inbound field is shown once the form is judged: disabled on
    /// a one-way flight; on a return flight enabled where it is valid, and
    /// invalid where it is not, whatever it was shown as before.
    pub open spec fn judged_inbound_style(self) -> TextInput {
        match self.type_selected {
            FlightType::OneWay => TextInput::Disabled,
            FlightType::Return => if self.verdict().1 {
                TextInput::Enabled
            } else {
                TextInput::Invalid
            },
        }
    }

    /// The form after it was judged: the kind of flight and the texts stay,
    /// `valid` says whether the flight can be booked, and each field is
    /// shown according to the verdict on it.
    pub open spec fn revalidated(self) -> FlightsView {
        FlightsView {
            valid: self.verdict().2,
            outbound_style: self.judged_outbound_style(),
            inbound_style: self.judged_inbound_style(),
            ..self
        }
    }

    /// The lines that announce a booking of the form as it stands: the kind
    /// of flight, the outbound text and, on a return flight, the inbound
    /// text. Each line starts with a line feed.
    pub open spec fn booking_lines(self) -> Seq<Seq<char>> {
        let booked = "\nA "@ + self.type_selected.spec_label() + " has been booked"@;
        let departing = "\nDeparting on: "@ + self.outbound;
        let returning = "\nReturning on: "@ + self.inbound;
        match self.type_selected {
            FlightType::OneWay => seq![booked, departing],
            FlightType::Return => seq![booked, departing, returning],
        }
    }

    /// What is to be printed on `message`: the announcement of the booking
    /// on a booking request, and nothing on any other message.
    pub open spec fn announcement(self, message: Message) -> Seq<Seq<char>> {
        if message is BookRequest {
            self.booking_lines()
        } else {
            Seq::empty()
        }
    }
}

impl Flights {
    /// The form before anything was entered.
    pub fn new() -> (form: Self)
        ensures
            form@ == FlightsView::initial(),
    {
        Flights {
            valid: false,
            type_selected: FlightType::OneWay,
            input_outbound: TextInputData { value: String::new(), style: TextInput::Enabled },
            input_inbound: TextInputData { value: String::new(), style: TextInput::Enabled },
        }
    }

    /// Whether the flight can be booked, as of the last judgement.
    pub fn is_bookable(&self) -> (valid: bool)
        ensures
            valid == self@.valid,
    {
        self.valid
    }

    /// The kind of flight that is picked.
    pub fn type_selected(&self) -> (flight_type: FlightType)
        ensures
            flight_type == self@.type_selected,
    {
        self.type_selected
    }

    /// The outbound field.
    pub fn input_outbound(&self) -> (field: &TextInputData)
        ensures
            field.value@ == self@.outbound,
            field.style == self@.outbound_style,
    {
        &self.input_outbound
    }

    /// The inbound field.
    pub fn input_inbound(&self) -> (field: &TextInputData)
        ensures
            field.value@ == self@.inbound,
            field.style == self@.inbound_style,
    {
        &self.input_inbound
    }

    /// Judges the form anew from what it holds now: whether it can be
    /// booked, and how each field is shown. Nothing of the last judgement
    /// is kept.
    pub fn update_validity(&mut self)
        ensures
            final(self)@ == old(self)@.revalidated(),
            final(self)@.valid == final(self)@.verdict().2,
            final(self)@.outbound_style == final(self)@.judged_outbound_style(),
            final(self)@.inbound_style == final(self)@.judged_inbound_style(),
            final(self)@.outbound.len() == 0 ==> !final(self)@.valid,
    {
        let outbound = parse_date(self.input_outbound.value.as_str());
        let inbound = parse_date(self.input_inbound.value.as_str());
        let verdict = validity_from_dates(self.type_selected, outbound, inbound);

        if verdict.0 {
            self.input_outbound.style = TextInput::Enabled;
        } else {
            self.input_outbound.style = TextInput::Invalid;
        }

        match self.type_selected {
            FlightType::Return => {
                if verdict.1 {
                    self.input_inbound.style = TextInput::Enabled;
                } else {
                    self.input_inbound.style = TextInput::Invalid;
                }
            },
            FlightType::OneWay => {
                self.input_inbound.style = TextInput::Disabled;
            },
        }

        self.valid = verdict.2;
    }

    /// The lines that announce a booking of the form as it stands.
    pub fn book_flight(&self) -> (lines: Vec<String>)
        ensures
            texts(lines@) == self@.booking_lines(),
            lines@.len() == self@.booking_lines().len(),
    {
        let mut booked = String::from_str("\nA ");
        booked.append(self.type_selected.label().as_str());
        booked.append(" has been booked");
        let mut departing = String::from_str("\nDeparting on: ");
        departing.append(self.input_outbound.value.as_str());

        let mut lines: Vec<String> = Vec::new();
        lines.push(booked);
        lines.push(departing);
        match self.type_selected {
            FlightType::Return => {
                let mut returning = String::from_str("\nReturning on: ");
                returning.append(self.input_inbound.value.as_str());
                lines.push(returning);
            },
            FlightType::OneWay => {},
        }
        assert(texts(lines@) =~= self@.booking_lines());
        lines
    }

    /// Takes in one message and judges the form anew. Returns the lines to
    /// print: the announcement of the booking for a booking request, and
    /// nothing for any other message.
    ///
    /// Because the form is judged after every message, neither its verdict
    /// nor the look of a field ever lags behind the kind of flight or the
    /// texts it holds.
    pub fn update(&mut self, message: Message) -> (lines: Vec<String>)
        ensures
            final(self)@ == old(self)@.received(message).revalidated(),
            final(self)@.valid == final(self)@.verdict().2,
            final(self)@.outbound_style == final(self)@.judged_outbound_style(),
            final(self)@.inbound_style == final(self)@.judged_inbound_style(),
            final(self)@.outbound.len() == 0 ==> !final(self)@.valid,
            texts(lines@) == old(self)@.announcement(message),
            lines@.len() == old(self)@.announcement(message).len(),
    {
        let mut lines: Vec<String> = Vec::new();
        match message {
            Message::TypeSelected(flight_type) => {
                self.type_selected = flight_type;
            },
            Message::OutboundUpdated(text) => {
                self.input_outbound.value = text;
            },
            Message::InboundUpdated(text) => {
                match self.type_selected {
                    FlightType::Return => {
                        self.input_inbound.value = text;
                    },
                    FlightType::OneWay => {},
                }
            },
            Message::BookRequest => {
                lines = self.book_flight();
            },
        }
        assert(texts(lines@) =~= old(self)@.announcement(message));
        self.update_validity();
        lines
    }
}

/// Once a form is judged, the look of each field says whether the field is
/// valid, whatever the looks were before: the outbound field is shown as
/// enabled exactly if it is valid; the inbound field is shown as disabled
/// exactly on a one-way flight, and on a return flight as enabled exactly
/// if it is valid. So no field that is not valid is ever shown as enabled.
pub proof fn lemma_looks_follow_verdict(form: FlightsView)
    ensures
        ({
            let judged = form.revalidated();
            &&& judged.verdict() == form.verdict()
            &&& judged.outbound_style == TextInput::Enabled <==> judged.verdict().0
            &&& judged.outbound_style != TextInput::Disabled
            &&& judged.inbound_style == TextInput::Disabled <==> judged.type_selected
                == FlightType::OneWay
            &&& judged.type_selected == FlightType::Return ==> (judged.inbound_style
                == TextInput::Enabled <==> judged.verdict().1)
            &&& judged.type_selected == FlightType::Return && date_of(judged.outbound) is None
                ==> judged.inbound_style == TextInput::Invalid
        }),
{
}

/// Judging a form that was just judged changes nothing.
pub proof fn lemma_judging_twice(form: FlightsView)
    ensures
        form.revalidated().revalidated() == form.revalidated(),
{
}

/// However a form came about, once a message was taken in it can be booked
/// exactly if both of its fields are valid as they stand, and on a one-way
/// flight exactly if the outbound field holds a date.
pub proof fn lemma_bookable_after_message(form: FlightsView, message: Message)
    ensures
        ({
            let after = form.received(message).revalidated();
            &&& after.valid == (after.verdict().0 && after.verdict().1)
            &&& after.type_selected == FlightType::OneWay ==> after.valid == (date_of(
                after.outbound,
            ) is Some)
        }),
{
}

} // verus!
