use seven_guis::flights::style::TextInput;
use seven_guis::flights::{
    evaluate, parse_date, validity_from_dates, Date, FlightType, Flights, Message,
};

fn day(day_number: i32) -> Option<Date> {
    Some(Date { day_number })
}

#[test]
fn return_with_later_inbound_is_bookable() {
    assert_eq!(evaluate(FlightType::Return, "01-01-2024", "02-01-2024"), (true, true, true));
}

#[test]
fn return_on_the_same_day_is_rejected() {
    assert_eq!(evaluate(FlightType::Return, "01-01-2024", "01-01-2024"), (true, false, false));
}

#[test]
fn return_before_outbound_is_rejected() {
    assert_eq!(evaluate(FlightType::Return, "31-01-2024", "01-01-2024"), (true, false, false));
}

#[test]
fn one_way_with_bad_outbound_is_not_bookable() {
    assert_eq!(evaluate(FlightType::OneWay, "not-a-date", "irrelevant"), (false, true, false));
}

#[test]
fn one_way_never_looks_at_the_inbound_text() {
    for inbound in ["", "garbage", "31-31-2024", "01-01-2024", "01-01-1900"] {
        let verdict = evaluate(FlightType::OneWay, "15-06-2024", inbound);
        assert_eq!(verdict, (true, true, true));
        let verdict = evaluate(FlightType::OneWay, "15-06", inbound);
        assert_eq!(verdict, (false, true, false));
    }
}

#[test]
fn bookable_is_both_fields_valid() {
    let texts = ["", "x", "01-01-2024", "02-01-2024", "29-02-2023", "29-02-2024"];
    for flight_type in [FlightType::OneWay, FlightType::Return] {
        for outbound in texts {
            for inbound in texts {
                let (outbound_valid, inbound_valid, bookable) =
                    evaluate(flight_type, outbound, inbound);
                assert_eq!(bookable, outbound_valid && inbound_valid);
            }
        }
    }
}

#[test]
fn empty_text_is_no_date() {
    assert_eq!(parse_date(""), None);
    assert_eq!(evaluate(FlightType::Return, "", ""), (false, false, false));
    assert_eq!(evaluate(FlightType::Return, "01-01-2024", ""), (true, false, false));
    assert_eq!(evaluate(FlightType::OneWay, "", ""), (false, true, false));
}

#[test]
fn return_with_bad_outbound_has_no_valid_field() {
    assert_eq!(evaluate(FlightType::Return, "nope", "02-01-2024"), (false, false, false));
}

#[test]
fn dates_are_read_day_first() {
    assert_eq!(parse_date("01-01-0001"), day(1));
    assert_eq!(parse_date("02-01-0001"), day(2));
    assert_eq!(parse_date("01-02-0001"), day(32));
    assert_eq!(parse_date("01-01-1970"), day(719_163));
    assert_eq!(parse_date("01-01-2024"), day(738_886));
    assert_eq!(parse_date("2024-01-01"), None);
    assert_eq!(parse_date("31-02-2024"), None);
    assert_eq!(parse_date("29-02-2023"), None);
    assert_eq!(parse_date("29-02-2024"), day(738_945));
    assert_eq!(parse_date("01-01-2024 "), None);
    assert_eq!(parse_date("01/01/2024"), None);
}

#[test]
fn a_return_across_the_turn_of_the_year() {
    assert_eq!(evaluate(FlightType::Return, "31-12-2023", "01-01-2024"), (true, true, true));
    assert_eq!(evaluate(FlightType::Return, "28-02-2024", "01-03-2024"), (true, true, true));
}

#[test]
fn days_between_dates() {
    let first = Date { day_number: 738_886 };
    let second = Date { day_number: 738_917 };
    assert_eq!(second.days_since(&first), 31);
    assert_eq!(first.days_since(&second), -31);
    let lowest = Date { day_number: i32::MIN };
    let highest = Date { day_number: i32::MAX };
    assert_eq!(highest.days_since(&lowest), 4_294_967_295);
}

#[test]
fn verdict_from_dates() {
    assert_eq!(validity_from_dates(FlightType::Return, day(10), day(11)), (true, true, true));
    assert_eq!(validity_from_dates(FlightType::Return, day(10), day(10)), (true, false, false));
    assert_eq!(validity_from_dates(FlightType::Return, day(10), day(9)), (true, false, false));
    assert_eq!(validity_from_dates(FlightType::Return, None, day(9)), (false, false, false));
    assert_eq!(validity_from_dates(FlightType::Return, day(9), None), (true, false, false));
    assert_eq!(validity_from_dates(FlightType::OneWay, None, None), (false, true, false));
    assert_eq!(validity_from_dates(FlightType::OneWay, day(9), day(1)), (true, true, true));
    assert_eq!(
        validity_from_dates(FlightType::Return, day(i32::MAX), day(i32::MIN)),
        (true, false, false)
    );
}

#[test]
fn flight_types_have_labels_and_a_default() {
    assert_eq!(FlightType::OneWay.label(), "One-way Flight");
    assert_eq!(FlightType::Return.label(), "Return Flight");
    assert_eq!(FlightType::default(), FlightType::OneWay);
    assert_eq!(TextInput::default(), TextInput::Enabled);
}

#[test]
fn a_new_form_is_empty_and_not_bookable() {
    let form = Flights::new();
    assert!(!form.is_bookable());
    assert_eq!(form.type_selected(), FlightType::OneWay);
    assert_eq!(form.input_outbound().value, "");
    assert_eq!(form.input_outbound().style, TextInput::Enabled);
    assert_eq!(form.input_inbound().value, "");
    assert_eq!(form.input_inbound().style, TextInput::Enabled);
}

#[test]
fn the_booking_form_follows_its_messages() {
    let mut form = Flights::new();

    assert!(form.update(Message::OutboundUpdated("01-01-2024".to_string())).is_empty());
    assert!(form.is_bookable());
    assert_eq!(form.input_outbound().style, TextInput::Enabled);
    assert_eq!(form.input_inbound().style, TextInput::Disabled);

    // Text for the inbound field is dropped while the flight is one-way.
    form.update(Message::InboundUpdated("05-01-2024".to_string()));
    assert_eq!(form.input_inbound().value, "");
    assert!(form.is_bookable());

    form.update(Message::TypeSelected(FlightType::Return));
    assert!(!form.is_bookable());
    assert_eq!(form.input_inbound().style, TextInput::Invalid);

    form.update(Message::InboundUpdated("01-01-2024".to_string()));
    assert!(!form.is_bookable());
    assert_eq!(form.input_inbound().style, TextInput::Invalid);

    form.update(Message::InboundUpdated("02-01-2024".to_string()));
    assert!(form.is_bookable());
    assert_eq!(form.input_inbound().style, TextInput::Enabled);

    form.update(Message::OutboundUpdated("03-01-2024".to_string()));
    assert!(!form.is_bookable());
    assert_eq!(form.input_outbound().style, TextInput::Enabled);
    assert_eq!(form.input_inbound().style, TextInput::Invalid);
}

#[test]
fn going_back_to_one_way_forgets_the_inbound_verdict() {
    let mut form = Flights::new();
    form.update(Message::TypeSelected(FlightType::Return));
    form.update(Message::OutboundUpdated("10-01-2024".to_string()));
    form.update(Message::InboundUpdated("01-01-2024".to_string()));
    assert!(!form.is_bookable());
    form.update(Message::TypeSelected(FlightType::OneWay));
    assert!(form.is_bookable());
    assert_eq!(form.input_inbound().style, TextInput::Disabled);
    assert_eq!(form.input_inbound().value, "01-01-2024");
}

#[test]
fn the_inbound_field_is_invalid_while_the_outbound_is_no_date() {
    let mut form = Flights::new();
    form.update(Message::TypeSelected(FlightType::Return));
    form.update(Message::OutboundUpdated("01-01-2024".to_string()));
    form.update(Message::InboundUpdated("01-01-2024".to_string()));
    assert_eq!(form.input_inbound().style, TextInput::Invalid);
    form.update(Message::OutboundUpdated("soon".to_string()));
    assert_eq!(form.input_outbound().style, TextInput::Invalid);
    assert_eq!(form.input_inbound().style, TextInput::Invalid);
    assert!(!form.is_bookable());

    let mut form = Flights::new();
    form.update(Message::InboundUpdated("ignored".to_string()));
    form.update(Message::TypeSelected(FlightType::Return));
    form.update(Message::InboundUpdated("02-01-2024".to_string()));
    form.update(Message::TypeSelected(FlightType::Return));
    assert_eq!(form.input_outbound().style, TextInput::Invalid);
    assert_eq!(form.input_inbound().style, TextInput::Invalid);
    assert!(!form.is_bookable());
}

#[test]
fn an_enabled_inbound_field_does_not_stay_enabled_over_a_bad_outbound() {
    let mut form = Flights::new();
    form.update(Message::TypeSelected(FlightType::Return));
    form.update(Message::OutboundUpdated("not-a-date".to_string()));
    form.update(Message::InboundUpdated("02-01-2024".to_string()));
    form.update(Message::TypeSelected(FlightType::Return));
    form.update_validity();
    assert!(!form.is_bookable());
    assert_eq!(form.input_outbound().style, TextInput::Invalid);
    assert_eq!(form.input_inbound().style, TextInput::Invalid);

    let mut form = Flights::new();
    form.update(Message::TypeSelected(FlightType::Return));
    form.update(Message::OutboundUpdated("01-01-2024".to_string()));
    form.update(Message::InboundUpdated("02-01-2024".to_string()));
    assert_eq!(form.input_inbound().style, TextInput::Enabled);
    form.update(Message::OutboundUpdated("01-01-".to_string()));
    assert_eq!(form.input_inbound().style, TextInput::Invalid);
    form.update(Message::OutboundUpdated("01-01-2024".to_string()));
    assert_eq!(form.input_inbound().style, TextInput::Enabled);
    assert!(form.is_bookable());
}

#[test]
fn a_booking_is_announced() {
    let mut form = Flights::new();
    form.update(Message::OutboundUpdated("01-01-2024".to_string()));
    assert_eq!(
        form.update(Message::BookRequest),
        vec!["\nA One-way Flight has been booked", "\nDeparting on: 01-01-2024"]
    );
    form.update(Message::TypeSelected(FlightType::Return));
    form.update(Message::InboundUpdated("09-01-2024".to_string()));
    assert_eq!(
        form.update(Message::BookRequest),
        vec![
            "\nA Return Flight has been booked",
            "\nDeparting on: 01-01-2024",
            "\nReturning on: 09-01-2024"
        ]
    );
    assert_eq!(form.book_flight().len(), 3);
    assert!(form.is_bookable());
}

#[test]
fn judging_twice_changes_nothing() {
    let mut form = Flights::new();
    form.update(Message::TypeSelected(FlightType::Return));
    form.update(Message::OutboundUpdated("01-01-2024".to_string()));
    form.update(Message::InboundUpdated("02-01-2024".to_string()));
    form.update_validity();
    form.update_validity();
    assert!(form.is_bookable());
    assert_eq!(form.input_outbound().style, TextInput::Enabled);
    assert_eq!(form.input_inbound().style, TextInput::Enabled);
}

#[test]
fn the_pattern_of_a_date_field() {
    assert_eq!(seven_guis::flights::DATE_FORMAT, "%d-%m-%Y");
    assert_eq!(parse_date("1-1-2024"), day(738_886));
    assert_eq!(parse_date("01-01-24"), day(8_401));
}
