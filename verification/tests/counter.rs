use seven_guis::counter::{Counter, Message};

#[test]
fn a_new_counter_shows_zero() {
    assert_eq!(Counter::new().value(), 0);
}

#[test]
fn each_press_adds_one() {
    let mut counter = Counter::new();
    for pressed in 1..=1_000 {
        counter.update(Message::ButtonPressed);
        assert_eq!(counter.value(), pressed);
    }
}
