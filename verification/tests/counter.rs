use node_cache::counter::{App, Counter, CounterMessage, Message};

#[test]
fn it_counts_properly() {
    let mut counter = Counter::new();

    counter.update(CounterMessage::Increment);
    counter.update(CounterMessage::Increment);
    counter.update(CounterMessage::Decrement);

    assert_eq!(counter.value, 1);
}

#[test]
fn new_counter_is_zero() {
    assert_eq!(Counter::new().value, 0);
    assert_eq!(Counter::default().value, 0);
}

#[test]
fn counter_goes_below_zero() {
    let mut counter = Counter::new();
    counter.update(CounterMessage::Decrement);
    counter.update(CounterMessage::Decrement);
    assert_eq!(counter.value, -2);
}

#[test]
fn counter_reaches_the_ends_of_its_range() {
    let mut high = Counter { value: i64::MAX - 1 };
    high.update(CounterMessage::Increment);
    assert_eq!(high.value, i64::MAX);
    let mut low = Counter { value: i64::MIN + 1 };
    low.update(CounterMessage::Decrement);
    assert_eq!(low.value, i64::MIN);
}

#[test]
fn app_starts_with_both_counters_at_zero() {
    let app = App::default();
    assert_eq!(app.counter1.value, 0);
    assert_eq!(app.counter2.value, 0);
}

#[test]
fn app_moves_only_the_named_counter() {
    let mut app = App::default();
    app.update(Message::Counter1(CounterMessage::Increment));
    app.update(Message::Counter1(CounterMessage::Increment));
    app.update(Message::Counter2(CounterMessage::Decrement));
    assert_eq!(app.counter1.value, 2);
    assert_eq!(app.counter2.value, -1);
    app.update(Message::Counter2(CounterMessage::Increment));
    assert_eq!(app.counter1.value, 2);
    assert_eq!(app.counter2.value, 0);
}
