//! Two counters and the messages that move them.

use vstd::prelude::*;

verus! {

/// A counter that goes up and down by one.
pub struct Counter {
    pub value: i64,
}

/// What can be asked of a counter.
#[derive(Debug, Clone, Copy)]
pub enum CounterMessage {
    Increment,
    Decrement,
}

/// The amount by which a message moves a counter.
pub open spec fn delta(message: CounterMessage) -> int {
    match message {
        CounterMessage::Increment => 1,
        CounterMessage::Decrement => -1,
    }
}

impl Default for Counter {
    fn default() -> (counter: Counter)
        ensures
            counter.value == 0,
    {
        Counter { value: 0 }
    }
}

impl Counter {
    /// A counter at zero.
    pub fn new() -> (counter: Counter)
        ensures
            counter.value == 0,
    {
        Counter { value: 0 }
    }

    /// The counter can take `message` without leaving the range of its
    /// value.
    pub open spec fn accepts(self, message: CounterMessage) -> bool {
        i64::MIN <= self.value + delta(message) <= i64::MAX
    }

    /// Says whether the counter can take `message`.
    pub fn can_update(&self, message: CounterMessage) -> (can: bool)
        ensures
            can == self.accepts(message),
    {
        match message {
            CounterMessage::Increment => self.value < i64::MAX,
            CounterMessage::Decrement => self.value > i64::MIN,
        }
    }

    /// Moves the counter by one, up or down as the message says.
    pub fn update(&mut self, message: CounterMessage)
        requires
            old(self).accepts(message),
        ensures
            final(self).value == old(self).value + delta(message),
    {
        match message {
            CounterMessage::Increment => self.value += 1,
            CounterMessage::Decrement => self.value -= 1,
        }
    }
}

/// The state of the application: its two counters.
pub struct App {
    pub counter1: Counter,
    pub counter2: Counter,
}

/// A message for one of the two counters.
#[derive(Debug, Clone, Copy)]
pub enum Message {
    Counter1(CounterMessage),
    Counter2(CounterMessage),
}

impl Default for App {
    fn default() -> (app: App)
        ensures
            app.counter1.value == 0,
            app.counter2.value == 0,
    {
        App { counter1: Counter::new(), counter2: Counter::new() }
    }
}

impl App {
    /// The counter that `message` is for can take it.
    pub open spec fn accepts(self, message: Message) -> bool {
        match message {
            Message::Counter1(m) => self.counter1.accepts(m),
            Message::Counter2(m) => self.counter2.accepts(m),
        }
    }

    /// The state after `message`: the counter that it names has moved, the
    /// other one has not.
    pub open spec fn after(self, message: Message) -> App {
        match message {
            Message::Counter1(m) => App {
                counter1: Counter { value: (self.counter1.value + delta(m)) as i64 },
                counter2: self.counter2,
            },
            Message::Counter2(m) => App {
                counter1: self.counter1,
                counter2: Counter { value: (self.counter2.value + delta(m)) as i64 },
            },
        }
    }

    /// Says whether the counter that `message` is for can take it.
    pub fn can_update(&self, message: Message) -> (can: bool)
        ensures
            can == self.accepts(message),
    {
        match message {
            Message::Counter1(msg) => self.counter1.can_update(msg),
            Message::Counter2(msg) => self.counter2.can_update(msg),
        }
    }

    /// Hands the message to the counter that it names.
    pub fn update(&mut self, message: Message)
        requires
            old(self).accepts(message),
        ensures
            *final(self) == old(self).after(message),
    {
        match message {
            Message::Counter1(msg) => self.counter1.update(msg),
            Message::Counter2(msg) => self.counter2.update(msg),
        }
    }
}

} // verus!
