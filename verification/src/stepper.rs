//! A counter that goes up and down: two buttons, one step each.

use vstd::prelude::*;
use vstd::string::*;
use crate::decimal::{format_integer, integer_text};
use crate::widget::{count_buttons, count_senders, count_texts, Column, ColumnModel, Widget, WidgetModel};

verus! {

/// What the user asked for.
#[derive(Debug, Clone, Copy, PartialEq, Eq, Structural)]
pub enum Message {
    IncrementPressed,
    DecrementPressed,
}

/// The counter's value after one message: a step up or a step down.
pub open spec fn step(count: int, message: Message) -> int {
    match message {
        Message::IncrementPressed => count + 1,
        Message::DecrementPressed => count - 1,
    }
}

/// The counter's value after a sequence of messages, handled first to last.
pub open spec fn replay(count: int, messages: Seq<Message>) -> int
    decreases messages.len(),
{
    if messages.len() == 0 {
        count
    } else {
        step(replay(count, messages.drop_last()), messages.last())
    }
}

/// How often `message` occurs in `messages`.
pub open spec fn occurrences(messages: Seq<Message>, message: Message) -> nat
    decreases messages.len(),
{
    if messages.len() == 0 {
        0
    } else {
        let rest = occurrences(messages.drop_last(), message);
        if messages.last() == message {
            rest + 1
        } else {
            rest
        }
    }
}

/// Whether the value fits the counter.
pub open spec fn fits(count: int) -> bool {
    i32::MIN <= count <= i32::MAX
}

/// The widgets that show a counter of the given value: its text, then a
/// button for each direction.
pub open spec fn layout(count: int) -> ColumnModel<Message> {
    ColumnModel {
        children: seq![
            WidgetModel::Text("Current count: "@ + integer_text(count)),
            WidgetModel::Button { label: "Increment"@, on_press: Message::IncrementPressed },
            WidgetModel::Button { label: "Decrement"@, on_press: Message::DecrementPressed },
        ],
        padding: 20,
        spacing: 10,
    }
}

/// The application's state: the current count.
pub struct MyApp {
    count: i32,
}

impl MyApp {
    /// The count as a mathematical integer.
    pub closed spec fn value(&self) -> int {
        self.count as int
    }

    /// A counter at zero.
    pub fn new() -> (app: Self)
        ensures
            app.value() == 0,
    {
        MyApp { count: 0 }
    }

    /// A counter at the given value.
    pub fn with_count(count: i32) -> (app: Self)
        ensures
            app.value() == count,
    {
        MyApp { count }
    }

    /// The current count.
    pub fn count(&self) -> (count: i32)
        ensures
            count == self.value(),
    {
        self.count
    }

    /// The window's title.
    pub fn title(&self) -> (title: String)
        ensures
            title@ == "Iced GUI App"@,
    {
        String::from_str("Iced GUI App")
    }

    /// Whether the counter can take the step that `message` asks for, that
    /// is, whether the new value still fits.
    pub fn accepts(&self, message: Message) -> (ok: bool)
        ensures
            ok == fits(step(self.value(), message)),
    {
        match message {
            Message::IncrementPressed => self.count < i32::MAX,
            Message::DecrementPressed => self.count > i32::MIN,
        }
    }

    /// Handles one message: a step up or a step down.
    ///
    /// The count has a fixed width, so the step must not leave its range:
    /// ask [`accepts`](Self::accepts) first where that is not known.
    pub fn update(&mut self, message: Message)
        requires
            fits(step(old(self).value(), message)),
        ensures
            final(self).value() == step(old(self).value(), message),
    {
        match message {
            Message::IncrementPressed => self.count += 1,
            Message::DecrementPressed => self.count -= 1,
        }
    }

    /// Describes the widgets that show the counter: one text with the count,
    /// then one button for each message.
    pub fn view(&self) -> (column: Column<Message>)
        ensures
            column@ == layout(self.value()),
            count_texts(column@.children) == 1,
            count_buttons(column@.children) == 2,
            count_senders(column@.children, Message::IncrementPressed) == 1,
            count_senders(column@.children, Message::DecrementPressed) == 1,
    {
        let mut text = String::from_str("Current count: ");
        let number = format_integer(self.count);
        text.append(number.as_str());
        let column = Column {
            children: vec![
                Widget::Text(text),
                Widget::Button {
                    label: String::from_str("Increment"),
                    on_press: Message::IncrementPressed,
                },
                Widget::Button {
                    label: String::from_str("Decrement"),
                    on_press: Message::DecrementPressed,
                },
            ],
            padding: 20,
            spacing: 10,
        };
        proof {
            assert(column@.children =~= layout(self.value()).children);
            layout_shape(self.value());
        }
        column
    }
}

/// A counter's layout holds exactly one text and two buttons, and each
/// message is sent by exactly one of the buttons.
pub proof fn layout_shape(count: int)
    ensures
        layout(count).children.len() == 3,
        count_texts(layout(count).children) == 1,
        count_buttons(layout(count).children) == 2,
        count_senders(layout(count).children, Message::IncrementPressed) == 1,
        count_senders(layout(count).children, Message::DecrementPressed) == 1,
{
    reveal_with_fuel(count_texts, 4);
    reveal_with_fuel(count_buttons, 4);
    reveal_with_fuel(count_senders, 4);
}

/// After any sequence of messages the counter stands at its first value,
/// plus the number of increments, minus the number of decrements. The result
/// may be negative.
pub proof fn replay_counts_presses(count: int, messages: Seq<Message>)
    ensures
        replay(count, messages) == count
            + occurrences(messages, Message::IncrementPressed)
            - occurrences(messages, Message::DecrementPressed),
    decreases messages.len(),
{
    if messages.len() > 0 {
        replay_counts_presses(count, messages.drop_last());
    }
}

/// The view depends on the count alone: two descriptions of one state are
/// the same.
pub proof fn view_is_repeatable(app: MyApp, first: Column<Message>, second: Column<Message>)
    requires
        first@ == layout(app.value()),
        second@ == layout(app.value()),
    ensures
        first@ == second@,
{
}

} // verus!
