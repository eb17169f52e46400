//! A counter that only goes up: one button, one step.

use vstd::prelude::*;
use vstd::string::*;
use crate::decimal::{format_natural, natural_text};
use crate::widget::{count_buttons, count_senders, count_texts, Column, ColumnModel, Widget, WidgetModel};

verus! {

/// What the user asked for.
#[derive(Debug, Clone, Copy, PartialEq, Eq, Structural)]
pub enum Message {
    Increment,
}

/// The counter's value after one message: a step up.
pub open spec fn step(count: int, message: Message) -> int {
    count + 1
}

/// The counter's value after a sequence of messages, handled first to last.
pub open spec fn replay(count: int, messages: Seq<Message>) -> int
    decreases messages.len(),
{
    if messages.len() == 0 {
        count
    } else {
        step(replay(count, messages.drop_last()), messages.last())
    }
}

/// Whether the value fits the counter.
pub open spec fn fits(count: int) -> bool {
    0 <= count <= u32::MAX
}

/// The widgets that show a counter of the given value: the bare number, then
/// the button.
pub open spec fn layout(count: int) -> ColumnModel<Message>
    recommends
        0 <= count,
{
    ColumnModel {
        children: seq![
            WidgetModel::Text(natural_text(count as nat)),
            WidgetModel::Button { label: "Increment"@, on_press: Message::Increment },
        ],
        padding: 0,
        spacing: 0,
    }
}

/// The application's state: the current count, never negative.
pub struct Counter {
    count: u32,
}

impl Counter {
    /// The count as a mathematical integer.
    pub closed spec fn value(&self) -> int {
        self.count as int
    }

    /// A counter at zero.
    pub fn new() -> (counter: Self)
        ensures
            counter.value() == 0,
    {
        Counter { count: 0 }
    }

    /// A counter at the given value.
    pub fn with_count(count: u32) -> (counter: Self)
        ensures
            counter.value() == count,
    {
        Counter { count }
    }

    /// The current count.
    pub fn count(&self) -> (count: u32)
        ensures
            count == self.value(),
    {
        self.count
    }

    /// Whether the counter can take the step that `message` asks for, that
    /// is, whether the new value still fits.
    pub fn accepts(&self, message: Message) -> (ok: bool)
        ensures
            ok == fits(step(self.value(), message)),
    {
        self.count < u32::MAX
    }

    /// Handles one message: a step up.
    ///
    /// The count has a fixed width, so the step must not leave its range:
    /// ask [`accepts`](Self::accepts) first where that is not known.
    pub fn update(&mut self, message: Message)
        requires
            fits(step(old(self).value(), message)),
        ensures
            final(self).value() == step(old(self).value(), message),
    {
        match message {
            Message::Increment => self.count += 1,
        }
    }

    /// Describes the widgets that show the counter: one text with the bare
    /// number, then the one button.
    pub fn view(&self) -> (column: Column<Message>)
        ensures
            column@ == layout(self.value()),
            count_texts(column@.children) == 1,
            count_buttons(column@.children) == 1,
            count_senders(column@.children, Message::Increment) == 1,
    {
        let column = Column {
            children: vec![
                Widget::Text(format_natural(self.count)),
                Widget::Button { label: String::from_str("Increment"), on_press: Message::Increment },
            ],
            padding: 0,
            spacing: 0,
        };
        proof {
            assert(column@.children =~= layout(self.value()).children);
            layout_shape(self.value());
        }
        column
    }
}

/// A counter's layout holds exactly one text and one button, which sends the
/// one message there is.
pub proof fn layout_shape(count: int)
    ensures
        layout(count).children.len() == 2,
        count_texts(layout(count).children) == 1,
        count_buttons(layout(count).children) == 1,
        count_senders(layout(count).children, Message::Increment) == 1,
{
    reveal_with_fuel(count_texts, 3);
    reveal_with_fuel(count_buttons, 3);
    reveal_with_fuel(count_senders, 3);
}

/// After a sequence of messages the counter stands at its first value plus
/// the length of the sequence.
pub proof fn replay_adds_length(count: int, messages: Seq<Message>)
    ensures
        replay(count, messages) == count + messages.len(),
    decreases messages.len(),
{
    if messages.len() > 0 {
        replay_adds_length(count, messages.drop_last());
    }
}

/// The view depends on the count alone: two descriptions of one state are
/// the same.
pub proof fn view_is_repeatable(counter: Counter, first: Column<Message>, second: Column<Message>)
    requires
        first@ == layout(counter.value()),
        second@ == layout(counter.value()),
    ensures
        first@ == second@,
{
}

} // verus!
