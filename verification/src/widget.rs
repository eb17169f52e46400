//! A plain description of what a screen shows: a column of text labels and
//! buttons. A user interface toolkit turns it into real widgets; a press of a
//! button hands the button's message back to the application.

use vstd::prelude::*;

verus! {

/// One widget of a column, generic in the message that a button sends.
#[derive(Debug, PartialEq, Eq)]
pub enum Widget<M> {
    /// A label that shows a line of text.
    Text(String),
    /// A button with a caption. Pressing it sends `on_press`.
    Button { label: String, on_press: M },
}

/// Widgets laid out from top to bottom.
#[derive(Debug, PartialEq, Eq)]
pub struct Column<M> {
    /// The widgets, the topmost first.
    pub children: Vec<Widget<M>>,
    /// Free space around the widgets, in pixels.
    pub padding: u16,
    /// Free space between two widgets, in pixels.
    pub spacing: u16,
}

/// What a [`Widget`] stands for.
pub enum WidgetModel<M> {
    Text(Seq<char>),
    Button { label: Seq<char>, on_press: M },
}

/// What a [`Column`] stands for.
pub struct ColumnModel<M> {
    pub children: Seq<WidgetModel<M>>,
    pub padding: int,
    pub spacing: int,
}

impl<M> View for Widget<M> {
    type V = WidgetModel<M>;

    open spec fn view(&self) -> WidgetModel<M> {
        match *self {
            Widget::Text(text) => WidgetModel::Text(text@),
            Widget::Button { label, on_press } => WidgetModel::Button { label: label@, on_press },
        }
    }
}

impl<M> View for Column<M> {
    type V = ColumnModel<M>;

    open spec fn view(&self) -> ColumnModel<M> {
        ColumnModel {
            children: Seq::new(self.children@.len(), |i: int| self.children@[i]@),
            padding: self.padding as int,
            spacing: self.spacing as int,
        }
    }
}

/// How many of the widgets are text labels.
pub open spec fn count_texts<M>(widgets: Seq<WidgetModel<M>>) -> nat
    decreases widgets.len(),
{
    if widgets.len() == 0 {
        0
    } else {
        let rest = count_texts(widgets.drop_last());
        if widgets.last() is Text {
            rest + 1
        } else {
            rest
        }
    }
}

/// How many of the widgets are buttons.
pub open spec fn count_buttons<M>(widgets: Seq<WidgetModel<M>>) -> nat
    decreases widgets.len(),
{
    if widgets.len() == 0 {
        0
    } else {
        let rest = count_buttons(widgets.drop_last());
        if widgets.last() is Button {
            rest + 1
        } else {
            rest
        }
    }
}

/// How many of the widgets are buttons that send `message`.
pub open spec fn count_senders<M>(widgets: Seq<WidgetModel<M>>, message: M) -> nat
    decreases widgets.len(),
{
    if widgets.len() == 0 {
        0
    } else {
        let rest = count_senders(widgets.drop_last(), message);
        if widgets.last() matches WidgetModel::Button { on_press, .. } && on_press == message {
            rest + 1
        } else {
            rest
        }
    }
}

} // verus!
