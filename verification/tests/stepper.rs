use click_counter::stepper::{Message, MyApp};
use click_counter::widget::{Column, Widget};

fn text_of(column: &Column<Message>) -> String {
    match &column.children[0] {
        Widget::Text(text) => text.clone(),
        Widget::Button { .. } => panic!("the first widget is not a text"),
    }
}

fn run(start: i32, messages: &[Message]) -> i32 {
    let mut app = MyApp::with_count(start);
    for message in messages {
        assert!(app.accepts(*message));
        app.update(*message);
    }
    app.count()
}

#[test]
fn app_starts_at_zero() {
    assert_eq!(MyApp::new().count(), 0);
    assert_eq!(text_of(&MyApp::new().view()), "Current count: 0");
}

#[test]
fn app_starts_where_asked() {
    assert_eq!(MyApp::with_count(-40).count(), -40);
}

#[test]
fn title_of_the_window() {
    assert_eq!(MyApp::new().title(), "Iced GUI App");
    assert_eq!(MyApp::with_count(5).title(), "Iced GUI App");
}

#[test]
fn increment_pressed_from_zero() {
    let mut app = MyApp::new();
    app.update(Message::IncrementPressed);
    assert_eq!(app.count(), 1);
    assert_eq!(text_of(&app.view()), "Current count: 1");
}

#[test]
fn decrement_pressed_from_zero_goes_negative() {
    let mut app = MyApp::new();
    app.update(Message::DecrementPressed);
    assert_eq!(app.count(), -1);
    assert_eq!(text_of(&app.view()), "Current count: -1");
}

#[test]
fn presses_add_and_subtract() {
    let up = Message::IncrementPressed;
    let down = Message::DecrementPressed;
    assert_eq!(run(0, &[]), 0);
    assert_eq!(run(7, &[up, up, up]), 10);
    assert_eq!(run(7, &[down, down, down]), 4);
    assert_eq!(run(0, &[up, down, down, up, down, down]), -2);
    assert_eq!(run(-5, &[down, up, up, up, down, up, up]), -2);
}

#[test]
fn final_value_is_start_plus_increments_minus_decrements() {
    let starts: [i32; 5] = [0, 1, -1, 1_000_000, -2_000_000_000];
    for start in starts {
        let mut seed: u32 = 12345;
        let mut messages = Vec::new();
        let mut ups: i32 = 0;
        let mut downs: i32 = 0;
        while messages.len() < 500 {
            seed = seed.wrapping_mul(1664525).wrapping_add(1013904223);
            if (seed >> 16) % 3 == 0 {
                messages.push(Message::IncrementPressed);
                ups += 1;
            } else {
                messages.push(Message::DecrementPressed);
                downs += 1;
            }
            assert_eq!(run(start, &messages), start + ups - downs);
        }
    }
}

#[test]
fn order_of_presses_does_not_matter() {
    let up = Message::IncrementPressed;
    let down = Message::DecrementPressed;
    assert_eq!(run(3, &[up, up, down]), run(3, &[down, up, up]));
    assert_eq!(run(3, &[up, down, up]), 4);
}

#[test]
fn app_view_is_one_text_and_two_buttons() {
    let app = MyApp::with_count(-12);
    let expected = Column {
        children: vec![
            Widget::Text(String::from("Current count: -12")),
            Widget::Button {
                label: String::from("Increment"),
                on_press: Message::IncrementPressed,
            },
            Widget::Button {
                label: String::from("Decrement"),
                on_press: Message::DecrementPressed,
            },
        ],
        padding: 20,
        spacing: 10,
    };
    assert_eq!(app.view(), expected);
}

#[test]
fn app_view_counts() {
    let column = MyApp::with_count(8).view();
    let texts = column.children.iter().filter(|w| matches!(w, Widget::Text(_))).count();
    let buttons = column.children.iter().filter(|w| matches!(w, Widget::Button { .. })).count();
    let ups = column
        .children
        .iter()
        .filter(|w| matches!(w, Widget::Button { on_press: Message::IncrementPressed, .. }))
        .count();
    let downs = column
        .children
        .iter()
        .filter(|w| matches!(w, Widget::Button { on_press: Message::DecrementPressed, .. }))
        .count();
    assert_eq!(column.children.len(), 3);
    assert_eq!(texts, 1);
    assert_eq!(buttons, 2);
    assert_eq!(ups, 1);
    assert_eq!(downs, 1);
}

#[test]
fn app_view_twice_is_the_same() {
    let app = MyApp::with_count(-77);
    assert_eq!(app.view(), app.view());
    assert_eq!(app.count(), -77);
}

#[test]
fn app_view_follows_the_state() {
    let mut app = MyApp::with_count(-1);
    assert_eq!(text_of(&app.view()), "Current count: -1");
    app.update(Message::IncrementPressed);
    assert_eq!(text_of(&app.view()), "Current count: 0");
    app.update(Message::IncrementPressed);
    assert_eq!(text_of(&app.view()), "Current count: 1");
}

#[test]
fn app_at_the_top_accepts_only_a_decrement() {
    let mut app = MyApp::with_count(i32::MAX);
    assert!(!app.accepts(Message::IncrementPressed));
    assert!(app.accepts(Message::DecrementPressed));
    assert_eq!(text_of(&app.view()), "Current count: 2147483647");
    app.update(Message::DecrementPressed);
    assert_eq!(app.count(), i32::MAX - 1);
}

#[test]
fn app_at_the_bottom_accepts_only_an_increment() {
    let mut app = MyApp::with_count(i32::MIN);
    assert!(app.accepts(Message::IncrementPressed));
    assert!(!app.accepts(Message::DecrementPressed));
    assert_eq!(text_of(&app.view()), "Current count: -2147483648");
    app.update(Message::IncrementPressed);
    assert_eq!(app.count(), i32::MIN + 1);
}
