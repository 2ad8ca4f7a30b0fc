use shara::callback::{handle_callback, CallbackAction, CallbackOutcome, CallbackQuery, CHOICE_FAILED};
use shara::keyboard::initialize;
use shara::prize::{Prize, Prizes};

fn query(message_id: Option<i32>, data: Option<&str>) -> CallbackQuery {
    CallbackQuery { from_id: 9, message_id, data: data.map(String::from) }
}

fn prizes() -> Prizes {
    Prizes(vec![Prize {
        id: 4,
        teacher: "Іваненко".to_string(),
        subject: "Алгебра".to_string(),
        prize_type: "Залік".to_string(),
        count: 2,
        groups: None,
        selected: true,
    }])
}

#[test]
fn numeric_data_marks_the_prize() {
    let (flow, action) = handle_callback(query(Some(100), Some("4")));
    assert!(matches!(action, CallbackAction::MarkPrize(9, 4)));
    let keyboard = initialize();
    assert!(flow.accepts(&CallbackOutcome::Marked(true)));
    let (flow, action) = flow.resume(&keyboard, CallbackOutcome::Marked(true));
    assert!(matches!(action, CallbackAction::FetchPrizes(9)));
    let (flow, action) = flow.resume(&keyboard, CallbackOutcome::Listed(Some(prizes())));
    assert!(flow.is_finished());
    match action {
        CallbackAction::EditList(9, 100, r) => {
            assert_eq!(r.text, prizes().to_text());
            assert!(r.html);
            assert!(r.markup.is_some());
        },
        _ => panic!("expected an edit"),
    }
}

#[test]
fn failures_are_reported() {
    let keyboard = initialize();
    let (flow, _) = handle_callback(query(Some(1), Some("-4")));
    let (flow, action) = flow.resume(&keyboard, CallbackOutcome::Marked(false));
    assert!(flow.is_finished());
    match action {
        CallbackAction::Notify(9, t) => assert_eq!(t, CHOICE_FAILED),
        _ => panic!("expected a notice"),
    }
    let (flow, _) = handle_callback(query(Some(1), Some("4")));
    let (flow, _) = flow.resume(&keyboard, CallbackOutcome::Marked(true));
    let (_, action) = flow.resume(&keyboard, CallbackOutcome::Listed(None));
    assert!(matches!(action, CallbackAction::Notify(9, _)));
}

#[test]
fn presses_without_message_or_number_are_ignored() {
    let (flow, action) = handle_callback(query(None, Some("4")));
    assert!(flow.is_finished());
    assert!(matches!(action, CallbackAction::Done));
    let (_, action) = handle_callback(query(Some(1), None));
    assert!(matches!(action, CallbackAction::Done));
    let (_, action) = handle_callback(query(Some(1), Some("abc")));
    assert!(matches!(action, CallbackAction::Done));
}

#[test]
fn prize_keyboard_buttons_are_ignored() {
    let keyboard = initialize();
    let k = keyboard.get_prize_keyboard(prizes()).unwrap();
    for button in k.buttons {
        let (flow, action) = handle_callback(query(Some(1), Some(button.data.as_str())));
        assert!(flow.is_finished());
        assert!(matches!(action, CallbackAction::Done));
    }
}
