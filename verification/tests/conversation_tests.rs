use shara::conversation::{
    handle_message, Action, Flow, Incoming, Lookup, Markup, Outcome, Sender, AGREE_PROMPT,
    BAD_GROUP, BAD_NAME, CAPTCHA_FAILED, CAPTCHA_PROMPT, GROUP_CHECK_FAILED, GROUP_NOT_FOUND,
    GROUP_PROMPT, NOT_TEXT, NO_USER, PRIZES_FAILED, REGISTER_FAILED, RESTART_FAILED, WAIT,
};
use shara::dialogue::{
    BannedState, Dialogue, ReceiveCaptchaState, ReceiveFullNameState, ReceiveGroupState,
    StartState, WaitState,
};
use shara::keyboard::{initialize, Keyboard};
use shara::patterns::Patterns;
use shara::prize::{Prize, Prizes};

fn message(text: Option<&str>) -> Incoming {
    Incoming {
        chat_id: 77,
        text: text.map(String::from),
        sender: Some(Sender { username: Some("taras".to_string()) }),
    }
}

fn name_state() -> ReceiveGroupState {
    ReceiveGroupState::new("Шевченко".to_string(), "Тарас".to_string(), "Григорович".to_string())
}

/// Runs the handling of one message, answering the calls with `outcomes` in
/// turn; returns every action taken.
fn run(dialogue: Dialogue, incoming: Incoming, outcomes: Vec<Outcome>) -> Vec<Action> {
    let patterns = Patterns::new().unwrap();
    let keyboard: Keyboard = initialize();
    let (mut flow, first) = handle_message(&patterns, &keyboard, dialogue, incoming);
    let mut actions = vec![first];
    for outcome in outcomes {
        assert!(!flow.is_finished());
        assert!(flow.accepts(&outcome));
        let (next, action) = flow.resume(&keyboard, outcome);
        flow = next;
        actions.push(action);
    }
    assert!(flow.is_finished());
    actions
}

fn sent_text(a: &Action) -> &str {
    match a {
        Action::Send(r) => r.text.as_str(),
        _ => panic!("not a reply"),
    }
}

fn final_dialogue(a: &Action) -> &Dialogue {
    match a {
        Action::Finish(d) => d,
        _ => panic!("not the end"),
    }
}

#[test]
fn non_text_message_keeps_dialogue() {
    let actions = run(Dialogue::Wait(WaitState), message(None), vec![Outcome::Sent]);
    assert_eq!(sent_text(&actions[0]), NOT_TEXT);
    assert!(matches!(final_dialogue(&actions[1]), Dialogue::Wait(_)));
}

#[test]
fn start_command_at_start() {
    let actions = run(Dialogue::Start(StartState), message(Some("/start")), vec![Outcome::Sent]);
    assert_eq!(sent_text(&actions[0]), AGREE_PROMPT);
    match &actions[0] {
        Action::Send(r) => match &r.markup {
            Some(Markup::Keyboard(k)) => assert_eq!(k.rows, vec![vec!["✅".to_string(), "❌".to_string()]]),
            _ => panic!("no consent keyboard"),
        },
        _ => unreachable!(),
    }
    assert!(final_dialogue(&actions[1]).is_start());
}

#[test]
fn start_command_restarts_after_refresh() {
    let actions = run(
        Dialogue::Wait(WaitState),
        message(Some("/start")),
        vec![Outcome::Sent, Outcome::Refreshed(true)],
    );
    assert!(matches!(actions[1], Action::RefreshUserState(77)));
    assert!(final_dialogue(&actions[2]).is_start());
}

#[test]
fn start_command_failed_refresh_keeps_dialogue() {
    let actions = run(
        Dialogue::ReceiveFullName(ReceiveFullNameState),
        message(Some("/start")),
        vec![Outcome::Sent, Outcome::Refreshed(false), Outcome::Sent],
    );
    assert_eq!(sent_text(&actions[2]), RESTART_FAILED);
    assert!(matches!(final_dialogue(&actions[3]), Dialogue::ReceiveFullName(_)));
}

#[test]
fn consent_leads_to_captcha() {
    let actions = run(
        Dialogue::Start(StartState),
        message(Some("✅")),
        vec![Outcome::Sent, Outcome::CaptchaSent(Some("x7k".to_string()))],
    );
    assert_eq!(sent_text(&actions[0]), CAPTCHA_PROMPT);
    match &actions[0] {
        Action::Send(r) => assert!(matches!(r.markup, Some(Markup::Remove))),
        _ => unreachable!(),
    }
    assert!(matches!(actions[1], Action::SendCaptcha));
    match final_dialogue(&actions[2]) {
        Dialogue::ReceiveCaptcha(s) => assert_eq!(s.answer(), "x7k"),
        _ => panic!("expected the captcha stage"),
    }
}

#[test]
fn captcha_failure_goes_back_to_start() {
    let actions = run(
        Dialogue::Start(StartState),
        message(Some("✅")),
        vec![Outcome::Sent, Outcome::CaptchaSent(None), Outcome::Sent],
    );
    assert_eq!(sent_text(&actions[2]), CAPTCHA_FAILED);
    assert!(final_dialogue(&actions[3]).is_start());
}

#[test]
fn refusal_repeats_consent_prompt() {
    let actions = run(Dialogue::Start(StartState), message(Some("❌")), vec![Outcome::Sent]);
    assert_eq!(sent_text(&actions[0]), AGREE_PROMPT);
    assert!(final_dialogue(&actions[1]).is_start());
}

#[test]
fn full_name_is_accepted() {
    let actions = run(
        Dialogue::ReceiveFullName(ReceiveFullNameState),
        message(Some("Шевченко Тарас Григорович")),
        vec![Outcome::Sent],
    );
    assert_eq!(sent_text(&actions[0]), GROUP_PROMPT);
    match final_dialogue(&actions[1]) {
        Dialogue::ReceiveGroup(s) => {
            assert_eq!(s.last_name(), "Шевченко");
            assert_eq!(s.first_name(), "Тарас");
            assert_eq!(s.patronymic(), "Григорович");
        },
        _ => panic!("expected the group stage"),
    }
}

#[test]
fn bad_full_name_is_refused() {
    let actions = run(
        Dialogue::ReceiveFullName(ReceiveFullNameState),
        message(Some("Taras")),
        vec![Outcome::Sent],
    );
    assert_eq!(sent_text(&actions[0]), BAD_NAME);
    assert!(matches!(final_dialogue(&actions[1]), Dialogue::ReceiveFullName(_)));
}

#[test]
fn bad_group_is_refused() {
    let actions = run(Dialogue::ReceiveGroup(name_state()), message(Some("ФЖ-1")), vec![Outcome::Sent]);
    assert_eq!(sent_text(&actions[0]), BAD_GROUP);
    match final_dialogue(&actions[1]) {
        Dialogue::ReceiveGroup(s) => assert_eq!(s.last_name(), "Шевченко"),
        _ => panic!("expected the group stage"),
    }
}

#[test]
fn group_lookup_failures_keep_the_name() {
    for (lookup, text) in [(Lookup::Failed, GROUP_CHECK_FAILED), (Lookup::Missing, GROUP_NOT_FOUND)] {
        let actions = run(
            Dialogue::ReceiveGroup(name_state()),
            message(Some("ФБ-96")),
            vec![Outcome::GroupCode(lookup), Outcome::Sent],
        );
        match &actions[0] {
            Action::FindGroupCode(g) => assert_eq!(g, "ФБ-96"),
            _ => panic!("expected a lookup"),
        }
        assert_eq!(sent_text(&actions[1]), text);
        assert!(matches!(final_dialogue(&actions[2]), Dialogue::ReceiveGroup(_)));
    }
}

#[test]
fn unknown_author_is_asked_for_name_again() {
    let mut m = message(Some("ФБ-96"));
    m.sender = None;
    let actions = run(
        Dialogue::ReceiveGroup(name_state()),
        m,
        vec![Outcome::GroupCode(Lookup::Found(3)), Outcome::Sent],
    );
    assert_eq!(sent_text(&actions[1]), NO_USER);
    assert!(matches!(final_dialogue(&actions[2]), Dialogue::ReceiveFullName(_)));
}

#[test]
fn failed_registration_asks_for_name_again() {
    let actions = run(
        Dialogue::ReceiveGroup(name_state()),
        message(Some("ФБ-96")),
        vec![Outcome::GroupCode(Lookup::Found(3)), Outcome::Registered(false), Outcome::Sent],
    );
    assert_eq!(sent_text(&actions[2]), REGISTER_FAILED);
    assert!(matches!(final_dialogue(&actions[3]), Dialogue::ReceiveFullName(_)));
}

fn one_prize() -> Prizes {
    Prizes(vec![Prize {
        id: 4,
        teacher: "Іваненко".to_string(),
        subject: "Алгебра".to_string(),
        prize_type: "Залік".to_string(),
        count: 2,
        groups: None,
        selected: false,
    }])
}

#[test]
fn successful_registration_scenario() {
    let actions = run(
        Dialogue::ReceiveGroup(name_state()),
        message(Some("ФІ-11мп")),
        vec![
            Outcome::GroupCode(Lookup::Found(12)),
            Outcome::Registered(true),
            Outcome::Sent,
            Outcome::PrizesFetched(Some(one_prize())),
            Outcome::Sent,
        ],
    );
    match &actions[1] {
        Action::Register(s) => {
            assert_eq!(s.chat_id, 77);
            assert_eq!(s.username, "taras");
            assert_eq!(s.last_name, "Шевченко");
            assert_eq!(s.first_name, "Тарас");
            assert_eq!(s.patronymic, "Григорович");
            assert_eq!(s.group_code, 12);
        },
        _ => panic!("expected registration"),
    }
    assert_eq!(
        sent_text(&actions[2]),
        "<b>Підсумкові дані:</b> \nПрізвище: Шевченко \nІм'я: Тарас \nПо батькові: Григорович \nГрупа: ФІ-11мп"
    );
    assert!(matches!(actions[3], Action::FetchPrizes(77)));
    assert_eq!(sent_text(&actions[4]), one_prize().to_text());
    match &actions[4] {
        Action::Send(r) => {
            assert!(r.html);
            assert!(matches!(r.markup, Some(Markup::Prizes(_))));
        },
        _ => unreachable!(),
    }
    assert!(matches!(final_dialogue(&actions[5]), Dialogue::Wait(_)));
}

#[test]
fn author_without_username_is_stored_with_empty_username() {
    let mut m = message(Some("ФБ-96"));
    m.sender = Some(Sender { username: None });
    let actions = run(
        Dialogue::ReceiveGroup(name_state()),
        m,
        vec![Outcome::GroupCode(Lookup::Found(1)), Outcome::Registered(false), Outcome::Sent],
    );
    match &actions[1] {
        Action::Register(s) => assert_eq!(s.username, ""),
        _ => panic!("expected registration"),
    }
}

#[test]
fn empty_prize_list_has_no_keyboard_and_prize_failure_goes_back() {
    let actions = run(
        Dialogue::ReceiveGroup(name_state()),
        message(Some("ФБ-96")),
        vec![
            Outcome::GroupCode(Lookup::Found(12)),
            Outcome::Registered(true),
            Outcome::Sent,
            Outcome::PrizesFetched(Some(Prizes(vec![]))),
            Outcome::Sent,
        ],
    );
    match &actions[4] {
        Action::Send(r) => assert!(r.markup.is_none()),
        _ => unreachable!(),
    }
    let actions = run(
        Dialogue::ReceiveGroup(name_state()),
        message(Some("ФБ-96")),
        vec![
            Outcome::GroupCode(Lookup::Found(12)),
            Outcome::Registered(true),
            Outcome::Sent,
            Outcome::PrizesFetched(None),
            Outcome::Sent,
        ],
    );
    assert_eq!(sent_text(&actions[4]), PRIZES_FAILED);
    assert!(matches!(final_dialogue(&actions[5]), Dialogue::ReceiveGroup(_)));
}

#[test]
fn waiting_student_is_told_to_wait() {
    let actions = run(Dialogue::Wait(WaitState), message(Some("коли?")), vec![Outcome::Sent]);
    assert_eq!(sent_text(&actions[0]), WAIT);
    assert!(matches!(final_dialogue(&actions[1]), Dialogue::Wait(_)));
}

#[test]
fn banned_and_captcha_stages_are_passed_on() {
    let actions = run(Dialogue::Banned(BannedState), message(Some("hi")), vec![]);
    match &actions[0] {
        Action::Pass(Dialogue::Banned(_), t) => assert_eq!(t, "hi"),
        _ => panic!("expected a pass"),
    }
    let actions = run(
        Dialogue::ReceiveCaptcha(ReceiveCaptchaState::new("abc".to_string())),
        message(Some("abc")),
        vec![],
    );
    assert!(matches!(&actions[0], Action::Pass(Dialogue::ReceiveCaptcha(_), _)));
}

#[test]
fn outcome_must_answer_the_action() {
    let patterns = Patterns::new().unwrap();
    let keyboard = initialize();
    let (flow, _) = handle_message(&patterns, &keyboard, Dialogue::Wait(WaitState), message(Some("x")));
    assert!(flow.accepts(&Outcome::Sent));
    assert!(!flow.accepts(&Outcome::Registered(true)));
    assert!(!Flow::Finished.accepts(&Outcome::Sent));
}

#[test]
fn default_dialogue_is_start() {
    let d: Dialogue = Default::default();
    assert!(d.is_start());
    assert!(!Dialogue::Wait(WaitState).is_start());
}
