//! The states of a student's registration dialogue.

use vstd::prelude::*;

verus! {

/// A user who may no longer talk to the bot.
pub struct BannedState;

/// Waiting for consent to the processing of personal data.
pub struct StartState;

/// Waiting for the answer to a captcha.
pub struct ReceiveCaptchaState {
    answer: String,
}

impl View for ReceiveCaptchaState {
    type V = Seq<char>;

    /// The expected answer.
    closed spec fn view(&self) -> Seq<char> {
        self.answer@
    }
}

impl ReceiveCaptchaState {
    /// The state that waits for `answer`.
    pub fn new(answer: String) -> (s: Self)
        ensures
            s@ == answer@,
    {
        ReceiveCaptchaState { answer }
    }

    /// The expected answer.
    pub fn answer(&self) -> (a: &String)
        ensures
            a@ == self@,
    {
        &self.answer
    }
}

/// Waiting for the student's full name.
pub struct ReceiveFullNameState;

/// Waiting for the student's group, with the name already given.
pub struct ReceiveGroupState {
    last_name: String,
    first_name: String,
    patronymic: String,
}

/// The name parts of a [`ReceiveGroupState`]: last name, first name, patronymic.
pub struct NameView {
    pub last_name: Seq<char>,
    pub first_name: Seq<char>,
    pub patronymic: Seq<char>,
}

impl View for ReceiveGroupState {
    type V = NameView;

    closed spec fn view(&self) -> NameView {
        NameView {
            last_name: self.last_name@,
            first_name: self.first_name@,
            patronymic: self.patronymic@,
        }
    }
}

impl ReceiveGroupState {
    /// The state holding the given name.
    pub fn new(last_name: String, first_name: String, patronymic: String) -> (s: Self)
        ensures
            s@ == (NameView { last_name: last_name@, first_name: first_name@, patronymic: patronymic@ }),
    {
        ReceiveGroupState { last_name, first_name, patronymic }
    }

    pub fn last_name(&self) -> (s: &String)
        ensures
            s@ == self@.last_name,
    {
        &self.last_name
    }

    pub fn first_name(&self) -> (s: &String)
        ensures
            s@ == self@.first_name,
    {
        &self.first_name
    }

    pub fn patronymic(&self) -> (s: &String)
        ensures
            s@ == self@.patronymic,
    {
        &self.patronymic
    }

    /// A copy of this state.
    pub fn duplicate(&self) -> (s: Self)
        ensures
            s@ == self@,
    {
        ReceiveGroupState {
            last_name: self.last_name.clone(),
            first_name: self.first_name.clone(),
            patronymic: self.patronymic.clone(),
        }
    }
}

/// Registration is done; the student waits for the prize draw.
pub struct WaitState;

/// Where a student's conversation with the bot stands.
pub enum Dialogue {
    Banned(BannedState),
    Start(StartState),
    ReceiveCaptcha(ReceiveCaptchaState),
    ReceiveFullName(ReceiveFullNameState),
    ReceiveGroup(ReceiveGroupState),
    Wait(WaitState),
}

/// The mathematical value of a [`Dialogue`].
pub enum DialogueView {
    Banned,
    Start,
    ReceiveCaptcha(Seq<char>),
    ReceiveFullName,
    ReceiveGroup(NameView),
    Wait,
}

impl View for Dialogue {
    type V = DialogueView;

    open spec fn view(&self) -> DialogueView {
        match self {
            Dialogue::Banned(_) => DialogueView::Banned,
            Dialogue::Start(_) => DialogueView::Start,
            Dialogue::ReceiveCaptcha(s) => DialogueView::ReceiveCaptcha(s@),
            Dialogue::ReceiveFullName(_) => DialogueView::ReceiveFullName,
            Dialogue::ReceiveGroup(s) => DialogueView::ReceiveGroup(s@),
            Dialogue::Wait(_) => DialogueView::Wait,
        }
    }
}

impl Dialogue {
    /// Whether the dialogue is at its start.
    pub fn is_start(&self) -> (b: bool)
        ensures
            b == (self@ is Start),
    {
        match &self {
            Dialogue::Start(_) => true,
            _ => false,
        }
    }
}

impl Default for Dialogue {
    /// A new conversation starts by asking for consent.
    fn default() -> (d: Self)
        ensures
            d@ == DialogueView::Start,
    {
        Dialogue::Start(StartState)
    }
}

/// A student as the registration stores it.
pub struct Student {
    pub chat_id: i64,
    pub username: String,
    pub last_name: String,
    pub first_name: String,
    pub patronymic: String,
    pub group_code: i32,
}

/// The mathematical value of a [`Student`].
pub struct StudentView {
    pub chat_id: i64,
    pub username: Seq<char>,
    pub last_name: Seq<char>,
    pub first_name: Seq<char>,
    pub patronymic: Seq<char>,
    pub group_code: i32,
}

impl View for Student {
    type V = StudentView;

    open spec fn view(&self) -> StudentView {
        StudentView {
            chat_id: self.chat_id,
            username: self.username@,
            last_name: self.last_name@,
            first_name: self.first_name@,
            patronymic: self.patronymic@,
            group_code: self.group_code,
        }
    }
}

}
