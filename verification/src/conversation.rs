//! How the bot answers one message: a step function from the current stage
//! of handling and the outcome of the last outside call to the next stage and
//! the next call to make (a reply to send, a database query, a captcha).

use vstd::prelude::*;
use crate::dialogue::{
    Dialogue, DialogueView, NameView, ReceiveFullNameState, ReceiveGroupState, StartState, Student,
    StudentView, WaitState, ReceiveCaptchaState,
};
use crate::keyboard::{
    agree_layout, prize_keyboard, Keyboard, PrizeKeyboard, PrizeKeyboardView, ReplyKeyboard,
    ReplyKeyboardView,
};
use crate::patterns::{regex_is_match, Patterns, FULL_NAME_PATTERN, GROUP_PATTERN};
use crate::prize::{prizes_text, PrizeView, Prizes};
use crate::text::{split_whitespace, string_views, words};

verus! {

pub const START_COMMAND: &'static str = "/start";
pub const AGREE: &'static str = "✅";
pub const NOT_TEXT: &'static str = "Відправ мені текстове повідомлення";
pub const AGREE_PROMPT: &'static str = "Щоб продовжити роботу з ботом, погодьтеся зі збором та обробкою персональних даних у вигляді ПІБ та групи";
pub const RESTART_FAILED: &'static str = "Не вдалося перезапустити бота";
pub const CAPTCHA_PROMPT: &'static str = "Введіть капчу";
pub const CAPTCHA_FAILED: &'static str = "Відбулася помилки при створенні капчи";
pub const GROUP_PROMPT: &'static str = "Введіть свою групу у форматі 'ФX-XX', якщо ви магістр то після шифру групи допишіть 'мн' чи 'мп'. (Приклади груп: ФБ-96, ФІ-11мп, ФФ-02мн)";
pub const BAD_NAME: &'static str = "Неправильно введено ПІБ, спробуйте ще раз!";
pub const GROUP_CHECK_FAILED: &'static str = "Помилка при перевірки групи!";
pub const GROUP_NOT_FOUND: &'static str = "Вказану групу не вдалося знайти у списку шар, спробуйте ще раз!";
pub const NO_USER: &'static str = "Не вдалося отримати дані про користувача, спробуйте ще раз ввести ПІБ";
pub const REGISTER_FAILED: &'static str = "Помилка при реєстрації студента!";
pub const PRIZES_FAILED: &'static str = "Помилка при отриманні шар";
pub const BAD_GROUP: &'static str = "Неправильно введено групу, спробуйте ще раз!";
pub const WAIT: &'static str = "Очікуйте розіграшу шар!";

/// What goes under a reply.
pub enum Markup {
    /// A reply keyboard.
    Keyboard(ReplyKeyboard),
    /// Remove the reply keyboard.
    Remove,
    /// The prize keyboard.
    Prizes(PrizeKeyboard),
}

pub enum MarkupView {
    Keyboard(ReplyKeyboardView),
    Remove,
    Prizes(PrizeKeyboardView),
}

impl View for Markup {
    type V = MarkupView;

    open spec fn view(&self) -> MarkupView {
        match self {
            Markup::Keyboard(k) => MarkupView::Keyboard(k@),
            Markup::Remove => MarkupView::Remove,
            Markup::Prizes(k) => MarkupView::Prizes(k@),
        }
    }
}

/// A message to the student's chat: its text, whether the text is HTML, and
/// what goes under it.
pub struct Reply {
    pub text: String,
    pub html: bool,
    pub markup: Option<Markup>,
}

pub struct ReplyView {
    pub text: Seq<char>,
    pub html: bool,
    pub markup: Option<MarkupView>,
}

impl View for Reply {
    type V = ReplyView;

    open spec fn view(&self) -> ReplyView {
        ReplyView {
            text: self.text@,
            html: self.html,
            markup: match self.markup {
                Some(m) => Some(m@),
                None => None,
            },
        }
    }
}

/// The Telegram user who wrote a message.
pub struct Sender {
    pub username: Option<String>,
}

/// An incoming message: its chat, its text if it has one, and its author if known.
pub struct Incoming {
    pub chat_id: i64,
    pub text: Option<String>,
    pub sender: Option<Sender>,
}

pub struct IncomingView {
    pub chat_id: i64,
    pub text: Option<Seq<char>>,
    /// `Some(username)` when the author is known.
    pub sender: Option<Option<Seq<char>>>,
}

pub open spec fn opt_view(o: Option<String>) -> Option<Seq<char>> {
    match o {
        Some(s) => Some(s@),
        None => None,
    }
}

pub open spec fn sender_view(s: Option<Sender>) -> Option<Option<Seq<char>>> {
    match s {
        Some(u) => Some(opt_view(u.username)),
        None => None,
    }
}

impl View for Incoming {
    type V = IncomingView;

    open spec fn view(&self) -> IncomingView {
        IncomingView {
            chat_id: self.chat_id,
            text: opt_view(self.text),
            sender: sender_view(self.sender),
        }
    }
}

/// The next thing to do while handling a message.
pub enum Action {
    /// Send a reply to the chat; answer with [`Outcome::Sent`].
    Send(Reply),
    /// Refresh the stored state of the user of this chat; answer with [`Outcome::Refreshed`].
    RefreshUserState(i64),
    /// Send a captcha to the chat; answer with [`Outcome::CaptchaSent`].
    SendCaptcha,
    /// Look up the code of a group by its name; answer with [`Outcome::GroupCode`].
    FindGroupCode(String),
    /// Store a student; answer with [`Outcome::Registered`].
    Register(Student),
    /// Read the prizes offered to the student of this chat; answer with [`Outcome::PrizesFetched`].
    FetchPrizes(i64),
    /// Handling is over: the dialogue is now this.
    Finish(Dialogue),
    /// Handling is over, but the answer concerns a stage that these rules do
    /// not decide (a banned user, a captcha answer): the dialogue and the text
    /// are handed back.
    Pass(Dialogue, String),
}

pub enum ActionView {
    Send(ReplyView),
    RefreshUserState(i64),
    SendCaptcha,
    FindGroupCode(Seq<char>),
    Register(StudentView),
    FetchPrizes(i64),
    Finish(DialogueView),
    Pass(DialogueView, Seq<char>),
}

impl View for Action {
    type V = ActionView;

    open spec fn view(&self) -> ActionView {
        match self {
            Action::Send(r) => ActionView::Send(r@),
            Action::RefreshUserState(c) => ActionView::RefreshUserState(*c),
            Action::SendCaptcha => ActionView::SendCaptcha,
            Action::FindGroupCode(g) => ActionView::FindGroupCode(g@),
            Action::Register(s) => ActionView::Register(s@),
            Action::FetchPrizes(c) => ActionView::FetchPrizes(*c),
            Action::Finish(d) => ActionView::Finish(d@),
            Action::Pass(d, t) => ActionView::Pass(d@, t@),
        }
    }
}

/// The result of looking up a group.
pub enum Lookup {
    /// The query failed.
    Failed,
    /// There is no such group.
    Missing,
    /// The group's code.
    Found(i32),
}

/// What came of the last action.
pub enum Outcome {
    Sent,
    /// Whether the refresh succeeded.
    Refreshed(bool),
    /// The captcha's answer, or `None` when sending it failed.
    CaptchaSent(Option<String>),
    GroupCode(Lookup),
    /// Whether the student was stored.
    Registered(bool),
    /// The prizes, or `None` when the query failed.
    PrizesFetched(Option<Prizes>),
}

pub enum OutcomeView {
    Sent,
    Refreshed(bool),
    CaptchaSent(Option<Seq<char>>),
    GroupCode(Lookup),
    Registered(bool),
    PrizesFetched(Option<Seq<PrizeView>>),
}

impl View for Outcome {
    type V = OutcomeView;

    open spec fn view(&self) -> OutcomeView {
        match self {
            Outcome::Sent => OutcomeView::Sent,
            Outcome::Refreshed(b) => OutcomeView::Refreshed(*b),
            Outcome::CaptchaSent(a) => OutcomeView::CaptchaSent(opt_view(*a)),
            Outcome::GroupCode(l) => OutcomeView::GroupCode(*l),
            Outcome::Registered(b) => OutcomeView::Registered(*b),
            Outcome::PrizesFetched(p) => OutcomeView::PrizesFetched(
                match p {
                    Some(p) => Some(p@),
                    None => None,
                },
            ),
        }
    }
}

/// Where the handling of a message stands.
pub enum Flow {
    /// Nothing is left to do.
    Finished,
    /// A reply is on its way; then the dialogue becomes this.
    FinishAfterSend(Dialogue),
    /// The consent prompt of `/start` is on its way (dialogue, chat).
    AgreePrompted(Dialogue, i64),
    /// The user state is being refreshed for `/start`.
    Restarting(Dialogue),
    /// The captcha prompt is on its way.
    CaptchaPrompted,
    /// The captcha is being sent.
    CaptchaPending,
    /// The group is being looked up (name, group text, chat, author).
    GroupLookup(ReceiveGroupState, String, i64, Option<Sender>),
    /// The student is being stored (name, group text, chat).
    Registering(ReceiveGroupState, String, i64),
    /// The summary of the registration is on its way (name, chat).
    Summarized(ReceiveGroupState, i64),
    /// The prizes are being read (name).
    PrizesPending(ReceiveGroupState),
}

pub enum FlowView {
    Finished,
    FinishAfterSend(DialogueView),
    AgreePrompted(DialogueView, i64),
    Restarting(DialogueView),
    CaptchaPrompted,
    CaptchaPending,
    GroupLookup(NameView, Seq<char>, i64, Option<Option<Seq<char>>>),
    Registering(NameView, Seq<char>, i64),
    Summarized(NameView, i64),
    PrizesPending(NameView),
}

impl View for Flow {
    type V = FlowView;

    open spec fn view(&self) -> FlowView {
        match self {
            Flow::Finished => FlowView::Finished,
            Flow::FinishAfterSend(d) => FlowView::FinishAfterSend(d@),
            Flow::AgreePrompted(d, c) => FlowView::AgreePrompted(d@, *c),
            Flow::Restarting(d) => FlowView::Restarting(d@),
            Flow::CaptchaPrompted => FlowView::CaptchaPrompted,
            Flow::CaptchaPending => FlowView::CaptchaPending,
            Flow::GroupLookup(n, g, c, s) => FlowView::GroupLookup(n@, g@, *c, sender_view(*s)),
            Flow::Registering(n, g, c) => FlowView::Registering(n@, g@, *c),
            Flow::Summarized(n, c) => FlowView::Summarized(n@, *c),
            Flow::PrizesPending(n) => FlowView::PrizesPending(n@),
        }
    }
}

/// Whether `o` answers the action that led to stage `f`.
pub open spec fn accepts(f: FlowView, o: OutcomeView) -> bool {
    match f {
        FlowView::Finished => false,
        FlowView::FinishAfterSend(_) => o is Sent,
        FlowView::AgreePrompted(_, _) => o is Sent,
        FlowView::Restarting(_) => o is Refreshed,
        FlowView::CaptchaPrompted => o is Sent,
        FlowView::CaptchaPending => o is CaptchaSent,
        FlowView::GroupLookup(_, _, _, _) => o is GroupCode,
        FlowView::Registering(_, _, _) => o is Registered,
        FlowView::Summarized(_, _) => o is Sent,
        FlowView::PrizesPending(_) => o is PrizesFetched,
    }
}

/// A plain-text reply with nothing under it.
pub open spec fn plain(text: Seq<char>) -> ReplyView {
    ReplyView { text, html: false, markup: None }
}

/// The consent prompt with the consent keyboard.
pub open spec fn agree_reply() -> ReplyView {
    ReplyView {
        text: AGREE_PROMPT@,
        html: false,
        markup: Some(MarkupView::Keyboard(agree_layout())),
    }
}

/// Send `r`, then end with dialogue `d`.
pub open spec fn send_then(r: ReplyView, d: DialogueView) -> (FlowView, ActionView) {
    (FlowView::FinishAfterSend(d), ActionView::Send(r))
}

/// The HTML summary of a registration.
pub open spec fn summary_text(name: NameView, group: Seq<char>) -> Seq<char> {
    "<b>Підсумкові дані:</b> \nПрізвище: "@ + name.last_name + " \nІм'я: "@ + name.first_name
        + " \nПо батькові: "@ + name.patronymic + " \nГрупа: "@ + group
}

/// The HTML prize list, with the prize keyboard under it when there is one.
pub open spec fn prize_list_reply(ps: Seq<PrizeView>) -> ReplyView {
    ReplyView {
        text: prizes_text(ps),
        html: true,
        markup: match prize_keyboard(ps) {
            Some(k) => Some(MarkupView::Prizes(k)),
            None => None,
        },
    }
}

/// The student stored for a chat: the author's username (empty when the
/// author has none), the name given earlier and the group's code.
pub open spec fn student_of(chat: i64, username: Option<Seq<char>>, name: NameView, code: i32) -> StudentView {
    StudentView {
        chat_id: chat,
        username: match username {
            Some(u) => u,
            None => Seq::empty(),
        },
        last_name: name.last_name,
        first_name: name.first_name,
        patronymic: name.patronymic,
        group_code: code,
    }
}

/// How the dialogue reacts to the text `ans` (not `/start`) of message `m`.
/// A full name is split into its words, the first three being the last name,
/// the first name and the patronymic; should the name pattern ever accept a
/// text of fewer than three words, the dialogue ends unchanged, without a reply.
pub open spec fn react(d: DialogueView, m: IncomingView, ans: Seq<char>) -> (FlowView, ActionView) {
    match d {
        DialogueView::Start => if ans == AGREE@ {
            (
                FlowView::CaptchaPrompted,
                ActionView::Send(
                    ReplyView { text: CAPTCHA_PROMPT@, html: false, markup: Some(MarkupView::Remove) },
                ),
            )
        } else {
            send_then(agree_reply(), DialogueView::Start)
        },
        DialogueView::ReceiveFullName => if regex_is_match(FULL_NAME_PATTERN@, ans) {
            let ws = words(ans);
            if ws.len() >= 3 {
                send_then(
                    plain(GROUP_PROMPT@),
                    DialogueView::ReceiveGroup(
                        NameView { last_name: ws[0], first_name: ws[1], patronymic: ws[2] },
                    ),
                )
            } else {
                (FlowView::Finished, ActionView::Finish(DialogueView::ReceiveFullName))
            }
        } else {
            send_then(plain(BAD_NAME@), DialogueView::ReceiveFullName)
        },
        DialogueView::ReceiveGroup(name) => if regex_is_match(GROUP_PATTERN@, ans) {
            (FlowView::GroupLookup(name, ans, m.chat_id, m.sender), ActionView::FindGroupCode(ans))
        } else {
            send_then(plain(BAD_GROUP@), DialogueView::ReceiveGroup(name))
        },
        DialogueView::Wait => send_then(plain(WAIT@), DialogueView::Wait),
        _ => (FlowView::Finished, ActionView::Pass(d, ans)),
    }
}

/// The first step of handling message `m` in dialogue `d`.
pub open spec fn begin(d: DialogueView, m: IncomingView) -> (FlowView, ActionView) {
    match m.text {
        None => send_then(plain(NOT_TEXT@), d),
        Some(ans) => if ans == START_COMMAND@ {
            (FlowView::AgreePrompted(d, m.chat_id), ActionView::Send(agree_reply()))
        } else {
            react(d, m, ans)
        },
    }
}

/// The step after stage `f` received outcome `o`.
pub open spec fn resume(f: FlowView, o: OutcomeView) -> (FlowView, ActionView) {
    match f {
        FlowView::FinishAfterSend(d) => (FlowView::Finished, ActionView::Finish(d)),
        FlowView::AgreePrompted(d, chat) => if d is Start {
            (FlowView::Finished, ActionView::Finish(d))
        } else {
            (FlowView::Restarting(d), ActionView::RefreshUserState(chat))
        },
        FlowView::Restarting(d) => if o == OutcomeView::Refreshed(true) {
            (FlowView::Finished, ActionView::Finish(DialogueView::Start))
        } else {
            send_then(plain(RESTART_FAILED@), d)
        },
        FlowView::CaptchaPrompted => (FlowView::CaptchaPending, ActionView::SendCaptcha),
        FlowView::CaptchaPending => match o {
            OutcomeView::CaptchaSent(Some(a)) => (
                FlowView::Finished,
                ActionView::Finish(DialogueView::ReceiveCaptcha(a)),
            ),
            _ => send_then(plain(CAPTCHA_FAILED@), DialogueView::Start),
        },
        FlowView::GroupLookup(name, group, chat, sender) => match o {
            OutcomeView::GroupCode(Lookup::Found(code)) => match sender {
                Some(u) => (
                    FlowView::Registering(name, group, chat),
                    ActionView::Register(student_of(chat, u, name, code)),
                ),
                None => send_then(plain(NO_USER@), DialogueView::ReceiveFullName),
            },
            OutcomeView::GroupCode(Lookup::Missing) => send_then(
                plain(GROUP_NOT_FOUND@),
                DialogueView::ReceiveGroup(name),
            ),
            _ => send_then(plain(GROUP_CHECK_FAILED@), DialogueView::ReceiveGroup(name)),
        },
        FlowView::Registering(name, group, chat) => if o == OutcomeView::Registered(true) {
            (
                FlowView::Summarized(name, chat),
                ActionView::Send(
                    ReplyView { text: summary_text(name, group), html: true, markup: None },
                ),
            )
        } else {
            send_then(plain(REGISTER_FAILED@), DialogueView::ReceiveFullName)
        },
        FlowView::Summarized(name, chat) => (FlowView::PrizesPending(name), ActionView::FetchPrizes(chat)),
        FlowView::PrizesPending(name) => match o {
            OutcomeView::PrizesFetched(Some(ps)) => send_then(prize_list_reply(ps), DialogueView::Wait),
            _ => send_then(plain(PRIZES_FAILED@), DialogueView::ReceiveGroup(name)),
        },
        FlowView::Finished => (FlowView::Finished, ActionView::Finish(DialogueView::Start)),
    }
}

}

verus! {

fn plain_reply(text: &str) -> (r: Reply)
    ensures
        r@ == plain(text@),
{
    Reply { text: String::from_str(text), html: false, markup: None }
}

fn agree_message(keyboard: &Keyboard) -> (r: Reply)
    ensures
        r@ == agree_reply(),
{
    Reply {
        text: String::from_str(AGREE_PROMPT),
        html: false,
        markup: Some(Markup::Keyboard(keyboard.get_agree_keyboard())),
    }
}

fn same_text(a: &String, b: &str) -> (r: bool)
    ensures
        r == (a@ == b@),
{
    let b = String::from_str(b);
    *a == b
}

fn copy_sender(s: &Option<Sender>) -> (r: Option<Sender>)
    ensures
        sender_view(r) == sender_view(*s),
{
    match s {
        Some(u) => Some(Sender { username: u.username.clone() }),
        None => None,
    }
}

/// The reaction of dialogue `d` to the text `ans` (other than `/start`).
fn react_to(patterns: &Patterns, keyboard: &Keyboard, d: Dialogue, chat_id: i64, sender: Option<Sender>, ans: String) -> (r: (Flow, Action))
    requires
        patterns.wf(),
    ensures
        (r.0@, r.1@) == react(d@, IncomingView { chat_id, text: Some(ans@), sender: sender_view(sender) }, ans@),
{
    match d {
        Dialogue::Start(s) => {
            if same_text(&ans, AGREE) {
                let r = Reply {
                    text: String::from_str(CAPTCHA_PROMPT),
                    html: false,
                    markup: Some(Markup::Remove),
                };
                (Flow::CaptchaPrompted, Action::Send(r))
            } else {
                (Flow::FinishAfterSend(Dialogue::Start(s)), Action::Send(agree_message(keyboard)))
            }
        },
        Dialogue::ReceiveFullName(s) => {
            if patterns.is_full_name(ans.as_str()) {
                let ws = split_whitespace(ans.as_str());
                proof {
                    assert(string_views(ws@).len() == ws@.len());
                }
                if ws.len() >= 3 {
                    let last_name = ws[0].clone();
                    let first_name = ws[1].clone();
                    let patronymic = ws[2].clone();
                    assert(string_views(ws@)[0] == ws@[0]@);
                    assert(string_views(ws@)[1] == ws@[1]@);
                    assert(string_views(ws@)[2] == ws@[2]@);
                    let next = ReceiveGroupState::new(last_name, first_name, patronymic);
                    (Flow::FinishAfterSend(Dialogue::ReceiveGroup(next)), Action::Send(plain_reply(GROUP_PROMPT)))
                } else {
                    (Flow::Finished, Action::Finish(Dialogue::ReceiveFullName(s)))
                }
            } else {
                (Flow::FinishAfterSend(Dialogue::ReceiveFullName(s)), Action::Send(plain_reply(BAD_NAME)))
            }
        },
        Dialogue::ReceiveGroup(s) => {
            if patterns.is_group(ans.as_str()) {
                let group = ans.clone();
                (Flow::GroupLookup(s, ans, chat_id, sender), Action::FindGroupCode(group))
            } else {
                (Flow::FinishAfterSend(Dialogue::ReceiveGroup(s)), Action::Send(plain_reply(BAD_GROUP)))
            }
        },
        Dialogue::Wait(s) => (Flow::FinishAfterSend(Dialogue::Wait(s)), Action::Send(plain_reply(WAIT))),
        Dialogue::Banned(s) => (Flow::Finished, Action::Pass(Dialogue::Banned(s), ans)),
        Dialogue::ReceiveCaptcha(s) => (Flow::Finished, Action::Pass(Dialogue::ReceiveCaptcha(s), ans)),
    }
}

/// Starts handling `message` in dialogue `dialogue`: returns the stage of
/// handling and the first action. A message without text is answered with a
/// request for text; `/start` with the consent prompt; any other text goes to
/// the rule of the current dialogue stage.
pub fn handle_message(patterns: &Patterns, keyboard: &Keyboard, dialogue: Dialogue, message: Incoming) -> (r: (Flow, Action))
    requires
        patterns.wf(),
    ensures
        (r.0@, r.1@) == begin(dialogue@, message@),
{
    let Incoming { chat_id, text, sender } = message;
    match text {
        None => (Flow::FinishAfterSend(dialogue), Action::Send(plain_reply(NOT_TEXT))),
        Some(ans) => {
            if same_text(&ans, START_COMMAND) {
                (Flow::AgreePrompted(dialogue, chat_id), Action::Send(agree_message(keyboard)))
            } else {
                react_to(patterns, keyboard, dialogue, chat_id, sender, ans)
            }
        },
    }
}

impl Flow {
    /// Whether nothing is left to do.
    pub fn is_finished(&self) -> (b: bool)
        ensures
            b == (self@ is Finished),
    {
        match self {
            Flow::Finished => true,
            _ => false,
        }
    }

    /// Whether `outcome` answers the action that led to this stage.
    pub fn accepts(&self, outcome: &Outcome) -> (b: bool)
        ensures
            b == accepts(self@, outcome@),
    {
        match (self, outcome) {
            (Flow::FinishAfterSend(_), Outcome::Sent) => true,
            (Flow::AgreePrompted(_, _), Outcome::Sent) => true,
            (Flow::Restarting(_), Outcome::Refreshed(_)) => true,
            (Flow::CaptchaPrompted, Outcome::Sent) => true,
            (Flow::CaptchaPending, Outcome::CaptchaSent(_)) => true,
            (Flow::GroupLookup(_, _, _, _), Outcome::GroupCode(_)) => true,
            (Flow::Registering(_, _, _), Outcome::Registered(_)) => true,
            (Flow::Summarized(_, _), Outcome::Sent) => true,
            (Flow::PrizesPending(_), Outcome::PrizesFetched(_)) => true,
            _ => false,
        }
    }

    /// The next step, after the last action came to `outcome`.
    pub fn resume(self, keyboard: &Keyboard, outcome: Outcome) -> (r: (Flow, Action))
        requires
            accepts(self@, outcome@),
        ensures
            (r.0@, r.1@) == resume(self@, outcome@),
    {
        match self {
            Flow::FinishAfterSend(d) => (Flow::Finished, Action::Finish(d)),
            Flow::AgreePrompted(d, chat) => {
                if d.is_start() {
                    (Flow::Finished, Action::Finish(d))
                } else {
                    (Flow::Restarting(d), Action::RefreshUserState(chat))
                }
            },
            Flow::Restarting(d) => match outcome {
                Outcome::Refreshed(true) => (Flow::Finished, Action::Finish(Dialogue::Start(StartState))),
                _ => (Flow::FinishAfterSend(d), Action::Send(plain_reply(RESTART_FAILED))),
            },
            Flow::CaptchaPrompted => (Flow::CaptchaPending, Action::SendCaptcha),
            Flow::CaptchaPending => match outcome {
                Outcome::CaptchaSent(Some(answer)) => (
                    Flow::Finished,
                    Action::Finish(Dialogue::ReceiveCaptcha(ReceiveCaptchaState::new(answer))),
                ),
                _ => (
                    Flow::FinishAfterSend(Dialogue::Start(StartState)),
                    Action::Send(plain_reply(CAPTCHA_FAILED)),
                ),
            },
            Flow::GroupLookup(name, group, chat, sender) => match outcome {
                Outcome::GroupCode(Lookup::Found(code)) => match sender {
                    Some(u) => {
                        let username = match u.username {
                            Some(n) => n,
                            None => String::new(),
                        };
                        let student = Student {
                            chat_id: chat,
                            username,
                            last_name: name.last_name().clone(),
                            first_name: name.first_name().clone(),
                            patronymic: name.patronymic().clone(),
                            group_code: code,
                        };
                        (Flow::Registering(name, group, chat), Action::Register(student))
                    },
                    None => (
                        Flow::FinishAfterSend(Dialogue::ReceiveFullName(ReceiveFullNameState)),
                        Action::Send(plain_reply(NO_USER)),
                    ),
                },
                Outcome::GroupCode(Lookup::Missing) => (
                    Flow::FinishAfterSend(Dialogue::ReceiveGroup(name)),
                    Action::Send(plain_reply(GROUP_NOT_FOUND)),
                ),
                _ => (
                    Flow::FinishAfterSend(Dialogue::ReceiveGroup(name)),
                    Action::Send(plain_reply(GROUP_CHECK_FAILED)),
                ),
            },
            Flow::Registering(name, group, chat) => match outcome {
                Outcome::Registered(true) => {
                    let mut text = String::from_str("<b>Підсумкові дані:</b> \nПрізвище: ");
                    text.append(name.last_name().as_str());
                    text.append(" \nІм'я: ");
                    text.append(name.first_name().as_str());
                    text.append(" \nПо батькові: ");
                    text.append(name.patronymic().as_str());
                    text.append(" \nГрупа: ");
                    text.append(group.as_str());
                    assert(text@ =~= summary_text(name@, group@));
                    let r = Reply { text, html: true, markup: None };
                    (Flow::Summarized(name, chat), Action::Send(r))
                },
                _ => (
                    Flow::FinishAfterSend(Dialogue::ReceiveFullName(ReceiveFullNameState)),
                    Action::Send(plain_reply(REGISTER_FAILED)),
                ),
            },
            Flow::Summarized(name, chat) => (Flow::PrizesPending(name), Action::FetchPrizes(chat)),
            Flow::PrizesPending(name) => match outcome {
                Outcome::PrizesFetched(Some(prizes)) => {
                    let text = prizes.to_text();
                    let ghost ps = prizes@;
                    let markup = match keyboard.get_prize_keyboard(prizes) {
                        Some(k) => Some(Markup::Prizes(k)),
                        None => None,
                    };
                    let r = Reply { text, html: true, markup };
                    assert(r@ == prize_list_reply(ps));
                    (Flow::FinishAfterSend(Dialogue::Wait(WaitState)), Action::Send(r))
                },
                _ => (
                    Flow::FinishAfterSend(Dialogue::ReceiveGroup(name)),
                    Action::Send(plain_reply(PRIZES_FAILED)),
                ),
            },
            Flow::Finished => (Flow::Finished, Action::Finish(Dialogue::Start(StartState))),
        }
    }
}

}

verus! {

/// The actions taken from stage `f` when the outside calls answer, in turn,
/// with `os` (answers after the end are ignored).
pub open spec fn steps_from(f: FlowView, os: Seq<OutcomeView>) -> Seq<ActionView>
    decreases os.len(),
{
    if os.len() == 0 || f is Finished {
        seq![]
    } else {
        let (g, a) = resume(f, os[0]);
        seq![a] + steps_from(g, os.drop_first())
    }
}

/// The actions taken to handle message `m` in dialogue `d` when the outside
/// calls answer, in turn, with `os`.
pub open spec fn handling(d: DialogueView, m: IncomingView, os: Seq<OutcomeView>) -> Seq<ActionView> {
    seq![begin(d, m).1] + steps_from(begin(d, m).0, os)
}

/// The most steps left before handling ends from stage `f`.
pub open spec fn steps_left(f: FlowView) -> nat {
    match f {
        FlowView::Finished => 0,
        FlowView::FinishAfterSend(_) => 1,
        FlowView::Restarting(_) => 2,
        FlowView::CaptchaPending => 2,
        FlowView::PrizesPending(_) => 2,
        FlowView::AgreePrompted(_, _) => 3,
        FlowView::CaptchaPrompted => 3,
        FlowView::Summarized(_, _) => 3,
        FlowView::Registering(_, _, _) => 4,
        FlowView::GroupLookup(_, _, _, _) => 5,
    }
}

/// Whether `a` ends the handling of a message.
pub open spec fn is_final(a: ActionView) -> bool {
    a is Finish || a is Pass
}

}
