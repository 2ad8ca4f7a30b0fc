//! How the bot answers a press on a prize button.

use vstd::prelude::*;
use crate::conversation::{prize_list_reply, Markup, Reply, ReplyView};
use crate::keyboard::Keyboard;
use crate::prize::{PrizeView, Prizes};
use crate::text::{parse_i32, parse_i32_spec};

verus! {

pub const CHOICE_FAILED: &'static str = "Виникла помилка при обробці вибору!";

/// A button press: who pressed it, the message the button sits under (if
/// still known), and the data the button carries (if any).
pub struct CallbackQuery {
    pub from_id: i64,
    pub message_id: Option<i32>,
    pub data: Option<String>,
}

pub struct CallbackQueryView {
    pub from_id: i64,
    pub message_id: Option<i32>,
    pub data: Option<Seq<char>>,
}

impl View for CallbackQuery {
    type V = CallbackQueryView;

    open spec fn view(&self) -> CallbackQueryView {
        CallbackQueryView {
            from_id: self.from_id,
            message_id: self.message_id,
            data: match self.data {
                Some(d) => Some(d@),
                None => None,
            },
        }
    }
}

/// The next thing to do while handling a button press.
pub enum CallbackAction {
    /// Nothing (more) to do.
    Done,
    /// Mark prize `.1` as chosen by the student of chat `.0`; answer with
    /// [`CallbackOutcome::Marked`].
    MarkPrize(i64, i32),
    /// Read the prizes of the student of chat `.0`; answer with
    /// [`CallbackOutcome::Listed`].
    FetchPrizes(i64),
    /// Send this text to chat `.0`; handling is over.
    Notify(i64, String),
    /// Replace message `.1` of chat `.0` with this reply; handling is over.
    EditList(i64, i32, Reply),
}

pub enum CallbackActionView {
    Done,
    MarkPrize(i64, i32),
    FetchPrizes(i64),
    Notify(i64, Seq<char>),
    EditList(i64, i32, ReplyView),
}

impl View for CallbackAction {
    type V = CallbackActionView;

    open spec fn view(&self) -> CallbackActionView {
        match self {
            CallbackAction::Done => CallbackActionView::Done,
            CallbackAction::MarkPrize(c, p) => CallbackActionView::MarkPrize(*c, *p),
            CallbackAction::FetchPrizes(c) => CallbackActionView::FetchPrizes(*c),
            CallbackAction::Notify(c, t) => CallbackActionView::Notify(*c, t@),
            CallbackAction::EditList(c, m, r) => CallbackActionView::EditList(*c, *m, r@),
        }
    }
}

/// What came of the last action.
pub enum CallbackOutcome {
    /// Whether the prize was marked.
    Marked(bool),
    /// The prizes, or `None` when the query failed.
    Listed(Option<Prizes>),
}

pub enum CallbackOutcomeView {
    Marked(bool),
    Listed(Option<Seq<PrizeView>>),
}

impl View for CallbackOutcome {
    type V = CallbackOutcomeView;

    open spec fn view(&self) -> CallbackOutcomeView {
        match self {
            CallbackOutcome::Marked(b) => CallbackOutcomeView::Marked(*b),
            CallbackOutcome::Listed(p) => CallbackOutcomeView::Listed(
                match p {
                    Some(p) => Some(p@),
                    None => None,
                },
            ),
        }
    }
}

/// Where the handling of a button press stands (chat, message).
pub enum CallbackFlow {
    Finished,
    Marking(i64, i32),
    Listing(i64, i32),
}

pub enum CallbackFlowView {
    Finished,
    Marking(i64, i32),
    Listing(i64, i32),
}

impl View for CallbackFlow {
    type V = CallbackFlowView;

    open spec fn view(&self) -> CallbackFlowView {
        match self {
            CallbackFlow::Finished => CallbackFlowView::Finished,
            CallbackFlow::Marking(c, m) => CallbackFlowView::Marking(*c, *m),
            CallbackFlow::Listing(c, m) => CallbackFlowView::Listing(*c, *m),
        }
    }
}

/// Whether `o` answers the action that led to stage `f`.
pub open spec fn callback_accepts(f: CallbackFlowView, o: CallbackOutcomeView) -> bool {
    match f {
        CallbackFlowView::Finished => false,
        CallbackFlowView::Marking(_, _) => o is Marked,
        CallbackFlowView::Listing(_, _) => o is Listed,
    }
}

/// The first step: a press is acted on only when its message is known and its
/// data parses as a prize id.
pub open spec fn callback_begin(q: CallbackQueryView) -> (CallbackFlowView, CallbackActionView) {
    match (q.message_id, q.data) {
        (Some(message), Some(data)) => match parse_i32_spec(data) {
            Some(prize) => (
                CallbackFlowView::Marking(q.from_id, message),
                CallbackActionView::MarkPrize(q.from_id, prize),
            ),
            None => (CallbackFlowView::Finished, CallbackActionView::Done),
        },
        _ => (CallbackFlowView::Finished, CallbackActionView::Done),
    }
}

/// The step after stage `f` received outcome `o`.
pub open spec fn callback_resume(f: CallbackFlowView, o: CallbackOutcomeView) -> (CallbackFlowView, CallbackActionView) {
    match f {
        CallbackFlowView::Marking(chat, message) => if o == CallbackOutcomeView::Marked(true) {
            (CallbackFlowView::Listing(chat, message), CallbackActionView::FetchPrizes(chat))
        } else {
            (CallbackFlowView::Finished, CallbackActionView::Notify(chat, CHOICE_FAILED@))
        },
        CallbackFlowView::Listing(chat, message) => match o {
            CallbackOutcomeView::Listed(Some(ps)) => (
                CallbackFlowView::Finished,
                CallbackActionView::EditList(chat, message, prize_list_reply(ps)),
            ),
            _ => (CallbackFlowView::Finished, CallbackActionView::Notify(chat, CHOICE_FAILED@)),
        },
        CallbackFlowView::Finished => (CallbackFlowView::Finished, CallbackActionView::Done),
    }
}

/// Starts handling a button press.
pub fn handle_callback(query: CallbackQuery) -> (r: (CallbackFlow, CallbackAction))
    ensures
        (r.0@, r.1@) == callback_begin(query@),
{
    match (query.message_id, query.data) {
        (Some(message), Some(data)) => match parse_i32(data.as_str()) {
            Some(prize) => (
                CallbackFlow::Marking(query.from_id, message),
                CallbackAction::MarkPrize(query.from_id, prize),
            ),
            None => (CallbackFlow::Finished, CallbackAction::Done),
        },
        _ => (CallbackFlow::Finished, CallbackAction::Done),
    }
}

impl CallbackFlow {
    /// Whether nothing is left to do.
    pub fn is_finished(&self) -> (b: bool)
        ensures
            b == (self@ is Finished),
    {
        match self {
            CallbackFlow::Finished => true,
            _ => false,
        }
    }

    /// Whether `outcome` answers the action that led to this stage.
    pub fn accepts(&self, outcome: &CallbackOutcome) -> (b: bool)
        ensures
            b == callback_accepts(self@, outcome@),
    {
        match (self, outcome) {
            (CallbackFlow::Marking(_, _), CallbackOutcome::Marked(_)) => true,
            (CallbackFlow::Listing(_, _), CallbackOutcome::Listed(_)) => true,
            _ => false,
        }
    }

    /// The next step, after the last action came to `outcome`.
    pub fn resume(self, keyboard: &Keyboard, outcome: CallbackOutcome) -> (r: (CallbackFlow, CallbackAction))
        requires
            callback_accepts(self@, outcome@),
        ensures
            (r.0@, r.1@) == callback_resume(self@, outcome@),
    {
        match self {
            CallbackFlow::Marking(chat, message) => match outcome {
                CallbackOutcome::Marked(true) => (
                    CallbackFlow::Listing(chat, message),
                    CallbackAction::FetchPrizes(chat),
                ),
                _ => (
                    CallbackFlow::Finished,
                    CallbackAction::Notify(chat, String::from_str(CHOICE_FAILED)),
                ),
            },
            CallbackFlow::Listing(chat, message) => match outcome {
                CallbackOutcome::Listed(Some(prizes)) => {
                    let text = prizes.to_text();
                    let ghost ps = prizes@;
                    let markup = match keyboard.get_prize_keyboard(prizes) {
                        Some(k) => Some(Markup::Prizes(k)),
                        None => None,
                    };
                    let r = Reply { text, html: true, markup };
                    assert(r@ == prize_list_reply(ps));
                    (CallbackFlow::Finished, CallbackAction::EditList(chat, message, r))
                },
                _ => (
                    CallbackFlow::Finished,
                    CallbackAction::Notify(chat, String::from_str(CHOICE_FAILED)),
                ),
            },
            CallbackFlow::Finished => (CallbackFlow::Finished, CallbackAction::Done),
        }
    }
}

}
