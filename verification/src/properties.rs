//! Properties of the dialogue that span several steps.

use vstd::prelude::*;
use crate::conversation::{
    accepts, agree_reply, begin, handling, is_final, prize_list_reply, resume, steps_from,
    steps_left, student_of, summary_text, ActionView, FlowView, IncomingView, Lookup, OutcomeView,
    ReplyView,
};
use crate::dialogue::{DialogueView, NameView, StudentView};
use crate::patterns::{regex_is_match, FULL_NAME_PATTERN, GROUP_PATTERN};
use crate::prize::PrizeView;
use crate::callback::{callback_begin, CallbackActionView, CallbackFlowView, CallbackQueryView};
use crate::keyboard::{button_data, prize_keyboard, sorted_keys, sorted_keys_lists_each_key_once};
use crate::prize::{prize_map, prize_map_is_finite};
use crate::text::{colon_breaks_number, decimal, signed_decimal, no_white_space, three_words_split_back};
use crate::prize::{prize_text, prizes_text, prize_lines};
use crate::keyboard::{join_lines, ReplyKeyboardView};
use crate::conversation::MarkupView;
use crate::callback::{callback_resume, CallbackOutcomeView};

verus! {

/// A plain-text reply with nothing under it.
pub open spec fn said(text: Seq<char>) -> ReplyView {
    ReplyView { text, html: false, markup: None }
}

/// The consent prompt, with the keyboard "✅" / "❌" in one row, resized to fit.
pub open spec fn consent_reply() -> ReplyView {
    ReplyView {
        text: "Щоб продовжити роботу з ботом, погодьтеся зі збором та обробкою персональних даних у вигляді ПІБ та групи"@,
        html: false,
        markup: Some(MarkupView::Keyboard(ReplyKeyboardView { rows: seq![seq!["✅"@, "❌"@]], resize: true })),
    }
}

/// Handling a message starts at most five steps away from its end.
pub proof fn handling_starts_near_its_end(d: DialogueView, m: IncomingView)
    ensures
        steps_left(begin(d, m).0) <= 5,
{
}

/// Every answered step brings the handling of a message strictly closer to
/// its end, so handling always ends.
pub proof fn each_step_gets_closer(f: FlowView, o: OutcomeView)
    requires
        accepts(f, o),
    ensures
        steps_left(resume(f, o).0) < steps_left(f),
{
}

/// Handling ends exactly at the step that yields the resulting dialogue.
pub proof fn ends_exactly_with_final_action(d: DialogueView, m: IncomingView, f: FlowView, o: OutcomeView)
    requires
        accepts(f, o),
    ensures
        (begin(d, m).0 is Finished) == is_final(begin(d, m).1),
        (resume(f, o).0 is Finished) == is_final(resume(f, o).1),
{
}

/// A message without text is answered with a request for text and leaves
/// the dialogue as it was.
pub proof fn non_text_keeps_dialogue(d: DialogueView, m: IncomingView)
    requires
        m.text is None,
    ensures
        handling(d, m, seq![OutcomeView::Sent]) == seq![
            ActionView::Send(said("Відправ мені текстове повідомлення"@)),
            ActionView::Finish(d),
        ],
{
    reveal_with_fuel(steps_from, 2);
}

/// `/start` always shows the consent prompt. At the start of the dialogue
/// nothing else happens; elsewhere the user state is refreshed, and the
/// dialogue goes back to its start when that succeeds, or stays where it was
/// (after an apology) when it fails.
pub proof fn start_command_restarts(d: DialogueView, m: IncomingView, refreshed: bool)
    requires
        m.text == Some("/start"@),
    ensures
        d is Start ==> handling(d, m, seq![OutcomeView::Sent]) == seq![
            ActionView::Send(consent_reply()),
            ActionView::Finish(DialogueView::Start),
        ],
        !(d is Start) ==> handling(
            d,
            m,
            seq![OutcomeView::Sent, OutcomeView::Refreshed(refreshed), OutcomeView::Sent],
        ) == if refreshed {
            seq![
                ActionView::Send(consent_reply()),
                ActionView::RefreshUserState(m.chat_id),
                ActionView::Finish(DialogueView::Start),
            ]
        } else {
            seq![
                ActionView::Send(consent_reply()),
                ActionView::RefreshUserState(m.chat_id),
                ActionView::Send(said("Не вдалося перезапустити бота"@)),
                ActionView::Finish(d),
            ]
        },
{
    reveal_with_fuel(steps_from, 4);
    let os1 = seq![OutcomeView::Sent];
    let os3 = seq![OutcomeView::Sent, OutcomeView::Refreshed(refreshed), OutcomeView::Sent];
    assert(os1.drop_first() =~= Seq::<OutcomeView>::empty());
    assert(os3.drop_first() =~= seq![OutcomeView::Refreshed(refreshed), OutcomeView::Sent]);
    assert(os3.drop_first().drop_first() =~= seq![OutcomeView::Sent]);
    assert(os3.drop_first().drop_first().drop_first() =~= Seq::<OutcomeView>::empty());
    if d is Start {
        assert(handling(d, m, os1) =~= seq![ActionView::Send(consent_reply()), ActionView::Finish(DialogueView::Start)]);
    } else if refreshed {
        assert(handling(d, m, os3) =~= seq![
            ActionView::Send(consent_reply()),
            ActionView::RefreshUserState(m.chat_id),
            ActionView::Finish(DialogueView::Start),
        ]);
    } else {
        assert(handling(d, m, os3) =~= seq![
            ActionView::Send(consent_reply()),
            ActionView::RefreshUserState(m.chat_id),
            ActionView::Send(said("Не вдалося перезапустити бота"@)),
            ActionView::Finish(d),
        ]);
    }
}

/// Once registered, a student is told to wait for the draw whatever they
/// write (other than `/start`), and stays registered.
pub proof fn waiting_is_final(m: IncomingView, ans: Seq<char>)
    requires
        m.text == Some(ans),
        ans != "/start"@,
    ensures
        handling(DialogueView::Wait, m, seq![OutcomeView::Sent]) == seq![
            ActionView::Send(said("Очікуйте розіграшу шар!"@)),
            ActionView::Finish(DialogueView::Wait),
        ],
{
    reveal_with_fuel(steps_from, 2);
    assert(seq![OutcomeView::Sent].drop_first() =~= Seq::<OutcomeView>::empty());
    assert(handling(DialogueView::Wait, m, seq![OutcomeView::Sent]) =~= seq![
        ActionView::Send(said("Очікуйте розіграшу шар!"@)),
        ActionView::Finish(DialogueView::Wait),
    ]);
}

/// A text that is not a full name is refused and the name is asked again.
pub proof fn refused_name_is_asked_again(m: IncomingView, ans: Seq<char>)
    requires
        m.text == Some(ans),
        ans != "/start"@,
        !regex_is_match(FULL_NAME_PATTERN@, ans),
    ensures
        handling(DialogueView::ReceiveFullName, m, seq![OutcomeView::Sent]) == seq![
            ActionView::Send(said("Неправильно введено ПІБ, спробуйте ще раз!"@)),
            ActionView::Finish(DialogueView::ReceiveFullName),
        ],
{
    reveal_with_fuel(steps_from, 2);
    assert(seq![OutcomeView::Sent].drop_first() =~= Seq::<OutcomeView>::empty());
    assert(handling(DialogueView::ReceiveFullName, m, seq![OutcomeView::Sent]) =~= seq![
        ActionView::Send(said("Неправильно введено ПІБ, спробуйте ще раз!"@)),
        ActionView::Finish(DialogueView::ReceiveFullName),
    ]);
}

/// A text that is not a group is refused; the group is asked again and the
/// name given earlier is kept.
pub proof fn refused_group_is_asked_again(name: NameView, m: IncomingView, ans: Seq<char>)
    requires
        m.text == Some(ans),
        ans != "/start"@,
        !regex_is_match(GROUP_PATTERN@, ans),
    ensures
        handling(DialogueView::ReceiveGroup(name), m, seq![OutcomeView::Sent]) == seq![
            ActionView::Send(said("Неправильно введено групу, спробуйте ще раз!"@)),
            ActionView::Finish(DialogueView::ReceiveGroup(name)),
        ],
{
    reveal_with_fuel(steps_from, 2);
    assert(seq![OutcomeView::Sent].drop_first() =~= Seq::<OutcomeView>::empty());
    assert(handling(DialogueView::ReceiveGroup(name), m, seq![OutcomeView::Sent]) =~= seq![
        ActionView::Send(said("Неправильно введено групу, спробуйте ще раз!"@)),
        ActionView::Finish(DialogueView::ReceiveGroup(name)),
    ]);
}

/// When the group lookup fails or finds nothing, the student is told so and
/// asked for the group again, with the name given earlier kept.
pub proof fn failed_lookup_keeps_name(name: NameView, m: IncomingView, ans: Seq<char>, found_nothing: bool)
    requires
        m.text == Some(ans),
        ans != "/start"@,
        regex_is_match(GROUP_PATTERN@, ans),
    ensures
        handling(
            DialogueView::ReceiveGroup(name),
            m,
            seq![
                OutcomeView::GroupCode(if found_nothing { Lookup::Missing } else { Lookup::Failed }),
                OutcomeView::Sent,
            ],
        ) == seq![
            ActionView::FindGroupCode(ans),
            ActionView::Send(
                said(if found_nothing { "Вказану групу не вдалося знайти у списку шар, спробуйте ще раз!"@ } else { "Помилка при перевірки групи!"@ }),
            ),
            ActionView::Finish(DialogueView::ReceiveGroup(name)),
        ],
{
    reveal_with_fuel(steps_from, 3);
    let lookup = if found_nothing { Lookup::Missing } else { Lookup::Failed };
    let os = seq![OutcomeView::GroupCode(lookup), OutcomeView::Sent];
    assert(os.drop_first() =~= seq![OutcomeView::Sent]);
    assert(os.drop_first().drop_first() =~= Seq::<OutcomeView>::empty());
    assert(handling(DialogueView::ReceiveGroup(name), m, os) =~= seq![
        ActionView::FindGroupCode(ans),
        ActionView::Send(said(if found_nothing { "Вказану групу не вдалося знайти у списку шар, спробуйте ще раз!"@ } else { "Помилка при перевірки групи!"@ })),
        ActionView::Finish(DialogueView::ReceiveGroup(name)),
    ]);
}

/// A registration that succeeds at every outside step stores the student
/// with the chat, the author's username, the name given earlier and the
/// group's code; shows the summary and the prize list; and ends in the
/// waiting stage.
pub proof fn successful_registration_ends_waiting(
    name: NameView,
    m: IncomingView,
    ans: Seq<char>,
    username: Option<Seq<char>>,
    code: i32,
    prizes: Seq<PrizeView>,
)
    requires
        m.text == Some(ans),
        m.sender == Some(username),
        ans != "/start"@,
        regex_is_match(GROUP_PATTERN@, ans),
    ensures
        handling(
            DialogueView::ReceiveGroup(name),
            m,
            seq![
                OutcomeView::GroupCode(Lookup::Found(code)),
                OutcomeView::Registered(true),
                OutcomeView::Sent,
                OutcomeView::PrizesFetched(Some(prizes)),
                OutcomeView::Sent,
            ],
        ) == seq![
            ActionView::FindGroupCode(ans),
            ActionView::Register(
                StudentView {
                    chat_id: m.chat_id,
                    username: match username {
                        Some(u) => u,
                        None => Seq::empty(),
                    },
                    last_name: name.last_name,
                    first_name: name.first_name,
                    patronymic: name.patronymic,
                    group_code: code,
                },
            ),
            ActionView::Send(
                ReplyView {
                    text: "<b>Підсумкові дані:</b> \nПрізвище: "@ + name.last_name + " \nІм'я: "@
                        + name.first_name + " \nПо батькові: "@ + name.patronymic + " \nГрупа: "@ + ans,
                    html: true,
                    markup: None,
                },
            ),
            ActionView::FetchPrizes(m.chat_id),
            ActionView::Send(prize_list_reply(prizes)),
            ActionView::Finish(DialogueView::Wait),
        ],
{
    reveal_with_fuel(steps_from, 6);
    let os = seq![
        OutcomeView::GroupCode(Lookup::Found(code)),
        OutcomeView::Registered(true),
        OutcomeView::Sent,
        OutcomeView::PrizesFetched(Some(prizes)),
        OutcomeView::Sent,
    ];
    assert(os.drop_first() =~= os.subrange(1, 5));
    assert(os.subrange(1, 5).drop_first() =~= os.subrange(2, 5));
    assert(os.subrange(2, 5).drop_first() =~= os.subrange(3, 5));
    assert(os.subrange(3, 5).drop_first() =~= os.subrange(4, 5));
    assert(os.subrange(4, 5).drop_first() =~= Seq::<OutcomeView>::empty());
    assert(handling(DialogueView::ReceiveGroup(name), m, os) =~= seq![
        ActionView::FindGroupCode(ans),
        ActionView::Register(student_of(m.chat_id, username, name, code)),
        ActionView::Send(ReplyView { text: summary_text(name, ans), html: true, markup: None }),
        ActionView::FetchPrizes(m.chat_id),
        ActionView::Send(prize_list_reply(prizes)),
        ActionView::Finish(DialogueView::Wait),
    ]);
}

/// A press on a button of the prize keyboard is ignored: the button's data
/// (the prize id, a colon and the button's number) never reads as a prize id.
pub proof fn prize_buttons_are_ignored(ps: Seq<PrizeView>, i: int, q: CallbackQueryView)
    requires
        prize_keyboard(ps) is Some,
        0 <= i < prize_keyboard(ps)->0.buttons.len(),
        q.data == Some(prize_keyboard(ps)->0.buttons[i].1),
    ensures
        callback_begin(q) == (CallbackFlowView::Finished, CallbackActionView::Done),
{
    let ids = sorted_keys(prize_map(ps));
    assert(prize_keyboard(ps)->0.buttons[i].1 == button_data(i as nat, ids[i]));
    colon_breaks_number(ids[i] as int, crate::text::decimal(i as nat));
}

/// A non-empty prize list gets a keyboard with one button per distinct
/// prize id.
pub proof fn one_button_per_prize(ps: Seq<PrizeView>)
    requires
        ps.len() > 0,
    ensures
        prize_keyboard(ps) is Some,
        prize_keyboard(ps)->0.buttons.len() == prize_map(ps).dom().len(),
{
    prize_map_is_finite(ps);
    sorted_keys_lists_each_key_once(prize_map(ps));
}

/// A prize's description does not depend on whether the student chose it,
/// nor on its id; and it always begins with the teacher, then the subject
/// (under the "Предмет" heading), the prize type and the count.
pub proof fn prize_description_shows_subject(p: PrizeView, selected: bool, id: i32)
    ensures
        prize_text(p) == prize_text(PrizeView { selected, id, ..p }),
        ({
            let heading = if p.groups is None { "\n<b>Предмет</b>: "@ } else { "\n<b>Предмет:</b> "@ };
            let head = p.teacher + heading + p.subject + "\n<b>"@ + p.prize_type
                + "</b> [Кількість шар - "@ + signed_decimal(p.count as int) + "]"@;
            &&& prize_text(p).len() >= head.len() && prize_text(p).take(head.len() as int) == head
            &&& prize_text(p) == head + match p.groups {
                Some(g) => "\n<b>Розігрується серед груп:</b> ["@ + g + "]"@,
                None => "\n<b>Розігрується серед вашої групи</b>"@,
            }
        }),
{
    reveal_strlit("\n<b>Розігрується серед груп:</b> [");
    reveal_strlit("\n<b>Розігрується серед вашої групи</b>");
    reveal_strlit("]\n<b>Розігрується серед груп:</b> [");
    reveal_strlit("]\n<b>Розігрується серед вашої групи</b>");
    reveal_strlit("]");
    let heading = if p.groups is None { "\n<b>Предмет</b>: "@ } else { "\n<b>Предмет:</b> "@ };
    let head = p.teacher + heading + p.subject + "\n<b>"@ + p.prize_type
        + "</b> [Кількість шар - "@ + signed_decimal(p.count as int) + "]"@;
    let base = p.teacher + heading + p.subject + "\n<b>"@ + p.prize_type
        + "</b> [Кількість шар - "@ + signed_decimal(p.count as int);
    match p.groups {
        Some(g) => {
            let tail = "]\n<b>Розігрується серед груп:</b> ["@ + g + "]"@;
            assert(prize_text(p) =~= base + tail);
            assert(tail[0] == ']');
            assert((base + tail).take(head.len() as int) =~= head);
            assert(base + tail =~= head + ("\n<b>Розігрується серед груп:</b> ["@ + g + "]"@));
        },
        None => {
            let tail = "]\n<b>Розігрується серед вашої групи</b>"@;
            assert(prize_text(p) =~= base + tail);
            assert(tail[0] == ']');
            assert((base + tail).take(head.len() as int) =~= head);
            assert(base + tail =~= head + "\n<b>Розігрується серед вашої групи</b>"@);
        },
    }
}

proof fn lemma_prize_lines_prefix(ps: Seq<PrizeView>, j: int)
    requires
        0 <= j <= ps.len(),
    ensures
        prize_lines(ps.take(j)).len() <= prize_lines(ps).len(),
        prize_lines(ps).take(prize_lines(ps.take(j)).len() as int) == prize_lines(ps.take(j)),
    decreases ps.len() - j,
{
    if j == ps.len() {
        assert(ps.take(j) =~= ps);
    } else {
        lemma_prize_lines_prefix(ps, j + 1);
        let t = ps.take(j + 1);
        assert(t.drop_last() =~= ps.take(j));
        let a = prize_lines(ps.take(j));
        let b = prize_lines(t);
        assert(b == a + crate::prize::prize_line(j as nat, t.last()));
        assert(b.take(a.len() as int) =~= a);
        assert(prize_lines(ps).take(a.len() as int) =~= b.take(a.len() as int));
    }
}

/// In the prize list, line `i` (from 0) is marked "✅" exactly when prize `i`
/// was chosen and "❌" otherwise, whatever its position, and is numbered
/// `i + 1`: the text runs on from the lines before it with the mark, " Шара №",
/// the number, ": ", the prize's description and a newline.
pub proof fn prize_list_marks_each_prize(ps: Seq<PrizeView>, i: int)
    requires
        0 <= i < ps.len(),
    ensures
        ({
            let before = prize_lines(ps.take(i));
            let line = (if ps[i].selected { "✅"@ } else { "❌"@ }) + " Шара №"@ + decimal((i + 1) as nat)
                + ": "@ + prize_text(ps[i]) + "\n"@;
            &&& prizes_text(ps).len() >= before.len() + line.len()
            &&& prizes_text(ps).take(before.len() as int) == before
            &&& prizes_text(ps).subrange(before.len() as int, (before.len() + line.len()) as int) == line
            &&& i == ps.len() - 1 ==> prizes_text(ps).len() == before.len() + line.len()
        }),
{
    lemma_prize_lines_prefix(ps, i + 1);
    let t = ps.take(i + 1);
    assert(t.drop_last() =~= ps.take(i));
    assert(t.last() == ps[i]);
    let before = prize_lines(ps.take(i));
    let line = (if ps[i].selected { "✅"@ } else { "❌"@ }) + " Шара №"@ + decimal((i + 1) as nat)
        + ": "@ + prize_text(ps[i]) + "\n"@;
    assert(prize_lines(t) =~= before + line);
    let all = prizes_text(ps);
    assert(all == prize_lines(ps));
    if i == ps.len() - 1 {
        assert(t =~= ps);
    }
    assert(all.take((before + line).len() as int) == before + line);
    assert(all.take(before.len() as int) =~= (before + line).take(before.len() as int));
    assert(all.subrange(before.len() as int, (before.len() + line.len()) as int) =~= (before + line).subrange(
        before.len() as int,
        (before.len() + line.len()) as int,
    ));
}

/// The keyboard message of a non-empty prize list has one line per button,
/// in the buttons' order: line `k` is "❌ ", then the label of button `k`
/// ("Шара №" and `k + 1`), ": " and the description of the prize whose id
/// button `k` carries (the ids increase from button to button); so the
/// numbers in the message and on the buttons are 1, 2, ... in order.
pub proof fn keyboard_lines_match_buttons(ps: Seq<PrizeView>)
    requires
        ps.len() > 0,
    ensures
        prize_keyboard(ps) is Some,
        ({
            let k = prize_keyboard(ps)->0;
            let ids = sorted_keys(prize_map(ps));
            &&& k.buttons.len() == ids.len()
            &&& forall|j: int| 0 <= j < ids.len() ==> #[trigger] k.buttons[j]
                == ("Шара №"@ + decimal((j + 1) as nat), signed_decimal(ids[j] as int) + ":"@ + decimal(j as nat))
            &&& forall|i: int, j: int| 0 <= i < j < ids.len() ==> ids[i] < ids[j]
            &&& ids.to_set() == prize_map(ps).dom()
            &&& k.message == join_lines(Seq::new(
                ids.len(),
                |j: int| "❌ "@ + k.buttons[j].0 + ": "@ + prize_map(ps)[ids[j]],
            ))
        }),
{
    prize_map_is_finite(ps);
    sorted_keys_lists_each_key_once(prize_map(ps));
    reveal_strlit("❌ Шара №");
    reveal_strlit("❌ ");
    reveal_strlit("Шара №");
    let k = prize_keyboard(ps)->0;
    let m = prize_map(ps);
    let ids = sorted_keys(m);
    let lines = Seq::new(ids.len(), |j: int| "❌ "@ + k.buttons[j].0 + ": "@ + m[ids[j]]);
    assert forall|j: int| 0 <= j < ids.len() implies #[trigger] k.buttons[j]
        == ("Шара №"@ + decimal((j + 1) as nat), signed_decimal(ids[j] as int) + ":"@ + decimal(j as nat)) by {
    }
    assert("❌ Шара №"@ =~= "❌ "@ + "Шара №"@);
    assert forall|j: int| 0 <= j < ids.len() implies #[trigger] lines[j]
        == crate::keyboard::keyboard_line(j as nat, m[ids[j]]) by {
        assert(lines[j] =~= crate::keyboard::keyboard_line(j as nat, m[ids[j]]));
    }
    assert(lines =~= ids.map(|n: int, id: i32| crate::keyboard::keyboard_line(n as nat, m[id])));
}

/// At the start of the dialogue only "✅" counts as consent: it brings the
/// captcha prompt (with the keyboard removed) and then the captcha; any other
/// text (but `/start`) gets the consent prompt with its "✅"/"❌" keyboard
/// again, and the dialogue stays at its start.
pub proof fn only_the_check_mark_is_consent(m: IncomingView, ans: Seq<char>)
    requires
        m.text == Some(ans),
        ans != "/start"@,
    ensures
        ans == "✅"@ ==> begin(DialogueView::Start, m) == (
            FlowView::CaptchaPrompted,
            ActionView::Send(ReplyView { text: "Введіть капчу"@, html: false, markup: Some(MarkupView::Remove) }),
        ) && resume(FlowView::CaptchaPrompted, OutcomeView::Sent) == (FlowView::CaptchaPending, ActionView::SendCaptcha),
        ans != "✅"@ ==> handling(DialogueView::Start, m, seq![OutcomeView::Sent]) == seq![
            ActionView::Send(
                ReplyView {
                    text: "Щоб продовжити роботу з ботом, погодьтеся зі збором та обробкою персональних даних у вигляді ПІБ та групи"@,
                    html: false,
                    markup: Some(MarkupView::Keyboard(ReplyKeyboardView { rows: seq![seq!["✅"@, "❌"@]], resize: true })),
                },
            ),
            ActionView::Finish(DialogueView::Start),
        ],
{
    reveal_with_fuel(steps_from, 2);
    assert(seq![OutcomeView::Sent].drop_first() =~= Seq::<OutcomeView>::empty());
    if ans != "✅"@ {
        assert(handling(DialogueView::Start, m, seq![OutcomeView::Sent]) =~= seq![
            ActionView::Send(consent_reply()),
            ActionView::Finish(DialogueView::Start),
        ]);
    }
}

/// When the prizes arrive, the student gets the prize list as HTML; under it
/// stands the prize keyboard, with one button per distinct prize id, whenever
/// the list is not empty, and nothing when it is. This holds both after a
/// registration (which then ends in the waiting stage) and after a press on a
/// prize button (which edits the message).
pub proof fn prize_list_comes_with_its_keyboard(name: NameView, chat: i64, message: i32, ps: Seq<PrizeView>)
    ensures
        ({
            let (f, a) = resume(FlowView::PrizesPending(name), OutcomeView::PrizesFetched(Some(ps)));
            let (g, b) = callback_resume(
                CallbackFlowView::Listing(chat, message),
                CallbackOutcomeView::Listed(Some(ps)),
            );
            &&& f == FlowView::FinishAfterSend(DialogueView::Wait)
            &&& g == CallbackFlowView::Finished
            &&& a is Send
            &&& b is EditList
            &&& b->EditList_0 == chat && b->EditList_1 == message && b->EditList_2 == a->Send_0
            &&& a->Send_0.text == prizes_text(ps) && a->Send_0.html
            &&& (ps.len() == 0 <==> a->Send_0.markup is None)
            &&& ps.len() > 0 ==> (a->Send_0.markup == Some(MarkupView::Prizes(prize_keyboard(ps)->0))
                && prize_keyboard(ps)->0.buttons.len() == prize_map(ps).dom().len())
        }),
{
    if ps.len() > 0 {
        one_button_per_prize(ps);
    }
}

/// A full name of three words separated by single spaces is taken apart in
/// order: the first word is the last name, the second the first name and the
/// third the patronymic; the group is asked for next.
pub proof fn full_name_is_taken_apart(m: IncomingView, last: Seq<char>, first: Seq<char>, patronymic: Seq<char>)
    requires
        last.len() > 0 && first.len() > 0 && patronymic.len() > 0,
        no_white_space(last) && no_white_space(first) && no_white_space(patronymic),
        m.text == Some(last + seq![' '] + first + seq![' '] + patronymic),
        regex_is_match(FULL_NAME_PATTERN@, last + seq![' '] + first + seq![' '] + patronymic),
    ensures
        handling(DialogueView::ReceiveFullName, m, seq![OutcomeView::Sent]) == seq![
            ActionView::Send(said("Введіть свою групу у форматі 'ФX-XX', якщо ви магістр то після шифру групи допишіть 'мн' чи 'мп'. (Приклади груп: ФБ-96, ФІ-11мп, ФФ-02мн)"@)),
            ActionView::Finish(
                DialogueView::ReceiveGroup(NameView { last_name: last, first_name: first, patronymic }),
            ),
        ],
{
    let ans = last + seq![' '] + first + seq![' '] + patronymic;
    reveal_strlit("/start");
    if ans == "/start"@ {
        assert(ans[last.len() as int] == ' ');
        assert(false);
    }
    three_words_split_back(last, first, patronymic);
    reveal_with_fuel(steps_from, 2);
    assert(seq![OutcomeView::Sent].drop_first() =~= Seq::<OutcomeView>::empty());
    assert(handling(DialogueView::ReceiveFullName, m, seq![OutcomeView::Sent]) =~= seq![
        ActionView::Send(said("Введіть свою групу у форматі 'ФX-XX', якщо ви магістр то після шифру групи допишіть 'мн' чи 'мп'. (Приклади груп: ФБ-96, ФІ-11мп, ФФ-02мн)"@)),
        ActionView::Finish(
            DialogueView::ReceiveGroup(NameView { last_name: last, first_name: first, patronymic }),
        ),
    ]);
}

/// The prize map holds exactly the ids of the list.
pub proof fn prize_map_holds_the_listed_ids(ps: Seq<PrizeView>, id: i32)
    ensures
        prize_map(ps).contains_key(id) <==> exists|j: int| 0 <= j < ps.len() && #[trigger] ps[j].id == id,
    decreases ps.len(),
{
    if ps.len() > 0 {
        prize_map_holds_the_listed_ids(ps.drop_last(), id);
        if prize_map(ps.drop_last()).contains_key(id) {
            let j = choose|j: int| 0 <= j < ps.drop_last().len() && #[trigger] ps.drop_last()[j].id == id;
            assert(ps[j].id == id);
        }
        if exists|j: int| 0 <= j < ps.len() && #[trigger] ps[j].id == id {
            let j = choose|j: int| 0 <= j < ps.len() && #[trigger] ps[j].id == id;
            if j < ps.len() - 1 {
                assert(ps.drop_last()[j].id == id);
            }
        }
    }
}

/// Under an id, the prize map holds the description of the last prize in the
/// list with that id.
pub proof fn last_prize_with_an_id_wins(ps: Seq<PrizeView>, i: int)
    requires
        0 <= i < ps.len(),
        forall|j: int| i < j < ps.len() ==> #[trigger] ps[j].id != ps[i].id,
    ensures
        prize_map(ps).contains_key(ps[i].id),
        prize_map(ps)[ps[i].id] == prize_text(ps[i]),
    decreases ps.len(),
{
    if i < ps.len() - 1 {
        let q = ps.drop_last();
        assert forall|j: int| i < j < q.len() implies #[trigger] q[j].id != q[i].id by {
            assert(q[j] == ps[j]);
        }
        last_prize_with_an_id_wins(q, i);
        assert(ps.last().id != ps[i].id);
    }
}

/// An empty prize list reads as the notice that no prize was found.
pub proof fn empty_prize_list_text()
    ensures
        prizes_text(Seq::<PrizeView>::empty()) == "Не вдалося знайти шари на обрану групу"@,
{
}

/// A press whose data is an `i32` written in decimal, under a known message,
/// marks exactly that prize for the presser; without a known message nothing
/// happens.
pub proof fn pressing_a_number_marks_that_prize(q: CallbackQueryView, prize: i32)
    requires
        q.data == Some(signed_decimal(prize as int)),
    ensures
        q.message_id is Some ==> callback_begin(q) == (
            CallbackFlowView::Marking(q.from_id, q.message_id->0),
            CallbackActionView::MarkPrize(q.from_id, prize),
        ),
        q.message_id is None ==> callback_begin(q) == (CallbackFlowView::Finished, CallbackActionView::Done),
{
    crate::text::decimal_reads_back(prize);
}

/// Each outside step that fails is answered with its own apology, and leaves
/// the dialogue where it can go on: a captcha that could not be sent goes
/// back to the start; an unknown author or a failed registration goes back to
/// the name; prizes that could not be read go back to the group, with the name
/// kept. A captcha that was sent waits for its answer. A failed button press
/// is answered with a notice and ends.
pub proof fn failures_are_answered(name: NameView, group: Seq<char>, chat: i64, code: i32, message: i32, answer: Seq<char>)
    ensures
        resume(FlowView::CaptchaPending, OutcomeView::CaptchaSent(Some(answer)))
            == (FlowView::Finished, ActionView::Finish(DialogueView::ReceiveCaptcha(answer))),
        resume(FlowView::CaptchaPending, OutcomeView::CaptchaSent(None)) == (
            FlowView::FinishAfterSend(DialogueView::Start),
            ActionView::Send(said("Відбулася помилки при створенні капчи"@)),
        ),
        resume(FlowView::GroupLookup(name, group, chat, None), OutcomeView::GroupCode(Lookup::Found(code))) == (
            FlowView::FinishAfterSend(DialogueView::ReceiveFullName),
            ActionView::Send(said("Не вдалося отримати дані про користувача, спробуйте ще раз ввести ПІБ"@)),
        ),
        resume(FlowView::Registering(name, group, chat), OutcomeView::Registered(false)) == (
            FlowView::FinishAfterSend(DialogueView::ReceiveFullName),
            ActionView::Send(said("Помилка при реєстрації студента!"@)),
        ),
        resume(FlowView::PrizesPending(name), OutcomeView::PrizesFetched(None)) == (
            FlowView::FinishAfterSend(DialogueView::ReceiveGroup(name)),
            ActionView::Send(said("Помилка при отриманні шар"@)),
        ),
        callback_resume(CallbackFlowView::Marking(chat, message), CallbackOutcomeView::Marked(false)) == (
            CallbackFlowView::Finished,
            CallbackActionView::Notify(chat, "Виникла помилка при обробці вибору!"@),
        ),
        callback_resume(CallbackFlowView::Listing(chat, message), CallbackOutcomeView::Listed(None)) == (
            CallbackFlowView::Finished,
            CallbackActionView::Notify(chat, "Виникла помилка при обробці вибору!"@),
        ),
        callback_resume(CallbackFlowView::Marking(chat, message), CallbackOutcomeView::Marked(true)) == (
            CallbackFlowView::Listing(chat, message),
            CallbackActionView::FetchPrizes(chat),
        ),
{
}

/// A banned user's text, or an answer to a captcha, is not decided by these
/// rules: it is handed back unchanged with the dialogue, at once.
pub proof fn other_stages_are_handed_back(d: DialogueView, m: IncomingView, ans: Seq<char>)
    requires
        d is Banned || d is ReceiveCaptcha,
        m.text == Some(ans),
        ans != "/start"@,
    ensures
        begin(d, m) == (FlowView::Finished, ActionView::Pass(d, ans)),
{
}

}
