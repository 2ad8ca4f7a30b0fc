//! Keyboards attached to the bot's messages.

use std::collections::BTreeMap;
use vstd::prelude::*;
use crate::prize::{prize_map, Prizes};
use crate::text::{decimal, signed_decimal, write_decimal, write_signed};
use vstd::std_specs::cmp::OrdSpec;
use vstd::std_specs::iter::IteratorSpec;

verus! {

/// A reply keyboard: rows of button labels, and whether the client should
/// shrink it to fit.
pub struct ReplyKeyboard {
    pub rows: Vec<Vec<String>>,
    pub resize: bool,
}

/// The mathematical value of a [`ReplyKeyboard`].
pub struct ReplyKeyboardView {
    pub rows: Seq<Seq<Seq<char>>>,
    pub resize: bool,
}

impl View for ReplyKeyboard {
    type V = ReplyKeyboardView;

    open spec fn view(&self) -> ReplyKeyboardView {
        ReplyKeyboardView {
            rows: self.rows@.map_values(|row: Vec<String>| row@.map_values(|s: String| s@)),
            resize: self.resize,
        }
    }
}

/// The consent keyboard: one row with "✅" and "❌", resized to fit.
pub open spec fn agree_layout() -> ReplyKeyboardView {
    ReplyKeyboardView { rows: seq![seq!["✅"@, "❌"@]], resize: true }
}

/// Builds the consent keyboard.
pub fn agree_keyboard() -> (k: ReplyKeyboard)
    ensures
        k@ == agree_layout(),
{
    let mut row: Vec<String> = Vec::new();
    row.push(String::from_str("✅"));
    row.push(String::from_str("❌"));
    let mut rows: Vec<Vec<String>> = Vec::new();
    rows.push(row);
    let k = ReplyKeyboard { rows, resize: true };
    assert(k@.rows[0] =~= seq!["✅"@, "❌"@]);
    assert(k@.rows =~= agree_layout().rows);
    k
}

/// A button under a message that sends `data` back to the bot when pressed.
pub struct InlineButton {
    pub text: String,
    pub data: String,
}

/// A prize list for the keyboard message and its buttons, one button per row.
pub struct PrizeKeyboard {
    pub message: String,
    pub buttons: Vec<InlineButton>,
}

/// The mathematical value of a [`PrizeKeyboard`]: the message and the
/// (label, data) pair of each button.
pub struct PrizeKeyboardView {
    pub message: Seq<char>,
    pub buttons: Seq<(Seq<char>, Seq<char>)>,
}

impl View for PrizeKeyboard {
    type V = PrizeKeyboardView;

    open spec fn view(&self) -> PrizeKeyboardView {
        PrizeKeyboardView {
            message: self.message@,
            buttons: self.buttons@.map_values(|b: InlineButton| (b.text@, b.data@)),
        }
    }
}

/// Every element is smaller than every later one.
pub open spec fn strictly_increasing(s: Seq<i32>) -> bool {
    forall|i: int, j: int| 0 <= i < j < s.len() ==> s[i] < s[j]
}

/// The keys of `m` in increasing order.
pub open spec fn sorted_keys(m: Map<i32, Seq<char>>) -> Seq<i32> {
    choose|s: Seq<i32>| strictly_increasing(s) && s.to_set() == m.dom()
}

/// Lines joined with a newline between consecutive lines.
pub open spec fn join_lines(lines: Seq<Seq<char>>) -> Seq<char>
    decreases lines.len(),
{
    if lines.len() == 0 {
        Seq::empty()
    } else if lines.len() == 1 {
        lines[0]
    } else {
        join_lines(lines.drop_last()) + "\n"@ + lines.last()
    }
}

/// Line `n` (from 0) of the keyboard message, for a prize described by `text`.
pub open spec fn keyboard_line(n: nat, text: Seq<char>) -> Seq<char> {
    "❌ Шара №"@ + decimal(n + 1) + ": "@ + text
}

/// The label of button `n` (from 0).
pub open spec fn button_label(n: nat) -> Seq<char> {
    "Шара №"@ + decimal(n + 1)
}

/// The data of button `n` (from 0) for prize `id`: the id, a colon, and `n`.
pub open spec fn button_data(n: nat, id: i32) -> Seq<char> {
    signed_decimal(id as int) + ":"@ + decimal(n)
}

/// The keyboard for a prize list: `None` for an empty list; otherwise one
/// line and one button per distinct prize id, in increasing id order, each
/// id described by its last prize in the list.
pub open spec fn prize_keyboard(ps: Seq<crate::prize::PrizeView>) -> Option<PrizeKeyboardView> {
    if ps.len() == 0 {
        None
    } else {
        let m = prize_map(ps);
        let ids = sorted_keys(m);
        Some(
            PrizeKeyboardView {
                message: join_lines(ids.map(|n: int, id: i32| keyboard_line(n as nat, m[id]))),
                buttons: ids.map(|n: int, id: i32| (button_label(n as nat), button_data(n as nat, id))),
            },
        )
    }
}

proof fn lemma_strictly_increasing_drop_last(s: Seq<i32>)
    requires
        strictly_increasing(s),
        s.len() > 0,
    ensures
        strictly_increasing(s.drop_last()),
        s.drop_last().to_set() == s.to_set().remove(s.last()),
{
    let t = s.drop_last();
    assert forall|x: i32| #[trigger] t.to_set().contains(x) == s.to_set().remove(s.last()).contains(x) by {
        if t.to_set().contains(x) {
            let i = choose|i: int| 0 <= i < t.len() && t[i] == x;
            assert(s[i] == x);
            assert(s[i] < s[s.len() - 1]);
        }
        if s.to_set().remove(s.last()).contains(x) {
            let i = choose|i: int| 0 <= i < s.len() && s[i] == x;
            assert(i != s.len() - 1);
            assert(t[i] == x);
        }
    }
    assert(t.to_set() =~= s.to_set().remove(s.last()));
}

/// Two increasing sequences with the same elements are the same sequence.
proof fn lemma_sorted_unique(s1: Seq<i32>, s2: Seq<i32>)
    requires
        strictly_increasing(s1),
        strictly_increasing(s2),
        s1.to_set() == s2.to_set(),
    ensures
        s1 == s2,
    decreases s1.len() + s2.len(),
{
    if s1.len() == 0 {
        if s2.len() > 0 {
            assert(s2.to_set().contains(s2[0]));
        }
        assert(s1 =~= s2);
    } else if s2.len() == 0 {
        assert(s1.to_set().contains(s1[0]));
    } else {
        let a = s1.last();
        let b = s2.last();
        assert(s1.to_set().contains(a));
        assert(s2.to_set().contains(b));
        let i = choose|i: int| 0 <= i < s2.len() && s2[i] == a;
        let j = choose|j: int| 0 <= j < s1.len() && s1[j] == b;
        if i < s2.len() - 1 {
            assert(s2[i] < s2[s2.len() - 1]);
        }
        if j < s1.len() - 1 {
            assert(s1[j] < s1[s1.len() - 1]);
        }
        assert(a == b);
        lemma_strictly_increasing_drop_last(s1);
        lemma_strictly_increasing_drop_last(s2);
        lemma_sorted_unique(s1.drop_last(), s2.drop_last());
        assert(s1 =~= s2.drop_last().push(b));
        assert(s2 =~= s2.drop_last().push(b));
    }
}

/// An increasing sequence of the keys of `m` is [`sorted_keys`]`(m)`.
proof fn lemma_sorted_keys(m: Map<i32, Seq<char>>, s: Seq<i32>)
    requires
        strictly_increasing(s),
        s.to_set() == m.dom(),
    ensures
        sorted_keys(m) == s,
{
    let k = sorted_keys(m);
    assert(strictly_increasing(k) && k.to_set() == m.dom());
    lemma_sorted_unique(k, s);
}

/// Every finite set of `i32` can be listed in increasing order.
proof fn lemma_sorted_exists(keys: Set<i32>)
    requires
        keys.finite(),
    ensures
        exists|s: Seq<i32>| strictly_increasing(s) && s.to_set() == keys,
    decreases keys.len(),
{
    if keys.len() == 0 {
        let s = Seq::<i32>::empty();
        assert(s.to_set() =~= keys);
    } else {
        let le = |a: i32, b: i32| a <= b;
        assert(vstd::relations::total_ordering(le));
        keys.find_unique_maximal_ensures(le);
        let top = keys.find_unique_maximal(le);
        let rest = keys.remove(top);
        lemma_sorted_exists(rest);
        let s0 = choose|s: Seq<i32>| strictly_increasing(s) && s.to_set() == rest;
        let s = s0.push(top);
        assert forall|i: int| 0 <= i < s0.len() implies #[trigger] s0[i] < top by {
            assert(s0.to_set().contains(s0[i]));
            assert(keys.contains(s0[i]));
            if le(top, s0[i]) {
                assert(le(s0[i], top));
            }
        }
        assert(strictly_increasing(s)) by {
            assert forall|i: int, j: int| 0 <= i < j < s.len() implies s[i] < s[j] by {
                if j < s0.len() {
                    assert(s[i] == s0[i] && s[j] == s0[j]);
                } else {
                    assert(s[i] == s0[i]);
                }
            }
        }
        assert forall|x: i32| #[trigger] s.to_set().contains(x) == keys.contains(x) by {
            if s.to_set().contains(x) {
                let i = choose|i: int| 0 <= i < s.len() && s[i] == x;
                if i < s0.len() {
                    assert(s0.to_set().contains(s0[i]));
                }
            }
            if keys.contains(x) && x != top {
                assert(rest.contains(x));
                assert(s0.to_set().contains(x));
                let i = choose|i: int| 0 <= i < s0.len() && s0[i] == x;
                assert(s[i] == x);
            }
            if x == top {
                assert(s[s0.len() as int] == top);
            }
        }
        assert(s.to_set() =~= keys);
    }
}

/// The keys of a finite map, in increasing order, are listed once each.
pub proof fn sorted_keys_lists_each_key_once(m: Map<i32, Seq<char>>)
    requires
        m.dom().finite(),
    ensures
        strictly_increasing(sorted_keys(m)),
        sorted_keys(m).to_set() == m.dom(),
        sorted_keys(m).len() == m.dom().len(),
{
    lemma_sorted_exists(m.dom());
    let s = sorted_keys(m);
    assert(s.no_duplicates()) by {
        assert forall|i: int, j: int| 0 <= i < s.len() && 0 <= j < s.len() && i != j implies s[i] != s[j] by {
            if i < j {
                assert(s[i] < s[j]);
            } else {
                assert(s[j] < s[i]);
            }
        }
    }
    s.unique_seq_to_set();
}

/// The keys yielded by iterating a `BTreeMap<i32, _>` increase strictly.
proof fn lemma_increasing_keys(s: Seq<i32>)
    requires
        vstd::std_specs::btree::increasing_seq(s),
    ensures
        strictly_increasing(s),
{
    broadcast use vstd::std_specs::btree::axiom_increasing_seq_meaning;
    assert(vstd::laws_cmp::obeys_cmp::<i32>());
    assert forall|i: int, j: int| 0 <= i < j < s.len() implies s[i] < s[j] by {
        assert(s[i].cmp_spec(&s[j]) is Less);
    }
}

/// The keyboards the bot attaches to its messages.
pub struct Keyboard {
    agree_keyboard: ReplyKeyboard,
}

/// Builds the keyboards: the consent keyboard is one row with "✅" and "❌".
pub fn initialize() -> (k: Keyboard)
    ensures
        k@ == agree_layout(),
{
    Keyboard { agree_keyboard: agree_keyboard() }
}

impl View for Keyboard {
    type V = ReplyKeyboardView;

    /// The stored consent keyboard.
    closed spec fn view(&self) -> ReplyKeyboardView {
        self.agree_keyboard@
    }
}

impl Keyboard {
    #[verifier::type_invariant]
    spec fn holds_agree_layout(self) -> bool {
        self.agree_keyboard@ == agree_layout()
    }

    /// The consent keyboard shown before registration.
    pub fn get_agree_keyboard(&self) -> (k: ReplyKeyboard)
        ensures
            k@ == self@,
            k@ == agree_layout(),
    {
        proof {
            use_type_invariant(self);
        }
        let mut rows: Vec<Vec<String>> = Vec::new();
        let mut i: usize = 0;
        while i < self.agree_keyboard.rows.len()
            invariant
                i <= self.agree_keyboard.rows@.len(),
                rows@.len() == i,
                forall|j: int| 0 <= j < i ==> (#[trigger] rows@[j])@.map_values(|s: String| s@)
                    == self.agree_keyboard.rows@[j]@.map_values(|s: String| s@),
            decreases self.agree_keyboard.rows@.len() - i,
        {
            let src = &self.agree_keyboard.rows[i];
            let mut row: Vec<String> = Vec::new();
            let mut j: usize = 0;
            while j < src.len()
                invariant
                    j <= src@.len(),
                    row@.len() == j,
                    forall|t: int| 0 <= t < j ==> (#[trigger] row@[t])@ == src@[t]@,
                decreases src@.len() - j,
            {
                row.push(src[j].clone());
                j = j + 1;
            }
            assert(row@.map_values(|s: String| s@) =~= src@.map_values(|s: String| s@));
            rows.push(row);
            i = i + 1;
        }
        let k = ReplyKeyboard { rows, resize: self.agree_keyboard.resize };
        assert(k@.rows =~= self.agree_keyboard@.rows);
        k
    }

    /// The keyboard for a prize list: `None` when the list is empty.
    pub fn get_prize_keyboard(&self, prizes: Prizes) -> (r: Option<PrizeKeyboard>)
        ensures
            match r {
                Some(k) => prize_keyboard(prizes@) == Some(k@),
                None => prize_keyboard(prizes@) is None,
            },
    {
        if prizes.0.len() == 0 {
            return None;
        }
        let m: BTreeMap<i32, String> = prizes.get_map();
        let ghost pm = prize_map(prizes@);
        let mut message = String::new();
        let mut buttons: Vec<InlineButton> = Vec::new();
        let mut n: usize = 0;
        let total = m.len();
        let ghost full = vstd::std_specs::btree::spec_btree_map_iter(&m).remaining();
        for kv in it: m.iter()
            invariant
                it.seq() == full,
                full.len() == total,
                m@.dom() == pm.dom(),
                forall|k: i32| #[trigger] m@.contains_key(k) ==> m@[k]@ == pm[k],
                n == it.index(),
                n <= full.len(),
                full.len() == m@.dom().len(),
                forall|i: int|
                    #![trigger full[i]]
                    0 <= i < full.len() ==> m@.contains_key(*full[i].0) && m@[*full[i].0]
                        == *full[i].1,
                forall|k: i32| #[trigger]
                    m@.contains_key(k) ==> full.contains((&k, &m@[k])),
                vstd::std_specs::btree::increasing_seq(
                    full.map_values(|kv: (&i32, &String)| *kv.0),
                ),
                message@ == join_lines(full.take(n as int).map_values(|kv: (&i32, &String)| *kv.0).map(|j: int, id: i32| keyboard_line(j as nat, pm[id]))),
                buttons@.map_values(|b: InlineButton| (b.text@, b.data@)) == full.take(n as int).map_values(|kv: (&i32, &String)| *kv.0).map(
                    |j: int, id: i32| (button_label(j as nat), button_data(j as nat, id)),
                ),
            ensures
                n == full.len(),
        {
            let id: i32 = *kv.0;
            let text: &String = kv.1;
            let ghost old_ids = full.take(n as int).map_values(|kv: (&i32, &String)| *kv.0);
            let ghost old_lines = old_ids.map(|j: int, id: i32| keyboard_line(j as nat, pm[id]));
            if n > 0 {
                message.append("\n");
            }
            message.append("❌ Шара №");
            write_decimal(&mut message, (n as u64) + 1);
            message.append(": ");
            message.append(text.as_str());
            let mut label = String::from_str("Шара №");
            write_decimal(&mut label, (n as u64) + 1);
            let mut data = String::new();
            write_signed(&mut data, id as i64);
            data.append(":");
            write_decimal(&mut data, n as u64);
            let ghost old_buttons = buttons@;
            let ghost new_button = (label@, data@);
            assert(label@ =~= button_label(n as nat));
            assert(data@ =~= button_data(n as nat, id));
            buttons.push(InlineButton { text: label, data });
            proof {
                let new_ids = full.take(n + 1).map_values(|kv: (&i32, &String)| *kv.0);
                assert(new_ids =~= old_ids.push(id));
                let new_lines = new_ids.map(|j: int, id: i32| keyboard_line(j as nat, pm[id]));
                assert(new_lines.drop_last() =~= old_lines);
                assert(new_lines.last() == keyboard_line(n as nat, pm[id]));
                assert(m@.contains_key(id));
                assert(text@ == pm[id]);
                assert(message@ =~= join_lines(new_lines));
                assert(old_buttons.map_values(|b: InlineButton| (b.text@, b.data@)) == old_ids.map(
                    |j: int, id: i32| (button_label(j as nat), button_data(j as nat, id)),
                ));
                assert(buttons@.map_values(|b: InlineButton| (b.text@, b.data@)) =~= old_buttons.map_values(
                    |b: InlineButton| (b.text@, b.data@),
                ).push(new_button));
                assert(new_ids.map(|j: int, id: i32| (button_label(j as nat), button_data(j as nat, id)))
                    =~= old_ids.map(
                    |j: int, id: i32| (button_label(j as nat), button_data(j as nat, id)),
                ).push(new_button));
                assert(buttons@.map_values(|b: InlineButton| (b.text@, b.data@)) =~= new_ids.map(
                    |j: int, id: i32| (button_label(j as nat), button_data(j as nat, id)),
                ));
            }
            n = n + 1;
        }
        proof {
            let keys = full.map_values(|kv: (&i32, &String)| *kv.0);
            assert(full.take(full.len() as int) =~= full);
            lemma_increasing_keys(keys);
            assert forall|k: i32| #[trigger] keys.to_set().contains(k) == pm.dom().contains(k) by {
                if keys.to_set().contains(k) {
                    let i = choose|i: int| 0 <= i < keys.len() && keys[i] == k;
                    assert(m@.contains_key(*full[i].0));
                }
                if pm.dom().contains(k) {
                    assert(m@.contains_key(k));
                    assert(full.contains((&k, &m@[k])));
                    let i = choose|i: int| 0 <= i < full.len() && full[i] == (&k, &m@[k]);
                    assert(keys[i] == k);
                }
            }
            assert(keys.to_set() =~= pm.dom());
            lemma_sorted_keys(pm, keys);
        }
        let k = PrizeKeyboard { message, buttons };
        Some(k)
    }
}

}
