//! Prizes offered to a student and their HTML descriptions.

use std::collections::BTreeMap;
use vstd::prelude::*;
use crate::text::{decimal, signed_decimal, write_decimal, write_signed};

verus! {

/// One prize row as the database reports it for a student.
pub struct Prize {
    pub id: i32,
    pub teacher: String,
    pub subject: String,
    pub prize_type: String,
    pub count: i16,
    pub groups: Option<String>,
    pub selected: bool,
}

/// The mathematical value of a [`Prize`].
pub struct PrizeView {
    pub id: i32,
    pub teacher: Seq<char>,
    pub subject: Seq<char>,
    pub prize_type: Seq<char>,
    pub count: i16,
    pub groups: Option<Seq<char>>,
    pub selected: bool,
}

impl View for Prize {
    type V = PrizeView;

    open spec fn view(&self) -> PrizeView {
        PrizeView {
            id: self.id,
            teacher: self.teacher@,
            subject: self.subject@,
            prize_type: self.prize_type@,
            count: self.count,
            groups: match self.groups {
                Some(g) => Some(g@),
                None => None,
            },
            selected: self.selected,
        }
    }
}

/// The HTML description of one prize.
pub open spec fn prize_text(p: PrizeView) -> Seq<char> {
    match p.groups {
        Some(groups) => p.teacher + "\n<b>Предмет:</b> "@ + p.subject + "\n<b>"@ + p.prize_type
            + "</b> [Кількість шар - "@ + signed_decimal(p.count as int)
            + "]\n<b>Розігрується серед груп:</b> ["@ + groups + "]"@,
        None => p.teacher + "\n<b>Предмет</b>: "@ + p.subject + "\n<b>"@ + p.prize_type
            + "</b> [Кількість шар - "@ + signed_decimal(p.count as int)
            + "]\n<b>Розігрується серед вашої групи</b>"@,
    }
}

/// The mark in front of a prize in a list: whether the student chose it.
pub open spec fn selection_mark(selected: bool) -> Seq<char> {
    if selected {
        "✅"@
    } else {
        "❌"@
    }
}

/// Line `n` (counted from 0) of a prize list.
pub open spec fn prize_line(n: nat, p: PrizeView) -> Seq<char> {
    selection_mark(p.selected) + " Шара №"@ + decimal(n + 1) + ": "@ + prize_text(p) + "\n"@
}

/// The lines of a prize list, one per prize, in order.
pub open spec fn prize_lines(ps: Seq<PrizeView>) -> Seq<char>
    decreases ps.len(),
{
    if ps.len() == 0 {
        Seq::empty()
    } else {
        prize_lines(ps.drop_last()) + prize_line((ps.len() - 1) as nat, ps.last())
    }
}

/// The text sent when no prize is offered.
pub open spec fn no_prizes_text() -> Seq<char> {
    "Не вдалося знайти шари на обрану групу"@
}

/// The HTML text of a prize list.
pub open spec fn prizes_text(ps: Seq<PrizeView>) -> Seq<char> {
    if ps.len() == 0 {
        no_prizes_text()
    } else {
        prize_lines(ps)
    }
}

/// Prize id to description; a later prize replaces an earlier one with the same id.
pub open spec fn prize_map(ps: Seq<PrizeView>) -> Map<i32, Seq<char>>
    decreases ps.len(),
{
    if ps.len() == 0 {
        Map::empty()
    } else {
        prize_map(ps.drop_last()).insert(ps.last().id, prize_text(ps.last()))
    }
}

/// The description map of a prize list is finite.
pub proof fn prize_map_is_finite(ps: Seq<PrizeView>)
    ensures
        prize_map(ps).dom().finite(),
    decreases ps.len(),
{
    if ps.len() > 0 {
        prize_map_is_finite(ps.drop_last());
    }
}

impl Prize {
    /// Appends the HTML description of this prize to `out`.
    pub fn write_text(&self, out: &mut String)
        ensures
            final(out)@ == old(out)@ + prize_text(self@),
    {
        out.append(self.teacher.as_str());
        match &self.groups {
            Some(groups) => {
                out.append("\n<b>Предмет:</b> ");
                out.append(self.subject.as_str());
                out.append("\n<b>");
                out.append(self.prize_type.as_str());
                out.append("</b> [Кількість шар - ");
                write_signed(out, self.count as i64);
                out.append("]\n<b>Розігрується серед груп:</b> [");
                out.append(groups.as_str());
                out.append("]");
            },
            None => {
                out.append("\n<b>Предмет</b>: ");
                out.append(self.subject.as_str());
                out.append("\n<b>");
                out.append(self.prize_type.as_str());
                out.append("</b> [Кількість шар - ");
                write_signed(out, self.count as i64);
                out.append("]\n<b>Розігрується серед вашої групи</b>");
            },
        }
        assert(final(out)@ =~= old(out)@ + prize_text(self@));
    }

    /// The HTML description of this prize.
    pub fn to_text(&self) -> (s: String)
        ensures
            s@ == prize_text(self@),
    {
        let mut s = String::new();
        self.write_text(&mut s);
        assert(s@ =~= prize_text(self@));
        s
    }
}

/// The prizes offered to one student, in the order the database lists them.
pub struct Prizes(pub Vec<Prize>);

impl View for Prizes {
    type V = Seq<PrizeView>;

    open spec fn view(&self) -> Seq<PrizeView> {
        self.0@.map_values(|p: Prize| p@)
    }
}

impl Prizes {
    /// The HTML text of the prize list: one numbered line per prize, or a
    /// notice when there is none.
    pub fn to_text(&self) -> (s: String)
        ensures
            s@ == prizes_text(self@),
    {
        let mut s = String::new();
        if self.0.len() == 0 {
            s.append("Не вдалося знайти шари на обрану групу");
            assert(s@ =~= no_prizes_text());
            return s;
        }
        let mut i: usize = 0;
        while i < self.0.len()
            invariant
                i <= self.0@.len(),
                s@ == prize_lines(self@.take(i as int)),
            decreases self.0@.len() - i,
        {
            let p = &self.0[i];
            let ghost before = s@;
            if p.selected {
                s.append("✅");
            } else {
                s.append("❌");
            }
            s.append(" Шара №");
            write_decimal(&mut s, (i as u64) + 1);
            s.append(": ");
            p.write_text(&mut s);
            s.append("\n");
            proof {
                let t = self@.take(i + 1);
                assert(t.drop_last() =~= self@.take(i as int));
                assert(t.last() == p@);
                assert(s@ =~= before + prize_line(i as nat, p@));
            }
            i = i + 1;
        }
        assert(self@.take(self.0@.len() as int) =~= self@);
        s
    }

    /// Prize id to description; a later prize replaces an earlier one with the same id.
    pub fn get_map(&self) -> (m: BTreeMap<i32, String>)
        ensures
            m@.dom() == prize_map(self@).dom(),
            forall|k: i32| #[trigger] m@.contains_key(k) ==> m@[k]@ == prize_map(self@)[k],
    {
        let mut m: BTreeMap<i32, String> = BTreeMap::new();
        let mut i: usize = 0;
        while i < self.0.len()
            invariant
                i <= self.0@.len(),
                m@.dom() == prize_map(self@.take(i as int)).dom(),
                forall|k: i32| #[trigger]
                    m@.contains_key(k) ==> m@[k]@ == prize_map(self@.take(i as int))[k],
            decreases self.0@.len() - i,
        {
            let p = &self.0[i];
            let text = p.to_text();
            m.insert(p.id, text);
            proof {
                let t = self@.take(i + 1);
                assert(t.drop_last() =~= self@.take(i as int));
                assert(t.last() == p@);
                assert(m@.dom() =~= prize_map(t).dom());
            }
            i = i + 1;
        }
        assert(self@.take(self.0@.len() as int) =~= self@);
        m
    }
}

}
