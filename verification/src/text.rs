//! Text building blocks: decimal numbers, whitespace-separated words and
//! integer parsing, each specified over `Seq<char>`.

use vstd::prelude::*;

verus! {

/// The decimal digit character for `d` (`0 <= d < 10`).
pub open spec fn digit_char(d: nat) -> char {
    (('0' as int) + d) as char
}

/// Decimal representation of a natural number, without leading zeros.
pub open spec fn decimal(n: nat) -> Seq<char>
    decreases n,
{
    if n < 10 {
        seq![digit_char(n)]
    } else {
        decimal(n / 10).push(digit_char(n % 10))
    }
}

/// Decimal representation of an integer, with a leading `-` when negative.
pub open spec fn signed_decimal(n: int) -> Seq<char> {
    if n < 0 {
        seq!['-'] + decimal((-n) as nat)
    } else {
        decimal(n as nat)
    }
}

/// Appends one character to a string (`String::push`).
#[verifier::external_body]
pub(crate) fn push_char(s: &mut String, c: char)
    ensures
        final(s)@ == old(s)@.push(c),
{
    s.push(c);
}

fn digit(d: u64) -> (c: char)
    requires
        d < 10,
    ensures
        c == digit_char(d as nat),
{
    let b: u8 = 48u8 + (d as u8);
    b as char
}

/// Appends the decimal representation of `n` to `out`.
pub fn write_decimal(out: &mut String, n: u64)
    ensures
        final(out)@ == old(out)@ + decimal(n as nat),
    decreases n,
{
    if n >= 10 {
        write_decimal(out, n / 10);
    }
    push_char(out, digit(n % 10));
}

}

verus! {

/// Appends the decimal representation of `n` (with a `-` when negative).
pub fn write_signed(out: &mut String, n: i64)
    ensures
        final(out)@ == old(out)@ + signed_decimal(n as int),
{
    if n < 0 {
        push_char(out, '-');
        let m: u64 = (0i128 - (n as i128)) as u64;
        write_decimal(out, m);
        assert(final(out)@ =~= old(out)@ + signed_decimal(n as int));
    } else {
        write_decimal(out, n as u64);
    }
}

/// The characters of a string slice, in order.
pub fn chars_of(s: &str) -> (v: Vec<char>)
    ensures
        v@ == s@,
{
    let mut v: Vec<char> = Vec::new();
    for c in it: s.chars()
        invariant
            v@ == it.seq().take(it.index()),
            it.seq() == s@,
    {
        v.push(c);
        assert(it.seq().take(it.index() + 1) =~= it.seq().take(it.index()).push(c));
    }
    assert(v@ =~= s@);
    v
}

}

verus! {

/// Unicode `White_Space` characters, the set that `char::is_whitespace` tests.
pub open spec fn is_white_space(c: char) -> bool {
    ||| '\u{9}' <= c <= '\u{d}'
    ||| c == ' '
    ||| c == '\u{85}'
    ||| c == '\u{a0}'
    ||| c == '\u{1680}'
    ||| '\u{2000}' <= c <= '\u{200a}'
    ||| c == '\u{2028}'
    ||| c == '\u{2029}'
    ||| c == '\u{202f}'
    ||| c == '\u{205f}'
    ||| c == '\u{3000}'
}

/// Executable test for [`is_white_space`].
pub fn white_space(c: char) -> (b: bool)
    ensures
        b == is_white_space(c),
{
    ('\u{9}' <= c && c <= '\u{d}') || c == ' ' || c == '\u{85}' || c == '\u{a0}' || c
        == '\u{1680}' || ('\u{2000}' <= c && c <= '\u{200a}') || c == '\u{2028}' || c
        == '\u{2029}' || c == '\u{202f}' || c == '\u{205f}' || c == '\u{3000}'
}

/// The words of `s`: its maximal runs of non-whitespace characters, in order.
/// Defined by how the last character extends the words of the rest.
pub open spec fn words(s: Seq<char>) -> Seq<Seq<char>>
    decreases s.len(),
{
    if s.len() == 0 {
        seq![]
    } else {
        let prev = words(s.drop_last());
        let c = s.last();
        if is_white_space(c) {
            prev
        } else if s.len() > 1 && !is_white_space(s[s.len() - 2]) {
            prev.update(prev.len() - 1, prev.last().push(c))
        } else {
            prev.push(seq![c])
        }
    }
}

/// The views of a vector of strings.
pub open spec fn string_views(v: Seq<String>) -> Seq<Seq<char>> {
    v.map_values(|s: String| s@)
}

/// Splits `s` into its whitespace-separated words (`str::split_whitespace`).
pub fn split_whitespace(s: &str) -> (ws: Vec<String>)
    ensures
        string_views(ws@) == words(s@),
{
    let cs = chars_of(s);
    let mut done: Vec<String> = Vec::new();
    let mut cur = String::new();
    let mut i: usize = 0;
    while i < cs.len()
        invariant
            i <= cs.len(),
            cs@ == s@,
            cur@.len() > 0 ==> words(s@.take(i as int)) == string_views(done@).push(cur@)
                && i > 0 && !is_white_space(s@[i - 1]),
            cur@.len() == 0 ==> words(s@.take(i as int)) == string_views(done@) && (i == 0
                || is_white_space(s@[i - 1])),
        decreases cs.len() - i,
    {
        let c = cs[i];
        let ghost t = s@.take(i as int);
        let ghost t2 = s@.take(i + 1);
        assert(t2.drop_last() =~= t);
        assert(t2.last() == c);
        if white_space(c) {
            if cur.unicode_len() > 0 {
                let w = cur;
                done.push(w);
                cur = String::new();
                assert(string_views(done@) =~= words(t));
            }
        } else {
            let ghost old_cur = cur@;
            push_char(&mut cur, c);
            proof {
                if old_cur.len() > 0 {
                    assert(t2.len() > 1 && t2[t2.len() - 2] == s@[i - 1]);
                    assert(string_views(done@).push(cur@) =~= words(t2));
                } else {
                    if i > 0 {
                        assert(t2[t2.len() - 2] == s@[i - 1]);
                    }
                    assert(cur@ =~= seq![c]);
                    assert(string_views(done@).push(cur@) =~= words(t2));
                }
            }
        }
        i = i + 1;
    }
    assert(s@.take(cs.len() as int) =~= s@);
    if cur.unicode_len() > 0 {
        done.push(cur);
    }
    assert(string_views(done@) =~= words(s@));
    done
}

}

verus! {

/// Whether `c` is one of the ASCII digits `0`..`9`.
pub open spec fn is_digit(c: char) -> bool {
    '0' <= c <= '9'
}

/// The value of a sequence of decimal digits, most significant first.
pub open spec fn digits_value(d: Seq<char>) -> int
    decreases d.len(),
{
    if d.len() == 0 {
        0
    } else {
        digits_value(d.drop_last()) * 10 + ((d.last() as int) - ('0' as int))
    }
}

/// The digits part of a numeral: the text after an optional leading sign.
pub open spec fn unsigned_part(s: Seq<char>) -> Seq<char> {
    if s.len() > 0 && (s[0] == '-' || s[0] == '+') {
        s.drop_first()
    } else {
        s
    }
}

/// What `str::parse::<i32>` yields: an optional `+` or `-`, then one or more
/// ASCII digits, whose value must fit in an `i32`; anything else is refused.
pub open spec fn parse_i32_spec(s: Seq<char>) -> Option<i32> {
    let body = unsigned_part(s);
    let value = if s.len() > 0 && s[0] == '-' {
        -digits_value(body)
    } else {
        digits_value(body)
    };
    if body.len() == 0 || exists|i: int| 0 <= i < body.len() && !is_digit(#[trigger] body[i]) {
        None
    } else if i32::MIN <= value <= i32::MAX {
        Some(value as i32)
    } else {
        None
    }
}

proof fn lemma_digits_value_grows(d: Seq<char>, k: int)
    requires
        0 <= k <= d.len(),
        forall|i: int| 0 <= i < d.len() ==> is_digit(#[trigger] d[i]),
    ensures
        digits_value(d.take(k)) <= digits_value(d),
        0 <= digits_value(d.take(k)),
    decreases d.len(),
{
    if d.len() == 0 {
        assert(d.take(k) =~= d);
    } else if k == d.len() {
        assert(d.take(k) =~= d);
        lemma_digits_value_grows(d.drop_last(), k - 1);
        assert(d.drop_last().take(k - 1) =~= d.take(k - 1));
    } else {
        lemma_digits_value_grows(d.drop_last(), k);
        assert(d.drop_last().take(k) =~= d.take(k));
        lemma_digits_value_grows(d.drop_last(), d.len() - 1);
        assert(d.drop_last().take(d.len() - 1) =~= d.drop_last());
    }
}

/// Parses a decimal `i32` the way `str::parse::<i32>` does.
pub fn parse_i32(s: &str) -> (r: Option<i32>)
    ensures
        r == parse_i32_spec(s@),
{
    let cs = chars_of(s);
    let ghost body = unsigned_part(s@);
    let n = cs.len();
    let mut start: usize = 0;
    let mut negative = false;
    if n > 0 && (cs[0] == '-' || cs[0] == '+') {
        negative = cs[0] == '-';
        start = 1;
    }
    assert(body =~= s@.skip(start as int));
    if start == n {
        return None;
    }
    let limit: i64 = 2147483648;
    let mut acc: i64 = 0;
    let mut i: usize = start;
    while i < n
        invariant
            start <= i <= n,
            n == cs@.len(),
            cs@ == s@,
            body == s@.skip(start as int),
            body == unsigned_part(s@),
            body.len() > 0,
            negative == (s@.len() > 0 && s@[0] == '-'),
            0 <= acc <= limit,
            limit == 2147483648,
            acc == digits_value(body.take(i - start)),
            forall|j: int| 0 <= j < i - start ==> is_digit(#[trigger] body[j]),
        decreases n - i,
    {
        let c = cs[i];
        assert(body[i - start] == c);
        if !('0' <= c && c <= '9') {
            assert(!is_digit(body[i - start]));
            return None;
        }
        let d: i64 = (c as u32 - '0' as u32) as i64;
        let ghost prefix = body.take(i - start + 1);
        assert(prefix.drop_last() =~= body.take(i - start));
        assert(prefix.last() == c);
        if acc * 10 + d > limit {
            proof {
                if forall|j: int| 0 <= j < body.len() ==> is_digit(#[trigger] body[j]) {
                    lemma_digits_value_grows(body, i - start + 1);
                }
            }
            return None;
        }
        acc = acc * 10 + d;
        i = i + 1;
    }
    assert(body.take(n - start) =~= body);
    if negative {
        Some((0 - acc) as i32)
    } else if acc < limit {
        Some(acc as i32)
    } else {
        None
    }
}

}

verus! {

proof fn lemma_decimal_digits(n: nat)
    ensures
        decimal(n).len() >= 1,
        forall|i: int| 0 <= i < decimal(n).len() ==> is_digit(#[trigger] decimal(n)[i]),
        digits_value(decimal(n)) == n,
    decreases n,
{
    assert((digit_char(n % 10) as int) == ('0' as int) + n % 10);
    if n < 10 {
        assert(decimal(n).drop_last() =~= Seq::<char>::empty());
        assert(decimal(n).last() == digit_char(n));
        assert(n % 10 == n);
        assert(digits_value(Seq::<char>::empty()) == 0);
        assert(digits_value(decimal(n)) == digits_value(decimal(n).drop_last()) * 10 + ((decimal(n).last() as int) - ('0' as int)));
    } else {
        lemma_decimal_digits(n / 10);
        let s = decimal(n / 10);
        assert(decimal(n).drop_last() =~= s);
        assert forall|i: int| 0 <= i < decimal(n).len() implies is_digit(#[trigger] decimal(n)[i]) by {
            if i < s.len() {
                assert(decimal(n)[i] == s[i]);
            }
        }
    }
}

/// A number written in decimal reads back as the same number:
/// `str::parse::<i32>` undoes the formatting of any `i32`.
pub proof fn decimal_reads_back(n: i32)
    ensures
        parse_i32_spec(signed_decimal(n as int)) == Some(n),
{
    let s = signed_decimal(n as int);
    if n < 0 {
        let d = decimal((-n) as nat);
        lemma_decimal_digits((-n) as nat);
        assert(s[0] == '-');
        assert(s.drop_first() =~= d);
        assert(unsigned_part(s) == d);
    } else {
        let d = decimal(n as nat);
        lemma_decimal_digits(n as nat);
        assert(is_digit(d[0]));
        assert(unsigned_part(s) == d);
    }
}

/// Text holding a colon after a decimal number (with or without its sign)
/// never reads as an `i32`.
pub proof fn colon_breaks_number(n: int, rest: Seq<char>)
    ensures
        parse_i32_spec(signed_decimal(n) + ":"@ + rest) is None,
{
    let s = signed_decimal(n) + ":"@ + rest;
    reveal_strlit(":");
    let body = unsigned_part(s);
    let d = decimal(if n < 0 { (-n) as nat } else { n as nat });
    lemma_decimal_digits(if n < 0 { (-n) as nat } else { n as nat });
    if n < 0 {
        assert(s[0] == '-');
        assert(body =~= d + ":"@ + rest);
    } else {
        assert(s[0] == d[0]);
        assert(is_digit(d[0]));
        assert(body == s);
    }
    assert(body[d.len() as int] == ':');
    assert(!is_digit(body[d.len() as int]));
}

}

verus! {

/// No character of `w` is whitespace.
pub open spec fn no_white_space(w: Seq<char>) -> bool {
    forall|i: int| 0 <= i < w.len() ==> !is_white_space(#[trigger] w[i])
}

proof fn lemma_words_append_word(p: Seq<char>, w: Seq<char>)
    requires
        w.len() > 0,
        no_white_space(w),
        p.len() == 0 || is_white_space(p.last()),
    ensures
        words(p + w) == words(p).push(w),
    decreases w.len(),
{
    let x = w.last();
    let w0 = w.drop_last();
    assert((p + w).drop_last() =~= p + w0);
    assert((p + w).last() == x);
    assert(!is_white_space(w[w.len() - 1]));
    if w0.len() == 0 {
        assert(p + w0 =~= p);
        if p.len() > 0 {
            assert((p + w)[(p + w).len() - 2] == p.last());
        }
        assert(w =~= seq![x]);
    } else {
        assert forall|i: int| 0 <= i < w0.len() implies !is_white_space(#[trigger] w0[i]) by {
            assert(w0[i] == w[i]);
        }
        lemma_words_append_word(p, w0);
        assert((p + w)[(p + w).len() - 2] == w0.last());
        assert(w0.last() == w[w0.len() - 1]);
        assert(words(p + w) =~= words(p).push(w0).update(words(p).len() as int, w0.push(x)));
        assert(w0.push(x) =~= w);
        assert(words(p + w) =~= words(p).push(w));
    }
}

/// Three words separated by single spaces are split back into those words.
pub proof fn three_words_split_back(a: Seq<char>, b: Seq<char>, c: Seq<char>)
    requires
        a.len() > 0 && b.len() > 0 && c.len() > 0,
        no_white_space(a) && no_white_space(b) && no_white_space(c),
    ensures
        words(a + seq![' '] + b + seq![' '] + c) == seq![a, b, c],
{
    let e = Seq::<char>::empty();
    assert(words(e) == Seq::<Seq<char>>::empty());
    lemma_words_append_word(e, a);
    assert(e + a =~= a);
    let p1 = a + seq![' '];
    assert(p1.drop_last() =~= a);
    assert(words(p1) == words(a));
    lemma_words_append_word(p1, b);
    let p2 = p1 + b + seq![' '];
    assert(p2.drop_last() =~= p1 + b);
    assert(words(p2) == words(p1 + b));
    lemma_words_append_word(p2, c);
    assert(a + seq![' '] + b + seq![' '] + c =~= p2 + c);
    assert(words(p2 + c) =~= seq![a, b, c]);
}

}
