//! White space: trimming, words and lines.
use vstd::prelude::*;
use crate::text::{chars_of, find_char, find_char_first, find_char_unique, index_of_char, text_range, texts, texts_push};

verus! {

/// The characters that Unicode calls white space.
pub open spec fn is_space(c: char) -> bool {
    ||| '\u{9}' <= c <= '\u{d}'
    ||| c == ' '
    ||| c == '\u{85}'
    ||| c == '\u{a0}'
    ||| c == '\u{1680}'
    ||| '\u{2000}' <= c <= '\u{200a}'
    ||| c == '\u{2028}'
    ||| c == '\u{2029}'
    ||| c == '\u{202f}'
    ||| c == '\u{205f}'
    ||| c == '\u{3000}'
}

/// Is `c` white space?
pub fn is_space_char(c: char) -> (r: bool)
    ensures
        r == is_space(c),
{
    (c >= '\u{9}' && c <= '\u{d}') || c == ' ' || c == '\u{85}' || c == '\u{a0}' || c == '\u{1680}'
        || (c >= '\u{2000}' && c <= '\u{200a}') || c == '\u{2028}' || c == '\u{2029}' || c == '\u{202f}'
        || c == '\u{205f}' || c == '\u{3000}'
}

/// How many characters at the front of `s` are white space.
pub open spec fn lead_space(s: Seq<char>) -> int
    decreases s.len(),
{
    if s.len() > 0 && is_space(s[0]) {
        1 + lead_space(s.skip(1))
    } else {
        0
    }
}

/// How many characters at the front of `s` are not white space.
pub open spec fn lead_word(s: Seq<char>) -> int
    decreases s.len(),
{
    if s.len() > 0 && !is_space(s[0]) {
        1 + lead_word(s.skip(1))
    } else {
        0
    }
}

/// `s` without the white space at its front.
pub open spec fn trim_front(s: Seq<char>) -> Seq<char> {
    s.skip(lead_space(s))
}

/// `s` without the white space at its end.
pub open spec fn trim_back(s: Seq<char>) -> Seq<char>
    decreases s.len(),
{
    if s.len() > 0 && is_space(s.last()) {
        trim_back(s.drop_last())
    } else {
        s
    }
}

/// `s` without the white space at either end.
pub open spec fn trimmed(s: Seq<char>) -> Seq<char> {
    trim_back(trim_front(s))
}

/// The words of `s`: its longest runs without white space, in order.
pub open spec fn words(s: Seq<char>) -> Seq<Seq<char>>
    decreases s.len(),
{
    let t = trim_front(s);
    if t.len() == 0 {
        Seq::empty()
    } else {
        proof {
            lead_space_bounds(s);
            lead_word_bounds(t);
            assert(t[0] == s[lead_space(s)]);
        }
        seq![t.take(lead_word(t))] + words(t.skip(lead_word(t)))
    }
}

/// The white space at the front of a text ends within it, at its first other character.
pub proof fn lead_space_bounds(s: Seq<char>)
    ensures
        0 <= lead_space(s) <= s.len(),
        forall|j: int| 0 <= j < lead_space(s) ==> is_space(s[j]),
        lead_space(s) < s.len() ==> !is_space(s[lead_space(s)]),
    decreases s.len(),
{
    if s.len() > 0 && is_space(s[0]) {
        lead_space_bounds(s.skip(1));
        assert forall|j: int| 0 <= j < lead_space(s) implies is_space(s[j]) by {
            if j > 0 {
                assert(s.skip(1)[j - 1] == s[j]);
            }
        }
    }
}

/// The word at the front of a text ends within it, at its first white space.
pub proof fn lead_word_bounds(s: Seq<char>)
    ensures
        0 <= lead_word(s) <= s.len(),
        forall|j: int| 0 <= j < lead_word(s) ==> !is_space(s[j]),
        lead_word(s) < s.len() ==> is_space(s[lead_word(s)]),
        s.len() > 0 && !is_space(s[0]) ==> lead_word(s) >= 1,
    decreases s.len(),
{
    if s.len() > 0 && !is_space(s[0]) {
        lead_word_bounds(s.skip(1));
        assert forall|j: int| 0 <= j < lead_word(s) implies !is_space(s[j]) by {
            if j > 0 {
                assert(s.skip(1)[j - 1] == s[j]);
            }
        }
    }
}

/// The words of a text: none where only white space is left, else the first
/// and then those of what follows it.
pub proof fn words_unfold(s: Seq<char>)
    ensures
        words(s) == ({
            let t = trim_front(s);
            if t.len() == 0 {
                Seq::empty()
            } else {
                seq![t.take(lead_word(t))] + words(t.skip(lead_word(t)))
            }
        }),
{
    lead_space_bounds(s);
    let t = trim_front(s);
    lead_word_bounds(t);
    if t.len() > 0 {
        assert(t[0] == s[lead_space(s)]);
    }
}

/// Trimming the end keeps a prefix that does not end in white space.
pub proof fn trim_back_ends(s: Seq<char>)
    ensures
        trim_back(s).len() <= s.len(),
        trim_back(s) == s.take(trim_back(s).len() as int),
        trim_back(s).len() > 0 ==> !is_space(trim_back(s).last()),
        forall|j: int| trim_back(s).len() <= j < s.len() ==> is_space(s[j]),
    decreases s.len(),
{
    if s.len() > 0 && is_space(s.last()) {
        let front = s.drop_last();
        trim_back_ends(front);
        assert(front.take(trim_back(s).len() as int) =~= s.take(trim_back(s).len() as int));
        assert forall|j: int| trim_back(s).len() <= j < s.len() implies is_space(s[j]) by {
            if j < s.len() - 1 {
                assert(front[j] == s[j]);
            }
        }
    } else {
        assert(s.take(s.len() as int) =~= s);
    }
}

/// A text without white space at its ends is its own trimming.
pub proof fn trimmed_fixed(s: Seq<char>)
    requires
        s.len() > 0 ==> !is_space(s[0]) && !is_space(s.last()),
    ensures
        trimmed(s) == s,
{
    assert(s.skip(0) =~= s);
}

/// Where the white space of `v` that begins at `from` ends.
fn skip_space(v: &Vec<char>, from: usize) -> (r: usize)
    requires
        from <= v@.len(),
    ensures
        from <= r <= v@.len(),
        r == from + lead_space(v@.skip(from as int)),
{
    let mut i: usize = from;
    while i < v.len() && is_space_char(v[i])
        invariant
            from <= i <= v@.len(),
            forall|j: int| from <= j < i ==> is_space(v@[j]),
        decreases v@.len() - i,
    {
        i += 1;
    }
    proof {
        let t = v@.skip(from as int);
        lead_space_bounds(t);
        let k = lead_space(t);
        if k < i - from {
            assert(t[k] == v@[from + k]);
        }
        if i - from < k {
            assert(t[i - from] == v@[i as int]);
        }
    }
    i
}

/// Where the word of `v` that begins at `from` ends.
fn skip_word(v: &Vec<char>, from: usize) -> (r: usize)
    requires
        from <= v@.len(),
    ensures
        from <= r <= v@.len(),
        r == from + lead_word(v@.skip(from as int)),
{
    let mut i: usize = from;
    while i < v.len() && !is_space_char(v[i])
        invariant
            from <= i <= v@.len(),
            forall|j: int| from <= j < i ==> !is_space(v@[j]),
        decreases v@.len() - i,
    {
        i += 1;
    }
    proof {
        let t = v@.skip(from as int);
        lead_word_bounds(t);
        let k = lead_word(t);
        if k < i - from {
            assert(t[k] == v@[from + k]);
        }
        if i - from < k {
            assert(t[i - from] == v@[i as int]);
        }
    }
    i
}

/// `s` without the white space at either end.
pub fn trim_text(s: &str) -> (r: String)
    ensures
        r@ == trimmed(s@),
{
    let v = chars_of(s);
    assert(v@.skip(0) =~= v@);
    let start: usize = skip_space(&v, 0);
    let ghost t = trim_front(s@);
    let mut end: usize = v.len();
    assert(v@.subrange(start as int, end as int) =~= t);
    while end > start && is_space_char(v[end - 1])
        invariant
            start <= end <= v@.len(),
            trim_back(t) == trim_back(v@.subrange(start as int, end as int)),
        decreases end,
    {
        let ghost cur = v@.subrange(start as int, end as int);
        assert(cur.last() == v@[end - 1]);
        assert(cur.drop_last() =~= v@.subrange(start as int, end - 1));
        end -= 1;
    }
    proof {
        let cur = v@.subrange(start as int, end as int);
        if end > start {
            assert(cur.last() == v@[end - 1]);
        }
        assert(trim_back(cur) == cur);
    }
    text_range(&v, start, end)
}

/// The words of `s`, in order.
pub fn split_words(s: &str) -> (r: Vec<String>)
    ensures
        texts(r@) == words(s@),
{
    let v = chars_of(s);
    let mut out: Vec<String> = Vec::new();
    assert(v@.skip(0) =~= v@);
    assert(texts(out@) + words(v@) =~= words(v@));
    let mut i: usize = skip_space(&v, 0);
    proof {
        words_same_after_space(v@);
    }
    while i < v.len()
        invariant
            v@ == s@,
            i <= v@.len(),
            i < v@.len() ==> !is_space(v@[i as int]),
            texts(out@) + words(v@.skip(i as int)) == words(v@),
        decreases v@.len() - i,
    {
        let end: usize = skip_word(&v, i);
        let word = text_range(&v, i, end);
        let ghost rest = v@.skip(i as int);
        let ghost before = texts(out@);
        proof {
            texts_push(out@, word);
            words_unfold(rest);
            assert(rest[0] == v@[i as int]);
            assert(lead_space(rest) == 0);
            assert(rest.skip(0) =~= rest);
            lead_word_bounds(rest);
            assert(rest.take(lead_word(rest)) =~= word@);
            assert(rest.skip(lead_word(rest)) =~= v@.skip(end as int));
        }
        out.push(word);
        i = skip_space(&v, end);
        proof {
            let after = v@.skip(end as int);
            words_same_after_space(after);
            assert(after.skip(lead_space(after)) =~= v@.skip(i as int));
            lead_space_bounds(after);
            if i < v@.len() {
                assert(after[lead_space(after)] == v@[i as int]);
            }
            assert(texts(out@) + words(v@.skip(i as int)) =~= before + (seq![word@] + words(after)));
        }
    }
    proof {
        let rest = v@.skip(i as int);
        words_unfold(rest);
        assert(rest.len() == 0);
        lead_space_bounds(rest);
        assert(words(rest) =~= Seq::<Seq<char>>::empty());
        assert(texts(out@) + words(rest) =~= texts(out@));
    }
    out
}

/// White space in front of a text does not change its words.
proof fn words_same_after_space(s: Seq<char>)
    ensures
        0 <= lead_space(s) <= s.len(),
        lead_space(s) < s.len() ==> !is_space(s[lead_space(s)]),
        words(s) == words(s.skip(lead_space(s))),
{
    lead_space_bounds(s);
    let t = trim_front(s);
    words_unfold(s);
    words_unfold(t);
    if t.len() > 0 {
        assert(t[0] == s[lead_space(s)]);
    }
    assert(lead_space(t) == 0);
    assert(t.skip(0) =~= t);
}

/// The place of the first word `w`, or the number of words where there is none.
pub open spec fn find_word(ws: Seq<Seq<char>>, w: Seq<char>) -> int
    decreases ws.len(),
{
    if ws.len() == 0 || ws[0] == w {
        0
    } else {
        1 + find_word(ws.skip(1), w)
    }
}

/// The word behind the first word `w`, if there is one.
pub open spec fn word_after(ws: Seq<Seq<char>>, w: Seq<char>) -> Option<Seq<char>> {
    let i = find_word(ws, w);
    if i + 1 < ws.len() {
        Some(ws[i + 1])
    } else {
        None
    }
}

/// A place that holds `w`, with no `w` before it, is `find_word(ws, w)`.
pub proof fn find_word_unique(ws: Seq<Seq<char>>, w: Seq<char>, i: int)
    requires
        0 <= i <= ws.len(),
        i < ws.len() ==> ws[i] == w,
        forall|j: int| 0 <= j < i ==> ws[j] != w,
    ensures
        find_word(ws, w) == i,
    decreases ws.len(),
{
    if i > 0 {
        assert(ws[0] != w);
        assert forall|j: int| 0 <= j < i - 1 implies ws.skip(1)[j] != w by {
            assert(ws.skip(1)[j] == ws[j + 1]);
        }
        find_word_unique(ws.skip(1), w, i - 1);
    }
}

/// The word behind the first word `w`, if there is one.
pub fn find_after(ws: &Vec<String>, w: &str) -> (r: Option<String>)
    ensures
        crate::text::opt_text(r) == word_after(texts(ws@), w@),
{
    let mut i: usize = 0;
    while i < ws.len() && !crate::text::text_eq(&ws[i], w)
        invariant
            i <= ws@.len(),
            forall|j: int| 0 <= j < i ==> texts(ws@)[j] != w@,
        decreases ws@.len() - i,
    {
        i += 1;
    }
    proof {
        find_word_unique(texts(ws@), w@, i as int);
    }
    if i < ws.len() && i + 1 < ws.len() {
        Some(ws[i + 1].clone())
    } else {
        None
    }
}

// ---- lines ----------------------------------------------------------------

/// `s` without the one carriage return that may stand at its end.
pub open spec fn without_cr(s: Seq<char>) -> Seq<char> {
    if s.len() > 0 && s.last() == '\r' {
        s.drop_last()
    } else {
        s
    }
}

/// The lines of `s`: what ends in a line feed, without that line feed and
/// without a carriage return right before it, and then what is left, if any.
pub open spec fn lines(s: Seq<char>) -> Seq<Seq<char>>
    decreases s.len(),
{
    let i = find_char(s, '\n');
    if s.len() == 0 {
        Seq::empty()
    } else if i == s.len() {
        seq![s]
    } else {
        proof {
            find_char_first(s, '\n');
        }
        seq![without_cr(s.take(i))] + lines(s.skip(i + 1))
    }
}

/// The lines of a text: none where it is empty, else the first and then
/// those of what follows its line feed.
pub proof fn lines_unfold(s: Seq<char>)
    ensures
        0 <= find_char(s, '\n') <= s.len(),
        lines(s) == ({
            let i = find_char(s, '\n');
            if s.len() == 0 {
                Seq::empty()
            } else if i == s.len() {
                seq![s]
            } else {
                seq![without_cr(s.take(i))] + lines(s.skip(i + 1))
            }
        }),
{
    find_char_first(s, '\n');
}

/// The lines of `s`, in order.
pub fn split_lines(s: &str) -> (r: Vec<String>)
    ensures
        texts(r@) == lines(s@),
{
    let v = chars_of(s);
    let mut out: Vec<String> = Vec::new();
    let mut i: usize = 0;
    assert(v@.skip(0) =~= v@);
    assert(texts(out@) + lines(v@) =~= lines(v@));
    while i < v.len()
        invariant
            v@ == s@,
            i <= v@.len(),
            texts(out@) + lines(v@.skip(i as int)) == lines(v@),
        decreases v@.len() - i,
    {
        let end: usize = index_of_char(&v, i, '\n');
        let ghost rest = v@.skip(i as int);
        let ghost before = texts(out@);
        proof {
            lines_unfold(rest);
            lines_unfold(rest.skip(rest.len() as int));
        }
        if end == v.len() {
            let line = text_range(&v, i, end);
            proof {
                texts_push(out@, line);
                assert(line@ =~= rest);
                assert(v@.skip(end as int) =~= rest.skip(rest.len() as int));
            }
            out.push(line);
            i = end;
            assert(texts(out@) + lines(v@.skip(i as int)) =~= before + lines(rest));
        } else {
            let stop: usize = if end > i && v[end - 1] == '\r' {
                end - 1
            } else {
                end
            };
            let line = text_range(&v, i, stop);
            proof {
                texts_push(out@, line);
                let head = rest.take(end - i);
                assert(head =~= v@.subrange(i as int, end as int));
                if end > i {
                    assert(head.last() == v@[end - 1]);
                }
                assert(line@ =~= without_cr(head));
                assert(rest.skip(end - i + 1) =~= v@.skip(end + 1));
            }
            out.push(line);
            i = end + 1;
            assert(texts(out@) + lines(v@.skip(i as int)) =~= before + (seq![line@] + lines(v@.skip(i as int))));
        }
    }
    proof {
        let rest = v@.skip(i as int);
        lines_unfold(rest);
        assert(texts(out@) + lines(rest) =~= texts(out@));
    }
    out
}

/// White space is the tab, the line ends and the blanks, of whatever width,
/// and nothing else: no letter, no digit, no mark that can be seen, and not
/// the zero-width characters either.
pub proof fn law_white_space(c: char)
    ensures
        c == '\t' || c == '\n' || c == '\r' || c == ' ' ==> is_space(c),
        c as u32 == 0x0B || c as u32 == 0x0C || c as u32 == 0x85 || c as u32 == 0xA0 || c as u32 == 0x1680 ==> is_space(c),
        0x2000 <= c as u32 <= 0x200A ==> is_space(c),
        c as u32 == 0x2028 || c as u32 == 0x2029 || c as u32 == 0x202F || c as u32 == 0x205F || c as u32 == 0x3000 ==> is_space(c),
        c as u32 <= 8 || 0x0E <= c as u32 <= 0x1F || 0x21 <= c as u32 <= 0x84 || 0x86 <= c as u32 <= 0x9F ==> !is_space(c),
        0xA1 <= c as u32 <= 0x167F || 0x1681 <= c as u32 <= 0x1FFF || 0x200B <= c as u32 <= 0x2027 ==> !is_space(c),
        0x202A <= c as u32 <= 0x202E || 0x2030 <= c as u32 <= 0x205E || 0x2060 <= c as u32 <= 0x2FFF || c as u32 >= 0x3001 ==> !is_space(
            c,
        ),
{
}

/// Trimming takes white space off both ends and nothing else: what is left
/// stands in the text behind white space and in front of white space, and has
/// none at its own ends.
pub proof fn law_trimmed(s: Seq<char>)
    ensures
        ({
            let t = trimmed(s);
            let from = lead_space(s);
            &&& 0 <= from <= from + t.len() <= s.len()
            &&& t == s.subrange(from, from + t.len())
            &&& forall|i: int| 0 <= i < from || from + t.len() <= i < s.len() ==> is_space(#[trigger] s[i])
            &&& t.len() > 0 ==> !is_space(t[0]) && !is_space(t.last())
        }),
{
    let t = trimmed(s);
    let from = lead_space(s);
    let rest = trim_front(s);
    lead_space_bounds(s);
    trim_back_ends(rest);
    assert(t =~= s.subrange(from, from + t.len()));
    assert forall|i: int| 0 <= i < from || from + t.len() <= i < s.len() implies is_space(#[trigger] s[i]) by {
        if i >= from {
            assert(rest[i - from] == s[i]);
        }
    }
    if t.len() > 0 {
        assert(t[0] == s[from]);
    }
}

/// No word is empty, and none holds white space.
pub proof fn law_words_are_words(s: Seq<char>, k: int)
    requires
        0 <= k < words(s).len(),
    ensures
        words(s)[k].len() > 0,
        forall|i: int| 0 <= i < words(s)[k].len() ==> !is_space(#[trigger] words(s)[k][i]),
    decreases s.len(),
{
    let t = trim_front(s);
    lead_space_bounds(s);
    lead_word_bounds(t);
    if t.len() > 0 {
        assert(t[0] == s[lead_space(s)]);
        if k > 0 {
            law_words_are_words(t.skip(lead_word(t)), k - 1);
        } else {
            let w = words(s)[0];
            assert(w == t.take(lead_word(t)));
            assert forall|i: int| 0 <= i < w.len() implies !is_space(#[trigger] w[i]) by {
                assert(w[i] == t[i]);
            }
        }
    }
}

/// A line ends at a line feed, and a carriage return right before it belongs
/// to the end; what follows has its own lines, and text without a line feed is
/// one line as it is.
pub proof fn law_lines_end_at_line_feeds(line: Seq<char>, rest: Seq<char>)
    requires
        forall|i: int| 0 <= i < line.len() ==> line[i] != '\n',
    ensures
        lines(line.push('\n') + rest) == seq![
            if line.len() > 0 && line.last() == '\r' {
                line.drop_last()
            } else {
                line
            },
        ] + lines(rest),
        line.len() > 0 ==> lines(line) == seq![line],
        lines(Seq::empty()).len() == 0,
{
    let s = line.push('\n') + rest;
    assert forall|j: int| 0 <= j < line.len() implies s[j] != '\n' by {
        assert(s[j] == line[j]);
    }
    assert(s[line.len() as int] == '\n');
    find_char_unique(s, '\n', line.len() as int);
    assert(s.take(line.len() as int) =~= line);
    assert(s.skip(line.len() as int + 1) =~= rest);
    find_char_unique(line, '\n', line.len() as int);
}

/// The word behind a word is the one right behind its first occurrence; there
/// is none where that is the last word, or where it does not occur.
pub proof fn law_word_behind_the_first(ws: Seq<Seq<char>>, w: Seq<char>, k: int)
    requires
        0 <= k <= ws.len(),
        forall|j: int| 0 <= j < k ==> ws[j] != w,
        k < ws.len() ==> ws[k] == w,
    ensures
        k + 1 < ws.len() ==> word_after(ws, w) == Some(ws[k + 1]),
        k + 1 >= ws.len() ==> word_after(ws, w) is None,
{
    find_word_unique(ws, w, k);
}

} // verus!
