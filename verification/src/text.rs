//! Text over its characters: the small vocabulary that the other modules
//! state their contracts in, and the executable side of each word of it.
use vstd::prelude::*;

verus! {

/// `String::push` appends one character at the end.
pub assume_specification[ String::push ](s: &mut String, c: char)
    ensures
        final(s)@ == old(s)@.push(c),
;

// ---- lists of texts -------------------------------------------------------

/// The texts of a list of strings.
pub open spec fn texts(v: Seq<String>) -> Seq<Seq<char>> {
    Seq::new(v.len(), |i: int| v[i]@)
}

/// The texts of a list of string slices.
pub open spec fn strs(v: Seq<&str>) -> Seq<Seq<char>> {
    Seq::new(v.len(), |i: int| v[i]@)
}

/// The text inside an optional string.
pub open spec fn opt_text(o: Option<String>) -> Option<Seq<char>> {
    match o {
        Some(s) => Some(s@),
        None => None,
    }
}

/// The text inside an optional string slice.
pub open spec fn opt_str(o: Option<&str>) -> Option<Seq<char>> {
    match o {
        Some(s) => Some(s@),
        None => None,
    }
}

/// Adding a string to a list adds its text to the list's texts.
pub broadcast proof fn texts_push(v: Seq<String>, s: String)
    ensures
        #[trigger] texts(v.push(s)) == texts(v).push(s@),
{
    assert(texts(v.push(s)) =~= texts(v).push(s@));
}

/// An owned copy of a list of string slices.
pub fn svec(parts: &[&str]) -> (r: Vec<String>)
    ensures
        texts(r@) == strs(parts@),
{
    let mut out: Vec<String> = Vec::new();
    let mut i: usize = 0;
    while i < parts.len()
        invariant
            i <= parts@.len(),
            texts(out@) == strs(parts@).take(i as int),
        decreases parts@.len() - i,
    {
        let part = parts[i].to_owned();
        proof {
            texts_push(out@, part);
        }
        out.push(part);
        assert(strs(parts@).take(i as int).push(part@) =~= strs(parts@).take(i + 1));
        i += 1;
    }
    assert(strs(parts@).take(i as int) =~= strs(parts@));
    out
}

/// An owned copy of an optional string slice.
pub fn opt_owned(o: Option<&str>) -> (r: Option<String>)
    ensures
        opt_text(r) == opt_str(o),
{
    match o {
        Some(s) => Some(s.to_owned()),
        None => None,
    }
}

/// Are the two texts the same?
pub fn text_eq(a: &str, b: &str) -> (r: bool)
    ensures
        r == (a@ == b@),
{
    a.to_owned() == b.to_owned()
}

/// The text `a` followed by the text `b`.
pub fn concat2(a: &str, b: &str) -> (r: String)
    ensures
        r@ == a@ + b@,
{
    let mut s = a.to_owned();
    s.append(b);
    s
}

/// The text `a` followed by `b` and then `c`.
pub fn concat3(a: &str, b: &str, c: &str) -> (r: String)
    ensures
        r@ == a@ + b@ + c@,
{
    let mut s = a.to_owned();
    s.append(b);
    s.append(c);
    s
}

/// The characters of a text.
pub fn chars_of(s: &str) -> (v: Vec<char>)
    ensures
        v@ == s@,
{
    let mut v: Vec<char> = Vec::new();
    for c in it: s.chars()
        invariant
            it.seq() == s@,
            v@ == s@.take(it.index() as int),
    {
        v.push(c);
        assert(v@ =~= s@.take(it.index() as int + 1));
    }
    assert(s@.take(s@.len() as int) =~= s@);
    v
}

/// The characters `from..to` of `v`, as a string.
pub fn text_range(v: &Vec<char>, from: usize, to: usize) -> (r: String)
    requires
        from <= to <= v@.len(),
    ensures
        r@ == v@.subrange(from as int, to as int),
{
    let mut s = String::new();
    let mut i: usize = from;
    while i < to
        invariant
            from <= i <= to <= v@.len(),
            s@ == v@.subrange(from as int, i as int),
        decreases to - i,
    {
        s.push(v[i]);
        assert(s@ =~= v@.subrange(from as int, i + 1));
        i += 1;
    }
    s
}

/// The number of characters of a text.
pub fn text_len(s: &str) -> (n: usize)
    ensures
        n == s@.len(),
{
    s.unicode_len()
}

// ---- searching ------------------------------------------------------------

/// The place of the first `c` in `s`, or the length of `s` where there is none.
pub open spec fn find_char(s: Seq<char>, c: char) -> int
    decreases s.len(),
{
    if s.len() == 0 || s[0] == c {
        0
    } else {
        1 + find_char(s.skip(1), c)
    }
}

/// The first `c` of `s` stands at `find_char(s, c)`: nothing before it is `c`.
pub proof fn find_char_first(s: Seq<char>, c: char)
    ensures
        0 <= find_char(s, c) <= s.len(),
        find_char(s, c) < s.len() ==> s[find_char(s, c)] == c,
        forall|j: int| 0 <= j < find_char(s, c) ==> s[j] != c,
    decreases s.len(),
{
    if s.len() > 0 && s[0] != c {
        find_char_first(s.skip(1), c);
        assert forall|j: int| 0 <= j < find_char(s, c) implies s[j] != c by {
            if j > 0 {
                assert(s.skip(1)[j - 1] == s[j]);
            }
        }
    }
}

/// A place that holds `c`, with no `c` before it, is `find_char(s, c)`.
pub proof fn find_char_unique(s: Seq<char>, c: char, i: int)
    requires
        0 <= i <= s.len(),
        i < s.len() ==> s[i] == c,
        forall|j: int| 0 <= j < i ==> s[j] != c,
    ensures
        find_char(s, c) == i,
{
    find_char_first(s, c);
}

/// Where the first `c` of `v` at or after `from` stands, or the length of `v`.
pub fn index_of_char(v: &Vec<char>, from: usize, c: char) -> (r: usize)
    requires
        from <= v@.len(),
    ensures
        r == from + find_char(v@.skip(from as int), c),
        from <= r <= v@.len(),
{
    let mut i: usize = from;
    while i < v.len() && v[i] != c
        invariant
            from <= i <= v@.len(),
            forall|j: int| from <= j < i ==> v@[j] != c,
        decreases v@.len() - i,
    {
        i += 1;
    }
    proof {
        let t = v@.skip(from as int);
        assert forall|j: int| 0 <= j < i - from implies t[j] != c by {
            assert(t[j] == v@[from + j]);
        }
        find_char_unique(t, c, i - from);
    }
    i
}

/// Does the character `c` occur in `s`?
pub open spec fn has_char(s: Seq<char>, c: char) -> bool {
    find_char(s, c) < s.len()
}

/// `s` parted at its first `c`, if it has one.
pub open spec fn parted(s: Seq<char>, c: char) -> Option<(Seq<char>, Seq<char>)> {
    let i = find_char(s, c);
    if i < s.len() {
        Some((s.take(i), s.skip(i + 1)))
    } else {
        None
    }
}

/// `s` up to its first `c`, or all of it.
pub open spec fn up_to_char(s: Seq<char>, c: char) -> Seq<char> {
    s.take(find_char(s, c))
}

/// The two texts of an optional pair.
pub open spec fn opt_pair(o: Option<(String, String)>) -> Option<(Seq<char>, Seq<char>)> {
    match o {
        Some(p) => Some((p.0@, p.1@)),
        None => None,
    }
}

/// A text in front of the first `c` is what comes before it.
pub proof fn parted_after(head: Seq<char>, c: char, tail: Seq<char>)
    requires
        forall|j: int| 0 <= j < head.len() ==> head[j] != c,
    ensures
        parted(head.push(c) + tail, c) == Some((head, tail)),
        find_char(head.push(c) + tail, c) == head.len(),
        up_to_char(head.push(c) + tail, c) == head,
{
    let s = head.push(c) + tail;
    assert forall|j: int| 0 <= j < head.len() implies s[j] != c by {
        assert(s[j] == head[j]);
    }
    assert(s[head.len() as int] == c);
    find_char_unique(s, c, head.len() as int);
    assert(s.take(head.len() as int) =~= head);
    assert(s.skip(head.len() as int + 1) =~= tail);
}

/// The parts of a parted text, put together, are the text, and the first has no `c`.
pub proof fn parted_rejoins(s: Seq<char>, c: char)
    ensures
        match parted(s, c) {
            Some((head, tail)) => s == head.push(c) + tail && !has_char(head, c),
            None => !has_char(s, c),
        },
        !has_char(up_to_char(s, c), c),
{
    find_char_first(s, c);
    let i = find_char(s, c);
    let head = s.take(i);
    find_char_first(head, c);
    if i < s.len() {
        assert(s =~= head.push(c) + s.skip(i + 1));
    }
    if find_char(head, c) < head.len() {
        assert(head[find_char(head, c)] == s[find_char(head, c)]);
    }
}

/// Parts `s` at its first `c`.
pub fn split_once(s: &str, c: char) -> (r: Option<(String, String)>)
    ensures
        opt_pair(r) == parted(s@, c),
{
    let v = chars_of(s);
    assert(v@.skip(0) =~= v@);
    let i: usize = index_of_char(&v, 0, c);
    if i < v.len() {
        let head = text_range(&v, 0, i);
        let tail = text_range(&v, i + 1, v.len());
        assert(head@ =~= s@.take(i as int));
        assert(tail@ =~= s@.skip(i + 1));
        Some((head, tail))
    } else {
        None
    }
}

/// `s` up to its first `c`, or all of it.
pub fn before_char(s: &str, c: char) -> (r: String)
    ensures
        r@ == up_to_char(s@, c),
{
    let v = chars_of(s);
    assert(v@.skip(0) =~= v@);
    let i: usize = index_of_char(&v, 0, c);
    let head = text_range(&v, 0, i);
    assert(head@ =~= s@.take(i as int));
    head
}

/// Does the character `c` occur in `s`?
pub fn contains_char(s: &str, c: char) -> (r: bool)
    ensures
        r == has_char(s@, c),
{
    let v = chars_of(s);
    assert(v@.skip(0) =~= v@);
    let i: usize = index_of_char(&v, 0, c);
    i < v.len()
}

/// Does `sub` occur in `s`?
pub open spec fn has_text(s: Seq<char>, sub: Seq<char>) -> bool {
    exists|i: int| #[trigger] occurs_at(s, sub, i)
}

/// Does `sub` occur in `s` at place `i`?
pub open spec fn occurs_at(s: Seq<char>, sub: Seq<char>, i: int) -> bool {
    0 <= i && i + sub.len() <= s.len() && s.subrange(i, i + sub.len()) == sub
}

/// Does `sub` stand in `v` at place `at`?
fn matches_at(v: &Vec<char>, sub: &Vec<char>, at: usize) -> (r: bool)
    ensures
        r == occurs_at(v@, sub@, at as int),
{
    if at > v.len() || v.len() - at < sub.len() {
        return false;
    }
    let mut k: usize = 0;
    while k < sub.len()
        invariant
            k <= sub@.len(),
            at + sub@.len() <= v.len(),
            forall|j: int| 0 <= j < k ==> v@[at + j] == sub@[j],
        decreases sub@.len() - k,
    {
        if v[at + k] != sub[k] {
            assert(v@.subrange(at as int, at + sub@.len())[k as int] != sub@[k as int]);
            return false;
        }
        k += 1;
    }
    assert(v@.subrange(at as int, at + sub@.len()) =~= sub@);
    true
}

/// Does `sub` occur in `s`?
pub fn contains_text(s: &str, sub: &str) -> (r: bool)
    ensures
        r == has_text(s@, sub@),
{
    let v = chars_of(s);
    let w = chars_of(sub);
    let mut i: usize = 0;
    while i < v.len()
        invariant
            v@ == s@,
            w@ == sub@,
            i <= v@.len(),
            forall|j: int| 0 <= j < i ==> !occurs_at(v@, w@, j),
        decreases v@.len() - i,
    {
        if matches_at(&v, &w, i) {
            return true;
        }
        i += 1;
    }
    let last = matches_at(&v, &w, i);
    last
}

/// Does `s` begin with `prefix`?
pub open spec fn begins_with(s: Seq<char>, prefix: Seq<char>) -> bool {
    prefix.len() <= s.len() && s.take(prefix.len() as int) == prefix
}

/// Does `s` end with `suffix`?
pub open spec fn ends_in(s: Seq<char>, suffix: Seq<char>) -> bool {
    suffix.len() <= s.len() && s.skip(s.len() - suffix.len()) == suffix
}

/// Does `s` begin with `prefix`?
pub fn starts_with_text(s: &str, prefix: &str) -> (r: bool)
    ensures
        r == begins_with(s@, prefix@),
{
    let v = chars_of(s);
    let w = chars_of(prefix);
    proof {
        if w@.len() <= v@.len() {
            assert(v@.subrange(0, w@.len() as int) =~= v@.take(w@.len() as int));
        }
    }
    matches_at(&v, &w, 0)
}

/// Does `s` end with `suffix`?
pub fn ends_with_text(s: &str, suffix: &str) -> (r: bool)
    ensures
        r == ends_in(s@, suffix@),
{
    let v = chars_of(s);
    let w = chars_of(suffix);
    if v.len() < w.len() {
        return false;
    }
    let at: usize = v.len() - w.len();
    assert(v@.subrange(at as int, at + w@.len()) =~= v@.skip(at as int));
    matches_at(&v, &w, at)
}

// ---- trimming one character -------------------------------------------------

/// `s` without the characters `c` at its end.
pub open spec fn without_end(s: Seq<char>, c: char) -> Seq<char>
    decreases s.len(),
{
    if s.len() > 0 && s.last() == c {
        without_end(s.drop_last(), c)
    } else {
        s
    }
}

/// `s` without the characters `c` at its end.
pub fn trim_end_char(s: &str, c: char) -> (r: String)
    ensures
        r@ == without_end(s@, c),
{
    let v = chars_of(s);
    let mut end: usize = v.len();
    assert(v@.take(end as int) =~= v@);
    while end > 0 && v[end - 1] == c
        invariant
            end <= v@.len(),
            without_end(v@.take(end as int), c) == without_end(s@, c),
        decreases end,
    {
        let ghost cur = v@.take(end as int);
        assert(cur.last() == v@[end - 1]);
        assert(cur.drop_last() =~= v@.take(end - 1));
        end -= 1;
    }
    proof {
        let cur = v@.take(end as int);
        if end > 0 {
            assert(cur.last() == v@[end - 1]);
        }
        assert(cur =~= v@.subrange(0, end as int));
    }
    text_range(&v, 0, end)
}

/// Taking a character off the end leaves none of it there, takes nothing
/// else, and changes nothing the second time.
pub proof fn law_without_end(s: Seq<char>, c: char)
    ensures
        without_end(s, c).len() <= s.len(),
        without_end(s, c) == s.take(without_end(s, c).len() as int),
        without_end(s, c).len() > 0 ==> without_end(s, c).last() != c,
        without_end(without_end(s, c), c) == without_end(s, c),
        forall|i: int| without_end(s, c).len() <= i < s.len() ==> s[i] == c,
    decreases s.len(),
{
    if s.len() > 0 && s.last() == c {
        let front = s.drop_last();
        law_without_end(front, c);
        let n = without_end(s, c).len() as int;
        assert(front.take(n) =~= s.take(n));
        assert forall|i: int| n <= i < s.len() implies s[i] == c by {
            if i < front.len() {
                assert(front[i] == s[i]);
            }
        }
    } else {
        assert(s.take(s.len() as int) =~= s);
    }
}

/// Texts one after the other, with `sep` between any two.
pub open spec fn joined_with(parts: Seq<Seq<char>>, sep: Seq<char>) -> Seq<char>
    decreases parts.len(),
{
    if parts.len() == 0 {
        Seq::empty()
    } else if parts.len() == 1 {
        parts[0]
    } else {
        joined_with(parts.drop_last(), sep) + sep + parts.last()
    }
}

/// Texts one after the other, with `sep` between any two.
pub fn join_texts(parts: &Vec<String>, sep: &str) -> (r: String)
    ensures
        r@ == joined_with(texts(parts@), sep@),
{
    let mut out: String = "".to_owned();
    proof {
        reveal_strlit("");
        assert(out@ =~= Seq::empty());
    }
    let ghost all = texts(parts@);
    assert(all.take(0) =~= Seq::empty());
    let mut i: usize = 0;
    while i < parts.len()
        invariant
            i <= parts@.len(),
            all == texts(parts@),
            out@ == joined_with(all.take(i as int), sep@),
        decreases parts@.len() - i,
    {
        if i > 0 {
            out.append(sep);
        }
        out.append(&parts[i]);
        proof {
            assert(all.take(i + 1).drop_last() =~= all.take(i as int));
            assert(all.take(i + 1).last() == parts@[i as int]@);
            if i == 0 {
                assert(all.take(0) =~= Seq::empty());
                assert(out@ =~= parts@[0]@);
            }
        }
        i += 1;
    }
    assert(all.take(i as int) =~= all);
    out
}

} // verus!
