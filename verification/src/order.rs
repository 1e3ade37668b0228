//! Sorted lists: of ports, and of texts in character order.
use vstd::prelude::*;
use crate::number::{decimal, push_decimal};
use crate::text::{chars_of, strs, text_eq, texts};

verus! {

// ---- texts ------------------------------------------------------------------

/// Does `a` come before `b` in character order?
pub open spec fn text_lt(a: Seq<char>, b: Seq<char>) -> bool
    decreases a.len(),
{
    if b.len() == 0 {
        false
    } else if a.len() == 0 {
        true
    } else {
        a[0] < b[0] || (a[0] == b[0] && text_lt(a.skip(1), b.skip(1)))
    }
}

/// Of two texts exactly one comes first, unless they are the same.
pub proof fn text_lt_total(a: Seq<char>, b: Seq<char>)
    ensures
        text_lt(a, b) || text_lt(b, a) || a == b,
        !(text_lt(a, b) && text_lt(b, a)),
        !text_lt(a, a),
    decreases a.len(),
{
    if a.len() > 0 {
        text_lt_total(a.skip(1), a.skip(1));
    }
    if a.len() > 0 && b.len() > 0 {
        text_lt_total(a.skip(1), b.skip(1));
        if a[0] == b[0] && a.skip(1) == b.skip(1) {
            assert forall|i: int| 0 <= i < a.len() implies a[i] == b[i] by {
                if i > 0 {
                    assert(a[i] == a.skip(1)[i - 1]);
                    assert(b[i] == b.skip(1)[i - 1]);
                }
            }
            assert(a.len() == a.skip(1).len() + 1);
            assert(b.len() == b.skip(1).len() + 1);
            assert(a =~= b);
        }
    } else if a.len() == 0 && b.len() == 0 {
        assert(a =~= b);
    }
}

/// Character order is transitive.
pub proof fn text_lt_trans(a: Seq<char>, b: Seq<char>, c: Seq<char>)
    requires
        text_lt(a, b),
        text_lt(b, c),
    ensures
        text_lt(a, c),
    decreases a.len(),
{
    if a.len() > 0 && b.len() > 0 && c.len() > 0 && a[0] == b[0] && b[0] == c[0] {
        text_lt_trans(a.skip(1), b.skip(1), c.skip(1));
    }
}

/// Does `a` come before `b` in character order?
pub fn text_less(a: &str, b: &str) -> (r: bool)
    ensures
        r == text_lt(a@, b@),
{
    let x = chars_of(a);
    let y = chars_of(b);
    let mut i: usize = 0;
    assert(x@.skip(0) =~= x@);
    assert(y@.skip(0) =~= y@);
    while i < x.len() && i < y.len() && x[i] == y[i]
        invariant
            x@ == a@,
            y@ == b@,
            i <= x@.len(),
            i <= y@.len(),
            text_lt(a@, b@) == text_lt(x@.skip(i as int), y@.skip(i as int)),
        decreases x@.len() - i,
    {
        assert(x@.skip(i as int).skip(1) =~= x@.skip(i + 1));
        assert(y@.skip(i as int).skip(1) =~= y@.skip(i + 1));
        i += 1;
    }
    if i == y.len() {
        false
    } else if i == x.len() {
        true
    } else {
        assert(x@.skip(i as int)[0] == x@[i as int]);
        assert(y@.skip(i as int)[0] == y@[i as int]);
        x[i] < y[i]
    }
}

/// Is the list in character order? Equal texts may stand side by side.
pub open spec fn text_sorted(s: Seq<Seq<char>>) -> bool {
    forall|i: int, j: int| 0 <= i < j < s.len() ==> !text_lt(#[trigger] s[j], #[trigger] s[i])
}

/// Is the list in character order without repetition?
pub open spec fn text_increasing(s: Seq<Seq<char>>) -> bool {
    forall|i: int, j: int| 0 <= i < j < s.len() ==> text_lt(#[trigger] s[i], #[trigger] s[j])
}

/// Inserting a string into a list inserts its text.
proof fn texts_insert(v: Seq<String>, i: int, s: String)
    requires
        0 <= i <= v.len(),
    ensures
        texts(v.insert(i, s)) == texts(v).insert(i, s@),
{
    assert(texts(v.insert(i, s)) =~= texts(v).insert(i, s@));
}

/// Inserting between the texts that do not come after it and those that do
/// keeps a list in order.
proof fn insert_keeps_sorted(s: Seq<Seq<char>>, at: int, x: Seq<char>)
    requires
        text_sorted(s),
        0 <= at <= s.len(),
        forall|j: int| 0 <= j < at ==> !text_lt(x, #[trigger] s[j]),
        at < s.len() ==> text_lt(x, s[at]),
    ensures
        text_sorted(s.insert(at, x)),
{
    let t = s.insert(at, x);
    assert forall|i: int, j: int| 0 <= i < j < t.len() implies !text_lt(#[trigger] t[j], #[trigger] t[i]) by {
        if i < at && j == at {
            assert(t[i] == s[i]);
        } else if i == at {
            assert(t[j] == s[j - 1]);
            text_lt_total(x, s[at]);
            if text_lt(s[j - 1], x) {
                text_lt_trans(s[j - 1], x, s[at]);
                if j - 1 > at {
                    assert(!text_lt(s[j - 1], s[at]));
                } else {
                    text_lt_total(s[at], s[at]);
                }
            }
        } else if j < at {
            assert(t[i] == s[i] && t[j] == s[j]);
        } else if i < at {
            assert(t[i] == s[i] && t[j] == s[j - 1]);
        } else {
            assert(t[i] == s[i - 1] && t[j] == s[j - 1]);
        }
    }
}

/// The strings of a list in character order.
pub fn sort_texts(v: &Vec<String>) -> (r: Vec<String>)
    ensures
        text_sorted(texts(r@)),
        texts(r@).to_multiset() == texts(v@).to_multiset(),
{
    let mut out: Vec<String> = Vec::new();
    let mut i: usize = 0;
    let ghost all = texts(v@);
    assert(all.take(0) =~= texts(out@));
    while i < v.len()
        invariant
            i <= v@.len(),
            all == texts(v@),
            text_sorted(texts(out@)),
            texts(out@).to_multiset() == all.take(i as int).to_multiset(),
        decreases v@.len() - i,
    {
        let item = v[i].clone();
        let mut at: usize = 0;
        while at < out.len() && !text_less(&item, &out[at])
            invariant
                at <= out@.len(),
                forall|j: int| 0 <= j < at ==> !text_lt(item@, #[trigger] texts(out@)[j]),
            decreases out@.len() - at,
        {
            at += 1;
        }
        proof {
            let s = texts(out@);
            if at < out@.len() {
                assert(s[at as int] == out@[at as int]@);
            }
            insert_keeps_sorted(s, at as int, item@);
            texts_insert(out@, at as int, item);
            let t = all.take(i + 1);
            assert(t =~= all.take(i as int).push(item@));
            broadcast use vstd::seq_lib::group_to_multiset_ensures;
            assert(s.insert(at as int, item@).to_multiset() == s.to_multiset().insert(item@));
            assert(t.to_multiset() == all.take(i as int).to_multiset().insert(item@));
        }
        out.insert(at, item);
        i += 1;
    }
    assert(all.take(i as int) =~= all);
    out
}

/// Inserting a string slice into a list inserts its text.
proof fn strs_insert(v: Seq<&str>, i: int, s: &str)
    requires
        0 <= i <= v.len(),
    ensures
        strs(v.insert(i, s)) == strs(v).insert(i, s@),
{
    assert(strs(v.insert(i, s)) =~= strs(v).insert(i, s@));
}

/// The string slices of a list in character order.
pub fn sort_strs<'a>(v: &Vec<&'a str>) -> (r: Vec<&'a str>)
    ensures
        text_sorted(strs(r@)),
        strs(r@).to_multiset() == strs(v@).to_multiset(),
{
    let mut out: Vec<&'a str> = Vec::new();
    let mut i: usize = 0;
    let ghost all = strs(v@);
    assert(all.take(0) =~= strs(out@));
    while i < v.len()
        invariant
            i <= v@.len(),
            all == strs(v@),
            text_sorted(strs(out@)),
            strs(out@).to_multiset() == all.take(i as int).to_multiset(),
        decreases v@.len() - i,
    {
        let item = v[i];
        let mut at: usize = 0;
        while at < out.len() && !text_less(item, out[at])
            invariant
                at <= out@.len(),
                forall|j: int| 0 <= j < at ==> !text_lt(item@, #[trigger] strs(out@)[j]),
            decreases out@.len() - at,
        {
            at += 1;
        }
        proof {
            let s = strs(out@);
            if at < out@.len() {
                assert(s[at as int] == out@[at as int]@);
            }
            insert_keeps_sorted(s, at as int, item@);
            strs_insert(out@, at as int, item);
            let t = all.take(i + 1);
            assert(t =~= all.take(i as int).push(item@));
            broadcast use vstd::seq_lib::group_to_multiset_ensures;
            assert(s.insert(at as int, item@).to_multiset() == s.to_multiset().insert(item@));
            assert(t.to_multiset() == all.take(i as int).to_multiset().insert(item@));
        }
        out.insert(at, item);
        i += 1;
    }
    assert(all.take(i as int) =~= all);
    out
}

/// The strings of a list in character order, each once.
pub fn sort_dedup_texts(v: &Vec<String>) -> (r: Vec<String>)
    ensures
        text_increasing(texts(r@)),
        forall|t: Seq<char>| #[trigger] texts(r@).contains(t) <==> texts(v@).contains(t),
{
    let sorted = sort_texts(v);
    let ghost s = texts(sorted@);
    let mut out: Vec<String> = Vec::new();
    let mut i: usize = 0;
    while i < sorted.len()
        invariant
            i <= sorted@.len(),
            s == texts(sorted@),
            text_sorted(s),
            text_increasing(texts(out@)),
            forall|t: Seq<char>| #[trigger] texts(out@).contains(t) <==> s.take(i as int).contains(t),
            i == 0 ==> out@.len() == 0,
            i > 0 ==> out@.len() > 0 && texts(out@).last() == s[i - 1],
        decreases sorted@.len() - i,
    {
        let ghost before = texts(out@);
        let same = out.len() > 0 && text_eq(&out[out.len() - 1], &sorted[i]);
        proof {
            assert(s[i as int] == sorted@[i as int]@);
            assert(s.take(i + 1) =~= s.take(i as int).push(s[i as int]));
            if out@.len() > 0 {
                assert(texts(out@).last() == out@[out@.len() - 1]@);
            }
        }
        if !same {
            let item = sorted[i].clone();
            proof {
                crate::text::texts_push(out@, item);
                let t = before.push(item@);
                assert forall|a: int, b: int| 0 <= a < b < t.len() implies text_lt(#[trigger] t[a], #[trigger] t[b]) by {
                    if b < before.len() {
                        assert(t[a] == before[a] && t[b] == before[b]);
                    } else {
                        let last = before.last();
                        assert(last == s[i - 1]);
                        assert(!text_lt(s[i as int], s[i - 1]));
                        text_lt_total(last, item@);
                        assert(text_lt(last, item@));
                        assert(t[a] == before[a]);
                        if a < before.len() - 1 {
                            assert(text_lt(before[a], before[before.len() - 1]));
                            text_lt_trans(before[a], last, item@);
                        }
                    }
                }
            }
            out.push(item);
            proof {
                contains_push(before, item@);
                contains_push(s.take(i as int), item@);
            }
        } else {
            proof {
                assert(before.contains(s[i as int])) by {
                    assert(before[before.len() - 1] == s[i as int]);
                }
                contains_push(s.take(i as int), s[i as int]);
            }
        }
        i += 1;
    }
    proof {
        assert(s.take(i as int) =~= s);
        assert forall|t: Seq<char>| #[trigger] texts(out@).contains(t) <==> texts(v@).contains(t) by {
            broadcast use vstd::seq_lib::group_to_multiset_ensures;
            assert(s.contains(t) <==> s.to_multiset().count(t) > 0);
            assert(texts(v@).contains(t) <==> texts(v@).to_multiset().count(t) > 0);
        }
    }
    out
}

/// A longer list has what it had and the added text.
proof fn contains_push(s: Seq<Seq<char>>, x: Seq<char>)
    ensures
        forall|t: Seq<char>| #[trigger] s.push(x).contains(t) <==> s.contains(t) || t == x,
{
    assert forall|t: Seq<char>| #[trigger] s.push(x).contains(t) <==> s.contains(t) || t == x by {
        if s.contains(t) {
            let i = choose|i: int| 0 <= i < s.len() && s[i] == t;
            assert(s.push(x)[i] == t);
        }
        if t == x {
            assert(s.push(x)[s.len() as int] == t);
        }
    }
}

/// A list in character order without repetition is determined by its texts.
pub proof fn law_increasing_unique(a: Seq<Seq<char>>, b: Seq<Seq<char>>)
    requires
        text_increasing(a),
        text_increasing(b),
        forall|t: Seq<char>| #[trigger] a.contains(t) <==> b.contains(t),
    ensures
        a == b,
    decreases a.len(),
{
    if a.len() == 0 {
        if b.len() > 0 {
            assert(b.contains(b[0]));
            assert(a.contains(b[0]));
        }
        assert(a =~= b);
    } else {
        assert(a.contains(a[0]));
        assert(b.len() > 0);
        assert(b.contains(b[0]));
        assert(a.contains(b[0]));
        let i = choose|i: int| 0 <= i < b.len() && b[i] == a[0];
        let j = choose|j: int| 0 <= j < a.len() && a[j] == b[0];
        if i > 0 && j > 0 {
            assert(text_lt(b[0], b[i]));
            assert(text_lt(a[0], a[j]));
            text_lt_total(a[0], b[0]);
        }
        if i > 0 && j == 0 {
            assert(text_lt(b[0], b[i]));
            text_lt_total(a[0], a[0]);
        }
        assert(a[0] == b[0]);
        let ta = a.skip(1);
        let tb = b.skip(1);
        assert forall|t: Seq<char>| #[trigger] ta.contains(t) <==> tb.contains(t) by {
            if ta.contains(t) {
                let k = choose|k: int| 0 <= k < ta.len() && ta[k] == t;
                assert(a[k + 1] == t);
                assert(a.contains(t));
                assert(text_lt(a[0], a[k + 1]));
                text_lt_total(a[0], a[0]);
                let m = choose|m: int| 0 <= m < b.len() && b[m] == t;
                assert(b[m] == t && m != 0);
                assert(tb[m - 1] == t);
            }
            if tb.contains(t) {
                let k = choose|k: int| 0 <= k < tb.len() && tb[k] == t;
                assert(b[k + 1] == t);
                assert(b.contains(t));
                assert(a.contains(t));
                assert(text_lt(b[0], b[k + 1]));
                text_lt_total(b[0], b[0]);
                let m = choose|m: int| 0 <= m < a.len() && a[m] == t;
                assert(a[m] == t && m != 0);
                assert(ta[m - 1] == t);
            }
        }
        assert forall|x: int, y: int| 0 <= x < y < ta.len() implies text_lt(#[trigger] ta[x], #[trigger] ta[y]) by {
            assert(text_lt(a[x + 1], a[y + 1]));
        }
        assert forall|x: int, y: int| 0 <= x < y < tb.len() implies text_lt(#[trigger] tb[x], #[trigger] tb[y]) by {
            assert(text_lt(b[x + 1], b[y + 1]));
        }
        law_increasing_unique(ta, tb);
        assert(a =~= seq![a[0]] + ta);
        assert(b =~= seq![b[0]] + tb);
    }
}

// ---- ports ------------------------------------------------------------------

/// Is the list of ports in order?
pub open spec fn ports_sorted(s: Seq<u16>) -> bool {
    forall|i: int, j: int| 0 <= i < j < s.len() ==> #[trigger] s[i] <= #[trigger] s[j]
}

/// The ports of a list in order.
pub fn sort_ports(v: &Vec<u16>) -> (r: Vec<u16>)
    ensures
        ports_sorted(r@),
        r@.to_multiset() == v@.to_multiset(),
{
    let mut out: Vec<u16> = Vec::new();
    let mut i: usize = 0;
    assert(v@.take(0) =~= out@);
    while i < v.len()
        invariant
            i <= v@.len(),
            ports_sorted(out@),
            out@.to_multiset() == v@.take(i as int).to_multiset(),
        decreases v@.len() - i,
    {
        let item: u16 = v[i];
        let mut at: usize = 0;
        while at < out.len() && out[at] <= item
            invariant
                at <= out@.len(),
                forall|j: int| 0 <= j < at ==> #[trigger] out@[j] <= item,
            decreases out@.len() - at,
        {
            at += 1;
        }
        proof {
            let s = out@;
            let t = s.insert(at as int, item);
            assert forall|a: int, b: int| 0 <= a < b < t.len() implies #[trigger] t[a] <= #[trigger] t[b] by {
                if a < at && b == at {
                } else if a == at {
                    assert(s[at as int] > item);
                    if b - 1 > at {
                        assert(s[at as int] <= s[b - 1]);
                    }
                } else if b < at {
                    assert(s[a] <= s[b]);
                } else if a < at {
                    assert(s[a] <= s[b - 1]);
                } else {
                    assert(s[a - 1] <= s[b - 1]);
                }
            }
            broadcast use vstd::seq_lib::group_to_multiset_ensures;
            assert(v@.take(i + 1) =~= v@.take(i as int).push(item));
            assert(t.to_multiset() == s.to_multiset().insert(item));
        }
        out.insert(at, item);
        i += 1;
    }
    assert(v@.take(i as int) =~= v@);
    out
}

/// A list of ports written out: in square brackets, parted by commas.
pub open spec fn ports_inner(s: Seq<u16>) -> Seq<char>
    decreases s.len(),
{
    if s.len() == 0 {
        Seq::empty()
    } else if s.len() == 1 {
        decimal(s[0] as nat)
    } else {
        ports_inner(s.drop_last()) + ", "@ + decimal(s.last() as nat)
    }
}

/// A list of ports written out: in square brackets, parted by commas.
pub open spec fn ports_text(s: Seq<u16>) -> Seq<char> {
    "["@ + ports_inner(s) + "]"@
}

/// Appends a list of ports, written out.
pub fn push_ports(out: &mut String, v: &Vec<u16>)
    ensures
        final(out)@ == old(out)@ + ports_text(v@),
{
    let mut inner = String::new();
    let mut i: usize = 0;
    assert(v@.take(0) =~= Seq::empty());
    while i < v.len()
        invariant
            i <= v@.len(),
            inner@ == ports_inner(v@.take(i as int)),
        decreases v@.len() - i,
    {
        let ghost t = v@.take(i + 1);
        proof {
            assert(t.drop_last() =~= v@.take(i as int));
            assert(t.last() == v@[i as int]);
            assert(t[0] == v@[0]);
        }
        if i > 0 {
            inner.append(", ");
        }
        push_decimal(&mut inner, v[i] as u64);
        proof {
            if i == 0 {
                assert(Seq::<char>::empty() + decimal(v@[0] as nat) =~= decimal(v@[0] as nat));
            }
        }
        i += 1;
    }
    assert(v@.take(i as int) =~= v@);
    out.append("[");
    out.append(&inner);
    out.append("]");
    assert(out@ =~= old(out)@ + ports_text(v@));
}

/// The first character in which two texts differ decides which comes first;
/// where one is the beginning of the other, the shorter does.
pub proof fn law_first_difference_decides(a: Seq<char>, b: Seq<char>, k: int)
    requires
        0 <= k <= a.len(),
        k <= b.len(),
        forall|i: int| 0 <= i < k ==> a[i] == b[i],
    ensures
        k < a.len() && k < b.len() && a[k] < b[k] ==> text_lt(a, b) && !text_lt(b, a),
        k == a.len() && k < b.len() ==> text_lt(a, b) && !text_lt(b, a),
        k == a.len() && k == b.len() ==> !text_lt(a, b),
    decreases k,
{
    if k > 0 {
        assert(a[0] == b[0]);
        let x = a.skip(1);
        let y = b.skip(1);
        assert forall|i: int| 0 <= i < k - 1 implies x[i] == y[i] by {
            assert(x[i] == a[i + 1] && y[i] == b[i + 1]);
        }
        if k < a.len() {
            assert(x[k - 1] == a[k]);
        }
        if k < b.len() {
            assert(y[k - 1] == b[k]);
        }
        law_first_difference_decides(x, y, k - 1);
    }
}

/// In a list in order nothing stands in front of something smaller, and in one
/// without repetition nothing stands twice.
pub proof fn law_in_order(texts: Seq<Seq<char>>, ports: Seq<u16>, i: int, j: int)
    requires
        0 <= i < j,
    ensures
        j < texts.len() && text_sorted(texts) ==> !text_lt(texts[j], texts[i]),
        j < texts.len() && text_increasing(texts) ==> text_lt(texts[i], texts[j]) && texts[i] != texts[j],
        j < ports.len() && ports_sorted(ports) ==> ports[i] <= ports[j],
{
    if j < texts.len() && text_increasing(texts) {
        law_first_difference_decides(texts[i], texts[i], texts[i].len() as int);
    }
}

} // verus!
