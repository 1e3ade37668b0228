//! Copying HTTP headers across the proxy.
use vstd::prelude::*;
use crate::firecracker::protocol::{hop_by_hop, is_hop_by_hop, law_end_to_end_names, law_hop_by_hop_names};
use crate::sanitize::lower_text;
use crate::text::texts;

verus! {

/// `http::HeaderValue`, the value of one header.
#[verifier::external_type_specification]
#[verifier::external_body]
pub struct ExHeaderValue(http::HeaderValue);

/// `http::HeaderMap`, headers by name, each name with one or more values.
#[verifier::external_type_specification]
#[verifier::external_body]
#[verifier::reject_recursive_types(T)]
pub struct ExHeaderMap<T>(http::HeaderMap<T>);

/// The entries of a header map in the order in which they are walked: the
/// name, the bytes of the value, and whether it is marked sensitive. The
/// values of one name stand side by side.
pub uninterp spec fn entries_of(m: http::HeaderMap<http::HeaderValue>) -> Seq<(Seq<char>, Seq<u8>, bool)>;

/// The names among some entries.
pub open spec fn name_set(s: Seq<(Seq<char>, Seq<u8>, bool)>) -> Set<Seq<char>> {
    s.map_values(|e: (Seq<char>, Seq<u8>, bool)| e.0).to_set()
}

/// Is there an entry of that name?
pub open spec fn has_name(s: Seq<(Seq<char>, Seq<u8>, bool)>, name: Seq<char>) -> bool {
    exists|i: int| 0 <= i < s.len() && (#[trigger] s[i]).0 == name
}

/// The entries after one more: behind the last of its name, or at the end.
pub open spec fn appended(s: Seq<(Seq<char>, Seq<u8>, bool)>, e: (Seq<char>, Seq<u8>, bool)) -> Seq<(Seq<char>, Seq<u8>, bool)>
    decreases s.len(),
{
    if !has_name(s, e.0) || s.len() == 0 || s.last().0 == e.0 {
        s.push(e)
    } else {
        appended(s.drop_last(), e).push(s.last())
    }
}

/// The number of names up to which a header map can always take another entry.
/// From there on it may have reached its largest size.
pub const SAFE_NAMES: usize = 6553;

/// `HeaderMap::iter` and `HeaderName::as_str` give the names of the entries,
/// one for each value.
#[verifier::external_body]
fn entry_names(m: &http::HeaderMap<http::HeaderValue>) -> (r: Vec<String>)
    ensures
        texts(r@) == entries_of(*m).map_values(|e: (Seq<char>, Seq<u8>, bool)| e.0),
{
    m.iter().map(|(name, _)| name.as_str().to_owned()).collect()
}

/// `HeaderMap::append` adds an entry, here a clone of entry `i` of another
/// map: a name that is there gets one more value behind those it has, a new
/// name comes last. It panics where the map would outgrow its largest size,
/// which it does not with so few names.
#[verifier::external_body]
fn append_entry(dst: &mut http::HeaderMap<http::HeaderValue>, src: &http::HeaderMap<http::HeaderValue>, i: usize)
    requires
        i < entries_of(*src).len(),
        name_set(entries_of(*old(dst))).len() <= SAFE_NAMES,
    ensures
        entries_of(*final(dst)) == appended(entries_of(*old(dst)), entries_of(*src)[i as int]),
{
    if let Some((name, value)) = src.iter().nth(i) {
        dst.append(name.clone(), value.clone());
    }
}

/// `HeaderMap::keys_len` counts the names.
#[verifier::external_body]
fn count_names(m: &http::HeaderMap<http::HeaderValue>) -> (r: usize)
    ensures
        r == name_set(entries_of(*m)).len(),
{
    m.keys_len()
}

/// The entries `d` after the entries `s` were added one by one, without those
/// that concern one connection only.
pub open spec fn copied(d: Seq<(Seq<char>, Seq<u8>, bool)>, s: Seq<(Seq<char>, Seq<u8>, bool)>) -> Seq<(Seq<char>, Seq<u8>, bool)>
    decreases s.len(),
{
    if s.len() == 0 {
        d
    } else if hop_by_hop(s.last().0) {
        copied(d, s.drop_last())
    } else {
        appended(copied(d, s.drop_last()), s.last())
    }
}

/// The names after one more entry are those before, and its own.
proof fn appended_names(s: Seq<(Seq<char>, Seq<u8>, bool)>, e: (Seq<char>, Seq<u8>, bool))
    ensures
        forall|n: Seq<char>| #[trigger] has_name(appended(s, e), n) <==> has_name(s, n) || n == e.0,
    decreases s.len(),
{
    let t = appended(s, e);
    if !has_name(s, e.0) || s.len() == 0 || s.last().0 == e.0 {
        assert forall|n: Seq<char>| #[trigger] has_name(t, n) <==> has_name(s, n) || n == e.0 by {
            if has_name(t, n) {
                let i = choose|i: int| 0 <= i < t.len() && (#[trigger] t[i]).0 == n;
                if i < s.len() {
                    assert(s[i].0 == n);
                }
            }
            if has_name(s, n) {
                let i = choose|i: int| 0 <= i < s.len() && (#[trigger] s[i]).0 == n;
                assert(t[i].0 == n);
            }
            assert(t[s.len() as int] == e);
        }
    } else {
        let u = appended(s.drop_last(), e);
        appended_names(s.drop_last(), e);
        assert forall|n: Seq<char>| #[trigger] has_name(t, n) <==> has_name(s, n) || n == e.0 by {
            assert(t == u.push(s.last()));
            if has_name(t, n) {
                let i = choose|i: int| 0 <= i < t.len() && (#[trigger] t[i]).0 == n;
                if i < u.len() {
                    assert(u[i].0 == n);
                    assert(has_name(u, n));
                    if has_name(s.drop_last(), n) {
                        let j = choose|j: int| 0 <= j < s.drop_last().len() && (#[trigger] s.drop_last()[j]).0 == n;
                        assert(s[j].0 == n);
                    }
                } else {
                    assert(s[s.len() - 1].0 == n);
                }
            }
            if has_name(s, n) {
                let i = choose|i: int| 0 <= i < s.len() && (#[trigger] s[i]).0 == n;
                if i < s.len() - 1 {
                    assert(s.drop_last()[i].0 == n);
                    assert(has_name(u, n));
                } else {
                    assert(t[u.len() as int].0 == n);
                }
            }
            if n == e.0 {
                assert(has_name(u, n));
            }
            if has_name(u, n) {
                let i = choose|i: int| 0 <= i < u.len() && (#[trigger] u[i]).0 == n;
                assert(t[i].0 == n);
            }
        }
    }
}

/// A name is among the names of the entries exactly if an entry has it.
proof fn name_set_has(s: Seq<(Seq<char>, Seq<u8>, bool)>, n: Seq<char>)
    ensures
        name_set(s).contains(n) <==> has_name(s, n),
        name_set(s).finite(),
{
    let names = s.map_values(|e: (Seq<char>, Seq<u8>, bool)| e.0);
    vstd::seq_lib::seq_to_set_is_finite(names);
    if has_name(s, n) {
        let i = choose|i: int| 0 <= i < s.len() && (#[trigger] s[i]).0 == n;
        assert(names[i] == n);
    }
    if name_set(s).contains(n) {
        let i = choose|i: int| 0 <= i < names.len() && names[i] == n;
        assert(s[i].0 == n);
    }
}

/// The names after copying are among those of both sides.
proof fn copied_names(d: Seq<(Seq<char>, Seq<u8>, bool)>, s: Seq<(Seq<char>, Seq<u8>, bool)>, k: int)
    requires
        0 <= k <= s.len(),
    ensures
        name_set(copied(d, s.take(k))).subset_of(name_set(d).union(name_set(s))),
        name_set(copied(d, s.take(k))).finite(),
    decreases k,
{
    let t = copied(d, s.take(k));
    name_set_has(t, Seq::empty());
    if k == 0 {
        assert(s.take(0) =~= Seq::empty());
    } else {
        copied_names(d, s, k - 1);
        assert(s.take(k).drop_last() =~= s.take(k - 1));
        assert(s.take(k).last() == s[k - 1]);
        let u = copied(d, s.take(k - 1));
        assert forall|n: Seq<char>| name_set(t).contains(n) implies name_set(d).union(name_set(s)).contains(n) by {
            name_set_has(t, n);
            name_set_has(u, n);
            name_set_has(s, n);
            appended_names(u, s[k - 1]);
            if has_name(u, n) {
                assert(name_set(u).contains(n));
            } else {
                assert(has_name(appended(u, s[k - 1]), n) ==> n == s[k - 1].0);
                assert(s[k - 1].0 == n);
                assert(has_name(s, n));
            }
        }
    }
}

/// Copies the headers of `src` to `dst`, without those that concern one
/// connection only.
pub fn copy_filtered_headers(src: &http::HeaderMap<http::HeaderValue>, dst: &mut http::HeaderMap<http::HeaderValue>)
    requires
        name_set(entries_of(*old(dst))).union(name_set(entries_of(*src))).len() <= SAFE_NAMES,
    ensures
        entries_of(*final(dst)) == copied(entries_of(*old(dst)), entries_of(*src)),
{
    let names = entry_names(src);
    let ghost s = entries_of(*src);
    let ghost d = entries_of(*dst);
    proof {
        assert(texts(names@).len() == names@.len());
        assert(s.take(0) =~= Seq::empty());
        name_set_has(d, Seq::empty());
        name_set_has(s, Seq::empty());
    }
    let mut i: usize = 0;
    while i < names.len()
        invariant
            i <= names@.len(),
            names@.len() == s.len(),
            s == entries_of(*src),
            texts(names@) == s.map_values(|e: (Seq<char>, Seq<u8>, bool)| e.0),
            entries_of(*dst) == copied(d, s.take(i as int)),
            name_set(d).union(name_set(s)).len() <= SAFE_NAMES,
            name_set(d).finite(),
            name_set(s).finite(),
        decreases names@.len() - i,
    {
        proof {
            assert(texts(names@)[i as int] == names@[i as int]@);
            assert(s.take(i + 1).drop_last() =~= s.take(i as int));
            assert(s.take(i + 1).last() == s[i as int]);
            copied_names(d, s, i as int);
            vstd::set_lib::lemma_len_subset(name_set(copied(d, s.take(i as int))), name_set(d).union(name_set(s)));
        }
        if !is_hop_by_hop(&names[i]) {
            append_entry(dst, src, i);
        }
        i += 1;
    }
    assert(s.take(i as int) =~= s);
}

/// Copies the headers of `src` to `dst` as `copy_filtered_headers` does, where
/// both together have few enough names; else leaves `dst` as it was, and says
/// so.
pub fn try_copy_filtered_headers(src: &http::HeaderMap<http::HeaderValue>, dst: &mut http::HeaderMap<http::HeaderValue>) -> (r: bool)
    ensures
        r == (name_set(entries_of(*old(dst))).len() + name_set(entries_of(*src)).len() <= SAFE_NAMES),
        entries_of(*final(dst)) == if r {
            copied(entries_of(*old(dst)), entries_of(*src))
        } else {
            entries_of(*old(dst))
        },
{
    let a: usize = count_names(src);
    let b: usize = count_names(dst);
    if a > SAFE_NAMES || b > SAFE_NAMES - a {
        return false;
    }
    proof {
        let x = name_set(entries_of(*dst));
        let y = name_set(entries_of(*src));
        name_set_has(entries_of(*dst), Seq::empty());
        name_set_has(entries_of(*src), Seq::empty());
        vstd::set_lib::lemma_len_union(x, y);
    }
    copy_filtered_headers(src, dst);
    true
}

/// The values of a name, in order.
pub open spec fn values_of(s: Seq<(Seq<char>, Seq<u8>, bool)>, name: Seq<char>) -> Seq<(Seq<u8>, bool)>
    decreases s.len(),
{
    if s.len() == 0 {
        Seq::empty()
    } else if s.last().0 == name {
        values_of(s.drop_last(), name).push((s.last().1, s.last().2))
    } else {
        values_of(s.drop_last(), name)
    }
}

/// One more entry adds its value to those of its name, and to no other.
proof fn appended_values(s: Seq<(Seq<char>, Seq<u8>, bool)>, e: (Seq<char>, Seq<u8>, bool), name: Seq<char>)
    ensures
        values_of(appended(s, e), name) == if e.0 == name {
            values_of(s, name).push((e.1, e.2))
        } else {
            values_of(s, name)
        },
    decreases s.len(),
{
    if !has_name(s, e.0) || s.len() == 0 || s.last().0 == e.0 {
        assert(s.push(e).drop_last() =~= s);
    } else {
        appended_values(s.drop_last(), e, name);
        let u = appended(s.drop_last(), e);
        assert(u.push(s.last()).drop_last() =~= u);
    }
}

/// Copying keeps what was there; of the copied headers, none that concerns
/// one connection only arrives, and every other arrives with all its values,
/// in order, behind those that its name had.
pub proof fn law_copied_values(d: Seq<(Seq<char>, Seq<u8>, bool)>, s: Seq<(Seq<char>, Seq<u8>, bool)>, name: Seq<char>)
    ensures
        values_of(copied(d, s), name) == if hop_by_hop(name) {
            values_of(d, name)
        } else {
            values_of(d, name) + values_of(s, name)
        },
    decreases s.len(),
{
    if s.len() == 0 {
        assert(values_of(d, name) + values_of(s, name) =~= values_of(d, name));
    } else {
        law_copied_values(d, s.drop_last(), name);
        appended_values(copied(d, s.drop_last()), s.last(), name);
        assert(values_of(copied(d, s), name) =~= if hop_by_hop(name) {
            values_of(d, name)
        } else {
            values_of(d, name) + values_of(s, name)
        });
    }
}

/// Does the name stand for one of these headers, which callers and apps speak
/// to each other in?
pub open spec fn speaks(name: Seq<char>) -> bool {
    ||| name == "authorization"@
    ||| name == "cookie"@
    ||| name == "set-cookie"@
    ||| name == "content-type"@
    ||| name == "content-length"@
    ||| name == "content-encoding"@
    ||| name == "cache-control"@
    ||| name == "accept"@
    ||| name == "accept-encoding"@
    ||| name == "location"@
    ||| name == "origin"@
    ||| name == "referer"@
    ||| name == "user-agent"@
    ||| name == "etag"@
    ||| name == "x-forwarded-for"@
}

/// What a caller and an app say to each other crosses the proxy whole: no
/// value is lost, changed or put out of order, none is added, and what was
/// there before stays.
pub proof fn law_callers_and_apps_are_heard(d: Seq<(Seq<char>, Seq<u8>, bool)>, s: Seq<(Seq<char>, Seq<u8>, bool)>, name: Seq<char>)
    requires
        speaks(name),
    ensures
        values_of(copied(d, s), name) == values_of(d, name) + values_of(s, name),
{
    law_end_to_end_names();
    law_copied_values(d, s, name);
}

/// What concerns the one connection stays on it: nothing of it crosses.
pub proof fn law_connection_headers_stay(d: Seq<(Seq<char>, Seq<u8>, bool)>, s: Seq<(Seq<char>, Seq<u8>, bool)>, name: Seq<char>)
    requires
        ({
            let low = lower_text(name);
            ||| low == "connection"@
            ||| low == "keep-alive"@
            ||| low == "proxy-authenticate"@
            ||| low == "proxy-authorization"@
            ||| low == "te"@
            ||| low == "trailer"@
            ||| low == "transfer-encoding"@
            ||| low == "upgrade"@
            ||| low == "host"@
        }),
    ensures
        values_of(copied(d, s), name) == values_of(d, name),
{
    law_hop_by_hop_names(name);
    law_copied_values(d, s, name);
}

} // verus!
