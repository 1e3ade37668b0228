//! Names made safe for files, units and image tags.
use vstd::prelude::*;
use crate::text::chars_of;

verus! {

/// The lower-case form of an ASCII letter; any other character as it is.
pub open spec fn lower(c: char) -> char {
    if 'A' <= c <= 'Z' {
        (c as u32 + 32) as char
    } else {
        c
    }
}

/// Is `c` an ASCII letter or digit in lower case?
pub open spec fn is_lower_alnum(c: char) -> bool {
    'a' <= c <= 'z' || '0' <= c <= '9'
}

/// The lower-case form of a text, ASCII letters only.
pub open spec fn lower_text(s: Seq<char>) -> Seq<char> {
    s.map_values(|c: char| lower(c))
}

/// The character that stands for `c` in a sanitized name: its lower-case form
/// where that is a letter, a digit or a hyphen, else a hyphen.
pub open spec fn safe_char(c: char) -> char {
    if is_lower_alnum(lower(c)) {
        lower(c)
    } else {
        '-'
    }
}

/// A name with only lower-case letters, digits and hyphens.
pub open spec fn sanitized(s: Seq<char>) -> Seq<char> {
    s.map_values(|c: char| safe_char(c))
}

/// The lower-case form of an ASCII letter; any other character as it is.
pub fn lower_char(c: char) -> (r: char)
    ensures
        r == lower(c),
{
    if c >= 'A' && c <= 'Z' {
        ((c as u8) + 32) as char
    } else {
        c
    }
}

/// The lower-case form of a text, ASCII letters only.
pub fn to_lower(s: &str) -> (r: String)
    ensures
        r@ == lower_text(s@),
{
    let v = chars_of(s);
    let mut out = String::new();
    let mut i: usize = 0;
    assert(lower_text(s@).take(0) =~= Seq::empty());
    while i < v.len()
        invariant
            v@ == s@,
            i <= v@.len(),
            out@ == lower_text(s@).take(i as int),
        decreases v@.len() - i,
    {
        out.push(lower_char(v[i]));
        assert(out@ =~= lower_text(s@).take(i + 1));
        i += 1;
    }
    assert(lower_text(s@).take(i as int) =~= lower_text(s@));
    out
}

/// A name with only lower-case letters, digits and hyphens.
pub fn sanitize(id: &str) -> (r: String)
    ensures
        r@ == sanitized(id@),
{
    let v = chars_of(id);
    let mut out = String::new();
    let mut i: usize = 0;
    assert(sanitized(id@).take(0) =~= Seq::empty());
    while i < v.len()
        invariant
            v@ == id@,
            i <= v@.len(),
            out@ == sanitized(id@).take(i as int),
        decreases v@.len() - i,
    {
        let c = lower_char(v[i]);
        let safe = (c >= 'a' && c <= 'z') || (c >= '0' && c <= '9');
        out.push(
            if safe {
                c
            } else {
                '-'
            },
        );
        assert(out@ =~= sanitized(id@).take(i + 1));
        i += 1;
    }
    assert(sanitized(id@).take(i as int) =~= sanitized(id@));
    out
}

/// A sanitized name has as many characters as the name, all of them lower-case
/// letters, digits or hyphens, and sanitizing it again changes nothing.
pub proof fn law_sanitized(s: Seq<char>)
    ensures
        sanitized(s).len() == s.len(),
        forall|i: int| 0 <= i < s.len() ==> is_lower_alnum(#[trigger] sanitized(s)[i]) || sanitized(s)[i] == '-',
        sanitized(sanitized(s)) == sanitized(s),
{
    assert forall|c: char| #[trigger] safe_char(safe_char(c)) == safe_char(c) by {}
    assert forall|i: int| 0 <= i < s.len() implies sanitized(sanitized(s))[i] == sanitized(s)[i] by {
        assert(sanitized(s)[i] == safe_char(s[i]));
        assert(sanitized(sanitized(s))[i] == safe_char(safe_char(s[i])));
    }
    assert(sanitized(sanitized(s)) =~= sanitized(s));
}

/// A lower-case letter and a digit stay as they are, an upper-case letter
/// becomes its lower-case one, and anything else a hyphen.
pub proof fn law_sanitized_characters(s: Seq<char>, i: int)
    requires
        0 <= i < s.len(),
    ensures
        'a' <= s[i] <= 'z' || '0' <= s[i] <= '9' ==> sanitized(s)[i] == s[i],
        'A' <= s[i] <= 'Z' ==> sanitized(s)[i] as int - 'a' as int == s[i] as int - 'A' as int,
        !('a' <= s[i] <= 'z' || '0' <= s[i] <= '9' || 'A' <= s[i] <= 'Z') ==> sanitized(s)[i] == '-',
        'A' <= s[i] <= 'Z' ==> lower_text(s)[i] as int - 'a' as int == s[i] as int - 'A' as int,
        !('A' <= s[i] <= 'Z') ==> lower_text(s)[i] == s[i],
{
}

} // verus!
