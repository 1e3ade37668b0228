//! Unix file paths as text.
use vstd::prelude::*;
use crate::text::{chars_of, text_range};

verus! {

/// Is `p` an absolute path?
pub open spec fn is_absolute(p: Seq<char>) -> bool {
    p.len() > 0 && p[0] == '/'
}

/// The path `name` under the directory `dir`: an absolute `name` stands for
/// itself; otherwise one slash parts the two, unless `dir` is empty or ends in one.
pub open spec fn joined(dir: Seq<char>, name: Seq<char>) -> Seq<char> {
    if is_absolute(name) {
        name
    } else if dir.len() == 0 || dir.last() == '/' {
        dir + name
    } else {
        dir.push('/') + name
    }
}

/// The path `name` under the directory `dir`.
pub fn join(dir: &str, name: &str) -> (r: String)
    ensures
        r@ == joined(dir@, name@),
{
    let d = chars_of(dir);
    let n = chars_of(name);
    if n.len() > 0 && n[0] == '/' {
        return name.to_owned();
    }
    let mut out = dir.to_owned();
    if d.len() > 0 && d[d.len() - 1] != '/' {
        out.push('/');
    }
    out.append(name);
    out
}

/// Where the last segment of a path begins: behind its last slash.
pub open spec fn last_segment_start(p: Seq<char>) -> int
    decreases p.len(),
{
    if p.len() == 0 || p.last() == '/' {
        p.len() as int
    } else {
        last_segment_start(p.drop_last())
    }
}

/// The last segment of a path: what stands behind its last slash.
pub open spec fn last_segment(p: Seq<char>) -> Seq<char> {
    p.skip(last_segment_start(p))
}

/// The name of the file that a path leads to: its last segment, slashes and
/// `.` segments at its end aside. There is none where the path ends in `..`
/// or leads to the root or to the current directory.
pub open spec fn file_name(p: Seq<char>) -> Option<Seq<char>>
    decreases p.len(),
{
    if p.len() == 0 {
        None
    } else if p.last() == '/' {
        file_name(p.drop_last())
    } else if last_segment(p) == seq!['.'] {
        file_name(p.drop_last())
    } else if last_segment(p) == seq!['.', '.'] {
        None
    } else {
        Some(last_segment(p))
    }
}

/// Where the extension of a file name begins: at its last dot, if it has one
/// that is not its first character.
pub open spec fn last_dot(name: Seq<char>) -> Option<int>
    decreases name.len(),
{
    if name.len() <= 1 {
        None
    } else if name.last() == '.' {
        Some(name.len() - 1)
    } else {
        last_dot(name.drop_last())
    }
}

/// A file name without its extension.
pub open spec fn stem_of(name: Seq<char>) -> Seq<char> {
    match last_dot(name) {
        Some(i) => name.take(i),
        None => name,
    }
}

/// The last segment of a path begins within it.
pub proof fn last_segment_bounds(p: Seq<char>)
    ensures
        0 <= last_segment_start(p) <= p.len(),
        p.len() > 0 && p.last() != '/' ==> last_segment_start(p) < p.len(),
        last_segment_start(p) > 0 ==> p[last_segment_start(p) - 1] == '/',
        forall|i: int| last_segment_start(p) <= i < p.len() ==> p[i] != '/',
    decreases p.len(),
{
    if p.len() > 0 && p.last() != '/' {
        let front = p.drop_last();
        last_segment_bounds(front);
        assert forall|i: int| last_segment_start(p) <= i < p.len() implies p[i] != '/' by {
            if i < front.len() {
                assert(front[i] == p[i]);
            }
        }
        if last_segment_start(p) > 0 {
            assert(front[last_segment_start(p) - 1] == p[last_segment_start(p) - 1]);
        }
    }
}

/// The name of the file that a path leads to, if it leads to one.
pub fn name_of(path: &str) -> (r: Option<String>)
    ensures
        crate::text::opt_text(r) == file_name(path@),
{
    let v = chars_of(path);
    let mut end: usize = v.len();
    assert(v@.take(end as int) =~= v@);
    while end > 0
        invariant
            end <= v@.len(),
            v@ == path@,
            file_name(v@.take(end as int)) == file_name(path@),
        decreases end,
    {
        let ghost cur = v@.take(end as int);
        assert(cur.last() == v@[end - 1]);
        assert(cur.drop_last() =~= v@.take(end - 1));
        if v[end - 1] == '/' {
            end -= 1;
        } else {
            let mut start: usize = end;
            assert(cur =~= v@.take(start as int));
            while start > 0 && v[start - 1] != '/'
                invariant
                    start <= end <= v@.len(),
                    cur == v@.take(end as int),
                    last_segment_start(cur) == last_segment_start(v@.take(start as int)),
                decreases start,
            {
                let ghost t = v@.take(start as int);
                assert(t.last() == v@[start - 1]);
                assert(t.drop_last() =~= v@.take(start - 1));
                start -= 1;
            }
            proof {
                let t = v@.take(start as int);
                if start > 0 {
                    assert(t.last() == v@[start - 1]);
                }
                assert(last_segment_start(cur) == start);
                last_segment_bounds(cur);
            }
            let seg = text_range(&v, start, end);
            assert(seg@ =~= last_segment(cur));
            if end - start == 1 && v[start] == '.' {
                assert(seg@ =~= seq!['.']);
                end -= 1;
            } else if end - start == 2 && v[start] == '.' && v[start + 1] == '.' {
                assert(seg@ =~= seq!['.', '.']);
                return None;
            } else {
                proof {
                    if seg@ == seq!['.'] {
                        assert(seg@.len() == 1 && seg@[0] == '.');
                    }
                    if seg@ == seq!['.', '.'] {
                        assert(seg@.len() == 2 && seg@[0] == '.' && seg@[1] == '.');
                    }
                }
                return Some(seg);
            }
        }
    }
    None
}

/// The name of the file that a path leads to, without its extension.
pub fn stem_name(path: &str) -> (r: Option<String>)
    ensures
        match file_name(path@) {
            Some(name) => r is Some && r->Some_0@ == stem_of(name),
            None => r is None,
        },
{
    match name_of(path) {
        None => None,
        Some(name) => {
            let v = chars_of(&name);
            let mut i: usize = v.len();
            assert(v@.take(i as int) =~= v@);
            while i > 1 && v[i - 1] != '.'
                invariant
                    i <= v@.len(),
                    v@ == name@,
                    last_dot(v@.take(i as int)) == last_dot(name@),
                decreases i,
            {
                let ghost t = v@.take(i as int);
                assert(t.last() == v@[i - 1]);
                assert(t.drop_last() =~= v@.take(i - 1));
                i -= 1;
            }
            let ghost t = v@.take(i as int);
            if i > 1 {
                assert(t.last() == v@[i - 1]);
                let stem = text_range(&v, 0, i - 1);
                assert(stem@ =~= name@.take(i - 1));
                Some(stem)
            } else {
                Some(name)
            }
        },
    }
}

/// How many characters at the front of a path stand before its segments: the
/// root's slash, or the dot of a path that begins in the current directory.
pub open spec fn lead_in(p: Seq<char>) -> nat {
    if p.len() > 0 && (p[0] == '/' || (p[0] == '.' && (p.len() == 1 || p[1] == '/'))) {
        1
    } else {
        0
    }
}

/// A path without the slashes and the `.` segments at its end; its first
/// `lead` characters stay.
pub open spec fn trimmed_path(p: Seq<char>, lead: nat) -> Seq<char>
    decreases p.len(),
{
    if p.len() <= lead {
        p
    } else if p.last() == '/' || last_segment(p) == seq!['.'] {
        trimmed_path(p.drop_last(), lead)
    } else {
        p
    }
}

/// The directory that a path's last segment lies in. The root has none, and
/// neither has the empty path.
pub open spec fn parent_of(p: Seq<char>) -> Option<Seq<char>> {
    let lead = lead_in(p);
    let t = trimmed_path(p, lead);
    if t.len() > lead {
        Some(trimmed_path(t.take(last_segment_start(t)), lead))
    } else if t.len() > 0 && t[0] == '.' {
        Some(Seq::empty())
    } else {
        None
    }
}

/// Where the last segment of the first `end` characters begins.
fn segment_start(v: &Vec<char>, end: usize) -> (start: usize)
    requires
        end <= v@.len(),
    ensures
        start <= end,
        start == last_segment_start(v@.take(end as int)),
{
    let mut start: usize = end;
    let ghost cur = v@.take(end as int);
    while start > 0 && v[start - 1] != '/'
        invariant
            start <= end <= v@.len(),
            cur == v@.take(end as int),
            last_segment_start(cur) == last_segment_start(v@.take(start as int)),
        decreases start,
    {
        let ghost t = v@.take(start as int);
        assert(t.last() == v@[start - 1]);
        assert(t.drop_last() =~= v@.take(start - 1));
        start -= 1;
    }
    proof {
        if start > 0 {
            assert(v@.take(start as int).last() == v@[start - 1]);
        }
    }
    start
}

/// How many of the first `from` characters are left without the slashes and
/// the `.` segments at their end.
fn trimmed_end(v: &Vec<char>, from: usize, lead: usize) -> (end: usize)
    requires
        from <= v@.len(),
    ensures
        end <= from,
        v@.take(end as int) == trimmed_path(v@.take(from as int), lead as nat),
{
    let mut end: usize = from;
    while end > lead
        invariant
            end <= from <= v@.len(),
            trimmed_path(v@.take(end as int), lead as nat) == trimmed_path(v@.take(from as int), lead as nat),
        decreases end,
    {
        let ghost cur = v@.take(end as int);
        assert(cur.last() == v@[end - 1]);
        assert(cur.drop_last() =~= v@.take(end - 1));
        let start = segment_start(v, end);
        proof {
            let seg = last_segment(cur);
            assert(seg.len() == end - start);
            if end - start == 1 {
                assert(seg[0] == v@[end - 1]);
                assert(seg =~= seq![v@[end - 1]]);
                assert(seq!['.'][0] == '.');
            }
        }
        if v[end - 1] != '/' && !(end - start == 1 && v[end - 1] == '.') {
            return end;
        }
        end -= 1;
    }
    end
}

/// The directory that a path's last segment lies in, if it has one.
pub fn parent_dir(path: &str) -> (r: Option<String>)
    ensures
        crate::text::opt_text(r) == parent_of(path@),
{
    let v = chars_of(path);
    let lead: usize = if v.len() > 0 && (v[0] == '/' || (v[0] == '.' && (v.len() == 1 || v[1] == '/'))) {
        1
    } else {
        0
    };
    let whole: usize = v.len();
    assert(v@.take(whole as int) =~= v@);
    let end = trimmed_end(&v, whole, lead);
    let ghost t = v@.take(end as int);
    if end > lead {
        let start = segment_start(&v, end);
        assert(t.take(start as int) =~= v@.take(start as int));
        let left = trimmed_end(&v, start, lead);
        let dir = text_range(&v, 0, left);
        assert(dir@ =~= v@.take(left as int));
        Some(dir)
    } else if end > 0 && v[0] == '.' {
        let none = String::new();
        assert(none@ =~= Seq::empty());
        Some(none)
    } else {
        None
    }
}

/// A plain name that is put under a directory is the name of the file there,
/// and the directory comes before it.
pub proof fn law_joined_name(dir: Seq<char>, name: Seq<char>)
    requires
        name.len() > 0,
        forall|i: int| 0 <= i < name.len() ==> name[i] != '/',
        name != seq!['.'],
        name != seq!['.', '.'],
    ensures
        file_name(joined(dir, name)) == Some(name),
        joined(dir, name).len() >= dir.len() + name.len(),
        joined(dir, name).take(dir.len() as int) == dir,
        dir.len() > 0 && dir.last() != '/' ==> joined(dir, name).len() == dir.len() + 1 + name.len() && joined(dir, name)[dir.len() as int]
            == '/',
        dir.len() == 0 || dir.last() == '/' ==> joined(dir, name) == dir + name,
{
    let p = joined(dir, name);
    assert(p.take(dir.len() as int) =~= dir);
    let front = p.take(p.len() - name.len());
    assert(p =~= front + name);
    segment_behind(front, name);
    assert(p.last() == name.last());
    assert(last_segment(p) =~= name);
}

/// What stands behind the last slash is the last segment.
proof fn segment_behind(front: Seq<char>, name: Seq<char>)
    requires
        front.len() == 0 || front.last() == '/',
        forall|i: int| 0 <= i < name.len() ==> name[i] != '/',
    ensures
        last_segment_start(front + name) == front.len(),
    decreases name.len(),
{
    let p = front + name;
    if name.len() > 0 {
        assert(p.last() == name[name.len() - 1]);
        assert(p.drop_last() =~= front + name.drop_last());
        segment_behind(front, name.drop_last());
    } else {
        assert(p =~= front);
    }
}

/// The directory under the root that a plain name lies in is its parent.
pub proof fn law_parent_of_a_file(dir: Seq<char>, name: Seq<char>)
    requires
        dir.len() > 1,
        dir[0] == '/',
        dir.last() != '/',
        last_segment(dir) != seq!['.'],
        name.len() > 0,
        forall|i: int| 0 <= i < name.len() ==> name[i] != '/',
        name != seq!['.'],
    ensures
        parent_of(joined(dir, name)) == Some(dir),
{
    reveal_with_fuel(trimmed_path, 3);
    let p = joined(dir, name);
    assert(p =~= dir.push('/') + name);
    segment_behind(dir.push('/'), name);
    assert(last_segment(p) =~= name);
    assert(p.last() == name.last());
    assert(p[0] == '/');
    assert(p.take(dir.len() as int + 1) =~= dir.push('/'));
    assert(dir.push('/').drop_last() =~= dir);
}

/// A path from the root leads to the same file from any directory.
pub proof fn law_absolute_name(dir: Seq<char>, name: Seq<char>)
    requires
        name.len() > 0,
        name[0] == '/',
    ensures
        joined(dir, name) == name,
{
}

} // verus!
