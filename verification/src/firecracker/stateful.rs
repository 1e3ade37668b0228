//! The persistent data disk of a stateful app and where it is mounted.
use vstd::prelude::*;
use crate::firecracker::snapshot::app_dir;
use crate::manifest::Runtime;
use crate::path::{join, joined};
use crate::words::{trim_text, trimmed};

verus! {

/// The image of the app's data disk: a stateful app has one next to its cache
/// directory, any other app has none.
pub fn stateful_data_disk(data_dir: &str, uuid: &str, runtime: &Runtime) -> (r: Option<String>)
    ensures
        if runtime.stateful {
            r is Some && r->Some_0@ == joined(app_dir(data_dir@, uuid@), "data.ext4"@)
        } else {
            r is None
        },
{
    if runtime.stateful {
        Some(join(&join(&join(data_dir, "apps"), uuid), "data.ext4"))
    } else {
        None
    }
}

/// A stateful app does not say where its disk is mounted.
#[derive(Debug, Clone, Copy, PartialEq, Eq, Structural)]
pub struct MissingDataMount;

impl MissingDataMount {
    /// What is said of the error.
    pub fn message(&self) -> (r: String)
        ensures
            r@
                == "app declares [runtime].stateful = true but no (non-empty) [runtime].data_mount: a stateful app MUST declare its guest mount path, otherwise the persistent /dev/vdb disk attaches but is never mounted and the app's writes land on the ephemeral rootfs (lost on the next restart)"@,
    {
        "app declares [runtime].stateful = true but no (non-empty) [runtime].data_mount: a stateful app MUST declare its guest mount path, otherwise the persistent /dev/vdb disk attaches but is never mounted and the app's writes land on the ephemeral rootfs (lost on the next restart)".to_owned()
    }
}

/// Where the data disk is mounted: nowhere for an app that is not stateful;
/// for a stateful app where its manifest says, which must not be blank.
pub fn stateful_data_mount(runtime: &Runtime) -> (r: Result<Option<&str>, MissingDataMount>)
    ensures
        if !runtime.stateful {
            r is Ok && r->Ok_0 is None
        } else {
            match runtime.data_mount {
                Some(m) => if trimmed(m@).len() > 0 {
                    r is Ok && r->Ok_0 is Some && r->Ok_0->Some_0@ == m@
                } else {
                    r is Err
                },
                None => r is Err,
            }
        },
{
    if !runtime.stateful {
        return Ok(None);
    }
    match &runtime.data_mount {
        Some(m) => {
            let t = trim_text(m);
            if !t.as_str().is_empty() {
                Ok(Some(m.as_str()))
            } else {
                Err(MissingDataMount)
            }
        },
        None => Err(MissingDataMount),
    }
}

/// Two apps never share a data disk, where neither name holds a slash.
pub proof fn law_data_disk_per_app(data_dir: Seq<char>, a: Seq<char>, b: Seq<char>)
    requires
        a != b,
        !crate::text::has_char(a, '/'),
        !crate::text::has_char(b, '/'),
        a.len() > 0,
        b.len() > 0,
    ensures
        joined(app_dir(data_dir, a), "data.ext4"@) != joined(app_dir(data_dir, b), "data.ext4"@),
{
    reveal_strlit("data.ext4");
    crate::text::find_char_first(a, '/');
    crate::text::find_char_first(b, '/');
    let base = joined(data_dir, "apps"@);
    let da = app_dir(data_dir, a);
    let db = app_dir(data_dir, b);
    assert(a[0] != '/' && b[0] != '/');
    let base2 = if base.len() == 0 || base.last() == '/' { base } else { base.push('/') };
    assert(da =~= base2 + a);
    assert(db =~= base2 + b);
    assert(da.last() == a.last() && a.last() != '/');
    assert(db.last() == b.last() && b.last() != '/');
    let ja = joined(da, "data.ext4"@);
    let jb = joined(db, "data.ext4"@);
    if ja == jb {
        assert(ja.len() == base2.len() + a.len() + 10);
        assert(jb.len() == base2.len() + b.len() + 10);
        assert(ja.subrange(base2.len() as int, (base2.len() + a.len()) as int) =~= a);
        assert(jb.subrange(base2.len() as int, (base2.len() + b.len()) as int) =~= b);
    }
}

} // verus!
