//! Reclaiming the disk space of a purged app.
use vstd::prelude::*;
use crate::docker::protocol::{image_tag, rmi_args, versioned_image_tag};
use crate::text::{concat2, strs, svec, texts, texts_push};
use crate::words::{split_words, words};

verus! {

/// The command that lists the containers of an image.
pub open spec fn list_command(tag: Seq<char>) -> Seq<Seq<char>> {
    seq!["ps"@, "-aq"@, "--filter"@, "ancestor="@ + tag]
}

/// The first and the last command of a purge: listing the containers of the
/// image, and removing the image. What stands between them, the list says.
pub fn purge_image(id: &str, version: u64) -> (r: (Vec<String>, Vec<String>))
    ensures
        texts(r.0@) == list_command(image_tag(id@, version as nat)),
        texts(r.1@) == seq!["rmi"@, "-f"@, image_tag(id@, version as nat)],
{
    let tag = versioned_image_tag(id, version);
    let filter = concat2("ancestor=", &tag);
    let parts: [&str; 4] = ["ps", "-aq", "--filter", &filter];
    assert(strs(parts@) =~= list_command(tag@));
    (svec(&parts), rmi_args(&tag))
}

/// The command that removes the listed containers, so that the image is no
/// longer in use; none where there are none.
pub fn purge_containers(listed: &str) -> (r: Option<Vec<String>>)
    ensures
        match r {
            None => words(listed@).len() == 0,
            Some(args) => words(listed@).len() > 0 && texts(args@) == seq!["rm"@, "-f"@] + words(listed@),
        },
{
    let ids = split_words(listed);
    assert(texts(ids@).len() == ids@.len());
    if ids.len() == 0 {
        return None;
    }
    let first: [&str; 2] = ["rm", "-f"];
    let mut args = svec(&first);
    let ghost head = texts(args@);
    assert(head =~= seq!["rm"@, "-f"@]);
    let mut i: usize = 0;
    assert(head + texts(ids@).take(0) =~= head);
    while i < ids.len()
        invariant
            i <= ids@.len(),
            texts(args@) == head + texts(ids@).take(i as int),
        decreases ids@.len() - i,
    {
        let id: String = ids[i].as_str().to_owned();
        proof {
            texts_push(args@, id);
            assert((head + texts(ids@).take(i as int)).push(id@) =~= head + texts(ids@).take(i + 1));
        }
        args.push(id);
        i += 1;
    }
    assert(texts(ids@).take(i as int) =~= texts(ids@));
    Some(args)
}

} // verus!
