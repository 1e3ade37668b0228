//! Pushing a built image to the registry.
use vstd::prelude::*;
use crate::docker::protocol::{push_args, tag_args};
use crate::text::texts;

verus! {

/// What to do next to push an image.
#[derive(Debug)]
pub enum PushStep {
    /// Run this docker command.
    Run(Vec<String>),
    /// The image is pushed.
    Pushed,
    /// It is not; the text says why.
    Failed(String),
}

/// The commands that push an image: it is tagged as the registry knows it,
/// and then pushed.
pub open spec fn push_commands(local_tag: Seq<char>, reff: Seq<char>) -> Seq<Seq<Seq<char>>> {
    seq![seq!["tag"@, local_tag, reff], seq!["push"@, reff]]
}

/// What to do next to push an image, after `done` commands succeeded and the
/// next one, if it was run, failed as `error` says. The first failure ends it.
pub fn push_image(local_tag: &str, reff: &str, done: usize, error: Option<&str>) -> (r: PushStep)
    ensures
        match error {
            Some(e) => r is Failed && r->Failed_0@ == e@,
            None => if done < 2 {
                r is Run && texts(r->Run_0@) == push_commands(local_tag@, reff@)[done as int]
            } else {
                r is Pushed
            },
        },
{
    match error {
        Some(e) => PushStep::Failed(e.to_owned()),
        None => if done == 0 {
            PushStep::Run(tag_args(local_tag, reff))
        } else if done == 1 {
            PushStep::Run(push_args(reff))
        } else {
            PushStep::Pushed
        },
    }
}

/// What is pushed is what the image was tagged as, and what was tagged is the
/// image: the first command names both, the second the reference.
pub proof fn law_pushed_is_what_was_tagged(local_tag: Seq<char>, reff: Seq<char>)
    ensures
        ({
            let c = push_commands(local_tag, reff);
            &&& c.len() == 2
            &&& c[0].first() == "tag"@ && c[1].first() == "push"@
            &&& c[0].last() == c[1].last() && c[1].last() == reff
            &&& c[0][1] == local_tag
            &&& c[0].len() == 3 && c[1].len() == 2
        }),
{
}

} // verus!
