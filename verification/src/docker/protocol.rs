//! Image and container names, and the argument lists of the docker commands.
use vstd::prelude::*;
use crate::number::{decimal, decimal_injective, push_decimal};
use crate::sanitize::{lower, lower_char, sanitize, sanitized};
use crate::text::{chars_of, concat2, strs, svec, texts};

verus! {

/// Is docker there? That is what the probe says.
pub fn docker_available_with(check: impl Fn() -> bool) -> (r: bool)
    requires
        check.requires(()),
    ensures
        check.ensures((), r),
{
    check()
}

/// Removes an image.
pub fn rmi_args(tag: &str) -> (r: Vec<String>)
    ensures
        texts(r@) == seq!["rmi"@, "-f"@, tag@],
{
    let parts: [&str; 3] = ["rmi", "-f", tag];
    assert(strs(parts@) =~= seq!["rmi"@, "-f"@, tag@]);
    svec(&parts)
}

/// A character of an image name: letters are lower-cased, and what may not
/// stand in a name becomes a dash.
pub open spec fn image_char(c: char) -> char {
    let l = lower(c);
    if ('a' <= l && l <= 'z') || ('0' <= l && l <= '9') || l == '_' || l == '.' || l == '-' {
        l
    } else {
        '-'
    }
}

/// A text made fit for an image name, character by character.
pub open spec fn image_safe(s: Seq<char>) -> Seq<char> {
    s.map_values(|c: char| image_char(c))
}

/// The tag of one version of an app's image.
pub open spec fn image_tag(uuid: Seq<char>, version: nat) -> Seq<char> {
    "tbf-img-"@ + image_safe(uuid) + "-v"@ + decimal(version)
}

/// The tag of one version of an app's image.
pub fn versioned_image_tag(uuid: &str, version: u64) -> (r: String)
    ensures
        r@ == image_tag(uuid@, version as nat),
{
    let mut out: String = "tbf-img-".to_owned();
    let v = chars_of(uuid);
    let ghost safe = image_safe(uuid@);
    let ghost head = out@;
    let mut i: usize = 0;
    assert(head + safe.take(0) =~= head);
    while i < v.len()
        invariant
            i <= v@.len(),
            v@ == uuid@,
            safe == image_safe(uuid@),
            out@ == head + safe.take(i as int),
        decreases v@.len() - i,
    {
        let l: char = lower_char(v[i]);
        let c: char = if ('a' <= l && l <= 'z') || ('0' <= l && l <= '9') || l == '_' || l == '.' || l == '-' {
            l
        } else {
            '-'
        };
        proof {
            assert(safe[i as int] == c);
            assert((head + safe.take(i as int)).push(c) =~= head + safe.take(i + 1));
        }
        out.push(c);
        i += 1;
    }
    assert(safe.take(i as int) =~= safe);
    out.append("-v");
    push_decimal(&mut out, version);
    out
}

/// Two versions of one app have different tags, so a new version never meets
/// an old image.
pub proof fn law_versions_differ(uuid: Seq<char>, a: nat, b: nat)
    requires
        a != b,
    ensures
        image_tag(uuid, a) != image_tag(uuid, b),
{
    if image_tag(uuid, a) == image_tag(uuid, b) {
        let head = "tbf-img-"@ + image_safe(uuid) + "-v"@;
        assert(image_tag(uuid, a).skip(head.len() as int) =~= decimal(a));
        assert(image_tag(uuid, b).skip(head.len() as int) =~= decimal(b));
        decimal_injective(a, b);
    }
}

/// Pushes an image.
pub fn push_args(reff: &str) -> (r: Vec<String>)
    ensures
        texts(r@) == seq!["push"@, reff@],
{
    let parts: [&str; 2] = ["push", reff];
    assert(strs(parts@) =~= seq!["push"@, reff@]);
    svec(&parts)
}

/// Gives an image another tag.
pub fn tag_args(reff: &str, vtag: &str) -> (r: Vec<String>)
    ensures
        texts(r@) == seq!["tag"@, reff@, vtag@],
{
    let parts: [&str; 3] = ["tag", reff, vtag];
    assert(strs(parts@) =~= seq!["tag"@, reff@, vtag@]);
    svec(&parts)
}

/// Pulls an image.
pub fn pull_args(reff: &str) -> (r: Vec<String>)
    ensures
        texts(r@) == seq!["pull"@, reff@],
{
    let parts: [&str; 2] = ["pull", reff];
    assert(strs(parts@) =~= seq!["pull"@, reff@]);
    svec(&parts)
}

/// The name of the container of a launch; the id is reduced to lower-case
/// letters, digits and dashes.
pub open spec fn container_of(id: Seq<char>, launch: nat) -> Seq<char> {
    "tbf-"@ + sanitized(id) + "-"@ + decimal(launch)
}

/// The name of the container of a launch.
pub fn container_name(id: &str, launch: u64) -> (r: String)
    ensures
        r@ == container_of(id@, launch as nat),
{
    let safe = sanitize(id);
    let mut out = concat2("tbf-", &safe);
    out.append("-");
    push_decimal(&mut out, launch);
    out
}

/// Two launches of one app have different containers.
pub proof fn law_launches_differ(id: Seq<char>, a: nat, b: nat)
    requires
        a != b,
    ensures
        container_of(id, a) != container_of(id, b),
{
    if container_of(id, a) == container_of(id, b) {
        let head = "tbf-"@ + sanitized(id) + "-"@;
        assert(container_of(id, a).skip(head.len() as int) =~= decimal(a));
        assert(container_of(id, b).skip(head.len() as int) =~= decimal(b));
        decimal_injective(a, b);
    }
}

/// Asks whether an image is there.
pub fn inspect_args(tag: &str) -> (r: Vec<String>)
    ensures
        texts(r@) == seq!["image"@, "inspect"@, tag@],
{
    let parts: [&str; 3] = ["image", "inspect", tag];
    assert(strs(parts@) =~= seq!["image"@, "inspect"@, tag@]);
    svec(&parts)
}

/// Loads an image from a tarball.
pub fn load_args(tar: &str) -> (r: Vec<String>)
    ensures
        texts(r@) == seq!["load"@, "-i"@, tar@],
{
    let parts: [&str; 3] = ["load", "-i", tar];
    assert(strs(parts@) =~= seq!["load"@, "-i"@, tar@]);
    svec(&parts)
}

/// Builds an image from the context on standard input.
pub fn build_args(tag: &str) -> (r: Vec<String>)
    ensures
        texts(r@) == seq!["build"@, "-t"@, tag@, "-"@],
{
    let parts: [&str; 4] = ["build", "-t", tag, "-"];
    assert(strs(parts@) =~= seq!["build"@, "-t"@, tag@, "-"@]);
    svec(&parts)
}

/// A published port: loopback only.
pub open spec fn published(host_port: nat, app_port: nat) -> Seq<char> {
    "127.0.0.1:"@ + decimal(host_port) + ":"@ + decimal(app_port)
}

/// Runs a container with its app port published on loopback.
pub fn run_args(container: &str, host_port: u16, app_port: u16, tag: &str) -> (r: Vec<String>)
    ensures
        texts(r@) == seq![
            "run"@,
            "-d"@,
            "--name"@,
            container@,
            "-p"@,
            published(host_port as nat, app_port as nat),
            tag@,
        ],
{
    let mut port: String = "127.0.0.1:".to_owned();
    push_decimal(&mut port, host_port as u64);
    port.append(":");
    push_decimal(&mut port, app_port as u64);
    let parts: [&str; 7] = ["run", "-d", "--name", container, "-p", &port, tag];
    assert(strs(parts@) =~= seq![
        "run"@,
        "-d"@,
        "--name"@,
        container@,
        "-p"@,
        published(host_port as nat, app_port as nat),
        tag@,
    ]);
    svec(&parts)
}

/// Stops a container.
pub fn stop_args(container: &str) -> (r: Vec<String>)
    ensures
        texts(r@) == seq!["stop"@, container@],
{
    let parts: [&str; 2] = ["stop", container];
    assert(strs(parts@) =~= seq!["stop"@, container@]);
    svec(&parts)
}

/// Removes a container, killing it first.
pub fn rm_args(container: &str) -> (r: Vec<String>)
    ensures
        texts(r@) == seq!["rm"@, "-f"@, container@],
{
    let parts: [&str; 3] = ["rm", "-f", container];
    assert(strs(parts@) =~= seq!["rm"@, "-f"@, container@]);
    svec(&parts)
}

/// Is the image built, or is one there?
#[derive(Debug, Clone, Copy, PartialEq, Eq, Structural)]
pub enum ImageCacheDecision {
    /// Build it.
    Build,
    /// Take the one that is there.
    Skip,
}

/// An image that is there is not built again.
pub fn image_cache_decision(image_exists: bool) -> (r: ImageCacheDecision)
    ensures
        r == if image_exists {
            ImageCacheDecision::Skip
        } else {
            ImageCacheDecision::Build
        },
{
    if image_exists {
        ImageCacheDecision::Skip
    } else {
        ImageCacheDecision::Build
    }
}

/// In an image name a lower-case letter, a digit, a dot, a hyphen and an
/// underscore stay as they are, an upper-case letter becomes its lower-case
/// one, and anything else a hyphen.
pub proof fn law_image_characters(c: char)
    ensures
        'a' <= c <= 'z' || '0' <= c <= '9' || c == '.' || c == '-' || c == '_' ==> image_char(c) == c,
        'A' <= c <= 'Z' ==> image_char(c) as int - 'a' as int == c as int - 'A' as int,
        !('a' <= c <= 'z' || '0' <= c <= '9' || c == '.' || c == '-' || c == '_' || 'A' <= c <= 'Z') ==> image_char(c) == '-',
{
}

/// A published port is one of the loopback address: what stands in front of
/// its two numbers is that address, and the first number is the host's.
pub proof fn law_published_on_loopback(host_port: nat, app_port: nat)
    ensures
        crate::text::begins_with(published(host_port, app_port), "127.0.0.1:"@ + decimal(host_port) + ":"@),
        crate::text::ends_in(published(host_port, app_port), ":"@ + decimal(app_port)),
{
    let p = published(host_port, app_port);
    let front = "127.0.0.1:"@ + decimal(host_port) + ":"@;
    assert(p.take(front.len() as int) =~= front);
    let back = ":"@ + decimal(app_port);
    assert(p.skip(p.len() - back.len()) =~= back);
}

} // verus!
