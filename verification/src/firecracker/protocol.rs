//! The firecracker REST protocol: request bodies, request framing, and what a
//! reply says.
use vstd::prelude::*;
use crate::config::FcConfig;
use crate::ipv4::ipv4_text;
use crate::json::{json_bool, json_encoded, json_insert, json_number, json_object, json_of, json_text, json_to_vec, JsonModel};
use crate::manifest::Runtime;
use crate::number::{decimal, decimal_reads_back, is_digit, parse_unsigned, parsed, push_decimal};
use crate::sanitize::{lower_text, to_lower};
use crate::text::{concat2, has_text, occurs_at, text_eq, texts};
use crate::firecracker::link_error::{debug_quoted, debug_text};
use crate::words::{lines, split_lines, split_words, words};

verus! {

/// Does the host have KVM, by the answer of a probe?
pub fn kvm_available_with(check: impl Fn() -> bool) -> (r: bool)
    requires
        check.requires(()),
    ensures
        check.ensures((), r),
{
    check()
}

/// The vCPUs of an app: its own number, else the configured one.
pub fn resolve_vcpus(rt: &Runtime, cfg: &FcConfig) -> (r: u32)
    ensures
        r == match rt.vcpus {
            Some(n) => n,
            None => cfg.vcpus,
        },
{
    match rt.vcpus {
        Some(n) => n,
        None => cfg.vcpus,
    }
}

/// The port of an app: its own, else the one that its image exposes, else the
/// configured one.
pub open spec fn port_of(own: Option<u16>, image: Option<u16>, configured: u16) -> u16 {
    match own {
        Some(p) => p,
        None => match image {
            Some(p) => p,
            None => configured,
        },
    }
}

/// The port that an app is probed and served on.
pub fn resolve_port(rt: &Runtime, image_port: Option<u16>, cfg: &FcConfig) -> (r: u16)
    ensures
        r == port_of(rt.port, image_port, cfg.app_port),
{
    match rt.port {
        Some(p) => p,
        None => match image_port {
            Some(p) => p,
            None => cfg.app_port,
        },
    }
}

/// The port of a launch: a workspace always has the configured one, whatever
/// its manifest and its image say.
pub fn workspace_or_resolved_port(is_workspace: bool, rt: &Runtime, image_port: Option<u16>, cfg: &FcConfig) -> (r: u16)
    ensures
        r == if is_workspace {
            cfg.app_port
        } else {
            port_of(rt.port, image_port, cfg.app_port)
        },
{
    if is_workspace {
        cfg.app_port
    } else {
        resolve_port(rt, image_port, cfg)
    }
}

/// The guest kernel of an app: its own, else the configured one.
pub fn resolve_kernel(rt: &Runtime, cfg: &FcConfig) -> (r: String)
    ensures
        r@ == match rt.kernel {
            Some(k) => k@,
            None => cfg.kernel@,
        },
{
    match &rt.kernel {
        Some(k) => k.clone(),
        None => cfg.kernel.clone(),
    }
}

// ---- request bodies -------------------------------------------------------

/// What the body of `PUT /machine-config` holds.
pub open spec fn machine_config(vcpus: nat, mem_size_mib: nat) -> JsonModel {
    JsonModel::Object(
        map![
            "vcpu_count"@ => JsonModel::Number(decimal(vcpus)),
            "mem_size_mib"@ => JsonModel::Number(decimal(mem_size_mib)),
            "smt"@ => JsonModel::Bool(false),
        ],
    )
}

/// The body of `PUT /machine-config`.
pub fn machine_config_body(vcpus: u32, mem_size_mib: u32) -> (r: serde_json::Value)
    ensures
        json_of(r) == machine_config(vcpus as nat, mem_size_mib as nat),
{
    let mut o = json_object();
    json_insert(&mut o, "vcpu_count", json_number(vcpus as u64));
    json_insert(&mut o, "mem_size_mib", json_number(mem_size_mib as u64));
    json_insert(&mut o, "smt", json_bool(false));
    o
}

/// The kernel command line: serial console, explicit root and init, and the
/// guest's static address.
pub open spec fn boot_args(guest_ip: Seq<char>, host_ip: Seq<char>) -> Seq<char> {
    "console=ttyS0 reboot=k panic=1 pci=off root=/dev/vda rw init=/init ip="@ + guest_ip + "::"@ + host_ip
        + ":255.255.255.252::eth0:off"@
}

/// What the body of `PUT /boot-source` holds.
pub open spec fn boot_source(kernel: Seq<char>, guest_ip: Seq<char>, host_ip: Seq<char>) -> JsonModel {
    JsonModel::Object(
        map![
            "kernel_image_path"@ => JsonModel::Text(kernel),
            "boot_args"@ => JsonModel::Text(boot_args(guest_ip, host_ip)),
        ],
    )
}

/// The body of `PUT /boot-source`.
pub fn boot_source_body(kernel_image_path: &str, guest_ip: &str, host_ip: &str) -> (r: serde_json::Value)
    ensures
        json_of(r) == boot_source(kernel_image_path@, guest_ip@, host_ip@),
{
    let mut args = "console=ttyS0 reboot=k panic=1 pci=off root=/dev/vda rw init=/init ip=".to_owned();
    args.append(guest_ip);
    args.append("::");
    args.append(host_ip);
    args.append(":255.255.255.252::eth0:off");
    let mut o = json_object();
    json_insert(&mut o, "kernel_image_path", json_text(kernel_image_path));
    json_insert(&mut o, "boot_args", json_text(&args));
    o
}

/// What the body of `PUT /drives/<id>` holds.
pub open spec fn drive(id: Seq<char>, path: Seq<char>, is_root: bool, read_only: bool) -> JsonModel {
    JsonModel::Object(
        map![
            "drive_id"@ => JsonModel::Text(id),
            "path_on_host"@ => JsonModel::Text(path),
            "is_root_device"@ => JsonModel::Bool(is_root),
            "is_read_only"@ => JsonModel::Bool(read_only),
        ],
    )
}

/// The body of a drive request.
fn drive_body(id: &str, path_on_host: &str, is_root: bool, read_only: bool) -> (r: serde_json::Value)
    ensures
        json_of(r) == drive(id@, path_on_host@, is_root, read_only),
{
    let mut o = json_object();
    json_insert(&mut o, "drive_id", json_text(id));
    json_insert(&mut o, "path_on_host", json_text(path_on_host));
    json_insert(&mut o, "is_root_device", json_bool(is_root));
    json_insert(&mut o, "is_read_only", json_bool(read_only));
    o
}

/// The body of `PUT /drives/rootfs`: the root device.
pub fn rootfs_drive_body(path_on_host: &str, read_only: bool) -> (r: serde_json::Value)
    ensures
        json_of(r) == drive("rootfs"@, path_on_host@, true, read_only),
{
    drive_body("rootfs", path_on_host, true, read_only)
}

/// The body of `PUT /drives/<id>` for a further, non-root device.
pub fn aux_drive_body(drive_id: &str, path_on_host: &str, read_only: bool) -> (r: serde_json::Value)
    ensures
        json_of(r) == drive(drive_id@, path_on_host@, false, read_only),
{
    drive_body(drive_id, path_on_host, false, read_only)
}

/// What the body of `PUT /network-interfaces/eth0` holds.
pub open spec fn network_iface(tap: Seq<char>, mac: Seq<char>) -> JsonModel {
    JsonModel::Object(
        map![
            "iface_id"@ => JsonModel::Text("eth0"@),
            "host_dev_name"@ => JsonModel::Text(tap),
            "guest_mac"@ => JsonModel::Text(mac),
        ],
    )
}

/// The body of `PUT /network-interfaces/eth0`.
pub fn network_iface_body(host_dev_name: &str, guest_mac: &str) -> (r: serde_json::Value)
    ensures
        json_of(r) == network_iface(host_dev_name@, guest_mac@),
{
    let mut o = json_object();
    json_insert(&mut o, "iface_id", json_text("eth0"));
    json_insert(&mut o, "host_dev_name", json_text(host_dev_name));
    json_insert(&mut o, "guest_mac", json_text(guest_mac));
    o
}

/// What the body of `PUT /actions` holds when it boots the VM.
pub open spec fn instance_start() -> JsonModel {
    JsonModel::Object(map!["action_type"@ => JsonModel::Text("InstanceStart"@)])
}

/// The body of `PUT /actions` that boots the VM.
pub fn instance_start_body() -> (r: serde_json::Value)
    ensures
        json_of(r) == instance_start(),
{
    let mut o = json_object();
    json_insert(&mut o, "action_type", json_text("InstanceStart"));
    o
}

/// What the body of `PATCH /vm` holds.
pub open spec fn vm_state(state: Seq<char>) -> JsonModel {
    JsonModel::Object(map!["state"@ => JsonModel::Text(state)])
}

/// The body of `PATCH /vm` that pauses the VM.
pub fn pause_body() -> (r: serde_json::Value)
    ensures
        json_of(r) == vm_state("Paused"@),
{
    let mut o = json_object();
    json_insert(&mut o, "state", json_text("Paused"));
    o
}

/// The body of `PATCH /vm` that resumes the VM.
pub fn resume_body() -> (r: serde_json::Value)
    ensures
        json_of(r) == vm_state("Resumed"@),
{
    let mut o = json_object();
    json_insert(&mut o, "state", json_text("Resumed"));
    o
}

/// What the body of `PUT /snapshot/create` holds.
pub open spec fn snapshot_create(snapshot_path: Seq<char>, mem_file_path: Seq<char>) -> JsonModel {
    JsonModel::Object(
        map![
            "snapshot_type"@ => JsonModel::Text("Full"@),
            "snapshot_path"@ => JsonModel::Text(snapshot_path),
            "mem_file_path"@ => JsonModel::Text(mem_file_path),
        ],
    )
}

/// The body of `PUT /snapshot/create`.
pub fn snapshot_create_body(snapshot_path: &str, mem_file_path: &str) -> (r: serde_json::Value)
    ensures
        json_of(r) == snapshot_create(snapshot_path@, mem_file_path@),
{
    let mut o = json_object();
    json_insert(&mut o, "snapshot_type", json_text("Full"));
    json_insert(&mut o, "snapshot_path", json_text(snapshot_path));
    json_insert(&mut o, "mem_file_path", json_text(mem_file_path));
    o
}

/// What the body of `PUT /snapshot/load` holds.
pub open spec fn snapshot_load(snapshot_path: Seq<char>, mem_file_path: Seq<char>, resume: bool) -> JsonModel {
    JsonModel::Object(
        map![
            "snapshot_path"@ => JsonModel::Text(snapshot_path),
            "mem_backend"@ => JsonModel::Object(
                map![
                    "backend_path"@ => JsonModel::Text(mem_file_path),
                    "backend_type"@ => JsonModel::Text("File"@),
                ],
            ),
            "resume_vm"@ => JsonModel::Bool(resume),
        ],
    )
}

/// The body of `PUT /snapshot/load`.
pub fn snapshot_load_body(snapshot_path: &str, mem_file_path: &str, resume: bool) -> (r: serde_json::Value)
    ensures
        json_of(r) == snapshot_load(snapshot_path@, mem_file_path@, resume),
{
    let mut backend = json_object();
    json_insert(&mut backend, "backend_path", json_text(mem_file_path));
    json_insert(&mut backend, "backend_type", json_text("File"));
    let mut o = json_object();
    json_insert(&mut o, "snapshot_path", json_text(snapshot_path));
    json_insert(&mut o, "mem_backend", backend);
    json_insert(&mut o, "resume_vm", json_bool(resume));
    o
}

/// The kernel command line never turns ACPI off, whatever the addresses: a
/// guest without it spins instead of idling.
pub proof fn law_boot_args_never_disable_acpi(guest: u32, host: u32)
    ensures
        !has_text(boot_args(ipv4_text(guest as nat), ipv4_text(host as nat)), "acpi=off"@),
{
    let g = ipv4_text(guest as nat);
    let h = ipv4_text(host as nat);
    let head = "console=ttyS0 reboot=k panic=1 pci=off root=/dev/vda rw init=/init ip="@;
    let sep = "::"@;
    let tail = ":255.255.255.252::eth0:off"@;
    let s = boot_args(g, h);
    reveal_strlit("console=ttyS0 reboot=k panic=1 pci=off root=/dev/vda rw init=/init ip=");
    reveal_strlit("::");
    reveal_strlit(":255.255.255.252::eth0:off");
    reveal_strlit("acpi=off");
    no_letter_a(guest);
    no_letter_a(host);
    assert forall|i: int| #[trigger] occurs_at(s, "acpi=off"@, i) implies false by {
        let sub = s.subrange(i, i + 8);
        assert(sub[0] == s[i] && sub[1] == s[i + 1]);
        assert(s[i] == 'a' && s[i + 1] == 'c');
        if i < head.len() {
            assert(s[i] == head[i]);
            assert(i + 1 < head.len() ==> s[i + 1] == head[i + 1]);
            assert(i == 24 || i == 51);
        } else if i < head.len() + g.len() {
            assert(s[i] == g[i - head.len()]);
        } else if i < head.len() + g.len() + 2 {
            assert(s[i] == sep[i - head.len() - g.len()]);
        } else if i < head.len() + g.len() + 2 + h.len() {
            assert(s[i] == h[i - head.len() - g.len() - 2]);
        } else {
            assert(s[i] == tail[i - head.len() - g.len() - 2 - h.len()]);
        }
    }
}

/// An address has no letter in it.
proof fn no_letter_a(ip: u32)
    ensures
        forall|j: int| 0 <= j < ipv4_text(ip as nat).len() ==> ipv4_text(ip as nat)[j] != 'a',
{
    let n = ip as nat;
    let d0 = decimal(n / 16777216);
    let d1 = decimal(n / 65536 % 256);
    let d2 = decimal(n / 256 % 256);
    let d3 = decimal(n % 256);
    decimal_reads_back(n / 16777216);
    decimal_reads_back(n / 65536 % 256);
    decimal_reads_back(n / 256 % 256);
    decimal_reads_back(n % 256);
    let t = ipv4_text(n);
    assert forall|j: int| 0 <= j < t.len() implies t[j] != 'a' by {
        if j < d0.len() {
            assert(t[j] == d0[j] && is_digit(d0[j]));
        } else if j == d0.len() {
        } else if j < d0.len() + 1 + d1.len() {
            let k = j - d0.len() - 1;
            assert(t[j] == d1[k] && is_digit(d1[k]));
        } else if j == d0.len() + 1 + d1.len() {
        } else if j < d0.len() + 1 + d1.len() + 1 + d2.len() {
            let k = j - d0.len() - d1.len() - 2;
            assert(t[j] == d2[k] && is_digit(d2[k]));
        } else if j == d0.len() + 1 + d1.len() + 1 + d2.len() {
        } else {
            let k = j - d0.len() - d1.len() - d2.len() - 3;
            assert(t[j] == d3[k] && is_digit(d3[k]));
        }
    }
}

// ---- hop-by-hop headers -----------------------------------------------------

/// The headers that concern one connection only.
pub open spec fn hop_by_hop_names() -> Seq<Seq<char>> {
    seq![
        "connection"@,
        "keep-alive"@,
        "proxy-authenticate"@,
        "proxy-authorization"@,
        "te"@,
        "trailer"@,
        "transfer-encoding"@,
        "upgrade"@,
        "host"@,
    ]
}

/// Does the header concern one connection only? Case does not matter.
pub open spec fn hop_by_hop(name: Seq<char>) -> bool {
    hop_by_hop_names().contains(lower_text(name))
}

/// Does the header concern one connection only? Case does not matter.
pub fn is_hop_by_hop(name: &str) -> (r: bool)
    ensures
        r == hop_by_hop(name@),
        r <==> ({
            let low = lower_text(name@);
            ||| low == "connection"@
            ||| low == "keep-alive"@
            ||| low == "proxy-authenticate"@
            ||| low == "proxy-authorization"@
            ||| low == "te"@
            ||| low == "trailer"@
            ||| low == "transfer-encoding"@
            ||| low == "upgrade"@
            ||| low == "host"@
        }),
{
    proof {
        law_hop_by_hop_names(name@);
    }
    let names: [&str; 9] = [
        "connection",
        "keep-alive",
        "proxy-authenticate",
        "proxy-authorization",
        "te",
        "trailer",
        "transfer-encoding",
        "upgrade",
        "host",
    ];
    let low = to_lower(name);
    let ghost all = hop_by_hop_names();
    assert(all =~= crate::text::strs(names@));
    let mut i: usize = 0;
    while i < 9
        invariant
            i <= 9,
            all == crate::text::strs(names@),
            all == hop_by_hop_names(),
            low@ == lower_text(name@),
            forall|j: int| 0 <= j < i ==> all[j] != low@,
        decreases 9 - i,
    {
        assert(all[i as int] == names@[i as int]@);
        if text_eq(names[i], &low) {
            assert(all.contains(low@));
            return true;
        }
        i += 1;
    }
    assert(!all.contains(low@));
    false
}

/// The headers that concern one connection only are these nine, in any case of
/// their letters.
pub proof fn law_hop_by_hop_names(name: Seq<char>)
    ensures
        hop_by_hop(name) <==> ({
            let low = lower_text(name);
            ||| low == "connection"@
            ||| low == "keep-alive"@
            ||| low == "proxy-authenticate"@
            ||| low == "proxy-authorization"@
            ||| low == "te"@
            ||| low == "trailer"@
            ||| low == "transfer-encoding"@
            ||| low == "upgrade"@
            ||| low == "host"@
        }),
{
    let all = hop_by_hop_names();
    let low = lower_text(name);
    assert(all.len() == 9);
    assert(all[0] == "connection"@ && all[1] == "keep-alive"@ && all[2] == "proxy-authenticate"@);
    assert(all[3] == "proxy-authorization"@ && all[4] == "te"@ && all[5] == "trailer"@);
    assert(all[6] == "transfer-encoding"@ && all[7] == "upgrade"@ && all[8] == "host"@);
    if all.contains(low) {
        let i = choose|i: int| 0 <= i < all.len() && all[i] == low;
        assert(0 <= i < 9);
    }
}

/// A header is let through if its name is as long as none of the nine, or
/// begins as none of them does.
proof fn not_hop_by_hop(name: Seq<char>, first: char)
    requires
        name.len() > 0,
        name[0] == first,
        !('A' <= first <= 'Z'),
        first != 'c' && first != 'k' && first != 'p' && first != 't' && first != 'u' && first != 'h',
    ensures
        !hop_by_hop(name),
{
    law_hop_by_hop_names(name);
    reveal_strlit("connection");
    reveal_strlit("keep-alive");
    reveal_strlit("proxy-authenticate");
    reveal_strlit("proxy-authorization");
    reveal_strlit("te");
    reveal_strlit("trailer");
    reveal_strlit("transfer-encoding");
    reveal_strlit("upgrade");
    reveal_strlit("host");
    assert(lower_text(name)[0] == first);
    assert("connection"@[0] == 'c' && "keep-alive"@[0] == 'k' && "proxy-authenticate"@[0] == 'p');
    assert("proxy-authorization"@[0] == 'p' && "te"@[0] == 't' && "trailer"@[0] == 't');
    assert("transfer-encoding"@[0] == 't' && "upgrade"@[0] == 'u' && "host"@[0] == 'h');
}

/// The headers that carry what a caller and an app say to each other concern
/// more than one connection.
pub proof fn law_end_to_end_names()
    ensures
        !hop_by_hop("authorization"@),
        !hop_by_hop("cookie"@),
        !hop_by_hop("set-cookie"@),
        !hop_by_hop("content-type"@),
        !hop_by_hop("content-length"@),
        !hop_by_hop("content-encoding"@),
        !hop_by_hop("cache-control"@),
        !hop_by_hop("accept"@),
        !hop_by_hop("accept-encoding"@),
        !hop_by_hop("location"@),
        !hop_by_hop("origin"@),
        !hop_by_hop("referer"@),
        !hop_by_hop("user-agent"@),
        !hop_by_hop("etag"@),
        !hop_by_hop("x-forwarded-for"@),
{
    reveal_strlit("authorization");
    reveal_strlit("set-cookie");
    reveal_strlit("accept");
    reveal_strlit("accept-encoding");
    reveal_strlit("location");
    reveal_strlit("origin");
    reveal_strlit("referer");
    reveal_strlit("etag");
    reveal_strlit("x-forwarded-for");
    not_hop_by_hop("authorization"@, 'a');
    not_hop_by_hop("set-cookie"@, 's');
    not_hop_by_hop("accept"@, 'a');
    not_hop_by_hop("accept-encoding"@, 'a');
    not_hop_by_hop("location"@, 'l');
    not_hop_by_hop("origin"@, 'o');
    not_hop_by_hop("referer"@, 'r');
    not_hop_by_hop("etag"@, 'e');
    not_hop_by_hop("x-forwarded-for"@, 'x');
    reveal_strlit("cookie");
    reveal_strlit("content-type");
    reveal_strlit("content-length");
    reveal_strlit("content-encoding");
    reveal_strlit("cache-control");
    reveal_strlit("user-agent");
    reveal_strlit("connection");
    reveal_strlit("keep-alive");
    reveal_strlit("proxy-authenticate");
    reveal_strlit("proxy-authorization");
    reveal_strlit("te");
    reveal_strlit("trailer");
    reveal_strlit("transfer-encoding");
    reveal_strlit("upgrade");
    reveal_strlit("host");
    law_hop_by_hop_names("cookie"@);
    law_hop_by_hop_names("content-type"@);
    law_hop_by_hop_names("content-length"@);
    law_hop_by_hop_names("content-encoding"@);
    law_hop_by_hop_names("cache-control"@);
    law_hop_by_hop_names("user-agent"@);
    let c = "connection"@;
    assert(c.len() == 10 && "keep-alive"@.len() == 10 && "te"@.len() == 2 && "trailer"@.len() == 7 && "upgrade"@.len() == 7);
    assert("proxy-authenticate"@.len() == 18 && "proxy-authorization"@.len() == 19 && "transfer-encoding"@.len() == 17);
    assert("host"@.len() == 4);
    assert(lower_text("cookie"@).len() == 6);
    assert(lower_text("content-type"@).len() == 12);
    assert(lower_text("content-length"@).len() == 14);
    assert(lower_text("content-encoding"@).len() == 16);
    assert(lower_text("cache-control"@).len() == 13);
    assert("user-agent"@.len() == 10 && lower_text("user-agent"@)[0] == 'u');
    assert(c[0] == 'c' && "keep-alive"@[0] == 'k');
}

// ---- requests and replies ---------------------------------------------------

/// The head of an API request.
pub open spec fn request_head_text(verb: Seq<char>, path: Seq<char>, body_len: nat) -> Seq<char> {
    verb + " "@ + path
        + " HTTP/1.1\r\nHost: localhost\r\nAccept: application/json\r\nContent-Type: application/json\r\nContent-Length: "@
        + decimal(body_len) + "\r\nConnection: close\r\n\r\n"@
}

/// The head of an API request.
pub fn request_head(verb: &str, path: &str, body_len: usize) -> (r: String)
    ensures
        r@ == request_head_text(verb@, path@, body_len as nat),
{
    let mut out = verb.to_owned();
    out.append(" ");
    out.append(path);
    out.append(
        " HTTP/1.1\r\nHost: localhost\r\nAccept: application/json\r\nContent-Type: application/json\r\nContent-Length: ",
    );
    push_decimal(&mut out, body_len as u64);
    out.append("\r\nConnection: close\r\n\r\n");
    out
}

/// An API request, ready for the socket: the head, and the encoded body whose
/// length the head gives.
pub fn frame_request(verb: &str, path: &str, body: &serde_json::Value) -> (r: Vec<u8>)
    ensures
        r@ == vstd::utf8::encode_utf8(request_head_text(verb@, path@, json_encoded(json_of(*body)).len())) + json_encoded(
            json_of(*body),
        ),
{
    let payload = json_to_vec(body);
    let head = request_head(verb, path, payload.len());
    let mut out = head.as_str().as_bytes_vec();
    let mut payload = payload;
    out.append(&mut payload);
    out
}

/// Does the status of an API reply mean success?
pub fn api_status_ok(status: u16) -> (r: bool)
    ensures
        r == (200 <= status < 300),
{
    status >= 200 && status < 300
}

/// What is said of an API call that did not succeed; `None` is one that was
/// not answered in time.
pub open spec fn api_fault_text(verb: Seq<char>, path: Seq<char>, status: Option<u16>) -> Seq<char> {
    match status {
        Some(s) => "firecracker API "@ + verb + " "@ + path + " returned HTTP "@ + decimal(s as nat),
        None => "firecracker API timed out on "@ + verb + " "@ + path,
    }
}

/// Judges an API call by the status of its reply, if it came in time.
pub fn judge_api_call(verb: &str, path: &str, status: Option<u16>) -> (r: Result<(), String>)
    ensures
        r is Ok <==> status is Some && 200 <= status->Some_0 < 300,
        r is Err ==> r->Err_0@ == api_fault_text(verb@, path@, status),
{
    match status {
        Some(s) => {
            if api_status_ok(s) {
                return Ok(());
            }
            let mut out: String = "firecracker API ".to_owned();
            out.append(verb);
            out.append(" ");
            out.append(path);
            out.append(" returned HTTP ");
            push_decimal(&mut out, s as u64);
            Err(out)
        },
        None => {
            let mut out: String = "firecracker API timed out on ".to_owned();
            out.append(verb);
            out.append(" ");
            out.append(path);
            Err(out)
        },
    }
}

/// Why the head of a reply has no status.
#[derive(Debug)]
pub enum StatusError {
    /// The reply is empty.
    Empty,
    /// The first line has no second word.
    Malformed(String),
    /// The second word is no status code; also what is wrong with it.
    BadCode(String, String),
}

impl StatusError {
    /// What is said of the error.
    pub fn message(&self) -> (r: String)
        ensures
            r@ == match self {
                StatusError::Empty => "empty firecracker API response"@,
                StatusError::Malformed(line) => "malformed status line "@ + debug_quoted(line@),
                StatusError::BadCode(line, why) => "bad status code in "@ + debug_quoted(line@) + ": "@ + why@,
            },
    {
        match self {
            StatusError::Empty => "empty firecracker API response".to_owned(),
            StatusError::Malformed(line) => concat2("malformed status line ", &debug_text(line)),
            StatusError::BadCode(line, why) => {
                let mut out = concat2("bad status code in ", &debug_text(line));
                out.append(": ");
                out.append(why);
                out
            },
        }
    }
}

/// Bytes read as text, with what is no UTF-8 replaced.
pub uninterp spec fn utf8_lossy(bytes: Seq<u8>) -> Seq<char>;

/// `String::from_utf8_lossy` decodes UTF-8 and replaces what is none. Bytes
/// that are UTF-8 are decoded as they are; the replacements are left to the name.
#[verifier::external_body]
pub(crate) fn lossy_text(bytes: &[u8]) -> (r: String)
    ensures
        r@ == utf8_lossy(bytes@),
        vstd::utf8::valid_utf8(bytes@) ==> r@ == vstd::utf8::decode_utf8(bytes@),
{
    String::from_utf8_lossy(bytes).into_owned()
}

/// What is wrong with a text that is no number up to 65535.
pub uninterp spec fn u16_fault(text: Seq<char>) -> Seq<char>;

/// `str::parse::<u16>` fails on a text that is no such number, and the error
/// says what is wrong with it. Which words it chooses is left to the name.
#[verifier::external_body]
fn u16_fault_text(text: &str) -> (r: String)
    requires
        parsed(text@, 65535) is None,
    ensures
        r@ == u16_fault(text@),
{
    match text.parse::<u16>() {
        Ok(_) => String::new(),
        Err(e) => e.to_string(),
    }
}

/// The status in the head of a reply: the second word of its first line, as a
/// number up to 65535.
pub open spec fn status_result(text: Seq<char>, r: Result<u16, StatusError>) -> bool {
    if lines(text).len() == 0 {
        r is Err && r->Err_0 is Empty
    } else {
        let line = lines(text)[0];
        let ws = words(line);
        if ws.len() < 2 {
            r matches Err(StatusError::Malformed(l)) && l@ == line
        } else {
            match parsed(ws[1], 65535) {
                Some(n) => r is Ok && r->Ok_0 == n,
                None => r matches Err(StatusError::BadCode(l, why)) && l@ == line && why@ == u16_fault(ws[1]),
            }
        }
    }
}

/// The status in the text of a reply's head.
pub fn status_of_text(text: &str) -> (r: Result<u16, StatusError>)
    ensures
        status_result(text@, r),
{
    let ls = split_lines(text);
    assert(texts(ls@).len() == ls@.len());
    if ls.len() == 0 {
        return Err(StatusError::Empty);
    }
    assert(texts(ls@)[0] == ls@[0]@);
    let ws = split_words(&ls[0]);
    assert(texts(ws@).len() == ws@.len());
    if ws.len() < 2 {
        return Err(StatusError::Malformed(ls[0].clone()));
    }
    assert(texts(ws@)[1] == ws@[1]@);
    match parse_unsigned(&ws[1], 65535) {
        Some(n) => Ok(n as u16),
        None => Err(StatusError::BadCode(ls[0].clone(), u16_fault_text(&ws[1]))),
    }
}

/// The status in the raw head of a reply.
pub fn parse_status_line(raw: &[u8]) -> (r: Result<u16, StatusError>)
    ensures
        status_result(utf8_lossy(raw@), r),
        vstd::utf8::valid_utf8(raw@) ==> status_result(vstd::utf8::decode_utf8(raw@), r),
{
    let text = lossy_text(raw);
    status_of_text(&text)
}

/// Does the blank line that ends a head stand at place `i`?
pub open spec fn head_end_at(buf: Seq<u8>, i: int) -> bool {
    0 <= i && i + 4 <= buf.len() && buf[i] == 13 && buf[i + 1] == 10 && buf[i + 2] == 13 && buf[i + 3] == 10
}

/// Is the head of the reply complete?
pub open spec fn head_complete(buf: Seq<u8>) -> bool {
    exists|i: int| #[trigger] head_end_at(buf, i)
}

/// Is the head of the reply complete?
pub fn is_head_complete(buf: &Vec<u8>) -> (r: bool)
    ensures
        r == head_complete(buf@),
{
    let mut i: usize = 0;
    while i < buf.len() && buf.len() - i >= 4
        invariant
            i <= buf@.len(),
            forall|j: int| 0 <= j < i ==> !head_end_at(buf@, j),
        decreases buf@.len() - i,
    {
        if buf[i] == 13 && buf[i + 1] == 10 && buf[i + 2] == 13 && buf[i + 3] == 10 {
            assert(head_end_at(buf@, i as int));
            return true;
        }
        i += 1;
    }
    false
}

/// Takes one chunk that was read from the API socket, and says whether
/// reading is over: at the end of the stream, or once the head is complete.
/// The peer keeps the socket open, so the end of the head must be enough.
pub fn head_read_done(buf: &mut Vec<u8>, chunk: &[u8]) -> (done: bool)
    ensures
        final(buf)@ == old(buf)@ + chunk@,
        done == (chunk@.len() == 0 || head_complete(old(buf)@ + chunk@)),
{
    if chunk.len() == 0 {
        assert(buf@ =~= old(buf)@ + chunk@);
        return true;
    }
    let mut more = vstd::slice::slice_to_vec(chunk);
    buf.append(&mut more);
    is_head_complete(buf)
}

/// Where a request is proxied to: the guest's base address and the path and
/// query as they came, or the root.
pub fn proxy_url(guest_base: &str, path_and_query: Option<&str>) -> (r: String)
    ensures
        r@ == guest_base@ + match path_and_query {
            Some(pq) => pq@,
            None => "/"@,
        },
{
    match path_and_query {
        Some(pq) => concat2(guest_base, pq),
        None => concat2(guest_base, "/"),
    }
}

/// A head is complete once a blank line ends it, whatever follows, and not
/// before: without two line feeds it never is.
pub proof fn law_blank_line_ends_the_head(head: Seq<u8>, more: Seq<u8>)
    ensures
        head_complete(head + seq![13u8, 10, 13, 10] + more),
        (forall|i: int, j: int| 0 <= i < j < head.len() ==> head[i] != 10 || head[j] != 10) ==> !head_complete(head),
        head_complete(head) ==> head_complete(head + more),
{
    let s = head + seq![13u8, 10, 13, 10] + more;
    assert(head_end_at(s, head.len() as int));
    if head_complete(head) {
        let i = choose|i: int| #[trigger] head_end_at(head, i);
        assert(head_end_at(head + more, i));
        assert(head[i + 1] == 10 && head[i + 3] == 10);
    }
}

} // verus!
