# tabbify-supervisor

The app-layer supervisor of the Tabbify mesh. It fetches apps, runs them in
Firecracker microVMs or Docker containers, and serves each on its own mesh
address.

The project has two parts.

- `src/` is the library: every decision, verified with Verus. Texts, paths,
  addresses, JSON bodies and argument lists are computed here, and what happens
  in steps (a boot, a snapshot, a clone, a launch) is a state machine that says
  what to do next and takes back how it went.
- `app/` is `supervisord`: it reads the arguments, performs the steps, and
  holds the files, the processes and the sockets.

## Layout of `src/`

| Module | What it decides |
|---|---|
| `firecracker::subnet`, `identity`, `link_*`, `live_links` | Which `/30` link and TAP a microVM gets, and who holds it |
| `firecracker::vm_plan`, `vm_run`, `launch`, `runtime` | How a microVM is booted, restored or used for a build, and what is left when that fails |
| `firecracker::snapshot*`, `live_snapshot`, `cred_restore`, `stateful` | When a guest may be frozen and restored, and what becomes of its credentials |
| `firecracker::guest_nat`, `egress_filter`, `proxy_firewall` | Address translation and firewall rules |
| `firecracker::protocol`, `headers`, `port_plan`, `pidfile`, `cpu_scope` | API bodies, status lines, proxied headers, ports, pid files, CPU bounds |
| `docker` | Image names, docker commands, the launch of a container |
| `git` | A clone that keeps its token out of sight |
| `fetcher`, `manifest`, `host` | Artifacts, their manifests, and where an app listens |
| `mesh`, `mesh_self_mint`, `mesh_command` | Joining the mesh, renewing the token, bounded reboots |
| `boot` | The candidate gate and going back to the previous release |
| `text`, `words`, `number`, `order`, `path`, `ipv4`, `json`, ... | The vocabulary of the contracts |

The laws of the library are the public proof functions whose names begin with
`law_`. What is taken on trust from other crates and from the standard library
is marked `external_body` or `assume_specification`, with a comment that says
what is believed.
