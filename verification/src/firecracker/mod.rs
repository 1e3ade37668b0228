//! Firecracker microVMs: identities, networking, snapshots and launches.
pub mod cpu_scope;
pub mod cred_restore;
pub mod egress_filter;
pub mod guest_nat;
pub mod headers;
pub mod identity;
pub mod launch;
pub mod link_allocator;
pub mod link_claims;
pub mod link_error;
pub mod link_laws;
pub mod live_links;
pub mod live_snapshot;
pub mod machine;
pub mod packet_filter;
pub mod pidfile;
pub mod port_plan;
pub mod protocol;
pub mod proxy_firewall;
pub mod runtime;
pub mod snapshot;
pub mod snapshot_decision;
pub mod stateful;
pub mod subnet;
pub mod vm_plan;
pub mod vm_run;
