//! Resolves this machine's identity on a Tailscale network from the
//! `tailscale status --json` report: a canonical set of addresses and an
//! optional DNS name.
pub mod ip;
pub mod addresses;
pub mod text;
pub mod report;
pub mod tailscale;

pub use ip::IpValue;
pub use tailscale::{parse_tailscale_status_json, TailscaleError, TailscaleInfo};
