pub mod hetzner;
pub mod orca;
