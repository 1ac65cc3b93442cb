//! Start-up rules of the wallet shell: which native capabilities a build
//! registers with the host framework, and the order in which start-up runs.
pub mod platform;
pub mod plugins;
pub mod startup;
