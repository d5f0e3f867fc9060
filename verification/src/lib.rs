//! Verified core of the rekos observatory bridge.
pub mod apps;
pub mod files;
pub mod fits;
pub mod indi;
pub mod json;
pub mod polar;
pub mod rig;
pub mod kstars;
pub mod scheduler;
pub mod sequence;
pub mod server;
pub mod session;
pub mod sky;
pub mod status;
pub mod store;
pub mod tabs;
pub mod text;
pub mod wire;
