//! Client-side update engine: reconciles an installed component's version
//! against a remote manifest, plans the resulting download, and drives
//! hash-verified binary patch application through a typed state machine.

pub mod diff;
pub mod game;
pub mod install;
pub mod manifest;
pub mod patch;
pub mod scan;
pub mod telemetry;
pub mod text;
pub mod version;
pub mod voice;
