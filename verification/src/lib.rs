//! Supervision of hardware flashing jobs: device classification, the job
//! lifecycle, the job registry and the grammar of the tool's progress lines.

pub mod catalog;
pub mod containers;
pub mod device;
pub mod job;
pub mod keyed;
pub mod pattern;
pub mod progress;
pub mod registry;
pub mod system;
pub mod text;
