//! A verified description of a single GPU compute dispatch: which resources
//! are assembled, which commands are recorded, and how the run is driven from
//! adapter acquisition to the printed readback.
//!
//! The crate decides; it never touches a device. Every step that needs the
//! GPU is handed out as a plain value for the embedding program to perform,
//! and what came of it is taken back as an event.
//!
//! - [`init`] brings up the GPU: adapter, then device.
//! - [`resource`] and [`device`] describe the objects to create and keep the
//!   record of their creation.
//! - [`command`] holds commands, compute passes and the encoder.
//! - [`recorder`] assembles one dispatch and records its commands.
//! - [`driver`] sequences a run; [`run`] states what holds of whole runs.
//! - [`report`] formats what the program writes.

pub mod command;
pub mod config;
pub mod device;
pub mod driver;
pub mod error;
pub mod init;
pub mod recorder;
pub mod report;
pub mod resource;
pub mod run;

pub use device::Device;
pub use driver::{Action, Driver, Event};
pub use error::InitializeError;
pub use init::initialize_gpu;
pub use recorder::construct_compute_shader;
pub use run::real_main;
