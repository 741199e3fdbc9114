//! The client runtime: its options, finding the image, the application,
//! the loggers, the event loop and how the virtual machine is run.
pub mod options;
pub mod images;
pub mod application;
pub mod logger;
pub mod runtime;
pub mod version;
pub mod cli;
pub mod primitives;
