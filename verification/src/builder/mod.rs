//! The bundle builder: build options, third-party libraries and the layout
//! of bundles for each platform.
pub mod target;
pub mod location;
pub mod options;
pub mod library;
pub mod builds;
pub mod definitions;
pub mod native;
pub mod cairo;
pub mod legacy;
pub mod error;
pub mod bundlers;
pub mod files;
pub mod templates;
