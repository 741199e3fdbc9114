//! The interpreter side: primitive exports, interpreter parameters and
//! configuration, object pointers and the decisions of argument marshalling.
pub mod export;
pub mod parameters;
pub mod configuration;
pub mod proxy;
pub mod smalltalk;
pub mod marshalling;
pub mod interpreter;
