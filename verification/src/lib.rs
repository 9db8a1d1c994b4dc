//! The extensibility core of a multimedia toolkit: how codecs and container
//! formats are described, registered, detected and driven.
//!
//! Nothing here encodes or parses media. Concrete encoders and demuxers are
//! plugins that implement the capability traits of [`encoder`] and
//! [`demuxer`]; this crate holds what is common to all of them. What the
//! core decides is stated in full in the contracts and proved; what a plugin
//! decides is stated as far as the plugin commits to its answers:
//!
//! - [`registry`]: the table from a codec family to the descriptors
//!   registered under it, in order of registration;
//! - [`selection`]: the rule by which one container format is chosen from
//!   the confidence scores of all candidates;
//! - [`demuxer`]: format detection over a list of builders, on top of that
//!   rule;
//! - [`encoder`]: the context through which a caller drives one encoder.

pub mod data;
pub mod demuxer;
pub mod encoder;
pub mod error;
pub mod instance;
pub mod registry;
pub mod selection;
