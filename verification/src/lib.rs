//! Host-side directive types for driving an ArC2 memristor-testing
//! instrument.
//!
//! The instrument itself is controlled by a native library; this crate holds
//! the plain-data directives that a host runtime hands to it (bias order,
//! read timing, wait conditions, auxiliary DAC functions and the like),
//! together with the argument validation and text conversions that the
//! binding layer performs before any call reaches the hardware.

mod channels;
mod clusters;
mod directives;
mod error;
mod text;
mod waitfor;

pub use channels::low_channels;
pub use clusters::CLUSTER_COUNT;
pub use clusters::check_cluster_timings;
pub use directives::AuxDACFn;
pub use directives::BiasOrder;
pub use directives::ControlMode;
pub use directives::DataMode;
pub use directives::ReadAfter;
pub use directives::ReadAt;
pub use directives::ReadType;
pub use directives::lemma_read_after_parse_is_name;
pub use directives::lemma_read_after_round_trip;
pub use error::DirectiveError;
pub use text::str_eq;
pub use waitfor::MAX_SPAN_NANOS;
pub use waitfor::NANOS_PER_MILLI;
pub use waitfor::NANOS_PER_SEC;
pub use waitfor::WaitFor;
pub use waitfor::split_nanos;
