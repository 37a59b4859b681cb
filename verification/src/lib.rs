//! Shared radio types and the verified decision logic of the URC-200
//! driver, the scratch-slot tune funnel and the SDR waterfall feed.
//!
//! The I/O around this logic (serial transport, async dispatch, HTTP and
//! WebSocket routes) lives outside the library and hands it plain values.

use vstd::prelude::*;

pub mod caps;
pub mod error;
pub mod exchange;
pub mod laws;
pub mod mode;
pub mod radio;
pub mod scratch;
pub mod serial;
pub mod urc200;
pub mod waterfall;

pub use caps::{Capabilities, FeatureFlags, FreqRange};
pub use error::{DriverError, RadioError};
pub use mode::{DigitalMode, Mode};
pub use radio::{RadioState, TuneRequest};
