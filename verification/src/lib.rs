//! Screen observation: the events that observers produce, and the decisions
//! that the mock, Screenpipe and native backends make while observing.

pub mod backends;
pub mod text;
pub mod types;

pub use types::{EventType, ObservationEvent, Timestamp, WindowContext};

pub use backends::mock::MockObserver;
