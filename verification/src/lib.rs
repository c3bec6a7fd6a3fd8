//! Pressure-pad sensing on force-sensitive resistors.
//!
//! An analog-to-digital converter is polled for the reading of each pad. The
//! readings are turned into pressed and unpressed states by a threshold that
//! each channel either is given or finds for itself while it warms up, with a
//! debounce band around the threshold. Once per poll cycle the states of all
//! channels are packed into one snapshot, which is published in a single-slot
//! mailbox and served to network clients on request.
//!
//! The library holds the rules and leaves the acting to its caller:
//!
//! - [`adc`]: the register words of the converter;
//! - [`calibration`]: channels, warm-up and debounce;
//! - [`aggregate`]: the snapshot, its packing and its encoding on the wire;
//! - [`scheduler`]: the poll cycle as a state machine of events and actions;
//! - [`snapshot`]: the mailbox between the scheduler and the server;
//! - [`server`]: what the server does for a client;
//! - [`client`]: how a client writes down what it receives.

pub mod adc;
pub mod aggregate;
pub mod calibration;
pub mod client;
pub mod scheduler;
pub mod server;
pub mod snapshot;
