//! Driver for reading identification and diagnostic data from pluggable
//! fiber-optic transceiver modules (SFP form factor) over a shared,
//! multiplexed two-wire serial bus.
//!
//! The driver is split into three parts: the bus selector and transaction
//! engine ([`sfp::SFP`]), which run the multiplexed-bus addressing protocol
//! and the two-wire read sequences over an injected [`bus::TwoWire`]
//! capability; the page decoder ([`codec`] and [`alarms`]), which interprets
//! the fixed-layout 256-byte memory pages; and a simulated bus ([`sim::SimBus`])
//! against which the driver can be exercised without hardware.

pub mod alarms;
pub mod bus;
pub mod codec;
pub mod sfp;
pub mod sim;
pub mod summary;

pub use bus::BusFault;
pub use bus::BusOp;
pub use bus::Error;
pub use bus::Phase;
pub use bus::TwoWire;
pub use sfp::SFP;
pub use sim::SimBus;
