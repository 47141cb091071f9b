//! Board-support binding layer for a LoRa radio module: the antenna-switch
//! state machine, the peripheral slots an external radio driver drives its
//! hardware through, and the capability table that names which operations
//! this board provides.

pub mod antenna;
pub mod longfi_bindings;
pub mod spi;
