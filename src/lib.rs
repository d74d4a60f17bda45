//! Host-side driver logic for JTAG adapters built on WCH CH347/CH34x USB
//! bridge chips: the bit-banged command encoding, the clock-speed
//! negotiation and the framing of the bulk transfers.
pub mod command;
pub mod driver;
pub mod frame;
pub mod speed;
