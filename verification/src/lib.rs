//! Host-side driver for the SMIMS VLFD FPGA board.
//!
//! The crate models the board's proprietary command/response protocol: a
//! mirrored configuration register bank ([`config::Config`]), a rolling XOR
//! stream cipher keyed by a device-issued table ([`cipher::CipherState`]),
//! the session layer that frames commands and keeps the mirror and cipher in
//! step ([`device::Device`]), and the bitstream upload pipeline
//! ([`program::Programmer`]).  Bulk USB transfers go through a small trusted
//! boundary around `rusb` in [`usb`].

pub mod bitstream;
pub mod cipher;
pub mod clock;
pub mod config;
pub mod constants;
pub mod device;
pub mod error;
pub mod licence;
pub mod program;
pub mod usb;

pub use config::Config;
pub use device::Device;
pub use device::IoSettings;
pub use error::Error;
pub use program::Programmer;
