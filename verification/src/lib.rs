//! Building blocks for CMSIS-Pack flash algorithms: the capability contract an
//! MCU author implements, the single-instance session that the entry points
//! drive, and the byte images of the device and self-test descriptors.

pub mod algorithm;
pub mod device;
pub mod encoding;
pub mod error_code;
pub mod function;
pub mod name;
pub mod session;
