//! What is known of the device: how it is reached and what its screen
//! shows.

pub mod encoding;
pub mod screenshot;
pub mod connection;
pub mod device;
