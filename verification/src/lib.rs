//! A simulated Blue Robotics sonar behind a byte stream: the framing of the
//! stream, the device's answers, and the echoes that it streams.

pub mod codec;
pub mod echo;
pub mod message;
pub mod noise;
pub mod payload;
pub mod run_loop;
pub mod stream;
