//! Decoding of the advertisement frames broadcast by Aranet sensors, and the
//! rule that tells a fresh measurement from a re-broadcast one.

pub mod clock;
pub mod config;
pub mod monitor;
pub mod reading;
pub mod text;
pub mod tracker;
