//! The adapter's conversions, one module per kind of Swiss Ephemeris output.

pub mod error;

pub mod chart;

pub mod body;
pub mod calc;
pub mod house_system;
pub mod houses;
pub mod zodiac;
