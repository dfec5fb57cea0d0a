//! Conversions between Swiss Ephemeris outputs and `rubrum` chart types.

pub mod adapter;
