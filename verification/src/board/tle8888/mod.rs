//! TLE8888 smart low-side driver: SPI command encoding.

pub mod command;
