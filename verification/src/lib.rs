//! Verified core of a control server for SO101 robotic arms.
pub mod calibration;
pub mod cameras;
pub mod cli;
pub mod commands;
pub mod config;
pub mod display;
pub mod error;
pub mod feetech;
pub mod frames;
pub mod health;
pub mod joint;
pub mod keyed;
pub mod ports;
pub mod session;
pub mod state;
pub mod text;
pub mod worker;
