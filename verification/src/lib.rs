//! Driver core for a six-axis inertial measurement unit with an on-chip
//! Digital Motion Processor (DMP), accessed over a register-addressed
//! serial bus.
//!
//! The bus transport and the blocking delay provider are external
//! collaborators, reached through the [`transport::Transport`] and
//! [`transport::DelayProvider`] traits. Every contract on the driver is
//! stated over the ghost log of bus transactions that those traits expose.

pub mod accel;
pub mod address;
pub mod clock_source;
pub mod config;
pub mod error;
pub mod fifo;
pub mod firmware_loader;
pub mod gyro;
pub mod quaternion;
pub mod registers;
pub mod sensor;
pub mod transport;
pub mod wire;
