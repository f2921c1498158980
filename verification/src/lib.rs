//! A verified core for a fan- and pump-control system: the line-delimited
//! request/response protocol spoken to a microcontroller board over a
//! serial link, the per-channel control algorithm (curve interpolation,
//! dead-area clamping, cooling hysteresis), the sensor directory, and the
//! decisions of the per-device polling loop. The serial port, the sensor
//! backends and the clock live with the caller; everything decided on what
//! they deliver is specified and proved here.

pub mod controller;
pub mod device;
pub mod json;
pub mod messages;
pub mod scheduler;
pub mod sensors;
pub mod storage;
pub mod text;
