//! Driver core for a 6-axis inertial sensor (accelerometer + gyroscope)
//! reached over a two-wire serial bus.
//!
//! The crate is deliberately free of I/O: every bus exchange is represented
//! as a plain request value ([`bus::BusAction`]) and a plain reply value
//! ([`bus::BusEvent`] or [`bus::ReadReply`]). The owning application performs
//! the actual transactions and the settle delays, and feeds the replies back
//! in. Everything the driver decides — the fixed initialization sequence,
//! the fail-fast policy, and the big-endian two's-complement decoding of the
//! 14-byte sample block — is verified here.

pub mod bus;
pub mod codec;
pub mod init;
pub mod mpu;
