//! Decision engine of a proximity-based screen lock.
//!
//! Once per polling cycle the engine is told how strongly each paired
//! device is heard. When every device that answers has been weak for long
//! enough, it asks for the screen to be locked; when a device has been near
//! for long enough, it asks for it to be unlocked. One good or bad reading
//! undoes all progress towards either.
//!
//! The engine itself reads no device and runs no command. [`cycle::ProxLock`]
//! says what it needs next and is told what came of it; [`lock::LockManager`]
//! holds the lock state and the two timers; [`signal::Signals`] sums up the
//! readings of a cycle. [`config::Config::load`] reads the configuration
//! text and [`bluetooth::BluetoothManager`] the output of the query tool.
//! [`model`] states a whole cycle as one function, and [`laws`] what follows.

pub mod bluetooth;
pub mod config;
pub mod cycle;
pub mod laws;
pub mod lock;
pub mod model;
pub mod number;
pub mod signal;
pub mod text;
