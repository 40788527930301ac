//! Motion-activity analysis for a streaming 3-axis linear-acceleration signal.
//!
//! The library is organised around three fixed-memory streaming stages — a
//! drift-compensating smoothing window, a windowed magnitude estimator with
//! two interchangeable strategies, and a hysteresis-based direction
//! classifier — together with the small boot/connection state machines of the
//! surrounding sensor application.
//!
//! Scalar samples are carried as IEEE-754 single-precision bit patterns in
//! `u32`. On non-negative finite values, which is all this pipeline stores,
//! unsigned comparison of bit patterns agrees with the numeric order of the
//! floating-point values they encode, so every windowing, ordering and
//! thresholding decision is made — and verified — on the bit patterns.
//! The few genuinely real-valued steps (averaging a window, the Euclidean
//! norm, `atan2`) are left to the caller, which hands their results back as
//! bit patterns.
pub mod analysis;
pub mod config;
pub mod state_machine;
