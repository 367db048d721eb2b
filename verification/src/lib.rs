//! Bridge between the operating system's native media-control surface and an
//! application's internal playback-command pipeline.
//!
//! The library holds the two verified duties of that bridge: translating
//! inbound native media events into outbound application commands, and
//! deciding, cycle by cycle, which status and metadata pushes the native
//! session must receive so that the system UI mirrors the player. The
//! platform session itself (registration, event delivery, message pumping)
//! is a provided capability that the surrounding program drives; the loop
//! that sleeps, snapshots and performs the pushes lives there and feeds
//! this library plain values.

pub mod event;
pub mod item;
pub mod platform;
pub mod span;
pub mod sync;
