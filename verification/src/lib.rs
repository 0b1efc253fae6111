//! A verified model of a grid-movement and tile-selection state machine.
//!
//! A single tracked entity ("the player") moves over a square board either by
//! discrete keyboard steps ([`step`]) or by picking a grid tile with the
//! pointer ([`picking`]). A toggleable movement UI shows a transient hover
//! indicator over the tile currently under the pointer. The host program is
//! expected to poll input devices, run the picking query, and render the
//! scene; it drives this library once per simulation tick with plain values
//! and applies the resulting state to the screen.

pub mod board;
pub mod picking;
pub mod scene;
pub mod step;
