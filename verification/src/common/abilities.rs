//! Bit flags of the `flags` byte of the S2C `PlayerAbilities` packet (a
//! single-byte bitfield, unchanged from 1.20.1 to 1.21.1).

use vstd::prelude::*;

verus! {

/// Invulnerable.
pub const INVULNERABLE: u8 = 0x01;

/// Flying.
pub const FLYING: u8 = 0x02;

/// Allowed to fly.
pub const CAN_FLY: u8 = 0x04;

/// Instant build.
pub const INSTABUILD: u8 = 0x08;

} // verus!
