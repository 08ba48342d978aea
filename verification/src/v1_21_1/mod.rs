//! Minecraft 1.21.1 (protocol 767) packet definitions.

pub mod c2s;
pub mod registries;
pub mod s2c;

use vstd::prelude::*;

use crate::protocol::Protocol;

verus! {

/// Marker type for the Minecraft 1.21.1 protocol.
#[derive(Debug, Clone, Copy, Default, PartialEq, Eq, Structural)]
pub struct V1_21_1;

impl Protocol for V1_21_1 {
    open spec fn spec_protocol_version() -> usize {
        767
    }

    open spec fn spec_minecraft_version() -> Seq<char> {
        "1.21.1"@
    }

    fn protocol_version(&self) -> (r: usize) {
        767
    }

    fn minecraft_version(&self) -> (r: &'static str) {
        "1.21.1"
    }
}

} // verus!
