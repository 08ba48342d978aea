//! Static metadata of a supported protocol version.

use vstd::prelude::*;

verus! {

/// A Minecraft protocol version implementation. Each supported version has
/// a zero-sized marker type implementing this trait; the server dispatches
/// per-version behaviour by matching on the selected version, so the trait
/// carries only the version's metadata.
pub trait Protocol {
    /// The protocol number (763 for 1.20.1, 767 for 1.21.1).
    spec fn spec_protocol_version() -> usize;

    /// The human-readable Minecraft version.
    spec fn spec_minecraft_version() -> Seq<char>;

    /// The protocol number.
    fn protocol_version(&self) -> (r: usize)
        ensures
            r == Self::spec_protocol_version(),
    ;

    /// The human-readable Minecraft version (e.g. `"1.20.1"`).
    fn minecraft_version(&self) -> (r: &'static str)
        ensures
            r@ == Self::spec_minecraft_version(),
    ;
}

} // verus!
