//! The wire-packet capability: a data structure that can render itself as
//! bytes before it is sent over the wire.

use vstd::prelude::*;

verus! {

/// Ensures that a data structure is converted to bytes before it is sent
/// over the wire.
pub trait TuringPacket<'tp> {
    /// Converts a data structure into bytes in order to be sent over the
    /// wire.
    fn into_packet<T>(value: T) -> &'tp [u8];
}

} // verus!
