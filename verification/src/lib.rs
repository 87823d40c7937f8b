//! Wire-level command vocabulary and canonical stored-value records for a
//! small database service.
//!
//! The crate fixes two cross-process contracts: how an operation request is
//! identified as a single byte on the wire (the opcode table in [`ops`]), and
//! the shape of a stored field value with its creation/modification
//! provenance (the record in [`record`]). A third component renders an
//! operation together with an underlying failure into one stable diagnostic
//! string ([`diag`]).

pub mod diag;
pub mod ops;
pub mod packet;
pub mod record;

pub use diag::format_error;
pub use ops::from_op;
pub use ops::to_op;
pub use ops::TuringOp;
pub use packet::TuringPacket;
pub use record::FieldData;
pub use record::Timestamp;
