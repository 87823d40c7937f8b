//! The opcode table: a total, deterministic, bidirectional mapping between a
//! symbolic database operation and its fixed single-byte wire code.
//!
//! The mapping is a frozen protocol contract: changing a byte value is a
//! breaking change. Any byte sequence not present in the table decodes to the
//! sentinel [`TuringOp::NotSupported`] rather than failing, so the decode
//! path is infallible by design and callers must treat the sentinel as
//! "reject this request".

use vstd::prelude::*;

verus! {

/// Commands to perform on the repo and its contents by the repo owner known
/// as `SuperUser`.
#[derive(Debug, Eq, PartialEq, Structural, Clone, Copy)]
pub enum TuringOp {
    /// Initialize the Repository
    RepoCreate,
    /// Delete the Repository
    RepoDrop,
    /// Create a database
    DbCreate,
    /// List all databases in a repo
    DbList,
    /// Delete a database
    DbDrop,
    /// Create a document
    DocumentCreate,
    /// List All Documents
    DocumentList,
    /// Delete a document and all its contents
    DocumentDrop,
    /// Insert a field into a document
    FieldInsert,
    /// Read contents particular document
    FieldGet,
    /// Remove a particular document
    FieldRemove,
    /// Update a document
    FieldModify,
    /// List all fields in a document
    FieldList,
    /// The command is not supported
    NotSupported,
}

/// The fixed wire byte of each operation. The sentinel's byte `0xf1` sits
/// deliberately outside the dense low range used by real operations.
pub open spec fn op_to_byte(op: TuringOp) -> u8 {
    match op {
        TuringOp::RepoCreate => 0x00,
        TuringOp::RepoDrop => 0x01,
        TuringOp::DbCreate => 0x02,
        TuringOp::DbList => 0x03,
        TuringOp::DbDrop => 0x04,
        TuringOp::DocumentCreate => 0x05,
        TuringOp::DocumentList => 0x06,
        TuringOp::DocumentDrop => 0x07,
        TuringOp::FieldInsert => 0x08,
        TuringOp::FieldGet => 0x09,
        TuringOp::FieldRemove => 0x0a,
        TuringOp::FieldModify => 0x0b,
        TuringOp::FieldList => 0x0c,
        TuringOp::NotSupported => 0xf1,
    }
}

/// The operation a single wire byte stands for; any byte outside the table
/// falls back to the sentinel.
pub open spec fn byte_to_op(b: u8) -> TuringOp {
    if b == 0x00 {
        TuringOp::RepoCreate
    } else if b == 0x01 {
        TuringOp::RepoDrop
    } else if b == 0x02 {
        TuringOp::DbCreate
    } else if b == 0x03 {
        TuringOp::DbList
    } else if b == 0x04 {
        TuringOp::DbDrop
    } else if b == 0x05 {
        TuringOp::DocumentCreate
    } else if b == 0x06 {
        TuringOp::DocumentList
    } else if b == 0x07 {
        TuringOp::DocumentDrop
    } else if b == 0x08 {
        TuringOp::FieldInsert
    } else if b == 0x09 {
        TuringOp::FieldGet
    } else if b == 0x0a {
        TuringOp::FieldRemove
    } else if b == 0x0b {
        TuringOp::FieldModify
    } else if b == 0x0c {
        TuringOp::FieldList
    } else {
        TuringOp::NotSupported
    }
}

/// What decoding an arbitrary byte sequence yields: exactly one byte is
/// looked up in the table; any other length (empty or multi-byte input)
/// falls back to the sentinel.
pub open spec fn decode_spec(bytes: Seq<u8>) -> TuringOp {
    if bytes.len() == 1 {
        byte_to_op(bytes[0])
    } else {
        TuringOp::NotSupported
    }
}

/// Converts a database operation to a header using the `TuringOp` enum.
pub fn from_op<'op>(value: &TuringOp) -> (r: &'op [u8])
    ensures
        r@ == seq![op_to_byte(*value)],
{
    match *value {
        TuringOp::RepoCreate => &[0x00],
        TuringOp::RepoDrop => &[0x01],
        TuringOp::DbCreate => &[0x02],
        TuringOp::DbList => &[0x03],
        TuringOp::DbDrop => &[0x04],
        TuringOp::DocumentCreate => &[0x05],
        TuringOp::DocumentList => &[0x06],
        TuringOp::DocumentDrop => &[0x07],
        TuringOp::FieldInsert => &[0x08],
        TuringOp::FieldGet => &[0x09],
        TuringOp::FieldRemove => &[0x0a],
        TuringOp::FieldModify => &[0x0b],
        TuringOp::FieldList => &[0x0c],
        TuringOp::NotSupported => &[0xf1],
    }
}

/// Converts a database operation from a header to `TuringOp` enum variant.
pub fn to_op(value: &[u8]) -> (r: TuringOp)
    ensures
        r == decode_spec(value@),
{
    if value.len() != 1 {
        return TuringOp::NotSupported;
    }
    match value[0] {
        0x00 => TuringOp::RepoCreate,
        0x01 => TuringOp::RepoDrop,
        0x02 => TuringOp::DbCreate,
        0x03 => TuringOp::DbList,
        0x04 => TuringOp::DbDrop,
        0x05 => TuringOp::DocumentCreate,
        0x06 => TuringOp::DocumentList,
        0x07 => TuringOp::DocumentDrop,
        0x08 => TuringOp::FieldInsert,
        0x09 => TuringOp::FieldGet,
        0x0a => TuringOp::FieldRemove,
        0x0b => TuringOp::FieldModify,
        0x0c => TuringOp::FieldList,
        _ => TuringOp::NotSupported,
    }
}

/// Law: encoding any operation and decoding the result recovers the
/// operation, the sentinel included — fourteen cases in all.
pub proof fn lemma_encode_decode_roundtrip(op: TuringOp)
    ensures
        decode_spec(seq![op_to_byte(op)]) == op,
{
}

/// Law: decoding any byte sequence that is not the encoding of some
/// operation — the empty sequence, multi-byte input, or a single byte
/// outside the table — yields the sentinel; decoding never fails.
pub proof fn lemma_decode_fallback(bytes: Seq<u8>)
    requires
        forall|op: TuringOp| bytes != seq![#[trigger] op_to_byte(op)],
    ensures
        decode_spec(bytes) == TuringOp::NotSupported,
{
    if bytes.len() == 1 {
        let b = bytes[0];
        let op = byte_to_op(b);
        if op != TuringOp::NotSupported || b == 0xf1 {
            assert(op_to_byte(op) == b);
            assert(bytes =~= seq![op_to_byte(op)]);
            assert(false);
        }
    }
}

} // verus!
