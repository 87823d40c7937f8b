use turingdb_core::{from_op, to_op, TuringOp};

fn all_ops() -> Vec<TuringOp> {
    vec![
        TuringOp::RepoCreate,
        TuringOp::RepoDrop,
        TuringOp::DbCreate,
        TuringOp::DbList,
        TuringOp::DbDrop,
        TuringOp::DocumentCreate,
        TuringOp::DocumentList,
        TuringOp::DocumentDrop,
        TuringOp::FieldInsert,
        TuringOp::FieldGet,
        TuringOp::FieldRemove,
        TuringOp::FieldModify,
        TuringOp::FieldList,
        TuringOp::NotSupported,
    ]
}

#[test]
fn encode_matches_frozen_table() {
    assert_eq!(from_op(&TuringOp::RepoCreate), &[0x00]);
    assert_eq!(from_op(&TuringOp::RepoDrop), &[0x01]);
    assert_eq!(from_op(&TuringOp::DbCreate), &[0x02]);
    assert_eq!(from_op(&TuringOp::DbList), &[0x03]);
    assert_eq!(from_op(&TuringOp::DbDrop), &[0x04]);
    assert_eq!(from_op(&TuringOp::DocumentCreate), &[0x05]);
    assert_eq!(from_op(&TuringOp::DocumentList), &[0x06]);
    assert_eq!(from_op(&TuringOp::DocumentDrop), &[0x07]);
    assert_eq!(from_op(&TuringOp::FieldInsert), &[0x08]);
    assert_eq!(from_op(&TuringOp::FieldGet), &[0x09]);
    assert_eq!(from_op(&TuringOp::FieldRemove), &[0x0a]);
    assert_eq!(from_op(&TuringOp::FieldModify), &[0x0b]);
    assert_eq!(from_op(&TuringOp::FieldList), &[0x0c]);
    assert_eq!(from_op(&TuringOp::NotSupported), &[0xf1]);
}

#[test]
fn roundtrip_recovers_every_table_entry() {
    for op in all_ops() {
        assert_eq!(to_op(from_op(&op)), op);
    }
}

#[test]
fn decode_known_bytes() {
    assert_eq!(to_op(&[0x00]), TuringOp::RepoCreate);
    assert_eq!(to_op(&[0x0c]), TuringOp::FieldList);
    assert_eq!(to_op(&[0xf1]), TuringOp::NotSupported);
}

#[test]
fn decode_unknown_byte_is_sentinel() {
    assert_eq!(to_op(&[0x0d]), TuringOp::NotSupported);
    assert_eq!(to_op(&[0x7f]), TuringOp::NotSupported);
    assert_eq!(to_op(&[0xf0]), TuringOp::NotSupported);
    assert_eq!(to_op(&[0xff]), TuringOp::NotSupported);
}

#[test]
fn decode_empty_input_is_sentinel() {
    assert_eq!(to_op(&[]), TuringOp::NotSupported);
}

#[test]
fn decode_multibyte_input_is_sentinel() {
    assert_eq!(to_op(&[0x00, 0x01]), TuringOp::NotSupported);
    assert_eq!(to_op(&[0x02, 0x02]), TuringOp::NotSupported);
    assert_eq!(to_op(&[0xf1, 0xf1, 0xf1]), TuringOp::NotSupported);
}
