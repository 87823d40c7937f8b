use custom_codes::DbOps;
use turingdb_core::diag::{diag_string, op_name};
use turingdb_core::{format_error, TuringOp};

#[test]
fn op_names_are_the_debug_names() {
    assert_eq!(op_name(&TuringOp::RepoCreate), "RepoCreate");
    assert_eq!(op_name(&TuringOp::DbCreate), "DbCreate");
    assert_eq!(op_name(&TuringOp::FieldModify), "FieldModify");
    assert_eq!(op_name(&TuringOp::NotSupported), "NotSupported");
    assert_eq!(op_name(&TuringOp::DbList), format!("{:?}", TuringOp::DbList));
}

#[test]
fn diagnostic_matches_template_character_for_character() {
    let rendered = diag_string(&TuringOp::DbCreate, "disk full");
    assert_eq!(rendered, "[TuringDB::<DbCreate>::(ERROR)-disk full]");
}

#[test]
fn diagnostic_template_for_every_operation_shape() {
    let rendered = diag_string(&TuringOp::FieldInsert, "NotFound");
    assert!(rendered.starts_with("[TuringDB::<FieldInsert>::(ERROR)-"));
    assert!(rendered.ends_with("]"));
}

#[test]
fn format_error_wraps_downcast_rendering_in_result_code() {
    let io_error = std::io::Error::new(std::io::ErrorKind::NotFound, "missing");
    let error = anyhow::Error::new(io_error);
    let ops = format_error(&TuringOp::DbCreate, &error);
    match ops {
        DbOps::EncounteredErrors(message) => {
            assert_eq!(message, "[TuringDB::<DbCreate>::(ERROR)-NotFound]");
        }
        other => panic!("expected EncounteredErrors, got {:?}", other),
    }
}

#[test]
fn format_error_with_unmatched_error_keeps_the_frame() {
    let error = anyhow::Error::msg("disk full");
    let ops = format_error(&TuringOp::DbDrop, &error);
    match ops {
        DbOps::EncounteredErrors(message) => {
            assert!(message.starts_with("[TuringDB::<DbDrop>::(ERROR)-"));
            assert!(message.ends_with("]"));
        }
        other => panic!("expected EncounteredErrors, got {:?}", other),
    }
}
