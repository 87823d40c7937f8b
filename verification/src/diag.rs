//! The diagnostic formatter: renders an operation together with an
//! underlying failure into one stable, greppable diagnostic string.

use vstd::prelude::*;
use crate::ops::TuringOp;

verus! {

/// The debug name of an operation, as it appears inside the diagnostic
/// string.
pub open spec fn op_name_spec(op: TuringOp) -> Seq<char> {
    match op {
        TuringOp::RepoCreate => "RepoCreate"@,
        TuringOp::RepoDrop => "RepoDrop"@,
        TuringOp::DbCreate => "DbCreate"@,
        TuringOp::DbList => "DbList"@,
        TuringOp::DbDrop => "DbDrop"@,
        TuringOp::DocumentCreate => "DocumentCreate"@,
        TuringOp::DocumentList => "DocumentList"@,
        TuringOp::DocumentDrop => "DocumentDrop"@,
        TuringOp::FieldInsert => "FieldInsert"@,
        TuringOp::FieldGet => "FieldGet"@,
        TuringOp::FieldRemove => "FieldRemove"@,
        TuringOp::FieldModify => "FieldModify"@,
        TuringOp::FieldList => "FieldList"@,
        TuringOp::NotSupported => "NotSupported"@,
    }
}

/// The operation's debug name as a string slice.
pub fn op_name(value: &TuringOp) -> (r: &'static str)
    ensures
        r@ == op_name_spec(*value),
{
    match *value {
        TuringOp::RepoCreate => "RepoCreate",
        TuringOp::RepoDrop => "RepoDrop",
        TuringOp::DbCreate => "DbCreate",
        TuringOp::DbList => "DbList",
        TuringOp::DbDrop => "DbDrop",
        TuringOp::DocumentCreate => "DocumentCreate",
        TuringOp::DocumentList => "DocumentList",
        TuringOp::DocumentDrop => "DocumentDrop",
        TuringOp::FieldInsert => "FieldInsert",
        TuringOp::FieldGet => "FieldGet",
        TuringOp::FieldRemove => "FieldRemove",
        TuringOp::FieldModify => "FieldModify",
        TuringOp::FieldList => "FieldList",
        TuringOp::NotSupported => "NotSupported",
    }
}

/// Relies on `String::push_str` of std: appends a given string slice onto
/// the end of this `String`.
pub assume_specification[ String::push_str ](s: &mut String, other: &str)
    ensures
        final(s)@ == old(s)@ + other@,
;

/// The one frozen diagnostic template: the literal prefix, the operation's
/// debug name in angle brackets, the literal error marker, the rendered
/// failure, and the closing bracket, in that exact order.
pub open spec fn diag_spec(op: TuringOp, rendered_error: Seq<char>) -> Seq<char> {
    "[TuringDB::<"@ + op_name_spec(op) + ">::(ERROR)-"@ + rendered_error + "]"@
}

/// Renders an operation and an already-rendered failure into the frozen
/// diagnostic template, character for character.
pub fn diag_string(op: &TuringOp, rendered_error: &str) -> (r: String)
    ensures
        r@ == diag_spec(*op, rendered_error@),
{
    let mut out = String::new();
    out.push_str("[TuringDB::<");
    out.push_str(op_name(op));
    out.push_str(">::(ERROR)-");
    out.push_str(rendered_error);
    out.push_str("]");
    out
}

/// The opaque application error this crate consumes but never inspects.
#[verifier::external_type_specification]
#[verifier::external_body]
pub struct ExError(anyhow::Error);

/// The shared result-code vocabulary this crate produces a value of.
#[verifier::external_type_specification]
#[verifier::external_body]
pub struct ExDbOps(custom_codes::DbOps);

/// Relies on `custom_codes::try_downcast`: renders an opaque error in its
/// most specific known form — its root cause downcast to a known I/O error
/// kind where possible, else a catch-all — and on the debug formatting of
/// the resulting `custom_codes::DownCastErrors` variant. Nothing is promised
/// of the rendering.
#[verifier::external_body]
fn render_downcast(error: &anyhow::Error) -> String {
    format!("{:?}", custom_codes::try_downcast(error))
}

/// The result code that wraps a given message in the "encountered errors"
/// variant: a function of the message alone.
pub uninterp spec fn encountered_of(message: Seq<char>) -> custom_codes::DbOps;

/// Relies on `custom_codes::DbOps::EncounteredErrors`: wraps a message in
/// the shared result-code type's "encountered errors" variant, a plain
/// constructor whose result depends on the message alone.
#[verifier::external_body]
fn encountered_errors(message: String) -> (r: custom_codes::DbOps)
    ensures
        r == encountered_of(message@),
{
    custom_codes::DbOps::EncounteredErrors(message)
}

/// Handles converting an error to a common error syntax
/// `[TuringDB::<TuringOp>::(ERROR)-{error}]`.
///
/// The result is always the "encountered errors" wrap — never a success
/// variant — of a string following the frozen template of [`diag_spec`] for
/// this operation; the rendered failure interpolated into the template comes
/// from the opaque error's most specific known form, of which nothing
/// further can be said here.
pub fn format_error(op: &TuringOp, error: &anyhow::Error) -> (r: custom_codes::DbOps)
    ensures
        exists|rendered: Seq<char>| r == encountered_of(diag_spec(*op, rendered)),
{
    let unhandled_error = render_downcast(error);
    let r = encountered_errors(diag_string(op, unhandled_error.as_str()));
    proof {
        assert(r == encountered_of(diag_spec(*op, unhandled_error@)));
    }
    r
}

} // verus!
