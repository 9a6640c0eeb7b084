//! Validating one file's text: parse it as JSON, then decode it against
//! the schema. Parsing is delegated to serde_json; everything after the
//! parse is verified.

use vstd::prelude::*;

use crate::json::Json;
use crate::schema::{conforms_root, diag_here, err_root, Diag, DiagV, ErrKind, KindV};

verus! {

#[verifier::external_type_specification]
#[verifier::external_body]
pub struct ExValue(serde_json::Value);

/// The JSON value that a text parses to, as this library models values:
/// `None` when the parser rejects the text (malformed JSON, or nesting
/// beyond the parser's depth limit).
pub uninterp spec fn json_of(text: Seq<char>) -> Option<Json>;

/// The library's model of what a parsed serde_json value holds.
pub uninterp spec fn value_model(v: serde_json::Value) -> Json;

/// Relies on serde_json::from_str::<serde_json::Value>: whether it
/// returns Ok, and what value it returns, are functions of the text
/// alone.
#[verifier::external_body]
fn parse_value(text: &str) -> (r: Option<serde_json::Value>)
    ensures
        r is Some <==> json_of(text@) is Some,
        r matches Some(v) ==> json_of(text@) == Some(value_model(v)),
{
    serde_json::from_str::<serde_json::Value>(text).ok()
}

/// Relies on serde_json::Value's variants and on Number::as_u64, which
/// returns the value exactly when the number is an integer representable
/// as u64: rebuilds the parsed value as the library's own Json, variant
/// for variant.
#[verifier::external_body]
fn json_from_value(v: serde_json::Value) -> (r: Json)
    ensures
        r == value_model(v),
{
    match v {
        serde_json::Value::Null => Json::Null,
        serde_json::Value::Bool(b) => Json::Boolean(b),
        serde_json::Value::Number(n) => match n.as_u64() {
            Some(u) => Json::UintNumber(u),
            None => Json::OtherNumber,
        },
        serde_json::Value::String(s) => Json::Text(s),
        serde_json::Value::Array(a) => Json::Sequence(
            a.into_iter().map(json_from_value).collect(),
        ),
        serde_json::Value::Object(m) => Json::Object(
            m.into_iter().map(|(k, w)| (k, json_from_value(w))).collect(),
        ),
    }
}

/// The outcome of validating one file's content: a document is valid or
/// it is not, with a diagnostic in the latter case.
#[derive(Debug, Clone, PartialEq, Eq)]
pub enum Outcome {
    Valid,
    Invalid(Diag),
}

pub enum OutcomeV {
    Valid,
    Invalid(DiagV),
}

impl View for Outcome {
    type V = OutcomeV;

    open spec fn view(&self) -> OutcomeV {
        match self {
            Outcome::Valid => OutcomeV::Valid,
            Outcome::Invalid(d) => OutcomeV::Invalid(d@),
        }
    }
}

/// The outcome that a given text deserves: unparseable texts and
/// non-conforming documents are invalid, everything else is valid.
pub open spec fn outcome_of(text: Seq<char>) -> OutcomeV {
    match json_of(text) {
        None => OutcomeV::Invalid(diag_here(KindV::Unparseable)),
        Some(j) => if conforms_root(j) {
            OutcomeV::Valid
        } else {
            OutcomeV::Invalid(err_root(j))
        },
    }
}

/// Validates the full text content of one file against the schema.
///
/// The outcome is a function of the content alone, so checking an
/// unmodified file twice yields the same outcome and the same diagnostic.
pub fn check_content(text: &str) -> (r: Outcome)
    ensures
        r@ == outcome_of(text@),
{
    match parse_value(text) {
        None => {
            let d = Diag { path: Vec::new(), kind: ErrKind::Unparseable };
            proof {
                assert(d@.path =~= Seq::<crate::schema::SegV>::empty());
            }
            Outcome::Invalid(d)
        },
        Some(v) => {
            let j = json_from_value(v);
            match crate::decode::decode_root(&j) {
                Ok(_) => Outcome::Valid,
                Err(e) => Outcome::Invalid(e),
            }
        },
    }
}

} // verus!
