//! The record parser: one line of raw text becomes either a `LogRecord`
//! or a structured parse error carrying the line number and the cause.
//!
//! JSON decoding itself is done by serde_json; everything it hands back
//! is named by uninterpreted spec functions, and the decision logic —
//! which field is missing, which is mistyped, how the record is built —
//! is verified against those names.

use vstd::prelude::*;

use crate::record::{LogRecord, LogRecordView};

verus! {

/// The four required fields of an input line.
#[derive(Clone, Copy, Debug, PartialEq, Eq, Structural)]
pub enum FieldName {
    Timestamp,
    SeverityText,
    Body,
    TenantId,
}

/// Why a line failed to parse.
#[derive(Clone, Copy, Debug, PartialEq, Eq, Structural)]
pub enum ParseErrorKind {
    /// The line is not a well-formed JSON document.
    MalformedJson,
    /// A required field is absent.
    MissingField(FieldName),
    /// A required field is present but has the wrong type, or (for
    /// `tenant_id`) does not fit in a signed 32-bit integer.
    MistypedField(FieldName),
}

/// A per-line parse failure: non-fatal, reported and skipped.
#[derive(Clone, Copy, Debug, PartialEq, Eq, Structural)]
pub struct ParseError {
    /// 1-based number of the offending line.
    pub line: usize,
    pub kind: ParseErrorKind,
}

/// The document that serde_json reads from the characters `s`:
/// `None` exactly when they are not one well-formed JSON document.
pub uninterp spec fn json_doc_of(s: Seq<char>) -> Option<serde_json::Value>;

/// The member of the document `v` under the key `key`, if `v` is an
/// object and has that member.
pub uninterp spec fn member_of(v: serde_json::Value, key: Seq<char>) -> Option<serde_json::Value>;

/// The signed 64-bit integer that the document `v` is, if it is one.
pub uninterp spec fn int_of(v: serde_json::Value) -> Option<i64>;

/// The text that the document `v` is, if it is a JSON string.
pub uninterp spec fn text_of(v: serde_json::Value) -> Option<Seq<char>>;

#[verifier::external_type_specification]
#[verifier::external_body]
pub struct ExValue(serde_json::Value);

/// Relies on serde_json::from_str::<Value>: deserializing a `&str` is a
/// pure function of its characters; it returns `Ok` exactly on
/// well-formed JSON documents.
#[verifier::external_body]
fn json_from_str(line: &str) -> (r: Option<serde_json::Value>)
    ensures
        r == json_doc_of(line@),
{
    serde_json::from_str::<serde_json::Value>(line).ok()
}

/// Relies on serde_json::Value::get: on an object it looks the key up
/// in the member map, a pure function of the value and the key.
#[verifier::external_body]
fn json_get<'a>(v: &'a serde_json::Value, key: &str) -> (r: Option<&'a serde_json::Value>)
    ensures
        r is Some <==> member_of(*v, key@) is Some,
        r matches Some(m) ==> *m == member_of(*v, key@)->0,
{
    v.get(key)
}

/// Relies on serde_json::Value::as_i64: `Some` exactly when the value
/// is a JSON number representable as an `i64`.
#[verifier::external_body]
fn json_as_i64(v: &serde_json::Value) -> (r: Option<i64>)
    ensures
        r == int_of(*v),
{
    v.as_i64()
}

/// Relies on serde_json::Value::as_str: `Some` of the text exactly when
/// the value is a JSON string.
#[verifier::external_body]
fn json_as_string(v: &serde_json::Value) -> (r: Option<String>)
    ensures
        r is Some <==> text_of(*v) is Some,
        r matches Some(s) ==> s@ == text_of(*v)->0,
{
    match v.as_str() {
        Some(s) => Some(s.to_string()),
        None => None,
    }
}

/// The integer member of the parsed document of `s` under `key`:
/// `None` when absent, `Some(None)` when present but not an `i64`.
/// Meaningful only when `s` parses as a JSON document.
pub open spec fn doc_int(s: Seq<char>, key: Seq<char>) -> Option<Option<i64>> {
    match member_of(json_doc_of(s)->0, key) {
        Some(m) => Some(int_of(m)),
        None => None,
    }
}

/// The text member of the parsed document of `s` under `key`.
/// Meaningful only when `s` parses as a JSON document.
pub open spec fn doc_text(s: Seq<char>, key: Seq<char>) -> Option<Option<Seq<char>>> {
    match member_of(json_doc_of(s)->0, key) {
        Some(m) => Some(text_of(m)),
        None => None,
    }
}

/// How one field check ends: no error, or the first error it finds.
pub open spec fn int_field_error(s: Seq<char>, key: Seq<char>, f: FieldName) -> Option<
    ParseErrorKind,
> {
    match doc_int(s, key) {
        None => Some(ParseErrorKind::MissingField(f)),
        Some(None) => Some(ParseErrorKind::MistypedField(f)),
        Some(Some(_)) => None,
    }
}

pub open spec fn text_field_error(s: Seq<char>, key: Seq<char>, f: FieldName) -> Option<
    ParseErrorKind,
> {
    match doc_text(s, key) {
        None => Some(ParseErrorKind::MissingField(f)),
        Some(None) => Some(ParseErrorKind::MistypedField(f)),
        Some(Some(_)) => None,
    }
}

/// The cause on which the characters `s` fail to parse as a record,
/// or `None` when they parse. Fields are checked in the order
/// timestamp, severity_text, body, tenant_id, and the first failure
/// wins; a `tenant_id` outside the `i32` range is mistyped.
pub open spec fn line_error(s: Seq<char>) -> Option<ParseErrorKind> {
    if json_doc_of(s) is None {
        Some(ParseErrorKind::MalformedJson)
    } else if int_field_error(s, "timestamp"@, FieldName::Timestamp) is Some {
        int_field_error(s, "timestamp"@, FieldName::Timestamp)
    } else if text_field_error(s, "severity_text"@, FieldName::SeverityText) is Some {
        text_field_error(s, "severity_text"@, FieldName::SeverityText)
    } else if text_field_error(s, "body"@, FieldName::Body) is Some {
        text_field_error(s, "body"@, FieldName::Body)
    } else if int_field_error(s, "tenant_id"@, FieldName::TenantId) is Some {
        int_field_error(s, "tenant_id"@, FieldName::TenantId)
    } else if !(i32::MIN <= doc_int(s, "tenant_id"@)->0->0 <= i32::MAX) {
        Some(ParseErrorKind::MistypedField(FieldName::TenantId))
    } else {
        None
    }
}

/// The record that the characters `s` parse into, meaningful when
/// `line_error(s)` is `None`.
pub open spec fn line_record(s: Seq<char>) -> LogRecordView {
    LogRecordView {
        timestamp: doc_int(s, "timestamp"@)->0->0 as int,
        severity_text: doc_text(s, "severity_text"@)->0->0,
        body: doc_text(s, "body"@)->0->0,
        tenant_id: doc_int(s, "tenant_id"@)->0->0 as int,
    }
}

/// What the parser promises of its result: the outcome is determined
/// by the characters of the line and the line number alone.
pub open spec fn parse_outcome_ok(
    s: Seq<char>,
    line_no: usize,
    r: Result<LogRecord, ParseError>,
) -> bool {
    match line_error(s) {
        Some(k) => r matches Err(e) && e.line == line_no && e.kind == k,
        None => r matches Ok(rec) && rec@ == line_record(s),
    }
}

/// Parse one line, given its 1-based line number. Pure: the outcome is
/// a function of the line's characters and the line number.
pub fn parse_log_line(line: &str, line_no: usize) -> (r: Result<LogRecord, ParseError>)
    ensures
        parse_outcome_ok(line@, line_no, r),
{
    let doc = match json_from_str(line) {
        Some(v) => v,
        None => {
            return Err(ParseError { line: line_no, kind: ParseErrorKind::MalformedJson });
        },
    };
    let timestamp: i64 = match json_get(&doc, "timestamp") {
        None => {
            return Err(
                ParseError {
                    line: line_no,
                    kind: ParseErrorKind::MissingField(FieldName::Timestamp),
                },
            );
        },
        Some(m) => match json_as_i64(m) {
            None => {
                return Err(
                    ParseError {
                        line: line_no,
                        kind: ParseErrorKind::MistypedField(FieldName::Timestamp),
                    },
                );
            },
            Some(t) => t,
        },
    };
    let severity_text: String = match json_get(&doc, "severity_text") {
        None => {
            return Err(
                ParseError {
                    line: line_no,
                    kind: ParseErrorKind::MissingField(FieldName::SeverityText),
                },
            );
        },
        Some(m) => match json_as_string(m) {
            None => {
                return Err(
                    ParseError {
                        line: line_no,
                        kind: ParseErrorKind::MistypedField(FieldName::SeverityText),
                    },
                );
            },
            Some(s) => s,
        },
    };
    let body: String = match json_get(&doc, "body") {
        None => {
            return Err(
                ParseError { line: line_no, kind: ParseErrorKind::MissingField(FieldName::Body) },
            );
        },
        Some(m) => match json_as_string(m) {
            None => {
                return Err(
                    ParseError {
                        line: line_no,
                        kind: ParseErrorKind::MistypedField(FieldName::Body),
                    },
                );
            },
            Some(s) => s,
        },
    };
    let tenant_wide: i64 = match json_get(&doc, "tenant_id") {
        None => {
            return Err(
                ParseError {
                    line: line_no,
                    kind: ParseErrorKind::MissingField(FieldName::TenantId),
                },
            );
        },
        Some(m) => match json_as_i64(m) {
            None => {
                return Err(
                    ParseError {
                        line: line_no,
                        kind: ParseErrorKind::MistypedField(FieldName::TenantId),
                    },
                );
            },
            Some(t) => t,
        },
    };
    if tenant_wide < i32::MIN as i64 || tenant_wide > i32::MAX as i64 {
        return Err(
            ParseError { line: line_no, kind: ParseErrorKind::MistypedField(FieldName::TenantId) },
        );
    }
    let tenant_id: i32 = tenant_wide as i32;
    Ok(LogRecord { timestamp, severity_text, body, tenant_id })
}

/// The parser is pure: any two outcomes that meet its contract on the
/// same line and line number are the same outcome. In particular,
/// parsing the same line twice yields the same result.
pub proof fn lemma_parser_deterministic(
    s: Seq<char>,
    line_no: usize,
    r1: Result<LogRecord, ParseError>,
    r2: Result<LogRecord, ParseError>,
)
    requires
        parse_outcome_ok(s, line_no, r1),
        parse_outcome_ok(s, line_no, r2),
    ensures
        r1 is Ok <==> r2 is Ok,
        r1 matches Ok(a) ==> (r2 matches Ok(b) && a@ == b@),
        r1 matches Err(a) ==> (r2 matches Err(b) && a == b),
{
}

} // verus!
