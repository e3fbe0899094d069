//! The outcome of one query execution and its wire encoding: a `data` value
//! and an ordered list of query-level errors, carried together in one
//! transport-successful response body.

use vstd::prelude::*;
use crate::json::{JsonVal, json_text, str_json, int_lexeme, wf_json, wf_check};

verus! {

/// Where in the query text an error arose.
pub struct ErrorLocation {
    pub line: u32,
    pub column: u32,
}

/// One query-level error: its message, where it arose, and the response
/// path it belongs to.
pub struct ExecError {
    pub message: String,
    pub locations: Vec<ErrorLocation>,
    pub path: Vec<String>,
}

/// What one execution produced. `errors` may be non-empty beside a present
/// `data`: partial success is representable on purpose.
pub struct ExecutionResult {
    pub data: Option<JsonVal>,
    pub errors: Vec<ExecError>,
}

/// The wire text of the `data` field.
pub open spec fn data_text(d: Option<JsonVal>) -> Seq<char> {
    match d {
        Some(v) => json_text(v),
        None => ("null")@,
    }
}

/// The wire text of one error location object.
pub open spec fn loc_text(l: ErrorLocation) -> Seq<char> {
    ("{\"line\":")@ + int_lexeme(l.line as int) + (",\"column\":")@ + int_lexeme(l.column as int)
        + ("}")@
}

/// The comma-separated wire texts of `locs[i..]`.
pub open spec fn locs_text(locs: Vec<ErrorLocation>, i: int) -> Seq<char>
    decreases locs.len() - i,
{
    if i < 0 || i >= locs.len() {
        Seq::empty()
    } else {
        loc_text(locs[i]) + if i + 1 < locs.len() {
            (",")@ + locs_text(locs, i + 1)
        } else {
            Seq::<char>::empty()
        }
    }
}

/// The comma-separated wire texts of the path segments `path[i..]`.
pub open spec fn path_text(path: Vec<String>, i: int) -> Seq<char>
    decreases path.len() - i,
{
    if i < 0 || i >= path.len() {
        Seq::empty()
    } else {
        str_json(path[i]@) + if i + 1 < path.len() {
            (",")@ + path_text(path, i + 1)
        } else {
            Seq::<char>::empty()
        }
    }
}

/// The wire text of one error object.
pub open spec fn error_text(e: ExecError) -> Seq<char> {
    ("{\"message\":")@ + str_json(e.message@) + (",\"locations\":[")@ + locs_text(e.locations, 0)
        + ("],\"path\":[")@ + path_text(e.path, 0) + ("]}")@
}

/// The comma-separated wire texts of `errs[i..]`.
pub open spec fn errors_text(errs: Vec<ExecError>, i: int) -> Seq<char>
    decreases errs.len() - i,
{
    if i < 0 || i >= errs.len() {
        Seq::empty()
    } else {
        error_text(errs[i]) + if i + 1 < errs.len() {
            (",")@ + errors_text(errs, i + 1)
        } else {
            Seq::<char>::empty()
        }
    }
}

/// The whole response body: `data` always, `errors` only when non-empty.
pub open spec fn result_text(r: ExecutionResult) -> Seq<char> {
    ("{\"data\":")@ + data_text(r.data) + (if r.errors.len() == 0 {
        Seq::<char>::empty()
    } else {
        (",\"errors\":[")@ + errors_text(r.errors, 0) + ("]")@
    }) + ("}")@
}

/// A result whose `data` carries only plausible number lexemes; every result
/// a well-behaved executor hands back satisfies this.
pub open spec fn wf_result(r: ExecutionResult) -> bool {
    match r.data {
        Some(v) => wf_json(v),
        None => true,
    }
}

/// Appends `locs_text(*locs, i)` to `out`.
fn push_locs(locs: &Vec<ErrorLocation>, i: usize, out: &mut Vec<char>)
    ensures
        final(out)@ == old(out)@ + locs_text(*locs, i as int),
    decreases locs.len() - i,
{
    if i < locs.len() {
        crate::json::push_verbatim("{\"line\":", out);
        crate::json::push_u32(locs[i].line, out);
        crate::json::push_verbatim(",\"column\":", out);
        crate::json::push_u32(locs[i].column, out);
        crate::json::push_verbatim("}", out);
        if i + 1 < locs.len() {
            crate::json::push_verbatim(",", out);
            push_locs(locs, i + 1, out);
        }
        assert(final(out)@ =~= old(out)@ + locs_text(*locs, i as int));
    }
}

/// Appends `path_text(*path, i)` to `out`.
fn push_path(path: &Vec<String>, i: usize, out: &mut Vec<char>)
    ensures
        final(out)@ == old(out)@ + path_text(*path, i as int),
    decreases path.len() - i,
{
    if i < path.len() {
        crate::json::push_str_json(path[i].as_str(), out);
        if i + 1 < path.len() {
            crate::json::push_verbatim(",", out);
            push_path(path, i + 1, out);
        }
        assert(final(out)@ =~= old(out)@ + path_text(*path, i as int));
    }
}

/// Appends `errors_text(*errs, i)` to `out`.
#[verifier::rlimit(50)]
fn push_errors(errs: &Vec<ExecError>, i: usize, out: &mut Vec<char>)
    ensures
        final(out)@ == old(out)@ + errors_text(*errs, i as int),
    decreases errs.len() - i,
{
    if i < errs.len() {
        crate::json::push_verbatim("{\"message\":", out);
        crate::json::push_str_json(errs[i].message.as_str(), out);
        crate::json::push_verbatim(",\"locations\":[", out);
        push_locs(&errs[i].locations, 0, out);
        crate::json::push_verbatim("],\"path\":[", out);
        push_path(&errs[i].path, 0, out);
        crate::json::push_verbatim("]}", out);
        if i + 1 < errs.len() {
            crate::json::push_verbatim(",", out);
            push_errors(errs, i + 1, out);
        }
        assert(final(out)@ =~= old(out)@ + errors_text(*errs, i as int));
    }
}

impl ExecutionResult {
    /// Encodes the result to its response body. `None` only on a result
    /// whose `data` holds an implausible number lexeme, which no
    /// well-behaved executor produces: that case is the caller's
    /// serialization failure.
    pub fn render_body(&self) -> (r: Option<String>)
        ensures
            r is Some <==> wf_result(*self),
            r matches Some(s) ==> s@ == result_text(*self),
    {
        let data_ok: bool = match &self.data {
            Some(v) => wf_check(v),
            None => true,
        };
        if !data_ok {
            return None;
        }
        let mut out: Vec<char> = Vec::new();
        crate::json::push_verbatim("{\"data\":", &mut out);
        match &self.data {
            Some(v) => {
                crate::json::push_json(v, &mut out);
            },
            None => {
                crate::json::push_verbatim("null", &mut out);
            },
        }
        if self.errors.len() > 0 {
            crate::json::push_verbatim(",\"errors\":[", &mut out);
            push_errors(&self.errors, 0, &mut out);
            crate::json::push_verbatim("]", &mut out);
        }
        crate::json::push_verbatim("}", &mut out);
        assert(out@ =~= result_text(*self));
        Some(crate::json::string_from_chars(&out))
    }
}

} // verus!
