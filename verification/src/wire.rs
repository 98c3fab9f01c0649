//! Reading one inbound protocol line: whether it parses as JSON, and the
//! few fields the dispatcher routes on, extracted into plain values.
//!
//! Each extracted field is a function of the line text alone — parsing and
//! member lookup consult nothing else — so each is given a name, and one
//! trusted function per field ties the name to the serde_json calls that
//! compute it. The dispatcher's contract can then speak of the line itself:
//! what `parse_wire` hands on for a line is exactly `spec_wire` of that
//! line's text.
use vstd::prelude::*;
use crate::config::opt_view;

verus! {

/// Whether serde_json accepts `s` as one JSON document.
pub uninterp spec fn json_accepts(s: Seq<char>) -> bool;

/// The request's method name in the line: the text of its `method` member,
/// or empty when the line is unacceptable or the member is absent or not a
/// string.
pub uninterp spec fn spec_wire_method(s: Seq<char>) -> Seq<char>;

/// The serialized form of the request's `id` in the line, echoed verbatim
/// into any reply: the text `null` when the line is unacceptable or no `id`
/// was given.
pub uninterp spec fn spec_wire_id(s: Seq<char>) -> Seq<char>;

/// Whether the line carries a `params` member that is an object.
pub uninterp spec fn spec_wire_has_params(s: Seq<char>) -> bool;

/// The string under `params.name` in the line, when present.
pub uninterp spec fn spec_wire_name(s: Seq<char>) -> Option<Seq<char>>;

/// The string under `params.uri` in the line, when present.
pub uninterp spec fn spec_wire_uri(s: Seq<char>) -> Option<Seq<char>>;

/// The string under `params.arguments.args` in the line, when present.
pub uninterp spec fn spec_wire_args(s: Seq<char>) -> Option<Seq<char>>;

/// The string under `params.arguments.input` in the line, when present.
pub uninterp spec fn spec_wire_input(s: Seq<char>) -> Option<Seq<char>>;

/// Relies on `serde_json::from_str` for `serde_json::Value`: whether a text
/// parses is a function of the text alone.
#[verifier::external_body]
fn wire_accepted(line: &str) -> (r: bool)
    ensures
        r == json_accepts(line@),
{
    serde_json::from_str::<serde_json::Value>(line).is_ok()
}

/// Relies on `serde_json::from_str`, `Value::get`, and `Value::as_str`: all
/// functions of the line text alone.
#[verifier::external_body]
fn wire_method(line: &str) -> (r: String)
    ensures
        r@ == spec_wire_method(line@),
{
    let v: serde_json::Value = match serde_json::from_str(line) {
        Ok(v) => v,
        Err(_) => return String::new(),
    };
    let m = match v.get("method") {
        Some(m) => m,
        None => return String::new(),
    };
    match m.as_str() {
        Some(s) => s.to_owned(),
        None => String::new(),
    }
}

/// Relies on `serde_json::from_str`, `Value::get`, and the `Display`
/// implementation of `serde_json::Value` (through `to_string`, the compact
/// serialization, itself one valid JSON document): all functions of the
/// line text alone.
#[verifier::external_body]
fn wire_id(line: &str) -> (r: String)
    ensures
        r@ == spec_wire_id(line@),
{
    let v: serde_json::Value = match serde_json::from_str(line) {
        Ok(v) => v,
        Err(_) => return "null".to_string(),
    };
    match v.get("id") {
        Some(i) => i.to_string(),
        None => "null".to_string(),
    }
}

/// Relies on `serde_json::from_str`, `Value::get`, and `Value::is_object`:
/// all functions of the line text alone.
#[verifier::external_body]
fn wire_has_params(line: &str) -> (r: bool)
    ensures
        r == spec_wire_has_params(line@),
{
    let v: serde_json::Value = match serde_json::from_str(line) {
        Ok(v) => v,
        Err(_) => return false,
    };
    match v.get("params") {
        Some(p) => p.is_object(),
        None => false,
    }
}

/// Relies on `serde_json::from_str`, `Value::get`, and `Value::as_str`: all
/// functions of the line text alone.
#[verifier::external_body]
fn wire_name(line: &str) -> (r: Option<String>)
    ensures
        opt_view(r) == spec_wire_name(line@),
{
    let v: serde_json::Value = match serde_json::from_str(line) {
        Ok(v) => v,
        Err(_) => return None,
    };
    let p = match v.get("params") {
        Some(p) => p,
        None => return None,
    };
    let n = match p.get("name") {
        Some(n) => n,
        None => return None,
    };
    n.as_str().map(|s| s.to_owned())
}

/// Relies on `serde_json::from_str`, `Value::get`, and `Value::as_str`: all
/// functions of the line text alone.
#[verifier::external_body]
fn wire_uri(line: &str) -> (r: Option<String>)
    ensures
        opt_view(r) == spec_wire_uri(line@),
{
    let v: serde_json::Value = match serde_json::from_str(line) {
        Ok(v) => v,
        Err(_) => return None,
    };
    let p = match v.get("params") {
        Some(p) => p,
        None => return None,
    };
    let u = match p.get("uri") {
        Some(u) => u,
        None => return None,
    };
    u.as_str().map(|s| s.to_owned())
}

/// Relies on `serde_json::from_str`, `Value::get`, and `Value::as_str`: all
/// functions of the line text alone.
#[verifier::external_body]
fn wire_args(line: &str) -> (r: Option<String>)
    ensures
        opt_view(r) == spec_wire_args(line@),
{
    let v: serde_json::Value = match serde_json::from_str(line) {
        Ok(v) => v,
        Err(_) => return None,
    };
    let a = match v.get("params") {
        Some(p) => match p.get("arguments") {
            Some(a) => a,
            None => return None,
        },
        None => return None,
    };
    match a.get("args") {
        Some(s) => s.as_str().map(|t| t.to_owned()),
        None => None,
    }
}

/// Relies on `serde_json::from_str`, `Value::get`, and `Value::as_str`: all
/// functions of the line text alone.
#[verifier::external_body]
fn wire_input(line: &str) -> (r: Option<String>)
    ensures
        opt_view(r) == spec_wire_input(line@),
{
    let v: serde_json::Value = match serde_json::from_str(line) {
        Ok(v) => v,
        Err(_) => return None,
    };
    let a = match v.get("params") {
        Some(p) => match p.get("arguments") {
            Some(a) => a,
            None => return None,
        },
        None => return None,
    };
    match a.get("input") {
        Some(s) => s.as_str().map(|t| t.to_owned()),
        None => None,
    }
}

/// The fields of one request the dispatcher routes on, as plain values.
///
/// `method` is the request's method name, or empty when absent or not a
/// string. `id_json` is the serialized form of the request's `id`, echoed
/// verbatim into any reply, and the text `null` when no `id` was given.
/// `has_params` says whether a `params` object was present; `name`, `uri`,
/// `args` and `input` are the string parameters the handlers consume, when
/// present.
pub struct WireRequest {
    pub method: String,
    pub id_json: String,
    pub has_params: bool,
    pub name: Option<String>,
    pub uri: Option<String>,
    pub args: Option<String>,
    pub input: Option<String>,
}

pub struct WireV {
    pub method: Seq<char>,
    pub id_json: Seq<char>,
    pub has_params: bool,
    pub name: Option<Seq<char>>,
    pub uri: Option<Seq<char>>,
    pub args: Option<Seq<char>>,
    pub input: Option<Seq<char>>,
}

impl View for WireRequest {
    type V = WireV;

    open spec fn view(&self) -> WireV {
        WireV {
            method: self.method@,
            id_json: self.id_json@,
            has_params: self.has_params,
            name: opt_view(self.name),
            uri: opt_view(self.uri),
            args: opt_view(self.args),
            input: opt_view(self.input),
        }
    }
}

/// What one line's text extracts to: the routed fields, each by its name.
pub open spec fn spec_wire(s: Seq<char>) -> WireV {
    WireV {
        method: spec_wire_method(s),
        id_json: spec_wire_id(s),
        has_params: spec_wire_has_params(s),
        name: spec_wire_name(s),
        uri: spec_wire_uri(s),
        args: spec_wire_args(s),
        input: spec_wire_input(s),
    }
}

/// Parses one line as a protocol message and extracts the routed fields.
/// Fails exactly when the line is not acceptable JSON; what it hands on is
/// exactly `spec_wire` of the line's text.
pub fn parse_wire(line: &str) -> (r: Option<WireRequest>)
    ensures
        r is Some <==> json_accepts(line@),
        r matches Some(w) ==> w@ == spec_wire(line@),
{
    if !wire_accepted(line) {
        return None;
    }
    let w = WireRequest {
        method: wire_method(line),
        id_json: wire_id(line),
        has_params: wire_has_params(line),
        name: wire_name(line),
        uri: wire_uri(line),
        args: wire_args(line),
        input: wire_input(line),
    };
    proof {
        assert(w@ == spec_wire(line@));
    }
    Some(w)
}

} // verus!
