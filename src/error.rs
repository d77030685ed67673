//! The errors an execution request can end in; each is final for its request.
use vstd::prelude::*;

use crate::executor::{engine_name, Engine};
use crate::text::{chars_of, extend_chars, string_of};

verus! {

/// Why an execution request failed.
#[derive(Debug)]
pub enum RuntimeError {
    /// The content store could not deliver the blob; its message.
    UpstreamFetch(String),
    /// The blob is not UTF-8; the decoder's message.
    InvalidEncoding(String),
    /// The blob looks like JSON but does not parse; the parser's message.
    InvalidJson(String),
    /// The blob is JSON without a string member `code`.
    MissingCodeField,
    /// No program is registered under this id.
    ProgramNotFound(String),
    /// The interpreter could not be started; the launcher's message.
    Launch(Engine, String),
    /// The script exited with a failure; the message holds what it wrote to
    /// standard error.
    Execution(Engine, String),
    /// The script succeeded but its standard output is not one JSON value;
    /// the parser's message.
    OutputDecode(Engine, String),
}

/// The machine-readable kind of `e`.
pub open spec fn kind_of(e: RuntimeError) -> Seq<char> {
    match e {
        RuntimeError::UpstreamFetch(_) => "upstream_fetch_error"@,
        RuntimeError::InvalidEncoding(_) => "invalid_encoding"@,
        RuntimeError::InvalidJson(_) => "invalid_json"@,
        RuntimeError::MissingCodeField => "missing_code_field"@,
        RuntimeError::ProgramNotFound(_) => "program_not_found"@,
        RuntimeError::Launch(_, _) => "launch_error"@,
        RuntimeError::Execution(_, _) => "execution_error"@,
        RuntimeError::OutputDecode(_, _) => "output_decode_error"@,
    }
}

/// The human-readable message of `e`.
pub open spec fn message_of(e: RuntimeError) -> Seq<char> {
    match e {
        RuntimeError::UpstreamFetch(m) => "content store read failed: "@ + m@,
        RuntimeError::InvalidEncoding(m) => "blob is not valid UTF-8: "@ + m@,
        RuntimeError::InvalidJson(m) => "blob is not valid JSON: "@ + m@,
        RuntimeError::MissingCodeField => "JSON blob has no string field `code`"@,
        RuntimeError::ProgramNotFound(id) => "program not found: "@ + id@,
        RuntimeError::Launch(engine, m) => "cannot start "@ + engine_name(engine) + ": "@ + m@,
        RuntimeError::Execution(_, m) => m@,
        RuntimeError::OutputDecode(engine, m) => engine_name(engine) + " output is not JSON: "@ + m@,
    }
}

/// The characters of `a` followed by those of `b`.
fn concat(a: &str, b: &str) -> (r: String)
    ensures
        r@ == a@ + b@,
{
    let mut out = chars_of(a);
    extend_chars(&mut out, &chars_of(b));
    string_of(&out)
}

impl RuntimeError {
    /// The machine-readable kind.
    pub fn kind(&self) -> (r: &'static str)
        ensures
            r@ == kind_of(*self),
    {
        match self {
            RuntimeError::UpstreamFetch(_) => "upstream_fetch_error",
            RuntimeError::InvalidEncoding(_) => "invalid_encoding",
            RuntimeError::InvalidJson(_) => "invalid_json",
            RuntimeError::MissingCodeField => "missing_code_field",
            RuntimeError::ProgramNotFound(_) => "program_not_found",
            RuntimeError::Launch(_, _) => "launch_error",
            RuntimeError::Execution(_, _) => "execution_error",
            RuntimeError::OutputDecode(_, _) => "output_decode_error",
        }
    }

    /// The human-readable message.
    pub fn message(&self) -> (r: String)
        ensures
            r@ == message_of(*self),
    {
        proof {
            reveal_strlit("");
            assert(forall|x: Seq<char>| x + ""@ =~= x);
        }
        match self {
            RuntimeError::UpstreamFetch(m) => concat("content store read failed: ", m.as_str()),
            RuntimeError::InvalidEncoding(m) => concat("blob is not valid UTF-8: ", m.as_str()),
            RuntimeError::InvalidJson(m) => concat("blob is not valid JSON: ", m.as_str()),
            RuntimeError::MissingCodeField => concat("JSON blob has no string field `code`", ""),
            RuntimeError::ProgramNotFound(id) => concat("program not found: ", id.as_str()),
            RuntimeError::Launch(engine, m) => {
                let head = concat("cannot start ", engine.name());
                let head = concat(head.as_str(), ": ");
                concat(head.as_str(), m.as_str())
            },
            RuntimeError::Execution(_, m) => concat(m.as_str(), ""),
            RuntimeError::OutputDecode(engine, m) => {
                let head = concat(engine.name(), " output is not JSON: ");
                concat(head.as_str(), m.as_str())
            },
        }
    }
}

} // verus!
