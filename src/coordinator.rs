//! The two execution flows, by registered id and by content-store blob, from
//! the request to a run ready to start, and from the run's outcome to the
//! execution record handed to a signer.
use vstd::prelude::*;
use vstd::utf8::{decode_utf8, valid_utf8};

use crate::decode::{is_json, json_string_member, string_member, utf8_text};
use crate::digest::{hash_text, text_hash};
use crate::error::RuntimeError;
use crate::executor::{
    accepted_output, invocation_for, outcome_error, plan_invocation, read_outcome, Invocation,
    ProcessOutcome,
};
use crate::language::{classify, detect_language, Language};
use crate::registry::{program_view, ProgramView, Registry};
use crate::text::{chars_of, trim_start, trim_start_exec};

verus! {

/// A request to run the code held by a content-store blob; `payload` is the
/// JSON text of the input.
#[derive(Debug)]
pub struct BlobExecutionRequest {
    pub blob_id: String,
    pub payload: String,
}

/// The verifiable part of an execution: what was run, on what, and what it
/// returned (`output` is JSON text).
#[derive(Debug)]
pub struct RuntimeResult {
    pub program_id: String,
    pub code_hash: String,
    pub input_hash: String,
    pub output: String,
}

/// The record of one execution.
#[derive(Debug)]
pub struct ExecutionRecord {
    pub program_id: String,
    pub code_hash: String,
    pub input_hash: String,
    pub output: String,
    pub timestamp_ms: u64,
}

/// An execution whose inputs are settled, waiting for its process to run.
#[derive(Debug)]
pub struct PreparedRun {
    pub program_id: String,
    pub code_hash: String,
    pub input_hash: String,
    pub timestamp_ms: u64,
    pub invocation: Invocation,
}

/// The name of the member of a JSON blob that holds the code.
pub const CODE_FIELD: &'static str = "code";

/// `run` executes `code` as `language` for `program_id` on the JSON text
/// `payload`, recording `code_hash` and the hash of `payload`.
pub open spec fn run_for(
    run: PreparedRun,
    program_id: Seq<char>,
    language: Language,
    code: Seq<char>,
    code_hash: Seq<char>,
    payload: Seq<char>,
) -> bool {
    &&& run.program_id@ == program_id
    &&& run.code_hash@ == code_hash
    &&& run.input_hash@ == text_hash(payload)
    &&& invocation_for(run.invocation, language, code, payload)
}

/// `rec` records `run` with the output value `output`.
pub open spec fn record_for(rec: ExecutionRecord, run: PreparedRun, output: Seq<char>) -> bool {
    &&& rec.program_id@ == run.program_id@
    &&& rec.code_hash@ == run.code_hash@
    &&& rec.input_hash@ == run.input_hash@
    &&& rec.output@ == output
    &&& rec.timestamp_ms == run.timestamp_ms
}

/// Blob text whose first non-blank character is `{` holds JSON.
pub open spec fn json_wrapped(text: Seq<char>) -> bool {
    let t = trim_start(text);
    t.len() > 0 && t[0] == '{'
}

/// The source code a blob text holds: the string member `code` of JSON blob
/// text, or the whole text otherwise.
pub open spec fn blob_source(text: Seq<char>) -> Option<Seq<char>> {
    if json_wrapped(text) {
        if is_json(text) {
            json_string_member(text, CODE_FIELD@)
        } else {
            None
        }
    } else {
        Some(text)
    }
}

/// Relies on `chrono::Utc::now` and `DateTime::timestamp_millis`: the
/// current time in milliseconds since the Unix epoch.
#[verifier::external_body]
fn now_millis() -> (r: i64) {
    chrono::Utc::now().timestamp_millis()
}

/// The source code held by the blob text `text`.
pub fn extract_source(text: &str) -> (r: Result<String, RuntimeError>)
    ensures
        r is Ok <==> blob_source(text@) is Some,
        r matches Ok(code) ==> code@ == blob_source(text@)->0,
        r matches Err(e) ==> if is_json(text@) {
            e is MissingCodeField
        } else {
            e is InvalidJson
        },
{
    let rest = trim_start_exec(&chars_of(text));
    if rest.len() > 0 && rest[0] == '{' {
        match string_member(text, CODE_FIELD) {
            Err(m) => Err(RuntimeError::InvalidJson(m)),
            Ok(None) => Err(RuntimeError::MissingCodeField),
            Ok(Some(code)) => Ok(code),
        }
    } else {
        Ok(text.to_owned())
    }
}

fn prepare(program_id: String, language: Language, code: &str, code_hash: String, payload: &str) -> (r: PreparedRun)
    ensures
        run_for(r, program_id@, language, code@, code_hash@, payload@),
{
    let input_hash = hash_text(payload);
    let timestamp_ms = now_millis() as u64;
    PreparedRun {
        program_id,
        code_hash,
        input_hash,
        timestamp_ms,
        invocation: plan_invocation(language, code, payload),
    }
}

impl Registry {
    /// Prepares a run of the program registered under `id` on the JSON text
    /// `payload`, in the language it was registered with.
    pub fn prepare_run(&self, id: &str, payload: &str) -> (r: Result<PreparedRun, RuntimeError>)
        requires
            self.wf(),
        ensures
            r is Ok <==> self.view().contains_key(id@),
            r matches Err(e) ==> e matches RuntimeError::ProgramNotFound(x) && x@ == id@,
            r matches Ok(run) ==> run_for(
                run,
                id@,
                self.view()[id@].language,
                self.view()[id@].code,
                self.view()[id@].code_hash,
                payload@,
            ),
    {
        match self.lookup(id) {
            None => Err(RuntimeError::ProgramNotFound(id.to_owned())),
            Some(program) => Ok(
                prepare(
                    program.id.clone(),
                    program.language,
                    program.code.as_str(),
                    program.code_hash.clone(),
                    payload,
                ),
            ),
        }
    }
}

/// Prepares a run of the code in the blob `request.blob_id`, whose bytes the
/// content store delivered as `fetched`, on `request.payload`. The language
/// is detected from the code, and the blob id stands as the program id.
pub fn prepare_from_blob(request: &BlobExecutionRequest, fetched: Result<Vec<u8>, String>) -> (r: Result<PreparedRun, RuntimeError>)
    ensures
        fetched matches Err(m) ==> r matches Err(e) && e matches RuntimeError::UpstreamFetch(x) && x@ == m@,
        fetched matches Ok(bytes) ==> {
            if !valid_utf8(bytes@) {
                r matches Err(e) && e is InvalidEncoding
            } else {
                let text = decode_utf8(bytes@);
                match blob_source(text) {
                    Some(code) => r matches Ok(run) && run_for(
                        run,
                        request.blob_id@,
                        classify(code),
                        code,
                        text_hash(code),
                        request.payload@,
                    ),
                    None => r matches Err(e) && if is_json(text) {
                        e is MissingCodeField
                    } else {
                        e is InvalidJson
                    },
                }
            }
        },
{
    let bytes = match fetched {
        Err(m) => {
            return Err(RuntimeError::UpstreamFetch(m));
        },
        Ok(bytes) => bytes,
    };
    let text = match utf8_text(bytes) {
        Err(m) => {
            return Err(RuntimeError::InvalidEncoding(m));
        },
        Ok(text) => text,
    };
    let code = extract_source(text.as_str())?;
    let language = detect_language(code.as_str());
    let code_hash = hash_text(code.as_str());
    Ok(prepare(request.blob_id.clone(), language, code.as_str(), code_hash, request.payload.as_str()))
}

impl PreparedRun {
    /// The execution record of this run, given how its process ended.
    pub fn finish(self, outcome: ProcessOutcome) -> (r: Result<ExecutionRecord, RuntimeError>)
        ensures
            r is Ok <==> accepted_output(outcome) is Some,
            r matches Ok(rec) ==> record_for(rec, self, accepted_output(outcome)->0),
            r matches Err(e) ==> outcome_error(self.invocation.engine, outcome, e),
    {
        let output = read_outcome(self.invocation.engine, outcome)?;
        Ok(
            ExecutionRecord {
                program_id: self.program_id,
                code_hash: self.code_hash,
                input_hash: self.input_hash,
                output,
                timestamp_ms: self.timestamp_ms,
            },
        )
    }
}

impl ExecutionRecord {
    /// The record split into what a signer signs and the timestamp it signs
    /// it with.
    pub fn into_signing_parts(self) -> (r: (RuntimeResult, u64))
        ensures
            r.0.program_id == self.program_id,
            r.0.code_hash == self.code_hash,
            r.0.input_hash == self.input_hash,
            r.0.output == self.output,
            r.1 == self.timestamp_ms,
    {
        (
            RuntimeResult {
                program_id: self.program_id,
                code_hash: self.code_hash,
                input_hash: self.input_hash,
                output: self.output,
            },
            self.timestamp_ms,
        )
    }
}

/// The hash of a text depends on its characters alone: equal texts hash
/// equally, however often they are hashed.
pub proof fn lemma_hash_deterministic(a: Seq<char>, b: Seq<char>)
    requires
        a == b,
    ensures
        text_hash(a) == text_hash(b),
{
}

/// Registering the same code under two different ids, in any languages,
/// stores the same code hash under both.
pub proof fn lemma_code_hash_follows_code(
    programs: Map<Seq<char>, ProgramView>,
    first_id: Seq<char>,
    first_language: Language,
    second_id: Seq<char>,
    second_language: Language,
    code: Seq<char>,
)
    requires
        first_id != second_id,
    ensures
        ({
            let after = programs.insert(first_id, program_view(first_language, code)).insert(
                second_id,
                program_view(second_language, code),
            );
            &&& after.contains_key(first_id)
            &&& after.contains_key(second_id)
            &&& after[first_id].code_hash == after[second_id].code_hash
            &&& after[first_id].code_hash == text_hash(code)
        }),
{
}

/// Registering `code` under `id` and then running `id` on `payload` records
/// the hash of `code` as the code hash and the hash of `payload` as the
/// input hash, whatever the run printed.
pub proof fn lemma_register_then_run(
    programs: Map<Seq<char>, ProgramView>,
    id: Seq<char>,
    language: Language,
    code: Seq<char>,
    payload: Seq<char>,
    run: PreparedRun,
    output: Seq<char>,
    rec: ExecutionRecord,
)
    requires
        ({
            let after = programs.insert(id, program_view(language, code));
            run_for(run, id, after[id].language, after[id].code, after[id].code_hash, payload)
        }),
        record_for(rec, run, output),
    ensures
        programs.insert(id, program_view(language, code)).contains_key(id),
        run.code_hash@ == text_hash(code),
        run.input_hash@ == text_hash(payload),
        rec.program_id@ == id,
        rec.code_hash@ == text_hash(code),
        rec.input_hash@ == text_hash(payload),
        rec.output@ == output,
{
}

} // verus!
