//! What running a runner script takes, and how its result is read. The
//! process itself is started by the caller, which reports back a
//! `ProcessOutcome`.
use vstd::prelude::*;

use crate::decode::{check_json, is_json, utf8_lossy, utf8_text_lossy};
use crate::error::RuntimeError;
use crate::harness::{build_runner, runner_script};
use crate::language::Language;
use crate::text::{chars_of, contains, extend_chars, occurs_at, string_of, trim, trim_exec};

verus! {

/// The interpreter family that runs a language.
#[derive(Clone, Copy, Debug, PartialEq, Eq, Structural)]
pub enum Engine {
    Node,
    Python,
}

/// The engine for `language`; TypeScript runs on Node.
pub open spec fn engine_of(language: Language) -> Engine {
    match language {
        Language::Py => Engine::Python,
        _ => Engine::Node,
    }
}

/// The name of `engine`, which is also the interpreter's command.
pub open spec fn engine_name(engine: Engine) -> Seq<char> {
    match engine {
        Engine::Node => "node"@,
        Engine::Python => "python"@,
    }
}

impl Engine {
    /// The engine for `language`.
    pub fn of(language: Language) -> (r: Engine)
        ensures
            r == engine_of(language),
    {
        match language {
            Language::Py => Engine::Python,
            _ => Engine::Node,
        }
    }

    /// The engine's name.
    pub fn name(&self) -> (r: &'static str)
        ensures
            r@ == engine_name(*self),
    {
        match self {
            Engine::Node => "node",
            Engine::Python => "python",
        }
    }
}

/// One run of an interpreter: `interpreter`, then `flags`, then the script
/// (inline, or as the path of a file written with `script_file_extension`
/// when that is given), then `payload` as the single argument.
#[derive(Debug)]
pub struct Invocation {
    pub engine: Engine,
    pub interpreter: String,
    pub flags: Vec<String>,
    pub script: String,
    pub script_file_extension: Option<String>,
    pub payload: String,
}

/// Node reads the runner from an ES module file; Python takes it inline,
/// unbuffered.
pub open spec fn launch_form(inv: Invocation) -> bool {
    match inv.engine {
        Engine::Node => {
            &&& inv.flags@.len() == 0
            &&& inv.script_file_extension matches Some(ext) && ext@ == ".mjs"@
        },
        Engine::Python => {
            &&& inv.flags@.len() == 2
            &&& inv.flags@[0]@ == "-u"@
            &&& inv.flags@[1]@ == "-c"@
            &&& inv.script_file_extension is None
        },
    }
}

/// `inv` runs `code` as `language` on the JSON text `payload`.
pub open spec fn invocation_for(
    inv: Invocation,
    language: Language,
    code: Seq<char>,
    payload: Seq<char>,
) -> bool {
    &&& inv.engine == engine_of(language)
    &&& inv.interpreter@ == engine_name(inv.engine)
    &&& launch_form(inv)
    &&& inv.script@ == runner_script(language, code)
    &&& inv.payload@ == payload
}

fn owned(s: &str) -> (r: String)
    ensures
        r@ == s@,
{
    string_of(&chars_of(s))
}

/// The invocation that runs `code` as `language` on `payload`.
pub fn plan_invocation(language: Language, code: &str, payload: &str) -> (r: Invocation)
    ensures
        invocation_for(r, language, code@, payload@),
{
    let engine = Engine::of(language);
    let (flags, script_file_extension) = match engine {
        Engine::Node => (Vec::new(), Some(owned(".mjs"))),
        Engine::Python => (vec![owned("-u"), owned("-c")], None),
    };
    Invocation {
        engine,
        interpreter: owned(engine.name()),
        flags,
        script: build_runner(language, code),
        script_file_extension,
        payload: owned(payload),
    }
}

/// How a run ended, as the caller that started the process saw it.
pub enum ProcessOutcome {
    /// The interpreter could not be started; the launcher's message.
    NotLaunched(String),
    /// The process ran to its end.
    Exited { success: bool, stdout: Vec<u8>, stderr: Vec<u8> },
}

/// The output value of a run: the trimmed standard output of a successful
/// exit, when it is one JSON value.
pub open spec fn accepted_output(outcome: ProcessOutcome) -> Option<Seq<char>> {
    match outcome {
        ProcessOutcome::Exited { success: true, stdout, .. } => {
            let t = trim(utf8_lossy(stdout@));
            if is_json(t) {
                Some(t)
            } else {
                None
            }
        },
        _ => None,
    }
}

/// The message of a failed run of `engine` that wrote `stderr`.
pub open spec fn failure_message(engine: Engine, stderr: Seq<u8>) -> Seq<char> {
    engine_name(engine) + " error: "@ + utf8_lossy(stderr)
}

/// `e` is the error that `outcome` of a run on `engine` ends in.
pub open spec fn outcome_error(engine: Engine, outcome: ProcessOutcome, e: RuntimeError) -> bool {
    match outcome {
        ProcessOutcome::NotLaunched(m) => e matches RuntimeError::Launch(g, msg) && g == engine
            && msg@ == m@,
        ProcessOutcome::Exited { success, stderr, .. } => if success {
            e matches RuntimeError::OutputDecode(g, _) && g == engine
        } else {
            e matches RuntimeError::Execution(g, msg) && g == engine && msg@ == failure_message(
                engine,
                stderr@,
            )
        },
    }
}

/// The output value of a run of `engine`, or the error it ends in.
pub fn read_outcome(engine: Engine, outcome: ProcessOutcome) -> (r: Result<String, RuntimeError>)
    ensures
        r is Ok <==> accepted_output(outcome) is Some,
        r matches Ok(t) ==> t@ == accepted_output(outcome)->0,
        r matches Err(e) ==> outcome_error(engine, outcome, e),
{
    match outcome {
        ProcessOutcome::NotLaunched(m) => Err(RuntimeError::Launch(engine, m)),
        ProcessOutcome::Exited { success, stdout, stderr } => {
            if !success {
                let mut message = chars_of(engine.name());
                extend_chars(&mut message, &chars_of(" error: "));
                extend_chars(&mut message, &chars_of(utf8_text_lossy(&stderr).as_str()));
                return Err(RuntimeError::Execution(engine, string_of(&message)));
            }
            let text = string_of(&trim_exec(&chars_of(utf8_text_lossy(&stdout).as_str())));
            match check_json(text.as_str()) {
                Ok(()) => Ok(text),
                Err(m) => Err(RuntimeError::OutputDecode(engine, m)),
            }
        },
    }
}

/// The output value of a run depends on its exit status and standard output
/// alone: what it wrote to standard error never reaches it.
pub proof fn lemma_output_ignores_diagnostics(
    success: bool,
    stdout: Vec<u8>,
    first_stderr: Vec<u8>,
    second_stderr: Vec<u8>,
)
    ensures
        accepted_output(ProcessOutcome::Exited { success, stdout, stderr: first_stderr })
            == accepted_output(ProcessOutcome::Exited { success, stdout, stderr: second_stderr }),
{
}

/// A failed run's message holds, after the engine's name, all that the run
/// wrote to standard error.
pub proof fn lemma_failure_keeps_diagnostics(engine: Engine, stderr: Seq<u8>)
    ensures
        contains(failure_message(engine, stderr), utf8_lossy(stderr)),
{
    let m = failure_message(engine, stderr);
    let k = m.len() - utf8_lossy(stderr).len();
    assert(m.subrange(k, k + utf8_lossy(stderr).len()) =~= utf8_lossy(stderr));
    assert(occurs_at(m, utf8_lossy(stderr), k));
}
} // verus!
