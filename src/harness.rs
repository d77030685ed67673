//! Runner scripts that hold user code to the calling convention: one JSON
//! argument in, `main(input)` called, one JSON value out on standard output,
//! everything else on standard error, and a non-zero exit on any failure.
use vstd::prelude::*;

use crate::language::Language;
use crate::text::{chars_of, extend_chars, replace_all, replace_all_exec, string_of};

verus! {

/// What the Node runner prints before the user code. Anything the user code
/// writes to standard output is sent to standard error instead.
pub const NODE_RUNNER_HEAD: &'static str = "
const input = JSON.parse(process.argv[2]);
const __emit = process.stdout.write.bind(process.stdout);
process.stdout.write = process.stderr.write.bind(process.stderr);

async function __run() {
";

/// What the Node runner prints after the user code.
pub const NODE_RUNNER_TAIL: &'static str = "

  if (typeof main !== 'function') {
    throw new Error('main(input) is not defined');
  }

  const result = await main(input);
  const text = JSON.stringify(result);
  if (typeof text !== 'string') {
    throw new Error('main(input) returned a value that cannot be encoded as JSON');
  }
  __emit(text);
}

__run().catch(e => {
  console.error(e);
  process.exit(1);
});
";

/// What the Python runner prints before the escaped user code, which stands
/// inside a triple-quoted string literal.
pub const PYTHON_RUNNER_HEAD: &'static str = "
import asyncio, contextlib, inspect, json, sys

USER_CODE = '''";

/// What the Python runner prints after the escaped user code. The user code
/// runs with standard output sent to standard error.
pub const PYTHON_RUNNER_TAIL: &'static str = "'''


async def __settle(pending):
    return await pending


def __run():
    input_data = json.loads(sys.argv[1])
    scope = {}
    with contextlib.redirect_stdout(sys.stderr):
        exec(USER_CODE, scope)
        main = scope.get(\"main\")
        if not callable(main):
            raise RuntimeError(\"main(input) is not defined\")
        result = main(input_data)
        if inspect.isawaitable(result):
            result = asyncio.run(__settle(result))
    return json.dumps(result)


try:
    __text = __run()
except BaseException as e:
    sys.stderr.write(f\"{type(e).__name__}: {e}\\n\")
    sys.exit(1)
sys.stdout.write(__text + \"\\n\")
";

/// An exported asynchronous entry function; rewritten first.
pub const EXPORT_ASYNC_FN: &'static str = "export async function main";

/// What `EXPORT_ASYNC_FN` becomes.
pub const PLAIN_ASYNC_FN: &'static str = "async function main";

/// An exported entry function; rewritten second.
pub const EXPORT_FN: &'static str = "export function main";

/// What `EXPORT_FN` becomes.
pub const PLAIN_FN: &'static str = "function main";

/// An exported entry constant; rewritten last.
pub const EXPORT_CONST: &'static str = "export const main";

/// What `EXPORT_CONST` becomes.
pub const PLAIN_CONST: &'static str = "const main";

/// `code` with the exported entry-point declarations made plain, so that the
/// runner's own function sees `main` in scope.
pub open spec fn normalized_js(code: Seq<char>) -> Seq<char> {
    replace_all(
        replace_all(replace_all(code, EXPORT_ASYNC_FN@, PLAIN_ASYNC_FN@), EXPORT_FN@, PLAIN_FN@),
        EXPORT_CONST@,
        PLAIN_CONST@,
    )
}

/// `code` escaped for a Python string literal: each backslash doubled, then
/// each single quote preceded by a backslash.
pub open spec fn python_escaped(code: Seq<char>) -> Seq<char> {
    replace_all(replace_all(code, "\\"@, "\\\\"@), "'"@, "\\'"@)
}

/// The runner script for `code` in `language`.
pub open spec fn runner_script(language: Language, code: Seq<char>) -> Seq<char> {
    match language {
        Language::Py => PYTHON_RUNNER_HEAD@ + python_escaped(code) + PYTHON_RUNNER_TAIL@,
        _ => NODE_RUNNER_HEAD@ + normalized_js(code) + NODE_RUNNER_TAIL@,
    }
}

proof fn lemma_literals_nonempty()
    ensures
        EXPORT_ASYNC_FN@.len() > 0,
        EXPORT_FN@.len() > 0,
        EXPORT_CONST@.len() > 0,
        "\\"@.len() > 0,
        "'"@.len() > 0,
{
    reveal_strlit("export async function main");
    reveal_strlit("export function main");
    reveal_strlit("export const main");
    reveal_strlit("\\");
    reveal_strlit("'");
}

fn normalized_js_chars(code: &str) -> (r: Vec<char>)
    ensures
        r@ == normalized_js(code@),
{
    proof {
        lemma_literals_nonempty();
    }
    let step = replace_all_exec(&chars_of(code), &chars_of(EXPORT_ASYNC_FN), &chars_of(PLAIN_ASYNC_FN));
    let step = replace_all_exec(&step, &chars_of(EXPORT_FN), &chars_of(PLAIN_FN));
    replace_all_exec(&step, &chars_of(EXPORT_CONST), &chars_of(PLAIN_CONST))
}

/// Rewrites `export async function main`, `export function main` and
/// `export const main` into plain declarations.
pub fn normalize_js(code: &str) -> (r: String)
    ensures
        r@ == normalized_js(code@),
{
    string_of(&normalized_js_chars(code))
}

fn python_escaped_chars(code: &str) -> (r: Vec<char>)
    ensures
        r@ == python_escaped(code@),
{
    proof {
        lemma_literals_nonempty();
    }
    let step = replace_all_exec(&chars_of(code), &chars_of("\\"), &chars_of("\\\\"));
    replace_all_exec(&step, &chars_of("'"), &chars_of("\\'"))
}

/// The runner script that executes `code` as `language`.
pub fn build_runner(language: Language, code: &str) -> (r: String)
    ensures
        r@ == runner_script(language, code@),
{
    let (head, body, tail) = match language {
        Language::Py => (chars_of(PYTHON_RUNNER_HEAD), python_escaped_chars(code), chars_of(PYTHON_RUNNER_TAIL)),
        _ => (chars_of(NODE_RUNNER_HEAD), normalized_js_chars(code), chars_of(NODE_RUNNER_TAIL)),
    };
    let mut script = head;
    extend_chars(&mut script, &body);
    extend_chars(&mut script, &tail);
    string_of(&script)
}

} // verus!
