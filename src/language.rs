//! The script languages the engine runs, and how a source text is assigned one.
use vstd::prelude::*;

use crate::text::{chars_of, contains, contains_exec, trim, trim_exec};

verus! {

/// A script language; TypeScript runs exactly as JavaScript does.
#[derive(Clone, Copy, Debug, PartialEq, Eq, Structural)]
pub enum Language {
    Js,
    Ts,
    Py,
}

/// Marks a Python entry function.
pub const PY_ENTRY_MARKER: &'static str = "def main";

/// Marks an exported JavaScript declaration.
pub const JS_EXPORT_MARKER: &'static str = "export";

/// Marks an asynchronous JavaScript entry function.
pub const JS_ASYNC_ENTRY_MARKER: &'static str = "async function main";

/// Marks a plain JavaScript entry function.
pub const JS_ENTRY_MARKER: &'static str = "function main";

/// The language that the rules, tried in order on the trimmed source, assign
/// to `source`; JavaScript when none applies.
pub open spec fn classify(source: Seq<char>) -> Language {
    let t = trim(source);
    if contains(t, PY_ENTRY_MARKER@) {
        Language::Py
    } else if contains(t, JS_EXPORT_MARKER@) || contains(t, JS_ASYNC_ENTRY_MARKER@) {
        Language::Js
    } else if contains(t, JS_ENTRY_MARKER@) {
        Language::Js
    } else {
        Language::Js
    }
}

/// Picks the language of `code` by its entry-point markers.
pub fn detect_language(code: &str) -> (r: Language)
    ensures
        r == classify(code@),
{
    let trimmed = trim_exec(&chars_of(code));
    if contains_exec(&trimmed, &chars_of(PY_ENTRY_MARKER)) {
        return Language::Py;
    }
    if contains_exec(&trimmed, &chars_of(JS_EXPORT_MARKER)) || contains_exec(
        &trimmed,
        &chars_of(JS_ASYNC_ENTRY_MARKER),
    ) {
        return Language::Js;
    }
    if contains_exec(&trimmed, &chars_of(JS_ENTRY_MARKER)) {
        return Language::Js;
    }
    Language::Js
}

} // verus!
