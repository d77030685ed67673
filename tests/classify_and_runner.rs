use nautilus_runtime::harness::{
    build_runner, normalize_js, NODE_RUNNER_HEAD, NODE_RUNNER_TAIL, PYTHON_RUNNER_HEAD,
    PYTHON_RUNNER_TAIL,
};
use nautilus_runtime::language::{detect_language, Language};

#[test]
fn python_entry_fixture_is_python() {
    assert_eq!(detect_language("def main(input):\n    return input"), Language::Py);
}

#[test]
fn exported_function_fixture_is_js() {
    assert_eq!(detect_language("export function main(input) { return input; }"), Language::Js);
}

#[test]
fn source_without_markers_defaults_to_js() {
    assert_eq!(detect_language("const x = 1;\nconsole.log(x);"), Language::Js);
    assert_eq!(detect_language(""), Language::Js);
}

#[test]
fn async_and_plain_entry_are_js() {
    assert_eq!(detect_language("async function main(input) { return 1; }"), Language::Js);
    assert_eq!(detect_language("function main(input) { return 1; }"), Language::Js);
}

#[test]
fn python_marker_is_tried_first() {
    assert_eq!(detect_language("export_value = 1\ndef main(input):\n    return export_value"), Language::Py);
}

#[test]
fn surrounding_white_space_does_not_matter() {
    assert_eq!(detect_language(" \n\t def main(input):\n    return 1 \n\n"), Language::Py);
}

#[test]
fn export_async_function_becomes_plain() {
    assert_eq!(
        normalize_js("export async function main(x) { return x; }"),
        "async function main(x) { return x; }"
    );
}

#[test]
fn export_function_becomes_plain() {
    assert_eq!(normalize_js("export function main(x) { return x; }"), "function main(x) { return x; }");
}

#[test]
fn export_const_becomes_plain() {
    assert_eq!(normalize_js("export const main = (x) => x;"), "const main = (x) => x;");
}

#[test]
fn other_exports_are_left_alone() {
    assert_eq!(normalize_js("export default 1;\nexport function helper() {}"), "export default 1;\nexport function helper() {}");
}

#[test]
fn every_exported_entry_is_rewritten() {
    assert_eq!(
        normalize_js("export function main(a) {}\nexport function main(b) {}"),
        "function main(a) {}\nfunction main(b) {}"
    );
}

#[test]
fn node_runner_wraps_normalized_code() {
    let code = "export function main(input) { return input; }";
    let script = build_runner(Language::Js, code);
    let expected = format!("{}{}{}", NODE_RUNNER_HEAD, "function main(input) { return input; }", NODE_RUNNER_TAIL);
    assert_eq!(script, expected);
    assert!(script.contains("main(input) is not defined"));
    assert!(script.contains("process.argv[2]"));
}

#[test]
fn typescript_runs_as_javascript() {
    let code = "export const main = (input: number) => input;";
    assert_eq!(build_runner(Language::Ts, code), build_runner(Language::Js, code));
}

#[test]
fn python_runner_escapes_the_code() {
    let code = "def main(input):\n    return 'a\\n' + '''b'''";
    let script = build_runner(Language::Py, code);
    let escaped = "def main(input):\n    return \\'a\\\\n\\' + \\'\\'\\'b\\'\\'\\'";
    assert_eq!(script, format!("{}{}{}", PYTHON_RUNNER_HEAD, escaped, PYTHON_RUNNER_TAIL));
    assert!(script.contains("main(input) is not defined"));
    assert!(script.contains("sys.argv[1]"));
}
