use nautilus_runtime::coordinator::ExecutionRecord;
use nautilus_runtime::digest::hash_text;
use nautilus_runtime::error::RuntimeError;
use nautilus_runtime::executor::{Engine, ProcessOutcome};
use nautilus_runtime::language::Language;
use nautilus_runtime::registry::Registry;

#[test]
fn hash_of_known_texts() {
    assert_eq!(hash_text(""), "e3b0c44298fc1c149afbf4c8996fb92427ae41e4649b934ca495991b7852b855");
    assert_eq!(hash_text("abc"), "ba7816bf8f01cfea414140de5dae2223b00361a396177a9cb410ff61f20015ad");
}

#[test]
fn hash_is_deterministic() {
    let s = "def main(input):\n    return input";
    assert_eq!(hash_text(s), hash_text(s));
    assert_eq!(hash_text(s).len(), 64);
    assert_ne!(hash_text(s), hash_text("def main(input):\n    return None"));
}

#[test]
fn same_code_under_two_ids_has_one_hash() {
    let mut registry = Registry::new();
    let code = "function main(input) { return input; }";
    let a = registry.register(Some("a".to_string()), Language::Js, code.to_string());
    let b = registry.register(Some("b".to_string()), Language::Ts, code.to_string());
    assert_eq!(a.code_hash, b.code_hash);
    assert_eq!(a.code_hash, hash_text(code));
    assert_eq!(registry.lookup("a").unwrap().code_hash, registry.lookup("b").unwrap().code_hash);
}

#[test]
fn register_without_id_draws_a_fresh_one() {
    let mut registry = Registry::new();
    let a = registry.register(None, Language::Py, "def main(input):\n    return 1".to_string());
    let b = registry.register(None, Language::Py, "def main(input):\n    return 1".to_string());
    assert_eq!(a.id.len(), 36);
    assert_ne!(a.id, b.id);
    assert!(registry.lookup(&a.id).is_some());
    assert!(registry.lookup(&b.id).is_some());
}

#[test]
fn registering_an_id_again_replaces_it() {
    let mut registry = Registry::new();
    registry.register(Some("p".to_string()), Language::Js, "function main(i) { return 1; }".to_string());
    registry.register(Some("p".to_string()), Language::Py, "def main(i):\n    return 2".to_string());
    let p = registry.lookup("p").unwrap();
    assert_eq!(p.language, Language::Py);
    assert_eq!(p.code, "def main(i):\n    return 2");
    assert_eq!(p.code_hash, hash_text("def main(i):\n    return 2"));
}

#[test]
fn unknown_id_is_not_found() {
    let mut registry = Registry::new();
    registry.register(Some("known".to_string()), Language::Js, "function main(i) { return i; }".to_string());
    assert!(registry.lookup("unknown-id").is_none());
    match registry.prepare_run("unknown-id", "{}") {
        Err(RuntimeError::ProgramNotFound(id)) => assert_eq!(id, "unknown-id"),
        other => panic!("unexpected: {:?}", other),
    }
}

#[test]
fn register_then_run_records_both_hashes() {
    let mut registry = Registry::new();
    let code = "def main(input):\n    return input";
    let payload = "{\"x\":1}";
    let summary = registry.register(Some("echo".to_string()), Language::Py, code.to_string());
    let run = registry.prepare_run(&summary.id, payload).unwrap();
    assert_eq!(run.program_id, "echo");
    assert_eq!(run.invocation.engine, Engine::Python);
    assert_eq!(run.invocation.payload, payload);
    assert!(run.timestamp_ms > 1_600_000_000_000);
    let outcome = ProcessOutcome::Exited { success: true, stdout: b"{\"x\": 1}\n".to_vec(), stderr: Vec::new() };
    let record: ExecutionRecord = run.finish(outcome).unwrap();
    assert_eq!(record.program_id, "echo");
    assert_eq!(record.code_hash, hash_text(code));
    assert_eq!(record.input_hash, hash_text(payload));
    assert_eq!(record.output, "{\"x\": 1}");
    let (result, timestamp) = record.into_signing_parts();
    assert_eq!(result.code_hash, hash_text(code));
    assert!(timestamp > 1_600_000_000_000);
}

#[test]
fn registered_language_is_kept() {
    let mut registry = Registry::new();
    // Looks like Python, but was registered as JavaScript.
    registry.register(Some("js".to_string()), Language::Js, "// def main\nfunction main(i) { return i; }".to_string());
    let run = registry.prepare_run("js", "null").unwrap();
    assert_eq!(run.invocation.engine, Engine::Node);
    assert_eq!(run.invocation.interpreter, "node");
    assert!(run.invocation.flags.is_empty());
    assert_eq!(run.invocation.script_file_extension.as_deref(), Some(".mjs"));
}
