use nautilus_runtime::coordinator::{extract_source, prepare_from_blob, BlobExecutionRequest};
use nautilus_runtime::digest::hash_text;
use nautilus_runtime::error::RuntimeError;
use nautilus_runtime::executor::{read_outcome, Engine, ProcessOutcome};

const PY_ECHO: &str = "def main(input):\n    return input";

fn request(blob_id: &str, payload: &str) -> BlobExecutionRequest {
    BlobExecutionRequest { blob_id: blob_id.to_string(), payload: payload.to_string() }
}

#[test]
fn json_blob_is_unwrapped() {
    let blob = "{\"code\":\"def main(input):\\n    return input\"}";
    assert_eq!(extract_source(blob).unwrap(), PY_ECHO);
}

#[test]
fn raw_blob_is_the_source() {
    assert_eq!(extract_source(PY_ECHO).unwrap(), PY_ECHO);
}

#[test]
fn json_blob_after_blank_space_is_unwrapped() {
    assert_eq!(extract_source("  \n{\"code\": \"x\", \"other\": 1}").unwrap(), "x");
}

#[test]
fn json_blob_without_code_is_refused() {
    assert!(matches!(extract_source("{\"source\":\"x\"}"), Err(RuntimeError::MissingCodeField)));
    assert!(matches!(extract_source("{\"code\":42}"), Err(RuntimeError::MissingCodeField)));
}

#[test]
fn broken_json_blob_is_refused() {
    assert!(matches!(extract_source("{\"code\": "), Err(RuntimeError::InvalidJson(_))));
}

#[test]
fn blob_flow_detects_language_and_uses_blob_id() {
    let blob = b"{\"code\":\"def main(input):\\n    return input\"}".to_vec();
    let run = prepare_from_blob(&request("blob-1", "[1,2]"), Ok(blob)).unwrap();
    assert_eq!(run.program_id, "blob-1");
    assert_eq!(run.code_hash, hash_text(PY_ECHO));
    assert_eq!(run.input_hash, hash_text("[1,2]"));
    assert_eq!(run.invocation.engine, Engine::Python);
    assert_eq!(run.invocation.interpreter, "python");
    assert_eq!(run.invocation.flags, vec!["-u".to_string(), "-c".to_string()]);
    assert_eq!(run.invocation.script_file_extension, None);
    assert_eq!(run.invocation.payload, "[1,2]");
}

#[test]
fn blob_fetch_failure_is_reported() {
    match prepare_from_blob(&request("b", "{}"), Err("timed out".to_string())) {
        Err(RuntimeError::UpstreamFetch(m)) => assert_eq!(m, "timed out"),
        other => panic!("unexpected: {:?}", other),
    }
}

#[test]
fn non_utf8_blob_is_refused() {
    let r = prepare_from_blob(&request("b", "{}"), Ok(vec![0x66, 0xff, 0xfe]));
    assert!(matches!(r, Err(RuntimeError::InvalidEncoding(_))));
}

#[test]
fn launch_failure_is_reported() {
    match read_outcome(Engine::Node, ProcessOutcome::NotLaunched("not found".to_string())) {
        Err(e) => {
            assert_eq!(e.kind(), "launch_error");
            assert_eq!(e.message(), "cannot start node: not found");
        }
        other => panic!("unexpected: {:?}", other),
    }
}

#[test]
fn missing_entry_point_is_an_execution_error() {
    let stderr = b"Error: main(input) is not defined\n    at __run".to_vec();
    let outcome = ProcessOutcome::Exited { success: false, stdout: Vec::new(), stderr };
    match read_outcome(Engine::Node, outcome) {
        Err(RuntimeError::Execution(engine, m)) => {
            assert_eq!(engine, Engine::Node);
            assert!(m.starts_with("node error: "));
            assert!(m.contains("main(input) is not defined"));
        }
        other => panic!("unexpected: {:?}", other),
    }
}

#[test]
fn invalid_utf8_diagnostics_are_replaced() {
    let outcome = ProcessOutcome::Exited { success: false, stdout: Vec::new(), stderr: vec![b'b', b'a', b'd', 0xff] };
    match read_outcome(Engine::Python, outcome) {
        Err(RuntimeError::Execution(_, m)) => assert_eq!(m, "python error: bad\u{fffd}"),
        other => panic!("unexpected: {:?}", other),
    }
}

#[test]
fn output_is_only_the_returned_value() {
    let outcome = ProcessOutcome::Exited {
        success: true,
        stdout: b"{\"ok\":true}\n".to_vec(),
        stderr: b"log line from user code\n".to_vec(),
    };
    let out = read_outcome(Engine::Python, outcome).unwrap();
    assert_eq!(out, "{\"ok\":true}");
    assert!(!out.contains("log line"));
}

#[test]
fn output_is_trimmed() {
    let outcome = ProcessOutcome::Exited { success: true, stdout: b"  42 \n".to_vec(), stderr: Vec::new() };
    assert_eq!(read_outcome(Engine::Node, outcome).unwrap(), "42");
}

#[test]
fn empty_output_is_a_decode_error() {
    let outcome = ProcessOutcome::Exited { success: true, stdout: Vec::new(), stderr: Vec::new() };
    match read_outcome(Engine::Node, outcome) {
        Err(e) => assert_eq!(e.kind(), "output_decode_error"),
        other => panic!("unexpected: {:?}", other),
    }
}

#[test]
fn mixed_output_is_a_decode_error() {
    let outcome = ProcessOutcome::Exited { success: true, stdout: b"hello\n{\"a\":1}".to_vec(), stderr: Vec::new() };
    assert!(matches!(read_outcome(Engine::Python, outcome), Err(RuntimeError::OutputDecode(Engine::Python, _))));
}

#[test]
fn error_kinds_and_messages() {
    assert_eq!(RuntimeError::MissingCodeField.kind(), "missing_code_field");
    assert_eq!(RuntimeError::MissingCodeField.message(), "JSON blob has no string field `code`");
    let e = RuntimeError::ProgramNotFound("p".to_string());
    assert_eq!(e.kind(), "program_not_found");
    assert_eq!(e.message(), "program not found: p");
    assert_eq!(RuntimeError::UpstreamFetch("x".to_string()).kind(), "upstream_fetch_error");
    assert_eq!(RuntimeError::InvalidEncoding("x".to_string()).kind(), "invalid_encoding");
    assert_eq!(RuntimeError::InvalidJson("x".to_string()).message(), "blob is not valid JSON: x");
    assert_eq!(RuntimeError::Execution(Engine::Node, "node error: x".to_string()).message(), "node error: x");
    assert_eq!(RuntimeError::OutputDecode(Engine::Node, "x".to_string()).message(), "node output is not JSON: x");
}
