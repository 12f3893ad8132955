use serde_json::Value;
use whisper_mcp_server::rpc::{
    continue_with_audio, dispatch_request, transcription_finished, Action, AudioOrigin,
    CallParams, JsonRpcRequest, JsonRpcResponse, RpcResult, ToolArguments, TranscriptionJob,
    METHOD_NOT_FOUND, PARSE_ERROR,
};

fn member_text(value: &Value, key: &str) -> Option<String> {
    value.get(key).and_then(|v| v.as_str()).map(String::from)
}

/// Reads a request the way the server's JSON layer does.
fn parse(text: &str) -> Option<JsonRpcRequest<Value>> {
    let doc: Value = serde_json::from_str(text).ok()?;
    doc.get("jsonrpc")?.as_str()?;
    let method = doc.get("method")?.as_str()?.to_string();
    let id = doc.get("id").cloned().filter(|v| !v.is_null());
    let params = doc.get("params").cloned().unwrap_or(Value::Null);
    let arguments = params.get("arguments").cloned().unwrap_or(Value::Object(Default::default()));
    Some(JsonRpcRequest {
        id,
        method,
        params: CallParams {
            name: member_text(&params, "name"),
            arguments: ToolArguments {
                path: member_text(&arguments, "path"),
                audio: member_text(&arguments, "audio"),
                format: member_text(&arguments, "format"),
                language: member_text(&arguments, "language"),
            },
        },
    })
}

fn parse_and_dispatch(request_json: &str, language: &str) -> Action<Value> {
    dispatch_request(parse(request_json), language)
}

fn reply(action: Action<Value>) -> JsonRpcResponse<Value> {
    match action {
        Action::Reply(r) => r,
        _ => panic!("expected a reply"),
    }
}

fn tool_output(r: &JsonRpcResponse<Value>) -> (&str, bool) {
    assert!(r.error.is_none());
    match &r.result {
        Some(RpcResult::ToolOutput(out)) => (out.text.as_str(), out.is_error),
        _ => panic!("expected tool output"),
    }
}

#[test]
fn test_dispatch_parse_error() {
    let result = parse_and_dispatch("not valid json {{{", "auto");
    assert!(matches!(result, Action::Reply(_)));
    let resp = reply(result);
    assert_eq!(resp.error.unwrap().code, -32700);
    assert!(resp.id.is_none());
}

#[test]
fn test_dispatch_method_not_found() {
    let input = r#"{"jsonrpc":"2.0","id":1,"method":"unknown/method"}"#;
    let result = parse_and_dispatch(input, "auto");
    assert!(matches!(result, Action::Reply(_)));
    let resp = reply(result);
    assert_eq!(resp.error.as_ref().unwrap().code, -32601);
    assert_eq!(resp.id, Some(Value::from(1)));
}

#[test]
fn test_dispatch_notification_returns_none() {
    let input = r#"{"jsonrpc":"2.0","method":"notifications/initialized"}"#;
    let result = parse_and_dispatch(input, "auto");
    assert!(matches!(result, Action::NoReply));
}

#[test]
fn test_dispatch_initialize() {
    let input = r#"{"jsonrpc":"2.0","id":1,"method":"initialize","params":{}}"#;
    let result = parse_and_dispatch(input, "auto");
    assert!(matches!(result, Action::Reply(_)));
    let resp = reply(result);
    assert_eq!(resp.id, Some(Value::from(1)));
    match resp.result {
        Some(RpcResult::Initialize(info)) => {
            assert_eq!(info.protocol_version, "2024-11-05");
            assert_eq!(info.server_name, "whisper-mcp-server");
            assert_eq!(info.server_version, "0.1.0");
            assert!(info.offers_tools);
        }
        _ => panic!("expected the initialize result"),
    }
}

#[test]
fn error_codes_are_the_json_rpc_ones() {
    assert_eq!(PARSE_ERROR, -32700);
    assert_eq!(METHOD_NOT_FOUND, -32601);
    let resp = reply(parse_and_dispatch("[1,2", "auto"));
    let err = resp.error.unwrap();
    assert_eq!(err.message, "Parse error");
    assert_eq!(resp.jsonrpc, "2.0");
    let resp = reply(parse_and_dispatch(r#"{"jsonrpc":"2.0","id":"x","method":"ping"}"#, "auto"));
    assert_eq!(resp.error.unwrap().message, "Method not found");
    assert_eq!(resp.id, Some(Value::from("x")));
    assert!(resp.result.is_none());
}

#[test]
fn tools_list_describes_transcribe() {
    let resp = reply(parse_and_dispatch(r#"{"jsonrpc":"2.0","id":2,"method":"tools/list"}"#, "auto"));
    assert_eq!(resp.id, Some(Value::from(2)));
    let tools = match resp.result {
        Some(RpcResult::ToolList(tools)) => tools,
        _ => panic!("expected the tool list"),
    };
    assert_eq!(tools.len(), 1);
    assert_eq!(tools[0].name, "transcribe");
    assert_eq!(
        tools[0].description,
        "Transcribe audio to text using Whisper. Provide either a local file path or base64-encoded audio data."
    );
    let names: Vec<&str> = tools[0].properties.iter().map(|p| p.name.as_str()).collect();
    assert_eq!(names, vec!["path", "audio", "format", "language"]);
    assert!(tools[0].properties.iter().all(|p| p.kind == "string"));
    assert_eq!(
        tools[0].properties[2].description,
        "Audio format: ogg (default), wav, mp3, etc."
    );
}

#[test]
fn notifications_are_silent_whatever_follows_the_prefix() {
    let input = r#"{"jsonrpc":"2.0","id":5,"method":"notifications/cancelled"}"#;
    assert!(matches!(parse_and_dispatch(input, "auto"), Action::NoReply));
}

#[test]
fn unknown_tool_is_a_tool_error() {
    let input = r#"{"jsonrpc":"2.0","id":3,"method":"tools/call","params":{"name":"translate"}}"#;
    let resp = reply(parse_and_dispatch(input, "auto"));
    assert_eq!(tool_output(&resp), ("Unknown tool: translate", true));
    let input = r#"{"jsonrpc":"2.0","id":3,"method":"tools/call","params":{}}"#;
    let resp = reply(parse_and_dispatch(input, "auto"));
    assert_eq!(tool_output(&resp), ("Unknown tool: ", true));
}

#[test]
fn transcribe_needs_path_or_audio() {
    let input = r#"{"jsonrpc":"2.0","id":4,"method":"tools/call","params":{"name":"transcribe","arguments":{"format":"wav"}}}"#;
    let resp = reply(parse_and_dispatch(input, "auto"));
    assert_eq!(
        tool_output(&resp),
        ("Either 'path' or 'audio' must be provided", true)
    );
    assert_eq!(resp.id, Some(Value::from(4)));
}

#[test]
fn path_is_read_with_defaults() {
    let input = r#"{"jsonrpc":"2.0","id":3,"method":"tools/call","params":{"name":"transcribe","arguments":{"path":"/tmp/recording.wav","audio":"AAAA"}}}"#;
    match parse_and_dispatch(input, "ru") {
        Action::ReadFile { id, path, job } => {
            assert_eq!(id, Some(Value::from(3)));
            assert_eq!(path, "/tmp/recording.wav");
            assert_eq!(job.format, "ogg");
            assert_eq!(job.language, "ru");
        }
        _ => panic!("expected a file read"),
    }
}

#[test]
fn base64_audio_is_decoded() {
    let input = r#"{"jsonrpc":"2.0","id":7,"method":"tools/call","params":{"name":"transcribe","arguments":{"audio":"aGVsbG8=","format":"wav","language":"en"}}}"#;
    match parse_and_dispatch(input, "auto") {
        Action::Transcribe { id, audio, job } => {
            assert_eq!(id, Some(Value::from(7)));
            assert_eq!(audio, b"hello".to_vec());
            assert_eq!(job.format, "wav");
            assert_eq!(job.language, "en");
        }
        _ => panic!("expected a transcription"),
    }
}

#[test]
fn bad_base64_is_a_tool_error() {
    let input = r#"{"jsonrpc":"2.0","id":8,"method":"tools/call","params":{"name":"transcribe","arguments":{"audio":"not base64!"}}}"#;
    let resp = reply(parse_and_dispatch(input, "auto"));
    let (text, is_error) = tool_output(&resp);
    assert!(is_error);
    assert!(text.starts_with("Base64 decode error: "));
    assert!(text.len() > "Base64 decode error: ".len());
}

#[test]
fn file_outcomes_continue_the_call() {
    let job = || TranscriptionJob { format: "wav".to_string(), language: "auto".to_string() };
    let id = Some(Value::from(9));
    match continue_with_audio(id.clone(), job(), AudioOrigin::File, Ok(vec![1, 2, 3])) {
        Action::Transcribe { id: got, audio, job } => {
            assert_eq!(got, id);
            assert_eq!(audio, vec![1, 2, 3]);
            assert_eq!(job.format, "wav");
        }
        _ => panic!("expected a transcription"),
    }
    let resp = reply(continue_with_audio(
        id.clone(),
        job(),
        AudioOrigin::File,
        Err("No such file or directory (os error 2)".to_string()),
    ));
    assert_eq!(
        tool_output(&resp),
        ("Failed to read file: No such file or directory (os error 2)", true)
    );
}

#[test]
fn transcription_outcomes_become_tool_output() {
    let resp = transcription_finished(Some(Value::from(1)), Ok("Hello, world!".to_string()));
    assert_eq!(tool_output(&resp), ("Hello, world!", false));
    let resp: JsonRpcResponse<Value> =
        transcription_finished(None, Err("Whisper inference error: boom".to_string()));
    assert_eq!(tool_output(&resp), ("Whisper inference error: boom", true));
}
