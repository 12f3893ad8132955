//! JSON-RPC 2.0 dispatch of the MCP protocol: `initialize`, `tools/list`,
//! `tools/call` of the `transcribe` tool, and the answers to everything else.
//!
//! A request arrives already parsed (its `id` is carried through untouched as
//! an `I`); the dispatcher answers, stays silent, or asks its caller for the
//! outside work that a tool call needs (reading a file, running the
//! transcription) and continues when that work is done.

use vstd::prelude::*;
use crate::outside::{base64_standard_decode, decode_base64};
use crate::text::{concat_text, has_prefix, same_text, starts_with};

verus! {

/// JSON-RPC error code for a request that could not be parsed.
pub const PARSE_ERROR: i64 = -32700;

/// JSON-RPC error code for a method the server does not offer.
pub const METHOD_NOT_FOUND: i64 = -32601;

/// The arguments of a `tools/call` request; each field is present when the
/// request's `arguments` object holds that member as a JSON string.
pub struct ToolArguments {
    pub path: Option<String>,
    pub audio: Option<String>,
    pub format: Option<String>,
    pub language: Option<String>,
}

/// The `params` of a request as the dispatcher reads them: the tool `name`
/// (when it is a JSON string) and the tool's arguments.
pub struct CallParams {
    pub name: Option<String>,
    pub arguments: ToolArguments,
}

/// A parsed JSON-RPC request. `id` is absent for a notification or when the
/// request gave a null id.
pub struct JsonRpcRequest<I> {
    pub id: Option<I>,
    pub method: String,
    pub params: CallParams,
}

/// A JSON-RPC error object.
pub struct RpcError {
    pub code: i64,
    pub message: String,
}

/// What `initialize` answers.
pub struct ServerInfo {
    pub protocol_version: String,
    /// Whether the server announces the `tools` capability.
    pub offers_tools: bool,
    pub server_name: String,
    pub server_version: String,
}

/// One property of a tool's input schema, of JSON type `kind`.
pub struct SchemaProperty {
    pub name: String,
    pub kind: String,
    pub description: String,
}

/// A tool as `tools/list` describes it; its input schema is an object with
/// these properties.
pub struct ToolDescription {
    pub name: String,
    pub description: String,
    pub properties: Vec<SchemaProperty>,
}

/// The text content a tool call answers with; `is_error` marks a failed call.
pub struct ToolOutput {
    pub text: String,
    pub is_error: bool,
}

/// The `result` member of a successful response.
pub enum RpcResult {
    Initialize(ServerInfo),
    ToolList(Vec<ToolDescription>),
    ToolOutput(ToolOutput),
}

/// A JSON-RPC response.
pub struct JsonRpcResponse<I> {
    pub jsonrpc: String,
    pub id: Option<I>,
    pub result: Option<RpcResult>,
    pub error: Option<RpcError>,
}

/// The audio and language a transcription is to use.
pub struct TranscriptionJob {
    pub format: String,
    pub language: String,
}

/// Where the audio of a tool call came from.
#[derive(Clone, Copy, PartialEq, Eq, Debug)]
pub enum AudioOrigin {
    File,
    Base64,
}

/// What the dispatcher wants done next.
pub enum Action<I> {
    /// Send this response.
    Reply(JsonRpcResponse<I>),
    /// Send nothing (the request was a notification).
    NoReply,
    /// Read the file at `path` and hand the outcome to `continue_with_audio`.
    ReadFile { id: Option<I>, path: String, job: TranscriptionJob },
    /// Transcribe `audio` and hand the outcome to `transcription_finished`.
    Transcribe { id: Option<I>, audio: Vec<u8>, job: TranscriptionJob },
}

// ---------------------------------------------------------------------------
// Specifications
// ---------------------------------------------------------------------------

/// A response carries exactly one of `result` and `error`, and names version 2.0.
pub open spec fn well_formed_reply<I>(r: JsonRpcResponse<I>) -> bool {
    &&& r.jsonrpc@ == "2.0"@
    &&& (r.result is Some) != (r.error is Some)
}

/// `r` answers `id` with the JSON-RPC error `code` / `message`.
pub open spec fn is_error_reply<I>(r: JsonRpcResponse<I>, id: Option<I>, code: i64, message: Seq<char>) -> bool {
    &&& r.jsonrpc@ == "2.0"@
    &&& r.id == id
    &&& r.result is None
    &&& r.error matches Some(e) && e.code == code && e.message@ == message
}

/// `r` answers `id` with the tool output `text`, marked failed when `is_error`.
pub open spec fn is_tool_reply<I>(r: JsonRpcResponse<I>, id: Option<I>, text: Seq<char>, is_error: bool) -> bool {
    &&& r.jsonrpc@ == "2.0"@
    &&& r.id == id
    &&& r.error is None
    &&& r.result matches Some(RpcResult::ToolOutput(out)) && out.text@ == text && out.is_error == is_error
}

/// The server description that `initialize` answers with.
pub open spec fn is_server_info(info: ServerInfo) -> bool {
    &&& info.protocol_version@ == "2024-11-05"@
    &&& info.offers_tools
    &&& info.server_name@ == "whisper-mcp-server"@
    &&& info.server_version@ == "0.1.0"@
}

/// `p` is a string property `name` described by `description`.
pub open spec fn is_string_property(p: SchemaProperty, name: Seq<char>, description: Seq<char>) -> bool {
    &&& p.name@ == name
    &&& p.kind@ == "string"@
    &&& p.description@ == description
}

/// The description of the `transcribe` tool.
pub open spec fn is_transcribe_tool(t: ToolDescription) -> bool {
    &&& t.name@ == "transcribe"@
    &&& t.description@ == "Transcribe audio to text using Whisper. Provide either a local file path or base64-encoded audio data."@
    &&& t.properties@.len() == 4
    &&& is_string_property(t.properties@[0], "path"@, "Absolute path to audio file on disk (preferred for local files)"@)
    &&& is_string_property(t.properties@[1], "audio"@, "Base64-encoded audio data (alternative to path)"@)
    &&& is_string_property(t.properties@[2], "format"@, "Audio format: ogg (default), wav, mp3, etc."@)
    &&& is_string_property(t.properties@[3], "language"@, "Language code (ISO 639-1, e.g. 'ru', 'en') or 'auto'. Overrides server default."@)
}

/// `r` is the answer to `initialize` for `id`.
pub open spec fn is_initialize_reply<I>(r: JsonRpcResponse<I>, id: Option<I>) -> bool {
    &&& r.jsonrpc@ == "2.0"@
    &&& r.id == id
    &&& r.error is None
    &&& r.result matches Some(RpcResult::Initialize(info)) && is_server_info(info)
}

/// `r` is the answer to `tools/list` for `id`: the one tool `transcribe`.
pub open spec fn is_tool_list_reply<I>(r: JsonRpcResponse<I>, id: Option<I>) -> bool {
    &&& r.jsonrpc@ == "2.0"@
    &&& r.id == id
    &&& r.error is None
    &&& r.result matches Some(RpcResult::ToolList(tools)) && tools@.len() == 1 && is_transcribe_tool(tools@[0])
}

/// The text a failed audio load is reported with.
pub open spec fn load_failure_prefix(origin: AudioOrigin) -> Seq<char> {
    match origin {
        AudioOrigin::File => "Failed to read file: "@,
        AudioOrigin::Base64 => "Base64 decode error: "@,
    }
}

/// After loading audio from `origin` with outcome `loaded`, the next step is
/// `action`: transcription of the loaded bytes, or a failed tool output.
pub open spec fn audio_step<I>(
    id: Option<I>,
    format: Seq<char>,
    language: Seq<char>,
    origin: AudioOrigin,
    loaded: Result<Seq<u8>, Seq<char>>,
    action: Action<I>,
) -> bool {
    match loaded {
        Ok(bytes) => action matches Action::Transcribe { id: aid, audio, job } && aid == id
            && audio@ == bytes && job.format@ == format && job.language@ == language,
        Err(e) => action matches Action::Reply(r) && is_tool_reply(r, id, load_failure_prefix(origin) + e, true),
    }
}

/// The view of an optional text, or `default` when absent.
pub open spec fn text_or(t: Option<String>, default: Seq<char>) -> Seq<char> {
    match t {
        Some(s) => s@,
        None => default,
    }
}

/// The next step for a `tools/call` request `req` under the server's default language.
pub open spec fn tool_call_step<I>(req: JsonRpcRequest<I>, default_language: Seq<char>, action: Action<I>) -> bool {
    let name = text_or(req.params.name, Seq::empty());
    let args = req.params.arguments;
    let format = text_or(args.format, "ogg"@);
    let language = text_or(args.language, default_language);
    if name != "transcribe"@ {
        action matches Action::Reply(r) && is_tool_reply(r, req.id, "Unknown tool: "@ + name, true)
    } else if args.path is Some {
        action matches Action::ReadFile { id, path, job } && id == req.id
            && path@ == args.path->0@ && job.format@ == format && job.language@ == language
    } else if args.audio is Some {
        audio_step(req.id, format, language, AudioOrigin::Base64, base64_standard_decode(args.audio->0@), action)
    } else {
        action matches Action::Reply(r)
            && is_tool_reply(r, req.id, "Either 'path' or 'audio' must be provided"@, true)
    }
}

/// The next step for a request (or for text that did not parse as one, `None`).
pub open spec fn dispatch_step<I>(request: Option<JsonRpcRequest<I>>, default_language: Seq<char>, action: Action<I>) -> bool {
    match request {
        None => action matches Action::Reply(r) && is_error_reply(r, None, PARSE_ERROR, "Parse error"@),
        Some(req) => if has_prefix(req.method@, "notifications/"@) {
            action is NoReply
        } else if req.method@ == "initialize"@ {
            action matches Action::Reply(r) && is_initialize_reply(r, req.id)
        } else if req.method@ == "tools/list"@ {
            action matches Action::Reply(r) && is_tool_list_reply(r, req.id)
        } else if req.method@ == "tools/call"@ {
            tool_call_step(req, default_language, action)
        } else {
            action matches Action::Reply(r) && is_error_reply(r, req.id, METHOD_NOT_FOUND, "Method not found"@)
        },
    }
}

// ---------------------------------------------------------------------------
// Implementation
// ---------------------------------------------------------------------------

fn version_text() -> (s: String)
    ensures
        s@ == "2.0"@,
{
    String::from_str("2.0")
}

/// A JSON-RPC error response.
pub fn error_reply<I>(id: Option<I>, code: i64, message: &str) -> (r: JsonRpcResponse<I>)
    ensures
        is_error_reply(r, id, code, message@),
        well_formed_reply(r),
{
    JsonRpcResponse {
        jsonrpc: version_text(),
        id,
        result: None,
        error: Some(RpcError { code, message: String::from_str(message) }),
    }
}

/// The result of a failed tool call, reporting `message`.
pub fn mcp_error(message: &str) -> (r: RpcResult)
    ensures
        r matches RpcResult::ToolOutput(out) && out.text@ == message@ && out.is_error,
{
    RpcResult::ToolOutput(ToolOutput { text: String::from_str(message), is_error: true })
}

/// A response carrying a tool output.
pub fn tool_reply<I>(id: Option<I>, text: &str, is_error: bool) -> (r: JsonRpcResponse<I>)
    ensures
        is_tool_reply(r, id, text@, is_error),
        well_formed_reply(r),
{
    let result = if is_error {
        mcp_error(text)
    } else {
        RpcResult::ToolOutput(ToolOutput { text: String::from_str(text), is_error: false })
    };
    JsonRpcResponse { jsonrpc: version_text(), id, result: Some(result), error: None }
}

/// The answer to `initialize`.
pub fn handle_initialize<I>(id: Option<I>) -> (r: JsonRpcResponse<I>)
    ensures
        is_initialize_reply(r, id),
        well_formed_reply(r),
{
    let info = ServerInfo {
        protocol_version: String::from_str("2024-11-05"),
        offers_tools: true,
        server_name: String::from_str("whisper-mcp-server"),
        server_version: String::from_str("0.1.0"),
    };
    JsonRpcResponse {
        jsonrpc: version_text(),
        id,
        result: Some(RpcResult::Initialize(info)),
        error: None,
    }
}

fn string_property(name: &str, description: &str) -> (p: SchemaProperty)
    ensures
        is_string_property(p, name@, description@),
{
    SchemaProperty {
        name: String::from_str(name),
        kind: String::from_str("string"),
        description: String::from_str(description),
    }
}

/// The description of the `transcribe` tool.
pub fn transcribe_tool() -> (t: ToolDescription)
    ensures
        is_transcribe_tool(t),
{
    let mut properties: Vec<SchemaProperty> = Vec::new();
    properties.push(
        string_property("path", "Absolute path to audio file on disk (preferred for local files)"),
    );
    properties.push(string_property("audio", "Base64-encoded audio data (alternative to path)"));
    properties.push(string_property("format", "Audio format: ogg (default), wav, mp3, etc."));
    properties.push(
        string_property(
            "language",
            "Language code (ISO 639-1, e.g. 'ru', 'en') or 'auto'. Overrides server default.",
        ),
    );
    ToolDescription {
        name: String::from_str("transcribe"),
        description: String::from_str(
            "Transcribe audio to text using Whisper. Provide either a local file path or base64-encoded audio data.",
        ),
        properties,
    }
}

/// The answer to `tools/list`.
pub fn handle_tools_list<I>(id: Option<I>) -> (r: JsonRpcResponse<I>)
    ensures
        is_tool_list_reply(r, id),
        well_formed_reply(r),
{
    let mut tools: Vec<ToolDescription> = Vec::new();
    tools.push(transcribe_tool());
    JsonRpcResponse {
        jsonrpc: version_text(),
        id,
        result: Some(RpcResult::ToolList(tools)),
        error: None,
    }
}

fn load_failure_text(origin: AudioOrigin) -> (s: &'static str)
    ensures
        s@ == load_failure_prefix(origin),
{
    match origin {
        AudioOrigin::File => "Failed to read file: ",
        AudioOrigin::Base64 => "Base64 decode error: ",
    }
}

/// Continues a tool call once its audio has been loaded from `origin`:
/// transcribe the bytes, or report the failure as the tool's output.
pub fn continue_with_audio<I>(
    id: Option<I>,
    job: TranscriptionJob,
    origin: AudioOrigin,
    loaded: Result<Vec<u8>, String>,
) -> (action: Action<I>)
    ensures
        audio_step(
            id,
            job.format@,
            job.language@,
            origin,
            match loaded {
                Ok(b) => Ok::<Seq<u8>, Seq<char>>(b@),
                Err(e) => Err::<Seq<u8>, Seq<char>>(e@),
            },
            action,
        ),
{
    match loaded {
        Ok(audio) => Action::Transcribe { id, audio, job },
        Err(e) => {
            let text = concat_text(load_failure_text(origin), e.as_str());
            Action::Reply(tool_reply(id, text.as_str(), true))
        },
    }
}

/// The response once the transcription has finished with `outcome`: the
/// transcript, or the failure reported as the tool's output.
pub fn transcription_finished<I>(id: Option<I>, outcome: Result<String, String>) -> (r: JsonRpcResponse<I>)
    ensures
        well_formed_reply(r),
        match outcome {
            Ok(text) => is_tool_reply(r, id, text@, false),
            Err(e) => is_tool_reply(r, id, e@, true),
        },
{
    match outcome {
        Ok(text) => tool_reply(id, text.as_str(), false),
        Err(e) => tool_reply(id, e.as_str(), true),
    }
}

fn text_or_default(t: Option<String>, default: &str) -> (r: String)
    ensures
        r@ == text_or(t, default@),
{
    match t {
        Some(s) => s,
        None => String::from_str(default),
    }
}

/// The first step of a `tools/call` request.
pub fn handle_tools_call<I>(request: JsonRpcRequest<I>, default_language: &str) -> (action: Action<I>)
    ensures
        tool_call_step(request, default_language@, action),
{
    let JsonRpcRequest { id, params, .. } = request;
    let CallParams { name, arguments } = params;
    let tool_name = text_or_default(name, "");
    proof {
        reveal_strlit("");
        assert(""@ =~= Seq::<char>::empty());
    }
    if !same_text(tool_name.as_str(), "transcribe") {
        let text = concat_text("Unknown tool: ", tool_name.as_str());
        return Action::Reply(tool_reply(id, text.as_str(), true));
    }
    let ToolArguments { path, audio, format, language } = arguments;
    let job = TranscriptionJob {
        format: text_or_default(format, "ogg"),
        language: text_or_default(language, default_language),
    };
    match path {
        Some(path) => Action::ReadFile { id, path, job },
        None => match audio {
            Some(encoded) => {
                let decoded = decode_base64(encoded.as_str());
                continue_with_audio(id, job, AudioOrigin::Base64, decoded)
            },
            None => Action::Reply(
                tool_reply(id, "Either 'path' or 'audio' must be provided", true),
            ),
        },
    }
}

/// Dispatches one request (`None` when the text did not parse as a JSON-RPC
/// request): answers it, stays silent for a notification, or asks for the
/// outside work a tool call needs.
pub fn dispatch_request<I>(request: Option<JsonRpcRequest<I>>, default_language: &str) -> (action: Action<I>)
    ensures
        dispatch_step(request, default_language@, action),
{
    match request {
        None => Action::Reply(error_reply(None, PARSE_ERROR, "Parse error")),
        Some(req) => {
            if starts_with(req.method.as_str(), "notifications/") {
                Action::NoReply
            } else if same_text(req.method.as_str(), "initialize") {
                Action::Reply(handle_initialize(req.id))
            } else if same_text(req.method.as_str(), "tools/list") {
                Action::Reply(handle_tools_list(req.id))
            } else if same_text(req.method.as_str(), "tools/call") {
                handle_tools_call(req, default_language)
            } else {
                Action::Reply(error_reply(req.id, METHOD_NOT_FOUND, "Method not found"))
            }
        },
    }
}

// ---------------------------------------------------------------------------
// Laws
// ---------------------------------------------------------------------------

/// The request id a step carries, if it carries one.
pub open spec fn step_id<I>(action: Action<I>) -> Option<Option<I>> {
    match action {
        Action::Reply(r) => Some(r.id),
        Action::NoReply => None,
        Action::ReadFile { id, .. } => Some(id),
        Action::Transcribe { id, .. } => Some(id),
    }
}

/// Every response the dispatcher sends names JSON-RPC 2.0 and carries exactly
/// one of `result` and `error`.
pub proof fn law_replies_are_well_formed<I>(
    request: Option<JsonRpcRequest<I>>,
    default_language: Seq<char>,
    action: Action<I>,
)
    requires
        dispatch_step(request, default_language, action),
    ensures
        action matches Action::Reply(r) ==> well_formed_reply(r),
{
}

/// Every response, and every pending step, carries the id of the request it
/// answers; text that did not parse is answered without an id.
pub proof fn law_reply_echoes_request_id<I>(
    request: Option<JsonRpcRequest<I>>,
    default_language: Seq<char>,
    action: Action<I>,
)
    requires
        dispatch_step(request, default_language, action),
    ensures
        step_id(action) matches Some(id) ==> id == match request {
            Some(req) => req.id,
            None => None,
        },
{
}

/// Notifications are never answered, and every other request is answered or
/// continued.
pub proof fn law_only_notifications_go_unanswered<I>(
    request: Option<JsonRpcRequest<I>>,
    default_language: Seq<char>,
    action: Action<I>,
)
    requires
        dispatch_step(request, default_language, action),
    ensures
        (action is NoReply) <==> (request matches Some(req) && has_prefix(req.method@, "notifications/"@)),
{
}

/// A failing tool call is reported inside a successful response, as tool
/// output marked as an error, never as a JSON-RPC error; the same holds for
/// every later step of the call.
pub proof fn law_tool_failures_are_tool_output<I>(
    request: JsonRpcRequest<I>,
    default_language: Seq<char>,
    action: Action<I>,
)
    requires
        request.method@ == "tools/call"@,
        dispatch_step(Some(request), default_language, action),
    ensures
        action matches Action::Reply(r) ==> (r.error is None && (r.result matches Some(
            RpcResult::ToolOutput(out),
        ) && out.is_error)),
{
    assert(!has_prefix(request.method@, "notifications/"@)) by {
        reveal_strlit("tools/call");
        reveal_strlit("notifications/");
        assert(request.method@.len() == 10);
    }
    assert(request.method@ != "initialize"@) by {
        reveal_strlit("tools/call");
        reveal_strlit("initialize");
        assert(request.method@[0] != "initialize"@[0]);
    }
    assert(request.method@ != "tools/list"@) by {
        reveal_strlit("tools/call");
        reveal_strlit("tools/list");
        assert(request.method@[6] != "tools/list"@[6]);
    }
}

/// The transcription job a step carries, if it carries one.
pub open spec fn job_of<I>(action: Action<I>) -> Option<TranscriptionJob> {
    match action {
        Action::ReadFile { job, .. } => Some(job),
        Action::Transcribe { job, .. } => Some(job),
        _ => None,
    }
}

/// A `transcribe` call that gives a path reads that file; one that gives no
/// path but base64 audio that decodes transcribes the decoded bytes. Either
/// way the job carries the request's id, the format argument when one is
/// given and `ogg` only when none is, and the language argument when one is
/// given and the server's default language only when none is.
pub proof fn law_transcribe_job_follows_the_arguments<I>(
    req: JsonRpcRequest<I>,
    default_language: Seq<char>,
    action: Action<I>,
)
    requires
        tool_call_step(req, default_language, action),
        req.params.name matches Some(n) && n@ == "transcribe"@,
    ensures
        req.params.arguments.path matches Some(p) ==> (action matches Action::ReadFile { id, path, .. }
            && id == req.id && path@ == p@),
        (req.params.arguments.path is None && req.params.arguments.audio is Some
            && base64_standard_decode(req.params.arguments.audio->0@) is Ok) ==> (
        action matches Action::Transcribe { id, audio, .. } && id == req.id
            && audio@ == base64_standard_decode(req.params.arguments.audio->0@)->Ok_0),
        job_of(action) matches Some(job) ==> {
            &&& req.params.arguments.format matches Some(f) ==> job.format@ == f@
            &&& req.params.arguments.format is None ==> job.format@ == "ogg"@
            &&& req.params.arguments.language matches Some(l) ==> job.language@ == l@
            &&& req.params.arguments.language is None ==> job.language@ == default_language
        },
{
}

} // verus!
