# whisper_mcp_server

A speech-to-text server speaking the Model Context Protocol (JSON-RPC 2.0
over stdio or MCP Streamable HTTP), with its request handling written in
Verus and proved against its specifications.

## Layout

- `src/` — the verified library.
  - `rpc.rs`: the JSON-RPC model and the dispatcher (`initialize`,
    `tools/list`, `tools/call` of the `transcribe` tool, errors), as a
    step function: answer, stay silent, read a file, or transcribe.
  - `http_gate.rs`: Bearer authentication, the `Content-Type` check, the
    session store, and the replies of `POST /mcp` and `DELETE /mcp`.
  - `audio.rs`: decoder choice, the Ogg/Opus identification header, the
    packet loop's decisions, and the texts of decoding failures.
  - `transcription.rs`: the model's language setting, transcript assembly.
  - `cli.rs`: transport selection, the bind address, stdio request lines.
  - `text.rs`: Unicode trimming, prefix and substring tests, decimal text.
  - `outside.rs`: the trusted items through which the library calls
    `base64`, `uuid`, `serde_json` and `axum::http`.
- `app/` — the program around it: argument parsing, the stdio loop, the axum
  server, JSON (de)serialisation, and audio decoding and inference, which work
  on floating-point samples.
- `tests/` — tests of the library.
