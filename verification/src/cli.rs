//! Start-up rules: the transport a name selects, the address the HTTP
//! transport binds, and which lines of the stdio transport carry a request.

use vstd::prelude::*;
use crate::text::{concat_text, decimal, decimal_text, same_text, trim, trimmed};

verus! {

/// How the server talks to its client.
#[derive(Clone, Copy, PartialEq, Eq, Debug)]
pub enum Transport {
    /// One JSON-RPC message per line on standard input and output.
    Stdio,
    /// MCP Streamable HTTP.
    Http,
}

/// The transport named `name`, or the text of the refusal.
pub open spec fn transport_spec(name: Seq<char>) -> Result<Transport, Seq<char>> {
    if name == "stdio"@ {
        Ok(Transport::Stdio)
    } else if name == "http"@ {
        Ok(Transport::Http)
    } else {
        Err("Unknown transport: "@ + name)
    }
}

/// Selects the transport named on the command line.
pub fn select_transport(name: &str) -> (r: Result<Transport, String>)
    ensures
        match r {
            Ok(t) => transport_spec(name@) == Ok::<Transport, Seq<char>>(t),
            Err(e) => transport_spec(name@) == Err::<Transport, Seq<char>>(e@),
        },
{
    if same_text(name, "stdio") {
        Ok(Transport::Stdio)
    } else if same_text(name, "http") {
        Ok(Transport::Http)
    } else {
        Err(concat_text("Unknown transport: ", name))
    }
}

/// The address the HTTP transport listens on: `host:port`.
pub fn bind_address(host: &str, port: u16) -> (a: String)
    ensures
        a@ == host@ + ":"@ + decimal(port as nat),
{
    let with_colon = concat_text(host, ":");
    let digits = decimal_text(port as u64);
    concat_text(with_colon.as_str(), digits.as_str())
}

/// The request a line of the stdio transport carries: the line without its
/// surrounding whitespace, or nothing when that leaves it empty.
pub open spec fn stdio_request_spec(line: Seq<char>) -> Option<Seq<char>> {
    if trimmed(line).len() == 0 {
        None
    } else {
        Some(trimmed(line))
    }
}

/// The request text of one line read on the stdio transport.
pub fn stdio_request(line: &str) -> (r: Option<String>)
    ensures
        match r {
            Some(s) => stdio_request_spec(line@) == Some(s@),
            None => stdio_request_spec(line@) is None,
        },
{
    let t = trim(line);
    if t.as_str().unicode_len() == 0 {
        None
    } else {
        Some(t)
    }
}

} // verus!
