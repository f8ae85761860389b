//! The decisions of the HTTP server around the dispatcher: where it
//! listens, what the front page answers, and which broadcast events reach
//! the event stream.

use vstd::prelude::*;
use vstd::string::*;
use crate::reply::{Reply, ContentKind, error_json, error_body};

verus! {

/// The port used when `CC_SWITCH_PORT` is not set.
pub open spec fn default_port() -> Seq<char> {
    "10245"@
}

/// The address the server listens on: the loopback interface and the
/// configured port, or port 10245.
pub open spec fn spec_listen_address(port: Option<Seq<char>>) -> Seq<char> {
    "127.0.0.1:"@ + match port {
        Some(p) => p,
        None => default_port(),
    }
}

/// The address the server listens on, given the value of `CC_SWITCH_PORT`
/// if it is set.
pub fn listen_address(port: Option<String>) -> (r: String)
    ensures
        r@ == spec_listen_address(
            match port {
                Some(p) => Some(p@),
                None => None,
            },
        ),
{
    match port {
        Some(p) => String::from_str("127.0.0.1:").concat(p.as_str()),
        None => String::from_str("127.0.0.1:").concat("10245"),
    }
}

/// The message shown when the front end has not been built.
pub open spec fn frontend_missing() -> Seq<char> {
    "Frontend not built. Run `pnpm build:renderer` first."@
}

/// The answer to `GET /`: the front page, or 503 with a JSON error when
/// `index.html` could not be read.
pub fn index_reply(html: Option<String>) -> (r: Reply)
    ensures
        match html {
            Some(page) => r.status == 200 && r.body@ == page@ && r.content == ContentKind::Html,
            None => r.status == 503 && r.body@ == error_json(frontend_missing()) && r.content
                == ContentKind::Json,
        },
{
    match html {
        Some(page) => Reply { status: 200, body: page, content: ContentKind::Html },
        None => Reply {
            status: 503,
            body: error_body("Frontend not built. Run `pnpm build:renderer` first."),
            content: ContentKind::Json,
        },
    }
}

/// Which broadcast items reach the event stream: an event (name and
/// payload) goes out as it is; a lag notice (the receiver fell behind and
/// lost events) is dropped.
pub fn sse_event(item: Result<(String, String), String>) -> (r: Option<(String, String)>)
    ensures
        match item {
            Ok(ev) => r == Some(ev),
            Err(_) => r is None,
        },
{
    match item {
        Ok(ev) => Some(ev),
        Err(_) => None,
    }
}

/// How often, in seconds, the event stream sends a keep-alive comment when
/// no event goes out.
pub const SSE_KEEP_ALIVE_SECS: u64 = 15;

/// The server listens on the loopback interface only, on the configured
/// port, or on port 10245 when none is configured.
pub proof fn listens_on_loopback(port: Seq<char>)
    ensures
        spec_listen_address(Some(port)) == "127.0.0.1:"@ + port,
        spec_listen_address(None) == "127.0.0.1:"@ + "10245"@,
{
}

} // verus!
