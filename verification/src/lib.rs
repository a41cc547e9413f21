//! A publish/subscribe chat toolkit over ZeroMQ: message framing, log
//! keeping and the decisions of the publisher and subscriber workers.
use vstd::prelude::*;
use crate::sys::main_separator;

pub mod chat;
pub mod client_app;
pub mod history;
pub mod launcher;
pub mod network;
pub mod sys;
pub mod server_app;
pub mod splash;
pub mod text;
pub mod view;
pub mod worker;

verus! {

/// The TCP endpoint that the server binds to and the client connects to by default.
pub fn default_tcp_endpoint() -> (r: String)
    ensures
        r@ == "tcp://127.0.0.1:5555"@,
{
    String::from_str("tcp://127.0.0.1:5555")
}

/// The IPC endpoint used by default: a fixed path on Windows, a path under
/// `/tmp` elsewhere.
pub open spec fn ipc_endpoint_for(windows: bool) -> Seq<char> {
    if windows {
        "ipc://C:/git/ZA/rust_zmq_chat/zmq_pubsub.ipc"@
    } else {
        "ipc:///tmp/zmq_pubsub.ipc"@
    }
}

/// The default IPC endpoint on a platform whose path separator is `sep`;
/// Windows is the platform that separates paths with a backslash.
pub fn ipc_endpoint_for_separator(sep: char) -> (r: String)
    ensures
        r@ == ipc_endpoint_for(sep == '\\'),
{
    if sep == '\\' {
        String::from_str("ipc://C:/git/ZA/rust_zmq_chat/zmq_pubsub.ipc")
    } else {
        String::from_str("ipc:///tmp/zmq_pubsub.ipc")
    }
}

/// The IPC endpoint that the server binds to and the client connects to by
/// default on the platform the code was built for.
pub fn default_ipc_endpoint() -> (r: String)
    ensures
        r@ == ipc_endpoint_for(true) || r@ == ipc_endpoint_for(false),
{
    ipc_endpoint_for_separator(main_separator())
}

} // verus!
