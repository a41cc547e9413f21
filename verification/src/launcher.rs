//! The launcher window, which tells how to start the server and client apps.
use vstd::prelude::*;
use crate::{default_ipc_endpoint, default_tcp_endpoint, ipc_endpoint_for};

verus! {

/// The launcher window; it holds no state.
pub struct LauncherApp;

impl LauncherApp {
    /// The launcher.
    pub fn new() -> (r: LauncherApp) {
        LauncherApp
    }

    /// The two lines of the "Defaults" box: the default TCP and IPC endpoints.
    pub fn default_lines(&self) -> (r: (String, String))
        ensures
            r.0@ == "TCP example: "@ + "tcp://127.0.0.1:5555"@,
            r.1@ == "IPC example: "@ + ipc_endpoint_for(true) || r.1@ == "IPC example: "@
                + ipc_endpoint_for(false),
    {
        let mut tcp = String::from_str("TCP example: ");
        let t = default_tcp_endpoint();
        tcp.append(t.as_str());
        let mut ipc = String::from_str("IPC example: ");
        let i = default_ipc_endpoint();
        ipc.append(i.as_str());
        (tcp, ipc)
    }
}

} // verus!
