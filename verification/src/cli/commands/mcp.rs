//! The command that starts the server: how the server is set up.

use vstd::prelude::*;
use crate::mcp::server::ServerConfig;

verus! {

/// The port of the server that runs in the background.
pub const DAEMON_PORT: u16 = 3000;

/// The configuration of the server: the network transport on the fixed
/// port where it runs in the background, else the standard streams.
pub fn start(daemon: bool) -> (config: ServerConfig)
    ensures
        config.server_name@ == "ktme-mcp-server"@,
        daemon ==> config.transport@ == "http"@ && config.port == Some(DAEMON_PORT),
        !daemon ==> config.transport@ == "stdio"@ && config.port is None,
{
    if daemon {
        ServerConfig {
            server_name: "ktme-mcp-server".to_string(),
            transport: "http".to_string(),
            port: Some(DAEMON_PORT),
        }
    } else {
        ServerConfig {
            server_name: "ktme-mcp-server".to_string(),
            transport: "stdio".to_string(),
            port: None,
        }
    }
}

} // verus!
