//! Where the front end finds the signaling server.
use vstd::prelude::*;

verus! {

/// The endpoints of the signaling server.
#[derive(Debug, Clone, PartialEq, Eq)]
pub struct ServerConfig {
    pub websocket_url: String,
    pub api_url: String,
}

/// The endpoints of a server on this machine, at its default port.
pub fn get_server_config() -> (r: Result<ServerConfig, String>)
    ensures
        r matches Ok(config) && config.websocket_url@ == "ws://127.0.0.1:8081/ws"@
            && config.api_url@ == "http://127.0.0.1:8081"@,
{
    Ok(
        ServerConfig {
            websocket_url: "ws://127.0.0.1:8081/ws".to_owned(),
            api_url: "http://127.0.0.1:8081".to_owned(),
        },
    )
}

} // verus!
