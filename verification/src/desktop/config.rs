//! The settings file of the desktop companion.
use vstd::prelude::*;

verus! {

/// The signaling server to connect to.
#[derive(Debug, Clone, PartialEq, Eq)]
pub struct ServerConfig {
    pub host: String,
    pub port: u16,
}

/// A server that helps two peers find a network path.
#[derive(Debug, Clone, PartialEq, Eq)]
pub struct IceServer {
    pub urls: Vec<String>,
    pub username: Option<String>,
    pub credential: Option<String>,
}

/// Everything the desktop companion is configured with.
#[derive(Debug, Clone, PartialEq, Eq)]
pub struct AppConfiguration {
    pub server: ServerConfig,
    pub ice_servers: Vec<IceServer>,
    pub default_audio_input: Option<String>,
    pub default_audio_output: Option<String>,
    /// The volume, in percent.
    pub default_volume: u32,
}

impl AppConfiguration {
    /// The server at `localhost:9090`, no helper servers, no preferred
    /// devices, half volume.
    pub open spec fn is_default(&self) -> bool {
        &&& self.server.host@ == "localhost"@
        &&& self.server.port == 9090
        &&& self.ice_servers@.len() == 0
        &&& self.default_audio_input is None
        &&& self.default_audio_output is None
        &&& self.default_volume == 50
    }
}

impl Default for AppConfiguration {
    fn default() -> (r: AppConfiguration)
        ensures
            r.is_default(),
    {
        AppConfiguration {
            server: ServerConfig { host: "localhost".to_owned(), port: 9090 },
            ice_servers: Vec::new(),
            default_audio_input: None,
            default_audio_output: None,
            default_volume: 50,
        }
    }
}

} // verus!
