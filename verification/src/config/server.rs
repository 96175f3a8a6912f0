//! Settings of the listener: address, WebSocket limits, origins, capacity.
use crate::text::{contains_name, names};
use vstd::prelude::*;

verus! {

/// Everything the listener is configured with.
#[derive(Debug, Clone, PartialEq, Eq)]
pub struct ServerConfig {
    pub server: ServerSettings,
    pub websocket: WebSocketConfig,
    pub cors: CorsConfig,
    pub limits: LimitsConfig,
}

/// Where the server listens, and with how many workers.
#[derive(Debug, Clone, PartialEq, Eq)]
pub struct ServerSettings {
    pub host: String,
    pub port: u16,
    pub workers: usize,
}

/// Limits of the WebSocket endpoint. Intervals are in seconds, sizes in bytes.
#[derive(Debug, Clone, Copy, PartialEq, Eq, Structural)]
pub struct WebSocketConfig {
    pub max_connections: usize,
    pub heartbeat_interval: u64,
    pub message_size_limit: usize,
}

/// What cross-origin requests are let in.
#[derive(Debug, Clone, PartialEq, Eq)]
pub struct CorsConfig {
    pub allowed_origins: Vec<String>,
    pub allowed_methods: Vec<String>,
    pub allowed_headers: Vec<String>,
}

/// Capacity limits. The timeout is in seconds.
#[derive(Debug, Clone, Copy, PartialEq, Eq, Structural)]
pub struct LimitsConfig {
    pub max_rooms: usize,
    pub max_users_per_room: usize,
    pub connection_timeout: u64,
}

/// Calls `num_cpus::get`. Trusted: the crate documents that the result is
/// at least 1. The number depends on the machine, so nothing more is said.
#[verifier::external_body]
fn cpu_count() -> (n: usize)
    ensures
        n >= 1,
{
    num_cpus::get()
}

impl ServerSettings {
    /// The address `127.0.0.1:8081`, whatever the number of workers.
    pub open spec fn is_local(&self) -> bool {
        &&& self.host@ == "127.0.0.1"@
        &&& self.port == 8081
    }

    /// The default address, served by `workers` workers.
    pub fn with_workers(workers: usize) -> (r: ServerSettings)
        ensures
            r.is_local(),
            r.workers == workers,
    {
        ServerSettings { host: "127.0.0.1".to_owned(), port: 8081, workers }
    }
}

impl Default for ServerSettings {
    /// The default address, with one worker for each processor that the
    /// machine offers.
    fn default() -> (r: ServerSettings)
        ensures
            r.is_local(),
            r.workers >= 1,
    {
        ServerSettings::with_workers(cpu_count())
    }
}

impl WebSocketConfig {
    /// A thousand connections, a heartbeat every 30 s, messages of up to 1 MiB.
    pub open spec fn spec_default() -> WebSocketConfig {
        WebSocketConfig {
            max_connections: 1000,
            heartbeat_interval: 30,
            message_size_limit: 1048576,
        }
    }
}

impl Default for WebSocketConfig {
    fn default() -> (r: WebSocketConfig)
        ensures
            r == WebSocketConfig::spec_default(),
    {
        WebSocketConfig { max_connections: 1000, heartbeat_interval: 30, message_size_limit: 1048576 }
    }
}

impl CorsConfig {
    /// The origins of the local development front ends, the five common
    /// methods, and every header.
    pub open spec fn is_default(&self) -> bool {
        &&& names(self.allowed_origins@) == seq![
            "http://localhost:3000"@,
            "http://localhost:1420"@,
            "http://localhost:5173"@,
        ]
        &&& names(self.allowed_methods@) == seq![
            "GET"@,
            "POST"@,
            "PUT"@,
            "DELETE"@,
            "OPTIONS"@,
        ]
        &&& names(self.allowed_headers@) == seq!["*"@]
    }
}

impl CorsConfig {
    /// Whether a request from `origin` is let in: the origin is on the list
    /// as it stands, or the list holds `*`. A request whose origin cannot be
    /// read passes only under `*`.
    pub open spec fn spec_allows_origin(&self, origin: Option<Seq<char>>) -> bool {
        ||| origin matches Some(o) && names(self.allowed_origins@).contains(o)
        ||| names(self.allowed_origins@).contains("*"@)
    }

    /// Checks the origin of a request against the list.
    pub fn allows_origin(&self, origin: Option<&str>) -> (allowed: bool)
        ensures
            allowed == self.spec_allows_origin(
                match origin {
                    Some(o) => Some(o@),
                    None => None,
                },
            ),
    {
        let listed = match origin {
            Some(o) => contains_name(&self.allowed_origins, o),
            None => false,
        };
        listed || contains_name(&self.allowed_origins, "*")
    }
}

impl Default for CorsConfig {
    fn default() -> (r: CorsConfig)
        ensures
            r.is_default(),
    {
        let mut allowed_origins: Vec<String> = Vec::new();
        allowed_origins.push("http://localhost:3000".to_owned());
        allowed_origins.push("http://localhost:1420".to_owned());
        allowed_origins.push("http://localhost:5173".to_owned());
        let mut allowed_methods: Vec<String> = Vec::new();
        allowed_methods.push("GET".to_owned());
        allowed_methods.push("POST".to_owned());
        allowed_methods.push("PUT".to_owned());
        allowed_methods.push("DELETE".to_owned());
        allowed_methods.push("OPTIONS".to_owned());
        let mut allowed_headers: Vec<String> = Vec::new();
        allowed_headers.push("*".to_owned());
        let r = CorsConfig { allowed_origins, allowed_methods, allowed_headers };
        proof {
            assert(names(r.allowed_origins@) =~= seq![
                "http://localhost:3000"@,
                "http://localhost:1420"@,
                "http://localhost:5173"@,
            ]);
            assert(names(r.allowed_methods@) =~= seq![
                "GET"@,
                "POST"@,
                "PUT"@,
                "DELETE"@,
                "OPTIONS"@,
            ]);
            assert(names(r.allowed_headers@) =~= seq!["*"@]);
        }
        r
    }
}

impl LimitsConfig {
    /// A thousand rooms of up to 50 users; idle connections time out after
    /// five minutes.
    pub open spec fn spec_default() -> LimitsConfig {
        LimitsConfig { max_rooms: 1000, max_users_per_room: 50, connection_timeout: 300 }
    }
}

impl Default for LimitsConfig {
    fn default() -> (r: LimitsConfig)
        ensures
            r == LimitsConfig::spec_default(),
    {
        LimitsConfig { max_rooms: 1000, max_users_per_room: 50, connection_timeout: 300 }
    }
}

impl ServerConfig {
    /// Every part has its default; the number of workers is left open.
    pub open spec fn is_default(&self) -> bool {
        &&& self.server.is_local()
        &&& self.websocket == WebSocketConfig::spec_default()
        &&& self.cors.is_default()
        &&& self.limits == LimitsConfig::spec_default()
    }
}

impl Default for ServerConfig {
    fn default() -> (r: ServerConfig)
        ensures
            r.is_default(),
            r.server.workers >= 1,
    {
        ServerConfig {
            server: ServerSettings::default(),
            websocket: WebSocketConfig::default(),
            cors: CorsConfig::default(),
            limits: LimitsConfig::default(),
        }
    }
}

} // verus!
