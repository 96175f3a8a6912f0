//! Settings of the access rules: the API key, rate limits, sessions, and
//! what the cross-origin policy allows.
use vstd::prelude::*;

verus! {

/// Everything the access rules are configured with.
#[derive(Debug, Clone, PartialEq, Eq)]
pub struct SecurityConfig {
    pub api: ApiConfig,
    pub rate_limiting: RateLimitConfig,
    pub authentication: AuthenticationConfig,
    pub cors: CorsSecurityConfig,
}

/// The shared secret of the membership query.
#[derive(Debug, Clone, PartialEq, Eq)]
pub struct ApiConfig {
    pub require_key: bool,
    pub key: String,
}

/// Request rate limits.
#[derive(Debug, Clone, Copy, PartialEq, Eq, Structural)]
pub struct RateLimitConfig {
    pub enabled: bool,
    pub requests_per_minute: u32,
    pub burst_size: u32,
}

/// Session limits. The timeout is in seconds.
#[derive(Debug, Clone, Copy, PartialEq, Eq, Structural)]
pub struct AuthenticationConfig {
    pub session_timeout: u64,
    pub max_concurrent_sessions: usize,
}

/// The cross-origin policy. The age is in seconds.
#[derive(Debug, Clone, Copy, PartialEq, Eq, Structural)]
pub struct CorsSecurityConfig {
    pub allow_credentials: bool,
    pub max_age: u64,
}

/// Whether the membership query is guarded by a key.
#[derive(Debug, Clone, Copy, PartialEq, Eq, Structural)]
pub enum ApiKeyMode {
    /// A key is required, and one is set.
    Enabled,
    /// A key is required, but none is set.
    RequiredButMissing,
    /// No key is required.
    Disabled,
}

impl ApiConfig {
    /// The mode that the settings stand for.
    pub open spec fn spec_mode(&self) -> ApiKeyMode {
        if self.require_key && self.key@.len() > 0 {
            ApiKeyMode::Enabled
        } else if self.require_key {
            ApiKeyMode::RequiredButMissing
        } else {
            ApiKeyMode::Disabled
        }
    }

    /// Tells how the membership query is guarded.
    pub fn mode(&self) -> (mode: ApiKeyMode)
        ensures
            mode == self.spec_mode(),
    {
        if self.require_key && self.key.as_str().unicode_len() > 0 {
            ApiKeyMode::Enabled
        } else if self.require_key {
            ApiKeyMode::RequiredButMissing
        } else {
            ApiKeyMode::Disabled
        }
    }

    /// No key is asked for, and none is set.
    pub open spec fn is_default(&self) -> bool {
        &&& !self.require_key
        &&& self.key@ == Seq::<char>::empty()
    }
}

impl Default for ApiConfig {
    fn default() -> (r: ApiConfig)
        ensures
            r.is_default(),
    {
        ApiConfig { require_key: false, key: String::new() }
    }
}

impl RateLimitConfig {
    /// Off; 100 requests a minute with bursts of 10 once it is switched on.
    pub open spec fn spec_default() -> RateLimitConfig {
        RateLimitConfig { enabled: false, requests_per_minute: 100, burst_size: 10 }
    }
}

impl Default for RateLimitConfig {
    fn default() -> (r: RateLimitConfig)
        ensures
            r == RateLimitConfig::spec_default(),
    {
        RateLimitConfig { enabled: false, requests_per_minute: 100, burst_size: 10 }
    }
}

impl AuthenticationConfig {
    /// Sessions of one hour, five at a time.
    pub open spec fn spec_default() -> AuthenticationConfig {
        AuthenticationConfig { session_timeout: 3600, max_concurrent_sessions: 5 }
    }
}

impl Default for AuthenticationConfig {
    fn default() -> (r: AuthenticationConfig)
        ensures
            r == AuthenticationConfig::spec_default(),
    {
        AuthenticationConfig { session_timeout: 3600, max_concurrent_sessions: 5 }
    }
}

impl CorsSecurityConfig {
    /// Credentials are allowed; a preflight answer is good for a day.
    pub open spec fn spec_default() -> CorsSecurityConfig {
        CorsSecurityConfig { allow_credentials: true, max_age: 86400 }
    }
}

impl Default for CorsSecurityConfig {
    fn default() -> (r: CorsSecurityConfig)
        ensures
            r == CorsSecurityConfig::spec_default(),
    {
        CorsSecurityConfig { allow_credentials: true, max_age: 86400 }
    }
}

impl SecurityConfig {
    /// Every part has its default.
    pub open spec fn is_default(&self) -> bool {
        &&& self.api.is_default()
        &&& self.rate_limiting == RateLimitConfig::spec_default()
        &&& self.authentication == AuthenticationConfig::spec_default()
        &&& self.cors == CorsSecurityConfig::spec_default()
    }
}

impl Default for SecurityConfig {
    fn default() -> (r: SecurityConfig)
        ensures
            r.is_default(),
    {
        SecurityConfig {
            api: ApiConfig::default(),
            rate_limiting: RateLimitConfig::default(),
            authentication: AuthenticationConfig::default(),
            cors: CorsSecurityConfig::default(),
        }
    }
}

} // verus!
