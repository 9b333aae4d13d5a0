use vstd::prelude::*;

verus! {

/// Key-derivation and session-rotation parameters.
#[derive(Debug, Clone)]
pub struct CryptoConfig {
    pub argon2_m_cost: u32,
    pub argon2_t_cost: u32,
    pub argon2_p_cost: u32,
    pub session_rotation_bytes: u64,
    pub session_rotation_seconds: u64,
}

/// Default memory cost of the passphrase KDF, in KiB (64 MiB).
pub const DEFAULT_ARGON2_M_COST: u32 = 65536;

/// Default number of KDF passes.
pub const DEFAULT_ARGON2_T_COST: u32 = 3;

/// Default KDF parallelism.
pub const DEFAULT_ARGON2_P_COST: u32 = 4;

/// Default number of bytes after which a session key is rotated (1 GiB).
pub const DEFAULT_SESSION_ROTATION_BYTES: u64 = 1073741824;

/// Default number of seconds after which a session key is rotated (1 hour).
pub const DEFAULT_SESSION_ROTATION_SECONDS: u64 = 3600;

impl Default for CryptoConfig {
    fn default() -> (c: Self)
        ensures
            c.argon2_m_cost == DEFAULT_ARGON2_M_COST,
            c.argon2_t_cost == DEFAULT_ARGON2_T_COST,
            c.argon2_p_cost == DEFAULT_ARGON2_P_COST,
            c.session_rotation_bytes == DEFAULT_SESSION_ROTATION_BYTES,
            c.session_rotation_seconds == DEFAULT_SESSION_ROTATION_SECONDS,
    {
        CryptoConfig {
            argon2_m_cost: DEFAULT_ARGON2_M_COST,
            argon2_t_cost: DEFAULT_ARGON2_T_COST,
            argon2_p_cost: DEFAULT_ARGON2_P_COST,
            session_rotation_bytes: DEFAULT_SESSION_ROTATION_BYTES,
            session_rotation_seconds: DEFAULT_SESSION_ROTATION_SECONDS,
        }
    }
}

/// Traffic-shaping and sanitization settings.
#[derive(Debug, Clone)]
pub struct SafetyConfig {
    pub timing_jitter_ms: u32,
    pub cover_traffic_enabled: bool,
    /// One of "Strict", "Moderate", "VisualOnly".
    pub sanitization_level: String,
}

/// Default upper bound of the random pacing delay, in milliseconds.
pub const DEFAULT_TIMING_JITTER_MS: u32 = 50;

/// The sanitization level a default configuration selects.
pub open spec fn default_sanitization_level() -> Seq<char> {
    seq!['S', 't', 'r', 'i', 'c', 't']
}

impl Default for SafetyConfig {
    fn default() -> (c: Self)
        ensures
            c.timing_jitter_ms == DEFAULT_TIMING_JITTER_MS,
            !c.cover_traffic_enabled,
            c.sanitization_level@ == default_sanitization_level(),
    {
        let level = "Strict".to_string();
        proof {
            reveal_strlit("Strict");
        }
        SafetyConfig {
            timing_jitter_ms: DEFAULT_TIMING_JITTER_MS,
            cover_traffic_enabled: false,
            sanitization_level: level,
        }
    }
}

/// The complete configuration of the safety layer.
#[derive(Debug, Clone)]
pub struct SafeSurfConfig {
    pub crypto: CryptoConfig,
    pub safety: SafetyConfig,
}

impl Default for SafeSurfConfig {
    fn default() -> (c: Self)
        ensures
            c.crypto.argon2_m_cost == DEFAULT_ARGON2_M_COST,
            c.crypto.argon2_t_cost == DEFAULT_ARGON2_T_COST,
            c.crypto.argon2_p_cost == DEFAULT_ARGON2_P_COST,
            c.crypto.session_rotation_bytes == DEFAULT_SESSION_ROTATION_BYTES,
            c.crypto.session_rotation_seconds == DEFAULT_SESSION_ROTATION_SECONDS,
            c.safety.timing_jitter_ms == DEFAULT_TIMING_JITTER_MS,
            !c.safety.cover_traffic_enabled,
            c.safety.sanitization_level@ == default_sanitization_level(),
    {
        SafeSurfConfig { crypto: CryptoConfig::default(), safety: SafetyConfig::default() }
    }
}

/// The default settings: Argon2id with 64 MiB of memory (65536 KiB),
/// 3 passes and 4 lanes; session keys rotated after 1 GiB or one hour;
/// pacing jitter below 50 ms; cover traffic off; the "Strict"
/// sanitization level.
pub proof fn law_default_settings()
    ensures
        DEFAULT_ARGON2_M_COST == 65536 && DEFAULT_ARGON2_M_COST as int == 64 * 1024,
        DEFAULT_ARGON2_T_COST == 3,
        DEFAULT_ARGON2_P_COST == 4,
        DEFAULT_SESSION_ROTATION_BYTES as int == 1024 * 1024 * 1024,
        DEFAULT_SESSION_ROTATION_SECONDS as int == 60 * 60,
        DEFAULT_TIMING_JITTER_MS == 50,
        default_sanitization_level() == "Strict"@,
{
    reveal_strlit("Strict");
    assert(default_sanitization_level() =~= "Strict"@);
}

} // verus!
