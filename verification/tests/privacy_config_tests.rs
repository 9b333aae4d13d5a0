use safe_surf_core::config::{CryptoConfig, SafeSurfConfig, SafetyConfig};
use safe_surf_core::privacy::PrivacyGuard;

#[test]
fn default_configuration() {
    let c = SafeSurfConfig::default();
    assert_eq!(c.crypto.argon2_m_cost, 65536);
    assert_eq!(c.crypto.argon2_t_cost, 3);
    assert_eq!(c.crypto.argon2_p_cost, 4);
    assert_eq!(c.crypto.session_rotation_bytes, 1024 * 1024 * 1024);
    assert_eq!(c.crypto.session_rotation_seconds, 3600);
    assert_eq!(c.safety.timing_jitter_ms, 50);
    assert!(!c.safety.cover_traffic_enabled);
    assert_eq!(c.safety.sanitization_level, "Strict");
    let _ = CryptoConfig::default();
}

#[test]
fn pacing_delay_stays_below_jitter() {
    let g = PrivacyGuard::new(SafetyConfig::default());
    for _ in 0..200 {
        let d = g.pacing_delay_ms().unwrap();
        assert!(d < 50);
    }
    let mut c = SafetyConfig::default();
    c.timing_jitter_ms = 0;
    assert_eq!(PrivacyGuard::new(c).pacing_delay_ms(), None);
    let mut c = SafetyConfig::default();
    c.timing_jitter_ms = 1;
    assert_eq!(PrivacyGuard::new(c).pacing_delay_ms(), Some(0));
}

#[test]
fn cover_schedule_is_empty_unless_enabled() {
    let g = PrivacyGuard::new(SafetyConfig::default());
    assert!(g.get_cover_traffic_schedule().is_empty());
    let mut c = SafetyConfig::default();
    c.cover_traffic_enabled = true;
    let g = PrivacyGuard::new(c);
    for _ in 0..50 {
        let s = g.get_cover_traffic_schedule();
        assert_eq!(s.len(), 5);
        assert!(s.iter().all(|ms| (500..5000).contains(ms)));
    }
}
