use route53_dyndns::address::{Address, Family, Ipv4Address, Ipv6Address};
use route53_dyndns::config::ZoneConfig;
use route53_dyndns::credential_provider::AwsCredentials;
use route53_dyndns::text::{decimal_text, digit_text, push_decimal};
use route53_dyndns::version::version;

#[test]
fn decimal_numerals() {
    assert_eq!(decimal_text(0), "0");
    assert_eq!(decimal_text(7), "7");
    assert_eq!(decimal_text(10), "10");
    assert_eq!(decimal_text(1234567890), "1234567890");
    assert_eq!(decimal_text(u64::MAX), "18446744073709551615");
    for d in 0..10u8 {
        assert_eq!(digit_text(d), d.to_string());
    }
    let mut out = String::from("ttl=");
    push_decimal(&mut out, 300);
    assert_eq!(out, "ttl=300");
}

#[test]
fn dotted_decimal_addresses() {
    assert_eq!(Ipv4Address::new(203, 0, 113, 7).to_text(), "203.0.113.7");
    assert_eq!(Ipv4Address::new(0, 0, 0, 0).to_text(), "0.0.0.0");
    assert_eq!(Ipv4Address::new(255, 255, 255, 255).to_text(), "255.255.255.255");
}

#[test]
fn families_of_addresses() {
    assert_eq!(Address::V4(Ipv4Address::new(10, 0, 0, 1)).family(), Family::V4);
    assert_eq!(Address::V6(Ipv6Address::new(1)).family(), Family::V6);
    assert_eq!(Ipv6Address::new(1).bits, 1);
}

#[test]
fn credentials_render_without_their_secrets() {
    let plain = AwsCredentials::new(
        String::from("AKIDEXAMPLE"),
        String::from("wJalrXUtnFEMI"),
        Some(String::from("token-value")),
        None,
    );
    let text = plain.to_text();
    assert_eq!(
        text,
        "AwsCredentials { access_key_id: \"********\", secret_access_key: \"********\", session_token: \"********\", expires_after: None }"
    );
    assert!(!text.contains("AKIDEXAMPLE"));
    assert!(!text.contains("wJalrXUtnFEMI"));
    assert!(!text.contains("token-value"));
    assert_eq!(plain.access_key_id, "AKIDEXAMPLE");
}

#[test]
fn credentials_render_their_expiry() {
    let expiring = AwsCredentials::new(
        String::from("first"),
        String::from("second"),
        None,
        Some(1700000000),
    );
    assert_eq!(
        expiring.to_text(),
        "AwsCredentials { access_key_id: \"********\", secret_access_key: \"********\", session_token: \"********\", expires_after: Some(1700000000) }"
    );
    let other = AwsCredentials::new(
        String::from("third"),
        String::from("fourth"),
        Some(String::from("fifth")),
        Some(1700000000),
    );
    assert_eq!(expiring.to_text(), other.to_text());
}

#[test]
fn record_name_is_joined_to_the_zone_name() {
    let config = ZoneConfig {
        update_frequency_minutes: 5,
        hosted_zone_name: String::from("example.com"),
        record_name: String::from("home"),
        enable_ipv4: true,
        enable_ipv6: false,
        provider_region: String::from("us-east-1"),
        credentials: AwsCredentials::new(String::from("id"), String::from("secret"), None, None),
        ttl_seconds: 300,
    };
    assert_eq!(config.effective_name(), "home.example.com");
    assert!(config.is_enabled(Family::V4));
    assert!(!config.is_enabled(Family::V6));
}

#[test]
fn version_marks_a_dirty_tree() {
    assert_eq!(version("0.3.1", "abc1234", true), "0.3.1-abc1234");
    assert_eq!(version("0.3.1", "abc1234", false), "0.3.1-abc1234-dirty");
    assert_eq!(version("", "", true), "-");
}
