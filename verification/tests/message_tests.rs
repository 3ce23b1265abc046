use mail_forwarder::digits::u32_to_string;
use mail_forwarder::message::{augment_content, forward_payload, Email};
use mail_forwarder::seen::SeenSet;

#[test]
fn test_augment_content_exact_bytes() {
    let email = Email {
        id: "1".to_string(),
        content: b"Subject: Existing Content".to_vec(),
    };
    let payload = augment_content(&email, "2024-01-02T03:04:05+00:00");
    let expected = b"X-Forwarded-By: mail-forwarder\r\n\
X-Original-Message-ID: 1\r\n\
X-Forwarded-Time: 2024-01-02T03:04:05+00:00\r\n\
Subject: Existing Content"
        .to_vec();
    assert_eq!(payload, expected);
}

#[test]
fn test_forward_payload_shape() {
    let email = Email {
        id: "real_test_1".to_string(),
        content: b"Subject: Real Test Email\r\n\r\nThis is a test email body.".to_vec(),
    };
    let payload = forward_payload(&email);
    let text = String::from_utf8(payload).unwrap();
    assert!(text.starts_with("X-Forwarded-By: mail-forwarder\r\nX-Original-Message-ID: real_test_1\r\nX-Forwarded-Time: "));
    assert!(text.ends_with("\r\nSubject: Real Test Email\r\n\r\nThis is a test email body."));
}

#[test]
fn test_u32_to_string() {
    assert_eq!(u32_to_string(0), "0");
    assert_eq!(u32_to_string(7), "7");
    assert_eq!(u32_to_string(10), "10");
    assert_eq!(u32_to_string(587), "587");
    assert_eq!(u32_to_string(u32::MAX), "4294967295");
}

#[test]
fn test_seen_set_operations() {
    let mut s = SeenSet::new();
    assert!(s.is_empty());
    assert!(!s.contains(&"a".to_string()));
    s.insert("a".to_string());
    s.insert("b".to_string());
    s.insert("a".to_string());
    assert!(s.contains(&"a".to_string()));
    assert!(s.contains(&"b".to_string()));
    assert!(!s.is_empty());
    s.remove(&"a".to_string());
    assert!(!s.contains(&"a".to_string()));
    assert!(s.contains(&"b".to_string()));
    s.remove(&"b".to_string());
    assert!(s.is_empty());
    // Removing an absent id is a no-op.
    s.remove(&"c".to_string());
    assert!(s.is_empty());
}
