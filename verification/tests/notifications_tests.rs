use mail_forwarder::config::NotificationConfig;
use mail_forwarder::message::Email;
use mail_forwarder::notifications::{
    create_notifications, email_notification_body, email_notification_subject,
    file_notification_line, notification_log_line, telegram_message, telegram_request_url,
    Notifier, TelegramNotification,
};

fn sample_email() -> Email {
    Email {
        id: "test-email-123".to_string(),
        content: Vec::new(),
    }
}

#[test]
fn test_create_notifications() {
    let configs = vec![
        NotificationConfig::Telegram {
            chat_id: "123".to_string(),
            token: "abc".to_string(),
        },
        NotificationConfig::File {
            file_path: "test.log".to_string(),
        },
        NotificationConfig::Email {
            smtp_host: "smtp.example.com".to_string(),
            smtp_port: 587,
            smtp_username: "user".to_string(),
            smtp_password: "password".to_string(),
        },
    ];

    let notifications = create_notifications(&configs);
    assert_eq!(notifications.len(), 3);
    match &notifications[0] {
        Notifier::Telegram(t) => {
            assert_eq!(t.chat_id, "123");
            assert_eq!(t.token, "abc");
            assert_eq!(t.api_url, "https://api.telegram.org");
        }
        _ => panic!("expected a Telegram notifier first"),
    }
    match &notifications[1] {
        Notifier::File(f) => assert_eq!(f.file_path, "test.log"),
        _ => panic!("expected a file notifier second"),
    }
    match &notifications[2] {
        Notifier::Email(e) => {
            assert_eq!(e.smtp_host, "smtp.example.com");
            assert_eq!(e.smtp_port, 587);
            assert_eq!(e.smtp_username, "user");
        }
        _ => panic!("expected an email notifier third"),
    }
}

#[test]
fn test_telegram_request_url() {
    let n = TelegramNotification::with_api_url(
        "TEST_CHAT_ID".to_string(),
        "TEST_TOKEN".to_string(),
        "http://127.0.0.1:8080".to_string(),
    );
    assert_eq!(
        telegram_request_url(&n),
        "http://127.0.0.1:8080/botTEST_TOKEN/sendMessage"
    );
}

#[test]
fn test_telegram_default_endpoint() {
    let n = TelegramNotification::new("TEST_CHAT_ID".to_string(), "TEST_TOKEN".to_string());
    assert_eq!(
        telegram_request_url(&n),
        "https://api.telegram.org/botTEST_TOKEN/sendMessage"
    );
}

#[test]
fn test_telegram_message_text() {
    let msg = telegram_message(&sample_email(), "target@example.com");
    assert_eq!(
        msg,
        "Email forwarded successfully!\nID: test-email-123\nTarget: target@example.com"
    );
}

#[test]
fn test_notification_log_line() {
    let line = notification_log_line("2024-01-02 03:04:05", &sample_email(), "target@example.com");
    assert_eq!(
        line,
        "[2024-01-02 03:04:05] Forwarded email ID: test-email-123 to target@example.com\n"
    );
}

#[test]
fn test_file_notification_line_contains_entry() {
    let line = file_notification_line(&sample_email(), "target@example.com");
    assert!(line.contains("Forwarded email ID: test-email-123 to target@example.com"));
    assert!(line.starts_with('['));
    assert!(line.ends_with('\n'));
}

#[test]
fn test_email_notification_texts() {
    let subject = email_notification_subject(&sample_email());
    assert_eq!(subject, "Notification: Email test-email-123 forwarded");
    let body = email_notification_body(&sample_email(), "target@example.com");
    assert_eq!(
        body,
        "Email with ID test-email-123 was successfully forwarded to target@example.com."
    );
}

#[test]
fn test_create_notifications_empty() {
    let notifications = create_notifications(&Vec::new());
    assert!(notifications.is_empty());
}
