//! Notification channels.
//!
//! Zero or more notifiers are configured process-wide; the same ordered
//! list is shared by every account loop, and each successfully processed
//! message is reported through every notifier in list order. The library
//! holds each notifier's identity and the exact texts it sends; the
//! HTTP, file and SMTP calls are performed by the runtime around it.

use vstd::prelude::*;
use crate::config::NotificationConfig;
use crate::message::Email;

verus! {

/// A notifier that reports through the Telegram Bot API.
pub struct TelegramNotification {
    pub chat_id: String,
    pub token: String,
    pub api_url: String,
}

impl TelegramNotification {
    /// A Telegram notifier against the public API endpoint.
    pub fn new(chat_id: String, token: String) -> (r: TelegramNotification)
        ensures
            r.chat_id == chat_id,
            r.token == token,
            r.api_url@ == "https://api.telegram.org"@,
    {
        TelegramNotification {
            chat_id,
            token,
            api_url: String::from_str("https://api.telegram.org"),
        }
    }

    /// A Telegram notifier against a custom API endpoint.
    pub fn with_api_url(chat_id: String, token: String, api_url: String) -> (r:
        TelegramNotification)
        ensures
            r.chat_id == chat_id,
            r.token == token,
            r.api_url == api_url,
    {
        TelegramNotification { chat_id, token, api_url }
    }
}

/// A notifier that appends a log entry to a local file.
pub struct FileNotification {
    pub file_path: String,
}

impl FileNotification {
    pub fn new(file_path: String) -> (r: FileNotification)
        ensures
            r.file_path == file_path,
    {
        FileNotification { file_path }
    }
}

/// A notifier that sends an email over SMTP to the notifying account
/// itself. The relay connection is established lazily by the runtime, so
/// construction cannot fail.
pub struct EmailNotification {
    pub smtp_host: String,
    pub smtp_port: u16,
    pub smtp_username: String,
    pub smtp_password: String,
}

impl EmailNotification {
    pub fn new(
        smtp_host: String,
        smtp_port: u16,
        smtp_username: String,
        smtp_password: String,
    ) -> (r: EmailNotification)
        ensures
            r.smtp_host == smtp_host,
            r.smtp_port == smtp_port,
            r.smtp_username == smtp_username,
            r.smtp_password == smtp_password,
    {
        EmailNotification { smtp_host, smtp_port, smtp_username, smtp_password }
    }
}

/// One configured notification channel.
pub enum Notifier {
    Telegram(TelegramNotification),
    File(FileNotification),
    Email(EmailNotification),
}

/// The notifier that one configuration entry yields.
pub open spec fn notifier_matches(c: NotificationConfig, n: Notifier) -> bool {
    match c {
        NotificationConfig::Telegram { chat_id, token } => n matches Notifier::Telegram(t)
            && t.chat_id == chat_id && t.token == token && t.api_url@
            == "https://api.telegram.org"@,
        NotificationConfig::File { file_path } => n matches Notifier::File(f) && f.file_path
            == file_path,
        NotificationConfig::Email { smtp_host, smtp_port, smtp_username, smtp_password } => n
            matches Notifier::Email(e) && e.smtp_host == smtp_host && e.smtp_port == smtp_port
            && e.smtp_username == smtp_username && e.smtp_password == smtp_password,
    }
}

/// Builds the process-wide notifier list: one notifier per configuration
/// entry, in configuration order.
pub fn create_notifications(configs: &Vec<NotificationConfig>) -> (r: Vec<Notifier>)
    ensures
        r@.len() == configs@.len(),
        forall|i: int|
            0 <= i < configs@.len() ==> notifier_matches(configs@[i], #[trigger] r@[i]),
{
    let mut out: Vec<Notifier> = Vec::new();
    let mut i: usize = 0;
    while i < configs.len()
        invariant
            i <= configs@.len(),
            out@.len() == i,
            forall|j: int| 0 <= j < i ==> notifier_matches(configs@[j], #[trigger] out@[j]),
        decreases configs@.len() - i,
    {
        let n = match &configs[i] {
            NotificationConfig::Telegram { chat_id, token } => Notifier::Telegram(
                TelegramNotification::new(chat_id.clone(), token.clone()),
            ),
            NotificationConfig::File { file_path } => Notifier::File(
                FileNotification::new(file_path.clone()),
            ),
            NotificationConfig::Email { smtp_host, smtp_port, smtp_username, smtp_password } => Notifier::Email(
                EmailNotification::new(
                    smtp_host.clone(),
                    *smtp_port,
                    smtp_username.clone(),
                    smtp_password.clone(),
                ),
            ),
        };
        out.push(n);
        i += 1;
    }
    out
}

/// The URL a Telegram notifier posts to.
pub fn telegram_request_url(n: &TelegramNotification) -> (r: String)
    ensures
        r@ == n.api_url@ + "/bot"@ + n.token@ + "/sendMessage"@,
{
    let mut url = n.api_url.clone();
    url.append("/bot");
    url.append(n.token.as_str());
    url.append("/sendMessage");
    url
}

/// The message text a Telegram notifier sends for a forwarded message.
pub fn telegram_message(email: &Email, target_address: &str) -> (r: String)
    ensures
        r@ == "Email forwarded successfully!\nID: "@ + email.id@ + "\nTarget: "@
            + target_address@,
{
    let mut m = String::from_str("Email forwarded successfully!\nID: ");
    m.append(email.id.as_str());
    m.append("\nTarget: ");
    m.append(target_address);
    m
}

/// The log line a file notifier appends, for a given timestamp text.
pub fn notification_log_line(timestamp: &str, email: &Email, target_address: &str) -> (r: String)
    ensures
        r@ == "["@ + timestamp@ + "] Forwarded email ID: "@ + email.id@ + " to "@
            + target_address@ + "\n"@,
{
    let mut m = String::from_str("[");
    m.append(timestamp);
    m.append("] Forwarded email ID: ");
    m.append(email.id.as_str());
    m.append(" to ");
    m.append(target_address);
    m.append("\n");
    m
}

/// Relies on chrono's `Local::now` and `DateTime::format` for the file
/// notifier's timestamp; the result depends on the clock and the local
/// time zone, so nothing is assumed about it.
#[verifier::external_body]
fn local_timestamp() -> (r: String) {
    chrono::Local::now().format("%Y-%m-%d %H:%M:%S").to_string()
}

/// The log line a file notifier appends, timestamped with the current
/// local time.
pub fn file_notification_line(email: &Email, target_address: &str) -> (r: String)
    ensures
        exists|ts: Seq<char>|
            r@ == "["@ + ts + "] Forwarded email ID: "@ + email.id@ + " to "@ + target_address@
                + "\n"@,
{
    let ts = local_timestamp();
    let r = notification_log_line(ts.as_str(), email, target_address);
    proof {
        assert(r@ == "["@ + ts@ + "] Forwarded email ID: "@ + email.id@ + " to "@
            + target_address@ + "\n"@);
    }
    r
}

/// The subject line an email notifier sends.
pub fn email_notification_subject(email: &Email) -> (r: String)
    ensures
        r@ == "Notification: Email "@ + email.id@ + " forwarded"@,
{
    let mut m = String::from_str("Notification: Email ");
    m.append(email.id.as_str());
    m.append(" forwarded");
    m
}

/// The body an email notifier sends.
pub fn email_notification_body(email: &Email, target_address: &str) -> (r: String)
    ensures
        r@ == "Email with ID "@ + email.id@ + " was successfully forwarded to "@
            + target_address@ + "."@,
{
    let mut m = String::from_str("Email with ID ");
    m.append(email.id.as_str());
    m.append(" was successfully forwarded to ");
    m.append(target_address);
    m.append(".");
    m
}

} // verus!
