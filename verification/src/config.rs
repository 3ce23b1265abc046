//! Configuration model of the forwarder: account specifications, the
//! outbound relay, the notification channels, and the documented defaults.

use vstd::prelude::*;

verus! {

/// Default poll interval in seconds (5 minutes), used when an account does
/// not configure one.
pub const DEFAULT_CHECK_INTERVAL_SECONDS: u64 = 300;

/// Configuration of one polled mailbox account.
#[derive(Debug, Clone)]
pub struct ReceiverConfig {
    pub host: String,
    pub port: u16,
    pub username: String,
    pub password: String,
    /// Protocol selector: "pop3" or "imap".
    pub protocol: String,
    pub use_tls: Option<bool>,
    pub check_interval_seconds: Option<u64>,
    pub delete_after_forward: Option<bool>,
    /// IMAP mailbox folder to poll.
    pub imap_folder: String,
}

/// Configuration of the outbound relay used for forwarding.
#[derive(Debug, Clone)]
pub struct SenderConfig {
    pub host: String,
    pub port: u16,
    pub username: String,
    pub password: String,
    pub use_tls: Option<bool>,
}

/// Configuration of one notification channel.
#[derive(Debug, Clone)]
pub enum NotificationConfig {
    Telegram { chat_id: String, token: String },
    File { file_path: String },
    Email {
        smtp_host: String,
        smtp_port: u16,
        smtp_username: String,
        smtp_password: String,
    },
}

/// The whole configuration surface consumed by the orchestrator.
#[derive(Debug, Clone)]
pub struct AppConfig {
    pub receivers: Vec<ReceiverConfig>,
    pub sender: SenderConfig,
    pub forward_to: String,
    pub log_file: Option<String>,
    pub log_level: Option<String>,
    pub quiet: bool,
    pub notifications: Vec<NotificationConfig>,
}

/// The protocol assumed when an account names none.
pub fn default_protocol() -> (r: String)
    ensures
        r@ == "pop3"@,
{
    String::from_str("pop3")
}

/// The IMAP folder polled when an account names none.
pub fn default_imap_folder() -> (r: String)
    ensures
        r@ == "INBOX"@,
{
    String::from_str("INBOX")
}

impl ReceiverConfig {
    /// Assembles an account configuration from parsed fields, filling the
    /// defaults: protocol "pop3" and folder "INBOX".
    pub fn from_parts(
        host: String,
        port: u16,
        username: String,
        password: String,
        protocol: Option<String>,
        use_tls: Option<bool>,
        check_interval_seconds: Option<u64>,
        delete_after_forward: Option<bool>,
        imap_folder: Option<String>,
    ) -> (r: ReceiverConfig)
        ensures
            r.host == host,
            r.port == port,
            r.username == username,
            r.password == password,
            (match protocol {
                Some(p) => r.protocol == p,
                None => r.protocol@ == "pop3"@,
            }),
            r.use_tls == use_tls,
            r.check_interval_seconds == check_interval_seconds,
            r.delete_after_forward == delete_after_forward,
            (match imap_folder {
                Some(f) => r.imap_folder == f,
                None => r.imap_folder@ == "INBOX"@,
            }),
    {
        let protocol = match protocol {
            Some(p) => p,
            None => default_protocol(),
        };
        let imap_folder = match imap_folder {
            Some(f) => f,
            None => default_imap_folder(),
        };
        ReceiverConfig {
            host,
            port,
            username,
            password,
            protocol,
            use_tls,
            check_interval_seconds,
            delete_after_forward,
            imap_folder,
        }
    }
}

impl AppConfig {
    /// Assembles the whole configuration from parsed fields; `quiet`
    /// defaults to `false` and the notification list to empty.
    pub fn from_parts(
        receivers: Vec<ReceiverConfig>,
        sender: SenderConfig,
        forward_to: String,
        log_file: Option<String>,
        log_level: Option<String>,
        quiet: Option<bool>,
        notifications: Option<Vec<NotificationConfig>>,
    ) -> (r: AppConfig)
        ensures
            r.receivers == receivers,
            r.sender == sender,
            r.forward_to == forward_to,
            r.log_file == log_file,
            r.log_level == log_level,
            r.quiet == (quiet == Some(true)),
            (match notifications {
                Some(n) => r.notifications == n,
                None => r.notifications@ == Seq::<NotificationConfig>::empty(),
            }),
    {
        let quiet = match quiet {
            Some(q) => q,
            None => false,
        };
        let notifications = match notifications {
            Some(n) => n,
            None => Vec::new(),
        };
        AppConfig {
            receivers,
            sender,
            forward_to,
            log_file,
            log_level,
            quiet,
            notifications,
        }
    }
}

/// Which protocol adapter an account selects. Any value other than
/// "imap" falls back to POP3.
pub enum ReceiverKind {
    Imap,
    Pop3,
}

/// Chooses the protocol adapter for an account's `protocol` string.
pub fn receiver_kind(protocol: &String) -> (r: ReceiverKind)
    ensures
        protocol@ == "imap"@ ==> r is Imap,
        protocol@ != "imap"@ ==> r is Pop3,
{
    let imap: String = String::from_str("imap");
    if *protocol == imap {
        ReceiverKind::Imap
    } else {
        ReceiverKind::Pop3
    }
}

} // verus!
