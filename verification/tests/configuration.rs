use std::time::Duration;
use zero2prod::configuration::{run_mode, DatabaseSettings, EmailClientSettings, SecretString};

fn database() -> DatabaseSettings {
    DatabaseSettings {
        username: "sa".to_string(),
        password: SecretString::new("P4ssw0rd!".to_string()),
        port: 1433,
        authentication: "sql".to_string(),
        server_name: "db.local".to_string(),
        database_name: "newsletter".to_string(),
        connection_string: "server=tcp:db.local,1433".to_string(),
    }
}

fn email_client(sender: &str, timeout: u64) -> EmailClientSettings {
    EmailClientSettings {
        base_url: "http://localhost".to_string(),
        sender_email: sender.to_string(),
        authorization_token: SecretString::new("token".to_string()),
        timeout_milliseconds: timeout,
    }
}

#[test]
fn the_connection_string_names_server_database_and_password() {
    let s = database().getconnection_string();
    assert_eq!(s.expose_secret(), "Server=db.local;Database=newsletter;Authentication=P4ssw0rd!");
}

#[test]
fn a_valid_sender_is_accepted() {
    let sender = email_client("news@domain.com", 10).sender().unwrap();
    assert_eq!(sender.as_email_string(), "news@domain.com");
}

#[test]
fn an_invalid_sender_is_refused() {
    let err = email_client("news.domain.com", 10).sender().err().unwrap();
    assert_eq!(err, "news.domain.com is not a valid subscriber email.");
}

#[test]
fn the_timeout_is_in_milliseconds() {
    assert_eq!(email_client("a@b.com", 10_000).timeout(), Duration::from_secs(10));
    assert_eq!(email_client("a@b.com", 0).timeout(), Duration::ZERO);
}

#[test]
fn the_run_mode_defaults_to_development() {
    assert_eq!(run_mode(None), "development");
    assert_eq!(run_mode(Some("production".to_string())), "production");
}

#[test]
fn empty_missing_at_and_missing_subject_senders_are_refused() {
    for sender in ["", "ursuladomain.com", "@domain.com"] {
        assert!(email_client(sender, 10).sender().is_err(), "{}", sender);
    }
}
