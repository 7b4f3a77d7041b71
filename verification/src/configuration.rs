//! The settings the service runs with, and what is derived from them.

use vstd::prelude::*;
use secrecy::{ExposeSecret, SecretBox};
use std::time::Duration;
use crate::domain::subscriber_email::{
    SubscriberEmail, validator_accepts_email, invalid_email_message,
    has_single_at_after_local_part,
};

verus! {

/// Secret text: a `SecretBox<String>`, which is not printed and is wiped
/// when dropped. The box is a private field; `secret_text` names the text it
/// holds, and `new` and `expose_secret` are the only ways in and out.
#[verifier::external_body]
pub struct SecretString {
    inner: SecretBox<String>,
}

/// The text that a secret holds.
pub uninterp spec fn secret_text(secret: SecretString) -> Seq<char>;

impl SecretString {
    /// `SecretBox::new(Box::new(s))`: the box holds `s`.
    #[verifier::external_body]
    pub fn new(s: String) -> (secret: SecretString)
        ensures
            secret_text(secret) == s@,
    {
        SecretString { inner: SecretBox::new(Box::new(s)) }
    }

    /// `ExposeSecret::expose_secret`: the text the box holds.
    #[verifier::external_body]
    pub fn expose_secret(&self) -> (s: &String)
        ensures
            s@ == secret_text(*self),
    {
        self.inner.expose_secret()
    }
}

/// The duration that `Duration::from_millis` makes of a count of milliseconds.
pub uninterp spec fn duration_of_millis(ms: u64) -> Duration;

/// `Duration::from_millis`.
#[verifier::external_body]
fn duration_from_millis(ms: u64) -> (d: Duration)
    ensures
        d == duration_of_millis(ms),
{
    Duration::from_millis(ms)
}

pub struct Settings {
    pub database: DatabaseSettings,
    pub application_port: u16,
    pub email_client: EmailClientSettings,
}

pub struct DatabaseSettings {
    pub username: String,
    pub password: SecretString,
    pub port: u16,
    pub authentication: String,
    pub server_name: String,
    pub database_name: String,
    pub connection_string: String,
}

/// `Server={server};Database={database};Authentication={password}`
pub open spec fn spec_connection_string(
    server_name: Seq<char>,
    database_name: Seq<char>,
    password: Seq<char>,
) -> Seq<char> {
    "Server="@ + server_name + ";Database="@ + database_name + ";Authentication="@ + password
}

/// The connection string holds each setting whole, in place: `Server=`
/// (7 characters), the whole server name, `;Database=` (10), the whole
/// database name, `;Authentication=` (16), the whole password, and nothing
/// else. So a server name without `;` is exactly what stands between
/// `Server=` and the first `;`.
pub proof fn lemma_connection_string_holds_each_setting_whole(
    server_name: Seq<char>,
    database_name: Seq<char>,
    password: Seq<char>,
)
    ensures
        ({
            let c = spec_connection_string(server_name, database_name, password);
            let d: int = 7 + server_name.len() as int + 10;
            let p: int = d + database_name.len() + 16;
            &&& c.len() == p + password.len()
            &&& c.subrange(0, 7) == seq!['S', 'e', 'r', 'v', 'e', 'r', '=']
            &&& c.subrange(7, 7 + server_name.len() as int) == server_name
            &&& c[7 + server_name.len() as int] == ';'
            &&& c.subrange(d, d + database_name.len() as int) == database_name
            &&& c[d + database_name.len() as int] == ';'
            &&& c.subrange(p, p + password.len() as int) == password
        }),
{
    reveal_strlit("Server=");
    reveal_strlit(";Database=");
    reveal_strlit(";Authentication=");
    let c = spec_connection_string(server_name, database_name, password);
    let d: int = 7 + server_name.len() as int + 10;
    let p: int = d + database_name.len() + 16;
    assert(c.subrange(0, 7) =~= seq!['S', 'e', 'r', 'v', 'e', 'r', '=']);
    assert(c.subrange(7, 7 + server_name.len() as int) =~= server_name);
    assert(c.subrange(d, d + database_name.len() as int) =~= database_name);
    assert(c.subrange(p, p + password.len() as int) =~= password);
}

impl DatabaseSettings {
    /// The connection string built from the server, the database and the
    /// password, kept secret.
    pub fn getconnection_string(&self) -> (r: SecretString)
        ensures
            secret_text(r) == spec_connection_string(
                self.server_name@,
                self.database_name@,
                secret_text(self.password),
            ),
    {
        let s = String::from_str("Server=").concat(self.server_name.as_str()).concat(
            ";Database=",
        ).concat(self.database_name.as_str()).concat(";Authentication=").concat(
            self.password.expose_secret().as_str(),
        );
        SecretString::new(s)
    }
}

pub struct EmailClientSettings {
    pub base_url: String,
    pub sender_email: String,
    pub authorization_token: SecretString,
    pub timeout_milliseconds: u64,
}

impl EmailClientSettings {
    /// The sender address, when it is a valid subscriber email.
    pub fn sender(&self) -> (r: Result<SubscriberEmail, String>)
        ensures
            r is Ok <==> validator_accepts_email(self.sender_email@),
            r is Ok ==> has_single_at_after_local_part(self.sender_email@),
            r matches Ok(e) ==> e@ == self.sender_email@,
            r matches Err(m) ==> m@ == invalid_email_message(self.sender_email@),
    {
        SubscriberEmail::parse(self.sender_email.clone())
    }

    /// The timeout of the email client.
    pub fn timeout(&self) -> (d: Duration)
        ensures
            d == duration_of_millis(self.timeout_milliseconds),
    {
        duration_from_millis(self.timeout_milliseconds)
    }
}

/// The run mode named by the environment, or `development` when none is.
pub open spec fn spec_run_mode(from_environment: Option<Seq<char>>) -> Seq<char> {
    match from_environment {
        Some(m) => m,
        None => "development"@,
    }
}

/// A set `RUN_MODE` is the run mode, whatever its value; only an unset one
/// gives `development`.
pub proof fn lemma_run_mode_is_the_environment_value(m: Seq<char>)
    ensures
        spec_run_mode(Some(m)) == m,
        spec_run_mode(None) == seq!['d', 'e', 'v', 'e', 'l', 'o', 'p', 'm', 'e', 'n', 't'],
{
    reveal_strlit("development");
    assert(spec_run_mode(None) =~= seq!['d', 'e', 'v', 'e', 'l', 'o', 'p', 'm', 'e', 'n', 't']);
}

/// The run mode, whose settings file is read after the base one: the value
/// of `RUN_MODE` when it is set, `development` otherwise.
pub fn run_mode(from_environment: Option<String>) -> (m: String)
    ensures
        spec_run_mode(
            match from_environment {
                Some(s) => Some(s@),
                None => None,
            },
        ) == m@,
{
    match from_environment {
        Some(m) => m,
        None => String::from_str("development"),
    }
}

} // verus!
