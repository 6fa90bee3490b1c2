//! The immutable configuration snapshot: the mailbox the gateway bridges and
//! the service credential pair that gates access to it. Reading the snapshot
//! from disk is the caller's concern; the core only consumes the values.

use vstd::prelude::*;

verus! {

/// The bridged mailbox, described by IMAP-style credentials.
pub struct IMAPConfig {
    pub username: String,
    pub password: String,
    pub email: String,
    pub host: String,
    pub port: u16,
    pub tls: bool,
}

/// The gateway's own service identity: the accepted Basic-auth pair and the
/// optional bind host and port.
pub struct JMAPConfig {
    pub username: String,
    pub password: String,
    pub host: Option<String>,
    pub port: Option<u16>,
}

pub struct Config {
    pub imap: IMAPConfig,
    pub jmap: JMAPConfig,
}

impl Clone for IMAPConfig {
    fn clone(&self) -> (r: Self)
        ensures
            r.username@ == self.username@,
            r.password@ == self.password@,
            r.email@ == self.email@,
            r.host@ == self.host@,
            r.port == self.port,
            r.tls == self.tls,
    {
        IMAPConfig {
            username: self.username.clone(),
            password: self.password.clone(),
            email: self.email.clone(),
            host: self.host.clone(),
            port: self.port,
            tls: self.tls,
        }
    }
}

impl Clone for JMAPConfig {
    fn clone(&self) -> (r: Self)
        ensures
            r.username@ == self.username@,
            r.password@ == self.password@,
            opt_str_view(r.host) == opt_str_view(self.host),
            r.port == self.port,
    {
        JMAPConfig {
            username: self.username.clone(),
            password: self.password.clone(),
            host: match &self.host {
                Some(h) => Some(h.clone()),
                None => None,
            },
            port: self.port,
        }
    }
}

impl Clone for Config {
    fn clone(&self) -> (r: Self)
        ensures
            r.imap.username@ == self.imap.username@,
            r.imap.password@ == self.imap.password@,
            r.imap.email@ == self.imap.email@,
            r.imap.host@ == self.imap.host@,
            r.imap.port == self.imap.port,
            r.imap.tls == self.imap.tls,
            r.jmap.username@ == self.jmap.username@,
            r.jmap.password@ == self.jmap.password@,
            opt_str_view(r.jmap.host) == opt_str_view(self.jmap.host),
            r.jmap.port == self.jmap.port,
    {
        Config { imap: self.imap.clone(), jmap: self.jmap.clone() }
    }
}

/// The view of an optional string field.
pub open spec fn opt_str_view(o: Option<String>) -> Option<Seq<char>> {
    match o {
        Some(s) => Some(s@),
        None => None,
    }
}

} // verus!
