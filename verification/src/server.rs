//! The process-wide immutable snapshot: configuration, the single account and
//! its identifier, and the bind address. Constructed once at startup and only
//! read afterwards, so request handlers can share it freely.

use vstd::prelude::*;
use crate::account::Account;
use crate::account::AccountId;
use crate::config::Config;

verus! {

pub struct ServerState {
    pub config: Config,
    pub account: Account,
    pub account_id: AccountId,
    pub address: String,
}

impl Clone for ServerState {
    fn clone(&self) -> (r: Self)
        ensures
            r.config.imap.email@ == self.config.imap.email@,
            r.config.jmap.username@ == self.config.jmap.username@,
            r.config.jmap.password@ == self.config.jmap.password@,
            r.account@ == self.account@,
            r.account_id@ == self.account_id@,
            r.address@ == self.address@,
    {
        ServerState {
            config: self.config.clone(),
            account: self.account.clone(),
            account_id: self.account_id.clone(),
            address: self.address.clone(),
        }
    }
}

impl ServerState {
    /// Builds the startup snapshot: one read-only personal account named by
    /// the configured mailbox address, with a freshly generated identifier.
    pub fn new(config: Config, address: String) -> (r: Self)
        ensures
            r.config == config,
            r.address == address,
            r.account@.name == config.imap.email@,
            r.account@.is_personal,
            r.account@.is_read_only,
            r.account@.account_capabilities == Seq::<(Seq<char>, Seq<char>)>::empty(),
            r.account_id@.len() == 37,
            r.account_id@.first() == 'A',
    {
        let account = Account::new(config.imap.email.clone(), true, true, None);
        let account_id = Account::generate_id();
        ServerState { config, account, account_id, address }
    }

    /// The credential gate: true exactly when both inbound Basic-auth fields
    /// match the configured service pair; never partial success. A failed
    /// check is the caller's cue to answer access-denied before any session
    /// is built.
    pub fn authenticate(&self, username: &str, password: &str) -> (r: bool)
        ensures
            r == (username@ == self.config.jmap.username@ && password@
                == self.config.jmap.password@),
    {
        let u: String = username.to_owned();
        let p: String = password.to_owned();
        let user_ok = u == self.config.jmap.username;
        let pass_ok = p == self.config.jmap.password;
        user_ok && pass_ok
    }
}

} // verus!
