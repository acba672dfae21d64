//! Secret Service / native keyring access. Settings never contain passwords.
use vstd::prelude::*;

use crate::text::{chars_of, push_str, string_of};

verus! {

/// The keyring's entry type.
#[verifier::external_type_specification]
#[verifier::external_body]
pub struct ExKeyringEntry(keyring::Entry);

/// The service every entry of this app is stored under.
pub const SERVICE: &'static str = "com.npvinh.gp-client";

/// How a keyring call failed: the `keyring::Error` variants this app tells
/// apart, and every other one. Each holds the error's whole message, as
/// `keyring::Error` displays it.
pub enum KeyringError {
    /// `NoEntry`: there is no such entry.
    NoEntry(String),
    /// `NoStorageAccess`: the store cannot be reached, typically because it
    /// is locked.
    NoStorageAccess(String),
    /// `PlatformFailure`: the platform's store failed.
    PlatformFailure(String),
    /// Any other failure.
    Other(String),
}

/// The account an entry is stored under: portal and username, one per line.
pub open spec fn account_of(portal: Seq<char>, username: Seq<char>) -> Seq<char> {
    portal + "\n"@ + username
}

/// The account an entry is stored under: portal and username, one per line.
pub fn account(portal: &str, username: &str) -> (r: String)
    ensures
        r@ == account_of(portal@, username@),
{
    let mut out = chars_of(portal);
    push_str(&mut out, "\n");
    push_str(&mut out, username);
    string_of(&out)
}

/// Calls `keyring::Entry::new`. What comes back depends on the machine's
/// credential store, so the contract promises nothing of it.
#[verifier::external_body]
fn open_entry(service: &str, account: &str) -> (r: Result<keyring::Entry, KeyringError>) {
    match keyring::Entry::new(service, account) {
        Ok(v) => Ok(v),
        Err(e @ keyring::Error::NoEntry) => Err(KeyringError::NoEntry(e.to_string())),
        Err(e @ keyring::Error::NoStorageAccess(_)) => Err(KeyringError::NoStorageAccess(e.to_string())),
        Err(e @ keyring::Error::PlatformFailure(_)) => Err(KeyringError::PlatformFailure(e.to_string())),
        Err(e) => Err(KeyringError::Other(e.to_string())),
    }
}

/// Calls `keyring::Entry::get_password`. What comes back depends on the
/// store's contents, so the contract promises nothing of it.
#[verifier::external_body]
fn read_password(entry: &keyring::Entry) -> (r: Result<String, KeyringError>) {
    match entry.get_password() {
        Ok(v) => Ok(v),
        Err(e @ keyring::Error::NoEntry) => Err(KeyringError::NoEntry(e.to_string())),
        Err(e @ keyring::Error::NoStorageAccess(_)) => Err(KeyringError::NoStorageAccess(e.to_string())),
        Err(e @ keyring::Error::PlatformFailure(_)) => Err(KeyringError::PlatformFailure(e.to_string())),
        Err(e) => Err(KeyringError::Other(e.to_string())),
    }
}

/// Calls `keyring::Entry::set_password`. Whether it succeeds depends on the
/// store, so the contract promises nothing of it.
#[verifier::external_body]
fn write_password(entry: &keyring::Entry, password: &str) -> (r: Result<(), KeyringError>) {
    match entry.set_password(password) {
        Ok(v) => Ok(v),
        Err(e @ keyring::Error::NoEntry) => Err(KeyringError::NoEntry(e.to_string())),
        Err(e @ keyring::Error::NoStorageAccess(_)) => Err(KeyringError::NoStorageAccess(e.to_string())),
        Err(e @ keyring::Error::PlatformFailure(_)) => Err(KeyringError::PlatformFailure(e.to_string())),
        Err(e) => Err(KeyringError::Other(e.to_string())),
    }
}

/// Calls `keyring::Entry::delete_credential`. Whether it succeeds depends on
/// the store, so the contract promises nothing of it.
#[verifier::external_body]
fn remove_credential(entry: &keyring::Entry) -> (r: Result<(), KeyringError>) {
    match entry.delete_credential() {
        Ok(v) => Ok(v),
        Err(e @ keyring::Error::NoEntry) => Err(KeyringError::NoEntry(e.to_string())),
        Err(e @ keyring::Error::NoStorageAccess(_)) => Err(KeyringError::NoStorageAccess(e.to_string())),
        Err(e @ keyring::Error::PlatformFailure(_)) => Err(KeyringError::PlatformFailure(e.to_string())),
        Err(e) => Err(KeyringError::Other(e.to_string())),
    }
}

/// The message of a keyring failure.
pub open spec fn error_message(e: KeyringError) -> Seq<char> {
    match e {
        KeyringError::NoEntry(m) => m@,
        KeyringError::NoStorageAccess(m) => m@,
        KeyringError::PlatformFailure(m) => m@,
        KeyringError::Other(m) => m@,
    }
}

fn message_of(e: KeyringError) -> (r: String)
    ensures
        r@ == error_message(e),
{
    match e {
        KeyringError::NoEntry(m) => m,
        KeyringError::NoStorageAccess(m) => m,
        KeyringError::PlatformFailure(m) => m,
        KeyringError::Other(m) => m,
    }
}

/// Whether a probe of the store says it is usable: reading an entry that
/// does not exist is fine, a store that cannot be reached or that fails is
/// not. A missing
/// Secret Service is a normal desktop configuration, so callers keep the
/// form usable either way.
pub open spec fn usable(probe: Result<(), KeyringError>) -> bool {
    match probe {
        Ok(()) => true,
        Err(KeyringError::NoEntry(_)) => true,
        Err(KeyringError::NoStorageAccess(_)) => false,
        Err(KeyringError::PlatformFailure(_)) => false,
        Err(KeyringError::Other(_)) => true,
    }
}

/// Whether a probe of the store says it is usable.
pub fn availability(probe: Result<(), KeyringError>) -> (r: bool)
    ensures
        r == usable(probe),
{
    match probe {
        Ok(()) => true,
        Err(KeyringError::NoEntry(_)) => true,
        Err(KeyringError::NoStorageAccess(_)) => false,
        Err(KeyringError::PlatformFailure(_)) => false,
        Err(KeyringError::Other(_)) => true,
    }
}

/// Whether the store is usable. The store is probed once, by reading an
/// entry nobody writes (an entry that cannot even be made means there is no
/// store); `known` keeps what the probe found, and later calls give that back
/// without asking the store again. The caller keeps `known` for as long as
/// the process runs.
pub fn is_available(known: &mut Option<bool>) -> (r: bool)
    ensures
        *old(known) matches Some(b) ==> r == b && *final(known) == *old(known),
        *old(known) is None ==> *final(known) == Some(r),
{
    match *known {
        Some(b) => b,
        None => {
            let name = account("availability-probe", "gp-client");
            let found = match open_entry(SERVICE, name.as_str()) {
                Err(_) => false,
                Ok(entry) => {
                    let probe = match read_password(&entry) {
                        Ok(_) => Ok(()),
                        Err(e) => Err(e),
                    };
                    availability(probe)
                },
            };
            *known = Some(found);
            found
        },
    }
}

/// The saved password for a portal and username, if the store has one.
pub fn get(portal: &str, username: &str) -> (r: Option<String>) {
    let name = account(portal, username);
    match open_entry(SERVICE, name.as_str()) {
        Err(_) => None,
        Ok(entry) => match read_password(&entry) {
            Ok(p) => Some(p),
            Err(_) => None,
        },
    }
}

/// Saves the password for a portal and username.
pub fn set(portal: &str, username: &str, password: &str) -> (r: Result<(), String>) {
    let name = account(portal, username);
    match open_entry(SERVICE, name.as_str()) {
        Err(e) => Err(message_of(e)),
        Ok(entry) => match write_password(&entry, password) {
            Ok(()) => Ok(()),
            Err(e) => Err(message_of(e)),
        },
    }
}

/// What a deletion amounts to: an entry that was not there is as good as
/// deleted.
pub open spec fn deletion(outcome: Result<(), KeyringError>) -> Result<(), Seq<char>> {
    match outcome {
        Ok(()) => Ok(()),
        Err(KeyringError::NoEntry(_)) => Ok(()),
        Err(e) => Err(error_message(e)),
    }
}

/// What a deletion amounts to.
pub fn deletion_result(outcome: Result<(), KeyringError>) -> (r: Result<(), String>)
    ensures
        match deletion(outcome) {
            Ok(()) => r is Ok,
            Err(m) => r matches Err(x) && x@ == m,
        },
{
    match outcome {
        Ok(()) => Ok(()),
        Err(KeyringError::NoEntry(_)) => Ok(()),
        Err(e) => Err(message_of(e)),
    }
}

/// Forgets the password for a portal and username.
pub fn delete(portal: &str, username: &str) -> (r: Result<(), String>) {
    let name = account(portal, username);
    match open_entry(SERVICE, name.as_str()) {
        Err(e) => Err(message_of(e)),
        Ok(entry) => deletion_result(remove_credential(&entry)),
    }
}

} // verus!
