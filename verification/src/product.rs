//! The product whose limits are displayed, by the names it goes by.

use vstd::prelude::*;

verus! {

/// A product's two names.
pub struct Product {
    /// As it stands in the names of commands, directories and models.
    pub name: String,
    /// As its desktop application writes it.
    pub title: String,
}

/// Where a password is kept in the keychain.
pub struct KeychainEntry {
    pub service: String,
    pub account: String,
}

impl Product {
    /// Where the desktop application's password is kept in the keychain.
    pub fn keychain_entry(&self) -> (r: KeychainEntry)
        ensures
            r.service@ == self.title@ + " Safe Storage"@,
            r.account@ == self.title@ + " Key"@,
    {
        KeychainEntry {
            service: self.safe_storage_service(),
            account: self.safe_storage_account(),
        }
    }

    /// The service that the desktop application's key is kept under in the keychain.
    pub fn safe_storage_service(&self) -> (r: String)
        ensures
            r@ == self.title@ + " Safe Storage"@,
    {
        let mut text: String = self.title.clone();
        text.append(" Safe Storage");
        text
    }

    /// The account that the desktop application's key is kept under in the keychain.
    pub fn safe_storage_account(&self) -> (r: String)
        ensures
            r@ == self.title@ + " Key"@,
    {
        let mut text: String = self.title.clone();
        text.append(" Key");
        text
    }
}

} // verus!
