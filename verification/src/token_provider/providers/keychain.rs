//! macOS Keychain token provider (the `notion-cli` generic password,
//! read with the `security` tool); elsewhere it finds nothing.

use vstd::prelude::*;

use crate::token_provider::TokenProvider;

verus! {

#[derive(Debug, Clone, Copy)]
pub struct KeychainProvider;

impl TokenProvider for KeychainProvider {
    fn name(&self) -> (n: &'static str)
        ensures
            n@ == "keychain"@,
    {
        "keychain"
    }
}

} // verus!
