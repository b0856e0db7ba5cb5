//! Environment variable token provider (`NOTION_TOKEN`).

use vstd::prelude::*;

use crate::token_provider::TokenProvider;

verus! {

#[derive(Debug, Clone, Copy)]
pub struct EnvProvider;

impl TokenProvider for EnvProvider {
    fn name(&self) -> (n: &'static str)
        ensures
            n@ == "env:NOTION_TOKEN"@,
    {
        "env:NOTION_TOKEN"
    }
}

} // verus!
