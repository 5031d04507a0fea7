//! Conversions into the library's values.

use crate::context_size::ContextSize;
use vstd::prelude::*;
use vstd::std_specs::convert::FromSpecImpl;

verus! {

impl From<u64> for ContextSize {
    fn from(value: u64) -> (tier: ContextSize) {
        ContextSize::from_tokens(value)
    }
}

impl FromSpecImpl<u64> for ContextSize {
    open spec fn obeys_from_spec() -> bool {
        true
    }

    open spec fn from_spec(value: u64) -> ContextSize {
        ContextSize::spec_from_tokens(value as nat)
    }
}

impl From<ContextSize> for u64 {
    fn from(value: ContextSize) -> (tokens: u64) {
        value.tokens()
    }
}

impl FromSpecImpl<ContextSize> for u64 {
    open spec fn obeys_from_spec() -> bool {
        true
    }

    open spec fn from_spec(value: ContextSize) -> u64 {
        value.spec_tokens() as u64
    }
}

} // verus!
