//! Vote-weight delegation: delegators' voter weight is folded into a delegate's
//! record exactly once per source, kept fresh for a short window, unwound on
//! revocation and reclaimed once dead.
use vstd::prelude::*;

pub mod account;
pub mod codec;
pub mod error;
pub mod governance;
pub mod instructions;
pub mod pubkey;
pub mod state;
pub mod tools;

use crate::pubkey::Pubkey;

verus! {

/// The address of this program, under which all of its records are derived.
pub open spec fn spec_id() -> Pubkey {
    Pubkey {
        bytes: [
            218u8, 7, 92, 178, 255, 94, 198, 129, 118, 19, 222, 83, 11, 105, 42, 135,
            53, 71, 119, 105, 218, 71, 67, 12, 189, 129, 84, 51, 92, 74, 131, 39,
        ],
    }
}

/// The address of this program.
#[verifier::when_used_as_spec(spec_id)]
pub fn id() -> (r: Pubkey)
    ensures
        r == spec_id(),
{
    Pubkey {
        bytes: [
            218u8, 7, 92, 178, 255, 94, 198, 129, 118, 19, 222, 83, 11, 105, 42, 135,
            53, 71, 119, 105, 218, 71, 67, 12, 189, 129, 84, 51, 92, 74, 131, 39,
        ],
    }
}

} // verus!
