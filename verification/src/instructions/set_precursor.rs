//! Configuration of trust: names the program whose voter weight records may be
//! aggregated in a realm and mint.
use vstd::prelude::*;
use crate::account::{AccountInfo, AccountState};
use crate::error::{DelegationError, Error};
use crate::governance::{lookup_realm_authority, spec_realm_authority};
use crate::pubkey::Pubkey;
use crate::state::settings::Settings;

verus! {

/// The accounts of a configuration of trust.
#[derive(Debug)]
pub struct SetPrecursor {
    /// Who asks for the change.
    pub signer: Pubkey,
    /// The settings of the realm and mint, created where they did not exist.
    pub settings: Settings,
    /// The governance program the realm belongs to.
    pub governance_program_id: Pubkey,
    /// The account of the realm.
    pub realm_info: AccountInfo,
}

/// The mathematical value of the accounts of a configuration of trust.
pub struct PrecursorState {
    pub signer: Pubkey,
    pub settings: Settings,
    pub governance_program_id: Pubkey,
    pub realm_info: AccountState,
}

impl View for SetPrecursor {
    type V = PrecursorState;

    open spec fn view(&self) -> PrecursorState {
        PrecursorState {
            signer: self.signer,
            settings: self.settings,
            governance_program_id: self.governance_program_id,
            realm_info: self.realm_info@,
        }
    }
}

/// The outcome of a configuration of trust: the settings, or the error. Only
/// the authority of the realm may configure; a realm without authority cannot
/// be configured.
pub open spec fn spec_set_precursor(ctx: PrecursorState, voter_weight_source: Pubkey) -> Result<
    Settings,
    Error,
> {
    match spec_realm_authority(ctx.governance_program_id, ctx.realm_info) {
        Err(code) => Err(Error::Governance(code)),
        Ok(None) => Err(Error::Delegation(DelegationError::NotRealmAuthority)),
        Ok(Some(authority)) => if authority != ctx.signer {
            Err(Error::Delegation(DelegationError::NotRealmAuthority))
        } else {
            Ok(Settings { voter_weight_source })
        },
    }
}

/// Names `voter_weight_source` as the program whose voter weight records may be
/// aggregated in the realm, for the governing token `mint` whose settings the
/// accounts hold. On an error nothing changes.
pub fn set_precursor(ctx: &mut SetPrecursor, mint: Pubkey, voter_weight_source: Pubkey) -> (r:
    Result<(), Error>)
    ensures
        match spec_set_precursor(old(ctx)@, voter_weight_source) {
            Ok(settings) => r is Ok && final(ctx)@ == PrecursorState { settings, ..old(ctx)@ },
            Err(e) => r == Err::<(), Error>(e) && final(ctx)@ == old(ctx)@,
        },
{
    let authority = match lookup_realm_authority(&ctx.governance_program_id, &ctx.realm_info) {
        Ok(authority) => authority,
        Err(code) => {
            return Err(Error::Governance(code));
        },
    };
    match authority {
        None => {
            return Err(Error::Delegation(DelegationError::NotRealmAuthority));
        },
        Some(authority) => {
            proof {
                crate::codec::lemma_pubkey_from_view(authority);
            }
            if authority != ctx.signer {
                return Err(Error::Delegation(DelegationError::NotRealmAuthority));
            }
        },
    }
    ctx.settings.voter_weight_source = voter_weight_source;
    Ok(())
}

} // verus!
