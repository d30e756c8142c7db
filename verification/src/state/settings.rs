//! The settings of a realm and governing token mint: which program's voter
//! weight records may be aggregated.
use vstd::prelude::*;
use crate::pubkey::{find_program_address, program_address, Pubkey};

verus! {

/// The trust configuration of one realm and governing token mint.
#[derive(Clone, Copy, Debug, PartialEq, Eq)]
pub struct Settings {
    /// The only program whose voter weight records are accepted as sources of an
    /// aggregation.
    pub voter_weight_source: Pubkey,
}

/// The seed that marks the address of a settings record.
pub open spec fn spec_settings_tag() -> Seq<u8> {
    seq![115u8, 101, 116, 116, 105, 110, 103, 115]
}

impl Settings {
    /// The seeds of a settings record's address: the tag, the realm and the mint.
    pub open spec fn spec_pda_seeds(realm: Pubkey, governing_token_mint: Pubkey) -> Seq<Seq<u8>> {
        seq![spec_settings_tag(), realm@, governing_token_mint@]
    }

    /// The seeds of a settings record's address.
    pub fn get_pda_seeds(realm: &Pubkey, governing_token_mint: &Pubkey) -> (r: Vec<Vec<u8>>)
        ensures
            r.deep_view() == Self::spec_pda_seeds(*realm, *governing_token_mint),
    {
        let tag: Vec<u8> = vec![115u8, 101, 116, 116, 105, 110, 103, 115];
        assert(tag@ =~= spec_settings_tag());
        let mut seeds: Vec<Vec<u8>> = Vec::new();
        seeds.push(tag);
        seeds.push(realm.to_vec());
        seeds.push(governing_token_mint.to_vec());
        proof {
            let expected = Self::spec_pda_seeds(*realm, *governing_token_mint);
            crate::pubkey::lemma_seeds_view(seeds);
            assert(seeds.deep_view() =~= expected);
        }
        seeds
    }

    /// Settings of different realms or mints have different seeds.
    pub proof fn lemma_pda_seeds_injective(
        realm1: Pubkey,
        mint1: Pubkey,
        realm2: Pubkey,
        mint2: Pubkey,
    )
        requires
            Self::spec_pda_seeds(realm1, mint1) == Self::spec_pda_seeds(realm2, mint2),
        ensures
            realm1 == realm2,
            mint1 == mint2,
    {
        let s1 = Self::spec_pda_seeds(realm1, mint1);
        let s2 = Self::spec_pda_seeds(realm2, mint2);
        assert(s1[1] == s2[1] && s1[2] == s2[2]);
        crate::pubkey::lemma_pubkey_ext(realm1, realm2);
        crate::pubkey::lemma_pubkey_ext(mint1, mint2);
    }

    /// The address search for a settings record, as a mathematical value.
    pub open spec fn spec_pda_address(realm: Pubkey, governing_token_mint: Pubkey) -> Option<
        (Seq<u8>, u8),
    > {
        program_address(Self::spec_pda_seeds(realm, governing_token_mint), crate::spec_id()@)
    }

    /// The address of the settings of a realm and mint, for inputs whose address
    /// search succeeds.
    pub fn get_pda_address(realm: &Pubkey, governing_token_mint: &Pubkey) -> (r: Pubkey)
        requires
            Self::spec_pda_address(*realm, *governing_token_mint) is Some,
        ensures
            Self::spec_pda_address(*realm, *governing_token_mint) matches Some(found) && found.0
                == r@,
    {
        let seeds = Self::get_pda_seeds(realm, governing_token_mint);
        find_program_address(&seeds, &crate::id()).unwrap().0
    }

    /// The address of the settings of a realm and mint, or `None` where the
    /// address search finds none.
    pub fn try_get_pda_address(realm: &Pubkey, governing_token_mint: &Pubkey) -> (r: Option<
        Pubkey,
    >)
        ensures
            match Self::spec_pda_address(*realm, *governing_token_mint) {
                Some(found) => r matches Some(key) && key@ == found.0,
                None => r is None,
            },
    {
        let seeds = Self::get_pda_seeds(realm, governing_token_mint);
        if find_program_address(&seeds, &crate::id()).is_some() {
            Some(Self::get_pda_address(realm, governing_token_mint))
        } else {
            None
        }
    }
}

} // verus!
