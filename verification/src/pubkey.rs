//! Account addresses and the derivation of program addresses from seeds.
use vstd::prelude::*;
use vstd::std_specs::cmp::PartialEqSpecImpl;

verus! {

/// A 32-byte account address.
#[derive(Clone, Copy, Debug, Eq)]
pub struct Pubkey {
    pub bytes: [u8; 32],
}

impl View for Pubkey {
    type V = Seq<u8>;

    open spec fn view(&self) -> Seq<u8> {
        self.bytes@
    }
}

impl DeepView for Pubkey {
    type V = Seq<u8>;

    open spec fn deep_view(&self) -> Seq<u8> {
        self.bytes@
    }
}

impl PartialEq for Pubkey {
    fn eq(&self, other: &Pubkey) -> (r: bool) {
        let mut i: usize = 0;
        while i < 32
            invariant
                i <= 32,
                forall|j: int| 0 <= j < i ==> self.bytes[j] == other.bytes[j],
            decreases 32 - i,
        {
            if self.bytes[i] != other.bytes[i] {
                return false;
            }
            i += 1;
        }
        assert(self.bytes =~= other.bytes);
        true
    }
}

impl PartialEqSpecImpl for Pubkey {
    open spec fn obeys_eq_spec() -> bool {
        true
    }

    open spec fn eq_spec(&self, other: &Pubkey) -> bool {
        *self == *other
    }
}

impl Default for Pubkey {
    /// The all-zero address.
    fn default() -> (r: Pubkey)
        ensures
            r == Pubkey::spec_default(),
    {
        let r = Pubkey { bytes: [0u8;32] };
        assert(r.bytes =~= Pubkey::spec_default().bytes);
        r
    }
}

impl Pubkey {
    /// The all-zero address, which also names the system program.
    pub open spec fn spec_default() -> Pubkey {
        Pubkey {
            bytes: [
                0u8, 0, 0, 0, 0, 0, 0, 0, 0, 0, 0, 0, 0, 0, 0, 0,
                0, 0, 0, 0, 0, 0, 0, 0, 0, 0, 0, 0, 0, 0, 0, 0,
            ],
        }
    }

    /// The address as a byte vector, in the form a seed takes.
    pub fn to_vec(&self) -> (r: Vec<u8>)
        ensures
            r@ == self@,
    {
        let mut out: Vec<u8> = Vec::new();
        let mut i: usize = 0;
        while i < 32
            invariant
                i <= 32,
                out@ == self@.subrange(0, i as int),
            decreases 32 - i,
        {
            out.push(self.bytes[i]);
            assert(out@ =~= self@.subrange(0, i + 1));
            i += 1;
        }
        assert(out@ =~= self@);
        out
    }
}

/// Two addresses with the same bytes are the same address.
pub proof fn lemma_pubkey_ext(a: Pubkey, b: Pubkey)
    ensures
        a@.len() == 32,
        a@ == b@ <==> a == b,
{
    if a@ == b@ {
        assert(a.bytes =~= b.bytes);
    }
}

/// The value of a list of seeds is the list of the values of the seeds.
pub proof fn lemma_seeds_view(seeds: Vec<Vec<u8>>)
    ensures
        seeds.deep_view() == Seq::new(seeds@.len(), |i: int| seeds@[i]@),
{
    let expected = Seq::new(seeds@.len(), |i: int| seeds@[i]@);
    assert(seeds.deep_view().len() == seeds@.len());
    assert forall|i: int| 0 <= i < seeds@.len() implies seeds.deep_view()[i] == expected[i] by {
        assert(seeds.deep_view()[i] == seeds@[i].deep_view());
        assert(seeds@[i].deep_view() =~= seeds@[i]@);
    }
    assert(seeds.deep_view() =~= expected);
}

/// The program address, with its bump seed, that the address search yields for
/// `seeds` under `program_id`, or `None` where the search finds none.
pub uninterp spec fn program_address(seeds: Seq<Seq<u8>>, program_id: Seq<u8>) -> Option<
    (Seq<u8>, u8),
>;

/// Calls `solana_program::pubkey::Pubkey::try_find_program_address`.
///
/// The search hashes the seeds, a bump seed and the program id, and depends on
/// nothing else, so its outcome is `program_address` of the same seeds and program
/// id. It returns `None` rather than panicking when no bump seed yields an address
/// off the curve, when there are too many seeds, or when a seed is too long.
#[verifier::external_body]
pub(crate) fn find_program_address(seeds: &Vec<Vec<u8>>, program_id: &Pubkey) -> (r: Option<
    (Pubkey, u8),
>)
    ensures
        match r {
            Some((key, bump)) => program_address(seeds.deep_view(), program_id@) == Some(
                (key@, bump),
            ),
            None => program_address(seeds.deep_view(), program_id@) is None,
        },
{
    let slices: Vec<&[u8]> = seeds.iter().map(|s| s.as_slice()).collect();
    let id = solana_program::pubkey::Pubkey::new_from_array(program_id.bytes);
    solana_program::pubkey::Pubkey::try_find_program_address(&slices, &id).map(
        |(key, bump)| (Pubkey { bytes: key.to_bytes() }, bump),
    )
}

} // verus!
