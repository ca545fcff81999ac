//! Account addresses and program derived addresses.
use vstd::prelude::*;

verus! {

/// A 32-byte account address.
#[derive(Clone, Copy, Debug)]
pub struct Pubkey {
    pub bytes: [u8; 32],
}

impl View for Pubkey {
    type V = Seq<u8>;

    open spec fn view(&self) -> Seq<u8> {
        self.bytes@
    }
}

/// Two keys are equal exactly when their views are equal.
pub broadcast proof fn lemma_pubkey_view_injective(a: Pubkey, b: Pubkey)
    ensures
        #![trigger a@, b@]
        (a@ == b@) <==> a == b,
{
    broadcast use vstd::array::group_array_axioms;

    if a@ == b@ {
        assert(a.bytes =~= b.bytes);
    }
}

impl PartialEq for Pubkey {
    fn eq(&self, other: &Self) -> (r: bool) {
        let mut i: usize = 0;
        while i < 32
            invariant
                0 <= i <= 32,
                forall|j: int| 0 <= j < i ==> self.bytes@[j] == other.bytes@[j],
            decreases 32 - i,
        {
            if self.bytes[i] != other.bytes[i] {
                return false;
            }
            i = i + 1;
        }
        proof {
            assert(self.bytes@ =~= other.bytes@);
            lemma_pubkey_view_injective(*self, *other);
        }
        true
    }
}

impl Eq for Pubkey {}

impl vstd::std_specs::cmp::PartialEqSpecImpl for Pubkey {
    open spec fn obeys_eq_spec() -> bool {
        true
    }

    open spec fn eq_spec(&self, other: &Pubkey) -> bool {
        *self == *other
    }
}

impl Pubkey {
    /// Makes a key from its 32 bytes.
    pub fn new_from_array(bytes: [u8; 32]) -> (r: Pubkey)
        ensures
            r.bytes == bytes,
    {
        Pubkey { bytes }
    }

    /// The 32 bytes of the key.
    pub fn to_bytes(&self) -> (r: [u8; 32])
        ensures
            r == self.bytes,
    {
        self.bytes
    }
}

/// Compares two optional keys.
pub fn option_key_eq(a: &Option<Pubkey>, b: &Option<Pubkey>) -> (r: bool)
    ensures
        r == (*a == *b),
{
    match (a, b) {
        (Some(x), Some(y)) => *x == *y,
        (None, None) => true,
        _ => false,
    }
}

/// Names the address and bump seed that `Pubkey::try_find_program_address`
/// of solana_program derives from the seeds and the program id, or `None`
/// where it derives none.
pub uninterp spec fn spec_try_find_program_address(
    seeds: Seq<Seq<u8>>,
    program_id: Seq<u8>,
) -> Option<(Seq<u8>, u8)>;

/// Whether a program address can be derived from the seeds for the program.
pub open spec fn program_address_exists(seeds: Seq<Seq<u8>>, program_id: Seq<u8>) -> bool {
    spec_try_find_program_address(seeds, program_id) is Some
}

/// The program address derived from the seeds for the program.
pub open spec fn program_address(seeds: Seq<Seq<u8>>, program_id: Seq<u8>) -> Seq<u8> {
    spec_try_find_program_address(seeds, program_id).unwrap().0
}

/// Calls `solana_program::pubkey::Pubkey::try_find_program_address`.
/// The contract claims only that the address and bump seed it returns, or its
/// `None`, are the named result for the given seeds and program id: the same
/// seeds and program id always give the same answer.
#[verifier::external_body]
fn solana_try_find_program_address(seeds: &Vec<Vec<u8>>, program_id: &Pubkey) -> (res: Option<
    (Pubkey, u8),
>)
    ensures
        match res {
            Some((k, b)) => spec_try_find_program_address(seeds.deep_view(), program_id@) == Some(
                (k@, b),
            ),
            None => spec_try_find_program_address(seeds.deep_view(), program_id@) is None,
        },
{
    let seed_refs: Vec<&[u8]> = seeds.iter().map(|s| s.as_slice()).collect();
    let pid = solana_program::pubkey::Pubkey::new_from_array(program_id.bytes);
    match solana_program::pubkey::Pubkey::try_find_program_address(&seed_refs, &pid) {
        Some((k, b)) => Some((Pubkey { bytes: k.to_bytes() }, b)),
        None => None,
    }
}

/// Derives the program address and bump seed for the seeds, or `None` where
/// no address can be derived from them.
pub fn try_find_program_address(seeds: &Vec<Vec<u8>>, program_id: &Pubkey) -> (res: Option<
    (Pubkey, u8),
>)
    ensures
        res is Some <==> program_address_exists(seeds.deep_view(), program_id@),
        res matches Some((k, b)) ==> spec_try_find_program_address(seeds.deep_view(), program_id@)
            == Some((k@, b)),
{
    solana_try_find_program_address(seeds, program_id)
}

/// Derives the program address and bump seed for the seeds.
pub fn find_program_address(seeds: &Vec<Vec<u8>>, program_id: &Pubkey) -> (res: (Pubkey, u8))
    requires
        program_address_exists(seeds.deep_view(), program_id@),
    ensures
        spec_try_find_program_address(seeds.deep_view(), program_id@) == Some((res.0@, res.1)),
{
    match solana_try_find_program_address(seeds, program_id) {
        Some(r) => r,
        None => {
            proof {
                assert(false);
            }
            (*program_id, 0)
        },
    }
}

} // verus!
