//! Thirty-two-byte account addresses and program-derived address lookup.
use vstd::prelude::*;

verus! {

/// Number of bytes in an account address.
pub const PUBKEY_BYTES: usize = 32;

/// A thirty-two-byte account address.
#[derive(Clone, Copy, Debug)]
pub struct Pubkey {
    pub bytes: [u8; 32],
}

impl View for Pubkey {
    type V = Seq<u8>;

    closed spec fn view(&self) -> Seq<u8> {
        self.bytes@
    }
}

/// An address is seen as its thirty-two bytes.
pub proof fn lemma_view_is_bytes(p: Pubkey)
    ensures
        p@ == p.bytes@,
{
}

/// The all-zero byte sequence of length 32.
pub open spec fn zero_bytes() -> Seq<u8> {
    Seq::new(32, |i: int| 0u8)
}

/// Returns whether two byte arrays hold the same bytes.
pub fn bytes32_equal(a: &[u8; 32], b: &[u8; 32]) -> (r: bool)
    ensures
        r == (a@ == b@),
{
    let mut i: usize = 0;
    while i < 32
        invariant
            0 <= i <= 32,
            a@.len() == 32,
            b@.len() == 32,
            forall|j: int| 0 <= j < i ==> a@[j] == b@[j],
        decreases 32 - i,
    {
        if a[i] != b[i] {
            return false;
        }
        i = i + 1;
    }
    assert(a@ =~= b@);
    true
}

/// Returns whether every byte of the array is zero.
pub fn bytes32_is_zero(a: &[u8; 32]) -> (r: bool)
    ensures
        r == (a@ == zero_bytes()),
{
    let mut i: usize = 0;
    while i < 32
        invariant
            0 <= i <= 32,
            a@.len() == 32,
            forall|j: int| 0 <= j < i ==> a@[j] == 0u8,
        decreases 32 - i,
    {
        if a[i] != 0 {
            assert(a@[i as int] != zero_bytes()[i as int]);
            return false;
        }
        i = i + 1;
    }
    assert(a@ =~= zero_bytes());
    true
}

impl Pubkey {
    /// Builds an address from its thirty-two bytes.
    pub fn new_from_array(bytes: [u8; 32]) -> (r: Pubkey)
        ensures
            r@ == bytes@,
    {
        Pubkey { bytes }
    }

    /// Returns the address's bytes.
    pub fn to_bytes(&self) -> (r: [u8; 32])
        ensures
            r@ == self@,
    {
        self.bytes
    }

    /// The all-zero address, used for "not yet set".
    pub fn zeroed() -> (r: Pubkey)
        ensures
            r@ == zero_bytes(),
    {
        let r = Pubkey { bytes: [0u8; 32] };
        assert(r@ =~= zero_bytes());
        r
    }

    /// Returns whether this is the all-zero address.
    pub fn is_default(&self) -> (r: bool)
        ensures
            r == (self@ == zero_bytes()),
    {
        bytes32_is_zero(&self.bytes)
    }
}

impl PartialEq for Pubkey {
    fn eq(&self, other: &Self) -> (r: bool) {
        bytes32_equal(&self.bytes, &other.bytes)
    }
}

impl Eq for Pubkey {}

impl vstd::std_specs::cmp::PartialEqSpecImpl for Pubkey {
    open spec fn obeys_eq_spec() -> bool {
        true
    }

    open spec fn eq_spec(&self, other: &Pubkey) -> bool {
        self@ == other@
    }
}

impl Default for Pubkey {
    fn default() -> (r: Pubkey)
        ensures
            r@ == zero_bytes(),
    {
        Pubkey::zeroed()
    }
}

} // verus!

verus! {

/// The bytes of the treasury router's program id,
/// `5mEQEoksSyTMJifw88UWGna81bY6ghWPJqHNFfDWcYD3`.
pub open spec fn program_id_bytes() -> Seq<u8> {
    seq![70u8, 195u8, 116u8, 153u8, 250u8, 195u8, 160u8, 236u8, 160u8, 190u8, 32u8, 236u8, 148u8, 151u8, 56u8, 145u8, 20u8, 206u8, 71u8, 182u8, 91u8, 206u8, 66u8, 93u8, 6u8, 52u8, 7u8, 47u8, 65u8, 139u8, 41u8, 94u8]
}

/// The treasury router's program id.
pub fn id() -> (r: Pubkey)
    ensures
        r@ == program_id_bytes(),
{
    let r = Pubkey { bytes: [70, 195, 116, 153, 250, 195, 160, 236, 160, 190, 32, 236, 148, 151, 56, 145, 20, 206, 71, 182, 91, 206, 66, 93, 6, 52, 7, 47, 65, 139, 41, 94] };
    assert(r@ =~= program_id_bytes());
    r
}

/// The address and bump that `Pubkey::try_find_program_address` derives from
/// the seeds `[seed]`, or `[seed, key_seed]` where a key seed is given, under
/// `program_id`; `None` where no bump yields an address off the curve.
pub uninterp spec fn program_address(seed: Seq<char>, key_seed: Option<Seq<u8>>, program_id: Seq<u8>) -> Option<(Seq<u8>, u8)>;

/// The view of an optional key seed.
pub open spec fn key_seed_view(key_seed: Option<&Pubkey>) -> Option<Seq<u8>> {
    match key_seed {
        Some(k) => Some(k@),
        None => None,
    }
}

/// Calls `Pubkey::try_find_program_address` with the seeds `[seed]`, or
/// `[seed, key]` where a key is given. Trusted: the result is only named, by
/// `program_address`; its derivation (SHA-256 and the curve check) is not
/// stated.
#[verifier::external_body]
pub(crate) fn find_program_address(seed: &str, key_seed: Option<&Pubkey>, program_id: &Pubkey) -> (r: Option<(Pubkey, u8)>)
    ensures
        match r {
            Some((k, b)) => program_address(seed@, key_seed_view(key_seed), program_id@) == Some((k@, b)),
            None => program_address(seed@, key_seed_view(key_seed), program_id@) is None,
        },
{
    let program = anchor_lang::prelude::Pubkey::new_from_array(program_id.bytes);
    let found = match key_seed {
        Some(key) => anchor_lang::prelude::Pubkey::try_find_program_address(&[seed.as_bytes(), &key.bytes], &program),
        None => anchor_lang::prelude::Pubkey::try_find_program_address(&[seed.as_bytes()], &program),
    };
    found.map(|(address, bump)| (Pubkey { bytes: address.to_bytes() }, bump))
}

} // verus!
