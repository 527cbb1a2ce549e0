use vstd::prelude::*;
use anchor_lang::solana_program::pubkey::Pubkey;
use crate::error::WavexError;
use crate::records::Address;

verus! {

/// `256^k`: the number of values that fit in `k` bytes.
pub open spec fn pow256(k: nat) -> nat
    decreases k,
{
    if k == 0 {
        1
    } else {
        256 * pow256((k - 1) as nat)
    }
}

/// The `k` low-order bytes of `n`, least significant first.
pub open spec fn le_bytes(n: nat, k: nat) -> Seq<u8>
    decreases k,
{
    if k == 0 {
        Seq::empty()
    } else {
        seq![(n % 256) as u8] + le_bytes(n / 256, (k - 1) as nat)
    }
}

/// Namespace tag of template addresses: the bytes of "template".
pub open spec fn template_tag() -> Seq<u8> {
    seq![116u8, 101u8, 109u8, 112u8, 108u8, 97u8, 116u8, 101u8]
}

/// Namespace tag of balance addresses: the bytes of "balance".
pub open spec fn balance_tag() -> Seq<u8> {
    seq![98u8, 97u8, 108u8, 97u8, 110u8, 99u8, 101u8]
}

/// The program address and bump found for a namespace tag and a seed under a
/// program, or `None` where no bump gives an address off the curve.
pub uninterp spec fn program_address(tag: Seq<u8>, seed: Seq<u8>, program_id: Seq<u8>) -> Option<
    (Seq<u8>, u8),
>;

/// The view of a found address and bump.
pub open spec fn found_view(r: Option<(Address, u8)>) -> Option<(Seq<u8>, u8)> {
    match r {
        Some((a, bump)) => Some((a@, bump)),
        None => None,
    }
}

/// The view of a derivation's outcome as the library reports it.
pub open spec fn derived_view(r: Result<(Address, u8), WavexError>) -> Option<(Seq<u8>, u8)> {
    match r {
        Ok((a, bump)) => Some((a@, bump)),
        Err(_) => None,
    }
}

/// Relies on solana_program's `Pubkey::try_find_program_address` with the
/// seeds `[tag, seed]`: its result depends on the seeds and the program id
/// alone (a hash search over the bump seed).
#[verifier::external_body]
fn find_program_address(tag: &[u8], seed: &[u8], program_id: &Address) -> (r: Option<(Address, u8)>)
    ensures
        found_view(r) == program_address(tag@, seed@, program_id@),
{
    let program = Pubkey::new_from_array(program_id.bytes);
    Pubkey::try_find_program_address(&[tag, seed], &program).map(
        |(key, bump)| (Address { bytes: key.to_bytes() }, bump),
    )
}

/// The eight little-endian bytes of `n`.
pub fn u64_le_bytes(n: u64) -> (r: Vec<u8>)
    ensures
        r@ == le_bytes(n as nat, 8),
{
    let mut r: Vec<u8> = Vec::new();
    let mut v: u64 = n;
    let mut i: usize = 0;
    while i < 8
        invariant
            i <= 8,
            r@ + le_bytes(v as nat, (8 - i) as nat) == le_bytes(n as nat, 8),
        decreases 8 - i,
    {
        let ghost before = r@;
        let ghost rest = le_bytes((v / 256) as nat, (8 - i - 1) as nat);
        r.push((v % 256) as u8);
        assert(before + le_bytes(v as nat, (8 - i) as nat) =~= r@ + rest);
        v = v / 256;
        i = i + 1;
    }
    assert(r@ + le_bytes(v as nat, 0) =~= r@);
    r
}

fn template_tag_bytes() -> (r: Vec<u8>)
    ensures
        r@ == template_tag(),
{
    let r: Vec<u8> = vec![116u8, 101u8, 109u8, 112u8, 108u8, 97u8, 116u8, 101u8];
    assert(r@ =~= template_tag());
    r
}

fn balance_tag_bytes() -> (r: Vec<u8>)
    ensures
        r@ == balance_tag(),
{
    let r: Vec<u8> = vec![98u8, 97u8, 108u8, 97u8, 110u8, 99u8, 101u8];
    assert(r@ =~= balance_tag());
    r
}

/// Derives a program address from a namespace tag and a seed, failing with
/// `DerivationError` where none exists.
pub fn derive_address(tag: &[u8], seed: &[u8], program_id: &Address) -> (r: Result<
    (Address, u8),
    WavexError,
>)
    ensures
        derived_view(r) == program_address(tag@, seed@, program_id@),
        r is Err ==> r == Err::<(Address, u8), WavexError>(WavexError::DerivationError),
{
    match find_program_address(tag, seed, program_id) {
        Some(found) => Ok(found),
        None => Err(WavexError::DerivationError),
    }
}

/// The address of the template with the given id: tag "template", seed the
/// id's eight little-endian bytes.
pub fn template_address(template_id: u64, program_id: &Address) -> (r: Result<
    (Address, u8),
    WavexError,
>)
    ensures
        derived_view(r) == program_address(template_tag(), le_bytes(template_id as nat, 8), program_id@),
        r is Err ==> r == Err::<(Address, u8), WavexError>(WavexError::DerivationError),
{
    let tag = template_tag_bytes();
    let seed = u64_le_bytes(template_id);
    derive_address(tag.as_slice(), seed.as_slice(), program_id)
}

/// The address of the balance record of a token holding: tag "balance",
/// seed the holding's address bytes.
pub fn balance_address(token_account: &Address, program_id: &Address) -> (r: Result<
    (Address, u8),
    WavexError,
>)
    ensures
        derived_view(r) == program_address(balance_tag(), token_account@, program_id@),
        r is Err ==> r == Err::<(Address, u8), WavexError>(WavexError::DerivationError),
{
    let tag = balance_tag_bytes();
    derive_address(tag.as_slice(), &token_account.bytes, program_id)
}

} // verus!
